//! The check of a username and a password against the expected pair.

use vstd::prelude::*;

verus! {

/// The pair of values that a client must present.
#[derive(Clone, Debug, PartialEq, Eq)]
pub struct Credentials {
    pub username: String,
    pub password: String,
}

pub struct CredentialsView {
    pub username: Seq<char>,
    pub password: Seq<char>,
}

impl CredentialsView {
    /// A pair is accepted when both of its halves are the expected ones.
    pub open spec fn accepts(self, username: Seq<char>, password: Seq<char>) -> bool {
        username == self.username && password == self.password
    }
}

impl View for Credentials {
    type V = CredentialsView;

    open spec fn view(&self) -> CredentialsView {
        CredentialsView { username: self.username@, password: self.password@ }
    }
}

/// The pair that is expected where nothing else was configured.
pub open spec fn spec_defaults() -> CredentialsView {
    CredentialsView { username: "user"@, password: "password"@ }
}

/// The expected pair after configuration: each half that was given replaces
/// the default one.
pub open spec fn spec_with_overrides(
    username: Option<Seq<char>>,
    password: Option<Seq<char>>,
) -> CredentialsView {
    CredentialsView {
        username: match username {
            Some(name) => name,
            None => spec_defaults().username,
        },
        password: match password {
            Some(word) => word,
            None => spec_defaults().password,
        },
    }
}

impl Credentials {
    /// The default pair: `user` and `password`.
    pub fn defaults() -> (credentials: Credentials)
        ensures
            credentials@ == spec_defaults(),
    {
        Credentials { username: "user".to_owned(), password: "password".to_owned() }
    }

    /// The default pair, with each half replaced by the configured value
    /// where there is one.
    pub fn with_overrides(username: Option<String>, password: Option<String>) -> (credentials:
        Credentials)
        ensures
            credentials@ == spec_with_overrides(
                match username {
                    Some(name) => Some(name@),
                    None => None,
                },
                match password {
                    Some(word) => Some(word@),
                    None => None,
                },
            ),
    {
        let username = match username {
            Some(name) => name,
            None => "user".to_owned(),
        };
        let password = match password {
            Some(word) => word,
            None => "password".to_owned(),
        };
        Credentials { username, password }
    }

    /// Whether the pair presented is the expected one. A plain comparison of
    /// values: one attempt, one answer.
    pub fn authenticate(&self, username: &str, password: &str) -> (accepted: bool)
        ensures
            accepted == self@.accepts(username@, password@),
    {
        let name = username.to_owned();
        let word = password.to_owned();
        name == self.username && word == self.password
    }
}

/// Against the defaults one pair is accepted, `user` with `password`, and
/// every other pair is refused.
pub proof fn defaults_accept_one_pair(username: Seq<char>, password: Seq<char>)
    ensures
        spec_defaults().accepts(username, password) <==> (username == "user"@ && password
            == "password"@),
{
}

/// Configured values change what a pair is held against and nothing else: a
/// pair is accepted exactly when its halves are the configured values, or
/// the defaults where none was configured.
pub proof fn overrides_replace_the_target(
    expected_name: Option<Seq<char>>,
    expected_word: Option<Seq<char>>,
    username: Seq<char>,
    password: Seq<char>,
)
    ensures
        spec_with_overrides(expected_name, expected_word).accepts(username, password) <==> (
        username == match expected_name {
            Some(name) => name,
            None => "user"@,
        } && password == match expected_word {
            Some(word) => word,
            None => "password"@,
        }),
{
}

} // verus!
