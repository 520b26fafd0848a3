//! The conversation abstraction: the capability through which the
//! authentication service asks the caller for credentials or displays
//! messages, and the built-in static credential supplier.

use vstd::prelude::*;

use vstd::string::StringExecFns;

verus! {

/// The kind of one prompt issued by the service during authentication.
#[derive(Clone, Copy, Debug, PartialEq, Eq, Structural)]
pub enum PromptKind {
    /// A visible text answer is expected (typically the login name).
    EchoOn,
    /// A secret answer is expected and must not be echoed.
    EchoOff,
    /// An error message to show; only acknowledgement is expected.
    ErrorMsg,
    /// An informational message to show; only acknowledgement is expected.
    TextInfo,
}

/// The answer given to one prompt.
#[derive(Debug, PartialEq, Eq)]
pub enum Response {
    /// A visible text answer.
    Text(String),
    /// A secret answer.
    Secret(String),
    /// Acknowledgement of a message that takes no answer.
    Ack,
}

/// Capability for answering the prompts the authentication service issues
/// while a transaction runs.  Implementations must answer or fail; they must
/// never panic, since the service invokes them through a callback boundary.
pub trait Conversation {
    /// The login name this conversation is authenticating; a variant that
    /// does not state one reports the empty name.
    open spec fn spec_username(&self) -> Seq<char> {
        Seq::empty()
    }

    /// Returns the login name this conversation is authenticating.  A
    /// variant that never asks interactively reports its preset login.
    fn username(&self) -> (name: String)
        ensures
            name@ == self.spec_username(),
    ;

    /// Responds to an ordered batch of prompts: on success, one response for
    /// each prompt, in order; on failure the whole authentication attempt is
    /// to fail with a conversation error.
    fn converse(&mut self, prompts: &Vec<(PromptKind, String)>) -> (answers: Result<
        Vec<Response>,
        (),
    >)
        ensures
            answers matches Ok(given) ==> given@.len() == prompts@.len(),
    ;
}

/// The static credential supplier: holds a fixed login and secret, answers
/// every visible prompt with the login and every secret prompt with the
/// secret, and acknowledges messages unconditionally.
pub struct PasswordConv {
    login: String,
    password: String,
}

impl PasswordConv {
    /// The preset login name.
    pub closed spec fn spec_login(&self) -> Seq<char> {
        self.login@
    }

    /// The preset secret.
    pub closed spec fn spec_password(&self) -> Seq<char> {
        self.password@
    }

    /// Creates a supplier with an empty login and secret.
    pub fn new() -> (c: PasswordConv)
        ensures
            c.spec_login() == Seq::<char>::empty(),
            c.spec_password() == Seq::<char>::empty(),
    {
        PasswordConv { login: String::new(), password: String::new() }
    }

    /// Presets the login and secret used to answer prompts.
    pub fn set_credentials(&mut self, login: &str, password: &str)
        ensures
            final(self).spec_login() == login@,
            final(self).spec_password() == password@,
    {
        self.login = String::from_str(login);
        self.password = String::from_str(password);
    }

    /// The answer this supplier gives to one prompt: the login for a visible
    /// prompt, the secret for a hidden one, acknowledgement otherwise.
    pub fn answer(&self, kind: PromptKind) -> (r: Response)
        ensures
            kind == PromptKind::EchoOn ==> (r matches Response::Text(t) && t@
                == self.spec_login()),
            kind == PromptKind::EchoOff ==> (r matches Response::Secret(s) && s@
                == self.spec_password()),
            kind == PromptKind::ErrorMsg || kind == PromptKind::TextInfo ==> r is Ack,
    {
        match kind {
            PromptKind::EchoOn => Response::Text(self.login.clone()),
            PromptKind::EchoOff => Response::Secret(self.password.clone()),
            PromptKind::ErrorMsg => Response::Ack,
            PromptKind::TextInfo => Response::Ack,
        }
    }
}

impl Conversation for PasswordConv {
    open spec fn spec_username(&self) -> Seq<char> {
        self.spec_login()
    }

    fn username(&self) -> (name: String) {
        self.login.clone()
    }

    fn converse(&mut self, prompts: &Vec<(PromptKind, String)>) -> (answers: Result<
        Vec<Response>,
        (),
    >) {
        let mut given: Vec<Response> = Vec::new();
        let mut i: usize = 0;
        while i < prompts.len()
            invariant
                i <= prompts@.len(),
                given@.len() == i,
            decreases prompts@.len() - i,
        {
            let kind = prompts[i].0;
            given.push(self.answer(kind));
            i = i + 1;
        }
        Ok(given)
    }
}

} // verus!
