//! The order of the steps that open an authenticated session, and the error
//! each failing step reports.
//!
//! The steps themselves talk to the network and run outside the library:
//! after opening the TCP connection the caller asks [`ConnectFlow::action`]
//! what to do, performs it, and reports the outcome to
//! [`ConnectFlow::record`], until the action is [`ConnectAction::Finished`].
//! Nothing is retried.
use vstd::prelude::*;

use crate::text::{concat_text, same_text};

verus! {

/// How the user proves who they are.
#[derive(PartialEq, Eq, Structural, Clone, Copy, Debug)]
pub enum AuthKind {
    /// The credential is a password.
    Password,
    /// The credential is the path of a private key file.
    PublicKeyFile,
}

/// The step of a connection attempt at which something failed.
#[derive(PartialEq, Eq, Structural, Clone, Copy, Debug)]
pub enum ConnectStage {
    /// Opening the TCP connection.
    Connect,
    /// The transport handshake.
    Handshake,
    /// Asking which authentication methods the server offers.
    AuthMethods,
    /// Password authentication.
    PasswordAuth,
    /// Public-key authentication.
    PubkeyAuth,
    /// The check that the session reports itself authenticated.
    PostCheck,
}

/// What the caller performs next.
#[derive(PartialEq, Eq, Structural, Clone, Copy, Debug)]
pub enum ConnectAction {
    Handshake,
    QueryAuthMethods,
    PasswordAuth,
    PubkeyAuth,
    CheckAuthenticated,
    /// The session is open and authenticated.
    Finished,
}

/// The outcome of one performed action.
pub enum StepOutcome {
    Succeeded,
    /// The action failed, with the error's text (empty where the step has none).
    Failed(String),
}

/// A failed connection attempt: the step and the underlying error's text.
pub struct ConnectError {
    pub stage: ConnectStage,
    pub detail: String,
}

/// The kind of authentication an `auth_type` names: `"password"` selects
/// passwords, anything else a private key file.
pub open spec fn auth_kind_spec(auth_type: Seq<char>) -> AuthKind {
    if auth_type == "password"@ {
        AuthKind::Password
    } else {
        AuthKind::PublicKeyFile
    }
}

pub fn auth_kind_of(auth_type: &str) -> (r: AuthKind)
    ensures
        r == auth_kind_spec(auth_type@),
{
    if same_text(auth_type, "password") {
        AuthKind::Password
    } else {
        AuthKind::PublicKeyFile
    }
}

/// The actions of a successful attempt, in order, by position.
pub open spec fn action_at(kind: AuthKind, pos: nat) -> ConnectAction {
    if pos == 0 {
        ConnectAction::Handshake
    } else if pos == 1 {
        ConnectAction::QueryAuthMethods
    } else if pos == 2 {
        match kind {
            AuthKind::Password => ConnectAction::PasswordAuth,
            AuthKind::PublicKeyFile => ConnectAction::PubkeyAuth,
        }
    } else if pos == 3 {
        ConnectAction::CheckAuthenticated
    } else {
        ConnectAction::Finished
    }
}

/// The stage an action belongs to, for its error.
pub open spec fn stage_of(a: ConnectAction) -> ConnectStage {
    match a {
        ConnectAction::Handshake => ConnectStage::Handshake,
        ConnectAction::QueryAuthMethods => ConnectStage::AuthMethods,
        ConnectAction::PasswordAuth => ConnectStage::PasswordAuth,
        ConnectAction::PubkeyAuth => ConnectStage::PubkeyAuth,
        _ => ConnectStage::PostCheck,
    }
}

/// The words that open the message of an error at each stage.
pub open spec fn stage_prefix(stage: ConnectStage) -> Seq<char> {
    match stage {
        ConnectStage::Connect => ""@,
        ConnectStage::Handshake => "handshake error:"@,
        ConnectStage::AuthMethods => "auth root error :"@,
        ConnectStage::PasswordAuth => "userauth_password error :"@,
        ConnectStage::PubkeyAuth => "userauth_pubkey_file error :"@,
        ConnectStage::PostCheck => "authenticated wrong"@,
    }
}

fn prefix_of(stage: ConnectStage) -> (r: &'static str)
    ensures
        r@ == stage_prefix(stage),
{
    match stage {
        ConnectStage::Connect => "",
        ConnectStage::Handshake => "handshake error:",
        ConnectStage::AuthMethods => "auth root error :",
        ConnectStage::PasswordAuth => "userauth_password error :",
        ConnectStage::PubkeyAuth => "userauth_pubkey_file error :",
        ConnectStage::PostCheck => "authenticated wrong",
    }
}

impl ConnectError {
    /// The readable message: the stage's words, then the error's text.
    pub fn message(&self) -> (r: String)
        ensures
            r@ == stage_prefix(self.stage) + self.detail@,
    {
        concat_text(prefix_of(self.stage), self.detail.as_str())
    }
}

/// Where an attempt stands.
pub struct ConnectFlow {
    kind: AuthKind,
    pos: u8,
}

impl ConnectFlow {
    pub closed spec fn kind_spec(&self) -> AuthKind {
        self.kind
    }

    /// The number of actions already performed successfully.
    pub closed spec fn pos_spec(&self) -> nat {
        self.pos as nat
    }

    /// A new attempt, for a TCP connection already open.
    pub fn new(auth_type: &str) -> (r: ConnectFlow)
        ensures
            r.kind_spec() == auth_kind_spec(auth_type@),
            r.pos_spec() == 0,
    {
        ConnectFlow { kind: auth_kind_of(auth_type), pos: 0 }
    }

    /// The action to perform now.
    pub fn action(&self) -> (r: ConnectAction)
        ensures
            r == action_at(self.kind_spec(), self.pos_spec()),
    {
        if self.pos == 0 {
            ConnectAction::Handshake
        } else if self.pos == 1 {
            ConnectAction::QueryAuthMethods
        } else if self.pos == 2 {
            match self.kind {
                AuthKind::Password => ConnectAction::PasswordAuth,
                AuthKind::PublicKeyFile => ConnectAction::PubkeyAuth,
            }
        } else if self.pos == 3 {
            ConnectAction::CheckAuthenticated
        } else {
            ConnectAction::Finished
        }
    }

    /// Records the outcome of the current action. Success moves on to the
    /// next action; a failure gives the error of the current action's stage
    /// and leaves the attempt where it is.
    pub fn record(&mut self, outcome: StepOutcome) -> (r: Result<(), ConnectError>)
        requires
            action_at(old(self).kind_spec(), old(self).pos_spec()) != ConnectAction::Finished,
        ensures
            final(self).kind_spec() == old(self).kind_spec(),
            outcome is Succeeded ==> r is Ok && final(self).pos_spec() == old(self).pos_spec() + 1,
            outcome matches StepOutcome::Failed(d) ==> r matches Err(e) && e.stage == stage_of(
                action_at(old(self).kind_spec(), old(self).pos_spec()),
            ) && e.detail@ == d@ && final(self).pos_spec() == old(self).pos_spec(),
    {
        match outcome {
            StepOutcome::Succeeded => {
                self.pos = self.pos + 1;
                Ok(())
            },
            StepOutcome::Failed(detail) => {
                let stage = match self.action() {
                    ConnectAction::Handshake => ConnectStage::Handshake,
                    ConnectAction::QueryAuthMethods => ConnectStage::AuthMethods,
                    ConnectAction::PasswordAuth => ConnectStage::PasswordAuth,
                    ConnectAction::PubkeyAuth => ConnectStage::PubkeyAuth,
                    _ => ConnectStage::PostCheck,
                };
                Err(ConnectError { stage, detail })
            },
        }
    }
}

} // verus!
