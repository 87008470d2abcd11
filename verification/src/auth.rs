//! The order of the handshake that takes a connection from connected to
//! authenticated: four requests, each sent only after the answer to the one
//! before it has come, and each answer held to its status.

use vstd::prelude::*;

use crate::packets::BNetIncomingPacket;
use crate::packets::PacketID;

verus! {

/// The status with which the server accepts a step of the handshake.
pub const AUTH_STATUS_OK: u32 = 0;

/// Why the handshake ended without an authenticated connection.
#[derive(Clone, Copy, Debug, PartialEq, Eq, Structural)]
pub enum AuthFailure {
    /// The server refused the client's version or keys, with this status.
    CheckRefused(u32),
    /// The server refused the account, with this status.
    LogonRefused(u32),
    /// The server refused the client's proof, with this status.
    ProofRefused(u32),
    /// The server's own proof did not stand.
    ServerProofMismatch,
    /// A request was sent, or an answer came, out of turn.
    OutOfTurn,
}

/// How far the handshake has come.
#[derive(Clone, Copy, Debug, PartialEq, Eq, Structural)]
pub enum AuthStage {
    /// Connected; nothing sent yet.
    Connected,
    /// The opening request is sent and its answer awaited.
    SentAuthInfo,
    /// The server's opening has come; the check of version and keys is due.
    ReceivedAuthInfo,
    /// The check is sent and its answer awaited.
    SentAuthCheck,
    /// The server has accepted the check; the account logon is due.
    ReceivedAuthCheck,
    /// The account logon is sent and its answer awaited.
    SentAccountLogon,
    /// The server has accepted the account; the client's proof is due.
    ReceivedAccountLogon,
    /// The client's proof is sent and its answer awaited.
    SentAccountLogonProof,
    /// The server has accepted the client's proof; the server's own proof
    /// is to be checked.
    ReceivedAccountLogonProof,
    /// The connection is authenticated.
    Authenticated,
    /// The handshake has failed.
    Rejected(AuthFailure),
}

/// What moves the handshake on.
#[derive(Clone, Copy, Debug, PartialEq, Eq, Structural)]
pub enum AuthEvent {
    /// A request of this kind was handed to the transport.
    Sent(PacketID),
    /// An answer of this kind came, with this status. The server's opening
    /// carries no status and counts as accepted.
    Received(PacketID, u32),
    /// The server's proof was checked, and stood or did not.
    ServerProofChecked(bool),
}

/// What the handshake asks for next.
#[derive(Clone, Copy, Debug, PartialEq, Eq, Structural)]
pub enum AuthAction {
    /// Send a request of this kind.
    Send(PacketID),
    /// Wait for an answer of this kind.
    Await(PacketID),
    /// Check the server's proof.
    CheckServerProof,
    /// Nothing: the connection is authenticated.
    Done,
    /// Nothing: the handshake has failed.
    Failed(AuthFailure),
}

impl AuthStage {
    /// The number of steps of the handshake that are done.
    pub open spec fn rank(self) -> nat {
        match self {
            AuthStage::Connected => 0,
            AuthStage::SentAuthInfo => 1,
            AuthStage::ReceivedAuthInfo => 2,
            AuthStage::SentAuthCheck => 3,
            AuthStage::ReceivedAuthCheck => 4,
            AuthStage::SentAccountLogon => 5,
            AuthStage::ReceivedAccountLogon => 6,
            AuthStage::SentAccountLogonProof => 7,
            AuthStage::ReceivedAccountLogonProof => 8,
            AuthStage::Authenticated => 9,
            AuthStage::Rejected(_) => 0,
        }
    }

    /// What the handshake asks for at this stage.
    pub open spec fn spec_action(self) -> AuthAction {
        match self {
            AuthStage::Connected => AuthAction::Send(PacketID::AUTHINFO),
            AuthStage::SentAuthInfo => AuthAction::Await(PacketID::AUTHINFO),
            AuthStage::ReceivedAuthInfo => AuthAction::Send(PacketID::AUTHCHECK),
            AuthStage::SentAuthCheck => AuthAction::Await(PacketID::AUTHCHECK),
            AuthStage::ReceivedAuthCheck => AuthAction::Send(PacketID::AUTHACCOUNTLOGON),
            AuthStage::SentAccountLogon => AuthAction::Await(PacketID::AUTHACCOUNTLOGON),
            AuthStage::ReceivedAccountLogon => AuthAction::Send(PacketID::AUTHACCOUNTLOGONPROOF),
            AuthStage::SentAccountLogonProof => AuthAction::Await(PacketID::AUTHACCOUNTLOGONPROOF),
            AuthStage::ReceivedAccountLogonProof => AuthAction::CheckServerProof,
            AuthStage::Authenticated => AuthAction::Done,
            AuthStage::Rejected(why) => AuthAction::Failed(why),
        }
    }

    /// The stage that follows this one when the step it asks for is done
    /// and accepted.
    pub open spec fn successor(self) -> AuthStage {
        match self {
            AuthStage::Connected => AuthStage::SentAuthInfo,
            AuthStage::SentAuthInfo => AuthStage::ReceivedAuthInfo,
            AuthStage::ReceivedAuthInfo => AuthStage::SentAuthCheck,
            AuthStage::SentAuthCheck => AuthStage::ReceivedAuthCheck,
            AuthStage::ReceivedAuthCheck => AuthStage::SentAccountLogon,
            AuthStage::SentAccountLogon => AuthStage::ReceivedAccountLogon,
            AuthStage::ReceivedAccountLogon => AuthStage::SentAccountLogonProof,
            AuthStage::SentAccountLogonProof => AuthStage::ReceivedAccountLogonProof,
            AuthStage::ReceivedAccountLogonProof => AuthStage::Authenticated,
            AuthStage::Authenticated => AuthStage::Authenticated,
            AuthStage::Rejected(why) => AuthStage::Rejected(why),
        }
    }

    /// The failure that a refusing status means at a stage that awaits an
    /// answer of kind `id`.
    pub open spec fn refusal(id: PacketID, status: u32) -> AuthFailure {
        match id {
            PacketID::AUTHCHECK => AuthFailure::CheckRefused(status),
            PacketID::AUTHACCOUNTLOGON => AuthFailure::LogonRefused(status),
            PacketID::AUTHACCOUNTLOGONPROOF => AuthFailure::ProofRefused(status),
            _ => AuthFailure::OutOfTurn,
        }
    }

    /// The stage after an event. The one event that a stage asks for moves
    /// the handshake one step on, where the server accepts, and ends it
    /// with the refusal, where it does not. Any other event ends it as out
    /// of turn. A handshake that has ended stays as it is.
    pub open spec fn spec_next(self, event: AuthEvent) -> AuthStage {
        match (self.spec_action(), event) {
            (AuthAction::Done, _) => self,
            (AuthAction::Failed(_), _) => self,
            (AuthAction::Send(due), AuthEvent::Sent(id)) => if id == due {
                self.successor()
            } else {
                AuthStage::Rejected(AuthFailure::OutOfTurn)
            },
            (AuthAction::Await(due), AuthEvent::Received(id, status)) => if id != due {
                AuthStage::Rejected(AuthFailure::OutOfTurn)
            } else if status == AUTH_STATUS_OK {
                self.successor()
            } else {
                AuthStage::Rejected(Self::refusal(id, status))
            },
            (AuthAction::CheckServerProof, AuthEvent::ServerProofChecked(stood)) => if stood {
                AuthStage::Authenticated
            } else {
                AuthStage::Rejected(AuthFailure::ServerProofMismatch)
            },
            _ => AuthStage::Rejected(AuthFailure::OutOfTurn),
        }
    }

    /// What the handshake asks for at this stage.
    pub fn action(self) -> (action: AuthAction)
        ensures
            action == self.spec_action(),
    {
        match self {
            AuthStage::Connected => AuthAction::Send(PacketID::AUTHINFO),
            AuthStage::SentAuthInfo => AuthAction::Await(PacketID::AUTHINFO),
            AuthStage::ReceivedAuthInfo => AuthAction::Send(PacketID::AUTHCHECK),
            AuthStage::SentAuthCheck => AuthAction::Await(PacketID::AUTHCHECK),
            AuthStage::ReceivedAuthCheck => AuthAction::Send(PacketID::AUTHACCOUNTLOGON),
            AuthStage::SentAccountLogon => AuthAction::Await(PacketID::AUTHACCOUNTLOGON),
            AuthStage::ReceivedAccountLogon => AuthAction::Send(PacketID::AUTHACCOUNTLOGONPROOF),
            AuthStage::SentAccountLogonProof => AuthAction::Await(PacketID::AUTHACCOUNTLOGONPROOF),
            AuthStage::ReceivedAccountLogonProof => AuthAction::CheckServerProof,
            AuthStage::Authenticated => AuthAction::Done,
            AuthStage::Rejected(why) => AuthAction::Failed(why),
        }
    }

    /// The stage after an event.
    pub fn next(self, event: AuthEvent) -> (stage: AuthStage)
        ensures
            stage == self.spec_next(event),
    {
        let accepted = match self {
            AuthStage::Connected => AuthStage::SentAuthInfo,
            AuthStage::SentAuthInfo => AuthStage::ReceivedAuthInfo,
            AuthStage::ReceivedAuthInfo => AuthStage::SentAuthCheck,
            AuthStage::SentAuthCheck => AuthStage::ReceivedAuthCheck,
            AuthStage::ReceivedAuthCheck => AuthStage::SentAccountLogon,
            AuthStage::SentAccountLogon => AuthStage::ReceivedAccountLogon,
            AuthStage::ReceivedAccountLogon => AuthStage::SentAccountLogonProof,
            AuthStage::SentAccountLogonProof => AuthStage::ReceivedAccountLogonProof,
            AuthStage::ReceivedAccountLogonProof => AuthStage::Authenticated,
            AuthStage::Authenticated => AuthStage::Authenticated,
            AuthStage::Rejected(why) => AuthStage::Rejected(why),
        };
        match (self.action(), event) {
            (AuthAction::Done, _) => self,
            (AuthAction::Failed(_), _) => self,
            (AuthAction::Send(due), AuthEvent::Sent(id)) => {
                if id == due {
                    accepted
                } else {
                    AuthStage::Rejected(AuthFailure::OutOfTurn)
                }
            },
            (AuthAction::Await(due), AuthEvent::Received(id, status)) => {
                if id != due {
                    AuthStage::Rejected(AuthFailure::OutOfTurn)
                } else if status == AUTH_STATUS_OK {
                    accepted
                } else {
                    let why = match id {
                        PacketID::AUTHCHECK => AuthFailure::CheckRefused(status),
                        PacketID::AUTHACCOUNTLOGON => AuthFailure::LogonRefused(status),
                        PacketID::AUTHACCOUNTLOGONPROOF => AuthFailure::ProofRefused(status),
                        _ => AuthFailure::OutOfTurn,
                    };
                    AuthStage::Rejected(why)
                }
            },
            (AuthAction::CheckServerProof, AuthEvent::ServerProofChecked(stood)) => {
                if stood {
                    AuthStage::Authenticated
                } else {
                    AuthStage::Rejected(AuthFailure::ServerProofMismatch)
                }
            },
            _ => AuthStage::Rejected(AuthFailure::OutOfTurn),
        }
    }
}

/// The event that an incoming packet is to the handshake: an answer with
/// its status, for the four kinds that answer a request of the handshake,
/// and nothing for every other kind.
pub open spec fn spec_event_of(packet: BNetIncomingPacket) -> Option<AuthEvent> {
    match packet {
        BNetIncomingPacket::AuthInfo(_) => Some(
            AuthEvent::Received(PacketID::AUTHINFO, AUTH_STATUS_OK),
        ),
        BNetIncomingPacket::AuthCheck(answer) => Some(
            AuthEvent::Received(PacketID::AUTHCHECK, answer.status),
        ),
        BNetIncomingPacket::AuthAccountLogon(answer) => Some(
            AuthEvent::Received(PacketID::AUTHACCOUNTLOGON, answer.status),
        ),
        BNetIncomingPacket::AuthAccountLogonProof(answer) => Some(
            AuthEvent::Received(PacketID::AUTHACCOUNTLOGONPROOF, answer.status),
        ),
        _ => None,
    }
}

/// The event that an incoming packet is to the handshake.
pub fn event_of(packet: &BNetIncomingPacket) -> (event: Option<AuthEvent>)
    ensures
        event == spec_event_of(*packet),
{
    match packet {
        BNetIncomingPacket::AuthInfo(_) => Some(
            AuthEvent::Received(PacketID::AUTHINFO, AUTH_STATUS_OK),
        ),
        BNetIncomingPacket::AuthCheck(answer) => Some(
            AuthEvent::Received(PacketID::AUTHCHECK, answer.status),
        ),
        BNetIncomingPacket::AuthAccountLogon(answer) => Some(
            AuthEvent::Received(PacketID::AUTHACCOUNTLOGON, answer.status),
        ),
        BNetIncomingPacket::AuthAccountLogonProof(answer) => Some(
            AuthEvent::Received(PacketID::AUTHACCOUNTLOGONPROOF, answer.status),
        ),
        _ => None,
    }
}

/// The handshake is strict. An event either leaves an ended handshake as
/// it is, or ends it as failed, or is the one event that the stage asks
/// for and moves it exactly one step on. So no request is ever due while
/// an answer is awaited, and the connection is authenticated only after
/// every one of the four answers has come and been accepted.
pub proof fn lemma_strict_order(stage: AuthStage, event: AuthEvent)
    ensures
        ({
            let next = stage.spec_next(event);
            ||| next == stage && (stage is Authenticated || stage is Rejected)
            ||| next is Rejected
            ||| next == stage.successor() && next.rank() == stage.rank() + 1 && match (
                stage.spec_action(),
                event,
            ) {
                (AuthAction::Send(due), AuthEvent::Sent(id)) => id == due,
                (AuthAction::Await(due), AuthEvent::Received(id, status)) => id == due && status
                    == AUTH_STATUS_OK,
                (AuthAction::CheckServerProof, AuthEvent::ServerProofChecked(stood)) => stood,
                _ => false,
            }
        }),
{
}

} // verus!
