use jekuthiel::auth::event_of;
use jekuthiel::auth::AuthAction;
use jekuthiel::auth::AuthEvent;
use jekuthiel::auth::AuthFailure;
use jekuthiel::auth::AuthStage;
use jekuthiel::packets::s2c::AuthCheck;
use jekuthiel::packets::s2c::Ping;
use jekuthiel::packets::BNetIncomingPacket;
use jekuthiel::packets::PacketID;

fn accepted_events() -> Vec<AuthEvent> {
    vec![
        AuthEvent::Sent(PacketID::AUTHINFO),
        AuthEvent::Received(PacketID::AUTHINFO, 0),
        AuthEvent::Sent(PacketID::AUTHCHECK),
        AuthEvent::Received(PacketID::AUTHCHECK, 0),
        AuthEvent::Sent(PacketID::AUTHACCOUNTLOGON),
        AuthEvent::Received(PacketID::AUTHACCOUNTLOGON, 0),
        AuthEvent::Sent(PacketID::AUTHACCOUNTLOGONPROOF),
        AuthEvent::Received(PacketID::AUTHACCOUNTLOGONPROOF, 0),
        AuthEvent::ServerProofChecked(true),
    ]
}

#[test]
fn handshake_runs_through_when_every_step_is_accepted() {
    let mut stage = AuthStage::Connected;
    assert_eq!(stage.action(), AuthAction::Send(PacketID::AUTHINFO));
    for event in accepted_events() {
        assert_ne!(stage, AuthStage::Authenticated);
        stage = stage.next(event);
    }
    assert_eq!(stage, AuthStage::Authenticated);
    assert_eq!(stage.action(), AuthAction::Done);
    assert_eq!(stage.next(AuthEvent::Sent(PacketID::AUTHINFO)), AuthStage::Authenticated);
}

#[test]
fn handshake_asks_for_one_thing_at_a_time() {
    let expected = [
        AuthAction::Send(PacketID::AUTHINFO),
        AuthAction::Await(PacketID::AUTHINFO),
        AuthAction::Send(PacketID::AUTHCHECK),
        AuthAction::Await(PacketID::AUTHCHECK),
        AuthAction::Send(PacketID::AUTHACCOUNTLOGON),
        AuthAction::Await(PacketID::AUTHACCOUNTLOGON),
        AuthAction::Send(PacketID::AUTHACCOUNTLOGONPROOF),
        AuthAction::Await(PacketID::AUTHACCOUNTLOGONPROOF),
        AuthAction::CheckServerProof,
    ];
    let mut stage = AuthStage::Connected;
    for (event, action) in accepted_events().into_iter().zip(expected) {
        assert_eq!(stage.action(), action);
        stage = stage.next(event);
    }
}

#[test]
fn refused_check_ends_the_handshake() {
    let stage = AuthStage::SentAuthCheck.next(AuthEvent::Received(PacketID::AUTHCHECK, 0x101));
    assert_eq!(stage, AuthStage::Rejected(AuthFailure::CheckRefused(0x101)));
    assert_eq!(stage.action(), AuthAction::Failed(AuthFailure::CheckRefused(0x101)));
    assert_eq!(stage.next(AuthEvent::Sent(PacketID::AUTHACCOUNTLOGON)), stage);
}

#[test]
fn refused_logon_ends_the_handshake() {
    let stage =
        AuthStage::SentAccountLogon.next(AuthEvent::Received(PacketID::AUTHACCOUNTLOGON, 1));
    assert_eq!(stage, AuthStage::Rejected(AuthFailure::LogonRefused(1)));
}

#[test]
fn refused_proof_ends_the_handshake() {
    let stage = AuthStage::SentAccountLogonProof
        .next(AuthEvent::Received(PacketID::AUTHACCOUNTLOGONPROOF, 2));
    assert_eq!(stage, AuthStage::Rejected(AuthFailure::ProofRefused(2)));
}

#[test]
fn server_proof_that_does_not_stand_ends_the_handshake() {
    let stage = AuthStage::ReceivedAccountLogonProof.next(AuthEvent::ServerProofChecked(false));
    assert_eq!(stage, AuthStage::Rejected(AuthFailure::ServerProofMismatch));
}

#[test]
fn events_out_of_turn_end_the_handshake() {
    let out_of_turn = AuthStage::Rejected(AuthFailure::OutOfTurn);
    assert_eq!(AuthStage::Connected.next(AuthEvent::Sent(PacketID::AUTHCHECK)), out_of_turn);
    assert_eq!(AuthStage::SentAuthInfo.next(AuthEvent::Sent(PacketID::AUTHCHECK)), out_of_turn);
    assert_eq!(
        AuthStage::SentAuthInfo.next(AuthEvent::Received(PacketID::AUTHCHECK, 0)),
        out_of_turn
    );
    assert_eq!(
        AuthStage::Connected.next(AuthEvent::Received(PacketID::AUTHINFO, 0)),
        out_of_turn
    );
    assert_eq!(AuthStage::Connected.next(AuthEvent::ServerProofChecked(true)), out_of_turn);
}

#[test]
fn only_answers_of_the_handshake_are_events() {
    let check = BNetIncomingPacket::AuthCheck(AuthCheck { status: 5, info: vec![] });
    assert_eq!(event_of(&check), Some(AuthEvent::Received(PacketID::AUTHCHECK, 5)));
    assert_eq!(event_of(&BNetIncomingPacket::Ping(Ping { value: 1 })), None);
    assert_eq!(event_of(&BNetIncomingPacket::Null), None);
}
