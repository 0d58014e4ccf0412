use storescp::association::{
    AcceptancePolicy, AssociationRequest, CodecRegistry, NegotiationRejection, ProposedContext,
    TransferSyntaxInfo,
};
use storescp::dimse::{CommandMessage, StoreOutcome, C_ECHO_RQ, C_STORE_RQ, STATUS_SUCCESS};
use storescp::session::{Phase, Session, SessionAction, SessionEvent};

const NATIVE: &str = "1.2.840.10008.1.2";

fn setup() -> (AcceptancePolicy, CodecRegistry) {
    (
        AcceptancePolicy { strict: false, uncompressed_only: false, promiscuous: false, max_pdu_length: 16384 },
        CodecRegistry {
            transfer_syntaxes: vec![TransferSyntaxInfo { uid: NATIVE.to_string(), native: true }],
            abstract_syntaxes: vec!["X".to_string()],
        },
    )
}

fn request(abstract_syntax: &str) -> AssociationRequest {
    AssociationRequest {
        calling_ae_title: "SCU".to_string(),
        called_ae_title: "STORE-SCP".to_string(),
        contexts: vec![ProposedContext { id: 1, abstract_syntax: abstract_syntax.to_string(), transfer_syntaxes: vec![NATIVE.to_string()] }],
        max_pdu_length: 32768,
    }
}

#[test]
fn session_runs_echo_store_and_release() {
    let (p, r) = setup();
    let mut s = Session::new();
    assert!(matches!(s.step(&p, &r, SessionEvent::AssociationRequested(request("X"))), SessionAction::SendAccept));
    assert_eq!(s.association.as_ref().unwrap().max_pdu_length, 16384);
    let echo = CommandMessage { command_field: C_ECHO_RQ, message_id: 1, affected_sop_class_uid: None, affected_sop_instance_uid: None };
    match s.step(&p, &r, SessionEvent::CommandReceived(echo)) {
        SessionAction::SendResponse(resp) => assert_eq!(resp.status, STATUS_SUCCESS),
        other => panic!("unexpected {:?}", other),
    }
    let store = CommandMessage { command_field: C_STORE_RQ, message_id: 2, affected_sop_class_uid: Some("X".to_string()), affected_sop_instance_uid: Some("1.2".to_string()) };
    assert!(matches!(s.step(&p, &r, SessionEvent::CommandReceived(store)), SessionAction::DecodeAndStore));
    assert_eq!(s.phase, Phase::Storing);
    assert_eq!(s.pending.as_ref().unwrap().file_name, "1.2.dcm");
    match s.step(&p, &r, SessionEvent::StoreCompleted(StoreOutcome::Stored)) {
        SessionAction::SendResponse(resp) => {
            assert_eq!(resp.status, STATUS_SUCCESS);
            assert_eq!(resp.message_id_being_responded_to, 2);
        }
        other => panic!("unexpected {:?}", other),
    }
    assert!(matches!(s.step(&p, &r, SessionEvent::ReleaseRequested), SessionAction::SendReleaseReply));
    assert_eq!(s.phase, Phase::Closed);
}

#[test]
fn malformed_command_aborts_only_its_session() {
    let (p, r) = setup();
    let mut first = Session::new();
    first.step(&p, &r, SessionEvent::AssociationRequested(request("X")));
    assert!(matches!(first.step(&p, &r, SessionEvent::MalformedCommand), SessionAction::SendAbort));
    assert_eq!(first.phase, Phase::Closed);
    assert!(matches!(first.step(&p, &r, SessionEvent::ReleaseRequested), SessionAction::Close));
    let mut second = Session::new();
    assert!(matches!(second.step(&p, &r, SessionEvent::AssociationRequested(request("X"))), SessionAction::SendAccept));
    assert_eq!(second.phase, Phase::Established);
}

#[test]
fn rejected_association_closes() {
    let (p, r) = setup();
    let mut s = Session::new();
    match s.step(&p, &r, SessionEvent::AssociationRequested(request("Y"))) {
        SessionAction::SendReject(why) => assert_eq!(why, NegotiationRejection::NoAcceptableContext),
        other => panic!("unexpected {:?}", other),
    }
    assert_eq!(s.phase, Phase::Closed);
}

#[test]
fn command_before_association_aborts() {
    let (p, r) = setup();
    let mut s = Session::new();
    let echo = CommandMessage { command_field: C_ECHO_RQ, message_id: 1, affected_sop_class_uid: None, affected_sop_instance_uid: None };
    assert!(matches!(s.step(&p, &r, SessionEvent::CommandReceived(echo)), SessionAction::SendAbort));
    let mut t = Session::new();
    assert!(matches!(t.step(&p, &r, SessionEvent::TransportFailed), SessionAction::Close));
}
