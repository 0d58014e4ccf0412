use storescp::association::{
    negotiate, AcceptancePolicy, Association, AssociationRequest, CodecRegistry, ProposedContext,
    TransferSyntaxInfo,
};
use storescp::dimse::{
    complete_store, create_cecho_response, create_cstore_response, dispatch, CommandMessage,
    Dispatch, StoreOutcome, C_ECHO_RQ, C_ECHO_RSP, C_STORE_RQ, C_STORE_RSP, NO_DATA_SET,
    STATUS_CANNOT_UNDERSTAND, STATUS_OUT_OF_RESOURCES, STATUS_SOP_CLASS_NOT_SUPPORTED,
    STATUS_SUCCESS, STATUS_UNRECOGNIZED_OPERATION,
};

const NATIVE: &str = "1.2.840.10008.1.2.1";
const COMPRESSED: &str = "1.2.840.10008.1.2.4.50";

fn association(abstract_syntax: &str) -> Association {
    let policy = AcceptancePolicy { strict: false, uncompressed_only: true, promiscuous: true, max_pdu_length: 16384 };
    let registry = CodecRegistry {
        transfer_syntaxes: vec![
            TransferSyntaxInfo { uid: COMPRESSED.to_string(), native: false },
            TransferSyntaxInfo { uid: NATIVE.to_string(), native: true },
        ],
        abstract_syntaxes: vec![],
    };
    let req = AssociationRequest {
        calling_ae_title: "SCU".to_string(),
        called_ae_title: "STORE-SCP".to_string(),
        contexts: vec![ProposedContext {
            id: 1,
            abstract_syntax: abstract_syntax.to_string(),
            transfer_syntaxes: vec![COMPRESSED.to_string(), NATIVE.to_string()],
        }],
        max_pdu_length: 16384,
    };
    negotiate(&policy, &registry, &req).unwrap()
}

fn store_request(message_id: u16, class: &str, instance: &str) -> CommandMessage {
    CommandMessage {
        command_field: C_STORE_RQ,
        message_id,
        affected_sop_class_uid: Some(class.to_string()),
        affected_sop_instance_uid: Some(instance.to_string()),
    }
}

#[test]
fn echo_always_succeeds() {
    let a = association("X");
    let cmd = CommandMessage { command_field: C_ECHO_RQ, message_id: 7, affected_sop_class_uid: None, affected_sop_instance_uid: None };
    match dispatch(&a, &cmd) {
        Dispatch::Reply(r) => {
            assert_eq!(r.command_field, C_ECHO_RSP);
            assert_eq!(r.message_id_being_responded_to, 7);
            assert_eq!(r.data_set_type, NO_DATA_SET);
            assert_eq!(r.status, STATUS_SUCCESS);
            assert_eq!(r.affected_sop_class_uid, None);
        }
        other => panic!("unexpected {:?}", other),
    }
    let r = create_cecho_response(0xFFFF);
    assert_eq!(r.message_id_being_responded_to, 0xFFFF);
    assert_eq!(r.command_field, 0x8030);
}

#[test]
fn scenario_native_context_then_store() {
    let a = association("X");
    let task = match dispatch(&a, &store_request(3, "X", "1.2.3.4.5")) {
        Dispatch::Store(t) => t,
        other => panic!("unexpected {:?}", other),
    };
    assert_eq!(task.transfer_syntax, NATIVE);
    assert_eq!(task.file_name, "1.2.3.4.5.dcm");
    let r = complete_store(&task, StoreOutcome::Stored);
    assert_eq!(r.command_field, C_STORE_RSP);
    assert_eq!(r.status, STATUS_SUCCESS);
    assert_eq!(r.message_id_being_responded_to, 3);
    assert_eq!(r.affected_sop_class_uid.as_deref(), Some("X"));
    assert_eq!(r.affected_sop_instance_uid.as_deref(), Some("1.2.3.4.5"));
}

#[test]
fn store_of_unnegotiated_class_fails() {
    let a = association("X");
    match dispatch(&a, &store_request(4, "Y", "9.9")) {
        Dispatch::Reply(r) => {
            assert_eq!(r.status, STATUS_SOP_CLASS_NOT_SUPPORTED);
            assert_eq!(r.affected_sop_class_uid.as_deref(), Some("Y"));
            assert_eq!(r.affected_sop_instance_uid.as_deref(), Some("9.9"));
        }
        other => panic!("unexpected {:?}", other),
    }
}

#[test]
fn store_failures_are_reported() {
    let a = association("X");
    let task = match dispatch(&a, &store_request(5, "X", "1.1")) {
        Dispatch::Store(t) => t,
        other => panic!("unexpected {:?}", other),
    };
    assert_eq!(complete_store(&task, StoreOutcome::DecodeFailed).status, STATUS_CANNOT_UNDERSTAND);
    assert_eq!(complete_store(&task, StoreOutcome::WriteFailed).status, STATUS_OUT_OF_RESOURCES);
}

#[test]
fn store_without_identifiers_cannot_be_understood() {
    let a = association("X");
    let cmd = CommandMessage { command_field: C_STORE_RQ, message_id: 6, affected_sop_class_uid: Some("X".to_string()), affected_sop_instance_uid: None };
    match dispatch(&a, &cmd) {
        Dispatch::Reply(r) => assert_eq!(r.status, STATUS_CANNOT_UNDERSTAND),
        other => panic!("unexpected {:?}", other),
    }
}

#[test]
fn unknown_command_is_unrecognized() {
    let a = association("X");
    let cmd = CommandMessage { command_field: 0x0020, message_id: 8, affected_sop_class_uid: None, affected_sop_instance_uid: None };
    match dispatch(&a, &cmd) {
        Dispatch::Reply(r) => {
            assert_eq!(r.command_field, 0x8020);
            assert_eq!(r.status, STATUS_UNRECOGNIZED_OPERATION);
            assert_eq!(r.message_id_being_responded_to, 8);
        }
        other => panic!("unexpected {:?}", other),
    }
}

#[test]
fn distinct_instances_get_distinct_files() {
    let a = association("X");
    let t1 = match dispatch(&a, &store_request(1, "X", "1.2.1")) { Dispatch::Store(t) => t, other => panic!("{:?}", other) };
    let t2 = match dispatch(&a, &store_request(1, "X", "1.2.2")) { Dispatch::Store(t) => t, other => panic!("{:?}", other) };
    assert_ne!(t1.file_name, t2.file_name);
    let r = create_cstore_response(2, "X", "1.2.1", STATUS_SUCCESS);
    assert_eq!(r.command_field, 0x8001);
}
