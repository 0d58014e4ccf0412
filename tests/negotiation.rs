use storescp::association::{
    negotiate, AcceptancePolicy, AssociationRequest, CodecRegistry, ContextOutcome,
    NegotiationRejection, ProposedContext, TransferSyntaxInfo,
};

const NATIVE: &str = "1.2.840.10008.1.2.1";
const COMPRESSED: &str = "1.2.840.10008.1.2.4.50";
const CT_IMAGE: &str = "1.2.840.10008.5.1.4.1.1.2";

fn registry() -> CodecRegistry {
    CodecRegistry {
        transfer_syntaxes: vec![
            TransferSyntaxInfo { uid: COMPRESSED.to_string(), native: false },
            TransferSyntaxInfo { uid: NATIVE.to_string(), native: true },
        ],
        abstract_syntaxes: vec![CT_IMAGE.to_string()],
    }
}

fn policy(strict: bool, uncompressed_only: bool, promiscuous: bool) -> AcceptancePolicy {
    AcceptancePolicy { strict, uncompressed_only, promiscuous, max_pdu_length: 16384 }
}

fn context(id: u8, abstract_syntax: &str, tss: &[&str]) -> ProposedContext {
    ProposedContext {
        id,
        abstract_syntax: abstract_syntax.to_string(),
        transfer_syntaxes: tss.iter().map(|t| t.to_string()).collect(),
    }
}

fn request(contexts: Vec<ProposedContext>, max_pdu_length: u32) -> AssociationRequest {
    AssociationRequest {
        calling_ae_title: "SCU".to_string(),
        called_ae_title: "STORE-SCP".to_string(),
        contexts,
        max_pdu_length,
    }
}

#[test]
fn uncompressed_only_picks_native_syntax() {
    let req = request(vec![context(1, CT_IMAGE, &[COMPRESSED, NATIVE])], 16384);
    let a = negotiate(&policy(false, true, false), &registry(), &req).unwrap();
    match &a.contexts[0].outcome {
        ContextOutcome::Accepted(ts) => assert_eq!(ts, NATIVE),
        other => panic!("unexpected outcome {:?}", other),
    }
    let b = negotiate(&policy(false, false, false), &registry(), &req).unwrap();
    match &b.contexts[0].outcome {
        ContextOutcome::Accepted(ts) => assert_eq!(ts, COMPRESSED),
        other => panic!("unexpected outcome {:?}", other),
    }
    assert_eq!(a.calling_ae_title, "SCU");
    assert_eq!(a.contexts[0].id, 1);
}

#[test]
fn sole_compressed_context_rejects_association() {
    let req = request(vec![context(1, CT_IMAGE, &[COMPRESSED])], 16384);
    assert_eq!(
        negotiate(&policy(false, true, false), &registry(), &req).unwrap_err(),
        NegotiationRejection::NoAcceptableContext
    );
}

#[test]
fn compressed_context_rejected_alone_among_others() {
    let req = request(
        vec![context(1, CT_IMAGE, &[COMPRESSED]), context(3, CT_IMAGE, &[NATIVE])],
        16384,
    );
    let a = negotiate(&policy(false, true, false), &registry(), &req).unwrap();
    assert!(matches!(a.contexts[0].outcome, ContextOutcome::TransferSyntaxesNotSupported));
    assert!(matches!(a.contexts[1].outcome, ContextOutcome::Accepted(_)));
}

#[test]
fn strict_policy_rejects_oversized_pdu() {
    let req = request(vec![context(1, CT_IMAGE, &[NATIVE])], 65536);
    assert_eq!(
        negotiate(&policy(true, false, false), &registry(), &req).unwrap_err(),
        NegotiationRejection::MaxPduLengthExceeded
    );
    let a = negotiate(&policy(false, false, false), &registry(), &req).unwrap();
    assert_eq!(a.max_pdu_length, 16384);
    let small = request(vec![context(1, CT_IMAGE, &[NATIVE])], 4096);
    assert_eq!(negotiate(&policy(true, false, false), &registry(), &small).unwrap().max_pdu_length, 4096);
}

#[test]
fn unknown_abstract_syntax_needs_promiscuous() {
    let req = request(vec![context(1, "1.2.3.4", &[NATIVE]), context(3, CT_IMAGE, &[NATIVE])], 16384);
    let a = negotiate(&policy(false, false, false), &registry(), &req).unwrap();
    assert!(matches!(a.contexts[0].outcome, ContextOutcome::AbstractSyntaxNotSupported));
    let b = negotiate(&policy(false, false, true), &registry(), &req).unwrap();
    assert!(matches!(b.contexts[0].outcome, ContextOutcome::Accepted(_)));
}

#[test]
fn empty_proposal_is_rejected() {
    let req = request(vec![], 16384);
    assert_eq!(
        negotiate(&policy(false, false, false), &registry(), &req).unwrap_err(),
        NegotiationRejection::NoAcceptableContext
    );
}
