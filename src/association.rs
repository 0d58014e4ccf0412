//! Association negotiation: which presentation contexts a peer's request gets,
//! with which transfer syntax, and under which maximum PDU length.
use vstd::prelude::*;

verus! {

/// The acceptance policy of this service, fixed for the life of the server.
#[derive(Debug, Copy, Clone, PartialEq, Eq, Structural)]
pub struct AcceptancePolicy {
    /// Reject a peer whose maximum PDU length exceeds ours, instead of clamping it.
    pub strict: bool,
    /// Only accept native (uncompressed) transfer syntaxes.
    pub uncompressed_only: bool,
    /// Accept abstract syntaxes that the registry does not know.
    pub promiscuous: bool,
    /// The maximum PDU length offered to peers.
    pub max_pdu_length: u32,
}

/// A transfer syntax that the codec registry can decode.
#[derive(Debug, Clone)]
pub struct TransferSyntaxInfo {
    pub uid: String,
    /// Whether this is a native (uncompressed) encoding.
    pub native: bool,
}

/// What this service knows: the transfer syntaxes it can decode and the
/// abstract syntaxes (object classes) it stores.
#[derive(Debug, Clone)]
pub struct CodecRegistry {
    pub transfer_syntaxes: Vec<TransferSyntaxInfo>,
    pub abstract_syntaxes: Vec<String>,
}

/// A presentation context as the peer proposes it.
#[derive(Debug, Clone)]
pub struct ProposedContext {
    pub id: u8,
    pub abstract_syntax: String,
    /// The proposed transfer syntaxes, in the peer's order of preference.
    pub transfer_syntaxes: Vec<String>,
}

/// A peer's request to open an association.
#[derive(Debug, Clone)]
pub struct AssociationRequest {
    pub calling_ae_title: String,
    pub called_ae_title: String,
    pub contexts: Vec<ProposedContext>,
    pub max_pdu_length: u32,
}

/// What became of one proposed presentation context.
#[derive(Debug, Clone)]
pub enum ContextOutcome {
    /// Accepted with this transfer syntax.
    Accepted(String),
    /// The abstract syntax is not supported.
    AbstractSyntaxNotSupported,
    /// None of the proposed transfer syntaxes qualifies.
    TransferSyntaxesNotSupported,
}

/// The answer to one proposed presentation context.
#[derive(Debug, Clone)]
pub struct ContextResult {
    pub id: u8,
    pub abstract_syntax: String,
    pub outcome: ContextOutcome,
}

/// An established association.
#[derive(Debug, Clone)]
pub struct Association {
    pub calling_ae_title: String,
    pub called_ae_title: String,
    pub max_pdu_length: u32,
    /// One answer per proposed context, in the order proposed.
    pub contexts: Vec<ContextResult>,
}

/// Why a whole association request was rejected.
#[derive(Debug, Copy, Clone, PartialEq, Eq, Structural)]
pub enum NegotiationRejection {
    /// Under the strict policy, the peer's maximum PDU length exceeds ours.
    MaxPduLengthExceeded,
    /// No proposed presentation context could be accepted.
    NoAcceptableContext,
}

/// Whether the registry can decode the transfer syntax.
pub open spec fn supports(reg: CodecRegistry, ts: Seq<char>) -> bool {
    exists|i: int| 0 <= i < reg.transfer_syntaxes@.len() && #[trigger] reg.transfer_syntaxes@[i].uid@ == ts
}

/// Whether the registry can decode the transfer syntax as a native encoding.
pub open spec fn supports_natively(reg: CodecRegistry, ts: Seq<char>) -> bool {
    exists|i: int|
        0 <= i < reg.transfer_syntaxes@.len() && #[trigger] reg.transfer_syntaxes@[i].uid@ == ts
            && reg.transfer_syntaxes@[i].native
}

/// Whether the transfer syntax may be chosen under the policy.
pub open spec fn qualifies(policy: AcceptancePolicy, reg: CodecRegistry, ts: Seq<char>) -> bool {
    if policy.uncompressed_only {
        supports_natively(reg, ts)
    } else {
        supports(reg, ts)
    }
}

/// The first proposed transfer syntax that qualifies, in the peer's order.
pub open spec fn first_qualifying(policy: AcceptancePolicy, reg: CodecRegistry, tss: Seq<String>) -> Option<Seq<char>>
    decreases tss.len(),
{
    if tss.len() == 0 {
        None
    } else if qualifies(policy, reg, tss[0]@) {
        Some(tss[0]@)
    } else {
        first_qualifying(policy, reg, tss.drop_first())
    }
}

/// Whether the registry knows the abstract syntax.
pub open spec fn knows_abstract(reg: CodecRegistry, a: Seq<char>) -> bool {
    exists|i: int| 0 <= i < reg.abstract_syntaxes@.len() && #[trigger] reg.abstract_syntaxes@[i]@ == a
}

/// Whether the policy admits the abstract syntax.
pub open spec fn admits_abstract(policy: AcceptancePolicy, reg: CodecRegistry, a: Seq<char>) -> bool {
    policy.promiscuous || knows_abstract(reg, a)
}

/// The transfer syntax that a proposed context is accepted with, if it is.
pub open spec fn accepted_syntax(policy: AcceptancePolicy, reg: CodecRegistry, ctx: ProposedContext) -> Option<Seq<char>> {
    if admits_abstract(policy, reg, ctx.abstract_syntax@) {
        first_qualifying(policy, reg, ctx.transfer_syntaxes@)
    } else {
        None
    }
}

/// Whether an outcome is the answer that the policy gives to a proposed context.
pub open spec fn answers(policy: AcceptancePolicy, reg: CodecRegistry, ctx: ProposedContext, out: ContextOutcome) -> bool {
    match out {
        ContextOutcome::Accepted(ts) => accepted_syntax(policy, reg, ctx) == Some(ts@),
        ContextOutcome::AbstractSyntaxNotSupported => !admits_abstract(policy, reg, ctx.abstract_syntax@),
        ContextOutcome::TransferSyntaxesNotSupported => admits_abstract(policy, reg, ctx.abstract_syntax@)
            && first_qualifying(policy, reg, ctx.transfer_syntaxes@) is None,
    }
}

/// Whether some proposed context is accepted.
pub open spec fn any_accepted(policy: AcceptancePolicy, reg: CodecRegistry, ctxs: Seq<ProposedContext>) -> bool {
    exists|i: int| 0 <= i < ctxs.len() && (#[trigger] accepted_syntax(policy, reg, ctxs[i])) is Some
}

/// Whether the peer's maximum PDU length makes a strict policy reject it.
pub open spec fn length_rejected(policy: AcceptancePolicy, peer_max: u32) -> bool {
    policy.strict && peer_max > policy.max_pdu_length
}

/// The negotiated maximum PDU length: the smaller of the two proposals.
pub open spec fn negotiated_length(policy: AcceptancePolicy, peer_max: u32) -> u32 {
    if peer_max < policy.max_pdu_length {
        peer_max
    } else {
        policy.max_pdu_length
    }
}

/// Why the policy rejects the request, if it does.
pub open spec fn rejection_of(policy: AcceptancePolicy, reg: CodecRegistry, req: AssociationRequest) -> Option<NegotiationRejection> {
    if length_rejected(policy, req.max_pdu_length) {
        Some(NegotiationRejection::MaxPduLengthExceeded)
    } else if !any_accepted(policy, reg, req.contexts@) {
        Some(NegotiationRejection::NoAcceptableContext)
    } else {
        None
    }
}

/// Whether an answered context corresponds to a proposed one under the policy.
pub open spec fn context_answered(policy: AcceptancePolicy, reg: CodecRegistry, ctx: ProposedContext, res: ContextResult) -> bool {
    res.id == ctx.id && res.abstract_syntax@ == ctx.abstract_syntax@ && answers(policy, reg, ctx, res.outcome)
}

/// Whether the association is what the policy makes of the request when it accepts it.
pub open spec fn accepted_as(policy: AcceptancePolicy, reg: CodecRegistry, req: AssociationRequest, a: Association) -> bool {
    &&& a.calling_ae_title@ == req.calling_ae_title@
    &&& a.called_ae_title@ == req.called_ae_title@
    &&& a.max_pdu_length == negotiated_length(policy, req.max_pdu_length)
    &&& a.contexts@.len() == req.contexts@.len()
    &&& forall|i: int| 0 <= i < a.contexts@.len()
        ==> context_answered(policy, reg, #[trigger] req.contexts@[i], a.contexts@[i])
}

/// Whether the registry lists the transfer syntax, natively or at all.
fn registry_supports(reg: &CodecRegistry, ts: &String, native_only: bool) -> (r: bool)
    ensures
        r == (if native_only { supports_natively(*reg, ts@) } else { supports(*reg, ts@) }),
{
    let mut i: usize = 0;
    while i < reg.transfer_syntaxes.len()
        invariant
            i <= reg.transfer_syntaxes@.len(),
            forall|j: int| 0 <= j < i ==> !(#[trigger] reg.transfer_syntaxes@[j].uid@ == ts@
                && (!native_only || reg.transfer_syntaxes@[j].native)),
        decreases reg.transfer_syntaxes@.len() - i,
    {
        let e = &reg.transfer_syntaxes[i];
        if e.uid == *ts && (!native_only || e.native) {
            return true;
        }
        i += 1;
    }
    proof {
        if native_only {
            assert(!supports_natively(*reg, ts@));
        } else {
            assert(!supports(*reg, ts@));
        }
    }
    false
}

/// Whether the registry knows the abstract syntax.
fn registry_knows(reg: &CodecRegistry, a: &String) -> (r: bool)
    ensures
        r == knows_abstract(*reg, a@),
{
    let mut i: usize = 0;
    while i < reg.abstract_syntaxes.len()
        invariant
            i <= reg.abstract_syntaxes@.len(),
            forall|j: int| 0 <= j < i ==> (#[trigger] reg.abstract_syntaxes@[j])@ != a@,
        decreases reg.abstract_syntaxes@.len() - i,
    {
        if reg.abstract_syntaxes[i] == *a {
            return true;
        }
        i += 1;
    }
    false
}

/// Picks the first proposed transfer syntax that qualifies under the policy.
pub fn select_transfer_syntax(policy: &AcceptancePolicy, reg: &CodecRegistry, tss: &Vec<String>) -> (r: Option<String>)
    ensures
        match r {
            Some(ts) => first_qualifying(*policy, *reg, tss@) == Some(ts@),
            None => first_qualifying(*policy, *reg, tss@) is None,
        },
{
    let mut i: usize = 0;
    proof {
        assert(tss@.subrange(0, tss@.len() as int) =~= tss@);
    }
    while i < tss.len()
        invariant
            i <= tss@.len(),
            first_qualifying(*policy, *reg, tss@) == first_qualifying(*policy, *reg, tss@.subrange(i as int, tss@.len() as int)),
        decreases tss@.len() - i,
    {
        proof {
            assert(tss@.subrange(i as int, tss@.len() as int).drop_first() =~= tss@.subrange(i as int + 1, tss@.len() as int));
        }
        if registry_supports(reg, &tss[i], policy.uncompressed_only) {
            return Some(tss[i].clone());
        }
        i += 1;
    }
    None
}

/// Answers one proposed presentation context under the policy.
pub fn answer_context(policy: &AcceptancePolicy, reg: &CodecRegistry, ctx: &ProposedContext) -> (r: ContextResult)
    ensures
        context_answered(*policy, *reg, *ctx, r),
{
    let outcome = if !(policy.promiscuous || registry_knows(reg, &ctx.abstract_syntax)) {
        ContextOutcome::AbstractSyntaxNotSupported
    } else {
        match select_transfer_syntax(policy, reg, &ctx.transfer_syntaxes) {
            Some(ts) => ContextOutcome::Accepted(ts),
            None => ContextOutcome::TransferSyntaxesNotSupported,
        }
    };
    ContextResult { id: ctx.id, abstract_syntax: ctx.abstract_syntax.clone(), outcome }
}

/// Negotiates an association: answers every proposed context, and accepts
/// the request when at least one context is accepted and, under the strict
/// policy, the peer's maximum PDU length does not exceed ours.
pub fn negotiate(policy: &AcceptancePolicy, reg: &CodecRegistry, req: &AssociationRequest) -> (r: Result<Association, NegotiationRejection>)
    ensures
        match rejection_of(*policy, *reg, *req) {
            Some(why) => r == Err::<Association, NegotiationRejection>(why),
            None => r is Ok,
        },
        r is Ok ==> accepted_as(*policy, *reg, *req, r->Ok_0),
{
    if policy.strict && req.max_pdu_length > policy.max_pdu_length {
        return Err(NegotiationRejection::MaxPduLengthExceeded);
    }
    let mut contexts: Vec<ContextResult> = Vec::new();
    let mut accepted = false;
    let mut i: usize = 0;
    while i < req.contexts.len()
        invariant
            i <= req.contexts@.len(),
            contexts@.len() == i,
            forall|j: int| 0 <= j < i ==> context_answered(*policy, *reg, #[trigger] req.contexts@[j], contexts@[j]),
            accepted <==> exists|j: int| 0 <= j < i && (#[trigger] accepted_syntax(*policy, *reg, req.contexts@[j])) is Some,
        decreases req.contexts@.len() - i,
    {
        let res = answer_context(policy, reg, &req.contexts[i]);
        let is_accepted = match &res.outcome {
            ContextOutcome::Accepted(_) => true,
            _ => false,
        };
        proof {
            let ctx = req.contexts@[i as int];
            if !is_accepted {
                assert(accepted_syntax(*policy, *reg, ctx) is None);
            }
        }
        accepted = accepted || is_accepted;
        contexts.push(res);
        i += 1;
    }
    if !accepted {
        return Err(NegotiationRejection::NoAcceptableContext);
    }
    let max_pdu_length = if req.max_pdu_length < policy.max_pdu_length {
        req.max_pdu_length
    } else {
        policy.max_pdu_length
    };
    Ok(Association {
        calling_ae_title: req.calling_ae_title.clone(),
        called_ae_title: req.called_ae_title.clone(),
        max_pdu_length,
        contexts,
    })
}

/// No transfer syntax is chosen from a list in which none qualifies.
proof fn none_qualifying(policy: AcceptancePolicy, reg: CodecRegistry, tss: Seq<String>)
    requires
        forall|k: int| 0 <= k < tss.len() ==> !qualifies(policy, reg, #[trigger] tss[k]@),
    ensures
        first_qualifying(policy, reg, tss) is None,
    decreases tss.len(),
{
    if tss.len() > 0 {
        assert(!qualifies(policy, reg, tss[0]@));
        assert forall|k: int| 0 <= k < tss.drop_first().len() implies !qualifies(policy, reg, #[trigger] tss.drop_first()[k]@) by {
            assert(tss.drop_first()[k] == tss[k + 1]);
        }
        none_qualifying(policy, reg, tss.drop_first());
    }
}

/// When only native transfer syntaxes may be chosen and no proposed transfer
/// syntax is one that the registry decodes natively, every proposed context is
/// rejected, and so is the whole request (in particular one with a single context).
pub proof fn compressed_proposals_rejected(policy: AcceptancePolicy, reg: CodecRegistry, req: AssociationRequest)
    requires
        policy.uncompressed_only,
        forall|i: int, k: int|
            0 <= i < req.contexts@.len() && 0 <= k < req.contexts@[i].transfer_syntaxes@.len()
                ==> !supports_natively(reg, #[trigger] req.contexts@[i].transfer_syntaxes@[k]@),
    ensures
        forall|i: int| 0 <= i < req.contexts@.len() ==> (#[trigger] accepted_syntax(policy, reg, req.contexts@[i])) is None,
        rejection_of(policy, reg, req) is Some,
{
    assert forall|i: int| 0 <= i < req.contexts@.len() implies (#[trigger] accepted_syntax(policy, reg, req.contexts@[i])) is None by {
        let tss = req.contexts@[i].transfer_syntaxes@;
        assert forall|k: int| 0 <= k < tss.len() implies !qualifies(policy, reg, #[trigger] tss[k]@) by {
            assert(!supports_natively(reg, req.contexts@[i].transfer_syntaxes@[k]@));
        }
        none_qualifying(policy, reg, tss);
    }
}

/// A peer whose maximum PDU length exceeds the configured bound is rejected
/// under the strict policy; otherwise the negotiated length is the bound.
pub proof fn oversized_peer_length(policy: AcceptancePolicy, reg: CodecRegistry, req: AssociationRequest)
    requires
        req.max_pdu_length > policy.max_pdu_length,
    ensures
        policy.strict ==> rejection_of(policy, reg, req) == Some(NegotiationRejection::MaxPduLengthExceeded),
        !policy.strict ==> !length_rejected(policy, req.max_pdu_length)
            && negotiated_length(policy, req.max_pdu_length) == policy.max_pdu_length,
{
}

} // verus!
