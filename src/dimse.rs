//! Command handling: verification and storage requests, and the responses
//! that answer them.
use crate::association::{Association, ContextOutcome};
use vstd::prelude::*;

verus! {

/// Command field of a verification request.
pub const C_ECHO_RQ: u16 = 0x0030;
/// Command field of a verification response.
pub const C_ECHO_RSP: u16 = 0x8030;
/// Command field of a storage request.
pub const C_STORE_RQ: u16 = 0x0001;
/// Command field of a storage response.
pub const C_STORE_RSP: u16 = 0x8001;
/// The bit that turns a request's command field into its response's.
pub const RESPONSE_BIT: u16 = 0x8000;
/// Data set type: no data set follows the command.
pub const NO_DATA_SET: u16 = 0x0101;
/// Status: success.
pub const STATUS_SUCCESS: u16 = 0x0000;
/// Status: the SOP class was not negotiated.
pub const STATUS_SOP_CLASS_NOT_SUPPORTED: u16 = 0x0122;
/// Status: the operation is not recognized.
pub const STATUS_UNRECOGNIZED_OPERATION: u16 = 0x0211;
/// Status: the data set could not be decoded.
pub const STATUS_CANNOT_UNDERSTAND: u16 = 0xC000;
/// Status: the object could not be stored.
pub const STATUS_OUT_OF_RESOURCES: u16 = 0xA700;
/// Suffix of the file that holds a stored object.
pub const STORED_FILE_SUFFIX: &'static str = ".dcm";

/// A command message as read from the peer.
#[derive(Debug, Clone)]
pub struct CommandMessage {
    pub command_field: u16,
    pub message_id: u16,
    pub affected_sop_class_uid: Option<String>,
    pub affected_sop_instance_uid: Option<String>,
}

/// A response command message. Responses never carry a data set.
#[derive(Debug, Clone)]
pub struct CommandResponse {
    pub command_field: u16,
    pub message_id_being_responded_to: u16,
    pub data_set_type: u16,
    pub status: u16,
    pub affected_sop_class_uid: Option<String>,
    pub affected_sop_instance_uid: Option<String>,
}

/// A storage request that may go on to decoding and storing its data set.
#[derive(Debug, Clone)]
pub struct StoreTask {
    pub message_id: u16,
    pub sop_class_uid: String,
    pub sop_instance_uid: String,
    /// The transfer syntax negotiated for the request's abstract syntax.
    pub transfer_syntax: String,
    /// The name of the file, in the output directory, that receives the object.
    pub file_name: String,
}

/// How decoding and storing a data set went.
#[derive(Debug, Copy, Clone, PartialEq, Eq, Structural)]
pub enum StoreOutcome {
    Stored,
    DecodeFailed,
    WriteFailed,
}

/// What a command calls for.
#[derive(Debug, Clone)]
pub enum Dispatch {
    /// Send this response at once.
    Reply(CommandResponse),
    /// Decode and store the data set, then answer through `complete_store`.
    Store(StoreTask),
}

/// An optional string as optional characters.
pub open spec fn opt_view(o: Option<String>) -> Option<Seq<char>> {
    match o {
        Some(s) => Some(s@),
        None => None,
    }
}

/// Whether a response has the given fields.
pub open spec fn response_is(
    r: CommandResponse,
    command_field: u16,
    message_id: u16,
    status: u16,
    class: Option<Seq<char>>,
    instance: Option<Seq<char>>,
) -> bool {
    &&& r.command_field == command_field
    &&& r.message_id_being_responded_to == message_id
    &&& r.data_set_type == NO_DATA_SET
    &&& r.status == status
    &&& opt_view(r.affected_sop_class_uid) == class
    &&& opt_view(r.affected_sop_instance_uid) == instance
}

/// The transfer syntax accepted for the abstract syntax in the association, if any:
/// that of the first accepted context for it.
pub open spec fn negotiated_syntax(a: Association, abstract_syntax: Seq<char>) -> Option<Seq<char>> {
    syntax_in(a.contexts@, abstract_syntax)
}

/// The transfer syntax of the first accepted context for the abstract syntax.
pub open spec fn syntax_in(ctxs: Seq<crate::association::ContextResult>, abstract_syntax: Seq<char>) -> Option<Seq<char>>
    decreases ctxs.len(),
{
    if ctxs.len() == 0 {
        None
    } else {
        match ctxs[0].outcome {
            ContextOutcome::Accepted(ts) if ctxs[0].abstract_syntax@ == abstract_syntax => Some(ts@),
            _ => syntax_in(ctxs.drop_first(), abstract_syntax),
        }
    }
}

/// The name of the file that holds the object with this instance identifier.
pub open spec fn stored_file_name(instance: Seq<char>) -> Seq<char> {
    instance + STORED_FILE_SUFFIX@
}

/// Builds the response to a storage request.
pub fn create_cstore_response(message_id: u16, sop_class_uid: &str, sop_instance_uid: &str, status: u16) -> (r: CommandResponse)
    ensures
        response_is(r, C_STORE_RSP, message_id, status, Some(sop_class_uid@), Some(sop_instance_uid@)),
{
    CommandResponse {
        command_field: C_STORE_RSP,
        message_id_being_responded_to: message_id,
        data_set_type: NO_DATA_SET,
        status,
        affected_sop_class_uid: Some(sop_class_uid.to_owned()),
        affected_sop_instance_uid: Some(sop_instance_uid.to_owned()),
    }
}

/// Builds the response to a verification request: always a success.
pub fn create_cecho_response(message_id: u16) -> (r: CommandResponse)
    ensures
        response_is(r, C_ECHO_RSP, message_id, STATUS_SUCCESS, None, None),
{
    CommandResponse {
        command_field: C_ECHO_RSP,
        message_id_being_responded_to: message_id,
        data_set_type: NO_DATA_SET,
        status: STATUS_SUCCESS,
        affected_sop_class_uid: None,
        affected_sop_instance_uid: None,
    }
}

/// Finds the transfer syntax negotiated for the abstract syntax.
pub fn find_negotiated_syntax(a: &Association, abstract_syntax: &String) -> (r: Option<String>)
    ensures
        opt_view(r) == negotiated_syntax(*a, abstract_syntax@),
{
    let mut i: usize = 0;
    proof {
        assert(a.contexts@.subrange(0, a.contexts@.len() as int) =~= a.contexts@);
    }
    while i < a.contexts.len()
        invariant
            i <= a.contexts@.len(),
            negotiated_syntax(*a, abstract_syntax@) == syntax_in(a.contexts@.subrange(i as int, a.contexts@.len() as int), abstract_syntax@),
        decreases a.contexts@.len() - i,
    {
        proof {
            assert(a.contexts@.subrange(i as int, a.contexts@.len() as int).drop_first() =~= a.contexts@.subrange(i as int + 1, a.contexts@.len() as int));
        }
        let c = &a.contexts[i];
        match &c.outcome {
            ContextOutcome::Accepted(ts) => {
                if c.abstract_syntax == *abstract_syntax {
                    return Some(ts.clone());
                }
            },
            _ => {},
        }
        i += 1;
    }
    None
}

/// The file name for an object: its instance identifier and a suffix.
pub fn file_name_for(sop_instance_uid: &String) -> (r: String)
    ensures
        r@ == stored_file_name(sop_instance_uid@),
{
    let mut name = sop_instance_uid.clone();
    name.append(STORED_FILE_SUFFIX);
    name
}

/// The response that a request of an unsupported operation gets.
pub open spec fn unsupported_reply(cmd: CommandMessage, r: CommandResponse) -> bool {
    response_is(r, cmd.command_field | RESPONSE_BIT, cmd.message_id, STATUS_UNRECOGNIZED_OPERATION,
        opt_view(cmd.affected_sop_class_uid), opt_view(cmd.affected_sop_instance_uid))
}

/// Whether a dispatch is what a command calls for within the association.
pub open spec fn dispatched(a: Association, cmd: CommandMessage, r: Dispatch) -> bool {
    &&& (cmd.command_field == C_ECHO_RQ ==> r is Reply
        && response_is(r->Reply_0, C_ECHO_RSP, cmd.message_id, STATUS_SUCCESS, None, None))
    &&& (cmd.command_field == C_STORE_RQ ==> match (cmd.affected_sop_class_uid, cmd.affected_sop_instance_uid) {
        (Some(class), Some(instance)) => match negotiated_syntax(a, class@) {
            Some(ts) => r is Store && ({
                let t = r->Store_0;
                &&& t.message_id == cmd.message_id
                &&& t.sop_class_uid@ == class@
                &&& t.sop_instance_uid@ == instance@
                &&& t.transfer_syntax@ == ts
                &&& t.file_name@ == stored_file_name(instance@)
            }),
            None => r is Reply && response_is(r->Reply_0, C_STORE_RSP, cmd.message_id,
                STATUS_SOP_CLASS_NOT_SUPPORTED, Some(class@), Some(instance@)),
        },
        _ => r is Reply && response_is(r->Reply_0, C_STORE_RSP, cmd.message_id,
            STATUS_CANNOT_UNDERSTAND, opt_view(cmd.affected_sop_class_uid), opt_view(cmd.affected_sop_instance_uid)),
    })
    &&& (cmd.command_field != C_ECHO_RQ && cmd.command_field != C_STORE_RQ ==> r is Reply
        && unsupported_reply(cmd, r->Reply_0))
}

/// Decides what a command within an association calls for. A verification
/// request gets a success at once; a storage request whose abstract syntax was
/// negotiated goes on to storing, one that was not gets a failure; any other
/// command gets a failure saying the operation is not recognized.
pub fn dispatch(a: &Association, cmd: &CommandMessage) -> (r: Dispatch)
    ensures
        dispatched(*a, *cmd, r),
{
    if cmd.command_field == C_ECHO_RQ {
        return Dispatch::Reply(create_cecho_response(cmd.message_id));
    }
    if cmd.command_field == C_STORE_RQ {
        match (&cmd.affected_sop_class_uid, &cmd.affected_sop_instance_uid) {
            (Some(class), Some(instance)) => {
                match find_negotiated_syntax(a, class) {
                    Some(ts) => {
                        let file_name = file_name_for(instance);
                        Dispatch::Store(StoreTask {
                            message_id: cmd.message_id,
                            sop_class_uid: class.clone(),
                            sop_instance_uid: instance.clone(),
                            transfer_syntax: ts,
                            file_name,
                        })
                    },
                    None => Dispatch::Reply(create_cstore_response(
                        cmd.message_id, class.as_str(), instance.as_str(), STATUS_SOP_CLASS_NOT_SUPPORTED)),
                }
            },
            _ => Dispatch::Reply(CommandResponse {
                command_field: C_STORE_RSP,
                message_id_being_responded_to: cmd.message_id,
                data_set_type: NO_DATA_SET,
                status: STATUS_CANNOT_UNDERSTAND,
                affected_sop_class_uid: cmd.affected_sop_class_uid.clone(),
                affected_sop_instance_uid: cmd.affected_sop_instance_uid.clone(),
            }),
        }
    } else {
        Dispatch::Reply(CommandResponse {
            command_field: cmd.command_field | RESPONSE_BIT,
            message_id_being_responded_to: cmd.message_id,
            data_set_type: NO_DATA_SET,
            status: STATUS_UNRECOGNIZED_OPERATION,
            affected_sop_class_uid: cmd.affected_sop_class_uid.clone(),
            affected_sop_instance_uid: cmd.affected_sop_instance_uid.clone(),
        })
    }
}

/// The status that answers a storage attempt.
pub open spec fn store_status(outcome: StoreOutcome) -> u16 {
    match outcome {
        StoreOutcome::Stored => STATUS_SUCCESS,
        StoreOutcome::DecodeFailed => STATUS_CANNOT_UNDERSTAND,
        StoreOutcome::WriteFailed => STATUS_OUT_OF_RESOURCES,
    }
}

/// Builds the response to a storage request once its data set was decoded
/// and stored, or failed to be.
pub fn complete_store(task: &StoreTask, outcome: StoreOutcome) -> (r: CommandResponse)
    ensures
        response_is(r, C_STORE_RSP, task.message_id, store_status(outcome),
            Some(task.sop_class_uid@), Some(task.sop_instance_uid@)),
{
    let status = match outcome {
        StoreOutcome::Stored => STATUS_SUCCESS,
        StoreOutcome::DecodeFailed => STATUS_CANNOT_UNDERSTAND,
        StoreOutcome::WriteFailed => STATUS_OUT_OF_RESOURCES,
    };
    create_cstore_response(task.message_id, task.sop_class_uid.as_str(), task.sop_instance_uid.as_str(), status)
}

/// A storage request whose data set was decoded and stored is answered with
/// a success that echoes its message id and its class and instance identifiers,
/// and the object lies in the file named by its instance identifier.
pub proof fn stored_request_succeeds(task: StoreTask, r: CommandResponse)
    requires
        response_is(r, C_STORE_RSP, task.message_id, store_status(StoreOutcome::Stored),
            Some(task.sop_class_uid@), Some(task.sop_instance_uid@)),
    ensures
        r.status == STATUS_SUCCESS,
        r.message_id_being_responded_to == task.message_id,
        opt_view(r.affected_sop_instance_uid) == Some(task.sop_instance_uid@),
        opt_view(r.affected_sop_class_uid) == Some(task.sop_class_uid@),
{
}

/// A storage attempt that failed is never answered with a success.
pub proof fn failed_store_reports_failure(outcome: StoreOutcome)
    requires
        outcome != StoreOutcome::Stored,
    ensures
        store_status(outcome) != STATUS_SUCCESS,
{
}

/// Objects with distinct instance identifiers are stored in distinct files,
/// so sessions that store them cannot overwrite each other's objects.
pub proof fn distinct_instances_distinct_files(a: Seq<char>, b: Seq<char>)
    requires
        a != b,
    ensures
        stored_file_name(a) != stored_file_name(b),
{
    if stored_file_name(a) == stored_file_name(b) {
        let suffix = STORED_FILE_SUFFIX@;
        assert(stored_file_name(a) == a + suffix);
        assert(stored_file_name(b) == b + suffix);
        assert((a + suffix).len() == a.len() + suffix.len());
        assert((b + suffix).len() == b.len() + suffix.len());
        assert(a =~= stored_file_name(a).subrange(0, a.len() as int));
        assert(b =~= stored_file_name(b).subrange(0, b.len() as int));
    }
}

/// A storage request whose abstract syntax was not negotiated is answered at
/// once with a failure, and nothing goes on to be stored.
pub proof fn unnegotiated_store_fails(a: Association, cmd: CommandMessage, d: Dispatch)
    requires
        dispatched(a, cmd, d),
        cmd.command_field == C_STORE_RQ,
        cmd.affected_sop_class_uid is Some,
        cmd.affected_sop_instance_uid is Some,
        negotiated_syntax(a, cmd.affected_sop_class_uid->Some_0@) is None,
    ensures
        d is Reply,
        d->Reply_0.status != STATUS_SUCCESS,
        d->Reply_0.message_id_being_responded_to == cmd.message_id,
{
}

} // verus!
