//! The binary framing of command sets: data elements of group 0000 in the
//! implicit VR little endian encoding (tag, 32-bit length, value).
use crate::dimse::{CommandMessage, CommandResponse};
use crate::text::{latin1_chars, push_char};
use vstd::prelude::*;
use vstd::slice::{slice_subrange, slice_to_vec};
use vstd::string::StringSliceAdditionalSpecFns;

verus! {

/// The command group.
pub const COMMAND_GROUP: u16 = 0x0000;
/// Command Group Length.
pub const TAG_GROUP_LENGTH: u16 = 0x0000;
/// Affected SOP Class UID.
pub const TAG_AFFECTED_SOP_CLASS_UID: u16 = 0x0002;
/// Command Field.
pub const TAG_COMMAND_FIELD: u16 = 0x0100;
/// Message ID.
pub const TAG_MESSAGE_ID: u16 = 0x0110;
/// Message ID Being Responded To.
pub const TAG_MESSAGE_ID_BEING_RESPONDED_TO: u16 = 0x0120;
/// Command Data Set Type.
pub const TAG_COMMAND_DATA_SET_TYPE: u16 = 0x0800;
/// Status.
pub const TAG_STATUS: u16 = 0x0900;
/// Affected SOP Instance UID.
pub const TAG_AFFECTED_SOP_INSTANCE_UID: u16 = 0x1000;

/// One data element of a command set.
#[derive(Debug, Clone)]
pub struct CommandElement {
    pub group: u16,
    pub element: u16,
    pub value: Vec<u8>,
}

/// An element as a mathematical value: group, element number and value bytes.
pub open spec fn element_view(e: CommandElement) -> (u16, u16, Seq<u8>) {
    (e.group, e.element, e.value@)
}

/// A little endian 16-bit value at position `i`.
pub open spec fn le_u16(b: Seq<u8>, i: int) -> u16 {
    (b[i] as int + b[i + 1] as int * 256) as u16
}

/// A little endian 32-bit value at position `i`.
pub open spec fn le_u32(b: Seq<u8>, i: int) -> int {
    b[i] as int + b[i + 1] as int * 256 + b[i + 2] as int * 65536 + b[i + 3] as int * 16777216
}

/// The elements that the bytes hold, in order, or `None` when the bytes do
/// not split into whole elements.
pub open spec fn parse_elements(b: Seq<u8>) -> Option<Seq<(u16, u16, Seq<u8>)>>
    decreases b.len(),
{
    if b.len() == 0 {
        Some(Seq::empty())
    } else if b.len() < 8 {
        None
    } else {
        let n = le_u32(b, 4);
        if b.len() < 8 + n {
            None
        } else {
            match parse_elements(b.subrange(8 + n, b.len() as int)) {
                Some(rest) => Some(seq![(le_u16(b, 0), le_u16(b, 2), b.subrange(8, 8 + n))] + rest),
                None => None,
            }
        }
    }
}

/// Splits a command set into its elements.
pub fn read_elements(b: &[u8]) -> (r: Option<Vec<CommandElement>>)
    ensures
        match r {
            Some(v) => parse_elements(b@) == Some(v@.map_values(|e: CommandElement| element_view(e))),
            None => parse_elements(b@) is None,
        },
{
    let mut out: Vec<CommandElement> = Vec::new();
    let mut rest: &[u8] = b;
    loop
        invariant
            parse_elements(b@) == match parse_elements(rest@) {
                Some(tail) => Some(out@.map_values(|e: CommandElement| element_view(e)) + tail),
                None => None::<Seq<(u16, u16, Seq<u8>)>>,
            },
        decreases rest@.len(),
    {
        let len = rest.len();
        if len == 0 {
            assert(out@.map_values(|e: CommandElement| element_view(e)) + Seq::empty()
                =~= out@.map_values(|e: CommandElement| element_view(e)));
            return Some(out);
        }
        if len < 8 {
            return None;
        }
        let n: u64 = rest[4] as u64 + rest[5] as u64 * 256 + rest[6] as u64 * 65536 + rest[7] as u64 * 16777216;
        if (len as u64) - 8 < n {
            return None;
        }
        let end = 8 + n as usize;
        let group = (rest[0] as u16) + (rest[1] as u16) * 256;
        let element = (rest[2] as u16) + (rest[3] as u16) * 256;
        let value = slice_to_vec(slice_subrange(rest, 8, end));
        let ghost before = out@.map_values(|e: CommandElement| element_view(e));
        let e = CommandElement { group, element, value };
        out.push(e);
        proof {
            assert(out@.map_values(|e: CommandElement| element_view(e))
                =~= before.push(element_view(e)));
            assert(element_view(e) == (le_u16(rest@, 0), le_u16(rest@, 2), rest@.subrange(8, 8 + n as int)));
            assert(before + (seq![element_view(e)] + parse_elements(rest@.subrange(end as int, len as int))->Some_0)
                =~= before.push(element_view(e)) + parse_elements(rest@.subrange(end as int, len as int))->Some_0);
        }
        rest = slice_subrange(rest, end, len);
    }
}

/// The value of the first element of the command group with this element number.
pub open spec fn first_value(es: Seq<(u16, u16, Seq<u8>)>, element: u16) -> Option<Seq<u8>>
    decreases es.len(),
{
    if es.len() == 0 {
        None
    } else if es[0].0 == COMMAND_GROUP && es[0].1 == element {
        Some(es[0].2)
    } else {
        first_value(es.drop_first(), element)
    }
}

/// An unsigned short value: exactly two bytes.
pub open spec fn us_value(v: Option<Seq<u8>>) -> Option<u16> {
    match v {
        Some(b) => if b.len() == 2 {
            Some(le_u16(b, 0))
        } else {
            None
        },
        None => None,
    }
}

/// The bytes without their trailing NUL and space padding.
pub open spec fn trim_padding(v: Seq<u8>) -> Seq<u8>
    decreases v.len(),
{
    if v.len() > 0 && (v.last() == 0 || v.last() == 32) {
        trim_padding(v.drop_last())
    } else {
        v
    }
}

/// A unique identifier value as text.
pub open spec fn uid_value(v: Option<Seq<u8>>) -> Option<Seq<char>> {
    match v {
        Some(b) => Some(latin1_chars(trim_padding(b))),
        None => None,
    }
}

/// Whether a command message is what the elements state: the command field
/// and the message id must be present as unsigned shorts; the affected
/// identifiers are optional.
pub open spec fn command_is(es: Seq<(u16, u16, Seq<u8>)>, c: CommandMessage) -> bool {
    &&& us_value(first_value(es, TAG_COMMAND_FIELD)) == Some(c.command_field)
    &&& us_value(first_value(es, TAG_MESSAGE_ID)) == Some(c.message_id)
    &&& uid_value(first_value(es, TAG_AFFECTED_SOP_CLASS_UID)) == crate::dimse::opt_view(c.affected_sop_class_uid)
    &&& uid_value(first_value(es, TAG_AFFECTED_SOP_INSTANCE_UID)) == crate::dimse::opt_view(c.affected_sop_instance_uid)
}

/// Whether the elements make a command: both mandatory fields are there.
pub open spec fn is_command(es: Seq<(u16, u16, Seq<u8>)>) -> bool {
    us_value(first_value(es, TAG_COMMAND_FIELD)) is Some && us_value(first_value(es, TAG_MESSAGE_ID)) is Some
}

/// Finds the first element of the command group with this element number.
fn find_element(es: &Vec<CommandElement>, element: u16) -> (r: Option<usize>)
    ensures
        match r {
            Some(i) => i < es@.len() && first_value(es@.map_values(|e: CommandElement| element_view(e)), element)
                == Some(es@[i as int].value@),
            None => first_value(es@.map_values(|e: CommandElement| element_view(e)), element) is None,
        },
{
    let ghost all = es@.map_values(|e: CommandElement| element_view(e));
    let mut i: usize = 0;
    proof {
        assert(all.subrange(0, all.len() as int) =~= all);
    }
    while i < es.len()
        invariant
            i <= es@.len(),
            all == es@.map_values(|e: CommandElement| element_view(e)),
            first_value(all, element) == first_value(all.subrange(i as int, all.len() as int), element),
        decreases es@.len() - i,
    {
        proof {
            assert(all.subrange(i as int, all.len() as int).drop_first() =~= all.subrange(i as int + 1, all.len() as int));
        }
        if es[i].group == COMMAND_GROUP && es[i].element == element {
            return Some(i);
        }
        i += 1;
    }
    None
}

/// Reads an unsigned short value.
fn read_us(v: &Vec<u8>) -> (r: Option<u16>)
    ensures
        r == us_value(Some(v@)),
{
    if v.len() == 2 {
        Some((v[0] as u16) + (v[1] as u16) * 256)
    } else {
        None
    }
}

/// Reads a unique identifier value, dropping its padding.
fn read_uid(v: &Vec<u8>) -> (r: String)
    ensures
        r@ == latin1_chars(trim_padding(v@)),
{
    let mut end: usize = v.len();
    proof {
        assert(v@.subrange(0, end as int) =~= v@);
    }
    while end > 0 && (v[end - 1] == 0 || v[end - 1] == 32)
        invariant
            end <= v@.len(),
            trim_padding(v@) == trim_padding(v@.subrange(0, end as int)),
        decreases end,
    {
        proof {
            assert(v@.subrange(0, end as int).drop_last() =~= v@.subrange(0, end as int - 1));
        }
        end -= 1;
    }
    let ghost kept = v@.subrange(0, end as int);
    assert(trim_padding(kept) == kept);
    let mut out = String::new();
    let mut i: usize = 0;
    while i < end
        invariant
            i <= end <= v@.len(),
            kept == v@.subrange(0, end as int),
            out@ =~= latin1_chars(kept).subrange(0, i as int),
        decreases end - i,
    {
        push_char(&mut out, v[i] as char);
        i += 1;
    }
    assert(latin1_chars(kept).subrange(0, end as int) =~= latin1_chars(kept));
    out
}

/// Reads an optional unique identifier element.
fn read_optional_uid(es: &Vec<CommandElement>, element: u16) -> (r: Option<String>)
    ensures
        crate::dimse::opt_view(r) == uid_value(first_value(es@.map_values(|e: CommandElement| element_view(e)), element)),
{
    match find_element(es, element) {
        Some(i) => Some(read_uid(&es[i].value)),
        None => None,
    }
}

/// Reads a command message from a command set. A command set that does not
/// split into elements, or lacks the command field or the message id, is
/// malformed and gives `None`.
pub fn decode_command(b: &[u8]) -> (r: Option<CommandMessage>)
    ensures
        match parse_elements(b@) {
            Some(es) => if is_command(es) {
                r is Some && command_is(es, r->Some_0)
            } else {
                r is None
            },
            None => r is None,
        },
{
    let es = match read_elements(b) {
        Some(es) => es,
        None => { return None; },
    };
    let command_field = match find_element(&es, TAG_COMMAND_FIELD) {
        Some(i) => match read_us(&es[i].value) {
            Some(v) => v,
            None => { return None; },
        },
        None => { return None; },
    };
    let message_id = match find_element(&es, TAG_MESSAGE_ID) {
        Some(i) => match read_us(&es[i].value) {
            Some(v) => v,
            None => { return None; },
        },
        None => { return None; },
    };
    let affected_sop_class_uid = read_optional_uid(&es, TAG_AFFECTED_SOP_CLASS_UID);
    let affected_sop_instance_uid = read_optional_uid(&es, TAG_AFFECTED_SOP_INSTANCE_UID);
    Some(CommandMessage { command_field, message_id, affected_sop_class_uid, affected_sop_instance_uid })
}

/// A 16-bit value in little endian order.
pub open spec fn u16_le(v: u16) -> Seq<u8> {
    seq![(v % 256) as u8, (v / 256) as u8]
}

/// A 32-bit value in little endian order.
pub open spec fn u32_le(v: int) -> Seq<u8> {
    seq![(v % 256) as u8, ((v / 256) % 256) as u8, ((v / 65536) % 256) as u8, ((v / 16777216) % 256) as u8]
}

/// An element of the command group.
pub open spec fn element_bytes(element: u16, value: Seq<u8>) -> Seq<u8> {
    u16_le(COMMAND_GROUP) + u16_le(element) + u32_le(value.len() as int) + value
}

/// A unique identifier value: its UTF-8 bytes, padded with a NUL to an even length.
pub open spec fn padded_uid(s: Seq<char>) -> Seq<u8> {
    let b = vstd::utf8::encode_utf8(s);
    if b.len() % 2 == 1 {
        b.push(0)
    } else {
        b
    }
}

/// An optional unique identifier element.
pub open spec fn optional_uid_element(element: u16, s: Option<Seq<char>>) -> Seq<u8> {
    match s {
        Some(t) => element_bytes(element, padded_uid(t)),
        None => Seq::empty(),
    }
}

/// The elements of a response after the group length, in tag order.
pub open spec fn response_body(r: CommandResponse) -> Seq<u8> {
    optional_uid_element(TAG_AFFECTED_SOP_CLASS_UID, crate::dimse::opt_view(r.affected_sop_class_uid))
        + element_bytes(TAG_COMMAND_FIELD, u16_le(r.command_field))
        + element_bytes(TAG_MESSAGE_ID_BEING_RESPONDED_TO, u16_le(r.message_id_being_responded_to))
        + element_bytes(TAG_COMMAND_DATA_SET_TYPE, u16_le(r.data_set_type))
        + element_bytes(TAG_STATUS, u16_le(r.status))
        + optional_uid_element(TAG_AFFECTED_SOP_INSTANCE_UID, crate::dimse::opt_view(r.affected_sop_instance_uid))
}

/// A response command set: the group length, then the body.
pub open spec fn encoded_response(r: CommandResponse) -> Seq<u8> {
    element_bytes(TAG_GROUP_LENGTH, u32_le(response_body(r).len() as int)) + response_body(r)
}

/// Whether an optional identifier is short enough to be framed.
pub open spec fn uid_fits(s: Option<String>) -> bool {
    match s {
        Some(t) => vstd::utf8::encode_utf8(t@).len() < 0x1000_0000,
        None => true,
    }
}

/// Appends the little endian bytes of a 32-bit value.
fn push_u32(out: &mut Vec<u8>, v: u32)
    ensures
        final(out)@ == old(out)@ + u32_le(v as int),
{
    out.push((v % 256) as u8);
    out.push(((v / 256) % 256) as u8);
    out.push(((v / 65536) % 256) as u8);
    out.push(((v / 16777216) % 256) as u8);
    assert(final(out)@ =~= old(out)@ + u32_le(v as int));
}

/// Appends the little endian bytes of a 16-bit value.
fn push_u16(out: &mut Vec<u8>, v: u16)
    ensures
        final(out)@ == old(out)@ + u16_le(v),
{
    out.push((v % 256) as u8);
    out.push((v / 256) as u8);
    assert(final(out)@ =~= old(out)@ + u16_le(v));
}

/// Appends an element of the command group.
fn push_element(out: &mut Vec<u8>, element: u16, value: &[u8])
    requires
        value@.len() <= u32::MAX,
    ensures
        final(out)@ == old(out)@ + element_bytes(element, value@),
{
    push_u16(out, COMMAND_GROUP);
    push_u16(out, element);
    push_u32(out, value.len() as u32);
    out.extend_from_slice(value);
    assert(final(out)@ =~= old(out)@ + element_bytes(element, value@));
}

/// Appends an unsigned short element.
fn push_us_element(out: &mut Vec<u8>, element: u16, v: u16)
    ensures
        final(out)@ == old(out)@ + element_bytes(element, u16_le(v)),
{
    push_u16(out, COMMAND_GROUP);
    push_u16(out, element);
    push_u32(out, 2);
    push_u16(out, v);
    assert(final(out)@ =~= old(out)@ + element_bytes(element, u16_le(v)));
}

/// Appends an optional unique identifier element.
fn push_optional_uid(out: &mut Vec<u8>, element: u16, s: &Option<String>)
    requires
        uid_fits(*s),
    ensures
        final(out)@ == old(out)@ + optional_uid_element(element, crate::dimse::opt_view(*s)),
{
    match s {
        Some(t) => {
            let mut value = slice_to_vec(t.as_str().as_bytes());
            if value.len() % 2 == 1 {
                value.push(0);
            }
            assert(value@ == padded_uid(t@));
            push_element(out, element, value.as_slice());
        },
        None => {
            assert(final(out)@ =~= old(out)@ + Seq::<u8>::empty());
        },
    }
}

/// Frames a response as a command set in implicit VR little endian.
pub fn encode_response(r: &CommandResponse) -> (b: Vec<u8>)
    requires
        uid_fits(r.affected_sop_class_uid),
        uid_fits(r.affected_sop_instance_uid),
    ensures
        b@ == encoded_response(*r),
{
    let mut body: Vec<u8> = Vec::new();
    push_optional_uid(&mut body, TAG_AFFECTED_SOP_CLASS_UID, &r.affected_sop_class_uid);
    push_us_element(&mut body, TAG_COMMAND_FIELD, r.command_field);
    push_us_element(&mut body, TAG_MESSAGE_ID_BEING_RESPONDED_TO, r.message_id_being_responded_to);
    push_us_element(&mut body, TAG_COMMAND_DATA_SET_TYPE, r.data_set_type);
    push_us_element(&mut body, TAG_STATUS, r.status);
    push_optional_uid(&mut body, TAG_AFFECTED_SOP_INSTANCE_UID, &r.affected_sop_instance_uid);
    assert(body@ =~= response_body(*r));
    let mut out: Vec<u8> = Vec::new();
    push_u16(&mut out, COMMAND_GROUP);
    push_u16(&mut out, TAG_GROUP_LENGTH);
    push_u32(&mut out, 4);
    push_u32(&mut out, body.len() as u32);
    out.extend_from_slice(body.as_slice());
    assert(out@ =~= encoded_response(*r));
    out
}

/// Reading back the little endian bytes of a 16-bit value gives the value.
proof fn u16_round_trip(v: u16)
    ensures
        le_u16(u16_le(v), 0) == v,
{
    assert((v % 256) as u8 as int + (v / 256) as u8 as int * 256 == v) by (nonlinear_arith);
}

/// Reading back the little endian bytes of a 32-bit length gives the length.
proof fn u32_round_trip(n: int)
    requires
        0 <= n <= u32::MAX,
    ensures
        le_u32(u32_le(n), 0) == n,
{
    let b = u32_le(n);
    assert(b[0] as int == n % 256);
    assert(b[1] as int == (n / 256) % 256);
    assert(b[2] as int == (n / 65536) % 256);
    assert(b[3] as int == (n / 16777216) % 256);
    assert(n % 256 + ((n / 256) % 256) * 256 + ((n / 65536) % 256) * 65536 + ((n / 16777216) % 256) * 16777216 == n)
        by (nonlinear_arith)
        requires 0 <= n <= u32::MAX;
}

/// An element followed by more bytes reads back as that element, then what
/// the rest reads as.
proof fn element_round_trip(element: u16, value: Seq<u8>, rest: Seq<u8>)
    requires
        value.len() <= u32::MAX,
    ensures
        parse_elements(element_bytes(element, value) + rest) == match parse_elements(rest) {
            Some(tail) => Some(seq![(COMMAND_GROUP, element, value)] + tail),
            None => None::<Seq<(u16, u16, Seq<u8>)>>,
        },
{
    let b = element_bytes(element, value) + rest;
    u16_round_trip(COMMAND_GROUP);
    u16_round_trip(element);
    u32_round_trip(value.len() as int);
    assert(le_u16(b, 0) == le_u16(u16_le(COMMAND_GROUP), 0));
    assert(le_u16(b, 2) == le_u16(u16_le(element), 0));
    assert(le_u32(b, 4) == le_u32(u32_le(value.len() as int), 0));
    assert(b.subrange(8, 8 + value.len() as int) =~= value);
    assert(b.subrange(8 + value.len() as int, b.len() as int) =~= rest);
}

/// The entry of an optional unique identifier element, as the reader sees it.
pub open spec fn optional_uid_entry(element: u16, s: Option<Seq<char>>) -> Seq<(u16, u16, Seq<u8>)> {
    match s {
        Some(t) => seq![(COMMAND_GROUP, element, padded_uid(t))],
        None => Seq::empty(),
    }
}

/// The elements of a framed response, in order.
pub open spec fn response_elements(r: CommandResponse) -> Seq<(u16, u16, Seq<u8>)> {
    seq![(COMMAND_GROUP, TAG_GROUP_LENGTH, u32_le(response_body(r).len() as int))]
        + optional_uid_entry(TAG_AFFECTED_SOP_CLASS_UID, crate::dimse::opt_view(r.affected_sop_class_uid))
        + seq![
            (COMMAND_GROUP, TAG_COMMAND_FIELD, u16_le(r.command_field)),
            (COMMAND_GROUP, TAG_MESSAGE_ID_BEING_RESPONDED_TO, u16_le(r.message_id_being_responded_to)),
            (COMMAND_GROUP, TAG_COMMAND_DATA_SET_TYPE, u16_le(r.data_set_type)),
            (COMMAND_GROUP, TAG_STATUS, u16_le(r.status)),
        ]
        + optional_uid_entry(TAG_AFFECTED_SOP_INSTANCE_UID, crate::dimse::opt_view(r.affected_sop_instance_uid))
}

/// An optional identifier element reads back as its entry, followed by what
/// the rest reads as.
proof fn optional_uid_round_trip(element: u16, s: Option<Seq<char>>, rest: Seq<u8>)
    requires
        match s {
            Some(t) => vstd::utf8::encode_utf8(t).len() < 0x1000_0000,
            None => true,
        },
        parse_elements(rest) is Some,
    ensures
        parse_elements(optional_uid_element(element, s) + rest)
            == Some(optional_uid_entry(element, s) + parse_elements(rest)->Some_0),
{
    match s {
        Some(t) => {
            element_round_trip(element, padded_uid(t), rest);
        },
        None => {
            assert(optional_uid_element(element, s) + rest =~= rest);
            assert(optional_uid_entry(element, s) + parse_elements(rest)->Some_0 =~= parse_elements(rest)->Some_0);
        },
    }
}

/// A framed response reads back, element by element, as what was framed:
/// the group length, then each field under its tag.
#[verifier::rlimit(100)]
pub proof fn response_framing_round_trip(r: CommandResponse)
    requires
        uid_fits(r.affected_sop_class_uid),
        uid_fits(r.affected_sop_instance_uid),
    ensures
        parse_elements(encoded_response(r)) == Some(response_elements(r)),
{
    let class = crate::dimse::opt_view(r.affected_sop_class_uid);
    let instance = crate::dimse::opt_view(r.affected_sop_instance_uid);
    let f = optional_uid_element(TAG_AFFECTED_SOP_INSTANCE_UID, instance);
    let e = element_bytes(TAG_STATUS, u16_le(r.status));
    let d = element_bytes(TAG_COMMAND_DATA_SET_TYPE, u16_le(r.data_set_type));
    let c = element_bytes(TAG_MESSAGE_ID_BEING_RESPONDED_TO, u16_le(r.message_id_being_responded_to));
    let b = element_bytes(TAG_COMMAND_FIELD, u16_le(r.command_field));
    let a = optional_uid_element(TAG_AFFECTED_SOP_CLASS_UID, class);
    let empty = Seq::<u8>::empty();
    assert(parse_elements(empty) == Some(Seq::<(u16, u16, Seq<u8>)>::empty()));
    optional_uid_round_trip(TAG_AFFECTED_SOP_INSTANCE_UID, instance, empty);
    assert(f + empty =~= f);
    let fi = optional_uid_entry(TAG_AFFECTED_SOP_INSTANCE_UID, instance);
    assert(parse_elements(f) == Some(fi)) by {
        assert(fi + Seq::<(u16, u16, Seq<u8>)>::empty() =~= fi);
    }
    element_round_trip(TAG_STATUS, u16_le(r.status), f);
    element_round_trip(TAG_COMMAND_DATA_SET_TYPE, u16_le(r.data_set_type), e + f);
    element_round_trip(TAG_MESSAGE_ID_BEING_RESPONDED_TO, u16_le(r.message_id_being_responded_to), d + (e + f));
    element_round_trip(TAG_COMMAND_FIELD, u16_le(r.command_field), c + (d + (e + f)));
    optional_uid_round_trip(TAG_AFFECTED_SOP_CLASS_UID, class, b + (c + (d + (e + f))));
    let body = a + (b + (c + (d + (e + f))));
    assert(body =~= response_body(r));
    element_round_trip(TAG_GROUP_LENGTH, u32_le(body.len() as int), body);
    assert(encoded_response(r) =~= element_bytes(TAG_GROUP_LENGTH, u32_le(body.len() as int)) + body);
    assert(response_elements(r) =~= seq![(COMMAND_GROUP, TAG_GROUP_LENGTH, u32_le(body.len() as int))]
        + (optional_uid_entry(TAG_AFFECTED_SOP_CLASS_UID, class)
        + (seq![(COMMAND_GROUP, TAG_COMMAND_FIELD, u16_le(r.command_field))]
        + (seq![(COMMAND_GROUP, TAG_MESSAGE_ID_BEING_RESPONDED_TO, u16_le(r.message_id_being_responded_to))]
        + (seq![(COMMAND_GROUP, TAG_COMMAND_DATA_SET_TYPE, u16_le(r.data_set_type))]
        + (seq![(COMMAND_GROUP, TAG_STATUS, u16_le(r.status))]
        + optional_uid_entry(TAG_AFFECTED_SOP_INSTANCE_UID, instance)))))));
}

} // verus!
