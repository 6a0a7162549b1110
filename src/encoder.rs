//! Encoders for the twelve instruction kinds. An instruction is an opcode byte
//! followed by its fields, each a length byte and that many raw bytes. An
//! instruction is written whole or not at all.

use vstd::prelude::*;
use crate::buffer::{
    BufferError, checked_append_outcome, librender_bytecode_buffer, librender_append_bytes,
    librender_is_buffer_locked,
};

verus! {

pub const OPCODE_NOP: u8 = 0;
pub const OPCODE_CREATE_ELEMENT: u8 = 1;
pub const OPCODE_SET_ATTRIBUTE: u8 = 2;
pub const OPCODE_APPEND_CHILD: u8 = 3;
pub const OPCODE_REMOVE_CHILD: u8 = 4;
pub const OPCODE_REPLACE_CHILD: u8 = 5;
pub const OPCODE_TEXT_NODE: u8 = 6;
pub const OPCODE_SET_TEXT: u8 = 7;
pub const OPCODE_REMOVE_ATTRIBUTE: u8 = 8;
pub const OPCODE_STYLE: u8 = 9;
pub const OPCODE_EVENT_LISTENER: u8 = 10;
pub const OPCODE_APPEND_SIBLING: u8 = 11;

/// The longest field that a one-byte length prefix can describe.
pub const MAX_FIELD_LEN: usize = 255;

/// A field is encodable when it is non-empty and its length fits in one byte.
pub open spec fn valid_field(f: Seq<u8>) -> bool {
    0 < f.len() <= MAX_FIELD_LEN
}

/// A field on the wire: its length byte, then its bytes.
pub open spec fn field(f: Seq<u8>) -> Seq<u8> {
    seq![f.len() as u8] + f
}

/// An instruction without fields.
pub open spec fn instruction0(op: u8) -> Seq<u8> {
    seq![op]
}

/// An instruction with one field.
pub open spec fn instruction1(op: u8, a: Seq<u8>) -> Seq<u8> {
    seq![op] + field(a)
}

/// An instruction with two fields, in order.
pub open spec fn instruction2(op: u8, a: Seq<u8>, b: Seq<u8>) -> Seq<u8> {
    seq![op] + field(a) + field(b)
}

/// Pushes the encoded form of field `f` onto `out`.
fn push_field(out: &mut Vec<u8>, f: &[u8])
    requires
        f@.len() <= MAX_FIELD_LEN,
    ensures
        final(out)@ == old(out)@ + field(f@),
{
    out.push(f.len() as u8);
    let ghost start = out@;
    let mut i: usize = 0;
    while i < f.len()
        invariant
            0 <= i <= f@.len(),
            out@ == start + f@.subrange(0, i as int),
        decreases f.len() - i,
    {
        out.push(f[i]);
        assert(f@.subrange(0, i + 1) == f@.subrange(0, i as int).push(f@[i as int]));
        i = i + 1;
    }
    assert(f@.subrange(0, f@.len() as int) == f@);
    assert(out@ =~= old(out)@ + field(f@));
}

fn emit0(buf: &mut librender_bytecode_buffer, op: u8) -> (r: Result<(), BufferError>)
    requires
        old(buf)@.wf(),
    ensures
        final(buf)@.wf(),
        checked_append_outcome(old(buf)@, final(buf)@, true, instruction0(op), r),
{
    let mut bytes: Vec<u8> = Vec::new();
    bytes.push(op);
    assert(bytes@ =~= instruction0(op));
    librender_append_bytes(buf, bytes.as_slice())
}

fn emit1(buf: &mut librender_bytecode_buffer, op: u8, a: &[u8]) -> (r: Result<(), BufferError>)
    requires
        old(buf)@.wf(),
    ensures
        final(buf)@.wf(),
        checked_append_outcome(old(buf)@, final(buf)@, valid_field(a@), instruction1(op, a@), r),
{
    if librender_is_buffer_locked(buf) {
        return Err(BufferError::LockedBuffer);
    }
    if a.len() == 0 || a.len() > MAX_FIELD_LEN {
        return Err(BufferError::InvalidArgument);
    }
    let mut bytes: Vec<u8> = Vec::new();
    bytes.push(op);
    push_field(&mut bytes, a);
    assert(bytes@ =~= instruction1(op, a@));
    librender_append_bytes(buf, bytes.as_slice())
}

fn emit2(buf: &mut librender_bytecode_buffer, op: u8, a: &[u8], b: &[u8]) -> (r: Result<
    (),
    BufferError,
>)
    requires
        old(buf)@.wf(),
    ensures
        final(buf)@.wf(),
        checked_append_outcome(
            old(buf)@,
            final(buf)@,
            valid_field(a@) && valid_field(b@),
            instruction2(op, a@, b@),
            r,
        ),
{
    if librender_is_buffer_locked(buf) {
        return Err(BufferError::LockedBuffer);
    }
    if a.len() == 0 || a.len() > MAX_FIELD_LEN || b.len() == 0 || b.len() > MAX_FIELD_LEN {
        return Err(BufferError::InvalidArgument);
    }
    let mut bytes: Vec<u8> = Vec::new();
    bytes.push(op);
    push_field(&mut bytes, a);
    push_field(&mut bytes, b);
    assert(bytes@ =~= instruction2(op, a@, b@));
    librender_append_bytes(buf, bytes.as_slice())
}

/// Encodes a no-op instruction.
pub fn librender_nop(buf: &mut librender_bytecode_buffer) -> (r: Result<(), BufferError>)
    requires
        old(buf)@.wf(),
    ensures
        final(buf)@.wf(),
        checked_append_outcome(old(buf)@, final(buf)@, true, instruction0(OPCODE_NOP), r),
{
    emit0(buf, OPCODE_NOP)
}

/// Encodes the creation of an element with tag name `tag_name`.
pub fn librender_create_element(buf: &mut librender_bytecode_buffer, tag_name: &[u8]) -> (r:
    Result<(), BufferError>)
    requires
        old(buf)@.wf(),
    ensures
        final(buf)@.wf(),
        checked_append_outcome(
            old(buf)@,
            final(buf)@,
            valid_field(tag_name@),
            instruction1(OPCODE_CREATE_ELEMENT, tag_name@),
            r,
        ),
{
    emit1(buf, OPCODE_CREATE_ELEMENT, tag_name)
}

/// Encodes setting attribute `attr_name` to `attr_value`.
pub fn librender_set_attribute(
    buf: &mut librender_bytecode_buffer,
    attr_name: &[u8],
    attr_value: &[u8],
) -> (r: Result<(), BufferError>)
    requires
        old(buf)@.wf(),
    ensures
        final(buf)@.wf(),
        checked_append_outcome(
            old(buf)@,
            final(buf)@,
            valid_field(attr_name@) && valid_field(attr_value@),
            instruction2(OPCODE_SET_ATTRIBUTE, attr_name@, attr_value@),
            r,
        ),
{
    emit2(buf, OPCODE_SET_ATTRIBUTE, attr_name, attr_value)
}

/// Encodes appending the current node as a child.
pub fn librender_append_child(buf: &mut librender_bytecode_buffer) -> (r: Result<(), BufferError>)
    requires
        old(buf)@.wf(),
    ensures
        final(buf)@.wf(),
        checked_append_outcome(old(buf)@, final(buf)@, true, instruction0(OPCODE_APPEND_CHILD), r),
{
    emit0(buf, OPCODE_APPEND_CHILD)
}

/// Encodes appending the current node as a sibling.
pub fn librender_append_sibling(buf: &mut librender_bytecode_buffer) -> (r: Result<
    (),
    BufferError,
>)
    requires
        old(buf)@.wf(),
    ensures
        final(buf)@.wf(),
        checked_append_outcome(old(buf)@, final(buf)@, true, instruction0(OPCODE_APPEND_SIBLING), r),
{
    emit0(buf, OPCODE_APPEND_SIBLING)
}

/// Encodes removing a child.
pub fn librender_remove_child(buf: &mut librender_bytecode_buffer) -> (r: Result<(), BufferError>)
    requires
        old(buf)@.wf(),
    ensures
        final(buf)@.wf(),
        checked_append_outcome(old(buf)@, final(buf)@, true, instruction0(OPCODE_REMOVE_CHILD), r),
{
    emit0(buf, OPCODE_REMOVE_CHILD)
}

/// Encodes replacing a child.
pub fn librender_replace_child(buf: &mut librender_bytecode_buffer) -> (r: Result<
    (),
    BufferError,
>)
    requires
        old(buf)@.wf(),
    ensures
        final(buf)@.wf(),
        checked_append_outcome(old(buf)@, final(buf)@, true, instruction0(OPCODE_REPLACE_CHILD), r),
{
    emit0(buf, OPCODE_REPLACE_CHILD)
}

/// Encodes the creation of a text node holding `text`.
pub fn librender_text_node(buf: &mut librender_bytecode_buffer, text: &[u8]) -> (r: Result<
    (),
    BufferError,
>)
    requires
        old(buf)@.wf(),
    ensures
        final(buf)@.wf(),
        checked_append_outcome(
            old(buf)@,
            final(buf)@,
            valid_field(text@),
            instruction1(OPCODE_TEXT_NODE, text@),
            r,
        ),
{
    emit1(buf, OPCODE_TEXT_NODE, text)
}

/// Encodes replacing the current node's text with `text`.
pub fn librender_set_text(buf: &mut librender_bytecode_buffer, text: &[u8]) -> (r: Result<
    (),
    BufferError,
>)
    requires
        old(buf)@.wf(),
    ensures
        final(buf)@.wf(),
        checked_append_outcome(
            old(buf)@,
            final(buf)@,
            valid_field(text@),
            instruction1(OPCODE_SET_TEXT, text@),
            r,
        ),
{
    emit1(buf, OPCODE_SET_TEXT, text)
}

/// Encodes removing attribute `attr_name`.
pub fn librender_remove_attribute(buf: &mut librender_bytecode_buffer, attr_name: &[u8]) -> (r:
    Result<(), BufferError>)
    requires
        old(buf)@.wf(),
    ensures
        final(buf)@.wf(),
        checked_append_outcome(
            old(buf)@,
            final(buf)@,
            valid_field(attr_name@),
            instruction1(OPCODE_REMOVE_ATTRIBUTE, attr_name@),
            r,
        ),
{
    emit1(buf, OPCODE_REMOVE_ATTRIBUTE, attr_name)
}

/// Encodes setting style property `style_name` to `style_value`.
pub fn librender_set_style(
    buf: &mut librender_bytecode_buffer,
    style_name: &[u8],
    style_value: &[u8],
) -> (r: Result<(), BufferError>)
    requires
        old(buf)@.wf(),
    ensures
        final(buf)@.wf(),
        checked_append_outcome(
            old(buf)@,
            final(buf)@,
            valid_field(style_name@) && valid_field(style_value@),
            instruction2(OPCODE_STYLE, style_name@, style_value@),
            r,
        ),
{
    emit2(buf, OPCODE_STYLE, style_name, style_value)
}

/// Encodes registering a listener for events of type `event_type`.
pub fn librender_add_event_listener(buf: &mut librender_bytecode_buffer, event_type: &[u8]) -> (r:
    Result<(), BufferError>)
    requires
        old(buf)@.wf(),
    ensures
        final(buf)@.wf(),
        checked_append_outcome(
            old(buf)@,
            final(buf)@,
            valid_field(event_type@),
            instruction1(OPCODE_EVENT_LISTENER, event_type@),
            r,
        ),
{
    emit1(buf, OPCODE_EVENT_LISTENER, event_type)
}

} // verus!
