//! Laws that relate the buffer operations to one another.

use vstd::prelude::*;
use crate::buffer::{
    BufferError, BufferModel, append_outcome, checked_append_outcome, grown_capacity,
    lemma_grown_capacity_bounds, librender_bytecode_buffer,
};
use crate::compose::{entry_content, merged_content};
use crate::encoder::{instruction0, instruction1, instruction2};

verus! {

/// The state reached by appending `bytes` one byte at a time.
pub open spec fn appended_one_by_one(start: BufferModel, bytes: Seq<u8>) -> BufferModel
    decreases bytes.len(),
{
    if bytes.len() == 0 {
        start
    } else {
        appended_one_by_one(start, bytes.drop_last()).with_appended(seq![bytes.last()])
    }
}

/// Growing to `a` and then to a larger `b` ends where growing to `b` at once does.
pub proof fn lemma_grown_capacity_compose(c: nat, a: int, b: int)
    requires
        a <= b,
    ensures
        grown_capacity(grown_capacity(c, a), b) == grown_capacity(c, b),
    decreases (if a > c { a - c } else { 0 }),
{
    if c != 0 && a > c {
        lemma_grown_capacity_compose(2 * c, a, b);
    }
}

/// After single-byte appends of `bytes` to a well-formed buffer, the content is
/// the old content followed by `bytes` (so every byte keeps its index), the
/// capacity holds it all, and the capacity is the one that doubling reaches.
pub proof fn lemma_single_appends(start: BufferModel, bytes: Seq<u8>)
    requires
        start.wf(),
    ensures
        appended_one_by_one(start, bytes).content == start.content + bytes,
        appended_one_by_one(start, bytes).wf(),
        appended_one_by_one(start, bytes).capacity == grown_capacity(
            start.capacity,
            start.content.len() + bytes.len() as int,
        ),
        appended_one_by_one(start, bytes).locked == start.locked,
        start.content.len() + bytes.len() <= start.capacity ==> appended_one_by_one(
            start,
            bytes,
        ).capacity == start.capacity,
    decreases bytes.len(),
{
    let n: int = start.content.len() + bytes.len() as int;
    if bytes.len() == 0 {
        assert(start.content + bytes =~= start.content);
        lemma_grown_capacity_bounds(start.capacity, n);
    } else {
        lemma_single_appends(start, bytes.drop_last());
        lemma_grown_capacity_compose(start.capacity, n - 1, n);
        lemma_grown_capacity_bounds(start.capacity, n);
        assert(start.content + bytes.drop_last() + seq![bytes.last()] =~= start.content + bytes);
    }
}

/// An append of any bytes to a locked buffer fails with `LockedBuffer` and
/// leaves length, capacity and content as they were.
pub proof fn lemma_locked_append_unchanged(
    pre: BufferModel,
    post: BufferModel,
    bytes: Seq<u8>,
    r: Result<(), BufferError>,
)
    requires
        pre.locked,
        append_outcome(pre, post, bytes, r),
    ensures
        r == Err::<(), BufferError>(BufferError::LockedBuffer),
        post == pre,
{
}

/// An encoder, copy or raw append on a locked buffer fails with
/// `LockedBuffer` and leaves the buffer as it was, whatever its arguments.
pub proof fn lemma_locked_checked_append_unchanged(
    pre: BufferModel,
    post: BufferModel,
    args_ok: bool,
    bytes: Seq<u8>,
    r: Result<(), BufferError>,
)
    requires
        pre.locked,
        checked_append_outcome(pre, post, args_ok, bytes, r),
    ensures
        r == Err::<(), BufferError>(BufferError::LockedBuffer),
        post == pre,
{
}

/// A checked append either leaves the length as it was (on any error) or
/// raises it by exactly the length of what was appended.
pub proof fn lemma_checked_append_length(
    pre: BufferModel,
    post: BufferModel,
    args_ok: bool,
    bytes: Seq<u8>,
    r: Result<(), BufferError>,
)
    requires
        checked_append_outcome(pre, post, args_ok, bytes, r),
    ensures
        r is Err ==> post.content.len() == pre.content.len(),
        r is Ok ==> post.content.len() == pre.content.len() + bytes.len(),
{
}

/// An encoded instruction is one opcode byte plus, for each field, one length
/// byte and the field's bytes.
pub proof fn lemma_instruction_lengths(op: u8, a: Seq<u8>, b: Seq<u8>)
    ensures
        instruction0(op).len() == 1,
        instruction1(op, a).len() == 1 + (1 + a.len()),
        instruction2(op, a, b).len() == 1 + (1 + a.len()) + (1 + b.len()),
{
}

/// Merging three entries gives their contents concatenated in order, an
/// absent entry contributing nothing.
pub proof fn lemma_merge_three(
    a: Option<&librender_bytecode_buffer>,
    b: Option<&librender_bytecode_buffer>,
    c: Option<&librender_bytecode_buffer>,
)
    ensures
        merged_content(seq![a, b, c]) == entry_content(a) + entry_content(b) + entry_content(c),
{
    let s1 = seq![a];
    let s2 = seq![a, b];
    let s3 = seq![a, b, c];
    assert(s1.drop_last() =~= Seq::<Option<&librender_bytecode_buffer>>::empty());
    assert(s1.last() == a);
    assert(merged_content(s1.drop_last()) == Seq::<u8>::empty());
    assert(merged_content(s1) =~= entry_content(a));
    assert(s2.drop_last() =~= s1);
    assert(s2.last() == b);
    assert(merged_content(s2) == entry_content(a) + entry_content(b));
    assert(s3.drop_last() =~= s2);
    assert(s3.last() == c);
}

/// Inserting `x` at `i` and then removing the byte at `i` restores the
/// content and the length; the removal is in range, and the capacity only
/// grows when the buffer was full.
pub proof fn lemma_insert_remove_inverse(m: BufferModel, i: int, x: u8)
    requires
        m.wf(),
        0 <= i <= m.content.len(),
    ensures
        m.content.len() < m.capacity ==> m.with_inserted(i, x).capacity == m.capacity,
        m.content.len() == m.capacity ==> m.with_inserted(i, x).capacity == 2 * m.capacity,
        i < m.with_inserted(i, x).content.len(),
        m.with_inserted(i, x).with_removed(i).content == m.content,
        m.with_inserted(i, x).with_removed(i).content.len() == m.content.len(),
{
    assert(m.content.insert(i, x).remove(i) =~= m.content);
    lemma_grown_capacity_bounds(m.capacity, m.content.len() + 1int);
    lemma_grown_capacity_bounds(2 * m.capacity, m.content.len() + 1int);
}

} // verus!
