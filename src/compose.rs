//! Operations over whole buffers: merging several into a new one, cloning,
//! copying one into another and splicing raw encoded bytes.

use vstd::prelude::*;
use crate::buffer::{
    BufferError, BufferModel, checked_append_outcome, librender_bytecode_buffer,
    librender_append_bytes, librender_create_buffer, librender_is_buffer_locked,
    starting_capacity,
};

verus! {

/// The content that an entry of a merge contributes: none for an absent one.
pub open spec fn entry_content(entry: Option<&librender_bytecode_buffer>) -> Seq<u8> {
    match entry {
        Some(b) => b@.content,
        None => Seq::empty(),
    }
}

/// The contents of the present entries, concatenated in order.
pub open spec fn merged_content(entries: Seq<Option<&librender_bytecode_buffer>>) -> Seq<u8>
    decreases entries.len(),
{
    if entries.len() == 0 {
        Seq::empty()
    } else {
        merged_content(entries.drop_last()) + entry_content(entries.last())
    }
}

/// Every present entry is a well-formed buffer.
pub open spec fn entries_wf(entries: Seq<Option<&librender_bytecode_buffer>>) -> bool {
    forall|i: int|
        0 <= i < entries.len() ==> match #[trigger] entries[i] {
            Some(b) => b@.wf(),
            None => true,
        }
}

/// Merging two runs of entries gives the merge of the first followed by the
/// merge of the second.
pub proof fn lemma_merged_content_split(
    s1: Seq<Option<&librender_bytecode_buffer>>,
    s2: Seq<Option<&librender_bytecode_buffer>>,
)
    ensures
        merged_content(s1 + s2) == merged_content(s1) + merged_content(s2),
    decreases s2.len(),
{
    if s2.len() == 0 {
        assert(s1 + s2 =~= s1);
        assert(merged_content(s1) + merged_content(s2) =~= merged_content(s1));
    } else {
        assert((s1 + s2).drop_last() =~= s1 + s2.drop_last());
        assert((s1 + s2).last() == s2.last());
        lemma_merged_content_split(s1, s2.drop_last());
        assert(merged_content(s1 + s2) =~= merged_content(s1) + merged_content(s2));
    }
}

/// Concatenates the content of the present entries, in order, into a new
/// unlocked buffer whose capacity is the total content length (or the
/// default when that is zero). An empty list of entries is rejected.
pub fn librender_merge_bytecode(buffers: &[Option<&librender_bytecode_buffer>]) -> (r: Result<
    librender_bytecode_buffer,
    BufferError,
>)
    requires
        entries_wf(buffers@),
    ensures
        buffers@.len() == 0 ==> r == Err::<librender_bytecode_buffer, BufferError>(
            BufferError::InvalidArgument,
        ),
        buffers@.len() > 0 ==> (r is Ok || r == Err::<librender_bytecode_buffer, BufferError>(
            BufferError::AllocationFailure,
        )),
        merged_content(buffers@).len() > usize::MAX ==> (r is Err),
        match r {
            Ok(m) => m@.wf() && m@ == BufferModel {
                content: merged_content(buffers@),
                capacity: starting_capacity(merged_content(buffers@).len()),
                locked: false,
            },
            Err(_) => true,
        },
{
    if buffers.len() == 0 {
        return Err(BufferError::InvalidArgument);
    }
    let mut total: usize = 0;
    let mut i: usize = 0;
    while i < buffers.len()
        invariant
            0 <= i <= buffers@.len(),
            total == merged_content(buffers@.subrange(0, i as int)).len(),
        decreases buffers.len() - i,
    {
        proof {
            assert(buffers@.subrange(0, i + 1).drop_last() =~= buffers@.subrange(0, i as int));
        }
        match buffers[i] {
            Some(b) => {
                match total.checked_add(b.len()) {
                    Some(t) => {
                        total = t;
                    },
                    None => {
                        proof {
                            lemma_merged_content_split(
                                buffers@.subrange(0, i + 1),
                                buffers@.subrange(i + 1, buffers@.len() as int),
                            );
                            assert(buffers@.subrange(0, i + 1) + buffers@.subrange(
                                i + 1,
                                buffers@.len() as int,
                            ) =~= buffers@);
                        }
                        return Err(BufferError::AllocationFailure);
                    },
                }
            },
            None => {},
        }
        i = i + 1;
    }
    proof {
        assert(buffers@.subrange(0, buffers@.len() as int) =~= buffers@);
    }
    let mut merged = match librender_create_buffer(total) {
        Ok(m) => m,
        Err(e) => {
            return Err(e);
        },
    };
    let mut j: usize = 0;
    while j < buffers.len()
        invariant
            0 <= j <= buffers@.len(),
            entries_wf(buffers@),
            total == merged_content(buffers@).len(),
            merged@.wf(),
            merged@ == (BufferModel {
                content: merged_content(buffers@.subrange(0, j as int)),
                capacity: starting_capacity(total as nat),
                locked: false,
            }),
        decreases buffers.len() - j,
    {
        proof {
            assert(buffers@.subrange(0, j + 1).drop_last() =~= buffers@.subrange(0, j as int));
            lemma_merged_content_split(
                buffers@.subrange(0, j + 1),
                buffers@.subrange(j + 1, buffers@.len() as int),
            );
            assert(buffers@.subrange(0, j + 1) + buffers@.subrange(j + 1, buffers@.len() as int)
                =~= buffers@);
        }
        match buffers[j] {
            Some(b) => {
                match librender_append_bytes(&mut merged, b.as_slice()) {
                    Ok(()) => {},
                    Err(e) => {
                        return Err(e);
                    },
                }
                proof {
                    crate::buffer::lemma_grown_capacity_bounds(
                        starting_capacity(total as nat),
                        merged_content(buffers@.subrange(0, j + 1)).len() as int,
                    );
                }
            },
            None => {},
        }
        j = j + 1;
    }
    proof {
        assert(buffers@.subrange(0, buffers@.len() as int) =~= buffers@);
    }
    Ok(merged)
}

/// A new unlocked buffer with the same content and capacity as `src`.
/// An empty `src` is rejected.
pub fn librender_clone_buffer(src: &librender_bytecode_buffer) -> (r: Result<
    librender_bytecode_buffer,
    BufferError,
>)
    requires
        src@.wf(),
    ensures
        src@.content.len() == 0 ==> r == Err::<librender_bytecode_buffer, BufferError>(
            BufferError::InvalidArgument,
        ),
        src@.content.len() > 0 ==> (r is Ok || r == Err::<librender_bytecode_buffer, BufferError>(
            BufferError::AllocationFailure,
        )),
        match r {
            Ok(c) => c@.wf() && c@ == BufferModel {
                content: src@.content,
                capacity: src@.capacity,
                locked: false,
            },
            Err(_) => true,
        },
{
    if src.len() == 0 {
        return Err(BufferError::InvalidArgument);
    }
    let mut copy = match librender_create_buffer(src.capacity()) {
        Ok(c) => c,
        Err(e) => {
            return Err(e);
        },
    };
    match librender_append_bytes(&mut copy, src.as_slice()) {
        Ok(()) => {},
        Err(e) => {
            return Err(e);
        },
    }
    proof {
        crate::buffer::lemma_grown_capacity_bounds(src@.capacity, src@.content.len() as int);
        assert(Seq::<u8>::empty() + src@.content =~= src@.content);
    }
    Ok(copy)
}

/// Appends the content of `src` onto `dst`, growing `dst` as appends do.
/// Refused when `dst` is locked or `src` is empty.
pub fn librender_copy_buffer(dst: &mut librender_bytecode_buffer, src: &librender_bytecode_buffer) -> (r:
    Result<(), BufferError>)
    requires
        old(dst)@.wf(),
    ensures
        final(dst)@.wf(),
        checked_append_outcome(old(dst)@, final(dst)@, src@.content.len() > 0, src@.content, r),
{
    if librender_is_buffer_locked(dst) {
        return Err(BufferError::LockedBuffer);
    }
    if src.len() == 0 {
        return Err(BufferError::InvalidArgument);
    }
    librender_append_bytes(dst, src.as_slice())
}

/// Splices already-encoded bytes onto `buf` verbatim. Refused when `buf` is
/// locked or `bytecode` is empty.
pub fn librender_append_bytecode(buf: &mut librender_bytecode_buffer, bytecode: &[u8]) -> (r:
    Result<(), BufferError>)
    requires
        old(buf)@.wf(),
    ensures
        final(buf)@.wf(),
        checked_append_outcome(old(buf)@, final(buf)@, bytecode@.len() > 0, bytecode@, r),
{
    if librender_is_buffer_locked(buf) {
        return Err(BufferError::LockedBuffer);
    }
    if bytecode.len() == 0 {
        return Err(BufferError::InvalidArgument);
    }
    librender_append_bytes(buf, bytecode)
}

} // verus!
