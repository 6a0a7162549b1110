//! The buffer core: storage, capacity bookkeeping, the lock, appends and
//! positional editing.

use vstd::prelude::*;

verus! {

/// Capacity given to a buffer that is created with a requested capacity of zero.
pub const DEFAULT_CAPACITY: usize = 1024;

/// Why an operation on a buffer did nothing.
#[derive(Debug, Clone, Copy, PartialEq, Eq, Structural)]
pub enum BufferError {
    /// An argument is empty, too long for its length prefix, or otherwise malformed.
    InvalidArgument,
    /// The buffer is locked against mutation.
    LockedBuffer,
    /// Storage for the requested capacity could not be obtained.
    AllocationFailure,
    /// A position lies outside the buffer's content.
    IndexOutOfRange,
}

/// The abstract state of a buffer: its valid bytes, its capacity and its lock flag.
pub struct BufferModel {
    pub content: Seq<u8>,
    pub capacity: nat,
    pub locked: bool,
}

/// The capacity reached from `cap` by doubling until it holds `need` bytes.
pub open spec fn grown_capacity(cap: nat, need: int) -> nat
    decreases (if need > cap { need - cap } else { 0 }),
{
    if cap == 0 || need <= cap {
        cap
    } else {
        grown_capacity(2 * cap, need)
    }
}

/// The capacity that a buffer created with `requested` starts with.
pub open spec fn starting_capacity(requested: nat) -> nat {
    if requested == 0 {
        DEFAULT_CAPACITY as nat
    } else {
        requested
    }
}

impl BufferModel {
    /// Every buffer holds no more bytes than its capacity, which is positive.
    pub open spec fn wf(self) -> bool {
        &&& self.content.len() <= self.capacity
        &&& 0 < self.capacity
    }

    /// The state after `bytes` are appended: capacity doubles as often as needed.
    pub open spec fn with_appended(self, bytes: Seq<u8>) -> BufferModel {
        BufferModel {
            content: self.content + bytes,
            capacity: grown_capacity(self.capacity, self.content.len() + bytes.len() as int),
            locked: self.locked,
        }
    }

    /// The state after `byte` is inserted at `index`, growing as one append would.
    pub open spec fn with_inserted(self, index: int, byte: u8) -> BufferModel {
        BufferModel {
            content: self.content.insert(index, byte),
            capacity: grown_capacity(self.capacity, self.content.len() + 1int),
            locked: self.locked,
        }
    }

    /// The state after the byte at `index` is removed.
    pub open spec fn with_removed(self, index: int) -> BufferModel {
        BufferModel { content: self.content.remove(index), ..self }
    }
}

/// The outcome of an append of `bytes` that moves a buffer from `pre` to `post`
/// with result `r`: refused while locked, otherwise done unless storage for the
/// grown capacity cannot be had; nothing changes on an error.
pub open spec fn append_outcome(
    pre: BufferModel,
    post: BufferModel,
    bytes: Seq<u8>,
    r: Result<(), BufferError>,
) -> bool {
    &&& pre.locked ==> r == Err::<(), BufferError>(BufferError::LockedBuffer)
    &&& !pre.locked ==> (r is Ok || r == Err::<(), BufferError>(BufferError::AllocationFailure))
    &&& !pre.locked && pre.content.len() + bytes.len() <= pre.capacity ==> r is Ok
    &&& grown_capacity(pre.capacity, pre.content.len() + bytes.len() as int) > usize::MAX ==> r is Err
    &&& r is Ok ==> post == pre.with_appended(bytes)
    &&& r is Err ==> post == pre
}

/// The outcome of an append of `bytes` whose arguments are first checked:
/// refused while locked, then refused when `args_ok` fails, otherwise as
/// `append_outcome` says. On every error the buffer is unchanged.
pub open spec fn checked_append_outcome(
    pre: BufferModel,
    post: BufferModel,
    args_ok: bool,
    bytes: Seq<u8>,
    r: Result<(), BufferError>,
) -> bool {
    &&& pre.locked ==> r == Err::<(), BufferError>(BufferError::LockedBuffer)
    &&& !pre.locked && !args_ok ==> r == Err::<(), BufferError>(BufferError::InvalidArgument)
    &&& args_ok ==> append_outcome(pre, post, bytes, r)
    &&& r is Err ==> post == pre
}

/// Doubling never lowers a capacity and, from a positive one, reaches `need`.
pub proof fn lemma_grown_capacity_bounds(cap: nat, need: int)
    ensures
        grown_capacity(cap, need) >= cap,
        cap > 0 ==> grown_capacity(cap, need) >= need,
        need <= cap ==> grown_capacity(cap, need) == cap,
    decreases (if need > cap { need - cap } else { 0 }),
{
    if cap != 0 && need > cap {
        lemma_grown_capacity_bounds(2 * cap, need);
    }
}

/// A growable byte buffer with a capacity and a write lock.
#[allow(non_camel_case_types)]
pub struct librender_bytecode_buffer {
    data: Vec<u8>,
    capacity: usize,
    locked: bool,
}

impl View for librender_bytecode_buffer {
    type V = BufferModel;

    closed spec fn view(&self) -> BufferModel {
        BufferModel { content: self.data@, capacity: self.capacity as nat, locked: self.locked }
    }
}

impl librender_bytecode_buffer {
    /// The number of valid bytes.
    pub fn len(&self) -> (r: usize)
        ensures
            r == self@.content.len(),
    {
        self.data.len()
    }

    /// The current capacity.
    pub fn capacity(&self) -> (r: usize)
        ensures
            r == self@.capacity,
    {
        self.capacity
    }

    /// The valid bytes.
    pub fn as_slice(&self) -> (r: &[u8])
        ensures
            r@ == self@.content,
    {
        self.data.as_slice()
    }

    /// Raises the capacity, by doubling, until `extra` more bytes fit.
    fn grow_for(&mut self, extra: usize) -> (r: Result<(), BufferError>)
        requires
            old(self)@.wf(),
        ensures
            final(self)@.wf(),
            r is Ok ==> final(self)@ == (BufferModel {
                capacity: grown_capacity(old(self)@.capacity, old(self)@.content.len() + extra),
                ..old(self)@
            }),
            r is Ok ==> old(self)@.content.len() + extra <= final(self)@.capacity,
            old(self)@.content.len() + extra <= old(self)@.capacity ==> (r is Ok),
            r is Err ==> r == Err::<(), BufferError>(BufferError::AllocationFailure),
            r is Err ==> final(self)@ == old(self)@,
            grown_capacity(old(self)@.capacity, old(self)@.content.len() + extra) > usize::MAX
                ==> (r is Err),
    {
        let len = self.data.len();
        let ghost need = len + extra;
        proof {
            lemma_grown_capacity_bounds(self.capacity as nat, need as int);
        }
        let need = match len.checked_add(extra) {
            Some(n) => n,
            None => {
                return Err(BufferError::AllocationFailure);
            },
        };
        let mut c: usize = self.capacity;
        while c < need
            invariant
                0 < c,
                self.capacity <= c,
                self@ == old(self)@,
                self@.wf(),
                need == len + extra,
                len == self.data.len(),
                grown_capacity(c as nat, need as int) == grown_capacity(
                    self.capacity as nat,
                    need as int,
                ),
            decreases (if need > c { need - c } else { 0 }),
        {
            if c > usize::MAX / 2 {
                proof {
                    lemma_grown_capacity_bounds(2 * c as nat, need as int);
                }
                return Err(BufferError::AllocationFailure);
            }
            c = c * 2;
        }
        proof {
            lemma_grown_capacity_bounds(c as nat, need as int);
        }
        if c > self.capacity {
            match self.data.try_reserve(c - len) {
                Ok(()) => {},
                Err(_) => {
                    return Err(BufferError::AllocationFailure);
                },
            }
            self.capacity = c;
        }
        Ok(())
    }
}

/// Creates an empty, unlocked buffer with the requested capacity, or the
/// default capacity when zero is requested.
pub fn librender_create_buffer(initial_capacity: usize) -> (r: Result<
    librender_bytecode_buffer,
    BufferError,
>)
    ensures
        (r is Ok) || r == Err::<librender_bytecode_buffer, BufferError>(
            BufferError::AllocationFailure,
        ),
        match r {
            Ok(b) => b@.wf() && b@ == BufferModel {
                content: Seq::empty(),
                capacity: starting_capacity(initial_capacity as nat),
                locked: false,
            },
            Err(_) => true,
        },
{
    let cap: usize = if initial_capacity == 0 {
        DEFAULT_CAPACITY
    } else {
        initial_capacity
    };
    let mut data: Vec<u8> = Vec::new();
    match data.try_reserve(cap) {
        Ok(()) => {},
        Err(_) => {
            return Err(BufferError::AllocationFailure);
        },
    }
    Ok(librender_bytecode_buffer { data, capacity: cap, locked: false })
}

/// Releases a buffer and its storage.
pub fn librender_free_buffer(buf: librender_bytecode_buffer) {
    let _released: librender_bytecode_buffer = buf;
}

/// Releases a buffer at the end of its owner's use of it.
pub fn librender_destroy_bytecode(buf: librender_bytecode_buffer) {
    librender_free_buffer(buf);
}

/// Locks a buffer against mutation.
pub fn librender_lock_buffer(buf: &mut librender_bytecode_buffer)
    requires
        old(buf)@.wf(),
    ensures
        final(buf)@.wf(),
        final(buf)@ == (BufferModel { locked: true, ..old(buf)@ }),
{
    buf.locked = true;
}

/// Lifts the lock from a buffer.
pub fn librender_unlock_buffer(buf: &mut librender_bytecode_buffer)
    requires
        old(buf)@.wf(),
    ensures
        final(buf)@.wf(),
        final(buf)@ == (BufferModel { locked: false, ..old(buf)@ }),
{
    buf.locked = false;
}

/// Whether a buffer is locked.
pub fn librender_is_buffer_locked(buf: &librender_bytecode_buffer) -> (r: bool)
    ensures
        r == buf@.locked,
{
    buf.locked
}

/// Appends one byte, doubling the capacity first when the buffer is full.
pub fn librender_append_byte(buf: &mut librender_bytecode_buffer, byte: u8) -> (r: Result<
    (),
    BufferError,
>)
    requires
        old(buf)@.wf(),
    ensures
        final(buf)@.wf(),
        append_outcome(old(buf)@, final(buf)@, seq![byte], r),
{
    let one: Vec<u8> = vec![byte];
    assert(one@ =~= seq![byte]);
    librender_append_bytes(buf, one.as_slice())
}

/// Appends `bytes` in order. The whole run is written, or nothing is.
pub fn librender_append_bytes(buf: &mut librender_bytecode_buffer, bytes: &[u8]) -> (r: Result<
    (),
    BufferError,
>)
    requires
        old(buf)@.wf(),
    ensures
        final(buf)@.wf(),
        append_outcome(old(buf)@, final(buf)@, bytes@, r),
{
    if buf.locked {
        return Err(BufferError::LockedBuffer);
    }
    match buf.grow_for(bytes.len()) {
        Ok(()) => {},
        Err(e) => {
            return Err(e);
        },
    }
    let ghost start = buf.data@;
    let ghost grown = buf.capacity;
    let mut i: usize = 0;
    while i < bytes.len()
        invariant
            0 <= i <= bytes@.len(),
            buf.data@ == start + bytes@.subrange(0, i as int),
            start.len() + bytes@.len() <= buf.capacity,
            buf.capacity == grown,
            buf.locked == old(buf).locked,
        decreases bytes.len() - i,
    {
        buf.data.push(bytes[i]);
        proof {
            assert(bytes@.subrange(0, i + 1) == bytes@.subrange(0, i as int).push(bytes@[i as int]));
        }
        i = i + 1;
    }
    proof {
        assert(bytes@.subrange(0, bytes@.len() as int) == bytes@);
    }
    Ok(())
}

/// Empties a buffer, keeping its capacity.
pub fn librender_clear_buffer(buf: &mut librender_bytecode_buffer) -> (r: Result<(), BufferError>)
    requires
        old(buf)@.wf(),
    ensures
        final(buf)@.wf(),
        old(buf)@.locked <==> r == Err::<(), BufferError>(BufferError::LockedBuffer),
        !old(buf)@.locked <==> (r is Ok),
        r is Ok ==> final(buf)@ == (BufferModel { content: Seq::empty(), ..old(buf)@ }),
        r is Err ==> final(buf)@ == old(buf)@,
{
    if buf.locked {
        return Err(BufferError::LockedBuffer);
    }
    buf.data.clear();
    Ok(())
}

/// Raises the capacity to `new_capacity` when that is larger; a smaller or
/// equal request leaves the buffer as it is.
pub fn librender_resize_buffer(buf: &mut librender_bytecode_buffer, new_capacity: usize) -> (r:
    Result<(), BufferError>)
    requires
        old(buf)@.wf(),
    ensures
        final(buf)@.wf(),
        old(buf)@.locked ==> r == Err::<(), BufferError>(BufferError::LockedBuffer),
        !old(buf)@.locked && new_capacity <= old(buf)@.capacity ==> (r is Ok),
        !old(buf)@.locked && new_capacity > old(buf)@.capacity ==> (r is Ok || r == Err::<
            (),
            BufferError,
        >(BufferError::AllocationFailure)),
        r is Ok && new_capacity > old(buf)@.capacity ==> final(buf)@ == (BufferModel {
            capacity: new_capacity as nat,
            ..old(buf)@
        }),
        r is Ok && new_capacity <= old(buf)@.capacity ==> final(buf)@ == old(buf)@,
        r is Err ==> final(buf)@ == old(buf)@,
{
    if buf.locked {
        return Err(BufferError::LockedBuffer);
    }
    if new_capacity <= buf.capacity {
        return Ok(());
    }
    let len = buf.data.len();
    match buf.data.try_reserve(new_capacity - len) {
        Ok(()) => {},
        Err(_) => {
            return Err(BufferError::AllocationFailure);
        },
    }
    buf.capacity = new_capacity;
    Ok(())
}

/// Inserts `byte` at `index`, shifting the bytes from `index` on one place
/// right; `index` may equal the length. Grows as an append does.
pub fn librender_insert_byte(buf: &mut librender_bytecode_buffer, index: usize, byte: u8) -> (r:
    Result<(), BufferError>)
    requires
        old(buf)@.wf(),
    ensures
        final(buf)@.wf(),
        old(buf)@.locked ==> r == Err::<(), BufferError>(BufferError::LockedBuffer),
        !old(buf)@.locked && index > old(buf)@.content.len() ==> r == Err::<(), BufferError>(
            BufferError::IndexOutOfRange,
        ),
        !old(buf)@.locked && index <= old(buf)@.content.len() ==> (r is Ok || r == Err::<
            (),
            BufferError,
        >(BufferError::AllocationFailure)),
        !old(buf)@.locked && index <= old(buf)@.content.len() && old(buf)@.content.len()
            < old(buf)@.capacity ==> (r is Ok),
        grown_capacity(old(buf)@.capacity, old(buf)@.content.len() + 1int) > usize::MAX ==> (
        r is Err),
        r is Ok ==> final(buf)@ == old(buf)@.with_inserted(index as int, byte),
        r is Err ==> final(buf)@ == old(buf)@,
{
    if buf.locked {
        return Err(BufferError::LockedBuffer);
    }
    if index > buf.data.len() {
        return Err(BufferError::IndexOutOfRange);
    }
    match buf.grow_for(1) {
        Ok(()) => {},
        Err(e) => {
            return Err(e);
        },
    }
    buf.data.insert(index, byte);
    Ok(())
}

/// Removes the byte at `index`, shifting the bytes after it one place left.
pub fn librender_remove_byte(buf: &mut librender_bytecode_buffer, index: usize) -> (r: Result<
    (),
    BufferError,
>)
    requires
        old(buf)@.wf(),
    ensures
        final(buf)@.wf(),
        old(buf)@.locked ==> r == Err::<(), BufferError>(BufferError::LockedBuffer),
        !old(buf)@.locked && index >= old(buf)@.content.len() ==> r == Err::<(), BufferError>(
            BufferError::IndexOutOfRange,
        ),
        !old(buf)@.locked && index < old(buf)@.content.len() ==> (r is Ok),
        r is Ok ==> final(buf)@ == old(buf)@.with_removed(index as int),
        r is Err ==> final(buf)@ == old(buf)@,
{
    if buf.locked {
        return Err(BufferError::LockedBuffer);
    }
    if index >= buf.data.len() {
        return Err(BufferError::IndexOutOfRange);
    }
    buf.data.remove(index);
    Ok(())
}

/// The byte at `index`; the lock does not restrict reading.
pub fn librender_get_byte(buf: &librender_bytecode_buffer, index: usize) -> (r: Result<
    u8,
    BufferError,
>)
    ensures
        index < buf@.content.len() ==> r == Ok::<u8, BufferError>(buf@.content[index as int]),
        index >= buf@.content.len() ==> r == Err::<u8, BufferError>(BufferError::IndexOutOfRange),
{
    if index >= buf.data.len() {
        return Err(BufferError::IndexOutOfRange);
    }
    Ok(buf.data[index])
}

} // verus!
