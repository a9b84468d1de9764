//! The shared byte buffer behind the buffer device.
//!
//! All open handles read and write one process-wide buffer of fixed
//! capacity. A write copies the front of its input over the front of the
//! buffer, truncated to the capacity; a read returns a slice starting at a
//! caller-supplied offset, bounded by the capacity. An offset past the end
//! reads zero bytes rather than underflowing.

use vstd::prelude::*;

verus! {

/// Capacity in bytes of the shared buffer, fixed at module load.
pub const CAPACITY: usize = 4096;

/// Number of bytes a write with `input_len` bytes of input transfers:
/// the whole input, truncated to the buffer's capacity.
pub open spec fn write_count(input_len: nat) -> nat {
    if input_len <= CAPACITY as nat {
        input_len
    } else {
        CAPACITY as nat
    }
}

/// Buffer contents after writing `input` over `storage`: the transferred
/// front of the input, then the untouched tail of the old contents.
pub open spec fn written(storage: Seq<u8>, input: Seq<u8>) -> Seq<u8> {
    input.take(write_count(input.len()) as int) + storage.skip(write_count(input.len()) as int)
}

/// Number of bytes a read at `offset` with room for `requested` bytes
/// returns: `min(requested, CAPACITY - offset)`, and zero when the offset
/// lies past the end of the buffer.
pub open spec fn read_count(offset: nat, requested: nat) -> nat {
    if offset > CAPACITY as nat {
        0
    } else if requested <= CAPACITY as nat - offset {
        requested
    } else {
        (CAPACITY - offset) as nat
    }
}

/// The bytes a read at `offset` with room for `requested` bytes returns.
pub open spec fn read_bytes(storage: Seq<u8>, offset: nat, requested: nat) -> Seq<u8> {
    if offset > storage.len() {
        Seq::empty()
    } else {
        storage.subrange(offset as int, offset as int + read_count(offset, requested) as int)
    }
}

/// The process-wide buffer. Exclusive access is the caller's duty: the
/// surrounding process guards each value with a mutex, so `&mut self` here
/// stands for holding that lock.
pub struct SharedBuffer {
    storage: Vec<u8>,
}

impl SharedBuffer {
    /// The buffer's contents as a byte sequence.
    pub closed spec fn view(&self) -> Seq<u8> {
        self.storage@
    }

    /// The buffer always holds exactly `CAPACITY` bytes.
    pub open spec fn wf(&self) -> bool {
        self@.len() == CAPACITY as nat
    }

    /// Allocates the buffer once at module load, zero-filled.
    pub fn new() -> (buf: SharedBuffer)
        ensures
            buf.wf(),
            forall|i: int| 0 <= i < CAPACITY as int ==> buf@[i] == 0u8,
    {
        let mut storage: Vec<u8> = Vec::new();
        let mut i: usize = 0;
        while i < CAPACITY
            invariant
                i <= CAPACITY,
                storage@.len() == i as nat,
                forall|j: int| 0 <= j < i as int ==> storage@[j] == 0u8,
            decreases CAPACITY - i,
        {
            storage.push(0u8);
            i = i + 1;
        }
        SharedBuffer { storage }
    }

    /// The buffer device's write: copies the front of `input` over the
    /// front of the buffer, truncated to the capacity, and reports how many
    /// bytes were taken. The caller-supplied file offset is ignored — the
    /// contract never mentions it, so the result is the same at every
    /// offset. Runs under the buffer's lock for the whole copy: no two
    /// writes interleave, and no reader sees a half-applied one.
    pub fn write(&mut self, input: &[u8], _offset: u64) -> (count: usize)
        requires
            old(self).wf(),
        ensures
            final(self).wf(),
            count as nat == write_count(input@.len()),
            final(self)@ == written(old(self)@, input@),
    {
        let count = if input.len() < CAPACITY {
            input.len()
        } else {
            CAPACITY
        };
        let mut i: usize = 0;
        while i < count
            invariant
                count as nat == write_count(input@.len()),
                count <= input@.len(),
                i <= count,
                self.wf(),
                forall|j: int| 0 <= j < i as int ==> self@[j] == input@[j],
                forall|j: int| i as int <= j < CAPACITY as int ==> self@[j] == old(self)@[j],
            decreases count - i,
        {
            let byte = input[i];
            self.storage[i] = byte;
            i = i + 1;
        }
        proof {
            assert(self@ =~= written(old(self)@, input@));
        }
        count
    }

    /// The buffer device's read: returns up to `requested` bytes of the
    /// buffer starting at `offset`. An offset at or past the capacity reads
    /// zero bytes — end of resource, not an error and not an underflow. A
    /// request for zero bytes returns at once, before the buffer's lock
    /// would even be taken.
    pub fn read(&self, offset: u64, requested: usize) -> (out: Vec<u8>)
        requires
            self.wf(),
        ensures
            out@ == read_bytes(self@, offset as nat, requested as nat),
            out@.len() == read_count(offset as nat, requested as nat),
    {
        let mut out: Vec<u8> = Vec::new();
        if requested == 0 {
            proof {
                assert(out@ =~= read_bytes(self@, offset as nat, requested as nat));
            }
            return out;
        }
        if offset > CAPACITY as u64 {
            proof {
                assert(out@ =~= read_bytes(self@, offset as nat, requested as nat));
            }
            return out;
        }
        let off = offset as usize;
        let count = if requested < CAPACITY - off {
            requested
        } else {
            CAPACITY - off
        };
        let mut i: usize = 0;
        while i < count
            invariant
                self.wf(),
                off as nat + count as nat <= CAPACITY as nat,
                count as nat == read_count(off as nat, requested as nat),
                i <= count,
                out@.len() == i as nat,
                forall|j: int| 0 <= j < i as int ==> out@[j] == self@[off as int + j],
            decreases count - i,
        {
            let byte = self.storage[off + i];
            out.push(byte);
            i = i + 1;
        }
        proof {
            assert(out@ =~= read_bytes(self@, offset as nat, requested as nat));
        }
        out
    }
}

/// Round trip at offset zero: writing a sequence that fits the buffer and
/// reading it back, from offset zero with its own length requested, yields
/// exactly that sequence.
pub proof fn lemma_write_read_round_trip(storage: Seq<u8>, input: Seq<u8>)
    requires
        storage.len() == CAPACITY as nat,
        input.len() <= CAPACITY as nat,
    ensures
        read_bytes(written(storage, input), 0, input.len()) == input,
{
    assert(read_bytes(written(storage, input), 0, input.len()) =~= input);
}

/// Truncation: writing more bytes than the buffer holds takes exactly the
/// first `CAPACITY` of them, and reports `CAPACITY` bytes written.
pub proof fn lemma_write_truncates(storage: Seq<u8>, input: Seq<u8>)
    requires
        storage.len() == CAPACITY as nat,
        input.len() > CAPACITY as nat,
    ensures
        write_count(input.len()) == CAPACITY as nat,
        written(storage, input) == input.take(CAPACITY as int),
{
    assert(written(storage, input) =~= input.take(CAPACITY as int));
}

/// Offset-bounded reads: for any offset up to the capacity, a read returns
/// `min(requested, CAPACITY - offset)` bytes, and they are exactly that
/// slice of the buffer's current contents.
pub proof fn lemma_read_matches_contents(storage: Seq<u8>, offset: nat, requested: nat)
    requires
        storage.len() == CAPACITY as nat,
        offset <= CAPACITY as nat,
    ensures
        read_count(offset, requested) == if requested <= CAPACITY as nat - offset {
            requested
        } else {
            (CAPACITY as nat - offset) as nat
        },
        read_bytes(storage, offset, requested) == storage.subrange(
            offset as int,
            offset as int + read_count(offset, requested) as int,
        ),
{
}

/// A read that requests zero bytes returns zero bytes and touches nothing:
/// the empty answer is fixed before any lock would be taken.
pub proof fn lemma_zero_read(storage: Seq<u8>, offset: nat)
    requires
        storage.len() == CAPACITY as nat,
    ensures
        read_count(offset, 0) == 0,
        read_bytes(storage, offset, 0) == Seq::<u8>::empty(),
{
    assert(read_bytes(storage, offset, 0) =~= Seq::<u8>::empty());
}

/// End of resource: a read at offset `CAPACITY` returns zero bytes, and so
/// does one at any greater offset — no underflow, no failure.
pub proof fn lemma_read_past_end(storage: Seq<u8>, offset: nat, requested: nat)
    requires
        storage.len() == CAPACITY as nat,
        offset >= CAPACITY as nat,
    ensures
        read_count(offset, requested) == 0,
        read_bytes(storage, offset, requested) == Seq::<u8>::empty(),
{
    assert(read_bytes(storage, offset, requested) =~= Seq::<u8>::empty());
}

/// A full buffer's worth of one fill byte, what a full-capacity writer
/// carries.
pub open spec fn uniform_fill(fill: u8) -> Seq<u8> {
    Seq::new(CAPACITY as nat, |i: int| fill)
}

/// No torn writes: a full-capacity write of one fill byte determines every
/// byte of the buffer, whatever it held before. Writes run one after the
/// other under the lock, so after any number of such writes the whole
/// buffer carries the fill byte of the last one alone — never a mix.
pub proof fn lemma_no_torn_write(storage: Seq<u8>, fill: u8)
    requires
        storage.len() == CAPACITY as nat,
    ensures
        written(storage, uniform_fill(fill)) == uniform_fill(fill),
        forall|i: int|
            0 <= i < CAPACITY as int ==> #[trigger] written(storage, uniform_fill(fill))[i]
                == fill,
{
    assert(written(storage, uniform_fill(fill)) =~= uniform_fill(fill));
}

} // verus!
