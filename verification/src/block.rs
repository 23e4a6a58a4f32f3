//! Blocks and the header in front of each.
//!
//! A block is what one request takes from a heap: a header of [`HEADER_SIZE`] bytes that
//! records the size of the payload, then the payload itself.  Callers see the address of the
//! payload only; the header is what lets a block be given back with the layout it was taken
//! with.
use crate::heap::{layout_is_valid, span, taken, word};
use vstd::layout::valid_layout;
use vstd::prelude::*;

verus! {

/// The alignment of every block: WAMR requires 8-byte alignment.
pub const ALIGNMENT: usize = 8;

/// The size of the header: a `usize`, padded to a multiple of [`ALIGNMENT`].
pub const HEADER_SIZE: usize = 8;

/// The address that stands for "no memory".
pub const NULL: usize = 0;

/// A payload of `size` bytes and its header make up a layout.
pub open spec fn storable(size: int) -> bool {
    &&& HEADER_SIZE + size <= usize::MAX
    &&& valid_layout((HEADER_SIZE + size) as usize, ALIGNMENT)
}

/// The order in which a machine keeps the bytes of a number.
#[derive(Clone, Copy, Debug, PartialEq, Eq, Structural)]
pub enum ByteOrder {
    /// The least significant byte comes first.
    Little,
    /// The most significant byte comes first.
    Big,
}

impl ByteOrder {
    /// Where the byte of significance `i` stands in a machine word.
    pub open spec fn spec_position(self, i: int) -> int {
        match self {
            ByteOrder::Little => i,
            ByteOrder::Big => word() - 1 - i,
        }
    }

    /// Where the byte of significance `i` stands in a machine word.
    pub fn position(self, i: usize) -> (position: usize)
        requires
            i < word(),
        ensures
            position == self.spec_position(i as int),
    {
        match self {
            ByteOrder::Little => i,
            ByteOrder::Big => (usize::BITS / 8) as usize - 1 - i,
        }
    }

    /// The number that a machine with this byte order keeps in the machine word at the start of
    /// `bytes`.
    pub open spec fn value(self, bytes: Seq<u8>) -> int {
        let low = bytes[self.spec_position(0)] + 0x100 * bytes[self.spec_position(1)] + 0x1_0000
            * bytes[self.spec_position(2)] + 0x100_0000 * bytes[self.spec_position(3)];
        if word() == 4 {
            low
        } else {
            low + 0x1_0000_0000 * (bytes[self.spec_position(4)] + 0x100
                * bytes[self.spec_position(5)] + 0x1_0000 * bytes[self.spec_position(6)]
                + 0x100_0000 * bytes[self.spec_position(7)])
        }
    }
}

/// What precedes the payload of a block.  In memory it is the size as the machine keeps it, then
/// padding up to [`HEADER_SIZE`] bytes.
#[derive(Clone, Copy, Debug, PartialEq, Eq, Structural)]
pub struct AllocationHeader {
    /// The size of the payload.
    pub size: usize,
}

impl AllocationHeader {
    /// The header that the first bytes of a block hold on a machine with the byte order `order`.
    pub open spec fn spec_read(order: ByteOrder, bytes: Seq<u8>) -> AllocationHeader {
        AllocationHeader { size: order.value(bytes) as usize }
    }

    /// Writes the header to the start of `bytes`, as a machine with the byte order `order` keeps
    /// it, and leaves padding and payload alone.
    pub fn write(&self, order: ByteOrder, bytes: &mut [u8])
        requires
            old(bytes)@.len() >= HEADER_SIZE,
        ensures
            final(bytes)@.len() == old(bytes)@.len(),
            order.value(final(bytes)@) == self.size,
            final(bytes)@.skip(word()) == old(bytes)@.skip(word()),
    {
        let v0: u64 = self.size as u64;
        let v1: u64 = v0 / 0x100;
        let v2: u64 = v1 / 0x100;
        let v3: u64 = v2 / 0x100;
        bytes[order.position(0)] = (v0 % 0x100) as u8;
        bytes[order.position(1)] = (v1 % 0x100) as u8;
        bytes[order.position(2)] = (v2 % 0x100) as u8;
        bytes[order.position(3)] = (v3 % 0x100) as u8;
        if usize::BITS == 64 {
            let v4: u64 = v3 / 0x100;
            let v5: u64 = v4 / 0x100;
            let v6: u64 = v5 / 0x100;
            let v7: u64 = v6 / 0x100;
            bytes[order.position(4)] = (v4 % 0x100) as u8;
            bytes[order.position(5)] = (v5 % 0x100) as u8;
            bytes[order.position(6)] = (v6 % 0x100) as u8;
            bytes[order.position(7)] = v7 as u8;
        }
        assert(bytes@.skip(word()) =~= old(bytes)@.skip(word()));
    }

    /// Reads the header back from the first bytes of a block, on a machine with the byte order
    /// `order`.
    pub fn read(order: ByteOrder, bytes: &[u8]) -> (header: AllocationHeader)
        requires
            bytes@.len() >= HEADER_SIZE,
        ensures
            header == AllocationHeader::spec_read(order, bytes@),
            header.size == order.value(bytes@),
    {
        let low: u64 = bytes[order.position(0)] as u64 + 0x100 * bytes[order.position(1)] as u64
            + 0x1_0000 * bytes[order.position(2)] as u64 + 0x100_0000
            * bytes[order.position(3)] as u64;
        if usize::BITS == 64 {
            let high: u64 = bytes[order.position(4)] as u64 + 0x100
                * bytes[order.position(5)] as u64 + 0x1_0000 * bytes[order.position(6)] as u64
                + 0x100_0000 * bytes[order.position(7)] as u64;
            AllocationHeader { size: (low + 0x1_0000_0000 * high) as usize }
        } else {
            AllocationHeader { size: low as usize }
        }
    }
}

/// A block of a heap: its header is at `raw` and its payload has `size` bytes.
#[derive(Clone, Copy, Debug, PartialEq, Eq, Structural)]
pub struct Block {
    /// The address of the header.
    pub raw: usize,
    /// The size of the payload.
    pub size: usize,
}

impl Block {
    /// The header is not at the null address, the payload has an address, and header and payload
    /// make up a layout.
    pub open spec fn wf(self) -> bool {
        &&& self.raw != NULL
        &&& self.raw + HEADER_SIZE <= usize::MAX
        &&& storable(self.size as int)
    }

    /// The address of the payload.
    pub open spec fn spec_ptr(self) -> int {
        self.raw + HEADER_SIZE
    }

    /// The number of bytes of header and payload.
    pub open spec fn spec_total(self) -> int {
        HEADER_SIZE + self.size
    }

    /// The addresses that the block keeps from being free: header, payload and what the heap adds
    /// to round them up.
    pub open spec fn extent(self) -> Set<int> {
        span(self.raw as int, taken(self.spec_total()))
    }

    /// The address of the payload.
    pub fn ptr(&self) -> (ptr: usize)
        requires
            self.wf(),
        ensures
            ptr == self.spec_ptr(),
    {
        self.raw + HEADER_SIZE
    }

    /// The number of bytes of header and payload: the size that the block was taken with and is
    /// given back with.
    pub fn total(&self) -> (total: usize)
        requires
            self.wf(),
        ensures
            total == self.spec_total(),
    {
        HEADER_SIZE + self.size
    }

    /// Fills this block from the block that it replaces: writes its header and copies as much of
    /// the old payload as both payloads have room for.
    pub fn fill_from(
        &self,
        order: ByteOrder,
        bytes: &mut [u8],
        replaced: &Block,
        replaced_bytes: &[u8],
    )
        requires
            self.wf(),
            replaced.wf(),
            old(bytes)@.len() == self.spec_total(),
            replaced_bytes@.len() == replaced.spec_total(),
        ensures
            filled(order, old(bytes)@, final(bytes)@, self.size as int, replaced_bytes@),
    {
        let header = AllocationHeader { size: self.size };
        header.write(order, bytes);
        let ghost written = bytes@;
        assert forall|i: int| word() <= i < written.len() implies #[trigger] written[i] == old(
            bytes,
        )@[i] by {
            assert(written.skip(word())[i - word()] == old(bytes)@.skip(word())[i - word()]);
        }
        let copy_size: usize = if replaced.size < self.size {
            replaced.size
        } else {
            self.size
        };
        let end: usize = HEADER_SIZE + copy_size;
        let mut next: usize = HEADER_SIZE;
        while next < end
            invariant
                HEADER_SIZE <= next <= end,
                end <= bytes@.len(),
                end <= replaced_bytes@.len(),
                bytes@.len() == written.len(),
                forall|i: int|
                    0 <= i < written.len() ==> #[trigger] bytes@[i] == if HEADER_SIZE <= i < next {
                        replaced_bytes@[i]
                    } else {
                        written[i]
                    },
            decreases end - next,
        {
            bytes[next] = replaced_bytes[next];
            next = next + 1;
        }
    }
}

/// The bytes of a block, once it is filled from the block that it replaces: a header for a payload
/// of `size` bytes, then the old payload as far as it goes, then what was there before.  The
/// padding of the header is left alone.
pub open spec fn filled(
    order: ByteOrder,
    before: Seq<u8>,
    after: Seq<u8>,
    size: int,
    replaced: Seq<u8>,
) -> bool {
    &&& after.len() == before.len()
    &&& order.value(after) == size
    &&& forall|i: int|
        word() <= i < after.len() ==> #[trigger] after[i] == if HEADER_SIZE <= i
            < replaced.len() {
            replaced[i]
        } else {
            before[i]
        }
}

/// A payload of `size` bytes can be stored with its header: the two make up a layout.
pub fn is_storable(size: usize) -> (ok: bool)
    ensures
        ok == storable(size as int),
{
    match HEADER_SIZE.checked_add(size) {
        Some(total) => layout_is_valid(total, ALIGNMENT),
        None => false,
    }
}

/// The address of the header of the block whose payload is at `ptr`.
pub fn get_header(ptr: usize) -> (header: usize)
    requires
        ptr >= HEADER_SIZE,
    ensures
        header == ptr - HEADER_SIZE,
{
    ptr - HEADER_SIZE
}

} // verus!
