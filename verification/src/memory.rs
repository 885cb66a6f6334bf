//! Physical memory as a bounds-checked window.

use vstd::prelude::*;

verus! {

/// The error of a write that does not lie inside the region.
#[derive(Debug, Clone, Copy, PartialEq, Eq, Structural)]
pub struct OutOfBounds;

/// `mem` with `data` laid over it from index `off` on.
pub open spec fn overwrite(mem: Seq<u8>, off: int, data: Seq<u8>) -> Seq<u8> {
    Seq::new(
        mem.len(),
        |i: int|
            if off <= i < off + data.len() {
                data[i - off]
            } else {
                mem[i]
            },
    )
}

/// A window of physical memory: `len()` bytes that start at address `base()`.
/// The window ends inside the address space.
pub struct PhysicalRegion {
    base: u64,
    bytes: Vec<u8>,
}

impl PhysicalRegion {
    #[verifier::type_invariant]
    spec fn ends_in_address_space(self) -> bool {
        self.base + self.bytes@.len() <= u64::MAX
    }

    /// The address of the first byte.
    pub closed spec fn base_addr(&self) -> int {
        self.base as int
    }

    /// The bytes held, the one at `base_addr()` first.
    pub closed spec fn contents(&self) -> Seq<u8> {
        self.bytes@
    }

    /// Whether `len` bytes from address `addr` on lie inside the region.
    pub open spec fn covers(&self, addr: int, len: int) -> bool {
        &&& self.base_addr() <= addr
        &&& 0 <= len
        &&& addr + len <= self.base_addr() + self.contents().len()
    }

    /// A region of `bytes.len()` bytes at `base`, holding `bytes`. There is
    /// no region that would end beyond the last address.
    pub fn new(base: u64, bytes: Vec<u8>) -> (region: Option<Self>)
        ensures
            region is Some <==> base + bytes@.len() <= u64::MAX,
            region is Some ==> region->0.base_addr() == base && region->0.contents() == bytes@,
    {
        if bytes.len() as u64 > u64::MAX - base {
            return None;
        }
        Some(PhysicalRegion { base, bytes })
    }


    /// The address of the first byte.
    pub fn base(&self) -> (b: u64)
        ensures
            b == self.base_addr(),
    {
        self.base
    }

    /// The number of bytes in the region.
    pub fn len(&self) -> (n: usize)
        ensures
            n == self.contents().len(),
    {
        self.bytes.len()
    }

    /// The bytes of the region.
    pub fn as_slice(&self) -> (s: &[u8])
        ensures
            s@ == self.contents(),
    {
        self.bytes.as_slice()
    }

    /// Tells whether `len` bytes from `addr` on lie inside the region.
    pub fn contains(&self, addr: u64, len: u64) -> (inside: bool)
        ensures
            inside == self.covers(addr as int, len as int),
            inside ==> addr + len <= u64::MAX,
    {
        proof {
            use_type_invariant(self);
        }
        if addr < self.base {
            return false;
        }
        let off: u64 = addr - self.base;
        let size: u64 = self.bytes.len() as u64;
        off <= size && len <= size - off
    }

    /// Copies `data` to address `addr`. A write that does not lie inside the
    /// region is refused and leaves the region as it was.
    pub fn write_slice(&mut self, addr: u64, data: &[u8]) -> (done: Result<(), OutOfBounds>)
        ensures
            final(self).base_addr() == old(self).base_addr(),
            done is Ok <==> old(self).covers(addr as int, data@.len() as int),
            done is Ok ==> addr + data@.len() <= u64::MAX,
            done is Ok ==> final(self).contents() == overwrite(
                old(self).contents(),
                addr - old(self).base_addr(),
                data@,
            ),
            done is Err ==> final(self).contents() == old(self).contents(),
    {
        proof {
            use_type_invariant(&*self);
        }
        if !self.contains(addr, data.len() as u64) {
            return Err(OutOfBounds);
        }
        let size: usize = self.bytes.len();
        let gap: u64 = addr - self.base;
        assert(gap + data@.len() <= size);
        let off: usize = gap as usize;
        let mut i: usize = 0;
        while i < data.len()
            invariant
                self.base == old(self).base,
                self.bytes@.len() == old(self).bytes@.len(),
                off + data@.len() <= self.bytes@.len(),
                self.bytes@.len() == size,
                self.base + size <= u64::MAX,
                0 <= i <= data@.len(),
                self.bytes@ == overwrite(old(self).bytes@, off as int, data@.take(i as int)),
            decreases data@.len() - i,
        {
            self.bytes[off + i] = data[i];
            i += 1;
            assert(self.bytes@ =~= overwrite(old(self).bytes@, off as int, data@.take(i as int)));
        }
        assert(data@.take(i as int) =~= data@);
        Ok(())
    }
}

} // verus!
