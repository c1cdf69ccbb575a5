use vstd::prelude::*;

verus! {

/// The host's bounds-checked view of a guest instance's linear memory:
/// a flat byte-addressable region of fixed size.
pub struct GuestMemory {
    pub bytes: Vec<u8>,
}

impl View for GuestMemory {
    type V = Seq<u8>;

    open spec fn view(&self) -> Seq<u8> {
        self.bytes@
    }
}

impl GuestMemory {
    /// A zero-filled region of `size` bytes.
    pub fn new(size: usize) -> (r: GuestMemory)
        ensures
            r@ == Seq::<u8>::new(size as nat, |i: int| 0u8),
    {
        let mut bytes: Vec<u8> = Vec::new();
        let mut i: usize = 0;
        while i < size
            invariant
                i <= size,
                bytes@ == Seq::<u8>::new(i as nat, |j: int| 0u8),
            decreases size - i,
        {
            bytes.push(0u8);
            proof {
                assert(bytes@ =~= Seq::<u8>::new((i + 1) as nat, |j: int| 0u8));
            }
            i = i + 1;
        }
        GuestMemory { bytes }
    }

    /// A region whose contents are exactly `bytes`.
    pub fn from_vec(bytes: Vec<u8>) -> (r: GuestMemory)
        ensures
            r@ == bytes@,
    {
        GuestMemory { bytes }
    }

    pub fn size(&self) -> (r: usize)
        ensures
            r == self@.len(),
    {
        self.bytes.len()
    }

    /// The byte at address `addr`.
    pub fn read_byte(&self, addr: usize) -> (r: u8)
        requires
            addr < self@.len(),
        ensures
            r == self@[addr as int],
    {
        self.bytes[addr]
    }

    /// Stores `value` at address `addr`.
    pub fn write_byte(&mut self, addr: usize, value: u8)
        requires
            addr < old(self)@.len(),
        ensures
            final(self)@ == old(self)@.update(addr as int, value),
    {
        self.bytes.set(addr, value);
    }
}

} // verus!
