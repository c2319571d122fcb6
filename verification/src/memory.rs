use vstd::prelude::*;

verus! {

/// The contents of a freshly created 64 KiB store after the bytes of `rom`
/// have been written one by one, starting at address 0.  Addresses are
/// truncated to 16 bits, as the writing loop does, so images longer than
/// 64 KiB wrap around and overwrite earlier cells.
pub open spec fn rom_image(rom: Seq<u8>) -> Seq<u8>
    decreases rom.len(),
{
    if rom.len() == 0 {
        Seq::new(0x10000, |i: int| 0u8)
    } else {
        rom_image(rom.drop_last()).update(((rom.len() - 1) as u16) as int, rom.last())
    }
}

/// A byte-addressable store of 65,536 cells, the CPU's single collaborator.
/// `contents` is the mathematical view of the store and `inv` the invariant
/// that implementations establish on construction and preserve on writes;
/// `lemma_contents_len` obliges every implementation to hold exactly 64 KiB.
pub trait Memory: Sized {
    spec fn inv(&self) -> bool;

    spec fn contents(&self) -> Seq<u8>;

    proof fn lemma_contents_len(&self)
        requires
            self.inv(),
        ensures
            self.contents().len() == 0x10000,
    ;

    fn read_byte(&self, addr: u16) -> (b: u8)
        requires
            self.inv(),
        ensures
            b == self.contents()[addr as int],
    ;

    fn write_byte(&mut self, addr: u16, byte: u8)
        requires
            old(self).inv(),
        ensures
            final(self).inv(),
            final(self).contents() == old(self).contents().update(addr as int, byte),
    ;
}

/// A flat 64 KiB array of bytes, the reference backing store.
pub struct SimpleMemory {
    inner: Vec<u8>,
}

impl SimpleMemory {
    fn new() -> (r: SimpleMemory)
        ensures
            r.inv(),
            r.contents() == Seq::new(0x10000, |i: int| 0u8),
    {
        let mut inner: Vec<u8> = Vec::new();
        let mut i: usize = 0;
        while i < 0x10000
            invariant
                i <= 0x10000,
                inner@.len() == i,
                inner@ == Seq::new(i as nat, |j: int| 0u8),
            decreases 0x10000 - i,
        {
            inner.push(0);
            i = i + 1;
            proof {
                assert(inner@ =~= Seq::new(i as nat, |j: int| 0u8));
            }
        }
        SimpleMemory { inner }
    }

    /// Build a store holding the bytes of `rom` from address 0 up, and zero
    /// everywhere else.
    pub fn from_rom(rom: &[u8]) -> (r: SimpleMemory)
        ensures
            r.inv(),
            r.contents() == rom_image(rom@),
    {
        let mut mem = SimpleMemory::new();
        let mut idx: usize = 0;
        proof {
            assert(rom_image(rom@.take(0)) =~= Seq::new(0x10000, |i: int| 0u8));
        }
        while idx < rom.len()
            invariant
                idx <= rom@.len(),
                mem.inv(),
                mem.contents() == rom_image(rom@.take(idx as int)),
            decreases rom@.len() - idx,
        {
            let b = rom[idx];
            mem.write_byte(idx as u16, b);
            idx = idx + 1;
            proof {
                assert(rom@.take(idx as int).drop_last() =~= rom@.take(idx as int - 1));
            }
        }
        proof {
            assert(rom@.take(rom@.len() as int) =~= rom@);
        }
        mem
    }
}

impl Memory for SimpleMemory {
    closed spec fn inv(&self) -> bool {
        self.inner@.len() == 0x10000
    }

    closed spec fn contents(&self) -> Seq<u8> {
        self.inner@
    }

    proof fn lemma_contents_len(&self) {
    }

    fn read_byte(&self, addr: u16) -> (b: u8) {
        self.inner[addr as usize]
    }

    fn write_byte(&mut self, addr: u16, byte: u8) {
        self.inner.set(addr as usize, byte);
    }
}

} // verus!
