//! Memory: RAM, DMA channels, cartridge header and save RAM.
pub mod dma;
pub mod rom;

use vstd::prelude::*;

verus! {

/// A memory-mapped device: read and write a datum at an address.
pub trait MemDevice<A, D> {
    fn read(&self, addr: A) -> D;

    fn write(&mut self, addr: A, data: D);
}

/// Random access memory.
pub struct RAM {
    data: Vec<u8>,
}

impl View for RAM {
    type V = Seq<u8>;

    closed spec fn view(&self) -> Seq<u8> {
        self.data@
    }
}

impl RAM {
    pub fn new(size: usize) -> (r: Self)
        ensures
            r@ == Seq::new(size as nat, |i: int| 0u8),
    {
        let r = RAM { data: vec![0; size] };
        assert(r@ =~= Seq::new(size as nat, |i: int| 0u8));
        r
    }

    /// A RAM holding the given bytes.
    pub fn from_data(data: Vec<u8>) -> (r: Self)
        ensures
            r@ == data@,
    {
        RAM { data: data }
    }

    pub fn len(&self) -> (r: usize)
        ensures
            r == self@.len(),
    {
        self.data.len()
    }

    pub fn read(&self, addr: u32) -> (r: u8)
        requires
            addr < self@.len(),
        ensures
            r == self@[addr as int],
    {
        self.data[addr as usize]
    }

    pub fn write(&mut self, addr: u32, data: u8)
        requires
            addr < old(self)@.len(),
        ensures
            final(self)@ == old(self)@.update(addr as int, data),
    {
        self.data.set(addr as usize, data);
    }

    /// The bytes held.
    pub fn as_slice(&self) -> (r: &[u8])
        ensures
            r@ == self@,
    {
        self.data.as_slice()
    }

    /// A reader that starts at `start` and wraps around at the end.
    pub fn iter<'a>(&'a self, start: usize) -> (r: RAMIter<'a>)
        ensures
            r.ram() == self,
            r.read_head() == start,
    {
        RAMIter { ram: self, read_head: start }
    }
}

/// Reads RAM byte by byte, wrapping around at the end.
/// Use RAM::iter to construct this.
pub struct RAMIter<'a> {
    ram: &'a RAM,
    read_head: usize,
}

impl<'a> RAMIter<'a> {
    pub closed spec fn ram(&self) -> &'a RAM {
        self.ram
    }

    pub closed spec fn read_head(&self) -> usize {
        self.read_head
    }

    /// The byte at the read head; the head moves on, wrapping to the start.
    pub fn next(&mut self) -> (r: Option<u8>)
        requires
            old(self).read_head() < old(self).ram()@.len(),
        ensures
            r == Some(old(self).ram()@[old(self).read_head() as int]),
            final(self).ram() == old(self).ram(),
            final(self).read_head() == (old(self).read_head() + 1) % (old(self).ram()@.len() as int),
    {
        let len = self.ram.data.len();
        let data = self.ram.data[self.read_head];
        self.read_head = (self.read_head + 1) % len;
        Some(data)
    }
}

} // verus!
