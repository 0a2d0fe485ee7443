//! Save RAM. This may or may not exist, depending on the cartridge.
//!
//! The save file itself lives outside the library: a cartridge is created
//! from the bytes read from the file, and `flush` hands back the bytes to
//! write when the RAM has changed since the last flush.
use vstd::prelude::*;
use crate::mem::RAM;

verus! {

/// The slot that `addr` selects in a save RAM of `len` bytes: the address
/// masked by `len - 1`.
pub open spec fn sram_slot(len: nat, addr: u32) -> int {
    (addr & ((len - 1) as u32)) as int
}

/// The byte read at `addr` from save RAM holding `data`; an empty save RAM
/// reads as zero.
pub open spec fn sram_read_spec(data: Seq<u8>, addr: u32) -> u8 {
    if data.len() == 0 {
        0
    } else {
        data[sram_slot(data.len(), addr)]
    }
}

/// The contents after writing `byte` at `addr`.
pub open spec fn sram_write_spec(data: Seq<u8>, addr: u32, byte: u8) -> Seq<u8> {
    if data.len() == 0 {
        data
    } else {
        data.update(sram_slot(data.len(), addr), byte)
    }
}

proof fn lemma_mask_in_range(addr: u32, mask: u32)
    ensures
        addr & mask <= mask,
{
    assert(addr & mask <= mask) by (bit_vector);
}

/// Save RAM.
pub trait SRAM {
    /// The internal invariant of the save RAM.
    spec fn sram_wf(&self) -> bool;

    fn read(&self, addr: u32) -> u8
        requires
            self.sram_wf(),
    ;

    fn write(&mut self, addr: u32, data: u8)
        requires
            old(self).sram_wf(),
        ensures
            final(self).sram_wf(),
    ;

    /// The bytes to store in the save file, if they changed since the last
    /// flush.
    fn flush(&mut self) -> (r: Option<Vec<u8>>)
        requires
            old(self).sram_wf(),
        ensures
            final(self).sram_wf(),
    ;
}

/// Used in cartridges that have SRAM.
pub struct SizedSRAM {
    ram: RAM,
    /// Mask applied to addresses when reading/writing.
    mask: u32,
    dirty: bool,
}

impl SizedSRAM {
    pub closed spec fn contents(&self) -> Seq<u8> {
        self.ram@
    }

    pub closed spec fn is_dirty(&self) -> bool {
        self.dirty
    }

    /// Save RAM of `size` bytes, filled from the save file's bytes when
    /// there is one. A save file shorter than the RAM is an error.
    pub fn new(size: usize, save: Option<Vec<u8>>) -> (r: Result<Self, String>)
        requires
            1 <= size,
            size - 1 <= u32::MAX,
        ensures
            match save {
                Some(d) => if d@.len() >= size {
                    r matches Ok(s) && s.contents() == d@.subrange(0, size as int) && !s.is_dirty()
                        && s.sram_wf()
                } else {
                    r matches Err(e) && e@ == "failed to fill whole buffer"@
                },
                None => r matches Ok(s) && s.contents() == Seq::new(size as nat, |i: int| 0u8)
                    && !s.is_dirty() && s.sram_wf(),
            },
    {
        let ram = match save {
            Some(d) => {
                if d.len() < size {
                    return Err("failed to fill whole buffer".to_owned());
                }
                let mut bytes: Vec<u8> = Vec::new();
                let mut i: usize = 0;
                while i < size
                    invariant
                        i <= size <= d@.len(),
                        bytes@ == d@.subrange(0, i as int),
                    decreases size - i,
                {
                    bytes.push(d[i]);
                    i = i + 1;
                }
                RAM::from_data(bytes)
            },
            None => RAM::new(size),
        };
        Ok(SizedSRAM { ram: ram, mask: (size - 1) as u32, dirty: false })
    }
}

impl SRAM for SizedSRAM {
    closed spec fn sram_wf(&self) -> bool {
        self.ram@.len() == self.mask + 1
    }

    fn read(&self, addr: u32) -> (r: u8)
        ensures
            self.contents().len() > 0,
            r == sram_read_spec(self.contents(), addr),
    {
        proof {
            lemma_mask_in_range(addr, self.mask);
        }
        self.ram.read(addr & self.mask)
    }

    fn write(&mut self, addr: u32, data: u8)
        ensures
            final(self).contents() == sram_write_spec(old(self).contents(), addr, data),
            final(self).contents().len() == old(self).contents().len(),
            final(self).is_dirty(),
    {
        proof {
            lemma_mask_in_range(addr, self.mask);
        }
        let slot = addr & self.mask;
        self.ram.write(slot, data);
        self.dirty = true;
    }

    fn flush(&mut self) -> (r: Option<Vec<u8>>)
        ensures
            final(self).contents() == old(self).contents(),
            !final(self).is_dirty(),
            old(self).is_dirty() ==> (r matches Some(d) && d@ == old(self).contents()),
            !old(self).is_dirty() ==> r is None,
    {
        if self.dirty {
            let mut out: Vec<u8> = Vec::new();
            let data = self.ram.as_slice();
            let mut i: usize = 0;
            while i < data.len()
                invariant
                    i <= data@.len(),
                    out@ == data@.subrange(0, i as int),
                decreases data@.len() - i,
            {
                out.push(data[i]);
                i = i + 1;
            }
            assert(out@ =~= data@);
            self.dirty = false;
            Some(out)
        } else {
            None
        }
    }
}

/// Used in cartridges that don't have SRAM.
pub struct EmptySRAM {}

impl EmptySRAM {
    pub fn new() -> (r: Self) {
        Self {}
    }
}

impl SRAM for EmptySRAM {
    closed spec fn sram_wf(&self) -> bool {
        true
    }

    fn read(&self, addr: u32) -> (r: u8)
        ensures
            r == 0,
    {
        0
    }

    fn write(&mut self, addr: u32, data: u8) {
    }

    fn flush(&mut self) -> (r: Option<Vec<u8>>)
        ensures
            r is None,
    {
        None
    }
}

/// The save RAM of a cartridge: none, or one of a fixed size.
pub enum SaveRAM {
    Empty(EmptySRAM),
    Sized(SizedSRAM),
}

impl SaveRAM {
    /// The bytes held; empty when the cartridge has no SRAM.
    pub closed spec fn contents(&self) -> Seq<u8> {
        match self {
            SaveRAM::Empty(_) => Seq::empty(),
            SaveRAM::Sized(s) => s.contents(),
        }
    }

    /// Whether the contents changed since the last flush.
    pub closed spec fn is_dirty(&self) -> bool {
        match self {
            SaveRAM::Empty(_) => false,
            SaveRAM::Sized(s) => s.is_dirty(),
        }
    }

    /// The current contents, to create a save file from.
    pub fn save_data(&self) -> (r: Vec<u8>)
        ensures
            r@ == self.contents(),
    {
        match self {
            SaveRAM::Empty(_) => Vec::new(),
            SaveRAM::Sized(s) => {
                let data = s.ram.as_slice();
                let mut out: Vec<u8> = Vec::new();
                let mut i: usize = 0;
                while i < data.len()
                    invariant
                        i <= data@.len(),
                        out@ == data@.subrange(0, i as int),
                    decreases data@.len() - i,
                {
                    out.push(data[i]);
                    i = i + 1;
                }
                assert(out@ =~= data@);
                out
            },
        }
    }
}

/// Save RAM is addressed by 32-bit addresses: it holds at most 4GB.
pub proof fn lemma_save_ram_len(r: &SaveRAM)
    requires
        r.sram_wf(),
    ensures
        r.contents().len() <= u32::MAX + 1,
{
}

impl SRAM for SaveRAM {
    closed spec fn sram_wf(&self) -> bool {
        match self {
            SaveRAM::Empty(e) => e.sram_wf(),
            SaveRAM::Sized(s) => s.sram_wf(),
        }
    }

    fn read(&self, addr: u32) -> (r: u8)
        ensures
            r == sram_read_spec(self.contents(), addr),
    {
        match self {
            SaveRAM::Empty(e) => e.read(addr),
            SaveRAM::Sized(s) => s.read(addr),
        }
    }

    fn write(&mut self, addr: u32, data: u8)
        ensures
            final(self).contents() == sram_write_spec(old(self).contents(), addr, data),
            final(self).contents().len() == old(self).contents().len(),
            final(self).is_dirty() == (old(self).is_dirty() || old(self).contents().len() > 0),
    {
        match self {
            SaveRAM::Empty(e) => e.write(addr, data),
            SaveRAM::Sized(s) => s.write(addr, data),
        }
    }

    fn flush(&mut self) -> (r: Option<Vec<u8>>)
        ensures
            final(self).contents() == old(self).contents(),
            !final(self).is_dirty(),
            old(self).is_dirty() ==> (r matches Some(d) && d@ == old(self).contents()),
            !old(self).is_dirty() ==> r is None,
    {
        match self {
            SaveRAM::Empty(e) => e.flush(),
            SaveRAM::Sized(s) => s.flush(),
        }
    }
}

/// The save RAM for a cartridge with `size` bytes of it, filled from the
/// save file's bytes when there is a save file.
pub fn create_sram(size: usize, save: Option<Vec<u8>>) -> (r: Result<SaveRAM, String>)
    requires
        size == 0 || size - 1 <= u32::MAX,
    ensures
        size == 0 ==> (r matches Ok(s) && s.contents() == Seq::<u8>::empty() && !s.is_dirty()
            && s.sram_wf()),
        size > 0 ==> match save {
            Some(d) => if d@.len() >= size {
                r matches Ok(s) && s.contents() == d@.subrange(0, size as int) && !s.is_dirty()
                    && s.sram_wf()
            } else {
                r matches Err(e) && e@ == "failed to fill whole buffer"@
            },
            None => r matches Ok(s) && s.contents() == Seq::new(size as nat, |i: int| 0u8)
                && !s.is_dirty() && s.sram_wf(),
        },
{
    if size == 0 {
        Ok(SaveRAM::Empty(EmptySRAM::new()))
    } else {
        match SizedSRAM::new(size, save) {
            Ok(s) => Ok(SaveRAM::Sized(s)),
            Err(e) => Err(e),
        }
    }
}

} // verus!
