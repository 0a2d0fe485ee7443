//! The GSU's ROM buffer: one byte being loaded from ROM.
use vstd::prelude::*;
use super::ROM_WAIT_CYCLES;

verus! {

pub struct ROMCacheView {
    pub bank: u8,
    pub addr: u16,
    pub data: u8,
    pub cycles: usize,
}

pub struct ROMCache {
    bank: u8,
    addr: u16,
    data: u8,
    cycles: usize,
}

impl View for ROMCache {
    type V = ROMCacheView;

    closed spec fn view(&self) -> ROMCacheView {
        ROMCacheView { bank: self.bank, addr: self.addr, data: self.data, cycles: self.cycles }
    }
}

impl ROMCache {
    pub fn new() -> (r: Self)
        ensures
            r@ == (ROMCacheView { bank: 0, addr: 0, data: 0, cycles: 0 }),
    {
        Self { bank: 0, addr: 0, data: 0, cycles: 0 }
    }

    /// Count down the wait. Returns true when the data is ready to be loaded.
    pub fn clock(&mut self) -> (r: bool)
        ensures
            old(self)@.cycles > 0 ==> final(self)@ == (ROMCacheView { cycles: (old(self)@.cycles - 1) as usize, ..old(self)@ })
                && r == (old(self)@.cycles == 1),
            old(self)@.cycles == 0 ==> final(self)@ == old(self)@ && !r,
    {
        if self.cycles > 0 {
            self.cycles = self.cycles - 1;
            self.cycles == 0
        } else {
            false
        }
    }

    /// Begin loading the byte at `bank`:`addr`.
    pub fn start_loading(&mut self, bank: u8, addr: u16)
        ensures
            final(self)@ == (ROMCacheView { bank: bank, addr: addr, cycles: (ROM_WAIT_CYCLES - 1) as usize, ..old(self)@ }),
    {
        self.bank = bank;
        self.addr = addr;
        self.cycles = ROM_WAIT_CYCLES - 1;
    }

    /// Called after clock returns true.
    pub fn load_data(&mut self, data: u8)
        ensures
            final(self)@ == (ROMCacheView { data: data, ..old(self)@ }),
    {
        self.data = data;
    }

    /// The byte at `bank`:`addr` if it has been loaded; otherwise start
    /// loading it (if no load is in progress) and return None.
    pub fn try_read(&mut self, bank: u8, addr: u16) -> (r: Option<u8>)
        ensures
            old(self)@.cycles == 0 && old(self)@.bank == bank && old(self)@.addr == addr ==> r == Some(old(self)@.data)
                && final(self)@ == old(self)@,
            old(self)@.cycles == 0 && !(old(self)@.bank == bank && old(self)@.addr == addr) ==> r is None
                && final(self)@ == (ROMCacheView { bank: bank, addr: addr, cycles: (ROM_WAIT_CYCLES - 1) as usize, ..old(self)@ }),
            old(self)@.cycles != 0 ==> r is None && final(self)@ == old(self)@,
    {
        if self.cycles == 0 {
            if self.bank == bank && self.addr == addr {
                Some(self.data)
            } else {
                self.start_loading(bank, addr);
                None
            }
        } else {
            None
        }
    }

    pub fn get_bank(&self) -> (r: u8)
        ensures
            r == self@.bank,
    {
        self.bank
    }

    pub fn get_addr(&self) -> (r: u16)
        ensures
            r == self@.addr,
    {
        self.addr
    }
}

} // verus!
