//! Joypad registers: four pads, read serially ($4016/$4017) or through the
//! automatic read registers ($4218-$421F).
use vstd::prelude::*;
use crate::bits::{lo16, hi16, lemma_u8_low_masks};

verus! {

/// Flags for buttons, in the order the pad shifts them out.
#[derive(Clone, Copy, PartialEq, Eq, Structural)]
pub struct Button {
    pub bits: u16,
}

impl Button {
    pub const B: u16 = 0x8000;
    pub const Y: u16 = 0x4000;
    pub const SELECT: u16 = 0x2000;
    pub const START: u16 = 0x1000;
    pub const UP: u16 = 0x0800;
    pub const DOWN: u16 = 0x0400;
    pub const LEFT: u16 = 0x0200;
    pub const RIGHT: u16 = 0x0100;
    pub const A: u16 = 0x0080;
    pub const X: u16 = 0x0040;
    pub const L: u16 = 0x0020;
    pub const R: u16 = 0x0010;
    /// All button bits.
    pub const ALL: u16 = 0xFFF0;
}

/// A single joypad.
#[derive(Clone, Copy)]
pub struct Joypad {
    /// Buttons pressed since the last latch.
    pub buttons: u16,
    /// Latched data, shifted out MSB first.
    pub register: u16,
}

impl Joypad {
    pub fn new() -> (r: Self)
        ensures
            r == (Joypad { buttons: 0, register: 0xFFFF }),
    {
        Joypad { buttons: 0, register: 0xFFFF }
    }

    /// Press buttons (they stay pressed until the next latch).
    pub fn set_buttons(&mut self, button: Button)
        ensures
            *final(self) == (Joypad { buttons: old(self).buttons | (button.bits & Button::ALL), ..*old(self) }),
    {
        self.buttons = self.buttons | (button.bits & Button::ALL);
    }

    /// Latch the pressed buttons into the shift register and release them.
    pub fn latch(&mut self)
        ensures
            *final(self) == (Joypad { buttons: 0, register: old(self).buttons }),
    {
        self.register = self.buttons;
        self.buttons = 0;
    }

    /// Shift a single bit out (serial read): the top bit; ones shift in.
    pub fn shift_bit(&mut self) -> (r: u8)
        ensures
            r == old(self).register / 0x8000,
            *final(self) == (Joypad { register: ((old(self).register * 2) % 0x10000 + 1) as u16, ..*old(self) }),
    {
        let bit_set = self.register >= 0x8000;
        self.register = (((self.register as u32) * 2) % 0x10000 + 1) as u16;
        if bit_set {
            1
        } else {
            0
        }
    }

    /// Read the whole register (automatic read), which then reads as all
    /// ones.
    pub fn read(&mut self) -> (r: (u8, u8))
        ensures
            r == ((old(self).register % 256) as u8, (old(self).register / 256) as u8),
            *final(self) == (Joypad { register: 0xFFFF, ..*old(self) }),
    {
        let (lo, hi) = (lo16(self.register), hi16(self.register));
        self.register = 0xFFFF;
        (lo, hi)
    }
}

pub struct JoypadMemView {
    pub joypads: Seq<Joypad>,
    pub joypad_regs: Seq<u8>,
    pub counter: bool,
    pub ready: bool,
}

/// The joypads.
pub struct JoypadMem {
    joypads: [Joypad; 4],  // "External" joypads.
    joypad_regs: [u8; 8],  // Regs 4218-421F
    counter: bool,  // Reg 4200 bit 0
    ready: bool,  // Reg 4212 bit 0
}

impl View for JoypadMem {
    type V = JoypadMemView;

    closed spec fn view(&self) -> JoypadMemView {
        JoypadMemView {
            joypads: self.joypads@,
            joypad_regs: self.joypad_regs@,
            counter: self.counter,
            ready: self.ready,
        }
    }
}

impl JoypadMemView {
    pub open spec fn wf(self) -> bool {
        self.joypads.len() == 4 && self.joypad_regs.len() == 8
    }
}

impl JoypadMem {
    pub fn new() -> (r: Self)
        ensures
            r@.wf(),
            forall|i: int| 0 <= i < 4 ==> #[trigger] r@.joypads[i] == (Joypad { buttons: 0, register: 0xFFFF }),
            forall|i: int| 0 <= i < 8 ==> #[trigger] r@.joypad_regs[i] == 0,
            !r@.counter,
            !r@.ready,
    {
        JoypadMem {
            joypads: [Joypad::new(), Joypad::new(), Joypad::new(), Joypad::new()],
            joypad_regs: [0; 8],
            counter: false,
            ready: false,
        }
    }

    /// Press buttons on pad `joypad` (from outside).
    pub fn set_buttons(&mut self, button: Button, joypad: usize)
        requires
            old(self)@.wf(),
            joypad < 4,
        ensures
            final(self)@.wf(),
            final(self)@ == (JoypadMemView {
                joypads: old(self)@.joypads.update(
                    joypad as int,
                    Joypad {
                        buttons: old(self)@.joypads[joypad as int].buttons | (button.bits & Button::ALL),
                        ..old(self)@.joypads[joypad as int]
                    },
                ),
                ..old(self)@
            }),
    {
        let mut j = self.joypads[joypad];
        j.set_buttons(button);
        self.joypads[joypad] = j;
    }

    /// Enable automatic reading (bit 0 of $4200).
    pub fn enable_counter(&mut self, val: u8)
        ensures
            final(self)@ == (JoypadMemView { counter: val % 2 == 1, ..old(self)@ }),
    {
        proof {
            lemma_u8_low_masks(val);
        }
        self.counter = val & 1 != 0;
    }

    /// Poll whether the automatic read is done: 0 once it is, 1 before.
    pub fn is_ready(&self) -> (r: u8)
        ensures
            r == if self@.ready { 0u8 } else { 1u8 },
    {
        if self.ready {
            0
        } else {
            1
        }
    }

    /// Called at V-blank: with automatic reading enabled, latch every pad
    /// and copy its data into the registers (pad i in registers 2i, 2i+1).
    pub fn prepare_read(&mut self)
        requires
            old(self)@.wf(),
        ensures
            final(self)@.wf(),
            !old(self)@.counter ==> final(self)@ == old(self)@,
            old(self)@.counter ==> {
                &&& final(self)@.ready
                &&& final(self)@.counter
                &&& forall|i: int|
                    0 <= i < 4 ==> #[trigger] final(self)@.joypads[i] == (Joypad { buttons: 0, register: 0xFFFF })
                &&& forall|i: int|
                    0 <= i < 8 ==> #[trigger] final(self)@.joypad_regs[i] == if i % 2 == 0 {
                        (old(self)@.joypads[i / 2].buttons % 256) as u8
                    } else {
                        (old(self)@.joypads[i / 2].buttons / 256) as u8
                    }
            },
    {
        if self.counter {
            self.ready = false;
            let ghost old_pads = self.joypads@;
            let mut i: usize = 0;
            while i < 4
                invariant
                    0 <= i <= 4,
                    self.joypads@.len() == 4,
                    self.joypad_regs@.len() == 8,
                    self.counter,
                    old_pads.len() == 4,
                    forall|j: int| 0 <= j < i ==> #[trigger] self.joypads@[j] == (Joypad { buttons: 0, register: 0xFFFF }),
                    forall|j: int| i <= j < 4 ==> #[trigger] self.joypads@[j] == old_pads[j],
                    forall|j: int|
                        0 <= j < 2 * i ==> #[trigger] self.joypad_regs@[j] == if j % 2 == 0 {
                            (old_pads[j / 2].buttons % 256) as u8
                        } else {
                            (old_pads[j / 2].buttons / 256) as u8
                        },
                decreases 4 - i,
            {
                let mut j = self.joypads[i];
                j.latch();
                let regs = j.read();
                self.joypads[i] = j;
                let reg_base = i * 2;
                self.joypad_regs[reg_base] = regs.0;
                self.joypad_regs[reg_base + 1] = regs.1;
                i = i + 1;
            }
            self.ready = true;
        }
    }

    /// Latch all joypads.
    pub fn latch_all(&mut self)
        requires
            old(self)@.wf(),
        ensures
            final(self)@.wf(),
            final(self)@ == (JoypadMemView {
                joypads: Seq::new(4, |i: int| Joypad { buttons: 0, register: old(self)@.joypads[i].buttons }),
                ..old(self)@
            }),
    {
        let ghost old_pads = self.joypads@;
        let ghost old_view = self@;
        let mut i: usize = 0;
        while i < 4
            invariant
                0 <= i <= 4,
                self.joypads@.len() == 4,
                old_pads.len() == 4,
                self@ == (JoypadMemView { joypads: self@.joypads, ..old_view }),
                old_view.joypads == old_pads,
                forall|j: int| 0 <= j < i ==> #[trigger] self.joypads@[j] == (Joypad { buttons: 0, register: old_pads[j].buttons }),
                forall|j: int| i <= j < 4 ==> #[trigger] self.joypads@[j] == old_pads[j],
            decreases 4 - i,
        {
            let mut j = self.joypads[i];
            j.latch();
            self.joypads[i] = j;
            i = i + 1;
        }
        proof {
            assert(self@.joypads =~= Seq::new(4, |i: int| Joypad { buttons: 0, register: old_pads[i].buttons }));
        }
    }

    /// Read a joypad register: serial reads of pads 1 and 2, or the
    /// automatic read registers.
    pub fn read(&mut self, addr: u16) -> (r: u8)
        requires
            old(self)@.wf(),
        ensures
            final(self)@.wf(),
            addr == 0x4016 ==> r == old(self)@.joypads[0].register / 0x8000 && final(self)@ == (JoypadMemView {
                joypads: old(self)@.joypads.update(0, Joypad {
                    register: ((old(self)@.joypads[0].register * 2) % 0x10000 + 1) as u16,
                    ..old(self)@.joypads[0]
                }),
                ..old(self)@
            }),
            addr == 0x4017 ==> r == old(self)@.joypads[1].register / 0x8000 && final(self)@ == (JoypadMemView {
                joypads: old(self)@.joypads.update(1, Joypad {
                    register: ((old(self)@.joypads[1].register * 2) % 0x10000 + 1) as u16,
                    ..old(self)@.joypads[1]
                }),
                ..old(self)@
            }),
            0x4218 <= addr <= 0x421F ==> r == old(self)@.joypad_regs[addr - 0x4218] && final(self)@ == old(self)@,
            !(addr == 0x4016 || addr == 0x4017 || (0x4218 <= addr <= 0x421F)) ==> r == 0 && final(self)@ == old(self)@,
    {
        if addr == 0x4016 {
            let mut j = self.joypads[0];
            let b = j.shift_bit();
            self.joypads[0] = j;
            b
        } else if addr == 0x4017 {
            let mut j = self.joypads[1];
            let b = j.shift_bit();
            self.joypads[1] = j;
            b
        } else if 0x4218 <= addr && addr <= 0x421F {
            self.joypad_regs[(addr - 0x4218) as usize]
        } else {
            0
        }
    }
}

/// The shift register after `k` serial reads.
pub open spec fn shifted(reg: u16, k: nat) -> u16
    decreases k,
{
    if k == 0 {
        reg
    } else {
        shifted(((reg * 2) % 0x10000 + 1) as u16, (k - 1) as nat)
    }
}

proof fn lemma_shifted_bits(reg: u16, k: nat)
    requires
        k <= 16,
    ensures
        shifted(reg, k) == (reg << (k as u16)) | (((1u32 << (k as u32)) - 1) as u16),
    decreases k,
{
    if k == 0 {
        assert((reg << 0u16) | (((1u32 << 0u32) - 1) as u16) == reg) by (bit_vector);
    } else {
        let next = ((reg * 2) % 0x10000 + 1) as u16;
        assert(next == (reg << 1u16) | 1u16) by (bit_vector)
            requires
                next == ((reg * 2) % 0x10000 + 1) as u16,
        ;
        lemma_shifted_bits(next, (k - 1) as nat);
        let j = (k - 1) as u16;
        assert(((((reg << 1u16) | 1u16) << j) | (((1u32 << (j as u32)) - 1) as u16)) == (reg << (j + 1))
            | (((1u32 << ((j + 1) as u32)) - 1) as u16)) by (bit_vector)
            requires
                j < 16,
        ;
    }
}

/// A latched pad shifts its buttons out most significant bit first: the
/// `k`-th serial read (from 0) returns bit 15 - `k` of the latched
/// buttons (B, Y, Select, Start, Up, Down, Left, Right, A, X, L, R, then
/// the four unused bits), and every read after the sixteenth returns 1.
pub proof fn lemma_serial_read_order(reg: u16, k: nat)
    ensures
        k < 16 ==> shifted(reg, k) / 0x8000 == (reg >> ((15 - k) as u16)) & 1,
        k >= 16 ==> shifted(reg, k) / 0x8000 == 1,
    decreases k,
{
    if k <= 16 {
        lemma_shifted_bits(reg, k);
        let kk = k as u16;
        let v = shifted(reg, k);
        if k < 16 {
            let sh = (15 - kk) as u16;
            assert(((reg << kk) | (((1u32 << (kk as u32)) - 1) as u16)) / 0x8000 == (reg >> sh) & 1)
                by (bit_vector)
                requires
                    kk < 16,
                    sh == 15 - kk,
            ;
        } else {
            assert(((reg << 16u16) | (((1u32 << 16u32) - 1) as u16)) == 0xFFFF) by (bit_vector);
        }
    } else {
        lemma_serial_read_order(((reg * 2) % 0x10000 + 1) as u16, (k - 1) as nat);
    }
}

} // verus!
