use vstd::prelude::*;
use crate::decode::{base_cycles, cycles_of, decode, decode_opcode, is_read, reads_operand, Mode, Op};
use crate::memory::{
    add16, add8, high_byte, low_byte, make_word, mem_pages_same, same_page, split_word, sub8, word,
    wrap16, wrap8, Memory,
};
use crate::status::{
    update_flag, update_zero_negative, with_flag, with_zero_negative, StatusFlags, BREAK_COMMAND, CARRY, DECIMAL_MODE, EXPANSION,
    INTERRUPT_DISABLE, NEGATIVE_RESULT, OVERFLOW, ZERO_RESULT,
};

verus! {

pub const NMI_VECTOR: u16 = 0xFFFA;
pub const RESET_VECTOR: u16 = 0xFFFC;
pub const IRQ_VECTOR: u16 = 0xFFFE;
pub const BRK_VECTOR: u16 = 0xFFFE;

/// Largest cycle count at which `step` may still be called without the
/// counter overflowing.
pub const MAX_CYCLES: u64 = 0xFFFF_FFFF_FFFF_FF00;

#[derive(Clone, Copy, Debug, PartialEq, Eq, Structural)]
pub enum Interrupt {
    Idle,
    Nmi,
    Irq,
}

#[derive(Clone, Copy, Debug, PartialEq, Eq, Structural)]
pub struct Regs {
    pub pc: u16,
    pub a: u8,
    pub x: u8,
    pub y: u8,
    pub sp: u8,
    pub status: StatusFlags,
}

impl Regs {
    pub fn new() -> (r: Regs)
        ensures
            r == (Regs { pc: 0, a: 0, x: 0, y: 0, sp: 0, status: StatusFlags { bits: 0 } }),
    {
        Regs { pc: 0, a: 0, x: 0, y: 0, sp: 0, status: StatusFlags { bits: 0 } }
    }
}

/// Where an instruction's operand lives: the effective address, the address
/// before indexing, the program counter after the operand bytes, and whether
/// indexing crossed a page.
#[derive(Clone, Copy, Debug, PartialEq, Eq, Structural)]
pub struct Operand {
    pub addr: u16,
    pub base: u16,
    pub next_pc: u16,
    pub crossed: bool,
}

/// The abstract state of a CPU and the memory it is attached to.
pub struct CpuState<T> {
    pub cycles: int,
    pub regs: Regs,
    pub interrupt: Interrupt,
    pub mem: T,
    pub watchpoints: Seq<u16>,
}

pub open spec fn stack_address(sp: u8) -> u16 {
    (0x100 + sp as int) as u16
}

/// The result and carry of a shift or rotate of `m` with carry-in from `p`.
pub open spec fn shift_result(op: Op, m: u8, p: u8) -> (u8, bool) {
    match op {
        Op::Asl => (m << 1u8, m & 0x80 != 0),
        Op::Lsr => (m >> 1u8, m & 0x01 != 0),
        Op::Rol => ((m << 1u8) | (p & CARRY), m & 0x80 != 0),
        _ => ((m >> 1u8) | ((p & CARRY) << 7u8), m & 0x01 != 0),
    }
}

pub open spec fn branch_taken(p: u8, mask: u8, value: bool) -> bool {
    (p & mask != 0) == value
}

/// Cycles added to the base count: one for a read whose indexing crossed a
/// page, and for a taken branch one more, plus one if it lands on another page.
pub open spec fn extra_cycles(op: Op, o: Operand, p: u8) -> int {
    match op {
        Op::Branch(mask, value) => if branch_taken(p, mask, value) {
            if o.crossed { 2 } else { 1 }
        } else {
            0
        },
        _ => if is_read(op) && o.crossed { 1 } else { 0 },
    }
}

/// Whether the instruction reads or writes memory at its operand address.
pub open spec fn touches_operand(op: Op, mode: Mode) -> bool {
    &&& !matches!(op, Op::Jmp | Op::Jsr)
    &&& matches!(mode, Mode::ZeroPage | Mode::ZeroPageX | Mode::ZeroPageY | Mode::Absolute
        | Mode::AbsoluteX | Mode::AbsoluteY | Mode::IndexedIndirect | Mode::IndirectIndexed)
}

pub fn accesses_operand(op: Op, mode: Mode) -> (r: bool)
    ensures
        r == touches_operand(op, mode),
{
    !matches!(op, Op::Jmp | Op::Jsr)
        && matches!(mode, Mode::ZeroPage | Mode::ZeroPageX | Mode::ZeroPageY | Mode::Absolute
            | Mode::AbsoluteX | Mode::AbsoluteY | Mode::IndexedIndirect | Mode::IndirectIndexed)
}

pub struct Cpu<M: Memory> {
    pub cycles: u64,
    pub regs: Regs,
    pub mem: M,
    pub interrupt: Interrupt,
    /// Addresses whose access by an instruction is reported by `step`.
    pub watchpoints: Vec<u16>,
}

impl<M: Memory> View for Cpu<M> {
    type V = CpuState<M::Model>;

    open spec fn view(&self) -> CpuState<M::Model> {
        CpuState {
            cycles: self.cycles as int,
            regs: self.regs,
            interrupt: self.interrupt,
            mem: self.mem.model(),
            watchpoints: self.watchpoints@,
        }
    }
}

impl<M: Memory> Cpu<M> {
    pub open spec fn read(s: CpuState<M::Model>, a: u16) -> u8 {
        M::peek(s.mem, a)
    }

    pub open spec fn read_word(s: CpuState<M::Model>, a: u16) -> u16 {
        word(Self::read(s, a), Self::read(s, wrap16(a + 1)))
    }

    /// A pointer read from the zero page; its high byte wraps to 0x00.
    pub open spec fn read_word_zero_page(s: CpuState<M::Model>, z: u8) -> u16 {
        word(Self::read(s, z as u16), Self::read(s, wrap8(z + 1) as u16))
    }

    pub open spec fn write(s: CpuState<M::Model>, a: u16, v: u8) -> CpuState<M::Model> {
        CpuState { mem: M::poke(s.mem, a, v), ..s }
    }

    pub open spec fn with_pc(s: CpuState<M::Model>, v: u16) -> CpuState<M::Model> {
        CpuState { regs: Regs { pc: v, ..s.regs }, ..s }
    }

    pub open spec fn with_a(s: CpuState<M::Model>, v: u8) -> CpuState<M::Model> {
        CpuState { regs: Regs { a: v, ..s.regs }, ..s }
    }

    pub open spec fn with_x(s: CpuState<M::Model>, v: u8) -> CpuState<M::Model> {
        CpuState { regs: Regs { x: v, ..s.regs }, ..s }
    }

    pub open spec fn with_y(s: CpuState<M::Model>, v: u8) -> CpuState<M::Model> {
        CpuState { regs: Regs { y: v, ..s.regs }, ..s }
    }

    pub open spec fn with_sp(s: CpuState<M::Model>, v: u8) -> CpuState<M::Model> {
        CpuState { regs: Regs { sp: v, ..s.regs }, ..s }
    }

    pub open spec fn with_p(s: CpuState<M::Model>, v: u8) -> CpuState<M::Model> {
        CpuState { regs: Regs { status: StatusFlags { bits: v }, ..s.regs }, ..s }
    }

    /// Z and N set from `v`.
    pub open spec fn with_zn(s: CpuState<M::Model>, v: u8) -> CpuState<M::Model> {
        Self::with_p(s, with_zero_negative(s.regs.status.bits, v))
    }

    pub open spec fn pushed(s: CpuState<M::Model>, v: u8) -> CpuState<M::Model> {
        Self::with_sp(Self::write(s, stack_address(s.regs.sp), v), wrap8(s.regs.sp - 1))
    }

    pub open spec fn pulled(s: CpuState<M::Model>) -> (u8, CpuState<M::Model>) {
        let sp = wrap8(s.regs.sp + 1);
        (Self::read(s, stack_address(sp)), Self::with_sp(s, sp))
    }

    /// The high byte is pushed first, so the low byte ends up at the lower address.
    pub open spec fn pushed_word(s: CpuState<M::Model>, w: u16) -> CpuState<M::Model> {
        Self::pushed(Self::pushed(s, high_byte(w)), low_byte(w))
    }

    pub open spec fn pulled_word(s: CpuState<M::Model>) -> (u16, CpuState<M::Model>) {
        let (lo, s1) = Self::pulled(s);
        let (hi, s2) = Self::pulled(s1);
        (word(lo, hi), s2)
    }

    /// Where the operand of an instruction in `mode` is, with the program
    /// counter at the first byte after the opcode.
    pub open spec fn operand(s: CpuState<M::Model>, mode: Mode) -> Operand {
        let pc = s.regs.pc;
        let pc1 = wrap16(pc + 1);
        let pc2 = wrap16(pc + 2);
        let b = Self::read(s, pc);
        let w = Self::read_word(s, pc);
        match mode {
            Mode::Implied | Mode::Accumulator => Operand { addr: pc, base: pc, next_pc: pc, crossed: false },
            Mode::Immediate => Operand { addr: pc, base: pc, next_pc: pc1, crossed: false },
            Mode::ZeroPage => Operand { addr: b as u16, base: b as u16, next_pc: pc1, crossed: false },
            Mode::ZeroPageX => Operand { addr: wrap8(b + s.regs.x) as u16, base: b as u16, next_pc: pc1, crossed: false },
            Mode::ZeroPageY => Operand { addr: wrap8(b + s.regs.y) as u16, base: b as u16, next_pc: pc1, crossed: false },
            Mode::Absolute => Operand { addr: w, base: w, next_pc: pc2, crossed: false },
            Mode::AbsoluteX => {
                let addr = wrap16(w + s.regs.x);
                Operand { addr, base: w, next_pc: pc2, crossed: !same_page(w, addr) }
            },
            Mode::AbsoluteY => {
                let addr = wrap16(w + s.regs.y);
                Operand { addr, base: w, next_pc: pc2, crossed: !same_page(w, addr) }
            },
            Mode::Indirect => {
                let hi_addr = (w & 0xFF00) | (wrap8(low_byte(w) + 1) as u16);
                let addr = word(Self::read(s, w), Self::read(s, hi_addr));
                Operand { addr, base: w, next_pc: pc2, crossed: false }
            },
            Mode::IndexedIndirect => {
                let addr = Self::read_word_zero_page(s, wrap8(b + s.regs.x));
                Operand { addr, base: addr, next_pc: pc1, crossed: false }
            },
            Mode::IndirectIndexed => {
                let base = Self::read_word_zero_page(s, b);
                let addr = wrap16(base + s.regs.y);
                Operand { addr, base, next_pc: pc1, crossed: !same_page(base, addr) }
            },
            Mode::Relative => {
                let addr = wrap16(pc1 + b + if b >= 0x80 { 0xFF00int } else { 0int });
                Operand { addr, base: pc1, next_pc: pc1, crossed: !same_page(pc1, addr) }
            },
        }
    }

    /// The value an instruction operates on.
    pub open spec fn fetch(s: CpuState<M::Model>, mode: Mode, o: Operand) -> u8 {
        if mode == Mode::Accumulator {
            s.regs.a
        } else {
            Self::read(s, o.addr)
        }
    }

    /// Read-modify-write: memory gets the original value back, then the new one.
    pub open spec fn modify(s: CpuState<M::Model>, mode: Mode, o: Operand, old_value: u8, new_value: u8) -> CpuState<M::Model> {
        if mode == Mode::Accumulator {
            Self::with_a(s, new_value)
        } else {
            Self::write(Self::write(s, o.addr, old_value), o.addr, new_value)
        }
    }

    /// Add with carry; SBC is this with the operand complemented. No decimal mode.
    pub open spec fn add_with_carry(s: CpuState<M::Model>, m: u8) -> CpuState<M::Model> {
        let a = s.regs.a;
        let p = s.regs.status.bits;
        let sum = a + m + (p & CARRY);
        let r = wrap8(sum);
        let p1 = with_flag(p, CARRY, sum > 0xFF);
        let p2 = with_flag(p1, OVERFLOW, (a ^ r) & (m ^ r) & 0x80 != 0);
        Self::with_p(Self::with_a(s, r), with_zero_negative(p2, r))
    }

    pub open spec fn compare(s: CpuState<M::Model>, reg: u8, m: u8) -> CpuState<M::Model> {
        let p = with_flag(s.regs.status.bits, CARRY, reg >= m);
        Self::with_p(s, with_zero_negative(p, wrap8(reg - m)))
    }

    /// A shift or rotate of the operand, written back, with C and Z/N updated.
    pub open spec fn shifted(s: CpuState<M::Model>, kind: Op, mode: Mode, o: Operand) -> CpuState<M::Model> {
        let m = Self::fetch(s, mode, o);
        let (r, c) = shift_result(kind, m, s.regs.status.bits);
        let s1 = Self::modify(s, mode, o, m, r);
        let s2 = Self::with_p(s1, with_flag(s1.regs.status.bits, CARRY, c));
        Self::with_zn(s2, r)
    }

    /// The value a shift or rotate of the operand produces.
    pub open spec fn shifted_value(s: CpuState<M::Model>, kind: Op, mode: Mode, o: Operand) -> u8 {
        shift_result(kind, Self::fetch(s, mode, o), s.regs.status.bits).0
    }

    pub open spec fn load_a(s: CpuState<M::Model>, v: u8) -> CpuState<M::Model> {
        Self::with_zn(Self::with_a(s, v), v)
    }

    pub open spec fn load_x(s: CpuState<M::Model>, v: u8) -> CpuState<M::Model> {
        Self::with_zn(Self::with_x(s, v), v)
    }

    pub open spec fn load_y(s: CpuState<M::Model>, v: u8) -> CpuState<M::Model> {
        Self::with_zn(Self::with_y(s, v), v)
    }

    /// The state after the operation `op`, with the program counter already
    /// past the operand `o`.
    pub open spec fn executed(s: CpuState<M::Model>, op: Op, mode: Mode, o: Operand) -> CpuState<M::Model> {
        let a = s.regs.a;
        let x = s.regs.x;
        let y = s.regs.y;
        let sp = s.regs.sp;
        let p = s.regs.status.bits;
        let m = Self::fetch(s, mode, o);
        let h = wrap8(high_byte(o.base) + 1);
        match op {
            Op::Lda => Self::load_a(s, m),
            Op::Ldx => Self::load_x(s, m),
            Op::Ldy => Self::load_y(s, m),
            Op::Lax | Op::Lxa => Self::load_x(Self::load_a(s, m), m),
            Op::Las => {
                let v = m & sp;
                Self::load_x(Self::load_a(Self::with_sp(s, v), v), v)
            },
            Op::Sta => Self::write(s, o.addr, a),
            Op::Stx => Self::write(s, o.addr, x),
            Op::Sty => Self::write(s, o.addr, y),
            Op::Sax => Self::write(s, o.addr, a & x),
            Op::Shy => Self::write(s, o.addr, y & h),
            Op::Shx => Self::write(s, o.addr, x & h),
            Op::Ahx => Self::write(s, o.addr, a & x & h),
            Op::Tas => Self::write(Self::with_sp(s, a & x), o.addr, a & x & h),
            Op::Ora => Self::load_a(s, a | m),
            Op::And => Self::load_a(s, a & m),
            Op::Eor => Self::load_a(s, a ^ m),
            Op::Adc => Self::add_with_carry(s, m),
            Op::Sbc => Self::add_with_carry(s, !m),
            Op::Cmp => Self::compare(s, a, m),
            Op::Cpx => Self::compare(s, x, m),
            Op::Cpy => Self::compare(s, y, m),
            Op::Bit => {
                let p1 = with_flag(p, NEGATIVE_RESULT, m & 0x80 != 0);
                let p2 = with_flag(p1, OVERFLOW, m & 0x40 != 0);
                Self::with_p(s, with_flag(p2, ZERO_RESULT, a & m == 0))
            },
            Op::Asl | Op::Lsr | Op::Rol | Op::Ror => Self::shifted(s, op, mode, o),
            Op::Inc => Self::with_zn(Self::modify(s, mode, o, m, wrap8(m + 1)), wrap8(m + 1)),
            Op::Dec => Self::with_zn(Self::modify(s, mode, o, m, wrap8(m - 1)), wrap8(m - 1)),
            Op::Slo => {
                let r = Self::shifted_value(s, Op::Asl, mode, o);
                Self::load_a(Self::shifted(s, Op::Asl, mode, o), a | r)
            },
            Op::Rla => {
                let r = Self::shifted_value(s, Op::Rol, mode, o);
                Self::load_a(Self::shifted(s, Op::Rol, mode, o), a & r)
            },
            Op::Sre => {
                let r = Self::shifted_value(s, Op::Lsr, mode, o);
                Self::load_a(Self::shifted(s, Op::Lsr, mode, o), a ^ r)
            },
            Op::Rra => {
                let r = Self::shifted_value(s, Op::Ror, mode, o);
                Self::add_with_carry(Self::shifted(s, Op::Ror, mode, o), r)
            },
            Op::Dcp => Self::compare(Self::modify(s, mode, o, m, wrap8(m - 1)), a, wrap8(m - 1)),
            Op::Isc => Self::add_with_carry(Self::modify(s, mode, o, m, wrap8(m + 1)), !wrap8(m + 1)),
            Op::Anc => {
                let s1 = Self::load_a(s, a & m);
                Self::with_p(s1, with_flag(s1.regs.status.bits, CARRY, (a & m) & 0x80 != 0))
            },
            Op::Alr => {
                let t = a & m;
                Self::load_a(Self::with_p(s, with_flag(p, CARRY, t & 0x01 != 0)), t >> 1u8)
            },
            Op::Arr => {
                let r = ((a & m) >> 1u8) | ((p & CARRY) << 7u8);
                let s1 = Self::load_a(s, r);
                let p1 = with_flag(s1.regs.status.bits, CARRY, r & 0x40 != 0);
                Self::with_p(s1, with_flag(p1, OVERFLOW, ((r >> 6u8) ^ (r >> 5u8)) & 0x01 != 0))
            },
            Op::Xaa => Self::load_a(s, a & x & m),
            Op::Axs => {
                let t = a & x;
                Self::load_x(Self::with_p(s, with_flag(p, CARRY, t >= m)), wrap8(t - m))
            },
            Op::Flag(mask, value) => Self::with_p(s, with_flag(p, mask, value)),
            Op::Tax => Self::load_x(s, a),
            Op::Txa => Self::load_a(s, x),
            Op::Tay => Self::load_y(s, a),
            Op::Tya => Self::load_a(s, y),
            Op::Tsx => Self::load_x(s, sp),
            Op::Txs => Self::with_sp(s, x),
            Op::Inx => Self::load_x(s, wrap8(x + 1)),
            Op::Iny => Self::load_y(s, wrap8(y + 1)),
            Op::Dex => Self::load_x(s, wrap8(x - 1)),
            Op::Dey => Self::load_y(s, wrap8(y - 1)),
            Op::Pha => Self::pushed(s, a),
            Op::Php => Self::pushed(s, p | BREAK_COMMAND | EXPANSION),
            Op::Pla => {
                let (v, s1) = Self::pulled(s);
                Self::load_a(s1, v)
            },
            Op::Plp => {
                let (v, s1) = Self::pulled(s);
                Self::with_p(s1, (v & !BREAK_COMMAND) | EXPANSION)
            },
            Op::Jmp => Self::with_pc(s, o.addr),
            Op::Jsr => Self::with_pc(Self::pushed_word(s, wrap16(o.next_pc + 0xFFFF)), o.addr),
            Op::Rts => {
                let (w, s1) = Self::pulled_word(s);
                Self::with_pc(s1, wrap16(w + 1))
            },
            Op::Rti => {
                let (v, s1) = Self::pulled(s);
                let (w, s2) = Self::pulled_word(s1);
                Self::with_pc(Self::with_p(s2, (v & !BREAK_COMMAND) | EXPANSION), w)
            },
            Op::Brk => {
                let s1 = Self::pushed(Self::pushed_word(s, wrap16(s.regs.pc + 1)), p | BREAK_COMMAND | EXPANSION);
                Self::with_pc(Self::with_p(s1, p | INTERRUPT_DISABLE), Self::read_word(s1, BRK_VECTOR))
            },
            Op::Branch(mask, value) => if branch_taken(p, mask, value) {
                Self::with_pc(s, o.addr)
            } else {
                s
            },
            Op::Nop => s,
            Op::Jam => Self::with_pc(s, wrap16(s.regs.pc + 0xFFFF)),
        }
    }

    /// Interrupt service: push PC and P (B clear, U set), set I, jump through `vector`.
    pub open spec fn served(s: CpuState<M::Model>, vector: u16) -> CpuState<M::Model> {
        let p = s.regs.status.bits;
        let s1 = Self::pushed(Self::pushed_word(s, s.regs.pc), (p & !BREAK_COMMAND) | EXPANSION);
        let s2 = Self::with_pc(Self::with_p(s1, p | INTERRUPT_DISABLE), Self::read_word(s1, vector));
        CpuState { cycles: s2.cycles + 7, interrupt: Interrupt::Idle, ..s2 }
    }

    /// The pending interrupt, if it is to be taken now: NMI always, IRQ when I is clear.
    pub open spec fn interrupted(s: CpuState<M::Model>) -> CpuState<M::Model> {
        match s.interrupt {
            Interrupt::Nmi => Self::served(s, NMI_VECTOR),
            Interrupt::Irq => if s.regs.status.bits & INTERRUPT_DISABLE == 0 {
                Self::served(s, IRQ_VECTOR)
            } else {
                s
            },
            Interrupt::Idle => s,
        }
    }

    /// The opcode that the next step executes.
    pub open spec fn next_opcode(s: CpuState<M::Model>) -> u8 {
        let s0 = Self::interrupted(s);
        Self::read(s0, s0.regs.pc)
    }

    /// One step: take a pending interrupt, then fetch, decode and execute one
    /// instruction, and count its cycles.
    pub open spec fn stepped(s: CpuState<M::Model>) -> CpuState<M::Model> {
        let s0 = Self::interrupted(s);
        let (op, mode) = decode(Self::read(s0, s0.regs.pc));
        let s1 = Self::with_pc(s0, wrap16(s0.regs.pc + 1));
        let o = Self::operand(s1, mode);
        let s2 = Self::executed(Self::with_pc(s1, o.next_pc), op, mode, o);
        CpuState { cycles: s2.cycles + base_cycles(op, mode) + extra_cycles(op, o, s1.regs.status.bits), ..s2 }
    }

    /// Whether the next step's instruction reads or writes a watched address.
    pub open spec fn watch_hit(s: CpuState<M::Model>) -> bool {
        let s0 = Self::interrupted(s);
        let (op, mode) = decode(Self::read(s0, s0.regs.pc));
        let o = Self::operand(Self::with_pc(s0, wrap16(s0.regs.pc + 1)), mode);
        touches_operand(op, mode) && s.watchpoints.contains(o.addr)
    }

    /// The state after reset: PC from the reset vector, SP = 0xFD, P = I|U,
    /// no cycles and no pending interrupt.
    pub open spec fn after_reset(s: CpuState<M::Model>) -> CpuState<M::Model> {
        CpuState {
            cycles: 0,
            regs: Regs {
                pc: Self::read_word(s, RESET_VECTOR),
                sp: 0xFD,
                status: StatusFlags { bits: INTERRUPT_DISABLE | EXPANSION },
                ..s.regs
            },
            interrupt: Interrupt::Idle,
            ..s
        }
    }
}

pub fn shift_value(op: Op, m: u8, p: u8) -> (r: (u8, bool))
    ensures
        r == shift_result(op, m, p),
{
    match op {
        Op::Asl => (m << 1u8, m & 0x80 != 0),
        Op::Lsr => (m >> 1u8, m & 0x01 != 0),
        Op::Rol => ((m << 1u8) | (p & CARRY), m & 0x80 != 0),
        _ => ((m >> 1u8) | ((p & CARRY) << 7u8), m & 0x01 != 0),
    }
}

impl<M: Memory> Cpu<M> {
    pub fn new(memory: M) -> (r: Cpu<M>)
        requires
            memory.inv(),
        ensures
            r.mem.inv(),
            r@ == Self::after_reset(
                CpuState { cycles: 0, regs: r@.regs, interrupt: Interrupt::Idle, mem: memory.model(), watchpoints: Seq::empty() },
            ),
            r.regs.a == 0 && r.regs.x == 0 && r.regs.y == 0,
    {
        let mut cpu = Cpu { cycles: 0, regs: Regs::new(), mem: memory, interrupt: Interrupt::Idle, watchpoints: Vec::new() };
        cpu.reset();
        cpu
    }

    pub fn reset(&mut self)
        requires
            old(self).mem.inv(),
        ensures
            final(self).mem.inv(),
            final(self)@ == Self::after_reset(old(self)@),
            final(self).regs.pc == Self::read_word(old(self)@, RESET_VECTOR),
            final(self).regs.sp == 0xFD,
            final(self).regs.status.bits & INTERRUPT_DISABLE != 0,
            live_status(final(self).regs.status.bits),
    {
        self.regs.pc = self.load_word(RESET_VECTOR);
        self.regs.sp = 0xFD;
        self.regs.status = StatusFlags::from_bits(INTERRUPT_DISABLE);
        self.cycles = 0;
        self.interrupt = Interrupt::Idle;
        assert((INTERRUPT_DISABLE | EXPANSION) & INTERRUPT_DISABLE != 0) by (bit_vector);
        assert((INTERRUPT_DISABLE | EXPANSION) & 0x30 == 0x20) by (bit_vector);
    }

    pub fn load_byte(&self, address: u16) -> (r: u8)
        requires
            self.mem.inv(),
        ensures
            r == Self::read(self@, address),
    {
        self.mem.load_byte(address)
    }

    pub fn store_byte(&mut self, address: u16, value: u8)
        requires
            old(self).mem.inv(),
        ensures
            final(self).mem.inv(),
            final(self)@ == Self::write(old(self)@, address, value),
    {
        self.mem.store_byte(address, value);
    }

    pub fn load_word(&self, address: u16) -> (r: u16)
        requires
            self.mem.inv(),
        ensures
            r == Self::read_word(self@, address),
    {
        let lo = self.load_byte(address);
        let hi = self.load_byte(add16(address, 1));
        make_word(lo, hi)
    }

    fn load_word_zero_page(&self, z: u8) -> (r: u16)
        requires
            self.mem.inv(),
        ensures
            r == Self::read_word_zero_page(self@, z),
    {
        let lo = self.load_byte(z as u16);
        let hi = self.load_byte(add8(z, 1) as u16);
        make_word(lo, hi)
    }

    fn next_pc_byte(&mut self) -> (r: u8)
        requires
            old(self).mem.inv(),
        ensures
            final(self).mem.inv(),
            r == Self::read(old(self)@, old(self).regs.pc),
            final(self)@ == Self::with_pc(old(self)@, wrap16(old(self).regs.pc + 1)),
    {
        let b = self.load_byte(self.regs.pc);
        self.regs.pc = add16(self.regs.pc, 1);
        b
    }

    fn resolve(&self, mode: Mode) -> (r: Operand)
        requires
            self.mem.inv(),
        ensures
            r == Self::operand(self@, mode),
    {
        let pc = self.regs.pc;
        let pc1 = add16(pc, 1);
        let pc2 = add16(pc, 2);
        match mode {
            Mode::Implied | Mode::Accumulator => Operand { addr: pc, base: pc, next_pc: pc, crossed: false },
            Mode::Immediate => Operand { addr: pc, base: pc, next_pc: pc1, crossed: false },
            Mode::ZeroPage => {
                let b = self.load_byte(pc);
                Operand { addr: b as u16, base: b as u16, next_pc: pc1, crossed: false }
            },
            Mode::ZeroPageX => {
                let b = self.load_byte(pc);
                Operand { addr: add8(b, self.regs.x) as u16, base: b as u16, next_pc: pc1, crossed: false }
            },
            Mode::ZeroPageY => {
                let b = self.load_byte(pc);
                Operand { addr: add8(b, self.regs.y) as u16, base: b as u16, next_pc: pc1, crossed: false }
            },
            Mode::Absolute => {
                let w = self.load_word(pc);
                Operand { addr: w, base: w, next_pc: pc2, crossed: false }
            },
            Mode::AbsoluteX => {
                let w = self.load_word(pc);
                let addr = add16(w, self.regs.x as u16);
                Operand { addr, base: w, next_pc: pc2, crossed: !mem_pages_same(w, addr) }
            },
            Mode::AbsoluteY => {
                let w = self.load_word(pc);
                let addr = add16(w, self.regs.y as u16);
                Operand { addr, base: w, next_pc: pc2, crossed: !mem_pages_same(w, addr) }
            },
            Mode::Indirect => {
                let w = self.load_word(pc);
                // The high byte of the target comes from the same page as the low byte.
                let hi_addr = (w & 0xFF00) | (add8(split_word(w).0, 1) as u16);
                let lo = self.load_byte(w);
                let hi = self.load_byte(hi_addr);
                Operand { addr: make_word(lo, hi), base: w, next_pc: pc2, crossed: false }
            },
            Mode::IndexedIndirect => {
                let b = self.load_byte(pc);
                let addr = self.load_word_zero_page(add8(b, self.regs.x));
                Operand { addr, base: addr, next_pc: pc1, crossed: false }
            },
            Mode::IndirectIndexed => {
                let b = self.load_byte(pc);
                let base = self.load_word_zero_page(b);
                let addr = add16(base, self.regs.y as u16);
                Operand { addr, base, next_pc: pc1, crossed: !mem_pages_same(base, addr) }
            },
            Mode::Relative => {
                let b = self.load_byte(pc);
                let sign: u32 = if b >= 0x80 { 0xFF00 } else { 0 };
                let addr = ((pc1 as u32 + b as u32 + sign) % 0x10000) as u16;
                Operand { addr, base: pc1, next_pc: pc1, crossed: !mem_pages_same(pc1, addr) }
            },
        }
    }

    fn operand_value(&self, mode: Mode, o: Operand) -> (r: u8)
        requires
            self.mem.inv(),
        ensures
            r == Self::fetch(self@, mode, o),
    {
        if mode == Mode::Accumulator {
            self.regs.a
        } else {
            self.load_byte(o.addr)
        }
    }

    fn write_back(&mut self, mode: Mode, o: Operand, old_value: u8, new_value: u8)
        requires
            old(self).mem.inv(),
        ensures
            final(self).mem.inv(),
            final(self)@ == Self::modify(old(self)@, mode, o, old_value, new_value),
    {
        if mode == Mode::Accumulator {
            self.regs.a = new_value;
        } else {
            self.store_byte(o.addr, old_value);
            self.store_byte(o.addr, new_value);
        }
    }

    fn set_zero_negative(&mut self, v: u8)
        requires
            old(self).mem.inv(),
        ensures
            final(self).mem.inv(),
            final(self)@ == Self::with_zn(old(self)@, v),
    {
        self.regs.status.bits = update_zero_negative(self.regs.status.bits, v);
    }

    fn ld_a(&mut self, v: u8)
        requires
            old(self).mem.inv(),
        ensures
            final(self).mem.inv(),
            final(self)@ == Self::load_a(old(self)@, v),
    {
        self.regs.a = v;
        self.set_zero_negative(v);
    }

    fn ld_x(&mut self, v: u8)
        requires
            old(self).mem.inv(),
        ensures
            final(self).mem.inv(),
            final(self)@ == Self::load_x(old(self)@, v),
    {
        self.regs.x = v;
        self.set_zero_negative(v);
    }

    fn ld_y(&mut self, v: u8)
        requires
            old(self).mem.inv(),
        ensures
            final(self).mem.inv(),
            final(self)@ == Self::load_y(old(self)@, v),
    {
        self.regs.y = v;
        self.set_zero_negative(v);
    }

    pub fn push_byte(&mut self, v: u8)
        requires
            old(self).mem.inv(),
        ensures
            final(self).mem.inv(),
            final(self)@ == Self::pushed(old(self)@, v),
    {
        let sp = self.regs.sp;
        self.store_byte(0x100u16 + sp as u16, v);
        self.regs.sp = sub8(sp, 1);
    }

    pub fn pull_byte(&mut self) -> (r: u8)
        requires
            old(self).mem.inv(),
        ensures
            final(self).mem.inv(),
            (r, final(self)@) == Self::pulled(old(self)@),
    {
        let sp = add8(self.regs.sp, 1);
        self.regs.sp = sp;
        self.load_byte(0x100u16 + sp as u16)
    }

    pub fn push_word(&mut self, w: u16)
        requires
            old(self).mem.inv(),
        ensures
            final(self).mem.inv(),
            final(self)@ == Self::pushed_word(old(self)@, w),
    {
        let (lo, hi) = split_word(w);
        self.push_byte(hi);
        self.push_byte(lo);
    }

    pub fn pull_word(&mut self) -> (r: u16)
        requires
            old(self).mem.inv(),
        ensures
            final(self).mem.inv(),
            (r, final(self)@) == Self::pulled_word(old(self)@),
    {
        let lo = self.pull_byte();
        let hi = self.pull_byte();
        make_word(lo, hi)
    }

    fn adc_value(&mut self, m: u8)
        requires
            old(self).mem.inv(),
        ensures
            final(self).mem.inv(),
            final(self)@ == Self::add_with_carry(old(self)@, m),
    {
        let a = self.regs.a;
        let p = self.regs.status.bits;
        let sum: u16 = a as u16 + m as u16 + (p & CARRY) as u16;
        let r = (sum % 0x100) as u8;
        let p1 = update_flag(p, CARRY, sum > 0xFF);
        let p2 = update_flag(p1, OVERFLOW, (a ^ r) & (m ^ r) & 0x80 != 0);
        self.regs.a = r;
        self.regs.status.bits = update_zero_negative(p2, r);
    }

    fn compare_value(&mut self, reg: u8, m: u8)
        requires
            old(self).mem.inv(),
        ensures
            final(self).mem.inv(),
            final(self)@ == Self::compare(old(self)@, reg, m),
    {
        let p = update_flag(self.regs.status.bits, CARRY, reg >= m);
        self.regs.status.bits = update_zero_negative(p, sub8(reg, m));
    }

    fn shift_operand(&mut self, kind: Op, mode: Mode, o: Operand) -> (r: u8)
        requires
            old(self).mem.inv(),
        ensures
            final(self).mem.inv(),
            r == Self::shifted_value(old(self)@, kind, mode, o),
            final(self)@ == Self::shifted(old(self)@, kind, mode, o),
    {
        let m = self.operand_value(mode, o);
        let (r, c) = shift_value(kind, m, self.regs.status.bits);
        self.write_back(mode, o, m, r);
        self.regs.status.bits = update_flag(self.regs.status.bits, CARRY, c);
        self.set_zero_negative(r);
        r
    }

    fn run_load_store(&mut self, op: Op, mode: Mode, o: Operand)
        requires
            old(self).mem.inv(),
            matches!(op, Op::Lda | Op::Ldx | Op::Ldy | Op::Lax | Op::Lxa | Op::Las
                | Op::Sta | Op::Stx | Op::Sty | Op::Sax | Op::Shy | Op::Shx | Op::Ahx | Op::Tas),
        ensures
            final(self).mem.inv(),
            final(self)@ == Self::executed(old(self)@, op, mode, o),
    {
        let a = self.regs.a;
        let x = self.regs.x;
        let y = self.regs.y;
        let h = add8(split_word(o.base).1, 1);
        match op {
            Op::Lda => {
                let m = self.operand_value(mode, o);
                self.ld_a(m);
            },
            Op::Ldx => {
                let m = self.operand_value(mode, o);
                self.ld_x(m);
            },
            Op::Ldy => {
                let m = self.operand_value(mode, o);
                self.ld_y(m);
            },
            Op::Lax | Op::Lxa => {
                let m = self.operand_value(mode, o);
                self.ld_a(m);
                self.ld_x(m);
            },
            Op::Las => {
                let v = self.operand_value(mode, o) & self.regs.sp;
                self.regs.sp = v;
                self.ld_a(v);
                self.ld_x(v);
            },
            Op::Sta => self.store_byte(o.addr, a),
            Op::Stx => self.store_byte(o.addr, x),
            Op::Sty => self.store_byte(o.addr, y),
            Op::Sax => self.store_byte(o.addr, a & x),
            Op::Shy => self.store_byte(o.addr, y & h),
            Op::Shx => self.store_byte(o.addr, x & h),
            Op::Ahx => self.store_byte(o.addr, a & x & h),
            _ => {
                self.regs.sp = a & x;
                self.store_byte(o.addr, a & x & h);
            },
        }
    }

    fn run_alu(&mut self, op: Op, mode: Mode, o: Operand)
        requires
            old(self).mem.inv(),
            matches!(op, Op::Ora | Op::And | Op::Eor | Op::Adc | Op::Sbc | Op::Cmp | Op::Cpx | Op::Cpy
                | Op::Bit | Op::Anc | Op::Alr | Op::Arr | Op::Xaa | Op::Axs),
        ensures
            final(self).mem.inv(),
            final(self)@ == Self::executed(old(self)@, op, mode, o),
    {
        let a = self.regs.a;
        let x = self.regs.x;
        let y = self.regs.y;
        let p = self.regs.status.bits;
        let m = self.operand_value(mode, o);
        match op {
            Op::Ora => self.ld_a(a | m),
            Op::And => self.ld_a(a & m),
            Op::Eor => self.ld_a(a ^ m),
            Op::Adc => self.adc_value(m),
            Op::Sbc => self.adc_value(!m),
            Op::Cmp => self.compare_value(a, m),
            Op::Cpx => self.compare_value(x, m),
            Op::Cpy => self.compare_value(y, m),
            Op::Bit => {
                let p1 = update_flag(p, NEGATIVE_RESULT, m & 0x80 != 0);
                let p2 = update_flag(p1, OVERFLOW, m & 0x40 != 0);
                self.regs.status.bits = update_flag(p2, ZERO_RESULT, a & m == 0);
            },
            Op::Anc => {
                self.ld_a(a & m);
                self.regs.status.bits = update_flag(self.regs.status.bits, CARRY, (a & m) & 0x80 != 0);
            },
            Op::Alr => {
                let t = a & m;
                self.regs.status.bits = update_flag(p, CARRY, t & 0x01 != 0);
                self.ld_a(t >> 1u8);
            },
            Op::Arr => {
                let r = ((a & m) >> 1u8) | ((p & CARRY) << 7u8);
                self.ld_a(r);
                let p1 = update_flag(self.regs.status.bits, CARRY, r & 0x40 != 0);
                self.regs.status.bits = update_flag(p1, OVERFLOW, ((r >> 6u8) ^ (r >> 5u8)) & 0x01 != 0);
            },
            Op::Xaa => self.ld_a(a & x & m),
            _ => {
                let t = a & x;
                self.regs.status.bits = update_flag(p, CARRY, t >= m);
                self.ld_x(sub8(t, m));
            },
        }
    }

    fn run_read_modify_write(&mut self, op: Op, mode: Mode, o: Operand)
        requires
            old(self).mem.inv(),
            matches!(op, Op::Asl | Op::Lsr | Op::Rol | Op::Ror | Op::Inc | Op::Dec
                | Op::Slo | Op::Rla | Op::Sre | Op::Rra | Op::Dcp | Op::Isc),
        ensures
            final(self).mem.inv(),
            final(self)@ == Self::executed(old(self)@, op, mode, o),
    {
        let a = self.regs.a;
        match op {
            Op::Asl | Op::Lsr | Op::Rol | Op::Ror => {
                self.shift_operand(op, mode, o);
            },
            Op::Inc => {
                let m = self.operand_value(mode, o);
                let r = add8(m, 1);
                self.write_back(mode, o, m, r);
                self.set_zero_negative(r);
            },
            Op::Dec => {
                let m = self.operand_value(mode, o);
                let r = sub8(m, 1);
                self.write_back(mode, o, m, r);
                self.set_zero_negative(r);
            },
            Op::Slo => {
                let r = self.shift_operand(Op::Asl, mode, o);
                self.ld_a(a | r);
            },
            Op::Rla => {
                let r = self.shift_operand(Op::Rol, mode, o);
                self.ld_a(a & r);
            },
            Op::Sre => {
                let r = self.shift_operand(Op::Lsr, mode, o);
                self.ld_a(a ^ r);
            },
            Op::Rra => {
                let r = self.shift_operand(Op::Ror, mode, o);
                self.adc_value(r);
            },
            Op::Dcp => {
                let m = self.operand_value(mode, o);
                let r = sub8(m, 1);
                self.write_back(mode, o, m, r);
                self.compare_value(a, r);
            },
            _ => {
                let m = self.operand_value(mode, o);
                let r = add8(m, 1);
                self.write_back(mode, o, m, r);
                self.adc_value(!r);
            },
        }
    }

    fn run_control(&mut self, op: Op, mode: Mode, o: Operand)
        requires
            old(self).mem.inv(),
            !matches!(op, Op::Lda | Op::Ldx | Op::Ldy | Op::Lax | Op::Lxa | Op::Las
                | Op::Sta | Op::Stx | Op::Sty | Op::Sax | Op::Shy | Op::Shx | Op::Ahx | Op::Tas
                | Op::Ora | Op::And | Op::Eor | Op::Adc | Op::Sbc | Op::Cmp | Op::Cpx | Op::Cpy
                | Op::Bit | Op::Anc | Op::Alr | Op::Arr | Op::Xaa | Op::Axs
                | Op::Asl | Op::Lsr | Op::Rol | Op::Ror | Op::Inc | Op::Dec
                | Op::Slo | Op::Rla | Op::Sre | Op::Rra | Op::Dcp | Op::Isc),
        ensures
            final(self).mem.inv(),
            final(self)@ == Self::executed(old(self)@, op, mode, o),
    {
        let a = self.regs.a;
        let x = self.regs.x;
        let y = self.regs.y;
        let sp = self.regs.sp;
        let p = self.regs.status.bits;
        match op {
            Op::Flag(mask, value) => self.regs.status.bits = update_flag(p, mask, value),
            Op::Tax => self.ld_x(a),
            Op::Txa => self.ld_a(x),
            Op::Tay => self.ld_y(a),
            Op::Tya => self.ld_a(y),
            Op::Tsx => self.ld_x(sp),
            Op::Txs => self.regs.sp = x,
            Op::Inx => self.ld_x(add8(x, 1)),
            Op::Iny => self.ld_y(add8(y, 1)),
            Op::Dex => self.ld_x(sub8(x, 1)),
            Op::Dey => self.ld_y(sub8(y, 1)),
            Op::Pha => self.push_byte(a),
            Op::Php => self.push_byte(p | BREAK_COMMAND | EXPANSION),
            Op::Pla => {
                let v = self.pull_byte();
                self.ld_a(v);
            },
            Op::Plp => {
                let v = self.pull_byte();
                self.regs.status.bits = (v & !BREAK_COMMAND) | EXPANSION;
            },
            Op::Jmp => self.regs.pc = o.addr,
            Op::Jsr => {
                self.push_word(add16(o.next_pc, 0xFFFF));
                self.regs.pc = o.addr;
            },
            Op::Rts => {
                let w = self.pull_word();
                self.regs.pc = add16(w, 1);
            },
            Op::Rti => {
                let v = self.pull_byte();
                let w = self.pull_word();
                self.regs.status.bits = (v & !BREAK_COMMAND) | EXPANSION;
                self.regs.pc = w;
            },
            Op::Brk => {
                let pc = self.regs.pc;
                self.push_word(add16(pc, 1));
                self.push_byte(p | BREAK_COMMAND | EXPANSION);
                self.regs.status.bits = p | INTERRUPT_DISABLE;
                self.regs.pc = self.load_word(BRK_VECTOR);
            },
            Op::Branch(mask, value) => {
                if (p & mask != 0) == value {
                    self.regs.pc = o.addr;
                }
            },
            Op::Jam => self.regs.pc = add16(self.regs.pc, 0xFFFF),
            _ => {},
        }
    }

    fn run_opcode(&mut self, op: Op, mode: Mode, o: Operand)
        requires
            old(self).mem.inv(),
        ensures
            final(self).mem.inv(),
            final(self)@ == Self::executed(old(self)@, op, mode, o),
    {
        match op {
            Op::Lda | Op::Ldx | Op::Ldy | Op::Lax | Op::Lxa | Op::Las
            | Op::Sta | Op::Stx | Op::Sty | Op::Sax | Op::Shy | Op::Shx | Op::Ahx | Op::Tas =>
                self.run_load_store(op, mode, o),
            Op::Ora | Op::And | Op::Eor | Op::Adc | Op::Sbc | Op::Cmp | Op::Cpx | Op::Cpy
            | Op::Bit | Op::Anc | Op::Alr | Op::Arr | Op::Xaa | Op::Axs =>
                self.run_alu(op, mode, o),
            Op::Asl | Op::Lsr | Op::Rol | Op::Ror | Op::Inc | Op::Dec
            | Op::Slo | Op::Rla | Op::Sre | Op::Rra | Op::Dcp | Op::Isc =>
                self.run_read_modify_write(op, mode, o),
            _ => self.run_control(op, mode, o),
        }
    }

    fn handle_interrupt(&mut self, vector: u16)
        requires
            old(self).mem.inv(),
            old(self).cycles <= MAX_CYCLES,
        ensures
            final(self).mem.inv(),
            final(self)@ == Self::served(old(self)@, vector),
    {
        let p = self.regs.status.bits;
        let pc = self.regs.pc;
        self.push_word(pc);
        self.push_byte((p & !BREAK_COMMAND) | EXPANSION);
        self.regs.status.bits = p | INTERRUPT_DISABLE;
        self.regs.pc = self.load_word(vector);
        self.cycles = self.cycles + 7;
        self.interrupt = Interrupt::Idle;
    }

    fn handle_interrupts(&mut self)
        requires
            old(self).mem.inv(),
            old(self).cycles <= MAX_CYCLES,
        ensures
            final(self).mem.inv(),
            final(self)@ == Self::interrupted(old(self)@),
    {
        match self.interrupt {
            Interrupt::Nmi => self.handle_interrupt(NMI_VECTOR),
            Interrupt::Irq => {
                if self.regs.status.bits & INTERRUPT_DISABLE == 0 {
                    self.handle_interrupt(IRQ_VECTOR);
                }
            },
            Interrupt::Idle => {},
        }
    }

    pub fn is_watched(&self, address: u16) -> (r: bool)
        ensures
            r == self.watchpoints@.contains(address),
    {
        let mut i: usize = 0;
        while i < self.watchpoints.len()
            invariant
                0 <= i <= self.watchpoints@.len(),
                forall|j: int| 0 <= j < i ==> self.watchpoints@[j] != address,
            decreases self.watchpoints@.len() - i,
        {
            if self.watchpoints[i] == address {
                return true;
            }
            i = i + 1;
        }
        false
    }

    /// Executes one instruction, after taking a pending interrupt, and
    /// returns the number of cycles this took and whether the instruction
    /// touched a watched address.
    pub fn step(&mut self) -> (r: (u8, bool))
        requires
            old(self).mem.inv(),
            old(self).cycles <= MAX_CYCLES,
        ensures
            final(self).mem.inv(),
            final(self)@ == Self::stepped(old(self)@),
            r.0 == final(self).cycles - old(self).cycles,
            r.1 == Self::watch_hit(old(self)@),
            final(self).cycles >= old(self).cycles + base_cycles(
                decode(Self::next_opcode(old(self)@)).0,
                decode(Self::next_opcode(old(self)@)).1,
            ),
    {
        let start = self.cycles;
        self.handle_interrupts();
        let opcode = self.next_pc_byte();
        let (op, mode) = decode_opcode(opcode);
        let p = self.regs.status.bits;
        let o = self.resolve(mode);
        let hit = accesses_operand(op, mode) && self.is_watched(o.addr);
        self.regs.pc = o.next_pc;
        self.run_opcode(op, mode, o);
        let extra: u64 = match op {
            Op::Branch(mask, value) => if (p & mask != 0) == value {
                if o.crossed { 2 } else { 1 }
            } else {
                0
            },
            _ => if reads_operand(op) && o.crossed { 1 } else { 0 },
        };
        self.cycles = self.cycles + cycles_of(op, mode) as u64 + extra;
        ((self.cycles - start) as u8, hit)
    }

    /// Makes the next step begin with the non-maskable interrupt.
    pub fn trigger_nmi(&mut self)
        requires
            old(self).mem.inv(),
        ensures
            final(self).mem.inv(),
            final(self)@ == (CpuState { interrupt: Interrupt::Nmi, ..old(self)@ }),
    {
        self.interrupt = Interrupt::Nmi;
    }

    /// Requests an interrupt; it is recorded only while I is clear and no NMI is pending.
    pub fn trigger_irq(&mut self)
        requires
            old(self).mem.inv(),
        ensures
            final(self).mem.inv(),
            final(self)@ == (CpuState {
                interrupt: if old(self).regs.status.bits & INTERRUPT_DISABLE == 0
                    && old(self).interrupt != Interrupt::Nmi {
                    Interrupt::Irq
                } else {
                    old(self).interrupt
                },
                ..old(self)@
            }),
    {
        if self.regs.status.bits & INTERRUPT_DISABLE == 0 && self.interrupt != Interrupt::Nmi {
            self.interrupt = Interrupt::Irq;
        }
    }
}

/// Pushing a byte stores it at 0x0100 | SP and moves SP down by one, modulo 256.
pub proof fn lemma_push_byte_sp<M: Memory>(s: CpuState<M::Model>, v: u8)
    ensures
        Cpu::<M>::pushed(s, v).regs.sp == wrap8(s.regs.sp - 1),
        Cpu::<M>::pushed(s, v).mem == M::poke(s.mem, stack_address(s.regs.sp), v),
{
}

/// An indirect JMP whose pointer ends in 0xFF takes the high byte of its
/// target from the start of the same page, not from the next page.
pub proof fn lemma_indirect_jmp_wraps<M: Memory>(s: CpuState<M::Model>)
    requires
        s.interrupt == Interrupt::Idle,
        Cpu::<M>::read(s, s.regs.pc) == 0x6C,
        low_byte(Cpu::<M>::read_word(s, wrap16(s.regs.pc + 1))) == 0xFF,
    ensures
        ({
            let ptr = Cpu::<M>::read_word(s, wrap16(s.regs.pc + 1));
            Cpu::<M>::stepped(s).regs.pc == word(Cpu::<M>::read(s, ptr), Cpu::<M>::read(s, ptr & 0xFF00))
        }),
{
    let ptr = Cpu::<M>::read_word(s, wrap16(s.regs.pc + 1));
    assert(decode(0x6C) == (Op::Jmp, Mode::Indirect));
    assert((ptr & 0xFF00) | (wrap8(low_byte(ptr) + 1) as u16) == ptr & 0xFF00) by {
        assert(wrap8(low_byte(ptr) + 1) == 0);
        assert((ptr & 0xFF00) | 0u16 == ptr & 0xFF00) by (bit_vector);
    }
}

/// The live status register has U set and B clear; B only exists in pushed copies.
pub open spec fn live_status(p: u8) -> bool {
    p & 0x30 == 0x20
}

/// The flag that a decoded `Flag` operation changes is never B or U.
pub open spec fn flag_masks_ok(op: Op) -> bool {
    match op {
        Op::Flag(mask, _) => mask & 0x30 == 0,
        _ => true,
    }
}

pub broadcast proof fn lemma_with_flag_keeps_b_and_u(p: u8, mask: u8, value: bool)
    requires
        mask & 0x30 == 0,
    ensures
        #[trigger] with_flag(p, mask, value) & 0x30 == p & 0x30,
{
    assert((p | mask) & 0x30 == p & 0x30) by (bit_vector)
        requires
            mask & 0x30 == 0;
    assert((p & !mask) & 0x30 == p & 0x30) by (bit_vector)
        requires
            mask & 0x30 == 0;
}

proof fn lemma_decode_flag_masks(opcode: u8)
    ensures
        flag_masks_ok(decode(opcode).0),
{
    assert(CARRY & 0x30 == 0) by (bit_vector);
    assert(INTERRUPT_DISABLE & 0x30 == 0) by (bit_vector);
    assert(OVERFLOW & 0x30 == 0) by (bit_vector);
    assert(DECIMAL_MODE & 0x30 == 0) by (bit_vector);
}

#[verifier::spinoff_prover]
#[verifier::rlimit(60)]
proof fn lemma_executed_keeps_live_status<M: Memory>(s: CpuState<M::Model>, op: Op, mode: Mode, o: Operand)
    requires
        live_status(s.regs.status.bits),
        flag_masks_ok(op),
    ensures
        live_status(Cpu::<M>::executed(s, op, mode, o).regs.status.bits),
{
    broadcast use lemma_with_flag_keeps_b_and_u;
    assert(ZERO_RESULT & 0x30 == 0 && NEGATIVE_RESULT & 0x30 == 0 && CARRY & 0x30 == 0
        && OVERFLOW & 0x30 == 0) by (bit_vector);
    match op {
        Op::Plp | Op::Rti => {
            assert(forall|v: u8| #![auto] ((v & !BREAK_COMMAND) | EXPANSION) & 0x30 == 0x20) by (bit_vector);
        },
        Op::Brk => {
            assert(forall|p: u8| #![auto] (p | INTERRUPT_DISABLE) & 0x30 == p & 0x30) by (bit_vector);
        },
        Op::Adc | Op::Sbc | Op::Rra | Op::Isc => {},
        Op::Arr | Op::Anc | Op::Alr | Op::Axs | Op::Bit => {},
        Op::Asl | Op::Lsr | Op::Rol | Op::Ror | Op::Slo | Op::Rla | Op::Sre => {},
        Op::Cmp | Op::Cpx | Op::Cpy | Op::Dcp => {},
        _ => {},
    }
}

/// Every step leaves the live status register with U set and B clear.
pub proof fn lemma_step_keeps_live_status<M: Memory>(s: CpuState<M::Model>)
    requires
        live_status(s.regs.status.bits),
    ensures
        live_status(Cpu::<M>::stepped(s).regs.status.bits),
{
    let s0 = Cpu::<M>::interrupted(s);
    assert(forall|p: u8| #![auto] (p | INTERRUPT_DISABLE) & 0x30 == p & 0x30) by (bit_vector);
    assert(live_status(s0.regs.status.bits));
    let opcode = Cpu::<M>::read(s0, s0.regs.pc);
    let (op, mode) = decode(opcode);
    lemma_decode_flag_masks(opcode);
    let s1 = Cpu::<M>::with_pc(s0, wrap16(s0.regs.pc + 1));
    let o = Cpu::<M>::operand(s1, mode);
    lemma_executed_keeps_live_status::<M>(Cpu::<M>::with_pc(s1, o.next_pc), op, mode, o);
}

} // verus!
