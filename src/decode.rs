use vstd::prelude::*;
use crate::status::{CARRY, DECIMAL_MODE, INTERRUPT_DISABLE, NEGATIVE_RESULT, OVERFLOW, ZERO_RESULT};

verus! {

/// How an instruction finds its operand.
#[derive(Clone, Copy, Debug, PartialEq, Eq, Structural)]
pub enum Mode {
    Implied,
    Accumulator,
    Immediate,
    ZeroPage,
    ZeroPageX,
    ZeroPageY,
    Absolute,
    AbsoluteX,
    AbsoluteY,
    Indirect,
    IndexedIndirect,
    IndirectIndexed,
    Relative,
}

/// The operation of an instruction, official and unofficial.
/// `Flag(mask, value)` sets or clears a status bit; `Branch(mask, value)`
/// branches when the status bit equals `value`.
#[derive(Clone, Copy, Debug, PartialEq, Eq, Structural)]
pub enum Op {
    Lda, Ldx, Ldy, Lax, Las, Lxa,
    Sta, Stx, Sty, Sax, Shy, Shx, Ahx, Tas,
    Ora, And, Eor, Adc, Sbc, Cmp, Cpx, Cpy, Bit,
    Asl, Lsr, Rol, Ror, Inc, Dec,
    Slo, Rla, Sre, Rra, Dcp, Isc,
    Anc, Alr, Arr, Xaa, Axs,
    Flag(u8, bool),
    Tax, Txa, Tay, Tya, Tsx, Txs, Inx, Iny, Dex, Dey,
    Pha, Php, Pla, Plp,
    Jmp, Jsr, Rts, Rti, Brk,
    Branch(u8, bool),
    Nop, Jam,
}

pub open spec fn group_mode(bbb: u8) -> Mode {
    if bbb == 0 { Mode::IndexedIndirect }
    else if bbb == 1 { Mode::ZeroPage }
    else if bbb == 2 { Mode::Immediate }
    else if bbb == 3 { Mode::Absolute }
    else if bbb == 4 { Mode::IndirectIndexed }
    else if bbb == 5 { Mode::ZeroPageX }
    else if bbb == 6 { Mode::AbsoluteY }
    else { Mode::AbsoluteX }
}

/// The `aaa`-th of eight operations.
pub open spec fn pick(aaa: u8, o0: Op, o1: Op, o2: Op, o3: Op, o4: Op, o5: Op, o6: Op, o7: Op) -> Op {
    if aaa == 0 { o0 }
    else if aaa == 1 { o1 }
    else if aaa == 2 { o2 }
    else if aaa == 3 { o3 }
    else if aaa == 4 { o4 }
    else if aaa == 5 { o5 }
    else if aaa == 6 { o6 }
    else { o7 }
}

pub open spec fn decode_alu(aaa: u8, bbb: u8) -> (Op, Mode) {
    if aaa == 4 && bbb == 2 {
        (Op::Nop, Mode::Immediate)
    } else {
        (pick(aaa, Op::Ora, Op::And, Op::Eor, Op::Adc, Op::Sta, Op::Lda, Op::Cmp, Op::Sbc), group_mode(bbb))
    }
}

pub open spec fn decode_combined(aaa: u8, bbb: u8) -> (Op, Mode) {
    if bbb == 2 {
        (pick(aaa, Op::Anc, Op::Anc, Op::Alr, Op::Arr, Op::Xaa, Op::Lxa, Op::Axs, Op::Sbc), Mode::Immediate)
    } else if aaa == 4 && bbb == 4 {
        (Op::Ahx, Mode::IndirectIndexed)
    } else if aaa == 4 && bbb == 6 {
        (Op::Tas, Mode::AbsoluteY)
    } else if aaa == 4 && bbb == 7 {
        (Op::Ahx, Mode::AbsoluteY)
    } else if aaa == 5 && bbb == 6 {
        (Op::Las, Mode::AbsoluteY)
    } else {
        let op = pick(aaa, Op::Slo, Op::Rla, Op::Sre, Op::Rra, Op::Sax, Op::Lax, Op::Dcp, Op::Isc);
        let mode = group_mode(bbb);
        if (aaa == 4 || aaa == 5) && mode == Mode::ZeroPageX {
            (op, Mode::ZeroPageY)
        } else if aaa == 5 && mode == Mode::AbsoluteX {
            (op, Mode::AbsoluteY)
        } else {
            (op, mode)
        }
    }
}

pub open spec fn decode_shift(aaa: u8, bbb: u8) -> (Op, Mode) {
    let op = pick(aaa, Op::Asl, Op::Rol, Op::Lsr, Op::Ror, Op::Stx, Op::Ldx, Op::Dec, Op::Inc);
    if bbb == 0 {
        if aaa == 5 { (Op::Ldx, Mode::Immediate) }
        else if aaa < 4 { (Op::Jam, Mode::Implied) }
        else { (Op::Nop, Mode::Immediate) }
    } else if bbb == 1 {
        (op, Mode::ZeroPage)
    } else if bbb == 2 {
        if aaa < 4 { (op, Mode::Accumulator) }
        else { (pick(aaa, Op::Nop, Op::Nop, Op::Nop, Op::Nop, Op::Txa, Op::Tax, Op::Dex, Op::Nop), Mode::Implied) }
    } else if bbb == 3 {
        (op, Mode::Absolute)
    } else if bbb == 4 {
        (Op::Jam, Mode::Implied)
    } else if bbb == 5 {
        (op, if aaa == 4 || aaa == 5 { Mode::ZeroPageY } else { Mode::ZeroPageX })
    } else if bbb == 6 {
        (if aaa == 4 { Op::Txs } else if aaa == 5 { Op::Tsx } else { Op::Nop }, Mode::Implied)
    } else {
        if aaa == 4 { (Op::Shx, Mode::AbsoluteY) }
        else if aaa == 5 { (Op::Ldx, Mode::AbsoluteY) }
        else { (op, Mode::AbsoluteX) }
    }
}

pub open spec fn flag_of_pair(pair: u8) -> u8 {
    if pair == 0 { NEGATIVE_RESULT }
    else if pair == 1 { OVERFLOW }
    else if pair == 2 { CARRY }
    else { ZERO_RESULT }
}

pub open spec fn decode_control(aaa: u8, bbb: u8) -> (Op, Mode) {
    if bbb == 0 {
        if aaa == 0 { (Op::Brk, Mode::Implied) }
        else if aaa == 1 { (Op::Jsr, Mode::Absolute) }
        else if aaa == 2 { (Op::Rti, Mode::Implied) }
        else if aaa == 3 { (Op::Rts, Mode::Implied) }
        else { (pick(aaa, Op::Nop, Op::Nop, Op::Nop, Op::Nop, Op::Nop, Op::Ldy, Op::Cpy, Op::Cpx), Mode::Immediate) }
    } else if bbb == 1 {
        (pick(aaa, Op::Nop, Op::Bit, Op::Nop, Op::Nop, Op::Sty, Op::Ldy, Op::Cpy, Op::Cpx), Mode::ZeroPage)
    } else if bbb == 2 {
        (pick(aaa, Op::Php, Op::Plp, Op::Pha, Op::Pla, Op::Dey, Op::Tay, Op::Iny, Op::Inx), Mode::Implied)
    } else if bbb == 3 {
        if aaa == 3 { (Op::Jmp, Mode::Indirect) }
        else { (pick(aaa, Op::Nop, Op::Bit, Op::Jmp, Op::Jmp, Op::Sty, Op::Ldy, Op::Cpy, Op::Cpx), Mode::Absolute) }
    } else if bbb == 4 {
        (Op::Branch(flag_of_pair(aaa / 2), aaa % 2 == 1), Mode::Relative)
    } else if bbb == 5 {
        (if aaa == 4 { Op::Sty } else if aaa == 5 { Op::Ldy } else { Op::Nop }, Mode::ZeroPageX)
    } else if bbb == 6 {
        if aaa == 4 { (Op::Tya, Mode::Implied) }
        else if aaa == 5 { (Op::Flag(OVERFLOW, false), Mode::Implied) }
        else if aaa < 2 { (Op::Flag(CARRY, aaa == 1), Mode::Implied) }
        else if aaa < 4 { (Op::Flag(INTERRUPT_DISABLE, aaa == 3), Mode::Implied) }
        else { (Op::Flag(DECIMAL_MODE, aaa == 7), Mode::Implied) }
    } else {
        if aaa == 4 { (Op::Shy, Mode::AbsoluteX) }
        else if aaa == 5 { (Op::Ldy, Mode::AbsoluteX) }
        else { (Op::Nop, Mode::AbsoluteX) }
    }
}

/// The operation and addressing mode of an opcode: bits 0-1 select the
/// group, bits 5-7 the operation within it and bits 2-4 the mode.
pub open spec fn decode(op: u8) -> (Op, Mode) {
    let aaa = op / 32;
    let bbb = (op / 4) % 8;
    let cc = op % 4;
    if cc == 0 { decode_control(aaa, bbb) }
    else if cc == 1 { decode_alu(aaa, bbb) }
    else if cc == 2 { decode_shift(aaa, bbb) }
    else { decode_combined(aaa, bbb) }
}

pub open spec fn is_store(op: Op) -> bool {
    matches!(op, Op::Sta | Op::Stx | Op::Sty | Op::Sax | Op::Shy | Op::Shx | Op::Ahx | Op::Tas)
}

pub open spec fn is_read_modify_write(op: Op) -> bool {
    matches!(op, Op::Asl | Op::Lsr | Op::Rol | Op::Ror | Op::Inc | Op::Dec
        | Op::Slo | Op::Rla | Op::Sre | Op::Rra | Op::Dcp | Op::Isc)
}

/// Operations that read their operand and pay a cycle when indexing crosses a page.
pub open spec fn is_read(op: Op) -> bool {
    matches!(op, Op::Lda | Op::Ldx | Op::Ldy | Op::Lax | Op::Las | Op::Lxa
        | Op::Ora | Op::And | Op::Eor | Op::Adc | Op::Sbc | Op::Cmp | Op::Cpx | Op::Cpy
        | Op::Bit | Op::Nop)
}

/// Cycles an instruction takes before page-crossing and branch penalties.
pub open spec fn base_cycles(op: Op, mode: Mode) -> u8 {
    match op {
        Op::Brk => 7,
        Op::Jsr | Op::Rts | Op::Rti => 6,
        Op::Pha | Op::Php => 3,
        Op::Pla | Op::Plp => 4,
        Op::Jmp => if mode == Mode::Indirect { 5 } else { 3 },
        _ => if is_store(op) {
            match mode {
                Mode::ZeroPage => 3,
                Mode::ZeroPageX | Mode::ZeroPageY | Mode::Absolute => 4,
                Mode::AbsoluteX | Mode::AbsoluteY => 5,
                _ => 6,
            }
        } else if is_read_modify_write(op) {
            match mode {
                Mode::Accumulator => 2,
                Mode::ZeroPage => 5,
                Mode::ZeroPageX | Mode::Absolute => 6,
                Mode::AbsoluteX | Mode::AbsoluteY => 7,
                _ => 8,
            }
        } else {
            match mode {
                Mode::ZeroPage => 3,
                Mode::ZeroPageX | Mode::ZeroPageY | Mode::Absolute
                | Mode::AbsoluteX | Mode::AbsoluteY => 4,
                Mode::IndexedIndirect => 6,
                Mode::IndirectIndexed => 5,
                _ => 2,
            }
        },
    }
}

// Executable forms of the tables above, each proved equal to its spec.

pub fn mode_of_group(bbb: u8) -> (r: Mode)
    ensures
        r == group_mode(bbb),
{
    if bbb == 0 { Mode::IndexedIndirect }
    else if bbb == 1 { Mode::ZeroPage }
    else if bbb == 2 { Mode::Immediate }
    else if bbb == 3 { Mode::Absolute }
    else if bbb == 4 { Mode::IndirectIndexed }
    else if bbb == 5 { Mode::ZeroPageX }
    else if bbb == 6 { Mode::AbsoluteY }
    else { Mode::AbsoluteX }
}

/// The `aaa`-th of eight operations.
pub fn pick_op(aaa: u8, o0: Op, o1: Op, o2: Op, o3: Op, o4: Op, o5: Op, o6: Op, o7: Op) -> (r: Op)
    ensures
        r == pick(aaa, o0, o1, o2, o3, o4, o5, o6, o7),
{
    if aaa == 0 { o0 }
    else if aaa == 1 { o1 }
    else if aaa == 2 { o2 }
    else if aaa == 3 { o3 }
    else if aaa == 4 { o4 }
    else if aaa == 5 { o5 }
    else if aaa == 6 { o6 }
    else { o7 }
}

pub fn alu_entry(aaa: u8, bbb: u8) -> (r: (Op, Mode))
    ensures
        r == decode_alu(aaa, bbb),
{
    if aaa == 4 && bbb == 2 {
        (Op::Nop, Mode::Immediate)
    } else {
        (pick_op(aaa, Op::Ora, Op::And, Op::Eor, Op::Adc, Op::Sta, Op::Lda, Op::Cmp, Op::Sbc), mode_of_group(bbb))
    }
}

pub fn combined_entry(aaa: u8, bbb: u8) -> (r: (Op, Mode))
    ensures
        r == decode_combined(aaa, bbb),
{
    if bbb == 2 {
        (pick_op(aaa, Op::Anc, Op::Anc, Op::Alr, Op::Arr, Op::Xaa, Op::Lxa, Op::Axs, Op::Sbc), Mode::Immediate)
    } else if aaa == 4 && bbb == 4 {
        (Op::Ahx, Mode::IndirectIndexed)
    } else if aaa == 4 && bbb == 6 {
        (Op::Tas, Mode::AbsoluteY)
    } else if aaa == 4 && bbb == 7 {
        (Op::Ahx, Mode::AbsoluteY)
    } else if aaa == 5 && bbb == 6 {
        (Op::Las, Mode::AbsoluteY)
    } else {
        let op = pick_op(aaa, Op::Slo, Op::Rla, Op::Sre, Op::Rra, Op::Sax, Op::Lax, Op::Dcp, Op::Isc);
        let mode = mode_of_group(bbb);
        if (aaa == 4 || aaa == 5) && mode == Mode::ZeroPageX {
            (op, Mode::ZeroPageY)
        } else if aaa == 5 && mode == Mode::AbsoluteX {
            (op, Mode::AbsoluteY)
        } else {
            (op, mode)
        }
    }
}

pub fn shift_entry(aaa: u8, bbb: u8) -> (r: (Op, Mode))
    ensures
        r == decode_shift(aaa, bbb),
{
    let op = pick_op(aaa, Op::Asl, Op::Rol, Op::Lsr, Op::Ror, Op::Stx, Op::Ldx, Op::Dec, Op::Inc);
    if bbb == 0 {
        if aaa == 5 { (Op::Ldx, Mode::Immediate) }
        else if aaa < 4 { (Op::Jam, Mode::Implied) }
        else { (Op::Nop, Mode::Immediate) }
    } else if bbb == 1 {
        (op, Mode::ZeroPage)
    } else if bbb == 2 {
        if aaa < 4 { (op, Mode::Accumulator) }
        else { (pick_op(aaa, Op::Nop, Op::Nop, Op::Nop, Op::Nop, Op::Txa, Op::Tax, Op::Dex, Op::Nop), Mode::Implied) }
    } else if bbb == 3 {
        (op, Mode::Absolute)
    } else if bbb == 4 {
        (Op::Jam, Mode::Implied)
    } else if bbb == 5 {
        (op, if aaa == 4 || aaa == 5 { Mode::ZeroPageY } else { Mode::ZeroPageX })
    } else if bbb == 6 {
        (if aaa == 4 { Op::Txs } else if aaa == 5 { Op::Tsx } else { Op::Nop }, Mode::Implied)
    } else {
        if aaa == 4 { (Op::Shx, Mode::AbsoluteY) }
        else if aaa == 5 { (Op::Ldx, Mode::AbsoluteY) }
        else { (op, Mode::AbsoluteX) }
    }
}

pub fn branch_flag(pair: u8) -> (r: u8)
    ensures
        r == flag_of_pair(pair),
{
    if pair == 0 { NEGATIVE_RESULT }
    else if pair == 1 { OVERFLOW }
    else if pair == 2 { CARRY }
    else { ZERO_RESULT }
}

pub fn control_entry(aaa: u8, bbb: u8) -> (r: (Op, Mode))
    ensures
        r == decode_control(aaa, bbb),
{
    if bbb == 0 {
        if aaa == 0 { (Op::Brk, Mode::Implied) }
        else if aaa == 1 { (Op::Jsr, Mode::Absolute) }
        else if aaa == 2 { (Op::Rti, Mode::Implied) }
        else if aaa == 3 { (Op::Rts, Mode::Implied) }
        else { (pick_op(aaa, Op::Nop, Op::Nop, Op::Nop, Op::Nop, Op::Nop, Op::Ldy, Op::Cpy, Op::Cpx), Mode::Immediate) }
    } else if bbb == 1 {
        (pick_op(aaa, Op::Nop, Op::Bit, Op::Nop, Op::Nop, Op::Sty, Op::Ldy, Op::Cpy, Op::Cpx), Mode::ZeroPage)
    } else if bbb == 2 {
        (pick_op(aaa, Op::Php, Op::Plp, Op::Pha, Op::Pla, Op::Dey, Op::Tay, Op::Iny, Op::Inx), Mode::Implied)
    } else if bbb == 3 {
        if aaa == 3 { (Op::Jmp, Mode::Indirect) }
        else { (pick_op(aaa, Op::Nop, Op::Bit, Op::Jmp, Op::Jmp, Op::Sty, Op::Ldy, Op::Cpy, Op::Cpx), Mode::Absolute) }
    } else if bbb == 4 {
        (Op::Branch(branch_flag(aaa / 2), aaa % 2 == 1), Mode::Relative)
    } else if bbb == 5 {
        (if aaa == 4 { Op::Sty } else if aaa == 5 { Op::Ldy } else { Op::Nop }, Mode::ZeroPageX)
    } else if bbb == 6 {
        if aaa == 4 { (Op::Tya, Mode::Implied) }
        else if aaa == 5 { (Op::Flag(OVERFLOW, false), Mode::Implied) }
        else if aaa < 2 { (Op::Flag(CARRY, aaa == 1), Mode::Implied) }
        else if aaa < 4 { (Op::Flag(INTERRUPT_DISABLE, aaa == 3), Mode::Implied) }
        else { (Op::Flag(DECIMAL_MODE, aaa == 7), Mode::Implied) }
    } else {
        if aaa == 4 { (Op::Shy, Mode::AbsoluteX) }
        else if aaa == 5 { (Op::Ldy, Mode::AbsoluteX) }
        else { (Op::Nop, Mode::AbsoluteX) }
    }
}

/// The operation and addressing mode of an opcode: bits 0-1 select the
/// group, bits 5-7 the operation within it and bits 2-4 the mode.
pub fn decode_opcode(op: u8) -> (r: (Op, Mode))
    ensures
        r == decode(op),
{
    let aaa = op / 32;
    let bbb = (op / 4) % 8;
    let cc = op % 4;
    if cc == 0 { control_entry(aaa, bbb) }
    else if cc == 1 { alu_entry(aaa, bbb) }
    else if cc == 2 { shift_entry(aaa, bbb) }
    else { combined_entry(aaa, bbb) }
}

pub fn stores(op: Op) -> (r: bool)
    ensures
        r == is_store(op),
{
    matches!(op, Op::Sta | Op::Stx | Op::Sty | Op::Sax | Op::Shy | Op::Shx | Op::Ahx | Op::Tas)
}

pub fn modifies(op: Op) -> (r: bool)
    ensures
        r == is_read_modify_write(op),
{
    matches!(op, Op::Asl | Op::Lsr | Op::Rol | Op::Ror | Op::Inc | Op::Dec
        | Op::Slo | Op::Rla | Op::Sre | Op::Rra | Op::Dcp | Op::Isc)
}

/// Operations that read their operand and pay a cycle when indexing crosses a page.
pub fn reads_operand(op: Op) -> (r: bool)
    ensures
        r == is_read(op),
{
    matches!(op, Op::Lda | Op::Ldx | Op::Ldy | Op::Lax | Op::Las | Op::Lxa
        | Op::Ora | Op::And | Op::Eor | Op::Adc | Op::Sbc | Op::Cmp | Op::Cpx | Op::Cpy
        | Op::Bit | Op::Nop)
}

/// Cycles an instruction takes before page-crossing and branch penalties.
pub fn cycles_of(op: Op, mode: Mode) -> (r: u8)
    ensures
        r == base_cycles(op, mode),
{
    match op {
        Op::Brk => 7,
        Op::Jsr | Op::Rts | Op::Rti => 6,
        Op::Pha | Op::Php => 3,
        Op::Pla | Op::Plp => 4,
        Op::Jmp => if mode == Mode::Indirect { 5 } else { 3 },
        _ => if stores(op) {
            match mode {
                Mode::ZeroPage => 3,
                Mode::ZeroPageX | Mode::ZeroPageY | Mode::Absolute => 4,
                Mode::AbsoluteX | Mode::AbsoluteY => 5,
                _ => 6,
            }
        } else if modifies(op) {
            match mode {
                Mode::Accumulator => 2,
                Mode::ZeroPage => 5,
                Mode::ZeroPageX | Mode::Absolute => 6,
                Mode::AbsoluteX | Mode::AbsoluteY => 7,
                _ => 8,
            }
        } else {
            match mode {
                Mode::ZeroPage => 3,
                Mode::ZeroPageX | Mode::ZeroPageY | Mode::Absolute
                | Mode::AbsoluteX | Mode::AbsoluteY => 4,
                Mode::IndexedIndirect => 6,
                Mode::IndirectIndexed => 5,
                _ => 2,
            }
        },
    }
}

} // verus!
