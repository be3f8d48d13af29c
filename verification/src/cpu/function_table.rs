use vstd::prelude::*;

verus! {

/// The instructions that take no operand through the table (they find their
/// operands themselves).
#[derive(Clone, Copy, PartialEq, Eq, Structural, Debug)]
pub enum CPUFunct {
    Nop,
    IncR8,
    DecR8,
    AddHl,
    Cpl,
    Ccf,
    Scf,
    JrImm,
    Stop,
    Halt,
    Ret,
    Reti,
    JpCondImm,
    Call,
    Rst,
    Pop,
    Push,
    CbBlock,
    AddSpImm8,
    LdHlImm8,
    Di,
    Ei,
}

/// The operations of the accumulator with an operand.
#[derive(Clone, Copy, PartialEq, Eq, Structural, Debug)]
pub enum Alu8Function {
    Add,
    Adc,
    Sub,
    Subc,
    And,
    Xor,
    Or,
    Cp,
}

/// The operations on one 8-bit register.
#[derive(Clone, Copy, PartialEq, Eq, Structural, Debug)]
pub enum Alu8SelfFunction {
    Rlc,
    Rrc,
    Rl,
    Rr,
    Daa,
    Sla,
    Sra,
    Swap,
    Srl,
    Bit,
    Res,
    SetBit,
}

/// The operations on one 16-bit register.
#[derive(Clone, Copy, PartialEq, Eq, Structural, Debug)]
pub enum Alu16SelfFunction {
    IncR16,
    DecR16,
}

/// What an opcode does: a load with its source and destination, an
/// arithmetic operation with where it takes its operand, another
/// instruction, or an instruction that runs only when its condition holds
/// (otherwise the program counter advances by the given amount).
#[derive(Clone, Copy, PartialEq, Eq, Structural, Debug)]
pub enum CPUFn {
    Ld8(Src8, Dest8),
    Ld16(Src16, Dest16),
    ALU8(Alu8Function),
    ALU8Self(Alu8SelfFunction),
    ALU16Self(Alu16SelfFunction),
    Other(CPUFunct),
    Cond(CPUFunct, u8),
}

#[derive(Clone, Copy, PartialEq, Eq, Structural, Debug)]
pub enum Src16 {
    Imm16,
    HL,
    SP,
}

#[derive(Clone, Copy, PartialEq, Eq, Structural, Debug)]
pub enum Dest16 {
    R16,
    PC,
    SP,
    HL,
}

#[derive(Clone, Copy, PartialEq, Eq, Structural, Debug)]
pub enum Src8 {
    Imm16Mem,
    Imm8,
    HighBank,
    Acc,
    R8Mid,
    R8,
    HighC,
    R16Mem,
}

#[derive(Clone, Copy, PartialEq, Eq, Structural, Debug)]
pub enum Dest8 {
    R8,
    Imm16Mem,
    Imm8High,
    Acc,
    R16Mem,
    HighC,
}

/// A row of an opcode table: an opcode `op` is this row's when
/// `op & mask == value`; `wait` is the cycles it costs.
#[derive(Clone, Copy, PartialEq, Eq, Structural, Debug)]
pub struct FunFind {
    pub mask: u8,
    pub value: u8,
    pub fun: CPUFn,
    pub wait: u8,
}

/// The opcode table of the unprefixed instructions, in search order.
pub open spec fn function_table() -> Seq<FunFind> {
    seq![
        FunFind { mask: 0xff, value: 0x00, fun: CPUFn::Other(CPUFunct::Nop), wait: 1 },
        FunFind { mask: 0xcf, value: 0x01, fun: CPUFn::Ld16(Src16::Imm16, Dest16::R16), wait: 3 },
        FunFind { mask: 0xcf, value: 0x02, fun: CPUFn::Ld8(Src8::Acc, Dest8::R16Mem), wait: 2 },
        FunFind { mask: 0xcf, value: 0x03, fun: CPUFn::ALU16Self(Alu16SelfFunction::IncR16), wait: 2 },
        FunFind { mask: 0xc7, value: 0x04, fun: CPUFn::Other(CPUFunct::IncR8), wait: 0 },
        FunFind { mask: 0xc7, value: 0x05, fun: CPUFn::Other(CPUFunct::DecR8), wait: 0 },
        FunFind { mask: 0xc7, value: 0x06, fun: CPUFn::Ld8(Src8::Imm8, Dest8::R8), wait: 2 },
        FunFind { mask: 0xff, value: 0x07, fun: CPUFn::ALU8Self(Alu8SelfFunction::Rlc), wait: 1 },
        FunFind { mask: 0xff, value: 0x08, fun: CPUFn::Ld16(Src16::Imm16, Dest16::SP), wait: 1 },
        FunFind { mask: 0xcf, value: 0x09, fun: CPUFn::Other(CPUFunct::AddHl), wait: 2 },
        FunFind { mask: 0xcf, value: 0x0a, fun: CPUFn::Ld8(Src8::R16Mem, Dest8::Acc), wait: 1 },
        FunFind { mask: 0xcf, value: 0x0b, fun: CPUFn::ALU16Self(Alu16SelfFunction::DecR16), wait: 2 },
        FunFind { mask: 0xff, value: 0x0f, fun: CPUFn::ALU8Self(Alu8SelfFunction::Rrc), wait: 0 },
        FunFind { mask: 0xff, value: 0x1f, fun: CPUFn::ALU8Self(Alu8SelfFunction::Rr), wait: 0 },
        FunFind { mask: 0xff, value: 0x2f, fun: CPUFn::Other(CPUFunct::Cpl), wait: 0 },
        FunFind { mask: 0xff, value: 0x3f, fun: CPUFn::Other(CPUFunct::Ccf), wait: 0 },
        FunFind { mask: 0xff, value: 0x17, fun: CPUFn::ALU8Self(Alu8SelfFunction::Rl), wait: 0 },
        FunFind { mask: 0xff, value: 0x18, fun: CPUFn::Other(CPUFunct::JrImm), wait: 3 },
        FunFind { mask: 0xe7, value: 0x20, fun: CPUFn::Cond(CPUFunct::JrImm, 1), wait: 3 },
        FunFind { mask: 0xff, value: 0x27, fun: CPUFn::ALU8Self(Alu8SelfFunction::Daa), wait: 1 },
        FunFind { mask: 0xff, value: 0x37, fun: CPUFn::Other(CPUFunct::Scf), wait: 1 },
        FunFind { mask: 0xff, value: 0x10, fun: CPUFn::Other(CPUFunct::Stop), wait: 0 },
        FunFind { mask: 0xff, value: 0x76, fun: CPUFn::Other(CPUFunct::Halt), wait: 0 },
        FunFind { mask: 0xc0, value: 0x40, fun: CPUFn::Ld8(Src8::R8, Dest8::R8), wait: 0 },
        FunFind { mask: 0xf8, value: 0x80, fun: CPUFn::ALU8(Alu8Function::Add), wait: 0 },
        FunFind { mask: 0xf8, value: 0x88, fun: CPUFn::ALU8(Alu8Function::Adc), wait: 0 },
        FunFind { mask: 0xf8, value: 0x90, fun: CPUFn::ALU8(Alu8Function::Sub), wait: 0 },
        FunFind { mask: 0xf8, value: 0x98, fun: CPUFn::ALU8(Alu8Function::Subc), wait: 0 },
        FunFind { mask: 0xf8, value: 0xa0, fun: CPUFn::ALU8(Alu8Function::And), wait: 0 },
        FunFind { mask: 0xf8, value: 0xa8, fun: CPUFn::ALU8(Alu8Function::Xor), wait: 1 },
        FunFind { mask: 0xf8, value: 0xb0, fun: CPUFn::ALU8(Alu8Function::Or), wait: 1 },
        FunFind { mask: 0xf8, value: 0xb8, fun: CPUFn::ALU8(Alu8Function::Cp), wait: 1 },
        FunFind { mask: 0xff, value: 0xc6, fun: CPUFn::ALU8(Alu8Function::Add), wait: 1 },
        FunFind { mask: 0xff, value: 0xce, fun: CPUFn::ALU8(Alu8Function::Adc), wait: 1 },
        FunFind { mask: 0xff, value: 0xd6, fun: CPUFn::ALU8(Alu8Function::Sub), wait: 1 },
        FunFind { mask: 0xff, value: 0xde, fun: CPUFn::ALU8(Alu8Function::Subc), wait: 1 },
        FunFind { mask: 0xff, value: 0xe6, fun: CPUFn::ALU8(Alu8Function::And), wait: 1 },
        FunFind { mask: 0xff, value: 0xee, fun: CPUFn::ALU8(Alu8Function::Xor), wait: 1 },
        FunFind { mask: 0xff, value: 0xf6, fun: CPUFn::ALU8(Alu8Function::Or), wait: 1 },
        FunFind { mask: 0xff, value: 0xfe, fun: CPUFn::ALU8(Alu8Function::Cp), wait: 1 },
        FunFind { mask: 0xe7, value: 0xc0, fun: CPUFn::Cond(CPUFunct::Ret, 0), wait: 5 },
        FunFind { mask: 0xff, value: 0xc9, fun: CPUFn::Other(CPUFunct::Ret), wait: 4 },
        FunFind { mask: 0xff, value: 0xd9, fun: CPUFn::Other(CPUFunct::Reti), wait: 4 },
        FunFind { mask: 0xe7, value: 0xc2, fun: CPUFn::Other(CPUFunct::JpCondImm), wait: 3 },
        FunFind { mask: 0xff, value: 0xc3, fun: CPUFn::Ld16(Src16::Imm16, Dest16::PC), wait: 4 },
        FunFind { mask: 0xff, value: 0xe9, fun: CPUFn::Ld16(Src16::HL, Dest16::PC), wait: 1 },
        FunFind { mask: 0xe7, value: 0xc4, fun: CPUFn::Cond(CPUFunct::Call, 2), wait: 6 },
        FunFind { mask: 0xff, value: 0xcd, fun: CPUFn::Other(CPUFunct::Call), wait: 6 },
        FunFind { mask: 0xc7, value: 0xc7, fun: CPUFn::Other(CPUFunct::Rst), wait: 4 },
        FunFind { mask: 0xcf, value: 0xc1, fun: CPUFn::Other(CPUFunct::Pop), wait: 3 },
        FunFind { mask: 0xcf, value: 0xc5, fun: CPUFn::Other(CPUFunct::Push), wait: 4 },
        FunFind { mask: 0xff, value: 0xcb, fun: CPUFn::Other(CPUFunct::CbBlock), wait: 1 },
        FunFind { mask: 0xff, value: 0xe2, fun: CPUFn::Ld8(Src8::Acc, Dest8::HighC), wait: 1 },
        FunFind { mask: 0xff, value: 0xe0, fun: CPUFn::Ld8(Src8::Acc, Dest8::Imm8High), wait: 2 },
        FunFind { mask: 0xff, value: 0xea, fun: CPUFn::Ld8(Src8::Acc, Dest8::Imm16Mem), wait: 3 },
        FunFind { mask: 0xff, value: 0xf0, fun: CPUFn::Ld8(Src8::HighBank, Dest8::Acc), wait: 2 },
        FunFind { mask: 0xff, value: 0xf2, fun: CPUFn::Ld8(Src8::HighC, Dest8::Acc), wait: 1 },
        FunFind { mask: 0xff, value: 0xfa, fun: CPUFn::Ld8(Src8::Imm16Mem, Dest8::Acc), wait: 3 },
        FunFind { mask: 0xff, value: 0xe8, fun: CPUFn::Other(CPUFunct::AddSpImm8), wait: 4 },
        FunFind { mask: 0xff, value: 0xf8, fun: CPUFn::Other(CPUFunct::LdHlImm8), wait: 3 },
        FunFind { mask: 0xff, value: 0xf9, fun: CPUFn::Ld16(Src16::SP, Dest16::HL), wait: 2 },
        FunFind { mask: 0xff, value: 0xf3, fun: CPUFn::Other(CPUFunct::Di), wait: 1 },
        FunFind { mask: 0xff, value: 0xfb, fun: CPUFn::Other(CPUFunct::Ei), wait: 1 },
    ]
}

/// The opcode table of the instructions after the 0xCB prefix, in search order.
pub open spec fn cb_block_table() -> Seq<FunFind> {
    seq![
        FunFind { mask: 0xf8, value: 0x00, fun: CPUFn::ALU8Self(Alu8SelfFunction::Rlc), wait: 2 },
        FunFind { mask: 0xf8, value: 0x08, fun: CPUFn::ALU8Self(Alu8SelfFunction::Rrc), wait: 2 },
        FunFind { mask: 0xf8, value: 0x10, fun: CPUFn::ALU8Self(Alu8SelfFunction::Rl), wait: 2 },
        FunFind { mask: 0xf8, value: 0x18, fun: CPUFn::ALU8Self(Alu8SelfFunction::Rr), wait: 2 },
        FunFind { mask: 0xf8, value: 0x20, fun: CPUFn::ALU8Self(Alu8SelfFunction::Sla), wait: 2 },
        FunFind { mask: 0xf8, value: 0x28, fun: CPUFn::ALU8Self(Alu8SelfFunction::Sra), wait: 2 },
        FunFind { mask: 0xf8, value: 0x30, fun: CPUFn::ALU8Self(Alu8SelfFunction::Swap), wait: 2 },
        FunFind { mask: 0xf8, value: 0x38, fun: CPUFn::ALU8Self(Alu8SelfFunction::Srl), wait: 2 },
        FunFind { mask: 0xc0, value: 0x40, fun: CPUFn::ALU8Self(Alu8SelfFunction::Bit), wait: 2 },
        FunFind { mask: 0xc0, value: 0x80, fun: CPUFn::ALU8Self(Alu8SelfFunction::Res), wait: 2 },
        FunFind { mask: 0xc0, value: 0x90, fun: CPUFn::ALU8Self(Alu8SelfFunction::SetBit), wait: 2 },
    ]
}

/// The index of the first row of `table` that `op` matches, or the length
/// of `table` when none does.
pub open spec fn first_match(table: Seq<FunFind>, op: u8) -> int
    decreases table.len(),
{
    if table.len() == 0 {
        0
    } else if op & table[0].mask == table[0].value {
        0
    } else {
        1 + first_match(table.drop_first(), op)
    }
}

impl FunFind {
    pub fn fun_find(mask: u8, value: u8, fun: CPUFn, wait: u8) -> (r: Self)
        ensures
            r == (FunFind { mask, value, fun, wait }),
    {
        Self { mask, value, fun, wait }
    }

    /// The unprefixed opcode table (see `function_table`).
    pub fn function_lookup() -> (r: [FunFind; 63])
        ensures
            r@ == function_table(),
    {
        let r = [
            //Block 1,
            FunFind::fun_find(0xff, 0x00, CPUFn::Other(CPUFunct::Nop), 1),
            FunFind::fun_find(0xcf, 0x01, CPUFn::Ld16(Src16::Imm16, Dest16::R16), 3),
            FunFind::fun_find(0xcf, 0x02, CPUFn::Ld8(Src8::Acc, Dest8::R16Mem), 2),
            FunFind::fun_find(0xcf, 0x03, CPUFn::ALU16Self(Alu16SelfFunction::IncR16), 2),
            FunFind::fun_find(0xc7, 0x04, CPUFn::Other(CPUFunct::IncR8), 0),
            FunFind::fun_find(0xc7, 0x05, CPUFn::Other(CPUFunct::DecR8), 0),
            FunFind::fun_find(0xc7, 0x06, CPUFn::Ld8(Src8::Imm8, Dest8::R8), 2),
            FunFind::fun_find(0xff, 0x07, CPUFn::ALU8Self(Alu8SelfFunction::Rlc), 1),
            FunFind::fun_find(0xff, 0x08, CPUFn::Ld16(Src16::Imm16, Dest16::SP), 1),
            FunFind::fun_find(0xcf, 0x09, CPUFn::Other(CPUFunct::AddHl), 2),
            FunFind::fun_find(0xcf, 0x0a, CPUFn::Ld8(Src8::R16Mem, Dest8::Acc), 1),
            FunFind::fun_find(0xcf, 0x0b, CPUFn::ALU16Self(Alu16SelfFunction::DecR16), 2),
            FunFind::fun_find(0xff, 0x0f, CPUFn::ALU8Self(Alu8SelfFunction::Rrc), 0),
            FunFind::fun_find(0xff, 0x1f, CPUFn::ALU8Self(Alu8SelfFunction::Rr), 0),
            FunFind::fun_find(0xff, 0x2f, CPUFn::Other(CPUFunct::Cpl), 0),
            FunFind::fun_find(0xff, 0x3f, CPUFn::Other(CPUFunct::Ccf), 0),
            FunFind::fun_find(0xff, 0x17, CPUFn::ALU8Self(Alu8SelfFunction::Rl), 0),
            FunFind::fun_find(0xff, 0x18, CPUFn::Other(CPUFunct::JrImm), 3),
            FunFind::fun_find(0xe7, 0x20, CPUFn::Cond(CPUFunct::JrImm, 1), 3),
            FunFind::fun_find(0xff, 0x27, CPUFn::ALU8Self(Alu8SelfFunction::Daa), 1),
            FunFind::fun_find(0xff, 0x37, CPUFn::Other(CPUFunct::Scf), 1),
            FunFind::fun_find(0xff, 0x10, CPUFn::Other(CPUFunct::Stop), 0),
            FunFind::fun_find(0xff, 0x76, CPUFn::Other(CPUFunct::Halt), 0),
            FunFind::fun_find(0xc0, 0x40, CPUFn::Ld8(Src8::R8, Dest8::R8), 0),
            FunFind::fun_find(0xf8, 0x80, CPUFn::ALU8(Alu8Function::Add), 0),
            FunFind::fun_find(0xf8, 0x88, CPUFn::ALU8(Alu8Function::Adc), 0),
            FunFind::fun_find(0xf8, 0x90, CPUFn::ALU8(Alu8Function::Sub), 0),
            FunFind::fun_find(0xf8, 0x98, CPUFn::ALU8(Alu8Function::Subc), 0),
            FunFind::fun_find(0xf8, 0xa0, CPUFn::ALU8(Alu8Function::And), 0),
            FunFind::fun_find(0xf8, 0xa8, CPUFn::ALU8(Alu8Function::Xor), 1),
            FunFind::fun_find(0xf8, 0xb0, CPUFn::ALU8(Alu8Function::Or), 1),
            FunFind::fun_find(0xf8, 0xb8, CPUFn::ALU8(Alu8Function::Cp), 1),
            FunFind::fun_find(0xff, 0xc6, CPUFn::ALU8(Alu8Function::Add), 1),
            FunFind::fun_find(0xff, 0xce, CPUFn::ALU8(Alu8Function::Adc), 1),
            FunFind::fun_find(0xff, 0xd6, CPUFn::ALU8(Alu8Function::Sub), 1),
            FunFind::fun_find(0xff, 0xde, CPUFn::ALU8(Alu8Function::Subc), 1),
            FunFind::fun_find(0xff, 0xe6, CPUFn::ALU8(Alu8Function::And), 1),
            FunFind::fun_find(0xff, 0xee, CPUFn::ALU8(Alu8Function::Xor), 1),
            FunFind::fun_find(0xff, 0xf6, CPUFn::ALU8(Alu8Function::Or), 1),
            FunFind::fun_find(0xff, 0xfe, CPUFn::ALU8(Alu8Function::Cp), 1),
            FunFind::fun_find(0xe7, 0xc0, CPUFn::Cond(CPUFunct::Ret, 0), 5),
            FunFind::fun_find(0xff, 0xc9, CPUFn::Other(CPUFunct::Ret), 4),
            FunFind::fun_find(0xff, 0xd9, CPUFn::Other(CPUFunct::Reti), 4),
            FunFind::fun_find(0xe7, 0xc2, CPUFn::Other(CPUFunct::JpCondImm), 3),
            FunFind::fun_find(0xff, 0xc3, CPUFn::Ld16(Src16::Imm16, Dest16::PC), 4),
            FunFind::fun_find(0xff, 0xe9, CPUFn::Ld16(Src16::HL, Dest16::PC), 1),
            FunFind::fun_find(0xe7, 0xc4, CPUFn::Cond(CPUFunct::Call, 2), 6),
            FunFind::fun_find(0xff, 0xcd, CPUFn::Other(CPUFunct::Call), 6),
            FunFind::fun_find(0xc7, 0xc7, CPUFn::Other(CPUFunct::Rst), 4),
            FunFind::fun_find(0xcf, 0xc1, CPUFn::Other(CPUFunct::Pop), 3),
            FunFind::fun_find(0xcf, 0xc5, CPUFn::Other(CPUFunct::Push), 4),
            FunFind::fun_find(0xff, 0xcb, CPUFn::Other(CPUFunct::CbBlock), 1),
            FunFind::fun_find(0xff, 0xe2, CPUFn::Ld8(Src8::Acc, Dest8::HighC), 1),
            FunFind::fun_find(0xff, 0xe0, CPUFn::Ld8(Src8::Acc, Dest8::Imm8High), 2),
            FunFind::fun_find(0xff, 0xea, CPUFn::Ld8(Src8::Acc, Dest8::Imm16Mem), 3),
            FunFind::fun_find(0xff, 0xf0, CPUFn::Ld8(Src8::HighBank, Dest8::Acc), 2),
            FunFind::fun_find(0xff, 0xf2, CPUFn::Ld8(Src8::HighC, Dest8::Acc), 1),
            FunFind::fun_find(0xff, 0xfa, CPUFn::Ld8(Src8::Imm16Mem, Dest8::Acc), 3),
            FunFind::fun_find(0xff, 0xe8, CPUFn::Other(CPUFunct::AddSpImm8), 4),
            FunFind::fun_find(0xff, 0xf8, CPUFn::Other(CPUFunct::LdHlImm8), 3),
            FunFind::fun_find(0xff, 0xf9, CPUFn::Ld16(Src16::SP, Dest16::HL), 2),
            FunFind::fun_find(0xff, 0xf3, CPUFn::Other(CPUFunct::Di), 1),
            FunFind::fun_find(0xff, 0xfb, CPUFn::Other(CPUFunct::Ei), 1),
        ];
        assert(r@ =~= function_table());
        r
    }

    /// The 0xCB-prefixed opcode table (see `cb_block_table`).
    pub fn cb_block_lookup() -> (r: [FunFind; 11])
        ensures
            r@ == cb_block_table(),
    {
        let r = [
            FunFind::fun_find(0xf8, 0x00, CPUFn::ALU8Self(Alu8SelfFunction::Rlc), 2),
            FunFind::fun_find(0xf8, 0x08, CPUFn::ALU8Self(Alu8SelfFunction::Rrc), 2),
            FunFind::fun_find(0xf8, 0x10, CPUFn::ALU8Self(Alu8SelfFunction::Rl), 2),
            FunFind::fun_find(0xf8, 0x18, CPUFn::ALU8Self(Alu8SelfFunction::Rr), 2),
            FunFind::fun_find(0xf8, 0x20, CPUFn::ALU8Self(Alu8SelfFunction::Sla), 2),
            FunFind::fun_find(0xf8, 0x28, CPUFn::ALU8Self(Alu8SelfFunction::Sra), 2),
            FunFind::fun_find(0xf8, 0x30, CPUFn::ALU8Self(Alu8SelfFunction::Swap), 2),
            FunFind::fun_find(0xf8, 0x38, CPUFn::ALU8Self(Alu8SelfFunction::Srl), 2),
            FunFind::fun_find(0xc0, 0x40, CPUFn::ALU8Self(Alu8SelfFunction::Bit), 2),
            FunFind::fun_find(0xc0, 0x80, CPUFn::ALU8Self(Alu8SelfFunction::Res), 2),
            FunFind::fun_find(0xc0, 0x90, CPUFn::ALU8Self(Alu8SelfFunction::SetBit), 2),
        ];
        assert(r@ =~= cb_block_table());
        r
    }
}

} // verus!
