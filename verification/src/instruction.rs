use vstd::prelude::*;

verus! {

/// A fetched two-byte instruction together with its decoded pieces: the
/// 4-bit opcode class (high nibble of the first byte) and the three 4-bit
/// parameter nibbles. The raw bytes are kept because several instructions
/// use the low byte as an 8-bit immediate or the low 12 bits as an address.
#[derive(Clone, Copy, PartialEq, Eq, Debug)]
pub struct ChipInstruction {
    pub raw: [u8; 2],
    pub op_code: u8,
    pub parameter: [u8; 3],
}

impl ChipInstruction {
    /// The decoded pieces agree with the raw bytes.
    pub open spec fn wf(self) -> bool {
        &&& self.op_code == self.raw@[0] / 16
        &&& self.parameter@[0] == self.raw@[0] % 16
        &&& self.parameter@[1] == self.raw@[1] / 16
        &&& self.parameter@[2] == self.raw@[1] % 16
    }

    /// Take a two byte instruction and return an instruction struct.
    pub fn new(instruction: [u8; 2]) -> (r: ChipInstruction)
        ensures
            r.raw@ == instruction@,
            r.wf(),
    {
        let hi = instruction[0];
        let lo = instruction[1];
        proof {
            assert(hi >> 4 == hi / 16) by (bit_vector);
            assert(hi & 0x0F == hi % 16) by (bit_vector);
            assert(lo >> 4 == lo / 16) by (bit_vector);
            assert(lo & 0x0F == lo % 16) by (bit_vector);
        }
        ChipInstruction {
            raw: instruction,
            op_code: hi >> 4,
            parameter: [hi & 0x0F, lo >> 4, lo & 0x0F],
        }
    }

    /// Decode this instruction into its operation.
    pub fn decode(&self) -> (op: Op)
        requires
            self.wf(),
        ensures
            op == spec_decode(self.raw@[0], self.raw@[1]),
            op.wf(),
    {
        let o = self.op_code;
        let x = self.parameter[0];
        let y = self.parameter[1];
        let n = self.parameter[2];
        let imm = self.raw[1];
        let addr: u16 = (x as u16) * 256 + (imm as u16);
        match (o, x, y, n) {
            (0x00, 0x00, 0x0E, 0x00) => Op::ClearScreen,
            (0x00, 0x00, 0x0E, 0x0E) => Op::Return,
            (0x01, _, _, _) => Op::Jump { addr },
            (0x02, _, _, _) => Op::Call { addr },
            (0x0B, _, _, _) => Op::JumpOffset { x, addr },
            (0x03, _, _, _) => Op::SkipEqImm { x, imm },
            (0x04, _, _, _) => Op::SkipNeImm { x, imm },
            (0x05, _, _, 0x00) => Op::SkipEqReg { x, y },
            (0x09, _, _, 0x00) => Op::SkipNeReg { x, y },
            (0x06, _, _, _) => Op::SetImm { x, imm },
            (0x07, _, _, _) => Op::AddImm { x, imm },
            (0x08, _, _, _) => match n {
                0x00 => Op::Alu { x, y, f: AluOp::Assign },
                0x01 => Op::Alu { x, y, f: AluOp::Or },
                0x02 => Op::Alu { x, y, f: AluOp::And },
                0x03 => Op::Alu { x, y, f: AluOp::Xor },
                0x04 => Op::Alu { x, y, f: AluOp::Add },
                0x05 => Op::Alu { x, y, f: AluOp::Sub },
                0x07 => Op::Alu { x, y, f: AluOp::SubRev },
                0x06 => Op::Alu { x, y, f: AluOp::ShiftRight },
                0x0E => Op::Alu { x, y, f: AluOp::ShiftLeft },
                _ => Op::Unrecognized,
            },
            (0x0A, _, _, _) => Op::SetIndex { addr },
            (0x0C, _, _, _) => Op::RandomAnd { x, imm },
            (0x0D, _, _, _) => Op::Draw { x, y, n },
            (0x0E, _, 0x09, 0x0E) => Op::SkipKeyPressed { x },
            (0x0E, _, 0x0A, 0x01) => Op::SkipKeyNotPressed { x },
            (0x0F, _, 0x00, 0x07) => Op::ReadDelay { x },
            (0x0F, _, 0x00, 0x0A) => Op::AwaitKey { x },
            (0x0F, _, 0x01, 0x05) => Op::SetDelay { x },
            (0x0F, _, 0x01, 0x08) => Op::SetSound { x },
            (0x0F, _, 0x01, 0x0E) => Op::AddIndex { x },
            (0x0F, _, 0x02, 0x09) => Op::FontChar { x },
            (0x0F, _, 0x03, 0x03) => Op::StoreBcd { x },
            (0x0F, _, 0x05, 0x05) => Op::StoreRegs { x },
            (0x0F, _, 0x06, 0x05) => Op::LoadRegs { x },
            _ => Op::Unrecognized,
        }
    }
}

/// The operation selected by the low nibble of an arithmetic/logic
/// instruction.
#[derive(Clone, Copy, PartialEq, Eq, Structural, Debug)]
pub enum AluOp {
    Assign,
    Or,
    And,
    Xor,
    Add,
    Sub,
    SubRev,
    ShiftRight,
    ShiftLeft,
}

/// A decoded operation: the opcode class together with the parameter fields
/// it actually uses. Decoupling decode from execute keeps each behavior
/// independently statable and testable.
#[derive(Clone, Copy, PartialEq, Eq, Structural, Debug)]
pub enum Op {
    ClearScreen,
    Return,
    Jump { addr: u16 },
    Call { addr: u16 },
    JumpOffset { x: u8, addr: u16 },
    SkipEqImm { x: u8, imm: u8 },
    SkipNeImm { x: u8, imm: u8 },
    SkipEqReg { x: u8, y: u8 },
    SkipNeReg { x: u8, y: u8 },
    SetImm { x: u8, imm: u8 },
    AddImm { x: u8, imm: u8 },
    Alu { x: u8, y: u8, f: AluOp },
    SetIndex { addr: u16 },
    RandomAnd { x: u8, imm: u8 },
    Draw { x: u8, y: u8, n: u8 },
    SkipKeyPressed { x: u8 },
    SkipKeyNotPressed { x: u8 },
    ReadDelay { x: u8 },
    AwaitKey { x: u8 },
    SetDelay { x: u8 },
    SetSound { x: u8 },
    AddIndex { x: u8 },
    FontChar { x: u8 },
    StoreBcd { x: u8 },
    StoreRegs { x: u8 },
    LoadRegs { x: u8 },
    Unrecognized,
}

impl Op {
    /// Every register selector is a nibble, every address is 12 bits, and
    /// every sprite height is a nibble. Decoding guarantees this.
    pub open spec fn wf(self) -> bool {
        match self {
            Op::ClearScreen => true,
            Op::Return => true,
            Op::Jump { addr } => addr < 0x1000,
            Op::Call { addr } => addr < 0x1000,
            Op::JumpOffset { x, addr } => x < 16 && addr < 0x1000,
            Op::SkipEqImm { x, imm } => x < 16,
            Op::SkipNeImm { x, imm } => x < 16,
            Op::SkipEqReg { x, y } => x < 16 && y < 16,
            Op::SkipNeReg { x, y } => x < 16 && y < 16,
            Op::SetImm { x, imm } => x < 16,
            Op::AddImm { x, imm } => x < 16,
            Op::Alu { x, y, f } => x < 16 && y < 16,
            Op::SetIndex { addr } => addr < 0x1000,
            Op::RandomAnd { x, imm } => x < 16,
            Op::Draw { x, y, n } => x < 16 && y < 16 && n < 16,
            Op::SkipKeyPressed { x } => x < 16,
            Op::SkipKeyNotPressed { x } => x < 16,
            Op::ReadDelay { x } => x < 16,
            Op::AwaitKey { x } => x < 16,
            Op::SetDelay { x } => x < 16,
            Op::SetSound { x } => x < 16,
            Op::AddIndex { x } => x < 16,
            Op::FontChar { x } => x < 16,
            Op::StoreBcd { x } => x < 16,
            Op::StoreRegs { x } => x < 16,
            Op::LoadRegs { x } => x < 16,
            Op::Unrecognized => true,
        }
    }
}

/// Whether an operation only moves the program counter, the call stack or
/// clears the screen.
pub open spec fn op_is_control(op: Op) -> bool {
    ||| op is ClearScreen
    ||| op is Jump
    ||| op is Call
    ||| op is Return
    ||| op is JumpOffset
    ||| op is SkipEqImm
    ||| op is SkipNeImm
    ||| op is SkipEqReg
    ||| op is SkipNeReg
}

/// Whether an operation only writes registers, timers or the index
/// register.
pub open spec fn op_is_register(op: Op) -> bool {
    ||| op is SetImm
    ||| op is AddImm
    ||| op is Alu
    ||| op is SetIndex
    ||| op is RandomAnd
    ||| op is ReadDelay
    ||| op is SetDelay
    ||| op is SetSound
    ||| op is AddIndex
    ||| op is FontChar
}

/// Whether an operation touches memory, the framebuffer or the key latch,
/// or is unrecognized.
pub open spec fn op_is_memory_or_key(op: Op) -> bool {
    ||| op is Draw
    ||| op is SkipKeyPressed
    ||| op is SkipKeyNotPressed
    ||| op is AwaitKey
    ||| op is StoreBcd
    ||| op is StoreRegs
    ||| op is LoadRegs
    ||| op is Unrecognized
}

/// The operation encoded by a two-byte instruction, as a function of the raw
/// bytes alone. Unmatched combinations decode to `Unrecognized`.
pub open spec fn spec_decode(hi: u8, lo: u8) -> Op {
    let o = hi / 16;
    let x = (hi % 16) as u8;
    let y = (lo / 16) as u8;
    let n = (lo % 16) as u8;
    let imm = lo;
    let addr = ((hi % 16) as u16 * 256 + lo as u16) as u16;
    if hi == 0x00 && lo == 0xE0 {
        Op::ClearScreen
    } else if hi == 0x00 && lo == 0xEE {
        Op::Return
    } else if o == 0x01 {
        Op::Jump { addr }
    } else if o == 0x02 {
        Op::Call { addr }
    } else if o == 0x0B {
        Op::JumpOffset { x, addr }
    } else if o == 0x03 {
        Op::SkipEqImm { x, imm }
    } else if o == 0x04 {
        Op::SkipNeImm { x, imm }
    } else if o == 0x05 && n == 0x00 {
        Op::SkipEqReg { x, y }
    } else if o == 0x09 && n == 0x00 {
        Op::SkipNeReg { x, y }
    } else if o == 0x06 {
        Op::SetImm { x, imm }
    } else if o == 0x07 {
        Op::AddImm { x, imm }
    } else if o == 0x08 {
        if n == 0x00 {
            Op::Alu { x, y, f: AluOp::Assign }
        } else if n == 0x01 {
            Op::Alu { x, y, f: AluOp::Or }
        } else if n == 0x02 {
            Op::Alu { x, y, f: AluOp::And }
        } else if n == 0x03 {
            Op::Alu { x, y, f: AluOp::Xor }
        } else if n == 0x04 {
            Op::Alu { x, y, f: AluOp::Add }
        } else if n == 0x05 {
            Op::Alu { x, y, f: AluOp::Sub }
        } else if n == 0x07 {
            Op::Alu { x, y, f: AluOp::SubRev }
        } else if n == 0x06 {
            Op::Alu { x, y, f: AluOp::ShiftRight }
        } else if n == 0x0E {
            Op::Alu { x, y, f: AluOp::ShiftLeft }
        } else {
            Op::Unrecognized
        }
    } else if o == 0x0A {
        Op::SetIndex { addr }
    } else if o == 0x0C {
        Op::RandomAnd { x, imm }
    } else if o == 0x0D {
        Op::Draw { x, y, n }
    } else if o == 0x0E && lo == 0x9E {
        Op::SkipKeyPressed { x }
    } else if o == 0x0E && lo == 0xA1 {
        Op::SkipKeyNotPressed { x }
    } else if o == 0x0F && lo == 0x07 {
        Op::ReadDelay { x }
    } else if o == 0x0F && lo == 0x0A {
        Op::AwaitKey { x }
    } else if o == 0x0F && lo == 0x15 {
        Op::SetDelay { x }
    } else if o == 0x0F && lo == 0x18 {
        Op::SetSound { x }
    } else if o == 0x0F && lo == 0x1E {
        Op::AddIndex { x }
    } else if o == 0x0F && lo == 0x29 {
        Op::FontChar { x }
    } else if o == 0x0F && lo == 0x33 {
        Op::StoreBcd { x }
    } else if o == 0x0F && lo == 0x55 {
        Op::StoreRegs { x }
    } else if o == 0x0F && lo == 0x65 {
        Op::LoadRegs { x }
    } else {
        Op::Unrecognized
    }
}

} // verus!
