use vstd::prelude::*;

use crate::instruction::{AluOp, Op};

verus! {

/// Bytes of addressable memory.
pub const MEMORY_LEN: usize = 4096;

/// Pixels in the framebuffer.
pub const VIDEO_LEN: usize = 64 * 32;

/// Number of general-purpose registers.
pub const NUM_REGISTERS: usize = 16;

/// Address where a loaded program starts.
pub const ROM_START: u16 = 0x200;

/// Address of the first byte of the built-in font.
pub const FONT_ADDRESS: u16 = 0x050;

/// One sixtieth of a second, the timer period, in nanoseconds.
pub const TIMER_INTERVAL_NANOS: u64 = 16_666_667;

/// A condition that aborts emulation: the program has driven the machine
/// somewhere no state transition is defined.
#[derive(Clone, Copy, PartialEq, Eq, Structural, Debug)]
pub enum ChipFault {
    /// A return instruction found the call stack empty.
    StackUnderflow,
    /// An instruction would have read or written outside memory, or an
    /// instruction was fetched from outside memory.
    MemoryOutOfBounds,
}

/// What one successful step did.
#[derive(Clone, Copy, PartialEq, Eq, Structural, Debug)]
pub enum StepOutcome {
    /// A defined instruction was executed.
    Executed,
    /// The instruction was not recognized; it was skipped with no state
    /// change, to be reported by the caller.
    Unrecognized,
}

/// The mathematical model of the whole interpreter state.
pub struct EmuState {
    /// The 4096 bytes of memory.
    pub mem: Seq<u8>,
    /// The 64x32 framebuffer, row-major, one 0-or-1 byte per pixel.
    pub video: Seq<u8>,
    /// Whether the framebuffer changed since it was last read.
    pub updated: bool,
    /// The 16 general registers; index 15 is the flag register.
    pub regs: Seq<u8>,
    /// The program counter.
    pub pc: u16,
    /// The index register, holding a memory address.
    pub index: u16,
    /// The call stack of return addresses.
    pub stack: Seq<u16>,
    /// The delay timer.
    pub delay: u8,
    /// The sound timer.
    pub sound: u8,
    /// The code of the key currently held, if any.
    pub key: Option<u8>,
    /// The clock reading, in nanoseconds, of the last timer update.
    pub last_tick: u64,
    /// Configured instruction execution rate, in instructions per second;
    /// advisory for the driving loop, never used by a transition.
    pub ips: u32,
    /// Compatibility: shift instructions first copy register Y into X.
    pub copy_y_on_shift: bool,
    /// Compatibility: the offset jump adds register X instead of register 0.
    pub offset_jump_vx: bool,
}

impl EmuState {
    /// Structural validity: the sizes are fixed, every pixel is a bit, and a
    /// held key is a nibble code.
    pub open spec fn wf(self) -> bool {
        &&& self.mem.len() == MEMORY_LEN
        &&& self.video.len() == VIDEO_LEN
        &&& self.regs.len() == NUM_REGISTERS
        &&& forall|i: int|
            0 <= i < VIDEO_LEN ==> self.video[i] == 0 || #[trigger] self.video[i] == 1
        &&& match self.key {
            Some(k) => k < 16,
            None => true,
        }
    }

    /// The value of register `x`.
    pub open spec fn reg(self, x: u8) -> u8 {
        self.regs[x as int]
    }

    /// This state with register `x` set to `v`.
    pub open spec fn with_reg(self, x: u8, v: u8) -> EmuState {
        EmuState { regs: self.regs.update(x as int, v), ..self }
    }

    /// This state with the flag register set to `v`.
    pub open spec fn with_flag(self, v: u8) -> EmuState {
        EmuState { regs: self.regs.update(15, v), ..self }
    }

    /// This state with the program counter set to `pc`.
    pub open spec fn with_pc(self, pc: u16) -> EmuState {
        EmuState { pc, ..self }
    }
}

/// The usual successful result of an instruction.
pub open spec fn executed() -> Result<StepOutcome, ChipFault> {
    Ok(StepOutcome::Executed)
}

/// The effect of an arithmetic/logic instruction on the register file.
/// The target register is written first; operations with a flag then write
/// the flag register, so the flag wins when the target is register 15.
pub open spec fn spec_alu(s: EmuState, x: u8, y: u8, f: AluOp) -> EmuState {
    let vx = s.reg(x);
    let vy = s.reg(y);
    match f {
        AluOp::Assign => s.with_reg(x, vy),
        AluOp::Or => s.with_reg(x, vx | vy),
        AluOp::And => s.with_reg(x, vx & vy),
        AluOp::Xor => s.with_reg(x, vx ^ vy),
        AluOp::Add => s.with_reg(x, ((vx + vy) % 256) as u8).with_flag(
            if vx + vy > 255 {
                1u8
            } else {
                0u8
            },
        ),
        AluOp::Sub => s.with_reg(x, ((vx - vy) % 256) as u8).with_flag(
            if vx >= vy {
                1u8
            } else {
                0u8
            },
        ),
        AluOp::SubRev => s.with_reg(x, ((vy - vx) % 256) as u8).with_flag(
            if vy >= vx {
                1u8
            } else {
                0u8
            },
        ),
        AluOp::ShiftRight => {
            let src = if s.copy_y_on_shift {
                vy
            } else {
                vx
            };
            s.with_reg(x, src / 2).with_flag((src % 2) as u8)
        },
        AluOp::ShiftLeft => {
            let src = if s.copy_y_on_shift {
                vy
            } else {
                vx
            };
            s.with_reg(x, ((src * 2) % 256) as u8).with_flag(src / 128)
        },
    }
}

/// Whether the sprite drawn at `(sx, sy)` with `n` rows touches the pixel at
/// `(row, col)`: the row is one of the sprite's rows that lies on screen, and
/// the column is within the 8-pixel window starting at `sx`, wrapped
/// horizontally.
pub open spec fn draw_touches(sx: int, sy: int, n: int, row: int, col: int) -> bool {
    &&& sy <= row < sy + n
    &&& row < 32
    &&& (col - sx) % 64 < 8
}

/// The sprite bit that lands on the touched pixel `(row, col)`: bit
/// `7 - ((col - sx) mod 64)` of sprite row `row - sy`, read from memory at
/// the index register.
pub open spec fn draw_bit(mem: Seq<u8>, index: int, sx: int, sy: int, row: int, col: int) -> u8 {
    let j = (col - sx) % 64;
    let sprite_row = mem[index + (row - sy)];
    (sprite_row >> ((7 - j) as u8)) & 1
}

/// The framebuffer after drawing: every touched pixel is XORed with its
/// sprite bit, every other pixel is unchanged.
pub open spec fn spec_draw_video(s: EmuState, sx: int, sy: int, n: int) -> Seq<u8> {
    Seq::new(
        VIDEO_LEN as nat,
        |i: int|
            {
                let row = i / 64;
                let col = i % 64;
                if draw_touches(sx, sy, n, row, col) {
                    s.video[i] ^ draw_bit(s.mem, s.index as int, sx, sy, row, col)
                } else {
                    s.video[i]
                }
            },
    )
}

/// Whether drawing collides: some touched pixel was lit and its sprite bit
/// is set, so the draw turns it off.
pub open spec fn spec_draw_collision(s: EmuState, sx: int, sy: int, n: int) -> bool {
    exists|i: int|
        0 <= i < VIDEO_LEN && #[trigger] draw_touches(sx, sy, n, i / 64, i % 64) && s.video[i] == 1
            && draw_bit(s.mem, s.index as int, sx, sy, i / 64, i % 64) == 1
}

/// Whether the pixel at `(row, col)` has been written after `rows_done`
/// complete sprite rows and `bits_done` bits of the next row.
pub open spec fn partial_touches(
    sx: int,
    sy: int,
    rows_done: int,
    bits_done: int,
    row: int,
    col: int,
) -> bool {
    ||| (sy <= row < sy + rows_done && row < 32 && (col - sx) % 64 < 8)
    ||| (row == sy + rows_done && row < 32 && (col - sx) % 64 < bits_done)
}

/// The framebuffer part-way through drawing: pixels written so far hold
/// their final value, the rest still hold their old one.
pub open spec fn partial_video(
    s: EmuState,
    sx: int,
    sy: int,
    rows_done: int,
    bits_done: int,
) -> Seq<u8> {
    Seq::new(
        VIDEO_LEN as nat,
        |i: int|
            {
                let row = i / 64;
                let col = i % 64;
                if partial_touches(sx, sy, rows_done, bits_done, row, col) {
                    s.video[i] ^ draw_bit(s.mem, s.index as int, sx, sy, row, col)
                } else {
                    s.video[i]
                }
            },
    )
}

/// Whether a collision has occurred among the pixels written so far.
pub open spec fn partial_collision(
    s: EmuState,
    sx: int,
    sy: int,
    rows_done: int,
    bits_done: int,
) -> bool {
    exists|i: int|
        0 <= i < VIDEO_LEN && #[trigger] partial_touches(sx, sy, rows_done, bits_done, i / 64, i % 64)
            && s.video[i] == 1 && draw_bit(s.mem, s.index as int, sx, sy, i / 64, i % 64) == 1
}

/// Wrapping a column offset stays in range and is inverted by the offset
/// from the start column.
pub proof fn lemma_wrap(sx: int, j: int)
    requires
        0 <= sx < 64,
        0 <= j < 64,
    ensures
        0 <= (sx + j) % 64 < 64,
        (((sx + j) % 64) - sx) % 64 == j,
{
    if sx + j < 64 {
        assert((sx + j) % 64 == sx + j);
        assert((j) % 64 == j);
    } else {
        assert((sx + j) % 64 == sx + j - 64);
        assert((j - 64) % 64 == j);
    }
}

/// A column whose offset from the start column is `j` is the wrapped
/// column `sx + j`.
pub proof fn lemma_unwrap(sx: int, col: int, j: int)
    requires
        0 <= sx < 64,
        0 <= col < 64,
        0 <= j < 64,
        (col - sx) % 64 == j,
    ensures
        col == (sx + j) % 64,
{
    if col >= sx {
        assert((col - sx) % 64 == col - sx);
    } else {
        assert((col - sx) % 64 == col - sx + 64);
    }
}

/// A pixel index decomposes into its row and column.
pub proof fn lemma_pixel_index(row: int, col: int)
    requires
        0 <= row < 32,
        0 <= col < 64,
    ensures
        0 <= 64 * row + col < VIDEO_LEN,
        (64 * row + col) / 64 == row,
        (64 * row + col) % 64 == col,
{
    assert((64 * row + col) / 64 == row && (64 * row + col) % 64 == col) by (nonlinear_arith)
        requires
            0 <= row,
            0 <= col < 64,
    ;
}

/// XOR of two bits stays a bit, and XORing twice restores the original.
pub proof fn lemma_xor_bit(a: u8, b: u8)
    requires
        a <= 1,
        b <= 1,
    ensures
        (a ^ b) <= 1,
        (a ^ b) ^ b == a,
        (a ^ b) == (b ^ a),
{
    assert((a ^ b) <= 1 && ((a ^ b) ^ b) == a && (a ^ b) == (b ^ a)) by (bit_vector)
        requires
            a <= 1,
            b <= 1,
    ;
}

/// A sprite bit is a bit.
pub proof fn lemma_draw_bit_le_one(mem: Seq<u8>, index: int, sx: int, sy: int, row: int, col: int)
    ensures
        draw_bit(mem, index, sx, sy, row, col) <= 1,
{
    let m = mem[index + (row - sy)];
    let k = (7 - ((col - sx) % 64)) as u8;
    assert((m >> k) & 1 <= 1) by (bit_vector);
}

/// Before any pixel is written, the partial framebuffer is the old one and
/// no collision has occurred.
pub proof fn lemma_partial_start(s: EmuState, sx: int, sy: int)
    requires
        s.wf(),
    ensures
        partial_video(s, sx, sy, 0, 0) == s.video,
        !partial_collision(s, sx, sy, 0, 0),
{
    assert forall|i: int| 0 <= i < VIDEO_LEN implies partial_video(s, sx, sy, 0, 0)[i]
        == s.video[i] by {
        assert(!partial_touches(sx, sy, 0, 0, i / 64, i % 64));
    }
    assert(partial_video(s, sx, sy, 0, 0) =~= s.video);
    if partial_collision(s, sx, sy, 0, 0) {
        let i = choose|i: int|
            0 <= i < VIDEO_LEN && #[trigger] partial_touches(sx, sy, 0, 0, i / 64, i % 64)
                && s.video[i] == 1 && draw_bit(s.mem, s.index as int, sx, sy, i / 64, i % 64) == 1;
        assert(false);
    }
}

/// Finishing the eighth bit of a row is the same as having finished the
/// whole row.
pub proof fn lemma_partial_row_advance(s: EmuState, sx: int, sy: int, rd: int)
    requires
        s.wf(),
        0 <= rd,
    ensures
        partial_video(s, sx, sy, rd, 8) == partial_video(s, sx, sy, rd + 1, 0),
        partial_collision(s, sx, sy, rd, 8) == partial_collision(s, sx, sy, rd + 1, 0),
{
    assert forall|row: int, col: int|
        partial_touches(sx, sy, rd, 8, row, col) == partial_touches(
            sx,
            sy,
            rd + 1,
            0,
            row,
            col,
        ) by {}
    assert(partial_video(s, sx, sy, rd, 8) =~= partial_video(s, sx, sy, rd + 1, 0));
    if partial_collision(s, sx, sy, rd, 8) {
        let i = choose|i: int|
            0 <= i < VIDEO_LEN && #[trigger] partial_touches(sx, sy, rd, 8, i / 64, i % 64)
                && s.video[i] == 1 && draw_bit(s.mem, s.index as int, sx, sy, i / 64, i % 64) == 1;
        assert(partial_touches(sx, sy, rd + 1, 0, i / 64, i % 64));
        assert(partial_collision(s, sx, sy, rd + 1, 0));
    }
    if partial_collision(s, sx, sy, rd + 1, 0) {
        let i = choose|i: int|
            0 <= i < VIDEO_LEN && #[trigger] partial_touches(sx, sy, rd + 1, 0, i / 64, i % 64)
                && s.video[i] == 1 && draw_bit(s.mem, s.index as int, sx, sy, i / 64, i % 64) == 1;
        assert(partial_touches(sx, sy, rd, 8, i / 64, i % 64));
        assert(partial_collision(s, sx, sy, rd, 8));
    }
}

/// Once every on-screen sprite row has been drawn, the partial framebuffer
/// and collision flag are the final ones.
pub proof fn lemma_partial_done(s: EmuState, sx: int, sy: int, n: int, done: int)
    requires
        s.wf(),
        0 <= sy < 32,
        0 <= n,
        done == if sy + n <= 32 {
            n
        } else {
            32 - sy
        },
    ensures
        partial_video(s, sx, sy, done, 0) == spec_draw_video(s, sx, sy, n),
        partial_collision(s, sx, sy, done, 0) == spec_draw_collision(s, sx, sy, n),
{
    assert forall|row: int, col: int|
        partial_touches(sx, sy, done, 0, row, col) == draw_touches(sx, sy, n, row, col) by {}
    assert(partial_video(s, sx, sy, done, 0) =~= spec_draw_video(s, sx, sy, n));
    if partial_collision(s, sx, sy, done, 0) {
        let i = choose|i: int|
            0 <= i < VIDEO_LEN && #[trigger] partial_touches(sx, sy, done, 0, i / 64, i % 64)
                && s.video[i] == 1 && draw_bit(s.mem, s.index as int, sx, sy, i / 64, i % 64) == 1;
        assert(draw_touches(sx, sy, n, i / 64, i % 64));
        assert(spec_draw_collision(s, sx, sy, n));
    }
    if spec_draw_collision(s, sx, sy, n) {
        let i = choose|i: int|
            0 <= i < VIDEO_LEN && #[trigger] draw_touches(sx, sy, n, i / 64, i % 64) && s.video[i]
                == 1 && draw_bit(s.mem, s.index as int, sx, sy, i / 64, i % 64) == 1;
        assert(partial_touches(sx, sy, done, 0, i / 64, i % 64));
        assert(partial_collision(s, sx, sy, done, 0));
    }
}

/// Writing the pixel for bit `b` of the current sprite row advances the
/// partial framebuffer and collision flag by one bit.
pub proof fn lemma_partial_pixel_step(
    s: EmuState,
    sx: int,
    sy: int,
    rd: int,
    b: int,
    prev: Seq<u8>,
    prev_vf: u8,
)
    requires
        s.wf(),
        0 <= sx < 64,
        0 <= sy < 32,
        0 <= rd,
        sy + rd < 32,
        0 <= b < 8,
        prev == partial_video(s, sx, sy, rd, b),
        prev_vf <= 1,
        (prev_vf == 1) == partial_collision(s, sx, sy, rd, b),
    ensures
        ({
            let col = (sx + b) % 64;
            let pi = 64 * (sy + rd) + col;
            let sp = draw_bit(s.mem, s.index as int, sx, sy, sy + rd, col);
            let px = prev[pi];
            &&& 0 <= pi < VIDEO_LEN
            &&& px == s.video[pi]
            &&& px <= 1
            &&& sp <= 1
            &&& sp == (s.mem[s.index + rd] >> ((7 - b) as u8)) & 1
            &&& prev.update(pi, sp ^ px) == partial_video(s, sx, sy, rd, b + 1)
            &&& (prev_vf | (sp & px)) <= 1
            &&& ((prev_vf | (sp & px)) == 1) == partial_collision(s, sx, sy, rd, b + 1)
        }),
{
    lemma_wrap(sx, b);
    let col = (sx + b) % 64;
    let row = sy + rd;
    lemma_pixel_index(row, col);
    let pi = 64 * row + col;
    let sp = draw_bit(s.mem, s.index as int, sx, sy, row, col);
    let px = prev[pi];
    assert(!partial_touches(sx, sy, rd, b, pi / 64, pi % 64));
    assert(px == s.video[pi]);
    lemma_draw_bit_le_one(s.mem, s.index as int, sx, sy, row, col);
    lemma_xor_bit(px, sp);
    assert(sp == (s.mem[s.index + rd] >> ((7 - b) as u8)) & 1);

    let next = partial_video(s, sx, sy, rd, b + 1);
    assert forall|i: int| 0 <= i < VIDEO_LEN implies next[i] == prev.update(pi, sp ^ px)[i] by {
        vstd::arithmetic::div_mod::lemma_fundamental_div_mod(i, 64);
        let ri = i / 64;
        let ci = i % 64;
        if i == pi {
            assert(partial_touches(sx, sy, rd, b + 1, ri, ci));
            assert(next[i] == s.video[pi] ^ sp);
            assert(s.video[pi] ^ sp == sp ^ px) by {
                lemma_xor_bit(sp, px);
            }
        } else {
            if ri == row && (ci - sx) % 64 == b {
                lemma_unwrap(sx, ci, b);
                assert(i == pi);
            }
            assert(partial_touches(sx, sy, rd, b + 1, ri, ci) == partial_touches(
                sx,
                sy,
                rd,
                b,
                ri,
                ci,
            ));
        }
    }
    assert(next =~= prev.update(pi, sp ^ px));

    let vf2 = prev_vf | (sp & px);
    assert(vf2 <= 1 && (vf2 == 1 <==> (prev_vf == 1 || (sp == 1 && px == 1)))) by (bit_vector)
        requires
            prev_vf <= 1,
            sp <= 1,
            px <= 1,
            vf2 == prev_vf | (sp & px),
    ;
    if vf2 == 1 {
        if prev_vf == 1 {
            let i = choose|i: int|
                0 <= i < VIDEO_LEN && #[trigger] partial_touches(sx, sy, rd, b, i / 64, i % 64)
                    && s.video[i] == 1 && draw_bit(s.mem, s.index as int, sx, sy, i / 64, i % 64)
                    == 1;
            assert(partial_touches(sx, sy, rd, b + 1, i / 64, i % 64));
            assert(partial_collision(s, sx, sy, rd, b + 1));
        } else {
            assert(sp == 1 && px == 1);
            assert(partial_touches(sx, sy, rd, b + 1, pi / 64, pi % 64));
            assert(partial_collision(s, sx, sy, rd, b + 1));
        }
    } else {
        assert(prev_vf == 0 && !(sp == 1 && px == 1));
        if partial_collision(s, sx, sy, rd, b + 1) {
            let i = choose|i: int|
                0 <= i < VIDEO_LEN && #[trigger] partial_touches(sx, sy, rd, b + 1, i / 64, i % 64)
                    && s.video[i] == 1 && draw_bit(s.mem, s.index as int, sx, sy, i / 64, i % 64)
                    == 1;
            vstd::arithmetic::div_mod::lemma_fundamental_div_mod(i, 64);
            if partial_touches(sx, sy, rd, b, i / 64, i % 64) {
                assert(partial_collision(s, sx, sy, rd, b));
                assert(false);
            } else {
                assert(i / 64 == row && (i % 64 - sx) % 64 == b);
                lemma_unwrap(sx, i % 64, b);
                assert(i == pi);
                assert(false);
            }
        }
    }
}

/// The effect of the draw instruction once its sprite rows are known to lie
/// in memory: the registers named by `x` and `y` give the start position,
/// wrapped into range; the flag register reports a collision; the
/// framebuffer is updated and marked dirty.
pub open spec fn spec_draw(s: EmuState, x: u8, y: u8, n: u8) -> EmuState {
    let sx = s.reg(x) as int % 64;
    let sy = s.reg(y) as int % 32;
    EmuState {
        video: spec_draw_video(s, sx, sy, n as int),
        updated: true,
        regs: s.regs.update(
            15,
            if spec_draw_collision(s, sx, sy, n as int) {
                1u8
            } else {
                0u8
            },
        ),
        ..s
    }
}

/// Memory with the first `count` entries of `data` overlaid at `base`.
pub open spec fn mem_overlay(mem: Seq<u8>, data: Seq<u8>, base: int, count: int) -> Seq<u8> {
    Seq::new(
        MEMORY_LEN as nat,
        |a: int|
            if base <= a < base + count {
                data[a - base]
            } else {
                mem[a]
            },
    )
}

/// Registers with entries `0 ..= count-1` loaded from memory at `base`.
pub open spec fn regs_from_mem(regs: Seq<u8>, mem: Seq<u8>, base: int, count: int) -> Seq<u8> {
    Seq::new(
        NUM_REGISTERS as nat,
        |i: int|
            if i < count {
                mem[base + i]
            } else {
                regs[i]
            },
    )
}

/// The effect of executing one decoded operation on a post-fetch state: the
/// program counter has already advanced past the instruction. `rand` is the
/// byte drawn for the random instruction. The result pairs the next state
/// with the outcome; a fault leaves the state unchanged.
pub open spec fn spec_execute(s: EmuState, op: Op, rand: u8) -> (EmuState, Result<
    StepOutcome,
    ChipFault,
>) {
    match op {
        Op::ClearScreen => (
            EmuState { video: Seq::new(VIDEO_LEN as nat, |i: int| 0u8), updated: true, ..s },
            executed(),
        ),
        Op::Jump { addr } => (s.with_pc(addr), executed()),
        Op::Call { addr } => (
            EmuState { stack: s.stack.push(s.pc), pc: addr, ..s },
            executed(),
        ),
        Op::Return => if s.stack.len() == 0 {
            (s, Err(ChipFault::StackUnderflow))
        } else {
            (
                EmuState { stack: s.stack.drop_last(), pc: s.stack.last(), ..s },
                executed(),
            )
        },
        Op::JumpOffset { x, addr } => {
            let off = if s.offset_jump_vx {
                s.reg(x)
            } else {
                s.reg(0)
            };
            (s.with_pc((addr + off) as u16), executed())
        },
        Op::SkipEqImm { x, imm } => (
            if s.reg(x) == imm {
                s.with_pc((s.pc + 2) as u16)
            } else {
                s
            },
            executed(),
        ),
        Op::SkipNeImm { x, imm } => (
            if s.reg(x) != imm {
                s.with_pc((s.pc + 2) as u16)
            } else {
                s
            },
            executed(),
        ),
        Op::SkipEqReg { x, y } => (
            if s.reg(x) == s.reg(y) {
                s.with_pc((s.pc + 2) as u16)
            } else {
                s
            },
            executed(),
        ),
        Op::SkipNeReg { x, y } => (
            if s.reg(x) != s.reg(y) {
                s.with_pc((s.pc + 2) as u16)
            } else {
                s
            },
            executed(),
        ),
        Op::SetImm { x, imm } => (s.with_reg(x, imm), executed()),
        Op::AddImm { x, imm } => (
            s.with_reg(x, ((s.reg(x) + imm) % 256) as u8),
            executed(),
        ),
        Op::Alu { x, y, f } => (spec_alu(s, x, y, f), executed()),
        Op::SetIndex { addr } => (EmuState { index: addr, ..s }, executed()),
        Op::RandomAnd { x, imm } => (s.with_reg(x, rand & imm), executed()),
        Op::Draw { x, y, n } => if s.index + n > MEMORY_LEN {
            (s, Err(ChipFault::MemoryOutOfBounds))
        } else {
            (spec_draw(s, x, y, n), executed())
        },
        Op::SkipKeyPressed { x } => (
            match s.key {
                Some(k) => if s.reg(x) == k {
                    s.with_pc((s.pc + 2) as u16)
                } else {
                    s
                },
                None => s,
            },
            executed(),
        ),
        Op::SkipKeyNotPressed { x } => (
            match s.key {
                Some(k) => if s.reg(x) != k {
                    s.with_pc((s.pc + 2) as u16)
                } else {
                    s
                },
                None => s.with_pc((s.pc + 2) as u16),
            },
            executed(),
        ),
        Op::ReadDelay { x } => (s.with_reg(x, s.delay), executed()),
        Op::AwaitKey { x } => (
            match s.key {
                Some(k) => s.with_reg(x, k),
                None => s.with_pc((s.pc - 2) as u16),
            },
            executed(),
        ),
        Op::SetDelay { x } => (EmuState { delay: s.reg(x), ..s }, executed()),
        Op::SetSound { x } => (EmuState { sound: s.reg(x), ..s }, executed()),
        Op::AddIndex { x } => {
            let new_index = ((s.index + s.reg(x)) % 0x10000) as u16;
            (
                EmuState { index: new_index, ..s }.with_flag(
                    if new_index >= 0x1000 {
                        1u8
                    } else {
                        0u8
                    },
                ),
                executed(),
            )
        },
        Op::FontChar { x } => (
            EmuState { index: (FONT_ADDRESS + (s.reg(x) % 16) * 5) as u16, ..s },
            executed(),
        ),
        Op::StoreBcd { x } => if s.index + 2 >= MEMORY_LEN {
            (s, Err(ChipFault::MemoryOutOfBounds))
        } else {
            let v = s.reg(x);
            (
                EmuState {
                    mem: s.mem.update(s.index as int, (v / 100) as u8).update(
                        s.index + 1,
                        ((v / 10) % 10) as u8,
                    ).update(s.index + 2, (v % 10) as u8),
                    ..s
                },
                executed(),
            )
        },
        Op::StoreRegs { x } => if s.index + x >= MEMORY_LEN {
            (s, Err(ChipFault::MemoryOutOfBounds))
        } else {
            (
                EmuState { mem: mem_overlay(s.mem, s.regs, s.index as int, x + 1), ..s },
                executed(),
            )
        },
        Op::LoadRegs { x } => if s.index + x >= MEMORY_LEN {
            (s, Err(ChipFault::MemoryOutOfBounds))
        } else {
            (
                EmuState { regs: regs_from_mem(s.regs, s.mem, s.index as int, x + 1), ..s },
                executed(),
            )
        },
        Op::Unrecognized => (s, Ok(StepOutcome::Unrecognized)),
    }
}

/// The state of a freshly initialized machine: everything zero except that
/// the font lies at its reserved address, the program counter is at the ROM
/// start, and the framebuffer counts as changed.
pub open spec fn spec_init(
    font: Seq<u8>,
    ips: u32,
    copy_y_on_shift: bool,
    offset_jump_vx: bool,
) -> EmuState {
    EmuState {
        mem: mem_overlay(Seq::new(MEMORY_LEN as nat, |a: int| 0u8), font, FONT_ADDRESS as int, 80),
        video: Seq::new(VIDEO_LEN as nat, |i: int| 0u8),
        updated: true,
        regs: Seq::new(NUM_REGISTERS as nat, |i: int| 0u8),
        pc: ROM_START,
        index: 0u16,
        stack: Seq::empty(),
        delay: 0u8,
        sound: 0u8,
        key: None,
        last_tick: 0u64,
        ips,
        copy_y_on_shift,
        offset_jump_vx,
    }
}

/// The timer discipline: when at least one sixtieth of a second has passed
/// since the last update, both timers lose one (stopping at zero) and the
/// reference point moves to `now`. Otherwise nothing changes.
pub open spec fn spec_update_timer(s: EmuState, now: u64) -> EmuState {
    if now >= s.last_tick + TIMER_INTERVAL_NANOS {
        EmuState {
            delay: if s.delay > 0 {
                (s.delay - 1) as u8
            } else {
                0u8
            },
            sound: if s.sound > 0 {
                (s.sound - 1) as u8
            } else {
                0u8
            },
            last_tick: now,
            ..s
        }
    } else {
        s
    }
}

/// Whether an instruction can be fetched: both of its bytes lie in memory.
pub open spec fn fetch_in_bounds(s: EmuState) -> bool {
    s.pc + 1 < MEMORY_LEN
}

/// One whole step at clock reading `now` with random byte `rand`: update the
/// timers, then fetch, decode and execute. A fetch from outside memory is a
/// fault that changes nothing beyond the timer update.
pub open spec fn spec_step(s: EmuState, now: u64, rand: u8) -> (EmuState, Result<
    StepOutcome,
    ChipFault,
>) {
    let t = spec_update_timer(s, now);
    if !fetch_in_bounds(t) {
        (t, Err(ChipFault::MemoryOutOfBounds))
    } else {
        let op = crate::instruction::spec_decode(t.mem[t.pc as int], t.mem[t.pc + 1]);
        spec_execute(t.with_pc((t.pc + 2) as u16), op, rand)
    }
}

} // verus!
