use vstd::prelude::*;

use crate::instruction::AluOp;
use crate::instruction::Op;
use crate::state::ChipFault;
use crate::state::EmuState;
use crate::state::StepOutcome;
use crate::state::draw_bit;
use crate::state::draw_touches;
use crate::state::lemma_draw_bit_le_one;
use crate::state::lemma_xor_bit;
use crate::state::spec_draw;
use crate::state::spec_draw_collision;
use crate::state::spec_draw_video;
use crate::state::spec_execute;
use crate::state::spec_update_timer;
use crate::state::MEMORY_LEN;
use crate::state::VIDEO_LEN;

verus! {

/// Adding an immediate byte to any register X leaves it holding the sum
/// modulo 256 and writes nothing else: every other register, the flag
/// register among them, and every other component of the state keep their
/// values.
pub proof fn lemma_add_imm(s: EmuState, x: u8, b: u8, rand: u8)
    requires
        s.wf(),
        x < 16,
    ensures
        ({
            let (s2, r) = spec_execute(s, Op::AddImm { x, imm: b }, rand);
            &&& r == Ok::<StepOutcome, ChipFault>(StepOutcome::Executed)
            &&& s2.regs[x as int] == (s.regs[x as int] + b) % 256
            &&& forall|j: int| 0 <= j < 16 && j != x ==> s2.regs[j] == s.regs[j]
            &&& s2 == (EmuState { regs: s2.regs, ..s })
        }),
{
}

/// The subtract instruction records "no borrow occurred": the flag register
/// ends at 1 exactly when register X was at least register Y before the
/// operation, whatever X and Y are.
pub proof fn lemma_sub_borrow_flag(s: EmuState, x: u8, y: u8, rand: u8)
    requires
        s.wf(),
        x < 16,
        y < 16,
    ensures
        ({
            let (s2, r) = spec_execute(s, Op::Alu { x, y, f: AluOp::Sub }, rand);
            &&& r == Ok::<StepOutcome, ChipFault>(StepOutcome::Executed)
            &&& (s2.regs[15] == 1 <==> s.regs[x as int] >= s.regs[y as int])
            &&& (s2.regs[15] == 0 <==> s.regs[x as int] < s.regs[y as int])
        }),
{
}

/// With the copy-on-shift setting disabled, shifting any register X other
/// than the flag register right by one bit leaves it holding its old value
/// shifted right, and the flag register holds the bit shifted out. The flag
/// register itself is left out: as the target of the shift it is
/// immediately overwritten by its own shifted-out bit.
pub proof fn lemma_shift_right(s: EmuState, x: u8, y: u8, rand: u8)
    requires
        s.wf(),
        !s.copy_y_on_shift,
        x < 16,
        y < 16,
        x != 15,
    ensures
        ({
            let (s2, r) = spec_execute(s, Op::Alu { x, y, f: AluOp::ShiftRight }, rand);
            &&& r == Ok::<StepOutcome, ChipFault>(StepOutcome::Executed)
            &&& s2.regs[x as int] == s.regs[x as int] >> 1u8
            &&& s2.regs[15] == s.regs[x as int] & 1u8
        }),
{
    let vx = s.regs[x as int];
    assert(vx >> 1u8 == vx / 2) by (bit_vector);
    assert(vx & 1u8 == vx % 2) by (bit_vector);
}

/// Drawing the same sprite at the same position twice in succession, with
/// no other mutation in between, restores the framebuffer exactly; and the
/// second draw reports a collision precisely where the sprite's own first
/// pass lit a pixel, that is, exactly when some set sprite bit landed on a
/// pixel that was dark before the first draw. The position registers must
/// not be the flag register, which the first draw overwrites.
pub proof fn lemma_draw_twice(s: EmuState, x: u8, y: u8, n: u8, rand: u8)
    requires
        s.wf(),
        x < 16,
        y < 16,
        n < 16,
        x != 15,
        y != 15,
        s.index + n <= MEMORY_LEN,
    ensures
        ({
            let (s1, r1) = spec_execute(s, Op::Draw { x, y, n }, rand);
            let (s2, r2) = spec_execute(s1, Op::Draw { x, y, n }, rand);
            let sx = s.regs[x as int] as int % 64;
            let sy = s.regs[y as int] as int % 32;
            &&& r1 == Ok::<StepOutcome, ChipFault>(StepOutcome::Executed)
            &&& r2 == Ok::<StepOutcome, ChipFault>(StepOutcome::Executed)
            &&& s2.video == s.video
            &&& (s2.regs[15] == 1 <==> exists|i: int|
                0 <= i < VIDEO_LEN && #[trigger] draw_touches(sx, sy, n as int, i / 64, i % 64)
                    && s.video[i] == 0 && draw_bit(s.mem, s.index as int, sx, sy, i / 64, i % 64)
                    == 1)
        }),
{
    let (s1, r1) = spec_execute(s, Op::Draw { x, y, n }, rand);
    let (s2, r2) = spec_execute(s1, Op::Draw { x, y, n }, rand);
    let sx = s.regs[x as int] as int % 64;
    let sy = s.regs[y as int] as int % 32;
    let nn = n as int;

    assert(s1.regs[x as int] == s.regs[x as int]);
    assert(s1.regs[y as int] == s.regs[y as int]);
    assert(s1.mem == s.mem);
    assert(s1.index == s.index);
    assert(s1.video == spec_draw_video(s, sx, sy, nn));

    assert forall|i: int| 0 <= i < VIDEO_LEN implies s2.video[i] == s.video[i] by {
        let row = i / 64;
        let col = i % 64;
        if draw_touches(sx, sy, nn, row, col) {
            let bit = draw_bit(s.mem, s.index as int, sx, sy, row, col);
            lemma_draw_bit_le_one(s.mem, s.index as int, sx, sy, row, col);
            lemma_xor_bit(s.video[i], bit);
            assert(s1.video[i] == s.video[i] ^ bit);
            assert(s2.video[i] == (s.video[i] ^ bit) ^ bit);
        } else {
            assert(s1.video[i] == s.video[i]);
            assert(s2.video[i] == s1.video[i]);
        }
    }
    assert(s2.video =~= s.video);

    if s2.regs[15] == 1 {
        assert(spec_draw_collision(s1, sx, sy, nn));
        let i = choose|i: int|
            0 <= i < VIDEO_LEN && #[trigger] draw_touches(sx, sy, nn, i / 64, i % 64)
                && s1.video[i] == 1 && draw_bit(s1.mem, s1.index as int, sx, sy, i / 64, i % 64)
                == 1;
        let bit = draw_bit(s.mem, s.index as int, sx, sy, i / 64, i % 64);
        lemma_draw_bit_le_one(s.mem, s.index as int, sx, sy, i / 64, i % 64);
        lemma_xor_bit(s.video[i], bit);
        assert(s1.video[i] == s.video[i] ^ bit);
        assert(bit == 1);
        let v = s.video[i];
        assert(v == 0 || v == 1);
        if v == 1 {
            assert(v ^ bit == 0) by (bit_vector)
                requires
                    v == 1,
                    bit == 1,
            ;
            assert(false);
        }
        assert(s.video[i] == 0);
    }
    if exists|i: int|
        0 <= i < VIDEO_LEN && #[trigger] draw_touches(sx, sy, nn, i / 64, i % 64) && s.video[i]
            == 0 && draw_bit(s.mem, s.index as int, sx, sy, i / 64, i % 64) == 1 {
        let i = choose|i: int|
            0 <= i < VIDEO_LEN && #[trigger] draw_touches(sx, sy, nn, i / 64, i % 64) && s.video[i]
                == 0 && draw_bit(s.mem, s.index as int, sx, sy, i / 64, i % 64) == 1;
        let bit = draw_bit(s.mem, s.index as int, sx, sy, i / 64, i % 64);
        let v = s.video[i];
        assert(s1.video[i] == v ^ bit);
        assert(v ^ bit == 1) by (bit_vector)
            requires
                v == 0,
                bit == 1,
        ;
        assert(spec_draw_collision(s1, sx, sy, nn));
        assert(s2.regs[15] == 1);
    }
}

/// The timers never tick twice within one sixtieth of a second: a second
/// update earlier than one interval after the first changes nothing.
pub proof fn lemma_timer_no_double_tick(s: EmuState, t1: u64, t2: u64)
    requires
        s.wf(),
        t1 + crate::state::TIMER_INTERVAL_NANOS <= u64::MAX,
        t2 < t1 + crate::state::TIMER_INTERVAL_NANOS,
    ensures
        ({
            let s1 = spec_update_timer(s, t1);
            s1.last_tick == t1 ==> spec_update_timer(s1, t2) == s1
        }),
{
}

} // verus!
