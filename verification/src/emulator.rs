use vstd::prelude::*;

use std::time::Instant;

use crate::fonts::spec_default_font;
use crate::fonts::default_font;
use crate::keypad::ChipKey;
use crate::keypad::key_code_of;
use crate::platform::instant_now;
use crate::platform::nanos_since;
use crate::platform::random_byte;
use crate::instruction::AluOp;
use crate::instruction::ChipInstruction;
use crate::instruction::Op;
use crate::state::ChipFault;
use crate::state::EmuState;
use crate::state::StepOutcome;
use crate::instruction::spec_decode;
use crate::instruction::op_is_control;
use crate::instruction::op_is_register;
use crate::instruction::op_is_memory_or_key;
use crate::state::fetch_in_bounds;
use crate::state::lemma_draw_bit_le_one;
use crate::state::lemma_partial_done;
use crate::state::lemma_partial_pixel_step;
use crate::state::lemma_partial_row_advance;
use crate::state::lemma_partial_start;
use crate::state::lemma_xor_bit;
use crate::state::mem_overlay;
use crate::state::partial_collision;
use crate::state::partial_video;
use crate::state::spec_alu;
use crate::state::regs_from_mem;
use crate::state::spec_draw;
use crate::state::spec_execute;
use crate::state::spec_init;
use crate::state::spec_step;
use crate::state::spec_update_timer;
use crate::state::draw_touches;
use crate::state::TIMER_INTERVAL_NANOS;
use crate::state::FONT_ADDRESS;
use crate::state::MEMORY_LEN;
use crate::state::NUM_REGISTERS;
use crate::state::ROM_START;
use crate::state::VIDEO_LEN;

verus! {

/// Configuration fixed for the emulator's lifetime.
pub struct ChipEmulatorConfig {
    /// The font copied into low memory at initialization: 16 glyphs of 5
    /// bytes each.
    pub font: [u8; 80],
    /// Instruction execution rate used to compute the advisory cycle
    /// duration; the core itself never throttles.
    pub instruction_per_second: u32,
    /// Compatibility setting: during a shift operation copy the value from
    /// register Y into register X before shifting.
    pub copy_y_on_shift: bool,
    /// Compatibility setting: the jump-with-offset instruction adds the
    /// value of register X (from the address's high nibble) instead of
    /// register 0.
    pub offset_jump_vx: bool,
}

impl Default for ChipEmulatorConfig {
    /// The default font at 700 instructions per second, with both
    /// compatibility settings off.
    fn default() -> (r: ChipEmulatorConfig)
        ensures
            r.font@ == spec_default_font(),
            r.instruction_per_second == 700,
            !r.copy_y_on_shift,
            !r.offset_jump_vx,
    {
        ChipEmulatorConfig {
            font: default_font(),
            instruction_per_second: 700,
            copy_y_on_shift: false,
            offset_jump_vx: false,
        }
    }
}

/// All the components of the interpreter: memory, framebuffer, registers,
/// call stack, timers, input latch and configuration.
pub struct ChipEmulator {
    /// 4KB program memory.
    memory: Vec<u8>,
    /// Framebuffer handed to the screen on update, one byte per pixel.
    video_buffer: Vec<u8>,
    /// Whether the framebuffer changed since it was last read.
    buffer_updated: bool,
    /// The 16 general registers.
    registers: Vec<u8>,
    /// The address of the next instruction.
    program_counter: u16,
    /// Register used to point at a location in memory.
    index_pointer: u16,
    /// The call stack of return addresses.
    stack: Vec<u16>,
    /// Delay timer.
    delay_timer: u8,
    /// Sound timer.
    sound_timer: u8,
    /// The key currently being pressed.
    key: Option<ChipKey>,
    /// Fixed reading of the monotonic clock taken at initialization; all
    /// times are nanoseconds since this anchor.
    clock_anchor: Instant,
    /// Clock reading of the last timer update, in nanoseconds since the
    /// anchor.
    last_timer_update: u64,
    /// The configuration struct.
    config: ChipEmulatorConfig,
}

impl View for ChipEmulator {
    type V = EmuState;

    closed spec fn view(&self) -> EmuState {
        EmuState {
            mem: self.memory@,
            video: self.video_buffer@,
            updated: self.buffer_updated,
            regs: self.registers@,
            pc: self.program_counter,
            index: self.index_pointer,
            stack: self.stack@,
            delay: self.delay_timer,
            sound: self.sound_timer,
            key: key_code_of(self.key),
            last_tick: self.last_timer_update,
            ips: self.config.instruction_per_second,
            copy_y_on_shift: self.config.copy_y_on_shift,
            offset_jump_vx: self.config.offset_jump_vx,
        }
    }
}

impl ChipEmulator {
    /// The concrete machine is valid exactly when its model is.
    pub open spec fn wf(&self) -> bool {
        self@.wf()
    }

    /// Instantiate and initialize a new emulator: memory, registers and
    /// timers zeroed, the font copied into its reserved region, and the
    /// program counter at the ROM start address.
    pub fn initialize(config: ChipEmulatorConfig) -> (r: ChipEmulator)
        ensures
            r.wf(),
            r@ == spec_init(
                config.font@,
                config.instruction_per_second,
                config.copy_y_on_shift,
                config.offset_jump_vx,
            ),
    {
        let mut memory: Vec<u8> = Vec::new();
        let mut i: usize = 0;
        while i < MEMORY_LEN
            invariant
                memory@.len() == i,
                i <= MEMORY_LEN,
                forall|j: int| 0 <= j < i ==> memory@[j] == 0u8,
            decreases MEMORY_LEN - i,
        {
            memory.push(0u8);
            i = i + 1;
        }
        let mut i: usize = 0;
        while i < 80
            invariant
                memory@.len() == MEMORY_LEN,
                i <= 80,
                forall|j: int|
                    FONT_ADDRESS <= j < FONT_ADDRESS + i ==> memory@[j] == config.font@[j
                        - FONT_ADDRESS],
                forall|j: int|
                    0 <= j < MEMORY_LEN && !(FONT_ADDRESS <= j < FONT_ADDRESS + i)
                        ==> memory@[j] == 0u8,
            decreases 80 - i,
        {
            memory.set(FONT_ADDRESS as usize + i, config.font[i]);
            i = i + 1;
        }

        let mut video_buffer: Vec<u8> = Vec::new();
        let mut i: usize = 0;
        while i < VIDEO_LEN
            invariant
                video_buffer@.len() == i,
                i <= VIDEO_LEN,
                forall|j: int| 0 <= j < i ==> video_buffer@[j] == 0u8,
            decreases VIDEO_LEN - i,
        {
            video_buffer.push(0u8);
            i = i + 1;
        }

        let mut registers: Vec<u8> = Vec::new();
        let mut i: usize = 0;
        while i < NUM_REGISTERS
            invariant
                registers@.len() == i,
                i <= NUM_REGISTERS,
                forall|j: int| 0 <= j < i ==> registers@[j] == 0u8,
            decreases NUM_REGISTERS - i,
        {
            registers.push(0u8);
            i = i + 1;
        }

        let emulator = ChipEmulator {
            memory,
            video_buffer,
            buffer_updated: true,
            registers,
            program_counter: ROM_START,
            index_pointer: 0u16,
            stack: Vec::with_capacity(32),
            delay_timer: 0u8,
            sound_timer: 0u8,
            key: None,
            clock_anchor: instant_now(),
            last_timer_update: 0u64,
            config,
        };
        proof {
            let target = spec_init(
                config.font@,
                config.instruction_per_second,
                config.copy_y_on_shift,
                config.offset_jump_vx,
            );
            assert(emulator@.mem =~= target.mem);
            assert(emulator@.video =~= target.video);
            assert(emulator@.regs =~= target.regs);
            assert(emulator@.stack =~= target.stack);
            assert(emulator@ == target);
        }
        emulator
    }

    /// Get the current bell status based on the sound timer. Return true if
    /// the bell is active.
    pub fn get_bell_status(&self) -> (r: bool)
        ensures
            r == (self@.sound != 0),
    {
        self.sound_timer != 0
    }

    /// Update the key pressed value.
    pub fn update_key(&mut self, key: Option<ChipKey>)
        ensures
            final(self)@ == (EmuState { key: key_code_of(key), ..old(self)@ }),
            old(self).wf() ==> final(self).wf(),
    {
        self.key = key;
    }

    /// Return a copy of the video buffer and a boolean set to true if the
    /// buffer was updated since the last call to this function; the flag is
    /// cleared by the call.
    pub fn get_video_buffer(&mut self) -> (r: (Vec<u8>, bool))
        ensures
            r.0@ == old(self)@.video,
            r.1 == old(self)@.updated,
            final(self)@ == (EmuState { updated: false, ..old(self)@ }),
            old(self).wf() ==> final(self).wf(),
    {
        let mut out: Vec<u8> = Vec::new();
        let mut i: usize = 0;
        let len = self.video_buffer.len();
        while i < len
            invariant
                out@.len() == i,
                i <= len,
                len == self.video_buffer@.len(),
                forall|j: int| 0 <= j < i ==> out@[j] == self.video_buffer@[j],
            decreases len - i,
        {
            out.push(self.video_buffer[i]);
            i = i + 1;
        }
        proof {
            assert(out@ =~= self.video_buffer@);
        }
        let updated = self.buffer_updated;
        self.buffer_updated = false;
        (out, updated)
    }

    /// Load a program image: its bytes are placed starting at the ROM start
    /// address and the program counter is reset to that address. The caller
    /// must have checked that the image fits in memory.
    pub fn load_rom(&mut self, rom: &Vec<u8>)
        requires
            old(self).wf(),
            rom@.len() + ROM_START <= MEMORY_LEN,
        ensures
            final(self).wf(),
            final(self)@ == (EmuState {
                mem: mem_overlay(old(self)@.mem, rom@, ROM_START as int, rom@.len() as int),
                pc: ROM_START,
                ..old(self)@
            }),
    {
        let mut i: usize = 0;
        let len = rom.len();
        while i < len
            invariant
                self.memory@.len() == MEMORY_LEN,
                i <= len,
                len == rom@.len(),
                len + ROM_START <= MEMORY_LEN,
                forall|j: int|
                    ROM_START <= j < ROM_START + i ==> self.memory@[j] == rom@[j - ROM_START],
                forall|j: int|
                    0 <= j < MEMORY_LEN && !(ROM_START <= j < ROM_START + i) ==> self.memory@[j]
                        == old(self)@.mem[j],
                self.video_buffer == old(self).video_buffer,
                self.buffer_updated == old(self).buffer_updated,
                self.registers == old(self).registers,
                self.program_counter == old(self).program_counter,
                self.index_pointer == old(self).index_pointer,
                self.stack == old(self).stack,
                self.delay_timer == old(self).delay_timer,
                self.sound_timer == old(self).sound_timer,
                self.key == old(self).key,
                self.last_timer_update == old(self).last_timer_update,
                self.config == old(self).config,
            decreases len - i,
        {
            self.memory.set(ROM_START as usize + i, rom[i]);
            i = i + 1;
        }
        self.program_counter = ROM_START;
        proof {
            assert(self@.mem =~= mem_overlay(
                old(self)@.mem,
                rom@,
                ROM_START as int,
                rom@.len() as int,
            ));
        }
    }

    /// Decrement the delay and sound timers if at least one sixtieth of a
    /// second has passed, taking the clock reading `now` in nanoseconds.
    pub fn update_timer_at(&mut self, now: u64)
        requires
            old(self).wf(),
        ensures
            final(self).wf(),
            final(self)@ == spec_update_timer(old(self)@, now),
    {
        if now >= self.last_timer_update && now - self.last_timer_update >= TIMER_INTERVAL_NANOS {
            if self.sound_timer > 0 {
                self.sound_timer = self.sound_timer - 1;
            }
            if self.delay_timer > 0 {
                self.delay_timer = self.delay_timer - 1;
            }
            self.last_timer_update = now;
        }
    }

    /// Decrement the delay and sound timers 60 times per second, reading the
    /// wall clock.
    pub fn update_timer(&mut self)
        requires
            old(self).wf(),
        ensures
            final(self).wf(),
            exists|now: u64| final(self)@ == spec_update_timer(old(self)@, now),
    {
        let now = nanos_since(&self.clock_anchor);
        self.update_timer_at(now);
        proof {
            assert(self@ == spec_update_timer(old(self)@, now));
        }
    }

    /// Fetch the 16-bit instruction at the program counter address and
    /// advance the counter by 2. A counter pointing outside memory is a
    /// fault that changes nothing.
    pub fn fetch(&mut self) -> (r: Result<ChipInstruction, ChipFault>)
        requires
            old(self).wf(),
        ensures
            final(self).wf(),
            fetch_in_bounds(old(self)@) ==> (r matches Ok(i)
                && i.wf()
                && i.raw@[0] == old(self)@.mem[old(self)@.pc as int]
                && i.raw@[1] == old(self)@.mem[old(self)@.pc + 1]
                && final(self)@ == old(self)@.with_pc((old(self)@.pc + 2) as u16)),
            !fetch_in_bounds(old(self)@) ==> r == Err::<ChipInstruction, ChipFault>(
                ChipFault::MemoryOutOfBounds,
            ) && final(self)@ == old(self)@,
    {
        if self.program_counter as usize + 1 >= MEMORY_LEN {
            return Err(ChipFault::MemoryOutOfBounds);
        }
        let instruction_array = [
            self.memory[self.program_counter as usize],
            self.memory[self.program_counter as usize + 1],
        ];
        self.program_counter = self.program_counter + 2;
        Ok(ChipInstruction::new(instruction_array))
    }

    /// Perform one arithmetic/logic operation on registers `x` and `y`.
    #[verifier::rlimit(30)]
    pub fn alu(&mut self, x: u8, y: u8, f: AluOp)
        requires
            old(self).wf(),
            x < 16,
            y < 16,
        ensures
            final(self).wf(),
            final(self)@ == spec_alu(old(self)@, x, y, f),
    {
        match f {
            AluOp::Assign => {
                let vy = self.registers[y as usize];
                self.registers.set(x as usize, vy);
            },
            AluOp::Or => {
                let vx = self.registers[x as usize];
                let vy = self.registers[y as usize];
                self.registers.set(x as usize, vx | vy);
            },
            AluOp::And => {
                let vx = self.registers[x as usize];
                let vy = self.registers[y as usize];
                self.registers.set(x as usize, vx & vy);
            },
            AluOp::Xor => {
                let vx = self.registers[x as usize];
                let vy = self.registers[y as usize];
                self.registers.set(x as usize, vx ^ vy);
            },
            AluOp::Add => {
                let vx = self.registers[x as usize];
                let vy = self.registers[y as usize];
                self.registers.set(x as usize, vx.wrapping_add(vy));
                let flag: u8 = if (vx as u16) + (vy as u16) > 255 {
                    1
                } else {
                    0
                };
                self.registers.set(15, flag);
            },
            AluOp::Sub => {
                let vx = self.registers[x as usize];
                let vy = self.registers[y as usize];
                self.registers.set(x as usize, vx.wrapping_sub(vy));
                let flag: u8 = if vx >= vy {
                    1
                } else {
                    0
                };
                self.registers.set(15, flag);
            },
            AluOp::SubRev => {
                let vx = self.registers[x as usize];
                let vy = self.registers[y as usize];
                self.registers.set(x as usize, vy.wrapping_sub(vx));
                let flag: u8 = if vy >= vx {
                    1
                } else {
                    0
                };
                self.registers.set(15, flag);
            },
            AluOp::ShiftRight => {
                if self.config.copy_y_on_shift {
                    let vy = self.registers[y as usize];
                    self.registers.set(x as usize, vy);
                }
                let src = self.registers[x as usize];
                proof {
                    assert(src >> 1u8 == src / 2) by (bit_vector);
                    assert(src & 1u8 == src % 2) by (bit_vector);
                }
                self.registers.set(x as usize, src >> 1u8);
                self.registers.set(15, src & 1u8);
                proof {
                    assert(self@.regs =~= spec_alu(old(self)@, x, y, f).regs);
                }
            },
            AluOp::ShiftLeft => {
                if self.config.copy_y_on_shift {
                    let vy = self.registers[y as usize];
                    self.registers.set(x as usize, vy);
                }
                let src = self.registers[x as usize];
                proof {
                    assert(src << 1u8 == ((src * 2) % 256) as u8) by (bit_vector);
                    assert(src >> 7u8 == src / 128) by (bit_vector);
                }
                self.registers.set(x as usize, src << 1u8);
                self.registers.set(15, src >> 7u8);
                proof {
                    assert(self@.regs =~= spec_alu(old(self)@, x, y, f).regs);
                }
            },
        }
    }

    /// Draw the sprite at the index pointer address to the screen with an
    /// XOR operation. The parameter nibbles select the two position
    /// registers and the sprite height in rows. A sprite that would be read
    /// from outside memory is a fault that changes nothing.
    pub fn draw(&mut self, parameter: [u8; 3]) -> (r: Result<(), ChipFault>)
        requires
            old(self).wf(),
            parameter@[0] < 16,
            parameter@[1] < 16,
            parameter@[2] < 16,
        ensures
            final(self).wf(),
            old(self)@.index + parameter@[2] > MEMORY_LEN ==> r == Err::<(), ChipFault>(
                ChipFault::MemoryOutOfBounds,
            ) && final(self)@ == old(self)@,
            old(self)@.index + parameter@[2] <= MEMORY_LEN ==> r == Ok::<(), ChipFault>(())
                && final(self)@ == spec_draw(
                old(self)@,
                parameter@[0],
                parameter@[1],
                parameter@[2],
            ),
    {
        let x = parameter[0];
        let y = parameter[1];
        let rows = parameter[2] as usize;
        let index = self.index_pointer as usize;
        if index + rows > MEMORY_LEN {
            return Err(ChipFault::MemoryOutOfBounds);
        }
        let sprite_x = (self.registers[x as usize] % 64) as usize;
        let sprite_y = (self.registers[y as usize] % 32) as usize;
        let mut vf: u8 = 0;
        proof {
            lemma_partial_start(old(self)@, sprite_x as int, sprite_y as int);
        }
        let mut row: usize = 0;
        while row < rows && sprite_y + row < 32
            invariant
                row <= rows,
                sprite_y + row <= 32,
                vf <= 1,
                self.video_buffer@ == partial_video(
                    old(self)@,
                    sprite_x as int,
                    sprite_y as int,
                    row as int,
                    0,
                ),
                (vf == 1) == partial_collision(
                    old(self)@,
                    sprite_x as int,
                    sprite_y as int,
                    row as int,
                    0,
                ),
                self.memory == old(self).memory,
                self.registers == old(self).registers,
                self.buffer_updated == old(self).buffer_updated,
                self.program_counter == old(self).program_counter,
                self.index_pointer == old(self).index_pointer,
                self.stack == old(self).stack,
                self.delay_timer == old(self).delay_timer,
                self.sound_timer == old(self).sound_timer,
                self.key == old(self).key,
                self.last_timer_update == old(self).last_timer_update,
                self.config == old(self).config,
            decreases rows - row,
        {
            let sprite_row = self.memory[index + row];
            let mut bit: usize = 0;
            while bit < 8
                invariant
                    bit <= 8,
                    vf <= 1,
                    self.video_buffer@ == partial_video(
                        old(self)@,
                        sprite_x as int,
                        sprite_y as int,
                        row as int,
                        bit as int,
                    ),
                    (vf == 1) == partial_collision(
                        old(self)@,
                        sprite_x as int,
                        sprite_y as int,
                        row as int,
                        bit as int,
                    ),
                    self.memory == old(self).memory,
                    self.registers == old(self).registers,
                    self.buffer_updated == old(self).buffer_updated,
                    self.program_counter == old(self).program_counter,
                    self.index_pointer == old(self).index_pointer,
                    self.stack == old(self).stack,
                    self.delay_timer == old(self).delay_timer,
                    self.sound_timer == old(self).sound_timer,
                    self.key == old(self).key,
                    self.last_timer_update == old(self).last_timer_update,
                    self.config == old(self).config,
                decreases 8 - bit,
            {
                proof {
                    lemma_partial_pixel_step(
                        old(self)@,
                        sprite_x as int,
                        sprite_y as int,
                        row as int,
                        bit as int,
                        self.video_buffer@,
                        vf,
                    );
                }
                let col = (sprite_x + bit) % 64;
                let pixel_index = 64 * (sprite_y + row) + col;
                let sprite_pixel = (sprite_row >> ((7 - bit) as u8)) & 1;
                let pixel = self.video_buffer[pixel_index];
                vf = vf | (sprite_pixel & pixel);
                self.video_buffer.set(pixel_index, sprite_pixel ^ pixel);
                bit = bit + 1;
            }
            proof {
                lemma_partial_row_advance(
                    old(self)@,
                    sprite_x as int,
                    sprite_y as int,
                    row as int,
                );
            }
            row = row + 1;
        }
        proof {
            lemma_partial_done(
                old(self)@,
                sprite_x as int,
                sprite_y as int,
                parameter@[2] as int,
                row as int,
            );
        }
        self.registers.set(15, vf);
        self.buffer_updated = true;
        proof {
            let target = spec_draw(old(self)@, parameter@[0], parameter@[1], parameter@[2]);
            assert(self@.video == target.video);
            assert(self@.regs =~= target.regs);
            assert forall|i: int| 0 <= i < VIDEO_LEN implies (self@.video[i] == 0 || self@.video[i]
                == 1) by {
                let sx = sprite_x as int;
                let sy = sprite_y as int;
                let n = parameter@[2] as int;
                if draw_touches(sx, sy, n, i / 64, i % 64) {
                    lemma_draw_bit_le_one(old(self)@.mem, old(self)@.index as int, sx, sy, i / 64, i % 64);
                    lemma_xor_bit(
                        old(self)@.video[i],
                        crate::state::draw_bit(old(self)@.mem, old(self)@.index as int, sx, sy, i / 64, i % 64),
                    );
                }
            }
            assert(self@ == target);
        }
        Ok(())
    }

    /// Zero the framebuffer and mark it dirty.
    fn clear_screen(&mut self)
        requires
            old(self).wf(),
        ensures
            final(self).wf(),
            final(self)@ == (EmuState {
                video: Seq::new(VIDEO_LEN as nat, |i: int| 0u8),
                updated: true,
                ..old(self)@
            }),
    {
        let mut cleared: Vec<u8> = Vec::new();
        let mut i: usize = 0;
        while i < VIDEO_LEN
            invariant
                cleared@.len() == i,
                i <= VIDEO_LEN,
                forall|j: int| 0 <= j < i ==> cleared@[j] == 0u8,
            decreases VIDEO_LEN - i,
        {
            cleared.push(0u8);
            i = i + 1;
        }
        self.video_buffer = cleared;
        self.buffer_updated = true;
        proof {
            assert(self@.video =~= Seq::new(VIDEO_LEN as nat, |i: int| 0u8));
        }
    }

    /// Store the three decimal digits of register `x` at the index pointer.
    fn store_bcd(&mut self, x: u8) -> (r: Result<(), ChipFault>)
        requires
            old(self).wf(),
            x < 16,
        ensures
            final(self).wf(),
            old(self)@.index + 2 >= MEMORY_LEN ==> r == Err::<(), ChipFault>(
                ChipFault::MemoryOutOfBounds,
            ) && final(self)@ == old(self)@,
            old(self)@.index + 2 < MEMORY_LEN ==> r == Ok::<(), ChipFault>(()) && final(self)@
                == (EmuState {
                mem: old(self)@.mem.update(
                    old(self)@.index as int,
                    (old(self)@.reg(x) / 100) as u8,
                ).update(old(self)@.index + 1, ((old(self)@.reg(x) / 10) % 10) as u8).update(
                    old(self)@.index + 2,
                    (old(self)@.reg(x) % 10) as u8,
                ),
                ..old(self)@
            }),
    {
        let base = self.index_pointer as usize;
        if base + 2 >= MEMORY_LEN {
            return Err(ChipFault::MemoryOutOfBounds);
        }
        let number = self.registers[x as usize];
        self.memory.set(base, number / 100);
        self.memory.set(base + 1, number / 10 % 10);
        self.memory.set(base + 2, number % 10);
        Ok(())
    }

    /// Store registers 0 through `x` in memory starting at the index
    /// pointer.
    fn store_registers(&mut self, x: u8) -> (r: Result<(), ChipFault>)
        requires
            old(self).wf(),
            x < 16,
        ensures
            final(self).wf(),
            old(self)@.index + x >= MEMORY_LEN ==> r == Err::<(), ChipFault>(
                ChipFault::MemoryOutOfBounds,
            ) && final(self)@ == old(self)@,
            old(self)@.index + x < MEMORY_LEN ==> r == Ok::<(), ChipFault>(()) && final(self)@
                == (EmuState {
                mem: mem_overlay(old(self)@.mem, old(self)@.regs, old(self)@.index as int, x + 1),
                ..old(self)@
            }),
    {
        let base = self.index_pointer as usize;
        if base + x as usize >= MEMORY_LEN {
            return Err(ChipFault::MemoryOutOfBounds);
        }
        let mut i: usize = 0;
        while i <= x as usize
            invariant
                i <= (x as usize) + 1,
                base + (x as usize) < MEMORY_LEN,
                self.memory@.len() == MEMORY_LEN,
                forall|j: int| base <= j < base + i ==> self.memory@[j] == old(self)@.regs[j - base],
                forall|j: int|
                    0 <= j < MEMORY_LEN && !(base <= j < base + i) ==> self.memory@[j] == old(
                        self,
                    )@.mem[j],
                self.video_buffer == old(self).video_buffer,
                self.buffer_updated == old(self).buffer_updated,
                self.registers == old(self).registers,
                self.program_counter == old(self).program_counter,
                self.index_pointer == old(self).index_pointer,
                self.stack == old(self).stack,
                self.delay_timer == old(self).delay_timer,
                self.sound_timer == old(self).sound_timer,
                self.key == old(self).key,
                self.last_timer_update == old(self).last_timer_update,
                self.config == old(self).config,
            decreases (x as usize) + 1 - i,
        {
            let value = self.registers[i];
            self.memory.set(base + i, value);
            i = i + 1;
        }
        proof {
            assert(self@.mem =~= mem_overlay(
                old(self)@.mem,
                old(self)@.regs,
                old(self)@.index as int,
                x + 1,
            ));
        }
        Ok(())
    }

    /// Load registers 0 through `x` from memory starting at the index
    /// pointer.
    fn load_registers(&mut self, x: u8) -> (r: Result<(), ChipFault>)
        requires
            old(self).wf(),
            x < 16,
        ensures
            final(self).wf(),
            old(self)@.index + x >= MEMORY_LEN ==> r == Err::<(), ChipFault>(
                ChipFault::MemoryOutOfBounds,
            ) && final(self)@ == old(self)@,
            old(self)@.index + x < MEMORY_LEN ==> r == Ok::<(), ChipFault>(()) && final(self)@
                == (EmuState {
                regs: regs_from_mem(old(self)@.regs, old(self)@.mem, old(self)@.index as int, x + 1),
                ..old(self)@
            }),
    {
        let base = self.index_pointer as usize;
        if base + x as usize >= MEMORY_LEN {
            return Err(ChipFault::MemoryOutOfBounds);
        }
        let mut i: usize = 0;
        while i <= x as usize
            invariant
                i <= (x as usize) + 1,
                base + (x as usize) < MEMORY_LEN,
                self.registers@.len() == NUM_REGISTERS,
                forall|j: int| 0 <= j < i ==> self.registers@[j] == old(self)@.mem[base + j],
                forall|j: int| i <= j < NUM_REGISTERS ==> self.registers@[j] == old(self)@.regs[j],
                self.memory == old(self).memory,
                self.video_buffer == old(self).video_buffer,
                self.buffer_updated == old(self).buffer_updated,
                self.program_counter == old(self).program_counter,
                self.index_pointer == old(self).index_pointer,
                self.stack == old(self).stack,
                self.delay_timer == old(self).delay_timer,
                self.sound_timer == old(self).sound_timer,
                self.key == old(self).key,
                self.last_timer_update == old(self).last_timer_update,
                self.config == old(self).config,
            decreases (x as usize) + 1 - i,
        {
            let value = self.memory[base + i];
            self.registers.set(i, value);
            i = i + 1;
        }
        proof {
            assert(self@.regs =~= regs_from_mem(
                old(self)@.regs,
                old(self)@.mem,
                old(self)@.index as int,
                x + 1,
            ));
        }
        Ok(())
    }

    /// Execute a control-flow or screen-clearing operation.
    #[verifier::rlimit(50)]
    fn execute_control(&mut self, op: Op, rand: u8) -> (r: Result<StepOutcome, ChipFault>)
        requires
            old(self).wf(),
            op.wf(),
            op_is_control(op),
            2 <= old(self)@.pc,
            old(self)@.pc <= MEMORY_LEN,
        ensures
            final(self).wf(),
            (final(self)@, r) == spec_execute(old(self)@, op, rand),
    {
        match op {
            Op::ClearScreen => {
                self.clear_screen();
                Ok(StepOutcome::Executed)
            },
            Op::Jump { addr } => {
                self.program_counter = addr;
                Ok(StepOutcome::Executed)
            },
            Op::Call { addr } => {
                self.stack.push(self.program_counter);
                self.program_counter = addr;
                Ok(StepOutcome::Executed)
            },
            Op::Return => {
                match self.stack.pop() {
                    Some(address) => {
                        self.program_counter = address;
                        Ok(StepOutcome::Executed)
                    },
                    None => Err(ChipFault::StackUnderflow),
                }
            },
            Op::JumpOffset { x, addr } => {
                let offset = if self.config.offset_jump_vx {
                    self.registers[x as usize]
                } else {
                    self.registers[0]
                };
                self.program_counter = addr + offset as u16;
                Ok(StepOutcome::Executed)
            },
            Op::SkipEqImm { x, imm } => {
                if self.registers[x as usize] == imm {
                    self.program_counter = self.program_counter + 2;
                }
                Ok(StepOutcome::Executed)
            },
            Op::SkipNeImm { x, imm } => {
                if self.registers[x as usize] != imm {
                    self.program_counter = self.program_counter + 2;
                }
                Ok(StepOutcome::Executed)
            },
            Op::SkipEqReg { x, y } => {
                if self.registers[x as usize] == self.registers[y as usize] {
                    self.program_counter = self.program_counter + 2;
                }
                Ok(StepOutcome::Executed)
            },
            Op::SkipNeReg { x, y } => {
                if self.registers[x as usize] != self.registers[y as usize] {
                    self.program_counter = self.program_counter + 2;
                }
                Ok(StepOutcome::Executed)
            },
            _ => vstd::pervasive::unreached(),
        }
    }

    /// Execute an operation on registers, timers or the index register.
    #[verifier::rlimit(100)]
    fn execute_register(&mut self, op: Op, rand: u8) -> (r: Result<StepOutcome, ChipFault>)
        requires
            old(self).wf(),
            op.wf(),
            op_is_register(op),
            2 <= old(self)@.pc,
            old(self)@.pc <= MEMORY_LEN,
        ensures
            final(self).wf(),
            (final(self)@, r) == spec_execute(old(self)@, op, rand),
    {
        match op {
            Op::SetImm { x, imm } => {
                self.registers.set(x as usize, imm);
                Ok(StepOutcome::Executed)
            },
            Op::AddImm { x, imm } => {
                let vx = self.registers[x as usize];
                self.registers.set(x as usize, vx.wrapping_add(imm));
                Ok(StepOutcome::Executed)
            },
            Op::Alu { x, y, f } => {
                self.alu(x, y, f);
                Ok(StepOutcome::Executed)
            },
            Op::SetIndex { addr } => {
                self.index_pointer = addr;
                Ok(StepOutcome::Executed)
            },
            Op::RandomAnd { x, imm } => {
                self.registers.set(x as usize, rand & imm);
                Ok(StepOutcome::Executed)
            },
            Op::ReadDelay { x } => {
                self.registers.set(x as usize, self.delay_timer);
                Ok(StepOutcome::Executed)
            },
            Op::SetDelay { x } => {
                self.delay_timer = self.registers[x as usize];
                Ok(StepOutcome::Executed)
            },
            Op::SetSound { x } => {
                self.sound_timer = self.registers[x as usize];
                Ok(StepOutcome::Executed)
            },
            Op::AddIndex { x } => {
                let vx = self.registers[x as usize];
                self.index_pointer = self.index_pointer.wrapping_add(vx as u16);
                let flag: u8 = if self.index_pointer >= 0x1000 {
                    1
                } else {
                    0
                };
                self.registers.set(15, flag);
                Ok(StepOutcome::Executed)
            },
            Op::FontChar { x } => {
                let character = self.registers[x as usize] % 16;
                self.index_pointer = FONT_ADDRESS + (character as u16) * 5;
                Ok(StepOutcome::Executed)
            },
            _ => vstd::pervasive::unreached(),
        }
    }

    /// Execute a memory, draw or key operation, or skip an unrecognized one.
    #[verifier::rlimit(50)]
    fn execute_memory_key(&mut self, op: Op, rand: u8) -> (r: Result<StepOutcome, ChipFault>)
        requires
            old(self).wf(),
            op.wf(),
            op_is_memory_or_key(op),
            2 <= old(self)@.pc,
            old(self)@.pc <= MEMORY_LEN,
        ensures
            final(self).wf(),
            (final(self)@, r) == spec_execute(old(self)@, op, rand),
    {
        match op {
            Op::Draw { x, y, n } => {
                match self.draw([x, y, n]) {
                    Ok(_) => Ok(StepOutcome::Executed),
                    Err(fault) => Err(fault),
                }
            },
            Op::SkipKeyPressed { x } => {
                match self.key {
                    Some(key) => {
                        if self.registers[x as usize] == key.code() {
                            self.program_counter = self.program_counter + 2;
                        }
                    },
                    None => {},
                }
                Ok(StepOutcome::Executed)
            },
            Op::SkipKeyNotPressed { x } => {
                match self.key {
                    Some(key) => {
                        if self.registers[x as usize] != key.code() {
                            self.program_counter = self.program_counter + 2;
                        }
                    },
                    None => {
                        self.program_counter = self.program_counter + 2;
                    },
                }
                Ok(StepOutcome::Executed)
            },
            Op::AwaitKey { x } => {
                match self.key {
                    Some(key) => {
                        self.registers.set(x as usize, key.code());
                    },
                    None => {
                        self.program_counter = self.program_counter - 2;
                    },
                }
                Ok(StepOutcome::Executed)
            },
            Op::StoreBcd { x } => {
                match self.store_bcd(x) {
                    Ok(_) => Ok(StepOutcome::Executed),
                    Err(fault) => Err(fault),
                }
            },
            Op::StoreRegs { x } => {
                match self.store_registers(x) {
                    Ok(_) => Ok(StepOutcome::Executed),
                    Err(fault) => Err(fault),
                }
            },
            Op::LoadRegs { x } => {
                match self.load_registers(x) {
                    Ok(_) => Ok(StepOutcome::Executed),
                    Err(fault) => Err(fault),
                }
            },
            Op::Unrecognized => Ok(StepOutcome::Unrecognized),
            _ => vstd::pervasive::unreached(),
        }
    }

    /// Execute one decoded operation on a post-fetch state (the program
    /// counter already points past the instruction). `rand` is the byte
    /// used by the random instruction.
    pub fn execute(&mut self, op: Op, rand: u8) -> (r: Result<StepOutcome, ChipFault>)
        requires
            old(self).wf(),
            op.wf(),
            2 <= old(self)@.pc,
            old(self)@.pc <= MEMORY_LEN,
        ensures
            final(self).wf(),
            (final(self)@, r) == spec_execute(old(self)@, op, rand),
    {
        match op {
            Op::ClearScreen | Op::Jump { .. } | Op::Call { .. } | Op::Return | Op::JumpOffset {
                ..
            } | Op::SkipEqImm { .. } | Op::SkipNeImm { .. } | Op::SkipEqReg { .. }
                | Op::SkipNeReg { .. } => self.execute_control(op, rand),
            Op::SetImm { .. } | Op::AddImm { .. } | Op::Alu { .. } | Op::SetIndex { .. }
                | Op::RandomAnd { .. } | Op::ReadDelay { .. } | Op::SetDelay { .. }
                | Op::SetSound { .. } | Op::AddIndex { .. } | Op::FontChar { .. } => self
                .execute_register(op, rand),
            _ => self.execute_memory_key(op, rand),
        }
    }

    /// Decode and execute the given instruction, drawing the byte for the
    /// random instruction from the thread-local generator.
    pub fn decode_execute(&mut self, instruction: ChipInstruction) -> (r: Result<
        StepOutcome,
        ChipFault,
    >)
        requires
            old(self).wf(),
            instruction.wf(),
            2 <= old(self)@.pc,
            old(self)@.pc <= MEMORY_LEN,
        ensures
            final(self).wf(),
            exists|rand: u8|
                (final(self)@, r) == spec_execute(
                    old(self)@,
                    spec_decode(instruction.raw@[0], instruction.raw@[1]),
                    rand,
                ),
    {
        let rand = random_byte();
        let op = instruction.decode();
        let r = self.execute(op, rand);
        proof {
            assert((self@, r) == spec_execute(
                old(self)@,
                spec_decode(instruction.raw@[0], instruction.raw@[1]),
                rand,
            ));
        }
        r
    }

    /// One whole step at clock reading `now` (nanoseconds) with random byte
    /// `random`: update the timers, then fetch, decode and execute one
    /// instruction.
    pub fn step_at(&mut self, now: u64, random: u8) -> (r: Result<StepOutcome, ChipFault>)
        requires
            old(self).wf(),
        ensures
            final(self).wf(),
            (final(self)@, r) == spec_step(old(self)@, now, random),
    {
        self.update_timer_at(now);
        let instruction = match self.fetch() {
            Ok(instruction) => instruction,
            Err(fault) => {
                return Err(fault);
            },
        };
        let op = instruction.decode();
        self.execute(op, random)
    }

    /// Run one emulator step: decrement the timers on their own cadence,
    /// then fetch, decode and execute the instruction at the program
    /// counter.
    pub fn step(&mut self) -> (r: Result<StepOutcome, ChipFault>)
        requires
            old(self).wf(),
        ensures
            final(self).wf(),
            exists|now: u64, random: u8|
                (final(self)@, r) == spec_step(old(self)@, now, random),
    {
        let now = nanos_since(&self.clock_anchor);
        let random = random_byte();
        let r = self.step_at(now, random);
        proof {
            assert((self@, r) == spec_step(old(self)@, now, random));
        }
        r
    }

    /// The current program counter.
    pub fn get_program_counter(&self) -> (r: u16)
        ensures
            r == self@.pc,
    {
        self.program_counter
    }

    /// The current value of register `x`.
    pub fn get_register(&self, x: u8) -> (r: u8)
        requires
            self.wf(),
            x < 16,
        ensures
            r == self@.regs[x as int],
    {
        self.registers[x as usize]
    }

    /// Set register `x` to `value`.
    pub fn set_register(&mut self, x: u8, value: u8)
        requires
            old(self).wf(),
            x < 16,
        ensures
            final(self).wf(),
            final(self)@ == old(self)@.with_reg(x, value),
    {
        self.registers.set(x as usize, value);
    }

    /// The current value of the delay timer.
    pub fn get_delay_timer(&self) -> (r: u8)
        ensures
            r == self@.delay,
    {
        self.delay_timer
    }

    /// Set the delay timer to `value`.
    pub fn set_delay_timer(&mut self, value: u8)
        requires
            old(self).wf(),
        ensures
            final(self).wf(),
            final(self)@ == (EmuState { delay: value, ..old(self)@ }),
    {
        self.delay_timer = value;
    }

    /// The current value of the index register.
    pub fn get_index_pointer(&self) -> (r: u16)
        ensures
            r == self@.index,
    {
        self.index_pointer
    }

    /// Set the index register to `address`.
    pub fn set_index_pointer(&mut self, address: u16)
        requires
            old(self).wf(),
        ensures
            final(self).wf(),
            final(self)@ == (EmuState { index: address, ..old(self)@ }),
    {
        self.index_pointer = address;
    }

    /// The byte of memory at `address`.
    pub fn get_memory_byte(&self, address: u16) -> (r: u8)
        requires
            self.wf(),
            address < 4096,
        ensures
            r == self@.mem[address as int],
    {
        self.memory[address as usize]
    }

    /// The advisory duration of one clock cycle, in nanoseconds, computed
    /// from the configured instruction rate.
    pub fn get_cycle_duration(&self) -> (r: u64)
        requires
            self@.ips >= 1,
        ensures
            r == 1_000_000_000u64 / self@.ips as u64,
    {
        1_000_000_000u64 / (self.config.instruction_per_second as u64)
    }
}

} // verus!
