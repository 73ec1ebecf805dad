use crate::font::{glyph_address, FONT};
use crate::opcode::{
    family, operand_n, operand_nn, operand_nnn, operand_x, operand_y, OpCode,
};
use vstd::prelude::*;

verus! {

/// Number of addressable memory cells.
pub const MEMORY_SIZE: usize = 4096;

/// Address at which a program is loaded and at which execution starts.
pub const PROGRAM_START: u16 = 0x200;

/// Largest program, in bytes, that fits between the load address and the end
/// of memory.
pub const PROGRAM_CAPACITY: usize = 3584;

/// Framebuffer width in pixels.
pub const SCREEN_WIDTH: usize = 64;

/// Framebuffer height in pixels.
pub const SCREEN_HEIGHT: usize = 32;

/// Index of the register that doubles as carry, borrow and collision flag.
pub const FLAG: usize = 0xF;

/// An integer reduced to a byte.
pub open spec fn wrap8(value: int) -> u8 {
    (value % 0x100) as u8
}

/// An integer reduced to sixteen bits.
pub open spec fn wrap16(value: int) -> u16 {
    (value % 0x1_0000) as u16
}

/// An integer reduced to a memory address.
pub open spec fn wrap_address(value: int) -> int {
    value % 4096
}

/// Bit `column` of a sprite row, counting from the most significant bit.
pub open spec fn sprite_bit(row: u8, column: int) -> bool {
    (row as int / sprite_weight(column)) % 2 == 1
}

/// Weight of the bit that a sprite row holds for `column`.
pub open spec fn sprite_weight(column: int) -> int {
    if column == 0 {
        128
    } else if column == 1 {
        64
    } else if column == 2 {
        32
    } else if column == 3 {
        16
    } else if column == 4 {
        8
    } else if column == 5 {
        4
    } else if column == 6 {
        2
    } else {
        1
    }
}

/// Number of sprite rows that reach the screen when a sprite of `height`
/// rows starts in row `top`. After each row the sprite moves one row down
/// and stops when that brings it to row 31 or past it, so the last row of
/// the screen is drawn only as the first row of a sprite that starts there.
pub open spec fn visible_rows(top: int, height: int) -> int {
    if height <= 0 {
        0
    } else if top >= 31 {
        1
    } else if height <= 31 - top {
        height
    } else {
        31 - top
    }
}

/// The pixel at column `col` of row `row` lies under a sprite of `height`
/// rows whose top-left corner is at (`left`, `top`). A sprite is eight
/// pixels wide and is cut off at the right and bottom edges of the screen.
pub open spec fn under_sprite(left: int, top: int, height: int, col: int, row: int) -> bool {
    &&& left <= col < left + 8
    &&& col < 64
    &&& top <= row < top + visible_rows(top, height)
}

/// The complete state of a CHIP-8 machine, as mathematics.
pub struct Machine {
    /// Address of the next instruction.
    pub pc: u16,
    /// The index register.
    pub index: u16,
    /// Memory, one byte per address.
    pub memory: Seq<u8>,
    /// Return addresses, most recent last.
    pub stack: Seq<u16>,
    /// The sixteen general-purpose registers.
    pub registers: Seq<u8>,
    /// The delay timer.
    pub delay_timer: u8,
    /// The sound timer.
    pub sound_timer: u8,
    /// The register that waits for a key, while the machine is suspended.
    pub awaiting_key: Option<usize>,
    /// The key seen down during the current wait, if any.
    pub key_down: Option<u8>,
    /// The last cycle rewrote the framebuffer.
    pub screen_mutated: bool,
    /// The framebuffer, as rows of pixels.
    pub screen: Seq<Seq<u8>>,
}

impl Machine {
    /// The collections have their fixed sizes, a pending wait names an
    /// existing register, and a remembered key is a key of the keypad.
    pub open spec fn wf(self) -> bool {
        &&& self.memory.len() == 4096
        &&& self.registers.len() == 16
        &&& self.screen.len() == 32
        &&& forall|row: int| 0 <= row < 32 ==> (#[trigger] self.screen[row]).len() == 64
        &&& self.awaiting_key matches Some(register) ==> register < 16
        &&& self.key_down matches Some(key) ==> key < 16
    }

    /// A framebuffer with every pixel off.
    pub open spec fn blank_screen() -> Seq<Seq<u8>> {
        Seq::new(32, |row: int| Seq::new(64, |col: int| 0u8))
    }

    /// The machine at power-on: the font at the bottom of memory, the
    /// program counter at the load address, everything else zero.
    pub open spec fn initial() -> Machine {
        Machine {
            pc: 0x200,
            index: 0,
            memory: Seq::new(
                4096,
                |address: int|
                    if address < 80 {
                        FONT@[address]
                    } else {
                        0u8
                    },
            ),
            stack: Seq::empty(),
            registers: Seq::new(16, |register: int| 0u8),
            delay_timer: 0,
            sound_timer: 0,
            awaiting_key: None,
            key_down: None,
            screen_mutated: false,
            screen: Self::blank_screen(),
        }
    }

    /// The byte at an address; addresses wrap around the end of memory.
    pub open spec fn byte_at(self, address: int) -> u8 {
        self.memory[wrap_address(address)]
    }

    /// The machine with `program` copied into memory from the load address
    /// on, and nothing else changed.
    pub open spec fn load(self, program: Seq<u8>) -> Machine {
        Machine {
            memory: Seq::new(
                4096,
                |address: int|
                    if 0x200 <= address < 0x200 + program.len() {
                        program[address - 0x200]
                    } else {
                        self.memory[address]
                    },
            ),
            ..self
        }
    }

    /// Both timers one step closer to zero; a timer at zero stays there.
    pub open spec fn tick_timers(self) -> Machine {
        Machine {
            delay_timer: if self.delay_timer == 0 {
                0
            } else {
                (self.delay_timer - 1) as u8
            },
            sound_timer: if self.sound_timer == 0 {
                0
            } else {
                (self.sound_timer - 1) as u8
            },
            ..self
        }
    }

    /// The instruction word at the program counter: the byte there is the
    /// high half, the byte after it the low half.
    pub open spec fn current_instruction(self) -> u16 {
        (self.byte_at(self.pc as int) * 0x100 + self.byte_at(self.pc + 1)) as u16
    }

    /// The program counter moved past one instruction.
    pub open spec fn skip(self) -> Machine {
        Machine { pc: wrap16(self.pc + 2), ..self }
    }

    /// The operation that an instruction word stands for in this state.
    /// `random` is the byte that the random-number instruction masks.
    pub open spec fn decode(self, word: u16, random: u8) -> OpCode {
        let x = operand_x(word);
        let y = operand_y(word);
        let n = operand_n(word);
        let nn = operand_nn(word);
        let nnn = operand_nnn(word);
        let vx = self.registers[x as int];
        let vy = self.registers[y as int];
        let kind = family(word);
        if word == 0x00E0 {
            OpCode::ClearScreen
        } else if word == 0x00EE {
            OpCode::ReturnFromSubroutine
        } else if kind == 0x1 {
            OpCode::Jump(nnn)
        } else if kind == 0x2 {
            OpCode::CallSubroutine(nnn)
        } else if kind == 0x3 {
            if vx == nn {
                OpCode::Skip
            } else {
                OpCode::NoOp
            }
        } else if kind == 0x4 {
            if vx != nn {
                OpCode::Skip
            } else {
                OpCode::NoOp
            }
        } else if kind == 0x5 && n == 0x0 {
            if vx == vy {
                OpCode::Skip
            } else {
                OpCode::NoOp
            }
        } else if kind == 0x9 && n == 0x0 {
            if vx != vy {
                OpCode::Skip
            } else {
                OpCode::NoOp
            }
        } else if kind == 0x6 {
            OpCode::SetRegister(x, nn)
        } else if kind == 0x7 {
            OpCode::AddToRegister(x, nn)
        } else if kind == 0x8 {
            if n == 0x0 {
                OpCode::SetRegister(x, vy)
            } else if n == 0x1 {
                OpCode::SetRegister(x, vx | vy)
            } else if n == 0x2 {
                OpCode::SetRegister(x, vx & vy)
            } else if n == 0x3 {
                OpCode::SetRegister(x, vx ^ vy)
            } else if n == 0x4 {
                OpCode::Add(x, y)
            } else if n == 0x5 {
                OpCode::Subtract(x, y, x)
            } else if n == 0x6 {
                OpCode::ShiftRight(x)
            } else if n == 0x7 {
                OpCode::Subtract(y, x, x)
            } else if n == 0xE {
                OpCode::ShiftLeft(x)
            } else {
                OpCode::NoOp
            }
        } else if kind == 0xA {
            OpCode::SetIndex(nnn)
        } else if kind == 0xB {
            OpCode::Jump((nnn + self.registers[0]) as u16)
        } else if kind == 0xC {
            OpCode::SetRegister(x, random & nn)
        } else if kind == 0xD {
            OpCode::Draw(x, y, n)
        } else if kind == 0xE {
            if nn == 0x9E {
                OpCode::SkipIfKey(x, true)
            } else if nn == 0xA1 {
                OpCode::SkipIfKey(x, false)
            } else {
                OpCode::NoOp
            }
        } else if kind == 0xF {
            if nn == 0x07 {
                OpCode::SetRegister(x, self.delay_timer)
            } else if nn == 0x15 {
                OpCode::SetDelayTimer(vx)
            } else if nn == 0x18 {
                OpCode::SetSoundTimer(vx)
            } else if nn == 0x1E {
                OpCode::SetIndex(wrap16(self.index + vx))
            } else if nn == 0x0A {
                OpCode::GetKey(x)
            } else if nn == 0x29 {
                OpCode::SetIndex(glyph_address(vx))
            } else if nn == 0x33 {
                OpCode::BinaryConversion(x)
            } else if nn == 0x55 {
                OpCode::StoreMemory(x)
            } else if nn == 0x65 {
                OpCode::LoadMemory(x)
            } else {
                OpCode::NoOp
            }
        } else {
            OpCode::NoOp
        }
    }

    /// Every pixel off.
    pub open spec fn clear_screen(self) -> Machine {
        Machine { screen: Self::blank_screen(), ..self }
    }

    /// Execution continues at `address`.
    pub open spec fn set_pc(self, address: u16) -> Machine {
        Machine { pc: address, ..self }
    }

    /// The index register holds `value`.
    pub open spec fn set_index(self, value: u16) -> Machine {
        Machine { index: value, ..self }
    }

    /// Register `register` holds `value`.
    pub open spec fn set_register(self, register: usize, value: u8) -> Machine {
        Machine { registers: self.registers.update(register as int, value), ..self }
    }

    /// The flag register holds `value`.
    pub open spec fn set_carry(self, value: u8) -> Machine {
        self.set_register(15, value)
    }

    /// `value` added to register `register`, modulo 256.
    pub open spec fn add_to_register(self, register: usize, value: u8) -> Machine {
        self.set_register(register, wrap8(self.registers[register as int] + value))
    }

    /// The return address pushed and execution continued at `address`.
    pub open spec fn call_subroutine(self, address: u16) -> Machine {
        Machine { stack: self.stack.push(self.pc), pc: address, ..self }
    }

    /// The most recent return address popped into the program counter.
    pub open spec fn return_from_subroutine(self) -> Machine {
        Machine { stack: self.stack.drop_last(), pc: self.stack.last(), ..self }
    }

    /// The next instruction stepped over if `key` is held exactly when
    /// `pressed` says it should be. `keys` are the keys held down.
    pub open spec fn skip_if_key(self, key: u8, pressed: bool, keys: Seq<u8>) -> Machine {
        if pressed == keys.contains(key) {
            self.skip()
        } else {
            self
        }
    }

    /// Register `y` added to register `x` modulo 256; the flag is written
    /// first, 1 if the sum passed 255 and 0 otherwise.
    pub open spec fn add(self, x: usize, y: usize) -> Machine {
        let vx = self.registers[x as int];
        let vy = self.registers[y as int];
        self.set_carry(
            if vx + vy > 255 {
                1
            } else {
                0
            },
        ).set_register(x, wrap8(vx + vy))
    }

    /// Register `y` subtracted from register `x` modulo 256 and stored in
    /// `destination`; the flag is written first, 1 if register `x` was the
    /// larger and 0 otherwise.
    pub open spec fn subtract(self, x: usize, y: usize, destination: usize) -> Machine {
        let vx = self.registers[x as int];
        let vy = self.registers[y as int];
        self.set_carry(
            if vx > vy {
                1
            } else {
                0
            },
        ).set_register(destination, wrap8(vx - vy))
    }

    /// The flag receives the lowest bit of register `x`; then the register
    /// is halved.
    pub open spec fn shift_right(self, x: usize) -> Machine {
        let flagged = self.set_carry(self.registers[x as int] % 2);
        flagged.set_register(x, flagged.registers[x as int] / 2)
    }

    /// The flag receives the highest bit of register `x`; then the register
    /// is doubled modulo 256.
    pub open spec fn shift_left(self, x: usize) -> Machine {
        let flagged = self.set_carry(self.registers[x as int] / 128);
        flagged.set_register(x, wrap8(flagged.registers[x as int] * 2))
    }

    /// The delay timer holds `value`.
    pub open spec fn set_delay_timer(self, value: u8) -> Machine {
        Machine { delay_timer: value, ..self }
    }

    /// The sound timer holds `value`.
    pub open spec fn set_sound_timer(self, value: u8) -> Machine {
        Machine { sound_timer: value, ..self }
    }

    /// The wait for a key begins or ends.
    pub open spec fn set_waiting_key(self, register: Option<usize>) -> Machine {
        Machine { awaiting_key: register, ..self }
    }

    /// The hundreds, tens and ones of register `register` stored at the
    /// index address and the two addresses after it.
    pub open spec fn binary_conversion(self, register: usize) -> Machine {
        let value = self.registers[register as int];
        Machine {
            memory: self.memory.update(wrap_address(self.index as int), value / 100).update(
                wrap_address(self.index + 1),
                (value / 10) % 10,
            ).update(wrap_address(self.index + 2), value % 10),
            ..self
        }
    }

    /// Registers 0 to `register` copied to memory from the index address on,
    /// wrapping around the end of memory.
    pub open spec fn store_memory(self, register: usize) -> Machine {
        Machine {
            memory: Seq::new(
                4096,
                |address: int|
                    {
                        let offset = wrap_address(address - self.index);
                        if offset <= register {
                            self.registers[offset]
                        } else {
                            self.memory[address]
                        }
                    },
            ),
            ..self
        }
    }

    /// Registers 0 to `register` filled from memory from the index address
    /// on, wrapping around the end of memory.
    pub open spec fn load_memory(self, register: usize) -> Machine {
        Machine {
            registers: Seq::new(
                16,
                |r: int|
                    if r <= register {
                        self.byte_at(self.index + r)
                    } else {
                        self.registers[r]
                    },
            ),
            ..self
        }
    }

    /// A sprite of `height` rows, read from the index address on and placed
    /// with its corner at (`left`, `top`), has a set bit over this pixel.
    pub open spec fn sprite_covers(self, left: int, top: int, height: int, col: int, row: int) -> bool {
        &&& under_sprite(left, top, height, col, row)
        &&& sprite_bit(self.byte_at(self.index + (row - top)), col - left)
    }

    /// The sprite has a set bit over a pixel that is on.
    pub open spec fn sprite_collides(self, left: int, top: int, height: int) -> bool {
        exists|col: int, row: int|
            #[trigger] self.sprite_covers(left, top, height, col, row) && self.screen[row][col]
                == 1
    }

    /// The pixel at (`col`, `row`) once the sprite is drawn: a set sprite
    /// bit turns a pixel that is on off and any other pixel on; elsewhere
    /// the pixel keeps its value.
    pub open spec fn drawn_pixel(self, left: int, top: int, height: int, col: int, row: int) -> u8 {
        if self.sprite_covers(left, top, height, col, row) {
            if self.screen[row][col] == 1 {
                0
            } else {
                1
            }
        } else {
            self.screen[row][col]
        }
    }

    /// The sprite of `height` rows at the index address drawn at the
    /// position that registers `x` and `y` hold, reduced to the screen; the
    /// flag tells whether a pixel was turned off.
    pub open spec fn update_screen(self, x: usize, y: usize, height: u16) -> Machine {
        let left = self.registers[x as int] as int % 64;
        let top = self.registers[y as int] as int % 32;
        Machine {
            registers: self.registers.update(
                15,
                if self.sprite_collides(left, top, height as int) {
                    1u8
                } else {
                    0u8
                },
            ),
            screen: Seq::new(
                32,
                |row: int|
                    Seq::new(64, |col: int| self.drawn_pixel(left, top, height as int, col, row)),
            ),
            ..self
        }
    }

    /// The operation can be executed: its registers exist and, if it
    /// returns from a subroutine, there is a subroutine to return from.
    pub open spec fn can_execute(self, op: OpCode) -> bool {
        &&& op.valid()
        &&& op is ReturnFromSubroutine ==> self.stack.len() > 0
    }

    /// The machine after one operation. `keys` are the keys held down.
    pub open spec fn execute(self, op: OpCode, keys: Seq<u8>) -> Machine {
        match op {
            OpCode::ClearScreen => self.clear_screen(),
            OpCode::Jump(address) => self.set_pc(address),
            OpCode::SetRegister(x, value) => self.set_register(x, value),
            OpCode::AddToRegister(x, value) => self.add_to_register(x, value),
            OpCode::Draw(x, y, height) => self.update_screen(x, y, height),
            OpCode::SetIndex(value) => self.set_index(value),
            OpCode::CallSubroutine(address) => self.call_subroutine(address),
            OpCode::ReturnFromSubroutine => self.return_from_subroutine(),
            OpCode::Skip => self.skip(),
            OpCode::SkipIfKey(x, pressed) => self.skip_if_key(
                self.registers[x as int],
                pressed,
                keys,
            ),
            OpCode::NoOp => self,
            OpCode::Add(x, y) => self.add(x, y),
            OpCode::Subtract(x, y, destination) => self.subtract(x, y, destination),
            OpCode::ShiftRight(x) => self.shift_right(x),
            OpCode::ShiftLeft(x) => self.shift_left(x),
            OpCode::SetDelayTimer(value) => self.set_delay_timer(value),
            OpCode::SetSoundTimer(value) => self.set_sound_timer(value),
            OpCode::GetKey(x) => self.set_waiting_key(Some(x)),
            OpCode::BinaryConversion(x) => self.binary_conversion(x),
            OpCode::StoreMemory(x) => self.store_memory(x),
            OpCode::LoadMemory(x) => self.load_memory(x),
        }
    }

    /// The next cycle draws a random byte: the machine is running and the
    /// instruction at the program counter is the random-number instruction.
    pub open spec fn wants_random(self) -> bool {
        self.awaiting_key is None && family(self.current_instruction()) == 0xC
    }

    /// A cycle can run: the machine is suspended, or the instruction at the
    /// program counter is not a return with nothing to return to.
    pub open spec fn can_tick(self) -> bool {
        self.awaiting_key is None && self.current_instruction() == 0x00EE ==> self.stack.len()
            > 0
    }

    /// One step of a pending key wait. While any key is held, the first one
    /// reported is remembered. Once none is held and one was remembered, its
    /// code goes to `register` and the machine runs again.
    pub open spec fn await_key(self, register: usize, keys: Seq<u8>) -> Machine {
        if keys.len() > 0 {
            Machine { key_down: Some(keys[0]), ..self }
        } else {
            match self.key_down {
                Some(key) => Machine {
                    registers: self.registers.update(register as int, key),
                    awaiting_key: None,
                    key_down: None,
                    ..self
                },
                None => self,
            }
        }
    }

    /// One instruction fetched, decoded and executed; the mutation flag
    /// records whether it rewrote the framebuffer.
    pub open spec fn step(self, keys: Seq<u8>, random: u8) -> Machine {
        let fetched = self.skip();
        let op = fetched.decode(self.current_instruction(), random);
        Machine { screen_mutated: op.touches_screen(), ..fetched.execute(op, keys) }
    }

    /// One cycle: a step of the key wait while the machine is suspended, an
    /// instruction otherwise.
    pub open spec fn tick(self, keys: Seq<u8>, random: u8) -> Machine {
        match self.awaiting_key {
            Some(register) => self.await_key(register, keys),
            None => self.step(keys, random),
        }
    }
}

} // verus!
