use crate::font::{FONT, FONT_SIZE};
use crate::keypad::Keypad;
use crate::machine::{
    sprite_bit, visible_rows, wrap_address, Machine, FLAG, MEMORY_SIZE, PROGRAM_CAPACITY,
    PROGRAM_START,
};
use crate::opcode::{
    family, operand_n, operand_nn, operand_nnn, operand_x, operand_y, OpCode,
};
use crate::random::random_byte;
use vstd::prelude::*;

verus! {

/// A CHIP-8 machine: memory, registers, call stack, timers, the state of a
/// pending key wait and the framebuffer.
#[derive(Debug)]
pub struct Cpu {
    pc: u16,
    i: u16,
    memory: [u8; 4096],
    stack: Vec<u16>,
    registers: [u8; 16],
    delay_timer: u8,
    sound_timer: u8,
    awaiting_key_register: Option<usize>,
    key_down: Option<u8>,
    screen_mutated: bool,
    /// The framebuffer: 32 rows of 64 pixels, each 0 (off) or 1 (on).
    pub screen: [[u8; 64]; 32],
}

/// A framebuffer as rows of pixels.
pub open spec fn screen_rows(screen: [[u8; 64]; 32]) -> Seq<Seq<u8>> {
    Seq::new(32, |row: int| screen@[row]@)
}

impl View for Cpu {
    type V = Machine;

    closed spec fn view(&self) -> Machine {
        Machine {
            pc: self.pc,
            index: self.i,
            memory: self.memory@,
            stack: self.stack@,
            registers: self.registers@,
            delay_timer: self.delay_timer,
            sound_timer: self.sound_timer,
            awaiting_key: self.awaiting_key_register,
            key_down: self.key_down,
            screen_mutated: self.screen_mutated,
            screen: screen_rows(self.screen),
        }
    }
}

impl Default for Cpu {
    /// A machine at power-on.
    fn default() -> (cpu: Self)
        ensures
            cpu@ == Machine::initial(),
            cpu.wf(),
    {
        let mut memory = [0u8; 4096];
        let mut address: usize = 0;
        while address < FONT_SIZE
            invariant
                address <= 80,
                forall|a: int| 0 <= a < address ==> memory@[a] == FONT@[a],
                forall|a: int| address <= a < 4096 ==> memory@[a] == 0,
            decreases 80 - address,
        {
            memory[address] = FONT[address];
            address += 1;
        }
        let cpu = Cpu {
            pc: PROGRAM_START,
            i: 0,
            memory,
            stack: Vec::new(),
            registers: [0u8; 16],
            delay_timer: 0,
            sound_timer: 0,
            awaiting_key_register: None,
            key_down: None,
            screen_mutated: false,
            screen: [[0u8; 64]; 32],
        };
        assert(cpu@.memory =~= Machine::initial().memory);
        assert(cpu@.registers =~= Machine::initial().registers);
        assert(cpu@.screen =~~= Machine::initial().screen);
        assert(cpu@.stack =~= Machine::initial().stack);
        cpu
    }
}

impl Cpu {
    /// The state is well formed: a pending wait names an existing register
    /// and a remembered key is a key of the keypad.
    pub open spec fn wf(&self) -> bool {
        self@.wf()
    }

    /// A machine at power-on: the font in memory, the program counter at
    /// the load address, everything else zero.
    pub fn new() -> (cpu: Self)
        ensures
            cpu@ == Machine::initial(),
            cpu.wf(),
    {
        Default::default()
    }

    /// Copies a program into memory, starting at the load address. The font
    /// and every cell that the program does not reach keep their contents.
    /// A program that does not fit between the load address and the end of
    /// memory cannot be loaded.
    pub fn load(self, program: &[u8]) -> (cpu: Cpu)
        requires
            self.wf(),
            program@.len() <= PROGRAM_CAPACITY,
        ensures
            cpu@ == self@.load(program@),
            cpu.wf(),
    {
        let ghost start = self@;
        let mut cpu = self;
        let mut i: usize = 0;
        while i < program.len()
            invariant
                i <= program@.len() <= PROGRAM_CAPACITY,
                cpu@ == (Machine { memory: cpu@.memory, ..start }),
                cpu@.memory.len() == 4096,
                forall|address: int|
                    0 <= address < 4096 ==> #[trigger] cpu@.memory[address] == (if 0x200
                        <= address < 0x200 + i {
                        program@[address - 0x200]
                    } else {
                        start.memory[address]
                    }),
            decreases program@.len() - i,
        {
            cpu.memory[PROGRAM_START as usize + i] = program[i];
            i += 1;
        }
        assert(cpu@.memory =~= start.load(program@).memory);
        cpu
    }

    /// Moves both timers one step towards zero; a timer at zero stays there.
    pub fn tick_timers(&mut self)
        ensures
            final(self)@ == old(self)@.tick_timers(),
            old(self).wf() ==> final(self).wf(),
    {
        self.delay_timer = self.delay_timer.saturating_sub(1);
        self.sound_timer = self.sound_timer.saturating_sub(1);
    }

    /// Tells whether the tone should sound: the sound timer is running.
    pub fn should_beep(&self) -> (beep: bool)
        ensures
            beep == (self@.sound_timer > 0),
    {
        self.sound_timer > 0
    }

    /// Tells whether the last cycle rewrote the framebuffer.
    pub fn should_draw(&self) -> (draw: bool)
        ensures
            draw == self@.screen_mutated,
    {
        self.screen_mutated
    }

    /// Reads register `register`.
    pub fn get_register(&mut self, register: usize) -> (value: u8)
        requires
            register < 16,
        ensures
            value == old(self)@.registers[register as int],
            *final(self) == *old(self),
    {
        self.registers[register]
    }

    /// Writes `value` to register `register`. Any byte can be stored; only
    /// the register number is limited.
    pub fn set_register(&mut self, register: usize, value: u8)
        requires
            register < 16,
            old(self).wf(),
        ensures
            final(self)@ == old(self)@.set_register(register, value),
            final(self).wf(),
    {
        self.registers[register] = value;
    }

    /// Writes `value` to the flag register.
    pub fn set_carry(&mut self, value: u8)
        requires
            old(self).wf(),
        ensures
            final(self)@ == old(self)@.set_carry(value),
            final(self).wf(),
    {
        self.registers[FLAG] = value;
    }

    /// Adds `value` to register `register`, modulo 256. The flag register is
    /// not used to report a carry.
    pub fn add_to_register(&mut self, register: usize, value: u8)
        requires
            register < 16,
            old(self).wf(),
        ensures
            final(self)@ == old(self)@.add_to_register(register, value),
            final(self).wf(),
    {
        let sum = self.registers[register].wrapping_add(value);
        self.set_register(register, sum);
    }

    /// Reads the index register.
    pub fn get_index(&self) -> (value: u16)
        ensures
            value == self@.index,
    {
        self.i
    }

    /// Writes the index register.
    pub fn set_index(&mut self, value: u16)
        requires
            old(self).wf(),
        ensures
            final(self)@ == old(self)@.set_index(value),
            final(self).wf(),
    {
        self.i = value
    }

    /// Reads the program counter.
    pub fn get_pc(&self) -> (value: u16)
        ensures
            value == self@.pc,
    {
        self.pc
    }

    /// Writes the program counter.
    pub fn set_pc(&mut self, value: u16)
        requires
            old(self).wf(),
        ensures
            final(self)@ == old(self)@.set_pc(value),
            final(self).wf(),
    {
        self.pc = value
    }

    /// Moves the program counter past one instruction.
    pub fn skip(&mut self)
        requires
            old(self).wf(),
        ensures
            final(self)@ == old(self)@.skip(),
            final(self).wf(),
    {
        self.pc = self.pc.wrapping_add(2)
    }

    /// Pushes the program counter and continues at `address`.
    pub fn call_subroutine(&mut self, address: u16)
        requires
            old(self).wf(),
        ensures
            final(self)@ == old(self)@.call_subroutine(address),
            final(self).wf(),
    {
        let current_pc = self.pc;
        self.stack.push(current_pc);
        self.set_pc(address)
    }

    /// Pops the most recent return address into the program counter. There
    /// must be one: returning without a call is a defect of the program.
    pub fn return_from_subroutine(&mut self)
        requires
            old(self).wf(),
            old(self)@.stack.len() > 0,
        ensures
            final(self)@ == old(self)@.return_from_subroutine(),
            final(self).wf(),
    {
        let last_address = self.stack.pop().unwrap();
        self.set_pc(last_address)
    }

    /// The number of return addresses on the call stack.
    pub fn stack_depth(&self) -> (depth: usize)
        ensures
            depth == self@.stack.len(),
    {
        self.stack.len()
    }

    /// Loads the delay timer.
    pub fn set_delay_timer(&mut self, val: u8)
        requires
            old(self).wf(),
        ensures
            final(self)@ == old(self)@.set_delay_timer(val),
            final(self).wf(),
    {
        self.delay_timer = val;
    }

    /// Reads the delay timer.
    pub fn get_delay_timer(&self) -> (value: u8)
        ensures
            value == self@.delay_timer,
    {
        self.delay_timer
    }

    /// Loads the sound timer.
    pub fn set_sound_timer(&mut self, val: u8)
        requires
            old(self).wf(),
        ensures
            final(self)@ == old(self)@.set_sound_timer(val),
            final(self).wf(),
    {
        self.sound_timer = val;
    }

    /// Begins a wait for a key whose code goes to the given register, or
    /// ends the wait.
    pub fn set_waiting_key(&mut self, register: Option<usize>)
        requires
            old(self).wf(),
            register matches Some(r) ==> r < 16,
        ensures
            final(self)@ == old(self)@.set_waiting_key(register),
            final(self).wf(),
    {
        self.awaiting_key_register = register
    }

    /// The register that waits for a key, while the machine is suspended.
    pub fn waiting_key(&self) -> (register: Option<usize>)
        ensures
            register == self@.awaiting_key,
    {
        self.awaiting_key_register
    }

    /// Reads the byte at `address`; addresses wrap around the end of memory.
    pub fn read_memory(&self, address: u16) -> (byte: u8)
        ensures
            byte == self@.byte_at(address as int),
    {
        self.memory[address as usize % MEMORY_SIZE]
    }

    /// Adds register `y` to register `x`, modulo 256. The flag is written
    /// before the sum: 1 if the sum passed 255, 0 if it did not.
    pub fn add(&mut self, x: usize, y: usize)
        requires
            x < 16,
            y < 16,
            old(self).wf(),
        ensures
            final(self)@ == old(self)@.add(x, y),
            final(self).wf(),
    {
        let vx = self.get_register(x);
        let vy = self.get_register(y);
        if vx.checked_add(vy).is_none() {
            self.set_carry(1)
        } else {
            self.set_carry(0)
        }
        self.set_register(x, vx.wrapping_add(vy));
    }

    /// Subtracts register `y` from register `x`, modulo 256, and stores the
    /// difference in `destination`. The flag is written before the
    /// difference: 1 if register `x` was larger than register `y`, else 0.
    pub fn subtract(&mut self, x: usize, y: usize, destination: usize)
        requires
            x < 16,
            y < 16,
            destination < 16,
            old(self).wf(),
        ensures
            final(self)@ == old(self)@.subtract(x, y, destination),
            final(self).wf(),
    {
        let vx = self.get_register(x);
        let vy = self.get_register(y);
        if vx > vy {
            self.set_carry(1)
        } else {
            self.set_carry(0)
        }
        self.set_register(destination, vx.wrapping_sub(vy));
    }

    /// Shifts register `x` right by one bit. The flag receives the bit that
    /// falls off before the register is shifted.
    pub fn shift_right(&mut self, x: usize)
        requires
            x < 16,
            old(self).wf(),
        ensures
            final(self)@ == old(self)@.shift_right(x),
            final(self).wf(),
    {
        let shifted_bit = self.get_register(x) & 0b0000_0001;
        assert(shifted_bit == self@.registers[x as int] % 2) by {
            let value = self@.registers[x as int];
            assert(value & 0b0000_0001 == value % 2) by (bit_vector);
        }
        self.set_carry(shifted_bit);
        let vx = self.get_register(x);
        assert(vx >> 1 == vx / 2) by (bit_vector);
        self.set_register(x, vx >> 1);
    }

    /// Shifts register `x` left by one bit. The flag receives the bit that
    /// falls off before the register is shifted.
    pub fn shift_left(&mut self, x: usize)
        requires
            x < 16,
            old(self).wf(),
        ensures
            final(self)@ == old(self)@.shift_left(x),
            final(self).wf(),
    {
        let shifted_bit = self.get_register(x) >> 7;
        assert(shifted_bit == self@.registers[x as int] / 128) by {
            let value = self@.registers[x as int];
            assert(value >> 7 == value / 128) by (bit_vector);
        }
        self.set_carry(shifted_bit);
        let vx = self.get_register(x);
        assert(vx << 1 == (vx * 2) % 0x100) by (bit_vector);
        self.set_register(x, vx << 1);
    }

    /// Reads the instruction word at the program counter, high byte first.
    pub fn read_current_instruction(&mut self) -> (word: u16)
        ensures
            word == old(self)@.current_instruction(),
            *final(self) == *old(self),
    {
        let part_one = self.memory[self.pc as usize % MEMORY_SIZE] as u16;
        let part_two = self.memory[(self.pc as usize + 1) % MEMORY_SIZE] as u16;
        assert((part_one << 8) | part_two == part_one * 0x100 + part_two) by (bit_vector)
            requires
                part_one < 0x100,
                part_two < 0x100,
        ;
        (part_one << 8) | part_two
    }

    /// Reads the instruction word at the program counter and moves the
    /// program counter past it.
    pub fn fetch(&mut self) -> (instruction: u16)
        requires
            old(self).wf(),
        ensures
            instruction == old(self)@.current_instruction(),
            final(self)@ == old(self)@.skip(),
            final(self).wf(),
    {
        let instruction = self.read_current_instruction();
        self.skip();
        instruction
    }

    /// Reads the pixel in column `col` of row `row`.
    pub fn get_pixel(&self, col: usize, row: usize) -> (pixel: u8)
        requires
            col < 64,
            row < 32,
        ensures
            pixel == self@.screen[row as int][col as int],
    {
        self.screen[row][col]
    }

    /// Turns every pixel off.
    pub fn clear_screen(&mut self)
        requires
            old(self).wf(),
        ensures
            final(self)@ == old(self)@.clear_screen(),
            final(self).wf(),
    {
        self.screen = [[0u8; 64]; 32];
        assert(self@.screen =~~= Machine::blank_screen());
    }

    /// Steps over the next instruction if `key` is held down exactly when
    /// `pressed` asks for it, and tells whether it did.
    pub fn skip_if_key(&mut self, key: u8, pressed: bool, keys: &Keypad) -> (skipped: bool)
        requires
            old(self).wf(),
        ensures
            skipped == (pressed == keys@.contains(key)),
            final(self)@ == old(self)@.skip_if_key(key, pressed, keys@),
            final(self).wf(),
    {
        let key_pressed = keys.is_pressed(key);
        if pressed == key_pressed {
            self.skip();
        }
        pressed == key_pressed
    }

    /// Copies registers 0 to `register` into memory, starting at the index
    /// address and wrapping around the end of memory.
    pub fn store_memory(&mut self, register: usize)
        requires
            register < 16,
            old(self).wf(),
        ensures
            final(self)@ == old(self)@.store_memory(register),
            final(self).wf(),
    {
        let index = self.get_index() as usize;
        let mut x: usize = 0;
        while x < register + 1
            invariant
                register < 16,
                x <= register + 1,
                index == old(self)@.index,
                self@ == (Machine { memory: self@.memory, ..old(self)@ }),
                self@.memory.len() == 4096,
                forall|address: int|
                    0 <= address < 4096 ==> #[trigger] self@.memory[address] == (if wrap_address(
                        address - index,
                    ) < x {
                        old(self)@.registers[wrap_address(address - index)]
                    } else {
                        old(self)@.memory[address]
                    }),
            decreases register + 1 - x,
        {
            let vx = self.registers[x];
            self.memory[(index + x) % MEMORY_SIZE] = vx;
            x += 1;
        }
        assert(self@.memory =~= old(self)@.store_memory(register).memory);
    }

    /// Fills registers 0 to `register` from memory, starting at the index
    /// address and wrapping around the end of memory.
    pub fn load_memory(&mut self, register: usize)
        requires
            register < 16,
            old(self).wf(),
        ensures
            final(self)@ == old(self)@.load_memory(register),
            final(self).wf(),
    {
        let index = self.get_index() as usize;
        let mut x: usize = 0;
        while x < register + 1
            invariant
                register < 16,
                x <= register + 1,
                index == old(self)@.index,
                self@ == (Machine { registers: self@.registers, ..old(self)@ }),
                self@.registers.len() == 16,
                self.wf(),
                forall|r: int|
                    0 <= r < 16 ==> #[trigger] self@.registers[r] == (if r < x {
                        old(self)@.byte_at(index + r)
                    } else {
                        old(self)@.registers[r]
                    }),
            decreases register + 1 - x,
        {
            let value = self.memory[(index + x) % MEMORY_SIZE];
            self.set_register(x, value);
            x += 1;
        }
        assert(self@.registers =~= old(self)@.load_memory(register).registers);
    }

    /// Stores the decimal digits of register `register` at the index
    /// address: hundreds first, then tens, then ones.
    pub fn binary_conversion(&mut self, register: usize)
        requires
            register < 16,
            old(self).wf(),
        ensures
            final(self)@ == old(self)@.binary_conversion(register),
            final(self).wf(),
    {
        let value = self.get_register(register);
        let (ones, tens, hundreds) = (value % 10, (value / 10) % 10, (value / 10) / 10);

        let index = self.get_index() as usize;
        self.memory[index % MEMORY_SIZE] = hundreds;
        self.memory[(index + 1) % MEMORY_SIZE] = tens;
        self.memory[(index + 2) % MEMORY_SIZE] = ones;
    }

    /// Draws the sprite of `n` rows that memory holds at the index address,
    /// with its top-left corner at the position that registers `x` and `y`
    /// hold (reduced to the screen). Each set sprite bit flips its pixel;
    /// the flag is cleared first and set when a pixel that was on goes off.
    /// The sprite is cut off at the right and bottom edges, never wrapped.
    pub fn update_screen(&mut self, x: usize, y: usize, n: u16)
        requires
            x < 16,
            y < 16,
            old(self).wf(),
        ensures
            final(self)@ == old(self)@.update_screen(x, y, n),
            final(self).wf(),
    {
        let left = self.get_register(x) % 64;
        let top = self.get_register(y) % 32;
        let index = self.get_index() as usize;
        self.set_register(FLAG, 0);

        let mut y_coord = top;
        let mut sprite_row: u16 = 0;
        // Row 31 is drawn only when the sprite starts there.
        while sprite_row < n && (sprite_row == 0 || y_coord < 31)
            invariant
                left < 64,
                top < 32,
                index == old(self)@.index,
                y_coord == top + sprite_row,
                0 <= sprite_row <= visible_rows(top as int, n as int),
                self.wf(),
                self@ == (Machine {
                    registers: old(self)@.registers.update(15, self@.registers[15]),
                    screen: self@.screen,
                    ..old(self)@
                }),
                painted(old(self)@, self@, left as int, top as int, n as int, y_coord as int, 0),
            decreases n - sprite_row,
        {
            let sprite_byte = self.memory[(index + sprite_row as usize) % MEMORY_SIZE];
            let mut x_coord = left;
            let mut bit: u8 = 0;
            while bit < 8 && x_coord < 64
                invariant
                    left < 64,
                    top < 32,
                    bit <= 8,
                    x_coord == left + bit,
                    y_coord == top + sprite_row,
                    0 <= sprite_row < visible_rows(top as int, n as int),
                    sprite_byte == old(self)@.byte_at(old(self)@.index + sprite_row),
                    self.wf(),
                    self@ == (Machine {
                        registers: old(self)@.registers.update(15, self@.registers[15]),
                        screen: self@.screen,
                        ..old(self)@
                    }),
                    painted(
                        old(self)@,
                        self@,
                        left as int,
                        top as int,
                        n as int,
                        y_coord as int,
                        bit as int,
                    ),
                decreases 8 - bit,
            {
                let sprite_pixel = sprite_byte & (0x80u8 >> bit);
                proof {
                    lemma_sprite_bit(sprite_byte, bit);
                    assert(old(self)@.sprite_covers(
                        left as int,
                        top as int,
                        n as int,
                        x_coord as int,
                        y_coord as int,
                    ) == (sprite_pixel != 0));
                }
                let ghost prev = self@;
                if sprite_pixel != 0 {
                    if self.screen[y_coord as usize][x_coord as usize] == 1 {
                        self.screen[y_coord as usize][x_coord as usize] = 0;
                        self.set_register(FLAG, 1);
                    } else {
                        self.screen[y_coord as usize][x_coord as usize] = 1;
                    }
                }
                proof {
                    assert(self@.registers =~= old(self)@.registers.update(
                        15,
                        self@.registers[15],
                    ));
                    assert(prev.screen[y_coord as int][x_coord as int] == old(
                        self,
                    )@.screen[y_coord as int][x_coord as int]);
                    assert(self@.screen[y_coord as int][x_coord as int] == old(self)@.drawn_pixel(
                        left as int,
                        top as int,
                        n as int,
                        x_coord as int,
                        y_coord as int,
                    ));
                    assert forall|r: int, c: int|
                        0 <= r < 32 && 0 <= c < 64 && !(r == y_coord && c
                            == x_coord) implies (#[trigger] self@.screen[r][c])
                        == prev.screen[r][c] by {}
                }
                x_coord += 1;
                bit += 1;
            }
            y_coord += 1;
            sprite_row += 1;
        }
        proof {
            let drawn = old(self)@.update_screen(x, y, n);
            assert(self@.screen =~~= drawn.screen);
            assert(self@.registers =~= drawn.registers);
        }
    }

    /// Decodes an instruction word against the current registers, with
    /// `random` as the byte that the random-number instruction masks. Words
    /// that match no instruction decode to [`OpCode::NoOp`].
    pub fn decode_with(&self, instruction: u16, random: u8) -> (op: OpCode)
        ensures
            op == self@.decode(instruction, random),
            op.valid(),
    {
        let kind = (instruction & 0xF000) >> 12;
        let x = ((instruction & 0x0F00) >> 8) as usize;
        let y = ((instruction & 0x00F0) >> 4) as usize;
        let n = instruction & 0x000F;
        let nn = (instruction & 0x00FF) as u8;
        let nnn = instruction & 0x0FFF;
        proof {
            lemma_fields(instruction);
        }
        let vx = self.registers[x];
        let vy = self.registers[y];

        match (kind, x, y, n) {
            (0x0, 0x0, 0xE, 0x0) => OpCode::ClearScreen,
            (0x1, _, _, _) => OpCode::Jump(nnn),
            (0x0, 0x0, 0xE, 0xE) => OpCode::ReturnFromSubroutine,
            (0x2, _, _, _) => OpCode::CallSubroutine(nnn),
            (0x3, _, _, _) => {
                if vx == nn {
                    OpCode::Skip
                } else {
                    OpCode::NoOp
                }
            },
            (0x4, _, _, _) => {
                if vx != nn {
                    OpCode::Skip
                } else {
                    OpCode::NoOp
                }
            },
            (0x5, _, _, 0x0) => {
                if vx == vy {
                    OpCode::Skip
                } else {
                    OpCode::NoOp
                }
            },
            (0x9, _, _, 0x0) => {
                if vx != vy {
                    OpCode::Skip
                } else {
                    OpCode::NoOp
                }
            },
            (0x6, _, _, _) => OpCode::SetRegister(x, nn),
            (0x7, _, _, _) => OpCode::AddToRegister(x, nn),
            (0x8, _, _, 0x0) => OpCode::SetRegister(x, vy),
            (0x8, _, _, 0x1) => OpCode::SetRegister(x, vx | vy),
            (0x8, _, _, 0x2) => OpCode::SetRegister(x, vx & vy),
            (0x8, _, _, 0x3) => OpCode::SetRegister(x, vx ^ vy),
            (0x8, _, _, 0x4) => OpCode::Add(x, y),
            (0x8, _, _, 0x5) => OpCode::Subtract(x, y, x),
            (0x8, _, _, 0x6) => OpCode::ShiftRight(x),
            (0x8, _, _, 0x7) => OpCode::Subtract(y, x, x),
            (0x8, _, _, 0xE) => OpCode::ShiftLeft(x),
            (0xA, _, _, _) => OpCode::SetIndex(nnn),
            (0xB, _, _, _) => OpCode::Jump(nnn + self.registers[0] as u16),
            (0xC, _, _, _) => OpCode::SetRegister(x, random & nn),
            (0xD, _, _, _) => OpCode::Draw(x, y, n),
            (0xE, _, 0x9, 0xE) => OpCode::SkipIfKey(x, true),
            (0xE, _, 0xA, 0x1) => OpCode::SkipIfKey(x, false),
            (0xF, _, 0x0, 0x7) => OpCode::SetRegister(x, self.delay_timer),
            (0xF, _, 0x1, 0x5) => OpCode::SetDelayTimer(vx),
            (0xF, _, 0x1, 0x8) => OpCode::SetSoundTimer(vx),
            (0xF, _, 0x1, 0xE) => OpCode::SetIndex(self.i.wrapping_add(vx as u16)),
            (0xF, _, 0x0, 0xA) => OpCode::GetKey(x),
            (0xF, _, 0x2, 0x9) => OpCode::SetIndex(5 * (vx % 16) as u16),
            (0xF, _, 0x3, 0x3) => OpCode::BinaryConversion(x),
            (0xF, _, 0x5, 0x5) => OpCode::StoreMemory(x),
            (0xF, _, 0x6, 0x5) => OpCode::LoadMemory(x),
            _ => OpCode::NoOp,
        }
    }

    /// Decodes an instruction word against the current registers. The
    /// random-number instruction draws its byte here; every other word
    /// decodes to the same operation each time.
    pub fn decode(&mut self, instruction: u16) -> (op: OpCode)
        ensures
            exists|random: u8| op == old(self)@.decode(instruction, random),
            family(instruction) != 0xC ==> op == old(self)@.decode(instruction, 0),
            op.valid(),
            *final(self) == *old(self),
    {
        proof {
            lemma_fields(instruction);
        }
        let random = if (instruction & 0xF000) >> 12 == 0xC {
            random_byte()
        } else {
            0
        };
        self.decode_with(instruction, random)
    }
    /// Applies one decoded operation to the machine. `keys` tells which keys
    /// are held down.
    pub fn execute(&mut self, opcode: OpCode, keys: &Keypad)
        requires
            old(self).wf(),
            old(self)@.can_execute(opcode),
        ensures
            final(self)@ == old(self)@.execute(opcode, keys@),
            final(self).wf(),
    {
        match opcode {
            OpCode::ClearScreen => self.clear_screen(),
            OpCode::Jump(n) => self.set_pc(n),
            OpCode::SetRegister(x, n) => self.set_register(x, n),
            OpCode::AddToRegister(x, n) => self.add_to_register(x, n),
            OpCode::Draw(x, y, n) => self.update_screen(x, y, n),
            OpCode::SetIndex(n) => self.set_index(n),
            OpCode::CallSubroutine(n) => self.call_subroutine(n),
            OpCode::ReturnFromSubroutine => self.return_from_subroutine(),
            OpCode::Skip => self.skip(),
            OpCode::SkipIfKey(x, pressed) => {
                let key = self.get_register(x);
                self.skip_if_key(key, pressed, keys);
            },
            OpCode::NoOp => (),
            OpCode::Add(x, y) => self.add(x, y),
            OpCode::Subtract(x, y, n) => self.subtract(x, y, n),
            OpCode::ShiftRight(x) => self.shift_right(x),
            OpCode::ShiftLeft(x) => self.shift_left(x),
            OpCode::SetDelayTimer(x) => self.set_delay_timer(x),
            OpCode::SetSoundTimer(x) => self.set_sound_timer(x),
            OpCode::GetKey(key) => self.set_waiting_key(Some(key)),
            OpCode::BinaryConversion(x) => self.binary_conversion(x),
            OpCode::StoreMemory(x) => self.store_memory(x),
            OpCode::LoadMemory(x) => self.load_memory(x),
        };
    }

    /// Tells whether a cycle can run: the machine is suspended, or the
    /// instruction at the program counter is not a return with nothing to
    /// return to.
    pub fn can_tick(&self) -> (ready: bool)
        ensures
            ready == self@.can_tick(),
    {
        let part_one = self.memory[self.pc as usize % MEMORY_SIZE];
        let part_two = self.memory[(self.pc as usize + 1) % MEMORY_SIZE];
        self.awaiting_key_register.is_some() || part_one != 0x00 || part_two != 0xEE
            || self.stack.len() > 0
    }

    /// Runs one cycle. While a key wait is pending no instruction runs: the
    /// first key reported as held is remembered, and once no key is held any
    /// longer the remembered key goes to the waiting register and the
    /// machine resumes. Otherwise one instruction is fetched, decoded and
    /// executed.
    ///
    /// The outcome is the one that [`Cpu::tick_with`] produces for some
    /// random byte; only the random-number instruction looks at that byte.
    pub fn tick(&mut self, keys: &Keypad)
        requires
            old(self).wf(),
            old(self)@.can_tick(),
        ensures
            exists|random: u8| final(self)@ == old(self)@.tick(keys@, random),
            !old(self)@.wants_random() ==> final(self)@ == old(self)@.tick(keys@, 0),
            final(self).wf(),
    {
        if let Some(register) = self.awaiting_key_register {
            self.await_key(register, keys);
            assert(self@ == old(self)@.tick(keys@, 0));
        } else {
            let instruction = self.fetch();
            let opcode = self.decode(instruction);
            self.complete(opcode, keys);
            proof {
                let random = choose|random: u8|
                    opcode == old(self)@.skip().decode(instruction, random);
                assert(self@ == old(self)@.tick(keys@, random));
            }
        }
    }

    /// Runs one cycle, as [`Cpu::tick`] does, with `random` as the byte that
    /// the random-number instruction masks.
    pub fn tick_with(&mut self, keys: &Keypad, random: u8)
        requires
            old(self).wf(),
            old(self)@.can_tick(),
        ensures
            final(self)@ == old(self)@.tick(keys@, random),
            final(self).wf(),
    {
        if let Some(register) = self.awaiting_key_register {
            self.await_key(register, keys);
        } else {
            let instruction = self.fetch();
            let opcode = self.decode_with(instruction, random);
            self.complete(opcode, keys);
        }
    }

    /// One step of a pending key wait.
    fn await_key(&mut self, register: usize, keys: &Keypad)
        requires
            old(self).wf(),
            register < 16,
        ensures
            final(self)@ == old(self)@.await_key(register, keys@),
            final(self).wf(),
    {
        if let Some(key) = keys.first_pressed() {
            self.key_down = Some(key);
            return ;
        }
        // No key is held any more: a remembered key has been released.
        if let Some(key_down) = self.key_down {
            self.set_register(register, key_down);
            self.awaiting_key_register = None;
            self.key_down = None;
        }
    }

    /// Executes a freshly decoded operation and records whether it rewrote
    /// the framebuffer.
    fn complete(&mut self, opcode: OpCode, keys: &Keypad)
        requires
            old(self).wf(),
            old(self)@.can_execute(opcode),
        ensures
            final(self)@ == (Machine {
                screen_mutated: opcode.touches_screen(),
                ..old(self)@.execute(opcode, keys@)
            }),
            final(self).wf(),
    {
        self.execute(opcode, keys);
        match opcode {
            OpCode::ClearScreen | OpCode::Draw(..) => self.screen_mutated = true,
            _ => self.screen_mutated = false,
        }
    }
}

/// How far a sprite has been drawn. `now` is `before` with the sprite
/// applied to every row above `row` and to the first `columns` columns of
/// the sprite in row `row`; its flag is 1 if one of those pixels was on and
/// 0 if none was.
spec fn painted(
    before: Machine,
    now: Machine,
    left: int,
    top: int,
    height: int,
    row: int,
    columns: int,
) -> bool {
    &&& now.screen.len() == 32
    &&& forall|r: int| 0 <= r < 32 ==> (#[trigger] now.screen[r]).len() == 64
    &&& forall|r: int, c: int|
        0 <= r < 32 && 0 <= c < 64 ==> #[trigger] now.screen[r][c] == (if reached(
            left,
            row,
            columns,
            c,
            r,
        ) {
            before.drawn_pixel(left, top, height, c, r)
        } else {
            before.screen[r][c]
        })
    &&& now.registers[15] == 0 || now.registers[15] == 1
    &&& now.registers[15] == 1 ==> before.sprite_collides(left, top, height)
    &&& now.registers[15] == 0 ==> forall|c: int, r: int|
        reached(left, row, columns, c, r) && #[trigger] before.sprite_covers(
            left,
            top,
            height,
            c,
            r,
        ) ==> before.screen[r][c] != 1
}

/// The pixel at (`col`, `r`) lies in a row above `row`, or in row `row`
/// within the first `columns` columns of a sprite that starts at `left`.
spec fn reached(left: int, row: int, columns: int, col: int, r: int) -> bool {
    r < row || (r == row && col < left + columns)
}

/// Masking a sprite row with the bit for a column finds the bit that the
/// weight of that column picks.
proof fn lemma_sprite_bit(row: u8, column: u8)
    requires
        column < 8,
    ensures
        (row & (0x80u8 >> column) != 0) == sprite_bit(row, column as int),
{
    if column == 0 {
        assert((row & (0x80u8 >> 0u8) != 0) == ((row / 128) % 2 == 1)) by (bit_vector);
    } else if column == 1 {
        assert((row & (0x80u8 >> 1u8) != 0) == ((row / 64) % 2 == 1)) by (bit_vector);
    } else if column == 2 {
        assert((row & (0x80u8 >> 2u8) != 0) == ((row / 32) % 2 == 1)) by (bit_vector);
    } else if column == 3 {
        assert((row & (0x80u8 >> 3u8) != 0) == ((row / 16) % 2 == 1)) by (bit_vector);
    } else if column == 4 {
        assert((row & (0x80u8 >> 4u8) != 0) == ((row / 8) % 2 == 1)) by (bit_vector);
    } else if column == 5 {
        assert((row & (0x80u8 >> 5u8) != 0) == ((row / 4) % 2 == 1)) by (bit_vector);
    } else if column == 6 {
        assert((row & (0x80u8 >> 6u8) != 0) == ((row / 2) % 2 == 1)) by (bit_vector);
    } else {
        assert((row & (0x80u8 >> 7u8) != 0) == ((row / 1) % 2 == 1)) by (bit_vector);
    }
}

/// The fields that masks and shifts cut out of an instruction word are the
/// ones that division and remainder describe.
proof fn lemma_fields(word: u16)
    ensures
        (word & 0xF000) >> 12 == family(word),
        ((word & 0x0F00) >> 8) as usize == operand_x(word),
        ((word & 0x00F0) >> 4) as usize == operand_y(word),
        word & 0x000F == operand_n(word),
        (word & 0x00FF) as u8 == operand_nn(word),
        word & 0x0FFF == operand_nnn(word),
        family(word) < 16,
        operand_x(word) < 16,
        operand_y(word) < 16,
        operand_n(word) == operand_nn(word) % 16,
        operand_y(word) == operand_nn(word) / 16,
{
    assert((word & 0xF000) >> 12 == word / 0x1000) by (bit_vector);
    assert((word & 0x0F00) >> 8 == (word / 0x100) % 0x10) by (bit_vector);
    assert((word & 0x00F0) >> 4 == (word / 0x10) % 0x10) by (bit_vector);
    assert(word & 0x000F == word % 0x10) by (bit_vector);
    assert(word & 0x00FF == word % 0x100) by (bit_vector);
    assert(word & 0x0FFF == word % 0x1000) by (bit_vector);
}

} // verus!
