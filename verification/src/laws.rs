use crate::font::{glyph_address, FONT};
use crate::keypad::held_keys;
use crate::machine::{sprite_bit, under_sprite, wrap_address, Machine};
use crate::opcode::{family, OpCode};
use vstd::prelude::*;

verus! {

impl Machine {
    /// Every pixel of the framebuffer is 0 or 1.
    pub open spec fn binary_screen(self) -> bool {
        forall|row: int, col: int|
            0 <= row < 32 && 0 <= col < 64 ==> #[trigger] self.screen[row][col] <= 1
    }


    /// The built-in font is in place at the bottom of memory.
    pub open spec fn has_font(self) -> bool {
        forall|address: int| 0 <= address < 80 ==> #[trigger] self.memory[address] == FONT@[address]
    }

    /// The column in which a sprite drawn through register `x` starts.
    pub open spec fn sprite_left(self, x: usize) -> int {
        self.registers[x as int] as int % 64
    }

    /// The row in which a sprite drawn through register `y` starts.
    pub open spec fn sprite_top(self, y: usize) -> int {
        self.registers[y as int] as int % 32
    }

    /// The machine after `count` cycles that all see the same keys and the
    /// same random byte.
    pub open spec fn ticks(self, count: nat, keys: Seq<u8>, random: u8) -> Machine
        decreases count,
    {
        if count == 0 {
            self
        } else {
            self.tick(keys, random).ticks((count - 1) as nat, keys, random)
        }
    }
}

/// Only the random-number instruction looks at the random byte: any other
/// instruction word decodes to the same operation whatever the byte is.
pub proof fn lemma_decode_ignores_random(machine: Machine, word: u16, first: u8, second: u8)
    requires
        family(word) != 0xC,
    ensures
        machine.decode(word, first) == machine.decode(word, second),
{
}

/// Decoding names only registers that exist.
pub proof fn lemma_decode_is_valid(machine: Machine, word: u16, random: u8)
    ensures
        machine.decode(word, random).valid(),
{
}

/// Fetching moves the program counter forward by exactly two and yields the
/// byte at the old program counter as the high half of the word and the
/// byte after it as the low half. (A program counter in the last two
/// positions of its sixteen-bit range has no room to advance by two.)
pub proof fn lemma_fetch_advances_by_two(machine: Machine)
    requires
        machine.wf(),
        machine.pc < 0xFFFE,
    ensures
        machine.skip().pc == machine.pc + 2,
        machine.current_instruction() == 0x100 * machine.byte_at(machine.pc as int)
            + machine.byte_at(machine.pc + 1),
        machine.pc + 1 < 4096 ==> machine.current_instruction() == 0x100
            * machine.memory[machine.pc as int] + machine.memory[machine.pc + 1],
        machine.skip() == (Machine { pc: machine.skip().pc, ..machine }),
{
}

/// A timer never goes below zero: from zero it stays at zero, from anything
/// else it loses exactly one. Nothing but the timers changes.
pub proof fn lemma_timers_saturate(machine: Machine)
    ensures
        machine.delay_timer == 0 ==> machine.tick_timers().delay_timer == 0,
        machine.delay_timer > 0 ==> machine.tick_timers().delay_timer == machine.delay_timer - 1,
        machine.sound_timer == 0 ==> machine.tick_timers().sound_timer == 0,
        machine.sound_timer > 0 ==> machine.tick_timers().sound_timer == machine.sound_timer - 1,
        machine.tick_timers() == (Machine {
            delay_timer: machine.tick_timers().delay_timer,
            sound_timer: machine.tick_timers().sound_timer,
            ..machine
        }),
{
}

/// Calling a subroutine and returning from it at once leaves the machine
/// exactly as it was: same program counter, same stack, same everything.
pub proof fn lemma_call_then_return(machine: Machine, address: u16, keys: Seq<u8>)
    ensures
        machine.execute(OpCode::CallSubroutine(address), keys).can_execute(
            OpCode::ReturnFromSubroutine,
        ),
        machine.execute(OpCode::CallSubroutine(address), keys).execute(
            OpCode::ReturnFromSubroutine,
            keys,
        ) == machine,
{
    let called = machine.call_subroutine(address);
    assert(called.stack.drop_last() =~= machine.stack);
}

/// Addition wraps modulo 256 and reports the carry: when the target is not
/// the flag register itself, it ends up holding the sum reduced to a byte
/// and the flag holds 1 if the sum passed 255 and 0 otherwise.
pub proof fn lemma_add_reports_carry(machine: Machine, x: usize, y: usize)
    requires
        machine.wf(),
        x < 15,
        y < 16,
    ensures
        machine.add(x, y).registers[x as int] == (machine.registers[x as int]
            + machine.registers[y as int]) % 256,
        machine.add(x, y).registers[15] == (if machine.registers[x as int]
            + machine.registers[y as int] > 255 {
            1u8
        } else {
            0u8
        }),
{
}

/// Subtraction wraps modulo 256 and reports whether it borrowed: when the
/// target is not the flag register itself, it ends up holding the
/// difference reduced to a byte and the flag holds 1 if the minuend was the
/// larger and 0 otherwise.
pub proof fn lemma_subtract_reports_borrow(machine: Machine, x: usize, y: usize, destination: usize)
    requires
        machine.wf(),
        x < 16,
        y < 16,
        destination < 15,
    ensures
        machine.subtract(x, y, destination).registers[destination as int] == (
        machine.registers[x as int] - machine.registers[y as int]) % 256,
        machine.subtract(x, y, destination).registers[15] == (if machine.registers[x as int]
            > machine.registers[y as int] {
            1u8
        } else {
            0u8
        }),
{
}

/// Loading a program that fits changes memory from the load address to the
/// end of the program and nothing else: the font below it and the cells
/// above it keep their contents.
pub proof fn lemma_load_keeps_the_rest(machine: Machine, program: Seq<u8>)
    requires
        machine.wf(),
        program.len() <= 3584,
    ensures
        forall|offset: int|
            0 <= offset < program.len() ==> machine.load(program).memory[0x200 + offset]
                == #[trigger] program[offset],
        forall|address: int|
            0 <= address < 0x200 || 0x200 + program.len() <= address < 4096
                ==> #[trigger] machine.load(program).memory[address] == machine.memory[address],
        forall|address: int|
            0 <= address < 80 ==> #[trigger] Machine::initial().load(program).memory[address]
                == FONT@[address],
        machine.load(program) == (Machine { memory: machine.load(program).memory, ..machine }),
        machine.load(program).wf(),
{
}

/// The three digits that the decimal conversion stores are the hundreds,
/// tens and ones of the register: each is below ten and together they give
/// the value back. No other cell of memory changes.
pub proof fn lemma_binary_conversion_digits(machine: Machine, register: usize)
    requires
        machine.wf(),
        register < 16,
    ensures
        ({
            let stored = machine.binary_conversion(register);
            let hundreds = stored.byte_at(machine.index as int);
            let tens = stored.byte_at(machine.index + 1);
            let ones = stored.byte_at(machine.index + 2);
            &&& hundreds < 10 && tens < 10 && ones < 10
            &&& 100 * hundreds + 10 * tens + ones == machine.registers[register as int]
            &&& forall|address: int|
                0 <= address < 4096 && wrap_address(address - machine.index) > 2
                    ==> #[trigger] stored.memory[address] == machine.memory[address]
        }),
{
}

/// Storing registers and loading them back from the same place restores
/// them, and what was stored is what the registers held.
pub proof fn lemma_store_then_load(machine: Machine, register: usize)
    requires
        machine.wf(),
        register < 16,
    ensures
        forall|r: int|
            0 <= r <= register ==> #[trigger] machine.store_memory(register).byte_at(
                machine.index + r,
            ) == machine.registers[r],
        machine.store_memory(register).load_memory(register).registers == machine.registers,
{
    let stored = machine.store_memory(register);
    assert forall|r: int| 0 <= r <= register implies #[trigger] stored.byte_at(machine.index + r)
        == machine.registers[r] by {
        let address = wrap_address(machine.index + r);
        assert(wrap_address(address - machine.index) == r);
    }
    assert(stored.load_memory(register).registers =~= machine.registers);
}

/// Drawing never reaches a pixel outside the sprite's clipped rectangle:
/// nothing wraps around to the left columns or the top rows, and nothing
/// but the flag register and the framebuffer changes.
pub proof fn lemma_draw_is_clipped(machine: Machine, x: usize, y: usize, height: u16)
    requires
        machine.wf(),
        x < 16,
        y < 16,
    ensures
        forall|row: int, col: int|
            0 <= row < 32 && 0 <= col < 64 && !under_sprite(
                machine.sprite_left(x),
                machine.sprite_top(y),
                height as int,
                col,
                row,
            ) ==> #[trigger] machine.update_screen(x, y, height).screen[row][col]
                == machine.screen[row][col],
        forall|row: int, col: int|
            0 <= row < 32 && 0 <= col < 64 && (col < machine.sprite_left(x) || row
                < machine.sprite_top(y)) ==> #[trigger] machine.update_screen(
                x,
                y,
                height,
            ).screen[row][col] == machine.screen[row][col],
        forall|register: int|
            0 <= register < 15 ==> #[trigger] machine.update_screen(
                x,
                y,
                height,
            ).registers[register] == machine.registers[register],
        machine.update_screen(x, y, height) == (Machine {
            registers: machine.update_screen(x, y, height).registers,
            screen: machine.update_screen(x, y, height).screen,
            ..machine
        }),
        machine.update_screen(x, y, height).wf(),
{
}

/// Drawing on an empty framebuffer lights exactly the pixels under set
/// sprite bits and leaves the flag at 0.
pub proof fn lemma_draw_on_blank(machine: Machine, x: usize, y: usize, height: u16)
    requires
        machine.wf(),
        x < 16,
        y < 16,
        machine.screen == Machine::blank_screen(),
    ensures
        machine.update_screen(x, y, height).registers[15] == 0,
        forall|row: int, col: int|
            0 <= row < 32 && 0 <= col < 64 ==> #[trigger] machine.update_screen(
                x,
                y,
                height,
            ).screen[row][col] == (if machine.sprite_covers(
                machine.sprite_left(x),
                machine.sprite_top(y),
                height as int,
                col,
                row,
            ) {
                1u8
            } else {
                0u8
            }),
{
}

/// Drawing the same sprite twice at the same place restores a framebuffer
/// of zeros and ones. The second drawing sets the flag exactly if the sprite
/// has a set bit over a pixel that was off before the first drawing. (The
/// position must not be taken from the flag register, which drawing
/// overwrites.)
pub proof fn lemma_draw_twice_restores(machine: Machine, x: usize, y: usize, height: u16)
    requires
        machine.wf(),
        x < 15,
        y < 15,
        machine.binary_screen(),
    ensures
        machine.update_screen(x, y, height).update_screen(x, y, height).screen == machine.screen,
        machine.update_screen(x, y, height).update_screen(x, y, height).registers[15] == 1
            <==> exists|col: int, row: int|
            #[trigger] machine.sprite_covers(
                machine.sprite_left(x),
                machine.sprite_top(y),
                height as int,
                col,
                row,
            ) && machine.screen[row][col] == 0,
{
    let left = machine.sprite_left(x);
    let top = machine.sprite_top(y);
    let h = height as int;
    let once = machine.update_screen(x, y, height);
    let twice = once.update_screen(x, y, height);
    assert(once.sprite_left(x) == left && once.sprite_top(y) == top);
    assert forall|col: int, row: int|
        once.sprite_covers(left, top, h, col, row) == machine.sprite_covers(
            left,
            top,
            h,
            col,
            row,
        ) by {}
    assert(twice.screen =~~= machine.screen);
    if once.sprite_collides(left, top, h) {
        let (col, row) = choose|col: int, row: int|
            #[trigger] once.sprite_covers(left, top, h, col, row) && once.screen[row][col] == 1;
        assert(machine.sprite_covers(left, top, h, col, row) && machine.screen[row][col] == 0);
    }
    if exists|col: int, row: int|
        #[trigger] machine.sprite_covers(left, top, h, col, row) && machine.screen[row][col]
            == 0 {
        let (col, row) = choose|col: int, row: int|
            #[trigger] machine.sprite_covers(left, top, h, col, row) && machine.screen[row][col]
                == 0;
        assert(once.sprite_covers(left, top, h, col, row) && once.screen[row][col] == 1);
    }
}

/// A font glyph drawn whole on an empty framebuffer and then drawn again at
/// the same place leaves the framebuffer empty and the flag at 1: every
/// glyph has lit pixels, and the second drawing turns them all off.
pub proof fn lemma_glyph_drawn_twice_vanishes(machine: Machine, digit: u8, x: usize, y: usize)
    requires
        machine.wf(),
        machine.has_font(),
        machine.index == glyph_address(digit),
        machine.screen == Machine::blank_screen(),
        x < 15,
        y < 15,
        machine.sprite_left(x) <= 56,
        machine.sprite_top(y) <= 26,
    ensures
        machine.update_screen(x, y, 5).registers[15] == 0,
        machine.update_screen(x, y, 5).update_screen(x, y, 5).registers[15] == 1,
        machine.update_screen(x, y, 5).update_screen(x, y, 5).screen == Machine::blank_screen(),
{
    let left = machine.sprite_left(x);
    let top = machine.sprite_top(y);
    let first_row = machine.byte_at(machine.index as int);
    let column: int = if digit % 16 == 1 {
        2
    } else {
        0
    };
    assert(first_row == FONT@[5 * (digit % 16)]);
    assert(sprite_bit(first_row, column));
    assert(machine.sprite_covers(left, top, 5, left + column, top));
    lemma_draw_on_blank(machine, x, y, 5);
    lemma_draw_twice_restores(machine, x, y, 5);
}

/// While the machine waits for a key, a cycle executes no instruction: the
/// program counter, the index register, memory, the stack, the timers and
/// the framebuffer stay as they are.
pub proof fn lemma_wait_suspends_execution(machine: Machine, keys: Seq<u8>, random: u8)
    requires
        machine.awaiting_key is Some,
    ensures
        machine.tick(keys, random) == (Machine {
            registers: machine.tick(keys, random).registers,
            awaiting_key: machine.tick(keys, random).awaiting_key,
            key_down: machine.tick(keys, random).key_down,
            ..machine
        }),
{
}

/// A key that is pressed and then released ends the wait: after a cycle
/// that sees keys held and a cycle that sees none, the waiting register
/// holds the first key that was reported, no other register has changed,
/// and the machine runs again, so that the next cycle executes an
/// instruction.
pub proof fn lemma_press_then_release_resolves(
    machine: Machine,
    register: usize,
    pressed: Seq<u8>,
    random: u8,
)
    requires
        machine.wf(),
        machine.awaiting_key == Some(register),
        held_keys(pressed),
        pressed.len() > 0,
    ensures
        ({
            let resumed = machine.tick(pressed, random).tick(Seq::empty(), random);
            &&& resumed.registers == machine.registers.update(register as int, pressed[0])
            &&& resumed.awaiting_key is None
            &&& resumed.key_down is None
            &&& resumed.wf()
            &&& forall|keys: Seq<u8>, byte: u8| #[trigger]
                resumed.tick(keys, byte) == resumed.step(keys, byte)
        }),
{
}

/// A key that is held and never released leaves the wait unresolved however
/// many cycles pass: the machine still waits for the same register and no
/// register has changed.
pub proof fn lemma_held_key_keeps_waiting(
    machine: Machine,
    count: nat,
    keys: Seq<u8>,
    random: u8,
)
    requires
        machine.awaiting_key is Some,
        keys.len() > 0,
    ensures
        machine.ticks(count, keys, random).awaiting_key == machine.awaiting_key,
        machine.ticks(count, keys, random).registers == machine.registers,
        machine.ticks(count, keys, random).pc == machine.pc,
    decreases count,
{
    if count > 0 {
        lemma_held_key_keeps_waiting(machine.tick(keys, random), (count - 1) as nat, keys, random);
    }
}

/// With no key pressed since the wait began, the machine waits on,
/// unchanged.
pub proof fn lemma_idle_keypad_keeps_waiting(machine: Machine, random: u8)
    requires
        machine.awaiting_key is Some,
        machine.key_down is None,
    ensures
        machine.tick(Seq::empty(), random) == machine,
{
}

/// A cycle keeps a well-formed machine well formed.
pub proof fn lemma_tick_keeps_wf(machine: Machine, keys: Seq<u8>, random: u8)
    requires
        machine.wf(),
        machine.can_tick(),
        held_keys(keys),
    ensures
        machine.tick(keys, random).wf(),
{
    if machine.awaiting_key is None {
        let fetched = machine.skip();
        let op = fetched.decode(machine.current_instruction(), random);
        lemma_execute_keeps_wf(fetched, op, keys);
    }
}

/// An operation keeps a well-formed machine well formed.
pub proof fn lemma_execute_keeps_wf(machine: Machine, op: OpCode, keys: Seq<u8>)
    requires
        machine.wf(),
        machine.can_execute(op),
    ensures
        machine.execute(op, keys).wf(),
{
}

} // verus!
