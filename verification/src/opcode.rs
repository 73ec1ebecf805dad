use vstd::prelude::*;

verus! {

/// One decoded instruction, with every operand it needs already extracted
/// from the instruction word (and, where the instruction reads registers to
/// decide what to do, already resolved against them).
#[derive(Copy, Clone, Debug, PartialEq, Eq, Structural)]
pub enum OpCode {
    /// Turn every pixel off.
    ClearScreen,
    /// Continue at the given address.
    Jump(u16),
    /// Store a byte in a register.
    SetRegister(usize, u8),
    /// Add a byte to a register, wrapping, without touching the flag.
    AddToRegister(usize, u8),
    /// Draw the sprite of the given height at the position held in the two
    /// registers.
    Draw(usize, usize, u16),
    /// Point the index register at an address.
    SetIndex(u16),
    /// Push the program counter and continue at the given address.
    CallSubroutine(u16),
    /// Pop the most recent return address into the program counter.
    ReturnFromSubroutine,
    /// Step over the next instruction.
    Skip,
    /// Step over the next instruction if the key named by the register is
    /// (`true`) or is not (`false`) held down.
    SkipIfKey(usize, bool),
    /// Add the second register to the first; the flag receives the carry.
    Add(usize, usize),
    /// Subtract the second register from the first and store the difference
    /// in the third; the flag tells whether the first was the larger.
    Subtract(usize, usize, usize),
    /// Shift a register right by one bit; the flag receives the lost bit.
    ShiftRight(usize),
    /// Shift a register left by one bit; the flag receives the lost bit.
    ShiftLeft(usize),
    /// Load the delay timer.
    SetDelayTimer(u8),
    /// Load the sound timer.
    SetSoundTimer(u8),
    /// Suspend until a key is pressed and released; its code goes to the
    /// register.
    GetKey(usize),
    /// Store the three decimal digits of a register at the index address.
    BinaryConversion(usize),
    /// Copy registers zero up to the given one into memory at the index
    /// address.
    StoreMemory(usize),
    /// Fill registers zero up to the given one from memory at the index
    /// address.
    LoadMemory(usize),
    /// Do nothing.
    NoOp,
}

impl OpCode {
    /// Every register that the operation names exists.
    pub open spec fn valid(self) -> bool {
        match self {
            OpCode::SetRegister(x, _) => x < 16,
            OpCode::AddToRegister(x, _) => x < 16,
            OpCode::Draw(x, y, _) => x < 16 && y < 16,
            OpCode::SkipIfKey(x, _) => x < 16,
            OpCode::Add(x, y) => x < 16 && y < 16,
            OpCode::Subtract(x, y, destination) => x < 16 && y < 16 && destination < 16,
            OpCode::ShiftRight(x) => x < 16,
            OpCode::ShiftLeft(x) => x < 16,
            OpCode::GetKey(x) => x < 16,
            OpCode::BinaryConversion(x) => x < 16,
            OpCode::StoreMemory(x) => x < 16,
            OpCode::LoadMemory(x) => x < 16,
            _ => true,
        }
    }

    /// The operation rewrites the framebuffer.
    pub open spec fn touches_screen(self) -> bool {
        self is ClearScreen || self is Draw
    }
}

/// Bits 15 to 12 of an instruction word: the opcode family.
pub open spec fn family(word: u16) -> u16 {
    word / 0x1000
}

/// Bits 11 to 8: the first register operand.
pub open spec fn operand_x(word: u16) -> usize {
    ((word / 0x100) % 0x10) as usize
}

/// Bits 7 to 4: the second register operand.
pub open spec fn operand_y(word: u16) -> usize {
    ((word / 0x10) % 0x10) as usize
}

/// Bits 3 to 0: the small immediate.
pub open spec fn operand_n(word: u16) -> u16 {
    word % 0x10
}

/// Bits 7 to 0: the byte immediate.
pub open spec fn operand_nn(word: u16) -> u8 {
    (word % 0x100) as u8
}

/// Bits 11 to 0: the address immediate.
pub open spec fn operand_nnn(word: u16) -> u16 {
    word % 0x1000
}

} // verus!
