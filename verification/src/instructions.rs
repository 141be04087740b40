//! Instruction words and their decoding.
//!
//! An instruction word is sixteen bits, read as four nibbles. The leading
//! nibble selects a family of operations; for some families the remaining
//! nibbles select the operation within it.

use vstd::prelude::*;
use vstd::std_specs::convert::TryFromSpecImpl;

verus! {

/// One decoded operation with its operands.
///
/// Operands named `x` and `y` in the comments are register indices, `kk` is
/// an 8-bit immediate, `nnn` a 12-bit address and `n` a 4-bit count.
#[derive(Clone, Copy, Debug, PartialEq, Eq, Structural)]
pub enum Instruction {
    ClearDisplay,                     // 00E0
    Return,                           // 00EE
    Jump(u16),                        // 1nnn
    Call(u16),                        // 2nnn
    SkipIfEqual(u8, u8),              // 3xkk
    SkipIfNotEqual(u8, u8),           // 4xkk
    SkipIfRegistersEqual(u8, u8),     // 5xy0
    SetRegister(u8, u8),              // 6xkk
    Add(u8, u8),                      // 7xkk
    CopyRegister(u8, u8),             // 8xy0
    Or(u8, u8),                       // 8xy1
    And(u8, u8),                      // 8xy2
    Xor(u8, u8),                      // 8xy3
    AddRegisters(u8, u8),             // 8xy4
    Subtract(u8, u8),                 // 8xy5
    ShiftRight(u8),                   // 8xy6, y is ignored
    ReverseSubtract(u8, u8),          // 8xy7
    ShiftLeft(u8),                    // 8xyE, y is ignored
    SkipIfRegistersNotEqual(u8, u8),  // 9xy0
    SetI(u16),                        // Annn
    JumpPlusV0(u16),                  // Bnnn
    RandomByte(u8, u8),               // Cxkk
    Draw(u8, u8, u8),                 // Dxyn
    SkipIfKeyPressed(u8),             // Ex9E
    SkipIfKeyNotPressed(u8),          // ExA1
    SetRegisterToDelayTimer(u8),      // Fx07
    StoreInput(u8),                   // Fx0A
    SetDelayTimer(u8),                // Fx15
    SetSoundTimer(u8),                // Fx18
    AddToI(u8),                       // Fx1E
    SetIToSpriteLocation(u8),         // Fx29
    StoreBinaryCodedDecimal(u8),      // Fx33
    StoreRegisters(u8),               // Fx55
    LoadRegisters(u8),                // Fx65
}

/// The word that matched no operation.
#[derive(Clone, Copy, Debug, PartialEq, Eq, Structural)]
pub struct InvalidInstructionError(pub u16);

/// Leading nibble of a word: the operation family.
pub open spec fn family(word: u16) -> int {
    word as int / 0x1000
}

/// Second nibble: the register operand `x`.
pub open spec fn x_field(word: u16) -> u8 {
    ((word as int / 0x100) % 0x10) as u8
}

/// Third nibble: the register operand `y`.
pub open spec fn y_field(word: u16) -> u8 {
    ((word as int / 0x10) % 0x10) as u8
}

/// Last nibble: the count `n`.
pub open spec fn n_field(word: u16) -> u8 {
    (word as int % 0x10) as u8
}

/// Low byte: the immediate `kk`.
pub open spec fn kk_field(word: u16) -> u8 {
    (word as int % 0x100) as u8
}

/// Low twelve bits: the address `nnn`.
pub open spec fn nnn_field(word: u16) -> u16 {
    (word as int % 0x1000) as u16
}

/// The operand fields are the masked and shifted parts of the word.
pub proof fn lemma_fields_are_bit_fields(word: u16)
    ensures
        family(word) == (word >> 12) & 0xF,
        x_field(word) == (word >> 8) & 0xF,
        y_field(word) == (word >> 4) & 0xF,
        n_field(word) == word & 0xF,
        kk_field(word) == word & 0x00FF,
        nnn_field(word) == word & 0x0FFF,
{
    assert((word >> 12) & 0xF == word / 0x1000) by (bit_vector);
    assert((word >> 8) & 0xF == (word / 0x100) % 0x10) by (bit_vector);
    assert((word >> 4) & 0xF == (word / 0x10) % 0x10) by (bit_vector);
    assert(word & 0xF == word % 0x10) by (bit_vector);
    assert(word & 0x00FF == word % 0x100) by (bit_vector);
    assert(word & 0x0FFF == word % 0x1000) by (bit_vector);
}

impl Instruction {
    /// Whether `word` is an encoding of this instruction: the opcode table,
    /// one row per operation, each row read on its own.
    pub open spec fn encoded_by(self, word: u16) -> bool {
        let f = family(word);
        let x = x_field(word);
        let y = y_field(word);
        let n = n_field(word);
        let kk = kk_field(word);
        let nnn = nnn_field(word);
        match self {
            Instruction::ClearDisplay => word == 0x00E0,
            Instruction::Return => word == 0x00EE,
            Instruction::Jump(a) => f == 0x1 && a == nnn,
            Instruction::Call(a) => f == 0x2 && a == nnn,
            Instruction::SkipIfEqual(r, b) => f == 0x3 && r == x && b == kk,
            Instruction::SkipIfNotEqual(r, b) => f == 0x4 && r == x && b == kk,
            Instruction::SkipIfRegistersEqual(r, s) => f == 0x5 && n == 0x0 && r == x && s == y,
            Instruction::SetRegister(r, b) => f == 0x6 && r == x && b == kk,
            Instruction::Add(r, b) => f == 0x7 && r == x && b == kk,
            Instruction::CopyRegister(r, s) => f == 0x8 && n == 0x0 && r == x && s == y,
            Instruction::Or(r, s) => f == 0x8 && n == 0x1 && r == x && s == y,
            Instruction::And(r, s) => f == 0x8 && n == 0x2 && r == x && s == y,
            Instruction::Xor(r, s) => f == 0x8 && n == 0x3 && r == x && s == y,
            Instruction::AddRegisters(r, s) => f == 0x8 && n == 0x4 && r == x && s == y,
            Instruction::Subtract(r, s) => f == 0x8 && n == 0x5 && r == x && s == y,
            Instruction::ShiftRight(r) => f == 0x8 && n == 0x6 && r == x,
            Instruction::ReverseSubtract(r, s) => f == 0x8 && n == 0x7 && r == x && s == y,
            Instruction::ShiftLeft(r) => f == 0x8 && n == 0xE && r == x,
            Instruction::SkipIfRegistersNotEqual(r, s) => f == 0x9 && n == 0x0 && r == x && s == y,
            Instruction::SetI(a) => f == 0xA && a == nnn,
            Instruction::JumpPlusV0(a) => f == 0xB && a == nnn,
            Instruction::RandomByte(r, b) => f == 0xC && r == x && b == kk,
            Instruction::Draw(r, s, c) => f == 0xD && r == x && s == y && c == n,
            Instruction::SkipIfKeyPressed(r) => f == 0xE && kk == 0x9E && r == x,
            Instruction::SkipIfKeyNotPressed(r) => f == 0xE && kk == 0xA1 && r == x,
            Instruction::SetRegisterToDelayTimer(r) => f == 0xF && kk == 0x07 && r == x,
            Instruction::StoreInput(r) => f == 0xF && kk == 0x0A && r == x,
            Instruction::SetDelayTimer(r) => f == 0xF && kk == 0x15 && r == x,
            Instruction::SetSoundTimer(r) => f == 0xF && kk == 0x18 && r == x,
            Instruction::AddToI(r) => f == 0xF && kk == 0x1E && r == x,
            Instruction::SetIToSpriteLocation(r) => f == 0xF && kk == 0x29 && r == x,
            Instruction::StoreBinaryCodedDecimal(r) => f == 0xF && kk == 0x33 && r == x,
            Instruction::StoreRegisters(r) => f == 0xF && kk == 0x55 && r == x,
            Instruction::LoadRegisters(r) => f == 0xF && kk == 0x65 && r == x,
        }
    }

    /// The decoding of `word`: the operation that the leading nibble and,
    /// where the family needs them, the other nibbles select, or the error
    /// that carries the word.
    pub open spec fn decode(word: u16) -> Result<Instruction, InvalidInstructionError> {
        let f = family(word);
        let x = x_field(word);
        let y = y_field(word);
        let n = n_field(word);
        let kk = kk_field(word);
        let nnn = nnn_field(word);
        let invalid = Err::<Instruction, InvalidInstructionError>(InvalidInstructionError(word));
        if f == 0x0 {
            if word == 0x00E0 {
                Ok(Instruction::ClearDisplay)
            } else if word == 0x00EE {
                Ok(Instruction::Return)
            } else {
                invalid
            }
        } else if f == 0x1 {
            Ok(Instruction::Jump(nnn))
        } else if f == 0x2 {
            Ok(Instruction::Call(nnn))
        } else if f == 0x3 {
            Ok(Instruction::SkipIfEqual(x, kk))
        } else if f == 0x4 {
            Ok(Instruction::SkipIfNotEqual(x, kk))
        } else if f == 0x5 {
            if n == 0x0 {
                Ok(Instruction::SkipIfRegistersEqual(x, y))
            } else {
                invalid
            }
        } else if f == 0x6 {
            Ok(Instruction::SetRegister(x, kk))
        } else if f == 0x7 {
            Ok(Instruction::Add(x, kk))
        } else if f == 0x8 {
            if n == 0x0 {
                Ok(Instruction::CopyRegister(x, y))
            } else if n == 0x1 {
                Ok(Instruction::Or(x, y))
            } else if n == 0x2 {
                Ok(Instruction::And(x, y))
            } else if n == 0x3 {
                Ok(Instruction::Xor(x, y))
            } else if n == 0x4 {
                Ok(Instruction::AddRegisters(x, y))
            } else if n == 0x5 {
                Ok(Instruction::Subtract(x, y))
            } else if n == 0x6 {
                Ok(Instruction::ShiftRight(x))
            } else if n == 0x7 {
                Ok(Instruction::ReverseSubtract(x, y))
            } else if n == 0xE {
                Ok(Instruction::ShiftLeft(x))
            } else {
                invalid
            }
        } else if f == 0x9 {
            if n == 0x0 {
                Ok(Instruction::SkipIfRegistersNotEqual(x, y))
            } else {
                invalid
            }
        } else if f == 0xA {
            Ok(Instruction::SetI(nnn))
        } else if f == 0xB {
            Ok(Instruction::JumpPlusV0(nnn))
        } else if f == 0xC {
            Ok(Instruction::RandomByte(x, kk))
        } else if f == 0xD {
            Ok(Instruction::Draw(x, y, n))
        } else if f == 0xE {
            if kk == 0x9E {
                Ok(Instruction::SkipIfKeyPressed(x))
            } else if kk == 0xA1 {
                Ok(Instruction::SkipIfKeyNotPressed(x))
            } else {
                invalid
            }
        } else {
            if kk == 0x07 {
                Ok(Instruction::SetRegisterToDelayTimer(x))
            } else if kk == 0x0A {
                Ok(Instruction::StoreInput(x))
            } else if kk == 0x15 {
                Ok(Instruction::SetDelayTimer(x))
            } else if kk == 0x18 {
                Ok(Instruction::SetSoundTimer(x))
            } else if kk == 0x1E {
                Ok(Instruction::AddToI(x))
            } else if kk == 0x29 {
                Ok(Instruction::SetIToSpriteLocation(x))
            } else if kk == 0x33 {
                Ok(Instruction::StoreBinaryCodedDecimal(x))
            } else if kk == 0x55 {
                Ok(Instruction::StoreRegisters(x))
            } else if kk == 0x65 {
                Ok(Instruction::LoadRegisters(x))
            } else {
                invalid
            }
        }
    }
    /// Every register operand names one of the sixteen registers and a
    /// sprite height fits in a nibble.
    pub open spec fn well_formed(self) -> bool {
        match self {
            Instruction::ClearDisplay | Instruction::Return => true,
            Instruction::Jump(_)
            | Instruction::Call(_)
            | Instruction::SetI(_)
            | Instruction::JumpPlusV0(_) => true,
            Instruction::SkipIfEqual(r, _)
            | Instruction::SkipIfNotEqual(r, _)
            | Instruction::SetRegister(r, _)
            | Instruction::Add(r, _)
            | Instruction::RandomByte(r, _) => r < 16,
            Instruction::SkipIfRegistersEqual(r, s)
            | Instruction::CopyRegister(r, s)
            | Instruction::Or(r, s)
            | Instruction::And(r, s)
            | Instruction::Xor(r, s)
            | Instruction::AddRegisters(r, s)
            | Instruction::Subtract(r, s)
            | Instruction::ReverseSubtract(r, s)
            | Instruction::SkipIfRegistersNotEqual(r, s) => r < 16 && s < 16,
            Instruction::Draw(r, s, c) => r < 16 && s < 16 && c < 16,
            Instruction::ShiftRight(r)
            | Instruction::ShiftLeft(r)
            | Instruction::SkipIfKeyPressed(r)
            | Instruction::SkipIfKeyNotPressed(r)
            | Instruction::SetRegisterToDelayTimer(r)
            | Instruction::StoreInput(r)
            | Instruction::SetDelayTimer(r)
            | Instruction::SetSoundTimer(r)
            | Instruction::AddToI(r)
            | Instruction::SetIToSpriteLocation(r)
            | Instruction::StoreBinaryCodedDecimal(r)
            | Instruction::StoreRegisters(r)
            | Instruction::LoadRegisters(r) => r < 16,
        }
    }

    /// The address operand, for the operations that carry one.
    pub open spec fn address(self) -> Option<u16> {
        match self {
            Instruction::Jump(a)
            | Instruction::Call(a)
            | Instruction::SetI(a)
            | Instruction::JumpPlusV0(a) => Some(a),
            _ => None,
        }
    }
}

/// Decoding is a function of the word: whatever two runs of the decoder
/// return for one word is the same result.
pub proof fn lemma_decoding_is_repeatable(
    word: u16,
    first: Result<Instruction, InvalidInstructionError>,
    second: Result<Instruction, InvalidInstructionError>,
)
    requires
        call_ensures(<Instruction as TryFrom<u16>>::try_from, (word,), first),
        call_ensures(<Instruction as TryFrom<u16>>::try_from, (word,), second),
    ensures
        first == second,
        first == Instruction::decode(word),
{
}

/// Decoding yields an instruction exactly when the opcode table lists it for
/// the word.
pub proof fn lemma_decode_follows_table(word: u16, instruction: Instruction)
    ensures
        Instruction::decode(word) == Ok::<Instruction, InvalidInstructionError>(instruction)
            <==> instruction.encoded_by(word),
{
}

/// No word is ambiguous: two instructions that the table lists for one word
/// are the same instruction.
pub proof fn lemma_encoding_unambiguous(word: u16, a: Instruction, b: Instruction)
    requires
        a.encoded_by(word),
        b.encoded_by(word),
    ensures
        a == b,
{
}

/// A word is refused exactly when the table lists nothing for it, and the
/// error then carries the word.
pub proof fn lemma_decode_refuses_unlisted(word: u16)
    ensures
        Instruction::decode(word) is Err <==> forall|i: Instruction| !i.encoded_by(word),
        Instruction::decode(word) is Err ==> Instruction::decode(word) == Err::<
            Instruction,
            InvalidInstructionError,
        >(InvalidInstructionError(word)),
{
    if Instruction::decode(word) is Err {
        assert forall|i: Instruction| !i.encoded_by(word) by {
            lemma_decode_follows_table(word, i);
        }
    } else {
        let i = Instruction::decode(word)->Ok_0;
        lemma_decode_follows_table(word, i);
    }
}

/// What decoding yields has operands of the widths that the word gives
/// them: register indices and sprite heights below 16, addresses of twelve
/// bits.
pub proof fn lemma_decoded_operands_fit(word: u16)
    ensures
        Instruction::decode(word) matches Ok(i) ==> i.well_formed() && (i.address() matches Some(a)
            ==> a <= 0x0FFF),
{
}

impl TryFrom<u16> for Instruction {
    type Error = InvalidInstructionError;

    /// Decodes an instruction word. Every word is answered: with the
    /// instruction that the opcode table lists for it, or with the error
    /// that carries the word.
    fn try_from(value: u16) -> (r: Result<Self, Self::Error>)
        ensures
            r == Instruction::decode(value),
    {
        let nibbles: (u8, u8, u8, u8) = (
            ((value >> 12) & 0xF) as u8,
            ((value >> 8) & 0xF) as u8,
            ((value >> 4) & 0xF) as u8,
            (value & 0xF) as u8,
        );
        let nnn: u16 = value & 0x0FFF;
        let kk: u8 = (value & 0x00FF) as u8;
        proof {
            lemma_fields_are_bit_fields(value);
        }
        match (nibbles.0, nibbles.1, nibbles.2, nibbles.3) {
            (0x0, 0x0, 0xE, 0x0) => Ok(Instruction::ClearDisplay),
            (0x0, 0x0, 0xE, 0xE) => Ok(Instruction::Return),
            (0x1, _, _, _) => Ok(Instruction::Jump(nnn)),
            (0x2, _, _, _) => Ok(Instruction::Call(nnn)),
            (0x3, x, _, _) => Ok(Instruction::SkipIfEqual(x, kk)),
            (0x4, x, _, _) => Ok(Instruction::SkipIfNotEqual(x, kk)),
            (0x5, x, y, 0x0) => Ok(Instruction::SkipIfRegistersEqual(x, y)),
            (0x6, x, _, _) => Ok(Instruction::SetRegister(x, kk)),
            (0x7, x, _, _) => Ok(Instruction::Add(x, kk)),
            (0x8, x, y, 0x0) => Ok(Instruction::CopyRegister(x, y)),
            (0x8, x, y, 0x1) => Ok(Instruction::Or(x, y)),
            (0x8, x, y, 0x2) => Ok(Instruction::And(x, y)),
            (0x8, x, y, 0x3) => Ok(Instruction::Xor(x, y)),
            (0x8, x, y, 0x4) => Ok(Instruction::AddRegisters(x, y)),
            (0x8, x, y, 0x5) => Ok(Instruction::Subtract(x, y)),
            (0x8, x, _, 0x6) => Ok(Instruction::ShiftRight(x)),
            (0x8, x, y, 0x7) => Ok(Instruction::ReverseSubtract(x, y)),
            (0x8, x, _, 0xE) => Ok(Instruction::ShiftLeft(x)),
            (0x9, x, y, 0x0) => Ok(Instruction::SkipIfRegistersNotEqual(x, y)),
            (0xA, _, _, _) => Ok(Instruction::SetI(nnn)),
            (0xB, _, _, _) => Ok(Instruction::JumpPlusV0(nnn)),
            (0xC, x, _, _) => Ok(Instruction::RandomByte(x, kk)),
            (0xD, x, y, n) => Ok(Instruction::Draw(x, y, n)),
            (0xE, x, 0x9, 0xE) => Ok(Instruction::SkipIfKeyPressed(x)),
            (0xE, x, 0xA, 0x1) => Ok(Instruction::SkipIfKeyNotPressed(x)),
            (0xF, x, 0x0, 0x7) => Ok(Instruction::SetRegisterToDelayTimer(x)),
            (0xF, x, 0x0, 0xA) => Ok(Instruction::StoreInput(x)),
            (0xF, x, 0x1, 0x5) => Ok(Instruction::SetDelayTimer(x)),
            (0xF, x, 0x1, 0x8) => Ok(Instruction::SetSoundTimer(x)),
            (0xF, x, 0x1, 0xE) => Ok(Instruction::AddToI(x)),
            (0xF, x, 0x2, 0x9) => Ok(Instruction::SetIToSpriteLocation(x)),
            (0xF, x, 0x3, 0x3) => Ok(Instruction::StoreBinaryCodedDecimal(x)),
            (0xF, x, 0x5, 0x5) => Ok(Instruction::StoreRegisters(x)),
            (0xF, x, 0x6, 0x5) => Ok(Instruction::LoadRegisters(x)),
            _ => Err(InvalidInstructionError(value)),
        }
    }
}

/// In contracts, `try_from` on a word is [`Instruction::decode`].
impl TryFromSpecImpl<u16> for Instruction {
    open spec fn obeys_try_from_spec() -> bool {
        true
    }

    open spec fn try_from_spec(v: u16) -> Result<Self, Self::Error> {
        Instruction::decode(v)
    }
}

} // verus!
