//! Emission errors.

use vstd::prelude::*;

verus! {

/// Why a program has no Metal text.
#[derive(Debug)]
pub enum EmitError {
    /// The program is of the other shader type.
    WrongShaderType,
    /// An opcode without a lowering, or one that lacks its destination.
    UnsupportedInstruction(String),
    /// A register file that cannot be read, or not by relative address.
    UnsupportedRegisterKind(String),
    /// No text was given for the float with this bit pattern.
    MissingFloatText(u32),
    /// There is no translation to speak of: an instruction lacks an operand that
    /// its opcode reads, a swizzle selects no component, a register index leaves
    /// the 16-bit range, or a sampler slot is not below 16. Only the checked
    /// translations come to this.
    Incomplete,
}

/// The mathematical content of an [`EmitError`].
pub enum EmitFailure {
    WrongShaderType,
    UnsupportedInstruction(Seq<char>),
    UnsupportedRegisterKind(Seq<char>),
    MissingFloatText(u32),
    /// The program has no translation at all: an instruction lacks an operand
    /// that its opcode reads, a swizzle selects no component, a register index
    /// leaves the 16-bit range, or a sampler slot is not below 16.
    Undefined,
}

impl View for EmitError {
    type V = EmitFailure;

    open spec fn view(&self) -> EmitFailure {
        match *self {
            EmitError::WrongShaderType => EmitFailure::WrongShaderType,
            EmitError::UnsupportedInstruction(s) => EmitFailure::UnsupportedInstruction(s@),
            EmitError::UnsupportedRegisterKind(s) => EmitFailure::UnsupportedRegisterKind(s@),
            EmitError::MissingFloatText(b) => EmitFailure::MissingFloatText(b),
            EmitError::Incomplete => EmitFailure::Undefined,
        }
    }
}

/// A text, or the reason why there is none.
pub type Emitted = Result<Seq<char>, EmitFailure>;

/// Whether `r` is the outcome `e`.
pub open spec fn emits(r: Result<String, EmitError>, e: Emitted) -> bool {
    match r {
        Ok(s) => e == Ok::<Seq<char>, EmitFailure>(s@),
        Err(f) => e == Err::<Seq<char>, EmitFailure>(f@),
    }
}

} // verus!
