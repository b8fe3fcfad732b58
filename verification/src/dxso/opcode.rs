//! Shader opcodes and their classification.
//!
//! The numeric values are those of the `D3DSIO_*` enumeration.

use vstd::prelude::*;

verus! {

/// A shader instruction's operation.
#[derive(Clone, Copy, Debug, PartialEq, Eq, Structural)]
pub enum Opcode {
    Nop,
    Mov,
    Add,
    Sub,
    Mad,
    Mul,
    Rcp,
    Rsq,
    Dp3,
    Dp4,
    Min,
    Max,
    Slt,
    Sge,
    Exp,
    Log,
    Lit,
    Dst,
    Lrp,
    Frc,
    M4x4,
    M4x3,
    M3x4,
    M3x3,
    M3x2,
    Call,
    CallNz,
    Loop,
    Ret,
    EndLoop,
    Label,
    Dcl,
    Pow,
    Crs,
    Sgn,
    Abs,
    Nrm,
    SinCos,
    Rep,
    EndRep,
    If,
    Ifc,
    Else,
    EndIf,
    Break,
    BreakC,
    MovA,
    DefB,
    DefI,
    // Texture addressing of the ps_1_x models. `TexLd` doubles as the
    // `texld` of the later models; the rest are ps_1_x only.
    TexCoord,
    TexKill,
    TexLd,
    TexBem,
    TexBemL,
    TexReg2Ar,
    TexReg2Gb,
    TexM3x2Pad,
    TexM3x2Tex,
    TexM3x3Pad,
    TexM3x3Tex,
    TexM3x3Spec,
    TexM3x3VSpec,
    TexReg2Rgb,
    TexDp3Tex,
    TexM3x2Depth,
    TexDp3,
    TexM3x3,
    TexDepth,
    Bem,
    ExpP,
    LogP,
    Cnd,
    Def,
    Cmp,
    Dp2Add,
    Dsx,
    Dsy,
    TexLdD,
    SetP,
    TexLdL,
    BreakP,
    Phase,
    End,
    Comment,
}

impl Opcode {
    /// The number that encodes this opcode in the low half of an instruction
    /// token.
    pub open spec fn code(self) -> u16 {
        match self {
            Opcode::Nop => 0,
            Opcode::Mov => 1,
            Opcode::Add => 2,
            Opcode::Sub => 3,
            Opcode::Mad => 4,
            Opcode::Mul => 5,
            Opcode::Rcp => 6,
            Opcode::Rsq => 7,
            Opcode::Dp3 => 8,
            Opcode::Dp4 => 9,
            Opcode::Min => 10,
            Opcode::Max => 11,
            Opcode::Slt => 12,
            Opcode::Sge => 13,
            Opcode::Exp => 14,
            Opcode::Log => 15,
            Opcode::Lit => 16,
            Opcode::Dst => 17,
            Opcode::Lrp => 18,
            Opcode::Frc => 19,
            Opcode::M4x4 => 20,
            Opcode::M4x3 => 21,
            Opcode::M3x4 => 22,
            Opcode::M3x3 => 23,
            Opcode::M3x2 => 24,
            Opcode::Call => 25,
            Opcode::CallNz => 26,
            Opcode::Loop => 27,
            Opcode::Ret => 28,
            Opcode::EndLoop => 29,
            Opcode::Label => 30,
            Opcode::Dcl => 31,
            Opcode::Pow => 32,
            Opcode::Crs => 33,
            Opcode::Sgn => 34,
            Opcode::Abs => 35,
            Opcode::Nrm => 36,
            Opcode::SinCos => 37,
            Opcode::Rep => 38,
            Opcode::EndRep => 39,
            Opcode::If => 40,
            Opcode::Ifc => 41,
            Opcode::Else => 42,
            Opcode::EndIf => 43,
            Opcode::Break => 44,
            Opcode::BreakC => 45,
            Opcode::MovA => 46,
            Opcode::DefB => 47,
            Opcode::DefI => 48,
            Opcode::TexCoord => 64,
            Opcode::TexKill => 65,
            Opcode::TexLd => 66,
            Opcode::TexBem => 67,
            Opcode::TexBemL => 68,
            Opcode::TexReg2Ar => 69,
            Opcode::TexReg2Gb => 70,
            Opcode::TexM3x2Pad => 71,
            Opcode::TexM3x2Tex => 72,
            Opcode::TexM3x3Pad => 73,
            Opcode::TexM3x3Tex => 74,
            Opcode::TexM3x3Spec => 76,
            Opcode::TexM3x3VSpec => 77,
            Opcode::ExpP => 78,
            Opcode::LogP => 79,
            Opcode::Cnd => 80,
            Opcode::Def => 81,
            Opcode::TexReg2Rgb => 82,
            Opcode::TexDp3Tex => 83,
            Opcode::TexM3x2Depth => 84,
            Opcode::TexDp3 => 85,
            Opcode::TexM3x3 => 86,
            Opcode::TexDepth => 87,
            Opcode::Cmp => 88,
            Opcode::Bem => 89,
            Opcode::Dp2Add => 90,
            Opcode::Dsx => 91,
            Opcode::Dsy => 92,
            Opcode::TexLdD => 93,
            Opcode::SetP => 94,
            Opcode::TexLdL => 95,
            Opcode::BreakP => 96,
            Opcode::Phase => 0xFFFD,
            Opcode::Comment => 0xFFFE,
            Opcode::End => 0xFFFF,
        }
    }

    /// The opcode with number `v`, if there is one.
    pub open spec fn decoded(v: u16) -> Option<Opcode> {
        if exists|op: Opcode| (#[trigger] op.code()) == v {
            Some(choose|op: Opcode| (#[trigger] op.code()) == v)
        } else {
            None
        }
    }

    /// The opcode encoded by `v`; `None` where no opcode has that number.
    pub fn from_u16(v: u16) -> (r: Option<Opcode>)
        ensures
            r == Opcode::decoded(v),
            match r {
                Some(op) => op.code() == v,
                None => forall|op: Opcode| (#[trigger] op.code()) != v,
            },
    {
        let op = match v {
            0 => Opcode::Nop,
            1 => Opcode::Mov,
            2 => Opcode::Add,
            3 => Opcode::Sub,
            4 => Opcode::Mad,
            5 => Opcode::Mul,
            6 => Opcode::Rcp,
            7 => Opcode::Rsq,
            8 => Opcode::Dp3,
            9 => Opcode::Dp4,
            10 => Opcode::Min,
            11 => Opcode::Max,
            12 => Opcode::Slt,
            13 => Opcode::Sge,
            14 => Opcode::Exp,
            15 => Opcode::Log,
            16 => Opcode::Lit,
            17 => Opcode::Dst,
            18 => Opcode::Lrp,
            19 => Opcode::Frc,
            20 => Opcode::M4x4,
            21 => Opcode::M4x3,
            22 => Opcode::M3x4,
            23 => Opcode::M3x3,
            24 => Opcode::M3x2,
            25 => Opcode::Call,
            26 => Opcode::CallNz,
            27 => Opcode::Loop,
            28 => Opcode::Ret,
            29 => Opcode::EndLoop,
            30 => Opcode::Label,
            31 => Opcode::Dcl,
            32 => Opcode::Pow,
            33 => Opcode::Crs,
            34 => Opcode::Sgn,
            35 => Opcode::Abs,
            36 => Opcode::Nrm,
            37 => Opcode::SinCos,
            38 => Opcode::Rep,
            39 => Opcode::EndRep,
            40 => Opcode::If,
            41 => Opcode::Ifc,
            42 => Opcode::Else,
            43 => Opcode::EndIf,
            44 => Opcode::Break,
            45 => Opcode::BreakC,
            46 => Opcode::MovA,
            47 => Opcode::DefB,
            48 => Opcode::DefI,
            64 => Opcode::TexCoord,
            65 => Opcode::TexKill,
            66 => Opcode::TexLd,
            67 => Opcode::TexBem,
            68 => Opcode::TexBemL,
            69 => Opcode::TexReg2Ar,
            70 => Opcode::TexReg2Gb,
            71 => Opcode::TexM3x2Pad,
            72 => Opcode::TexM3x2Tex,
            73 => Opcode::TexM3x3Pad,
            74 => Opcode::TexM3x3Tex,
            76 => Opcode::TexM3x3Spec,
            77 => Opcode::TexM3x3VSpec,
            78 => Opcode::ExpP,
            79 => Opcode::LogP,
            80 => Opcode::Cnd,
            81 => Opcode::Def,
            82 => Opcode::TexReg2Rgb,
            83 => Opcode::TexDp3Tex,
            84 => Opcode::TexM3x2Depth,
            85 => Opcode::TexDp3,
            86 => Opcode::TexM3x3,
            87 => Opcode::TexDepth,
            88 => Opcode::Cmp,
            89 => Opcode::Bem,
            90 => Opcode::Dp2Add,
            91 => Opcode::Dsx,
            92 => Opcode::Dsy,
            93 => Opcode::TexLdD,
            94 => Opcode::SetP,
            95 => Opcode::TexLdL,
            96 => Opcode::BreakP,
            0xFFFD => Opcode::Phase,
            0xFFFE => Opcode::Comment,
            0xFFFF => Opcode::End,
            _ => return None,
        };
        proof {
            assert(op.code() == v);
            opcode_encoding_is_unique(op, choose|o: Opcode| (#[trigger] o.code()) == v);
        }
        Some(op)
    }

    /// Whether the first operand token of this opcode is in destination form.
    ///
    /// Holds of every opcode but flow control, definitions, declarations and
    /// stream markers. Most such opcodes write the register; `texkill`,
    /// `texdepth` and `texm3x2depth` only read it.
    pub open spec fn takes_destination(self) -> bool {
        match self {
            Opcode::Nop
            | Opcode::Call
            | Opcode::CallNz
            | Opcode::Loop
            | Opcode::Ret
            | Opcode::EndLoop
            | Opcode::Label
            | Opcode::Dcl
            | Opcode::Rep
            | Opcode::EndRep
            | Opcode::If
            | Opcode::Ifc
            | Opcode::Else
            | Opcode::EndIf
            | Opcode::Break
            | Opcode::BreakC
            | Opcode::DefB
            | Opcode::DefI
            | Opcode::Def
            | Opcode::BreakP
            | Opcode::Phase
            | Opcode::End
            | Opcode::Comment => false,
            _ => true,
        }
    }

    /// Whether the first operand token is decoded with a write mask rather
    /// than a swizzle.
    pub fn has_destination(self) -> (r: bool)
        ensures
            r == self.takes_destination(),
    {
        matches!(
            self,
            Opcode::Mov
                | Opcode::MovA
                | Opcode::Add
                | Opcode::Sub
                | Opcode::Mad
                | Opcode::Mul
                | Opcode::Rcp
                | Opcode::Rsq
                | Opcode::Dp3
                | Opcode::Dp4
                | Opcode::Min
                | Opcode::Max
                | Opcode::Slt
                | Opcode::Sge
                | Opcode::Exp
                | Opcode::Log
                | Opcode::Lit
                | Opcode::Dst
                | Opcode::Lrp
                | Opcode::Frc
                | Opcode::M4x4
                | Opcode::M4x3
                | Opcode::M3x4
                | Opcode::M3x3
                | Opcode::M3x2
                | Opcode::Pow
                | Opcode::Crs
                | Opcode::Sgn
                | Opcode::Abs
                | Opcode::Nrm
                | Opcode::SinCos
                | Opcode::Cnd
                | Opcode::Cmp
                | Opcode::Dp2Add
                | Opcode::Dsx
                | Opcode::Dsy
                | Opcode::TexLd
                | Opcode::TexLdL
                | Opcode::TexLdD
                | Opcode::TexKill
                | Opcode::TexCoord
                | Opcode::TexBem
                | Opcode::TexBemL
                | Opcode::TexReg2Ar
                | Opcode::TexReg2Gb
                | Opcode::TexReg2Rgb
                | Opcode::TexM3x2Pad
                | Opcode::TexM3x2Tex
                | Opcode::TexM3x2Depth
                | Opcode::TexM3x3Pad
                | Opcode::TexM3x3Tex
                | Opcode::TexM3x3
                | Opcode::TexM3x3Spec
                | Opcode::TexM3x3VSpec
                | Opcode::TexDp3
                | Opcode::TexDp3Tex
                | Opcode::TexDepth
                | Opcode::Bem
                | Opcode::ExpP
                | Opcode::LogP
                | Opcode::SetP
        )
    }
}

/// No two opcodes share an encoding, so decoding the number of an opcode gives
/// that opcode back.
pub proof fn opcode_encoding_is_unique(a: Opcode, b: Opcode)
    requires
        a.code() == b.code(),
    ensures
        a == b,
{
}

} // verus!
