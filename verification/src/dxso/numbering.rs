//! The numbers by which shader bytecode names what it holds.
//!
//! Each enumeration of Direct3D gives its members numbers; the laws say that the
//! decoders take every number for the member that has it.

use crate::d3d::{
    D3DDECLUSAGE_BINORMAL, D3DDECLUSAGE_BLENDINDICES, D3DDECLUSAGE_BLENDWEIGHT, D3DDECLUSAGE_COLOR,
    D3DDECLUSAGE_DEPTH, D3DDECLUSAGE_FOG, D3DDECLUSAGE_NORMAL, D3DDECLUSAGE_POSITION,
    D3DDECLUSAGE_POSITIONT, D3DDECLUSAGE_PSIZE, D3DDECLUSAGE_SAMPLE, D3DDECLUSAGE_TANGENT,
    D3DDECLUSAGE_TESSFACTOR, D3DDECLUSAGE_TEXCOORD, D3DSIO_ABS, D3DSIO_ADD, D3DSIO_BEM,
    D3DSIO_BREAK, D3DSIO_BREAKC, D3DSIO_BREAKP, D3DSIO_CALL, D3DSIO_CALLNZ, D3DSIO_CMP, D3DSIO_CND,
    D3DSIO_COMMENT, D3DSIO_CRS, D3DSIO_DCL, D3DSIO_DEF, D3DSIO_DEFB, D3DSIO_DEFI, D3DSIO_DP2ADD,
    D3DSIO_DP3, D3DSIO_DP4, D3DSIO_DST, D3DSIO_DSX, D3DSIO_DSY, D3DSIO_ELSE, D3DSIO_END,
    D3DSIO_ENDIF, D3DSIO_ENDLOOP, D3DSIO_ENDREP, D3DSIO_EXP, D3DSIO_EXPP, D3DSIO_FRC, D3DSIO_IF,
    D3DSIO_IFC, D3DSIO_LABEL, D3DSIO_LIT, D3DSIO_LOG, D3DSIO_LOGP, D3DSIO_LOOP, D3DSIO_LRP,
    D3DSIO_M3X2, D3DSIO_M3X3, D3DSIO_M3X4, D3DSIO_M4X3, D3DSIO_M4X4, D3DSIO_MAD, D3DSIO_MAX,
    D3DSIO_MIN, D3DSIO_MOV, D3DSIO_MOVA, D3DSIO_MUL, D3DSIO_NOP, D3DSIO_NRM, D3DSIO_PHASE,
    D3DSIO_POW, D3DSIO_RCP, D3DSIO_REP, D3DSIO_RET, D3DSIO_RSQ, D3DSIO_SETP, D3DSIO_SGE, D3DSIO_SGN,
    D3DSIO_SINCOS, D3DSIO_SLT, D3DSIO_SUB, D3DSIO_TEX, D3DSIO_TEXBEM, D3DSIO_TEXBEML,
    D3DSIO_TEXCOORD, D3DSIO_TEXDEPTH, D3DSIO_TEXDP3, D3DSIO_TEXDP3TEX, D3DSIO_TEXKILL,
    D3DSIO_TEXLDD, D3DSIO_TEXLDL, D3DSIO_TEXM3X2DEPTH, D3DSIO_TEXM3X2PAD, D3DSIO_TEXM3X2TEX,
    D3DSIO_TEXM3X3, D3DSIO_TEXM3X3PAD, D3DSIO_TEXM3X3SPEC, D3DSIO_TEXM3X3TEX, D3DSIO_TEXM3X3VSPEC,
    D3DSIO_TEXREG2AR, D3DSIO_TEXREG2GB, D3DSIO_TEXREG2RGB, D3DSPC_EQ, D3DSPC_GE, D3DSPC_GT,
    D3DSPC_LE, D3DSPC_LT, D3DSPC_NE, D3DSPR_ADDR, D3DSPR_ATTROUT, D3DSPR_COLOROUT, D3DSPR_CONST,
    D3DSPR_CONSTBOOL, D3DSPR_CONSTINT, D3DSPR_DEPTHOUT, D3DSPR_INPUT, D3DSPR_LABEL, D3DSPR_LOOP,
    D3DSPR_MISCTYPE, D3DSPR_OUTPUT, D3DSPR_PREDICATE, D3DSPR_RASTOUT, D3DSPR_SAMPLER, D3DSPR_TEMP,
    D3DSPR_TEMPFLOAT16, D3DSPR_TEXCRDOUT, D3DSPSM_ABS, D3DSPSM_ABSNEG, D3DSPSM_BIAS,
    D3DSPSM_BIASNEG, D3DSPSM_COMP, D3DSPSM_DW, D3DSPSM_DZ, D3DSPSM_NEG, D3DSPSM_NONE, D3DSPSM_NOT,
    D3DSPSM_SIGN, D3DSPSM_SIGNNEG, D3DSPSM_X2, D3DSPSM_X2NEG, D3DSTT_2D, D3DSTT_CUBE, D3DSTT_VOLUME,
};
use crate::dxso::ir::{CmpFunc, DeclUsage, DxsoError, RegKind, SrcModifier, TextureType};
use crate::dxso::opcode::Opcode;
use crate::dxso::parser::{modifier_of, reg_kind, texture_type_of, usage_of};
use vstd::prelude::*;

verus! {

/// The `D3DSIO` number of an opcode.
pub open spec fn d3dsio(op: Opcode) -> u16 {
    match op {
        Opcode::Nop => D3DSIO_NOP,
        Opcode::Mov => D3DSIO_MOV,
        Opcode::Add => D3DSIO_ADD,
        Opcode::Sub => D3DSIO_SUB,
        Opcode::Mad => D3DSIO_MAD,
        Opcode::Mul => D3DSIO_MUL,
        Opcode::Rcp => D3DSIO_RCP,
        Opcode::Rsq => D3DSIO_RSQ,
        Opcode::Dp3 => D3DSIO_DP3,
        Opcode::Dp4 => D3DSIO_DP4,
        Opcode::Min => D3DSIO_MIN,
        Opcode::Max => D3DSIO_MAX,
        Opcode::Slt => D3DSIO_SLT,
        Opcode::Sge => D3DSIO_SGE,
        Opcode::Exp => D3DSIO_EXP,
        Opcode::Log => D3DSIO_LOG,
        Opcode::Lit => D3DSIO_LIT,
        Opcode::Dst => D3DSIO_DST,
        Opcode::Lrp => D3DSIO_LRP,
        Opcode::Frc => D3DSIO_FRC,
        Opcode::M4x4 => D3DSIO_M4X4,
        Opcode::M4x3 => D3DSIO_M4X3,
        Opcode::M3x4 => D3DSIO_M3X4,
        Opcode::M3x3 => D3DSIO_M3X3,
        Opcode::M3x2 => D3DSIO_M3X2,
        Opcode::Call => D3DSIO_CALL,
        Opcode::CallNz => D3DSIO_CALLNZ,
        Opcode::Loop => D3DSIO_LOOP,
        Opcode::Ret => D3DSIO_RET,
        Opcode::EndLoop => D3DSIO_ENDLOOP,
        Opcode::Label => D3DSIO_LABEL,
        Opcode::Dcl => D3DSIO_DCL,
        Opcode::Pow => D3DSIO_POW,
        Opcode::Crs => D3DSIO_CRS,
        Opcode::Sgn => D3DSIO_SGN,
        Opcode::Abs => D3DSIO_ABS,
        Opcode::Nrm => D3DSIO_NRM,
        Opcode::SinCos => D3DSIO_SINCOS,
        Opcode::Rep => D3DSIO_REP,
        Opcode::EndRep => D3DSIO_ENDREP,
        Opcode::If => D3DSIO_IF,
        Opcode::Ifc => D3DSIO_IFC,
        Opcode::Else => D3DSIO_ELSE,
        Opcode::EndIf => D3DSIO_ENDIF,
        Opcode::Break => D3DSIO_BREAK,
        Opcode::BreakC => D3DSIO_BREAKC,
        Opcode::MovA => D3DSIO_MOVA,
        Opcode::DefB => D3DSIO_DEFB,
        Opcode::DefI => D3DSIO_DEFI,
        Opcode::TexCoord => D3DSIO_TEXCOORD,
        Opcode::TexKill => D3DSIO_TEXKILL,
        Opcode::TexLd => D3DSIO_TEX,
        Opcode::TexBem => D3DSIO_TEXBEM,
        Opcode::TexBemL => D3DSIO_TEXBEML,
        Opcode::TexReg2Ar => D3DSIO_TEXREG2AR,
        Opcode::TexReg2Gb => D3DSIO_TEXREG2GB,
        Opcode::TexM3x2Pad => D3DSIO_TEXM3X2PAD,
        Opcode::TexM3x2Tex => D3DSIO_TEXM3X2TEX,
        Opcode::TexM3x3Pad => D3DSIO_TEXM3X3PAD,
        Opcode::TexM3x3Tex => D3DSIO_TEXM3X3TEX,
        Opcode::TexM3x3Spec => D3DSIO_TEXM3X3SPEC,
        Opcode::TexM3x3VSpec => D3DSIO_TEXM3X3VSPEC,
        Opcode::ExpP => D3DSIO_EXPP,
        Opcode::LogP => D3DSIO_LOGP,
        Opcode::Cnd => D3DSIO_CND,
        Opcode::Def => D3DSIO_DEF,
        Opcode::TexReg2Rgb => D3DSIO_TEXREG2RGB,
        Opcode::TexDp3Tex => D3DSIO_TEXDP3TEX,
        Opcode::TexM3x2Depth => D3DSIO_TEXM3X2DEPTH,
        Opcode::TexDp3 => D3DSIO_TEXDP3,
        Opcode::TexM3x3 => D3DSIO_TEXM3X3,
        Opcode::TexDepth => D3DSIO_TEXDEPTH,
        Opcode::Cmp => D3DSIO_CMP,
        Opcode::Bem => D3DSIO_BEM,
        Opcode::Dp2Add => D3DSIO_DP2ADD,
        Opcode::Dsx => D3DSIO_DSX,
        Opcode::Dsy => D3DSIO_DSY,
        Opcode::TexLdD => D3DSIO_TEXLDD,
        Opcode::SetP => D3DSIO_SETP,
        Opcode::TexLdL => D3DSIO_TEXLDL,
        Opcode::BreakP => D3DSIO_BREAKP,
        Opcode::Phase => D3DSIO_PHASE,
        Opcode::Comment => D3DSIO_COMMENT,
        Opcode::End => D3DSIO_END,
    }
}

/// The `D3DSPR` number of a register file.
pub open spec fn d3dspr(kind: RegKind) -> u32 {
    match kind {
        RegKind::Addr => D3DSPR_ADDR,
        RegKind::AttrOut => D3DSPR_ATTROUT,
        RegKind::ColorOut => D3DSPR_COLOROUT,
        RegKind::Const => D3DSPR_CONST,
        RegKind::ConstBool => D3DSPR_CONSTBOOL,
        RegKind::ConstInt => D3DSPR_CONSTINT,
        RegKind::DepthOut => D3DSPR_DEPTHOUT,
        RegKind::Input => D3DSPR_INPUT,
        RegKind::Label => D3DSPR_LABEL,
        RegKind::Loop => D3DSPR_LOOP,
        RegKind::MiscType => D3DSPR_MISCTYPE,
        RegKind::Output => D3DSPR_OUTPUT,
        RegKind::Predicate => D3DSPR_PREDICATE,
        RegKind::RastOut => D3DSPR_RASTOUT,
        RegKind::Sampler => D3DSPR_SAMPLER,
        RegKind::Temp => D3DSPR_TEMP,
        RegKind::TempFloat16 => D3DSPR_TEMPFLOAT16,
        RegKind::TexcoordOut => D3DSPR_TEXCRDOUT,
    }
}

/// The `D3DSPSM` number of a source modifier.
pub open spec fn d3dspsm(m: SrcModifier) -> u8 {
    match m {
        SrcModifier::Abs => D3DSPSM_ABS,
        SrcModifier::AbsNeg => D3DSPSM_ABSNEG,
        SrcModifier::Bias => D3DSPSM_BIAS,
        SrcModifier::BiasNeg => D3DSPSM_BIASNEG,
        SrcModifier::Comp => D3DSPSM_COMP,
        SrcModifier::Dw => D3DSPSM_DW,
        SrcModifier::Dz => D3DSPSM_DZ,
        SrcModifier::Neg => D3DSPSM_NEG,
        SrcModifier::Unmodified => D3DSPSM_NONE,
        SrcModifier::Not => D3DSPSM_NOT,
        SrcModifier::Sign => D3DSPSM_SIGN,
        SrcModifier::SignNeg => D3DSPSM_SIGNNEG,
        SrcModifier::X2 => D3DSPSM_X2,
        SrcModifier::X2Neg => D3DSPSM_X2NEG,
    }
}

/// The `D3DSPC` number of a comparison.
pub open spec fn d3dspc(c: CmpFunc) -> u8 {
    match c {
        CmpFunc::Eq => D3DSPC_EQ,
        CmpFunc::Ge => D3DSPC_GE,
        CmpFunc::Gt => D3DSPC_GT,
        CmpFunc::Le => D3DSPC_LE,
        CmpFunc::Lt => D3DSPC_LT,
        CmpFunc::Ne => D3DSPC_NE,
    }
}

/// The `D3DDECLUSAGE` number of a usage.
pub open spec fn d3ddeclusage(u: DeclUsage) -> u8 {
    match u {
        DeclUsage::Binormal => D3DDECLUSAGE_BINORMAL,
        DeclUsage::BlendIndices => D3DDECLUSAGE_BLENDINDICES,
        DeclUsage::BlendWeight => D3DDECLUSAGE_BLENDWEIGHT,
        DeclUsage::Color => D3DDECLUSAGE_COLOR,
        DeclUsage::Depth => D3DDECLUSAGE_DEPTH,
        DeclUsage::Fog => D3DDECLUSAGE_FOG,
        DeclUsage::Normal => D3DDECLUSAGE_NORMAL,
        DeclUsage::Position => D3DDECLUSAGE_POSITION,
        DeclUsage::PositionT => D3DDECLUSAGE_POSITIONT,
        DeclUsage::PSize => D3DDECLUSAGE_PSIZE,
        DeclUsage::Sample => D3DDECLUSAGE_SAMPLE,
        DeclUsage::Tangent => D3DDECLUSAGE_TANGENT,
        DeclUsage::TessFactor => D3DDECLUSAGE_TESSFACTOR,
        DeclUsage::Texcoord => D3DDECLUSAGE_TEXCOORD,
    }
}

proof fn d3dsio_numbers_are_codes(op: Opcode)
    ensures
        op.code() == d3dsio(op),
{
}

proof fn codes_are_unique(a: Opcode, b: Opcode)
    requires
        a.code() == b.code(),
    ensures
        a == b,
{
}

/// Every opcode is decoded from its `D3DSIO` number, and from no other.
pub proof fn opcodes_have_their_d3dsio_numbers(op: Opcode, v: u16)
    ensures
        Opcode::decoded(v) == Some(op) <==> v == d3dsio(op),
{
    d3dsio_numbers_are_codes(op);
    if v == d3dsio(op) {
        assert(op.code() == v);
        let other = Opcode::decoded(v)->0;
        codes_are_unique(op, other);
    }
}

/// Every register file is decoded from its `D3DSPR` number, and from no other.
pub proof fn register_files_have_their_d3dspr_numbers(kind: RegKind, full: u32)
    ensures
        reg_kind(full) == Ok::<RegKind, DxsoError>(kind) <==> full == d3dspr(kind),
{
}

/// Every source modifier is decoded from its `D3DSPSM` number, and from no other
/// of the numbers that have one.
pub proof fn modifiers_have_their_d3dspsm_numbers(m: SrcModifier, v: u8)
    requires
        v <= D3DSPSM_NOT,
    ensures
        modifier_of(v) == m <==> v == d3dspsm(m),
{
}

/// Every comparison is decoded from its `D3DSPC` number, and from no other.
pub proof fn comparisons_have_their_d3dspc_numbers(c: CmpFunc, v: u8)
    ensures
        CmpFunc::decoded(v) == Some(c) <==> v == d3dspc(c),
{
}

/// Every usage is decoded from its `D3DDECLUSAGE` number, and from no other.
pub proof fn usages_have_their_d3ddeclusage_numbers(u: DeclUsage, v: u8)
    ensures
        usage_of(v) == Ok::<DeclUsage, DxsoError>(u) <==> v == d3ddeclusage(u),
{
}

/// Every texture type is decoded from its `D3DSTT` number, and from no other.
pub proof fn texture_types_have_their_d3dstt_numbers(v: u32)
    ensures
        texture_type_of(v) == TextureType::Texture2D <==> v == D3DSTT_2D,
        texture_type_of(v) == TextureType::TextureCube <==> v == D3DSTT_CUBE,
        texture_type_of(v) == TextureType::Texture3D <==> v == D3DSTT_VOLUME,
{
}

} // verus!
