//! Bytecode parser.
//!
//! Accepts the first, second and third shader models. Any other version is an
//! `UnsupportedShaderModel` error.

use crate::d3d::{
    D3DDECLUSAGE_BINORMAL, D3DDECLUSAGE_BLENDINDICES, D3DDECLUSAGE_BLENDWEIGHT, D3DDECLUSAGE_COLOR,
    D3DDECLUSAGE_DEPTH, D3DDECLUSAGE_FOG, D3DDECLUSAGE_NORMAL, D3DDECLUSAGE_POSITION,
    D3DDECLUSAGE_POSITIONT, D3DDECLUSAGE_PSIZE, D3DDECLUSAGE_SAMPLE, D3DDECLUSAGE_TANGENT,
    D3DDECLUSAGE_TESSFACTOR, D3DDECLUSAGE_TEXCOORD,
};
use crate::dxso::encoding::{
    encodable_programs_read_existing_constants, parsed_programs_are_encodable, program_encodable,
};
use crate::dxso::ir::{
    CmpFunc, DeclUsage, Declaration, DefBoolConstant, DefConstant, DefIntConstant, DstMods,
    DstOperand, DxsoError, DxsoProgram, InstrFlags, Instruction, InstructionView, ProgramView,
    RegKind, Register, RelativeAddr, ShaderType, SrcModifier, SrcOperand, Swizzle, TextureType,
    WriteMask,
};
use crate::dxso::opcode::Opcode;
use crate::dxso::queries::const_spans_fit;
use std::collections::BTreeMap;
use vstd::prelude::*;

verus! {

broadcast use vstd::std_specs::btree::group_btree_axioms;

// ---------------------------------------------------------------------------
// Fields of a token
// ---------------------------------------------------------------------------

/// Register-type number: bits 28-30 are its low bits, bits 11-12 its high ones.
pub open spec fn reg_type_field(token: u32) -> u32 {
    ((token >> 28) & 0x7) | (((token >> 11) & 0x3) << 3)
}

/// The register file with type number `full`.
pub open spec fn reg_kind(full: u32) -> Result<RegKind, DxsoError> {
    match full {
        0 => Ok(RegKind::Temp),
        1 => Ok(RegKind::Input),
        2 => Ok(RegKind::Const),
        3 => Ok(RegKind::Addr),
        4 => Ok(RegKind::RastOut),
        5 => Ok(RegKind::AttrOut),
        6 => Ok(RegKind::TexcoordOut),
        7 => Ok(RegKind::ConstInt),
        8 => Ok(RegKind::ColorOut),
        9 => Ok(RegKind::DepthOut),
        10 => Ok(RegKind::Sampler),
        11 => Ok(RegKind::Output),
        14 => Ok(RegKind::ConstBool),
        15 => Ok(RegKind::Loop),
        16 => Ok(RegKind::TempFloat16),
        17 => Ok(RegKind::MiscType),
        18 => Ok(RegKind::Label),
        19 => Ok(RegKind::Predicate),
        _ => Err(DxsoError::UnknownRegisterType(full)),
    }
}

/// The register that an operand token names.
pub open spec fn reg_of(token: u32) -> Result<Register, DxsoError> {
    match reg_kind(reg_type_field(token)) {
        Ok(kind) => Ok(Register { kind, index: (token & 0x7FF) as u16 }),
        Err(e) => Err(e),
    }
}

/// The swizzle in eight bits, two per lane, the first lane lowest.
pub open spec fn swizzle_of(bits: u32) -> Swizzle {
    Swizzle(
        [
            (bits & 0x3) as u8,
            ((bits >> 2) & 0x3) as u8,
            ((bits >> 4) & 0x3) as u8,
            ((bits >> 6) & 0x3) as u8,
        ],
    )
}

/// The source modifier with number `b`; an unknown number modifies nothing.
pub open spec fn modifier_of(b: u8) -> SrcModifier {
    match b {
        1 => SrcModifier::Neg,
        2 => SrcModifier::Bias,
        3 => SrcModifier::BiasNeg,
        4 => SrcModifier::Sign,
        5 => SrcModifier::SignNeg,
        6 => SrcModifier::Comp,
        7 => SrcModifier::X2,
        8 => SrcModifier::X2Neg,
        9 => SrcModifier::Dz,
        10 => SrcModifier::Dw,
        11 => SrcModifier::Abs,
        12 => SrcModifier::AbsNeg,
        13 => SrcModifier::Not,
        _ => SrcModifier::Unmodified,
    }
}

/// The declaration usage with number `b`.
pub open spec fn usage_of(b: u8) -> Result<DeclUsage, DxsoError> {
    if b == D3DDECLUSAGE_POSITION {
        Ok(DeclUsage::Position)
    } else if b == D3DDECLUSAGE_BLENDWEIGHT {
        Ok(DeclUsage::BlendWeight)
    } else if b == D3DDECLUSAGE_BLENDINDICES {
        Ok(DeclUsage::BlendIndices)
    } else if b == D3DDECLUSAGE_NORMAL {
        Ok(DeclUsage::Normal)
    } else if b == D3DDECLUSAGE_PSIZE {
        Ok(DeclUsage::PSize)
    } else if b == D3DDECLUSAGE_TEXCOORD {
        Ok(DeclUsage::Texcoord)
    } else if b == D3DDECLUSAGE_TANGENT {
        Ok(DeclUsage::Tangent)
    } else if b == D3DDECLUSAGE_BINORMAL {
        Ok(DeclUsage::Binormal)
    } else if b == D3DDECLUSAGE_TESSFACTOR {
        Ok(DeclUsage::TessFactor)
    } else if b == D3DDECLUSAGE_POSITIONT {
        Ok(DeclUsage::PositionT)
    } else if b == D3DDECLUSAGE_COLOR {
        Ok(DeclUsage::Color)
    } else if b == D3DDECLUSAGE_FOG {
        Ok(DeclUsage::Fog)
    } else if b == D3DDECLUSAGE_DEPTH {
        Ok(DeclUsage::Depth)
    } else if b == D3DDECLUSAGE_SAMPLE {
        Ok(DeclUsage::Sample)
    } else {
        Err(DxsoError::UnknownDeclUsage(b))
    }
}

/// The texture type with number `bits`.
pub open spec fn texture_type_of(bits: u32) -> TextureType {
    match bits {
        2 => TextureType::Texture2D,
        3 => TextureType::TextureCube,
        4 => TextureType::Texture3D,
        _ => TextureType::Unknown,
    }
}

/// Whether an operand token asks for relative addressing.
pub open spec fn is_relative(token: u32) -> bool {
    token & 0x2000 != 0
}

/// The destination operand in `token`.
pub open spec fn dst_of(token: u32) -> Result<DstOperand, DxsoError> {
    if is_relative(token) {
        Err(DxsoError::UnsupportedRelativeAddressing)
    } else {
        match reg_of(token) {
            Ok(reg) => {
                let shift = (token >> 24) & 0xF;
                Ok(
                    DstOperand {
                        reg,
                        write_mask: WriteMask(((token >> 16) & 0xF) as u8),
                        mods: DstMods { bits: ((token >> 20) & 0x7) as u8 },
                        shift_scale: if shift >= 8 { (shift - 16) as i8 } else { shift as i8 },
                    },
                )
            },
            Err(e) => Err(e),
        }
    }
}

/// The source operand at `pos` and the number of tokens it takes.
///
/// A relative read takes a second token that names the index register, except
/// in the first shader model, where the index register is always `a0.x`.
pub open spec fn src_at(bc: Seq<u32>, pos: int, sm1: bool) -> Result<
    (SrcOperand, nat),
    DxsoError,
> {
    if pos >= bc.len() {
        Err(DxsoError::Truncated)
    } else {
        let token = bc[pos];
        match reg_of(token) {
            Err(e) => Err(e),
            Ok(reg) => {
                let swizzle = swizzle_of((token >> 16) & 0xFF);
                let modifier = modifier_of(((token >> 24) & 0xF) as u8);
                if !is_relative(token) {
                    Ok((SrcOperand { reg, swizzle, modifier, rel_addr: None }, 1))
                } else if sm1 {
                    let rel = RelativeAddr {
                        reg: Register { kind: RegKind::Addr, index: 0 },
                        swizzle: Swizzle([0u8, 0u8, 0u8, 0u8]),
                    };
                    Ok((SrcOperand { reg, swizzle, modifier, rel_addr: Some(rel) }, 1))
                } else if pos + 1 >= bc.len() {
                    Err(DxsoError::Truncated)
                } else {
                    match reg_of(bc[pos + 1]) {
                        Err(e) => Err(e),
                        Ok(rel_reg) => {
                            let rel = RelativeAddr {
                                reg: rel_reg,
                                swizzle: swizzle_of((bc[pos + 1] >> 16) & 0xFF),
                            };
                            Ok((SrcOperand { reg, swizzle, modifier, rel_addr: Some(rel) }, 2))
                        },
                    }
                }
            },
        }
    }
}

/// The source operands in the `remaining` tokens from `pos` on, after `acc`.
pub open spec fn srcs_from(
    bc: Seq<u32>,
    pos: int,
    remaining: nat,
    sm1: bool,
    acc: Seq<SrcOperand>,
) -> Result<Seq<SrcOperand>, DxsoError>
    decreases remaining,
{
    if remaining == 0 {
        Ok(acc)
    } else {
        match src_at(bc, pos, sm1) {
            Err(e) => Err(e),
            Ok((src, taken)) => if taken > remaining {
                Err(DxsoError::Truncated)
            } else {
                srcs_from(bc, pos + taken, (remaining - taken) as nat, sm1, acc.push(src))
            },
        }
    }
}

/// The length of the run of operand tokens (bit 31 set) from `pos` on.
pub open spec fn operand_run(bc: Seq<u32>, pos: int) -> nat
    decreases bc.len() - pos,
{
    if 0 <= pos < bc.len() && bc[pos] & 0x8000_0000 != 0 {
        1 + operand_run(bc, pos + 1)
    } else {
        0
    }
}

/// The operand-token count in an instruction token of the second model on.
pub open spec fn length_field(token: u32) -> nat {
    ((token >> 24) & 0xF) as nat
}

/// The number of operand tokens of the instruction at `pos`.
///
/// The first shader model has no length field: there the operands are the run
/// of tokens with bit 31 set.
pub open spec fn operand_tokens(bc: Seq<u32>, pos: int, major: u8) -> nat {
    if major >= 2 {
        length_field(bc[pos])
    } else {
        operand_run(bc, pos + 1)
    }
}

/// The operand tokens that remain of `count` once `used` of them are taken.
pub open spec fn tokens_left(count: nat, used: nat) -> nat {
    (count - used) as nat
}

/// The comparison field of an instruction token.
pub open spec fn comparison_field(token: u32) -> u8 {
    ((token >> 16) & 0xFF) as u8
}

/// The low half of an instruction token.
pub open spec fn opcode_field(token: u32) -> u16 {
    (token & 0xFFFF) as u16
}

/// The payload length of a comment token.
pub open spec fn comment_field(token: u32) -> nat {
    ((token >> 16) & 0x7FFF) as nat
}

/// Shader type and version in a header token.
pub open spec fn header_of(first: u32) -> Result<(ShaderType, u8, u8), DxsoError> {
    let magic = (first >> 16) & 0xFFFF;
    let major = ((first >> 8) & 0xFF) as u8;
    let minor = (first & 0xFF) as u8;
    if magic == 0xFFFE {
        if major == 2 || major == 3 || (major == 1 && minor == 1) {
            Ok((ShaderType::Vertex, major, minor))
        } else {
            Err(DxsoError::UnsupportedShaderModel { major, minor })
        }
    } else if magic == 0xFFFF {
        if major == 2 || major == 3 || (major == 1 && minor <= 4) {
            Ok((ShaderType::Pixel, major, minor))
        } else {
            Err(DxsoError::UnsupportedShaderModel { major, minor })
        }
    } else {
        Err(DxsoError::InvalidHeader)
    }
}

// ---------------------------------------------------------------------------
// Items of the stream
// ---------------------------------------------------------------------------

/// One element of the token stream after the header.
pub enum ItemView {
    End,
    /// A comment or a `phase` marker: nothing to record.
    Skip,
    Declare(Declaration),
    Define(DefConstant),
    DefineInt(DefIntConstant),
    DefineBool(DefBoolConstant),
    /// Starts (or resumes) the body of a subroutine.
    Label(u32),
    /// Ends a subroutine body.
    Ret,
    Execute(InstructionView),
}

/// The destination operand of an instruction at `pos` and the tokens it takes.
pub open spec fn dst_part(bc: Seq<u32>, pos: int, op: Opcode, count: nat) -> Result<
    (Option<DstOperand>, nat),
    DxsoError,
> {
    if op.takes_destination() && count >= 1 {
        if pos + 1 >= bc.len() {
            Err(DxsoError::Truncated)
        } else {
            match dst_of(bc[pos + 1]) {
                Ok(d) => Ok((Some(d), 1)),
                Err(e) => Err(e),
            }
        }
    } else {
        Ok((None, 0))
    }
}

/// The predicate operand in the `left` tokens from `pos` on, where the
/// instruction token asks for one, and the tokens it takes.
pub open spec fn predicate_part(bc: Seq<u32>, pos: int, token: u32, left: nat) -> Result<
    (Option<SrcOperand>, nat),
    DxsoError,
> {
    if token & 0x1000_0000 != 0 && left > 0 {
        match src_at(bc, pos, false) {
            Err(e) => Err(e),
            Ok((p, taken)) => if taken > left {
                Err(DxsoError::Truncated)
            } else {
                Ok((Some(p), taken))
            },
        }
    } else {
        Ok((None, 0))
    }
}

/// The comparison that an instruction token carries for `op`.
pub open spec fn comparison_of(op: Opcode, token: u32) -> Option<CmpFunc> {
    match op {
        Opcode::Ifc | Opcode::BreakC | Opcode::SetP => CmpFunc::decoded(comparison_field(token)),
        _ => None,
    }
}

/// The control flags that an instruction token carries for `op`.
pub open spec fn flags_of(op: Opcode, token: u32) -> InstrFlags {
    InstrFlags::of(
        token & 0x1000_0000 != 0,
        op == Opcode::TexLd && token & 0x0001_0000 != 0,
        token & 0x4000_0000 != 0,
    )
}

/// The instruction with opcode `op` whose instruction token is at `pos`.
///
/// The operand tokens are a destination (where the opcode has one), the
/// predicate (where the instruction is predicated), then the sources.
pub open spec fn instruction_at(bc: Seq<u32>, pos: int, op: Opcode, major: u8) -> Result<
    InstructionView,
    DxsoError,
> {
    let count = operand_tokens(bc, pos, major);
    match dst_part(bc, pos, op, count) {
        Err(e) => Err(e),
        Ok((dst, d)) => match predicate_part(bc, pos + 1 + d, bc[pos], tokens_left(count, d)) {
            Err(e) => Err(e),
            Ok((predicate, p)) => match srcs_from(
                bc,
                pos + 1 + d + p,
                tokens_left(tokens_left(count, d), p),
                major < 2,
                Seq::empty(),
            ) {
                Err(e) => Err(e),
                Ok(srcs) => Ok(
                    InstructionView {
                        opcode: op,
                        dst,
                        srcs,
                        flags: flags_of(op, bc[pos]),
                        predicate,
                        cmp_func: comparison_of(op, bc[pos]),
                    },
                ),
            },
        },
    }
}

/// The declaration whose instruction token is at `pos`.
pub open spec fn declaration_at(bc: Seq<u32>, pos: int) -> Result<Declaration, DxsoError> {
    if pos + 2 >= bc.len() {
        Err(DxsoError::Truncated)
    } else {
        let usage = bc[pos + 1];
        match reg_of(bc[pos + 2]) {
            Err(e) => Err(e),
            Ok(reg) => if reg.kind == RegKind::Sampler {
                Ok(Declaration::Sampler { texture_type: texture_type_of((usage >> 27) & 0xF), reg })
            } else {
                match usage_of((usage & 0x1F) as u8) {
                    Err(e) => Err(e),
                    Ok(u) => Ok(
                        Declaration::Semantic { usage: u, usage_index: (usage >> 16) & 0xF, reg },
                    ),
                }
            },
        }
    }
}

/// The register that a `def` or `defi` at `pos` defines, where its four lanes
/// follow.
pub open spec fn definition_at(bc: Seq<u32>, pos: int) -> Result<Register, DxsoError> {
    if pos + 1 >= bc.len() {
        Err(DxsoError::Truncated)
    } else {
        match reg_of(bc[pos + 1]) {
            Err(e) => Err(e),
            Ok(reg) => if pos + 5 >= bc.len() {
                Err(DxsoError::Truncated)
            } else {
                Ok(reg)
            },
        }
    }
}

/// The constant that a `defb` with these two tokens defines. Its register is in
/// the boolean file whatever type the register token names.
pub open spec fn bool_definition(reg: u32, value: u32) -> DefBoolConstant {
    DefBoolConstant {
        reg: Register { kind: RegKind::ConstBool, index: (reg & 0x7FF) as u16 },
        value: value != 0,
    }
}

/// The item at `pos` and the number of tokens that follow its first one.
pub open spec fn item_at(bc: Seq<u32>, pos: int, major: u8) -> Result<(ItemView, nat), DxsoError> {
    if pos >= bc.len() {
        Err(DxsoError::Truncated)
    } else {
        match Opcode::decoded(opcode_field(bc[pos])) {
            None => Err(DxsoError::UnknownOpcode(opcode_field(bc[pos]))),
            Some(Opcode::End) => Ok((ItemView::End, 0)),
            Some(Opcode::Comment) => if pos + 1 + comment_field(bc[pos]) > bc.len() {
                Err(DxsoError::Truncated)
            } else {
                Ok((ItemView::Skip, comment_field(bc[pos])))
            },
            Some(Opcode::Dcl) => match declaration_at(bc, pos) {
                Ok(d) => Ok((ItemView::Declare(d), 2)),
                Err(e) => Err(e),
            },
            Some(Opcode::Def) => match definition_at(bc, pos) {
                Ok(reg) => Ok(
                    (
                        ItemView::Define(
                            DefConstant {
                                reg,
                                value: [bc[pos + 2], bc[pos + 3], bc[pos + 4], bc[pos + 5]],
                            },
                        ),
                        5,
                    ),
                ),
                Err(e) => Err(e),
            },
            Some(Opcode::DefI) => match definition_at(bc, pos) {
                Ok(reg) => Ok(
                    (
                        ItemView::DefineInt(
                            DefIntConstant {
                                reg,
                                value: [
                                    bc[pos + 2] as i32,
                                    bc[pos + 3] as i32,
                                    bc[pos + 4] as i32,
                                    bc[pos + 5] as i32,
                                ],
                            },
                        ),
                        5,
                    ),
                ),
                Err(e) => Err(e),
            },
            Some(Opcode::DefB) => if pos + 3 > bc.len() {
                Err(DxsoError::Truncated)
            } else {
                Ok((ItemView::DefineBool(bool_definition(bc[pos + 1], bc[pos + 2])), 2))
            },
            Some(Opcode::Phase) => Ok((ItemView::Skip, 0)),
            Some(Opcode::Label) => if length_field(bc[pos]) != 1 {
                Err(DxsoError::Truncated)
            } else {
                match src_at(bc, pos + 1, false) {
                    Ok((src, taken)) => Ok((ItemView::Label(src.reg.index as u32), taken)),
                    Err(e) => Err(e),
                }
            },
            Some(Opcode::Ret) => Ok((ItemView::Ret, 0)),
            Some(op) => match instruction_at(bc, pos, op, major) {
                Ok(inst) => Ok((ItemView::Execute(inst), operand_tokens(bc, pos, major))),
                Err(e) => Err(e),
            },
        }
    }
}

/// What has been parsed so far: the program, and the subroutine whose body is
/// being collected.
#[verifier::ext_equal]
pub struct ParseState {
    pub program: ProgramView,
    pub label: Option<u32>,
}

impl ParseState {
    /// The state after one more item.
    pub open spec fn absorb(self, item: ItemView) -> ParseState {
        let p = self.program;
        match item {
            ItemView::End | ItemView::Skip => self,
            ItemView::Declare(d) => ParseState {
                program: ProgramView { declarations: p.declarations.push(d), ..p },
                ..self
            },
            ItemView::Define(d) => ParseState {
                program: ProgramView { def_constants: p.def_constants.push(d), ..p },
                ..self
            },
            ItemView::DefineInt(d) => ParseState {
                program: ProgramView { def_int_constants: p.def_int_constants.push(d), ..p },
                ..self
            },
            ItemView::DefineBool(d) => ParseState {
                program: ProgramView { def_bool_constants: p.def_bool_constants.push(d), ..p },
                ..self
            },
            ItemView::Label(l) => ParseState {
                program: ProgramView {
                    subroutines: if p.subroutines.contains_key(l) {
                        p.subroutines
                    } else {
                        p.subroutines.insert(l, Seq::empty())
                    },
                    ..p
                },
                label: Some(l),
            },
            ItemView::Ret => ParseState { label: None, ..self },
            ItemView::Execute(inst) => match self.label {
                None => ParseState {
                    program: ProgramView { instructions: p.instructions.push(inst), ..p },
                    ..self
                },
                Some(l) => ParseState {
                    program: ProgramView {
                        subroutines: p.subroutines.insert(l, p.subroutines[l].push(inst)),
                        ..p
                    },
                    ..self
                },
            },
        }
    }
}

/// The number of tokens from `pos` on.
pub open spec fn tokens_from(bc: Seq<u32>, pos: int) -> nat {
    if pos < bc.len() {
        (bc.len() - pos) as nat
    } else {
        0
    }
}

/// The program in the items from `pos` on, up to the end marker.
pub open spec fn parsed_from(bc: Seq<u32>, pos: int, st: ParseState) -> Result<
    ProgramView,
    DxsoError,
>
    decreases tokens_from(bc, pos),
{
    match item_at(bc, pos, st.program.major) {
        Err(e) => Err(e),
        Ok((ItemView::End, _)) => Ok(st.program),
        Ok((item, rest)) => parsed_from(bc, pos + 1 + rest, st.absorb(item)),
    }
}

/// The state right after the header.
pub open spec fn fresh_state(shader_type: ShaderType, major: u8, minor: u8) -> ParseState {
    ParseState {
        program: ProgramView {
            shader_type,
            major,
            minor,
            declarations: Seq::empty(),
            def_constants: Seq::empty(),
            def_int_constants: Seq::empty(),
            def_bool_constants: Seq::empty(),
            instructions: Seq::empty(),
            subroutines: Map::empty(),
        },
        label: None,
    }
}

/// The program that a token stream encodes.
pub open spec fn parsed(bc: Seq<u32>) -> Result<ProgramView, DxsoError> {
    if bc.len() == 0 {
        Err(DxsoError::Truncated)
    } else {
        match header_of(bc[0]) {
            Err(e) => Err(e),
            Ok((shader_type, major, minor)) => parsed_from(
                bc,
                1,
                fresh_state(shader_type, major, minor),
            ),
        }
    }
}

// ---------------------------------------------------------------------------
// Decoding
// ---------------------------------------------------------------------------

/// The register file that an operand token names.
pub fn decode_reg_type(token: u32) -> (r: Result<RegKind, DxsoError>)
    ensures
        r == reg_kind(reg_type_field(token)),
{
    let full: u32 = ((token >> 28) & 0x7) | (((token >> 11) & 0x3) << 3);
    Ok(
        match full {
            0 => RegKind::Temp,
            1 => RegKind::Input,
            2 => RegKind::Const,
            3 => RegKind::Addr,
            4 => RegKind::RastOut,
            5 => RegKind::AttrOut,
            6 => RegKind::TexcoordOut,
            7 => RegKind::ConstInt,
            8 => RegKind::ColorOut,
            9 => RegKind::DepthOut,
            10 => RegKind::Sampler,
            11 => RegKind::Output,
            14 => RegKind::ConstBool,
            15 => RegKind::Loop,
            16 => RegKind::TempFloat16,
            17 => RegKind::MiscType,
            18 => RegKind::Label,
            19 => RegKind::Predicate,
            _ => return Err(DxsoError::UnknownRegisterType(full)),
        },
    )
}

fn decode_register(token: u32) -> (r: Result<Register, DxsoError>)
    ensures
        r == reg_of(token),
{
    let kind = decode_reg_type(token)?;
    Ok(Register { kind, index: (token & 0x7FF) as u16 })
}

fn decode_dst(token: u32) -> (r: Result<DstOperand, DxsoError>)
    ensures
        r == dst_of(token),
{
    if token & 0x2000 != 0 {
        return Err(DxsoError::UnsupportedRelativeAddressing);
    }
    let reg = decode_register(token)?;
    let shift: u32 = (token >> 24) & 0xF;
    assert((token >> 24) & 0xF <= 15) by (bit_vector);
    let shift_scale: i8 = if shift >= 8 { shift as i8 - 16 } else { shift as i8 };
    Ok(
        DstOperand {
            reg,
            write_mask: WriteMask(((token >> 16) & 0xF) as u8),
            mods: DstMods { bits: ((token >> 20) & 0x7) as u8 },
            shift_scale,
        },
    )
}

fn decode_swizzle_bits(bits: u32) -> (r: Swizzle)
    ensures
        r == swizzle_of(bits),
{
    Swizzle(
        [
            (bits & 0x3) as u8,
            ((bits >> 2) & 0x3) as u8,
            ((bits >> 4) & 0x3) as u8,
            ((bits >> 6) & 0x3) as u8,
        ],
    )
}

fn decode_src_modifier(b: u8) -> (r: SrcModifier)
    ensures
        r == modifier_of(b),
{
    match b {
        1 => SrcModifier::Neg,
        2 => SrcModifier::Bias,
        3 => SrcModifier::BiasNeg,
        4 => SrcModifier::Sign,
        5 => SrcModifier::SignNeg,
        6 => SrcModifier::Comp,
        7 => SrcModifier::X2,
        8 => SrcModifier::X2Neg,
        9 => SrcModifier::Dz,
        10 => SrcModifier::Dw,
        11 => SrcModifier::Abs,
        12 => SrcModifier::AbsNeg,
        13 => SrcModifier::Not,
        _ => SrcModifier::Unmodified,
    }
}

fn decode_decl_usage(b: u8) -> (r: Result<DeclUsage, DxsoError>)
    ensures
        r == usage_of(b),
{
    Ok(
        match b {
            D3DDECLUSAGE_POSITION => DeclUsage::Position,
            D3DDECLUSAGE_BLENDWEIGHT => DeclUsage::BlendWeight,
            D3DDECLUSAGE_BLENDINDICES => DeclUsage::BlendIndices,
            D3DDECLUSAGE_NORMAL => DeclUsage::Normal,
            D3DDECLUSAGE_PSIZE => DeclUsage::PSize,
            D3DDECLUSAGE_TEXCOORD => DeclUsage::Texcoord,
            D3DDECLUSAGE_TANGENT => DeclUsage::Tangent,
            D3DDECLUSAGE_BINORMAL => DeclUsage::Binormal,
            D3DDECLUSAGE_TESSFACTOR => DeclUsage::TessFactor,
            D3DDECLUSAGE_POSITIONT => DeclUsage::PositionT,
            D3DDECLUSAGE_COLOR => DeclUsage::Color,
            D3DDECLUSAGE_FOG => DeclUsage::Fog,
            D3DDECLUSAGE_DEPTH => DeclUsage::Depth,
            D3DDECLUSAGE_SAMPLE => DeclUsage::Sample,
            _ => return Err(DxsoError::UnknownDeclUsage(b)),
        },
    )
}

fn decode_texture_type(bits: u32) -> (r: TextureType)
    ensures
        r == texture_type_of(bits),
{
    match bits {
        2 => TextureType::Texture2D,
        3 => TextureType::TextureCube,
        4 => TextureType::Texture3D,
        _ => TextureType::Unknown,
    }
}

fn decode_src(bc: &[u32], pos: usize, sm1: bool) -> (r: Result<(SrcOperand, usize), DxsoError>)
    ensures
        match (r, src_at(bc@, pos as int, sm1)) {
            (Ok((src, taken)), Ok((s, t))) => src == s && taken == t && pos + taken <= bc.len(),
            (Err(e), Err(f)) => e == f,
            _ => false,
        },
{
    if pos >= bc.len() {
        return Err(DxsoError::Truncated);
    }
    let token: u32 = bc[pos];
    let reg = decode_register(token)?;
    let swizzle = decode_swizzle_bits((token >> 16) & 0xFF);
    let modifier = decode_src_modifier(((token >> 24) & 0xF) as u8);
    if token & 0x2000 == 0 {
        return Ok((SrcOperand { reg, swizzle, modifier, rel_addr: None }, 1));
    }
    if sm1 {
        let rel = RelativeAddr {
            reg: Register { kind: RegKind::Addr, index: 0 },
            swizzle: Swizzle([0, 0, 0, 0]),
        };
        return Ok((SrcOperand { reg, swizzle, modifier, rel_addr: Some(rel) }, 1));
    }
    if pos + 1 >= bc.len() {
        return Err(DxsoError::Truncated);
    }
    let rel_token: u32 = bc[pos + 1];
    let rel = RelativeAddr {
        reg: decode_register(rel_token)?,
        swizzle: decode_swizzle_bits((rel_token >> 16) & 0xFF),
    };
    Ok((SrcOperand { reg, swizzle, modifier, rel_addr: Some(rel) }, 2))
}

/// The number of consecutive tokens with bit 31 set from `pos` on.
fn count_operand_run(bc: &[u32], pos: usize) -> (n: usize)
    requires
        pos <= bc.len(),
    ensures
        n == operand_run(bc@, pos as int),
        pos + n <= bc.len(),
{
    let mut end: usize = pos;
    while end < bc.len() && bc[end] & 0x8000_0000 != 0
        invariant
            pos <= end <= bc.len(),
            operand_run(bc@, pos as int) == (end - pos) + operand_run(bc@, end as int),
        decreases bc.len() - end,
    {
        end = end + 1;
    }
    end - pos
}

/// Decodes the source operands in the `count` tokens from `start` on.
fn decode_srcs(bc: &[u32], start: usize, count: usize, sm1: bool) -> (r: Result<
    Vec<SrcOperand>,
    DxsoError,
>)
    ensures
        match (r, srcs_from(bc@, start as int, count as nat, sm1, Seq::empty())) {
            (Ok(v), Ok(s)) => v@ == s && (count == 0 || start + count <= bc.len()),
            (Err(e), Err(f)) => e == f,
            _ => false,
        },
{
    let mut srcs: Vec<SrcOperand> = Vec::new();
    let mut pos: usize = start;
    let mut remaining: usize = count;
    while remaining > 0
        invariant
            remaining <= count,
            pos + remaining == start + count,
            remaining == count || pos <= bc.len(),
            srcs_from(bc@, start as int, count as nat, sm1, Seq::empty()) == srcs_from(
                bc@,
                pos as int,
                remaining as nat,
                sm1,
                srcs@,
            ),
        decreases remaining,
    {
        let (src, taken) = decode_src(bc, pos, sm1)?;
        srcs.push(src);
        if taken > remaining {
            return Err(DxsoError::Truncated);
        }
        pos = pos + taken;
        remaining = remaining - taken;
    }
    Ok(srcs)
}

fn opcode_bits(token: u32) -> (r: u16)
    ensures
        r == opcode_field(token),
{
    (token & 0xFFFF) as u16
}

fn length_bits(token: u32) -> (r: usize)
    ensures
        r == length_field(token),
{
    ((token >> 24) & 0xF) as usize
}

fn comment_bits(token: u32) -> (r: usize)
    ensures
        r == comment_field(token),
{
    ((token >> 16) & 0x7FFF) as usize
}

fn comparison_bits(token: u32) -> (r: u8)
    ensures
        r == comparison_field(token),
{
    ((token >> 16) & 0xFF) as u8
}

fn decode_comparison(op: Opcode, token: u32) -> (r: Option<CmpFunc>)
    ensures
        r == comparison_of(op, token),
{
    match op {
        Opcode::Ifc | Opcode::BreakC | Opcode::SetP => CmpFunc::from_raw(comparison_bits(token)),
        _ => None,
    }
}

fn decode_flags(op: Opcode, token: u32) -> (r: InstrFlags)
    ensures
        r == flags_of(op, token),
{
    InstrFlags::from_conditions(
        token & 0x1000_0000 != 0,
        op == Opcode::TexLd && token & 0x0001_0000 != 0,
        token & 0x4000_0000 != 0,
    )
}

/// Decodes the instruction whose instruction token is at `pos`, and counts its
/// operand tokens.
fn decode_instruction(bc: &[u32], pos: usize, op: Opcode, major: u8) -> (r: Result<
    (Instruction, usize),
    DxsoError,
>)
    requires
        pos < bc.len(),
    ensures
        match (r, instruction_at(bc@, pos as int, op, major)) {
            (Ok((inst, n)), Ok(i)) => {
                &&& inst@ == i
                &&& n == operand_tokens(bc@, pos as int, major)
                &&& pos + 1 + n <= bc.len()
            },
            (Err(e), Err(f)) => e == f,
            _ => false,
        },
{
    let token: u32 = bc[pos];
    let count: usize = if major >= 2 {
        length_bits(token)
    } else {
        count_operand_run(bc, pos + 1)
    };
    let mut next: usize = pos + 1;
    let mut remaining: usize = count;
    let dst: Option<DstOperand> = if op.has_destination() && remaining >= 1 {
        if next >= bc.len() {
            return Err(DxsoError::Truncated);
        }
        let d = decode_dst(bc[next])?;
        next = next + 1;
        remaining = remaining - 1;
        Some(d)
    } else {
        None
    };
    let predicate: Option<SrcOperand> = if token & 0x1000_0000 != 0 && remaining > 0 {
        let (p, taken) = decode_src(bc, next, false)?;
        if taken > remaining {
            return Err(DxsoError::Truncated);
        }
        next = next + taken;
        remaining = remaining - taken;
        Some(p)
    } else {
        None
    };
    let srcs = decode_srcs(bc, next, remaining, major < 2)?;
    Ok(
        (
            Instruction::new(
                op,
                dst,
                srcs,
                decode_flags(op, token),
                predicate,
                decode_comparison(op, token),
            ),
            count,
        ),
    )
}

fn decode_declaration(bc: &[u32], pos: usize) -> (r: Result<Declaration, DxsoError>)
    requires
        pos < bc.len(),
    ensures
        r == declaration_at(bc@, pos as int),
{
    if bc.len() - pos <= 2 {
        return Err(DxsoError::Truncated);
    }
    let usage: u32 = bc[pos + 1];
    let reg = decode_register(bc[pos + 2])?;
    if reg.kind == RegKind::Sampler {
        Ok(Declaration::Sampler { texture_type: decode_texture_type((usage >> 27) & 0xF), reg })
    } else {
        let u = decode_decl_usage((usage & 0x1F) as u8)?;
        Ok(Declaration::Semantic { usage: u, usage_index: (usage >> 16) & 0xF, reg })
    }
}

fn decode_definition(bc: &[u32], pos: usize) -> (r: Result<Register, DxsoError>)
    requires
        pos < bc.len(),
    ensures
        r == definition_at(bc@, pos as int),
        r is Ok ==> pos + 5 < bc.len(),
{
    if bc.len() - pos <= 1 {
        return Err(DxsoError::Truncated);
    }
    let reg = decode_register(bc[pos + 1])?;
    if bc.len() - pos <= 5 {
        return Err(DxsoError::Truncated);
    }
    Ok(reg)
}

fn signed_bits(bits: u32) -> (r: i32)
    ensures
        r == bits as i32,
{
    bits as i32
}

fn decode_bool_definition(reg: u32, value: u32) -> (r: DefBoolConstant)
    ensures
        r == bool_definition(reg, value),
{
    DefBoolConstant {
        reg: Register { kind: RegKind::ConstBool, index: (reg & 0x7FF) as u16 },
        value: value != 0,
    }
}

/// One element of the token stream after the header.
enum Item {
    End,
    Skip,
    Declare(Declaration),
    Define(DefConstant),
    DefineInt(DefIntConstant),
    DefineBool(DefBoolConstant),
    Label(u32),
    Ret,
    Execute(Instruction),
}

impl Item {
    spec fn view(&self) -> ItemView {
        match *self {
            Item::End => ItemView::End,
            Item::Skip => ItemView::Skip,
            Item::Declare(d) => ItemView::Declare(d),
            Item::Define(d) => ItemView::Define(d),
            Item::DefineInt(d) => ItemView::DefineInt(d),
            Item::DefineBool(d) => ItemView::DefineBool(d),
            Item::Label(l) => ItemView::Label(l),
            Item::Ret => ItemView::Ret,
            Item::Execute(i) => ItemView::Execute(i@),
        }
    }
}

/// Decodes the item at `pos` and counts the tokens that follow its first one.
fn decode_item(bc: &[u32], pos: usize, major: u8) -> (r: Result<(Item, usize), DxsoError>)
    ensures
        match (r, item_at(bc@, pos as int, major)) {
            (Ok((item, n)), Ok((i, m))) => item@ == i && n == m && pos + 1 + n <= bc.len(),
            (Err(e), Err(f)) => e == f,
            _ => false,
        },
{
    if pos >= bc.len() {
        return Err(DxsoError::Truncated);
    }
    let token: u32 = bc[pos];
    let op = match Opcode::from_u16(opcode_bits(token)) {
        Some(op) => op,
        None => return Err(DxsoError::UnknownOpcode(opcode_bits(token))),
    };
    match op {
        Opcode::End => Ok((Item::End, 0)),
        Opcode::Comment => {
            let len: usize = comment_bits(token);
            if len > bc.len() - pos - 1 {
                return Err(DxsoError::Truncated);
            }
            Ok((Item::Skip, len))
        },
        Opcode::Dcl => {
            let decl = decode_declaration(bc, pos)?;
            Ok((Item::Declare(decl), 2))
        },
        Opcode::Def => {
            let reg = decode_definition(bc, pos)?;
            let value = [bc[pos + 2], bc[pos + 3], bc[pos + 4], bc[pos + 5]];
            Ok((Item::Define(DefConstant { reg, value }), 5))
        },
        Opcode::DefI => {
            let reg = decode_definition(bc, pos)?;
            let value = [
                signed_bits(bc[pos + 2]),
                signed_bits(bc[pos + 3]),
                signed_bits(bc[pos + 4]),
                signed_bits(bc[pos + 5]),
            ];
            Ok((Item::DefineInt(DefIntConstant { reg, value }), 5))
        },
        Opcode::DefB => {
            if bc.len() - pos < 3 {
                return Err(DxsoError::Truncated);
            }
            Ok((Item::DefineBool(decode_bool_definition(bc[pos + 1], bc[pos + 2])), 2))
        },
        Opcode::Phase => Ok((Item::Skip, 0)),
        Opcode::Label => {
            if length_bits(token) != 1 {
                return Err(DxsoError::Truncated);
            }
            let (src, taken) = decode_src(bc, pos + 1, false)?;
            Ok((Item::Label(src.reg.index as u32), taken))
        },
        Opcode::Ret => Ok((Item::Ret, 0)),
        _ => {
            let (inst, count) = decode_instruction(bc, pos, op, major)?;
            Ok((Item::Execute(inst), count))
        },
    }
}

/// A program under construction.
struct Builder {
    program: DxsoProgram,
    label: Option<u32>,
}

impl Builder {
    spec fn view(&self) -> ParseState {
        ParseState { program: self.program@, label: self.label }
    }

    /// The subroutine under construction has a body.
    spec fn wf(&self) -> bool {
        self.label is Some ==> self.program.subroutines@.contains_key(self.label->0)
    }

    fn new(shader_type: ShaderType, major: u8, minor: u8) -> (r: Builder)
        ensures
            r.wf(),
            r@ == fresh_state(shader_type, major, minor),
    {
        let r = Builder {
            program: DxsoProgram {
                shader_type,
                major,
                minor,
                declarations: Vec::new(),
                def_constants: Vec::new(),
                def_int_constants: Vec::new(),
                def_bool_constants: Vec::new(),
                instructions: Vec::new(),
                subroutines: BTreeMap::new(),
            },
            label: None,
        };
        assert(r@ =~~= fresh_state(shader_type, major, minor));
        r
    }

    /// Opens the body of `label`, which stays as it is where it exists.
    fn open_body(&mut self, label: u32)
        requires
            old(self).wf(),
        ensures
            final(self).wf(),
            final(self)@ == old(self)@.absorb(ItemView::Label(label)),
    {
        if !self.program.subroutines.contains_key(&label) {
            self.program.subroutines.insert(label, Vec::new());
        }
        self.label = Some(label);
        assert(self@ =~~= old(self)@.absorb(ItemView::Label(label)));
    }

    /// Appends an instruction to the body under construction.
    fn push_instruction(&mut self, inst: Instruction)
        requires
            old(self).wf(),
        ensures
            final(self).wf(),
            final(self)@ == old(self)@.absorb(ItemView::Execute(inst@)),
    {
        let ghost item = ItemView::Execute(inst@);
        match self.label {
            Some(label) => {
                let mut body: Vec<Instruction> = match self.program.subroutines.remove(&label) {
                    Some(body) => body,
                    None => Vec::new(),
                };
                body.push(inst);
                self.program.subroutines.insert(label, body);
                assert(self@ =~~= old(self)@.absorb(item));
            },
            None => {
                self.program.instructions.push(inst);
                assert(self@ =~~= old(self)@.absorb(item));
            },
        }
    }

    fn absorb(&mut self, item: Item)
        requires
            old(self).wf(),
        ensures
            final(self).wf(),
            final(self)@ == old(self)@.absorb(item@),
    {
        match item {
            Item::End => {},
            Item::Skip => {},
            Item::Declare(d) => {
                self.program.declarations.push(d);
                assert(self@ =~~= old(self)@.absorb(ItemView::Declare(d)));
            },
            Item::Define(d) => {
                self.program.def_constants.push(d);
                assert(self@ =~~= old(self)@.absorb(ItemView::Define(d)));
            },
            Item::DefineInt(d) => {
                self.program.def_int_constants.push(d);
                assert(self@ =~~= old(self)@.absorb(ItemView::DefineInt(d)));
            },
            Item::DefineBool(d) => {
                self.program.def_bool_constants.push(d);
                assert(self@ =~~= old(self)@.absorb(ItemView::DefineBool(d)));
            },
            Item::Label(l) => self.open_body(l),
            Item::Ret => {
                self.label = None;
            },
            Item::Execute(inst) => self.push_instruction(inst),
        }
    }
}

fn decode_header(first: u32) -> (r: Result<(ShaderType, u8, u8), DxsoError>)
    ensures
        r == header_of(first),
{
    let shader_type = match (first >> 16) & 0xFFFF {
        0xFFFE => ShaderType::Vertex,
        0xFFFF => ShaderType::Pixel,
        _ => return Err(DxsoError::InvalidHeader),
    };
    let major: u8 = ((first >> 8) & 0xFF) as u8;
    let minor: u8 = (first & 0xFF) as u8;
    // Vertex shaders begin at 1.1, pixel shaders span 1.0 to 1.4.
    let known: bool = match (shader_type, major) {
        (_, 2 | 3) => true,
        (ShaderType::Vertex, 1) => minor == 1,
        (ShaderType::Pixel, 1) => minor <= 4,
        _ => false,
    };
    if !known {
        return Err(DxsoError::UnsupportedShaderModel { major, minor });
    }
    Ok((shader_type, major, minor))
}

/// Parses a token stream into a program.
///
/// The outcome is exactly [`parsed`]: the items after the header, up to the
/// end marker, each added to the program, or the first error. What a program
/// names is in the range that its token field has, so the constants that it
/// reads exist.
pub fn parse(bytecode: &[u32]) -> (r: Result<DxsoProgram, DxsoError>)
    ensures
        match (r, parsed(bytecode@)) {
            (Ok(program), Ok(p)) => program@ == p,
            (Err(e), Err(f)) => e == f,
            _ => false,
        },
        r matches Ok(program) ==> program_encodable(program@) && const_spans_fit(
            program.instructions@,
        ),
{
    proof {
        parsed_programs_are_encodable(bytecode@);
    }
    if bytecode.len() == 0 {
        return Err(DxsoError::Truncated);
    }
    let (shader_type, major, minor) = decode_header(bytecode[0])?;
    let mut builder = Builder::new(shader_type, major, minor);
    let mut pos: usize = 1;
    loop
        invariant
            1 <= pos <= bytecode.len(),
            builder.wf(),
            builder@.program.major == major,
            parsed(bytecode@) matches Ok(p) ==> program_encodable(p),
            parsed(bytecode@) == parsed_from(bytecode@, pos as int, builder@),
        decreases bytecode.len() - pos,
    {
        let (item, rest) = decode_item(bytecode, pos, major)?;
        if let Item::End = item {
            proof {
                encodable_programs_read_existing_constants(builder.program);
            }
            return Ok(builder.program);
        }
        builder.absorb(item);
        pos = pos + 1 + rest;
    }
}

} // verus!
