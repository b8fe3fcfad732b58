//! How instructions are put into tokens.
//!
//! The fields of a token lie where the Direct3D headers say. The laws say that
//! reading a token gives back what was put into it.

use crate::d3d::{
    D3DPS_VERSION, D3DSHADER_COMPARISON_SHIFT, D3DSHADER_INSTRUCTION_PREDICATED, D3DSIO_COMMENT,
    D3DSI_COISSUE, D3DSI_COMMENTSIZE_SHIFT, D3DSI_INSTLENGTH_SHIFT, D3DSI_TEXLD_PROJECT,
    D3DSP_DCL_USAGEINDEX_SHIFT, D3DSP_DSTMOD_SHIFT, D3DSP_DSTSHIFT_SHIFT, D3DSP_PARAMETER,
    D3DSP_REGNUM_MASK, D3DSP_REGTYPE_MASK, D3DSP_REGTYPE_MASK2, D3DSP_REGTYPE_SHIFT,
    D3DSP_REGTYPE_SHIFT2, D3DSP_SRCMOD_SHIFT, D3DSP_TEXTURETYPE_SHIFT, D3DSP_WRITEMASK_SHIFT,
    D3DSTT_2D, D3DSTT_CUBE, D3DSTT_VOLUME, D3DVS_ADDRMODE_RELATIVE, D3DVS_SWIZZLE_SHIFT,
    D3DVS_VERSION,
};
use crate::dxso::emit::arith::arity;
use crate::dxso::emit::texture::{is_texture_statement, is_texture_value};
use crate::dxso::encoding::{
    declaration_encodable, destination_encodable, register_encodable, source_encodable,
};
use crate::dxso::ir::{
    CmpFunc, Declaration, DstOperand, DxsoError, InstrFlags, InstructionView, RegKind, Register,
    RelativeAddr, ShaderType, SrcOperand, Swizzle, TextureType,
};
use crate::dxso::numbering::{
    comparisons_have_their_d3dspc_numbers, d3ddeclusage, d3dsio, d3dspc, d3dspr, d3dspsm,
    modifiers_have_their_d3dspsm_numbers, register_files_have_their_d3dspr_numbers,
    usages_have_their_d3ddeclusage_numbers,
};
use crate::dxso::opcode::Opcode;
use crate::dxso::parser::{
    comment_field, comparison_field, comparison_of, declaration_at, dst_of, dst_part, flags_of,
    header_of, instruction_at, is_relative, length_field, opcode_field, operand_tokens,
    predicate_part, reg_of, reg_type_field, src_at, srcs_from, swizzle_of, tokens_left,
};
use vstd::prelude::*;

verus! {

// ---------------------------------------------------------------------------
// Operands
// ---------------------------------------------------------------------------

/// The fields of an operand token that name a register: the number, and the type
/// in two parts.
pub open spec fn register_bits(kind: u32, index: u32) -> u32 {
    D3DSP_PARAMETER | ((kind << D3DSP_REGTYPE_SHIFT) & D3DSP_REGTYPE_MASK) | ((kind
        << D3DSP_REGTYPE_SHIFT2) & D3DSP_REGTYPE_MASK2) | (index & D3DSP_REGNUM_MASK)
}

/// A destination token. A negative shift is put in two's complement.
pub open spec fn destination_bits(kind: u32, index: u32, mask: u32, mods: u32, shift: u32) -> u32 {
    register_bits(kind, index) | (mask << D3DSP_WRITEMASK_SHIFT) | (mods << D3DSP_DSTMOD_SHIFT) | (
    shift << D3DSP_DSTSHIFT_SHIFT)
}

/// The lanes of a swizzle, two bits each from the lowest on.
pub open spec fn swizzle_bits(x: u32, y: u32, z: u32, w: u32) -> u32 {
    x | (y << 2) | (z << 4) | (w << 6)
}

/// A source token.
pub open spec fn source_bits(
    kind: u32,
    index: u32,
    swizzle: u32,
    modifier: u32,
    relative: bool,
) -> u32 {
    register_bits(kind, index) | (swizzle << D3DVS_SWIZZLE_SHIFT) | (modifier
        << D3DSP_SRCMOD_SHIFT) | (if relative {
        D3DVS_ADDRMODE_RELATIVE
    } else {
        0
    })
}

/// The token of a destination operand.
pub open spec fn destination_token(dst: DstOperand) -> u32 {
    destination_bits(
        d3dspr(dst.reg.kind),
        dst.reg.index as u32,
        dst.write_mask.0 as u32,
        dst.mods.bits as u32,
        if dst.shift_scale < 0 {
            (dst.shift_scale + 16) as u32
        } else {
            dst.shift_scale as u32
        },
    )
}

/// The field of a swizzle.
pub open spec fn swizzle_field(s: Swizzle) -> u32 {
    swizzle_bits(s.0[0] as u32, s.0[1] as u32, s.0[2] as u32, s.0[3] as u32)
}

/// The token of an index register.
pub open spec fn index_token(rel: RelativeAddr) -> u32 {
    source_bits(d3dspr(rel.reg.kind), rel.reg.index as u32, swizzle_field(rel.swizzle), 0, false)
}

/// The tokens of a source operand: one more where it is read relatively.
pub open spec fn source_tokens(src: SrcOperand) -> Seq<u32> {
    let first = source_bits(
        d3dspr(src.reg.kind),
        src.reg.index as u32,
        swizzle_field(src.swizzle),
        d3dspsm(src.modifier) as u32,
        src.rel_addr is Some,
    );
    match src.rel_addr {
        Some(rel) => seq![first, index_token(rel)],
        None => seq![first],
    }
}

proof fn register_fields(kind: u32, index: u32, rest: u32)
    requires
        kind < 32,
        index < 0x800,
        rest & 0xF000_1FFF == 0,
    ensures
        reg_type_field(register_bits(kind, index) | rest) == kind,
        (register_bits(kind, index) | rest) & 0x7FF == index,
{
    assert({
        let t = register_bits(kind, index) | rest;
        &&& ((t >> 28) & 0x7) | (((t >> 11) & 0x3) << 3) == kind
        &&& t & 0x7FF == index
    }) by (bit_vector)
        requires
            kind < 32,
            index < 0x800,
            rest & 0xF000_1FFF == 0,
    ;
}

proof fn registers_are_read_back(reg: Register, rest: u32)
    requires
        register_encodable(reg),
        rest & 0xF000_1FFF == 0,
    ensures
        reg_of(register_bits(d3dspr(reg.kind), reg.index as u32) | rest) == Ok::<
            Register,
            DxsoError,
        >(reg),
{
    register_fields(d3dspr(reg.kind), reg.index as u32, rest);
    register_files_have_their_d3dspr_numbers(reg.kind, d3dspr(reg.kind));
}

proof fn destination_fields(kind: u32, index: u32, mask: u32, mods: u32, shift: u32)
    requires
        kind < 32,
        index < 0x800,
        mask < 16,
        mods < 8,
        shift < 16,
    ensures
        destination_bits(kind, index, mask, mods, shift) == register_bits(kind, index) | ((mask
            << 16) | (mods << 20) | (shift << 24)),
        ((mask << 16) | (mods << 20) | (shift << 24)) & 0xF000_1FFF == 0,
        (destination_bits(kind, index, mask, mods, shift) >> 24) & 0xF == shift,
        (destination_bits(kind, index, mask, mods, shift) >> 16) & 0xF == mask,
        (destination_bits(kind, index, mask, mods, shift) >> 20) & 0x7 == mods,
        destination_bits(kind, index, mask, mods, shift) & 0x2000 == 0,
{
    assert({
        let t = destination_bits(kind, index, mask, mods, shift);
        &&& t == register_bits(kind, index) | ((mask << 16) | (mods << 20) | (shift << 24))
        &&& ((mask << 16) | (mods << 20) | (shift << 24)) & 0xF000_1FFF == 0
        &&& (t >> 24) & 0xF == shift
        &&& (t >> 16) & 0xF == mask
        &&& (t >> 20) & 0x7 == mods
        &&& t & 0x2000 == 0
    }) by (bit_vector)
        requires
            kind < 32,
            index < 0x800,
            mask < 16,
            mods < 8,
            shift < 16,
    ;
}

/// A destination operand that is put into a token is read back from it.
pub proof fn destinations_are_read_back(dst: DstOperand)
    requires
        destination_encodable(dst),
    ensures
        dst_of(destination_token(dst)) == Ok::<DstOperand, DxsoError>(dst),
{
    let shift = if dst.shift_scale < 0 {
        (dst.shift_scale + 16) as u32
    } else {
        dst.shift_scale as u32
    };
    let (mask, mods) = (dst.write_mask.0 as u32, dst.mods.bits as u32);
    destination_fields(d3dspr(dst.reg.kind), dst.reg.index as u32, mask, mods, shift);
    registers_are_read_back(dst.reg, (mask << 16) | (mods << 20) | (shift << 24));
}

proof fn source_fields(kind: u32, index: u32, swizzle: u32, modifier: u32, relative: bool)
    requires
        kind < 32,
        index < 0x800,
        swizzle < 256,
        modifier < 16,
    ensures
        reg_type_field(source_bits(kind, index, swizzle, modifier, relative)) == kind,
        source_bits(kind, index, swizzle, modifier, relative) & 0x7FF == index,
        (source_bits(kind, index, swizzle, modifier, relative) >> 16) & 0xFF == swizzle,
        (source_bits(kind, index, swizzle, modifier, relative) >> 24) & 0xF == modifier,
        is_relative(source_bits(kind, index, swizzle, modifier, relative)) == relative,
{
    assert({
        let t = source_bits(kind, index, swizzle, modifier, relative);
        &&& ((t >> 28) & 0x7) | (((t >> 11) & 0x3) << 3) == kind
        &&& t & 0x7FF == index
        &&& (t >> 16) & 0xFF == swizzle
        &&& (t >> 24) & 0xF == modifier
        &&& (t & 0x2000 != 0) == relative
    }) by (bit_vector)
        requires
            kind < 32,
            index < 0x800,
            swizzle < 256,
            modifier < 16,
    ;
}

proof fn swizzles_are_read_back(s: Swizzle)
    requires
        s.in_range(),
    ensures
        swizzle_field(s) < 256,
        swizzle_of(swizzle_field(s)) == s,
{
    let (x, y, z, w) = (s.0[0] as u32, s.0[1] as u32, s.0[2] as u32, s.0[3] as u32);
    assert({
        let b = swizzle_bits(x, y, z, w);
        &&& b < 256
        &&& b & 0x3 == x
        &&& (b >> 2) & 0x3 == y
        &&& (b >> 4) & 0x3 == z
        &&& (b >> 6) & 0x3 == w
    }) by (bit_vector)
        requires
            x < 4,
            y < 4,
            z < 4,
            w < 4,
    ;
    assert(swizzle_of(swizzle_field(s)).0 =~= s.0);
}

/// A source operand that is put into tokens is read back from them, in every
/// shader model that has a token for the index register.
pub proof fn sources_are_read_back(bc: Seq<u32>, pos: int, src: SrcOperand)
    requires
        source_encodable(src),
        0 <= pos,
        pos + source_tokens(src).len() <= bc.len(),
        bc.subrange(pos, pos + source_tokens(src).len()) == source_tokens(src),
    ensures
        src_at(bc, pos, false) == Ok::<(SrcOperand, nat), DxsoError>(
            (src, source_tokens(src).len()),
        ),
{
    let tokens = source_tokens(src);
    assert(bc[pos] == tokens[0]) by {
        assert(bc.subrange(pos, pos + tokens.len())[0] == tokens[0]);
    }
    swizzles_are_read_back(src.swizzle);
    source_fields(
        d3dspr(src.reg.kind),
        src.reg.index as u32,
        swizzle_field(src.swizzle),
        d3dspsm(src.modifier) as u32,
        src.rel_addr is Some,
    );
    register_files_have_their_d3dspr_numbers(src.reg.kind, d3dspr(src.reg.kind));
    modifiers_have_their_d3dspsm_numbers(src.modifier, d3dspsm(src.modifier));
    if let Some(rel) = src.rel_addr {
        assert(bc[pos + 1] == tokens[1]) by {
            assert(bc.subrange(pos, pos + tokens.len())[1] == tokens[1]);
        }
        swizzles_are_read_back(rel.swizzle);
        source_fields(
            d3dspr(rel.reg.kind),
            rel.reg.index as u32,
            swizzle_field(rel.swizzle),
            0,
            false,
        );
        register_files_have_their_d3dspr_numbers(rel.reg.kind, d3dspr(rel.reg.kind));
    }
}

// ---------------------------------------------------------------------------
// Instructions
// ---------------------------------------------------------------------------

/// The tokens of source operands, one after the other.
pub open spec fn sources_tokens(srcs: Seq<SrcOperand>) -> Seq<u32>
    decreases srcs.len(),
{
    if srcs.len() == 0 {
        Seq::empty()
    } else {
        source_tokens(srcs[0]) + sources_tokens(srcs.skip(1))
    }
}

/// The operand tokens of an instruction: the destination, the predicate, and the
/// sources.
pub open spec fn operands_tokens(inst: InstructionView) -> Seq<u32> {
    let dst = match inst.dst {
        Some(dst) => seq![destination_token(dst)],
        None => Seq::empty(),
    };
    let predicate = match inst.predicate {
        Some(pred) => source_tokens(pred),
        None => Seq::empty(),
    };
    dst + predicate + sources_tokens(inst.srcs)
}

/// An instruction token. The control field holds the comparison, or the mark of a
/// projected texture read.
pub open spec fn instruction_bits(
    op: u32,
    control: u32,
    length: u32,
    predicated: bool,
    coissued: bool,
) -> u32 {
    op | control | (length << D3DSI_INSTLENGTH_SHIFT) | (if predicated {
        D3DSHADER_INSTRUCTION_PREDICATED
    } else {
        0
    }) | (if coissued {
        D3DSI_COISSUE
    } else {
        0
    })
}

/// The number of a comparison, in its place.
pub open spec fn comparison_bits(f: CmpFunc) -> u32 {
    (d3dspc(f) as u32) << D3DSHADER_COMPARISON_SHIFT
}

/// The instruction token of `inst` with the given control field.
pub open spec fn instruction_token(inst: InstructionView, control: u32) -> u32 {
    instruction_bits(
        d3dsio(inst.opcode) as u32,
        control,
        operands_tokens(inst).len() as u32,
        inst.flags.has(InstrFlags::PREDICATED),
        inst.flags.has(InstrFlags::COISSUE),
    )
}

/// The control field of an instruction.
pub open spec fn control_bits(inst: InstructionView) -> u32 {
    match inst.cmp_func {
        Some(f) => comparison_bits(f),
        None => if inst.flags.has(InstrFlags::TEX_PROJECTED) {
            D3DSI_TEXLD_PROJECT
        } else {
            0
        },
    }
}

/// The tokens of an instruction.
pub open spec fn instruction_tokens(inst: InstructionView) -> Seq<u32> {
    seq![instruction_token(inst, control_bits(inst))] + operands_tokens(inst)
}

/// Whether an instruction can be put into tokens: it has a destination where its
/// opcode takes one, a predicate where it is predicated, a comparison where its
/// opcode compares, and operands that fit.
pub open spec fn is_wellformed(inst: InstructionView) -> bool {
    &&& inst.dst is Some <==> inst.opcode.takes_destination()
    &&& inst.dst matches Some(dst) ==> destination_encodable(dst)
    &&& inst.predicate is Some <==> inst.flags.has(InstrFlags::PREDICATED)
    &&& inst.predicate matches Some(pred) ==> source_encodable(pred)
    &&& forall|j: int| 0 <= j < inst.srcs.len() ==> source_encodable(#[trigger] inst.srcs[j])
    &&& operands_tokens(inst).len() < 16
    &&& inst.cmp_func is Some <==> (inst.opcode == Opcode::Ifc || inst.opcode == Opcode::BreakC
        || inst.opcode == Opcode::SetP)
    &&& inst.flags == InstrFlags::of(
        inst.flags.has(InstrFlags::PREDICATED),
        inst.flags.has(InstrFlags::TEX_PROJECTED),
        inst.flags.has(InstrFlags::COISSUE),
    )
    &&& inst.flags.has(InstrFlags::TEX_PROJECTED) ==> inst.opcode == Opcode::TexLd
}

proof fn instruction_fields(op: u32, control: u32, length: u32, predicated: bool, coissued: bool)
    requires
        op < 0x1_0000,
        control & 0xFF00_FFFF == 0,
        length < 16,
    ensures
        opcode_field(instruction_bits(op, control, length, predicated, coissued)) == op,
        length_field(instruction_bits(op, control, length, predicated, coissued)) == length,
        (instruction_bits(op, control, length, predicated, coissued) & 0x1000_0000 != 0)
            == predicated,
        (instruction_bits(op, control, length, predicated, coissued) & 0x4000_0000 != 0)
            == coissued,
        (instruction_bits(op, control, length, predicated, coissued) >> 16) & 0xFF == control >> 16,
        instruction_bits(op, control, length, predicated, coissued) & 0x0001_0000 == control
            & 0x0001_0000,
{
    assert({
        let t = instruction_bits(op, control, length, predicated, coissued);
        &&& t & 0xFFFF == op
        &&& (t >> 24) & 0xF == length
        &&& (t & 0x1000_0000 != 0) == predicated
        &&& (t & 0x4000_0000 != 0) == coissued
        &&& (t >> 16) & 0xFF == control >> 16
        &&& t & 0x0001_0000 == control & 0x0001_0000
    }) by (bit_vector)
        requires
            op < 0x1_0000,
            control & 0xFF00_FFFF == 0,
            length < 16,
    ;
}

proof fn comparisons_are_read_back(f: CmpFunc)
    ensures
        comparison_bits(f) & 0xFF00_FFFF == 0,
        CmpFunc::decoded((comparison_bits(f) >> 16) as u8) == Some(f),
{
    let n = d3dspc(f) as u32;
    assert((n << 16) & 0xFF00_FFFF == 0 && (n << 16) >> 16 == n) by (bit_vector)
        requires
            n < 256,
    ;
    comparisons_have_their_d3dspc_numbers(f, d3dspc(f));
}

proof fn projections_are_read_back()
    ensures
        D3DSI_TEXLD_PROJECT & 0xFF00_FFFF == 0,
        D3DSI_TEXLD_PROJECT & 0x1_0000 != 0,
        0u32 & 0xFF00_FFFF == 0,
        0u32 & 0x1_0000 == 0,
{
    assert(0x1_0000u32 & 0xFF00_FFFF == 0 && 0x1_0000u32 & 0x1_0000 != 0 && 0u32 & 0xFF00_FFFF == 0
        && 0u32 & 0x1_0000 == 0) by (bit_vector);
}

proof fn instruction_tokens_are_read_back(inst: InstructionView, control: u32)
    requires
        operands_tokens(inst).len() < 16,
        control & 0xFF00_FFFF == 0,
    ensures
        opcode_field(instruction_token(inst, control)) == d3dsio(inst.opcode),
        length_field(instruction_token(inst, control)) == operands_tokens(inst).len(),
        (instruction_token(inst, control) & 0x1000_0000 != 0) == inst.flags.has(
            InstrFlags::PREDICATED,
        ),
        (instruction_token(inst, control) & 0x4000_0000 != 0) == inst.flags.has(
            InstrFlags::COISSUE,
        ),
        comparison_field(instruction_token(inst, control)) == (control >> 16) as u8,
        instruction_token(inst, control) & 0x0001_0000 == control & 0x0001_0000,
{
    instruction_fields(
        d3dsio(inst.opcode) as u32,
        control,
        operands_tokens(inst).len() as u32,
        inst.flags.has(InstrFlags::PREDICATED),
        inst.flags.has(InstrFlags::COISSUE),
    );
}

/// The tokens from one place up to another.
pub open spec fn part(all: Seq<u32>, from: nat, to: nat) -> Seq<u32> {
    all.subrange(from as int, to as int)
}

proof fn parts_are_in_the_stream(bc: Seq<u32>, pos: int, all: Seq<u32>, from: nat, to: nat)
    requires
        0 <= pos,
        pos + all.len() <= bc.len(),
        bc.subrange(pos, pos + all.len()) == all,
        from <= to <= all.len(),
    ensures
        bc.subrange(pos + from, pos + to) == part(all, from, to),
{
    assert(bc.subrange(pos + from, pos + to) =~= part(
        bc.subrange(pos, pos + all.len()),
        from,
        to,
    ));
}

proof fn source_lists_are_read_back(
    bc: Seq<u32>,
    pos: int,
    srcs: Seq<SrcOperand>,
    acc: Seq<SrcOperand>,
)
    requires
        0 <= pos,
        forall|j: int| 0 <= j < srcs.len() ==> source_encodable(#[trigger] srcs[j]),
        pos + sources_tokens(srcs).len() <= bc.len(),
        bc.subrange(pos, pos + sources_tokens(srcs).len()) == sources_tokens(srcs),
    ensures
        srcs_from(bc, pos, sources_tokens(srcs).len(), false, acc) == Ok::<
            Seq<SrcOperand>,
            DxsoError,
        >(acc + srcs),
    decreases srcs.len(),
{
    if srcs.len() == 0 {
        assert(acc + srcs =~= acc);
    } else {
        let first = source_tokens(srcs[0]);
        let rest = sources_tokens(srcs.skip(1));
        assert(bc.subrange(pos, pos + first.len()) =~= first) by {
            let all = bc.subrange(pos, pos + sources_tokens(srcs).len());
            assert(all.subrange(0, first.len() as int) =~= first);
        }
        assert(bc.subrange(pos + first.len(), pos + first.len() + rest.len()) =~= rest) by {
            let all = bc.subrange(pos, pos + sources_tokens(srcs).len());
            assert(all.subrange(first.len() as int, (first.len() + rest.len()) as int) =~= rest);
        }
        sources_are_read_back(bc, pos, srcs[0]);
        source_lists_are_read_back(bc, pos + first.len(), srcs.skip(1), acc.push(srcs[0]));
        assert(acc.push(srcs[0]) + srcs.skip(1) =~= acc + srcs);
    }
}

/// An instruction that is put into tokens is read back from them, in the shader
/// models whose tokens hold their length.
pub proof fn instructions_are_read_back(bc: Seq<u32>, pos: int, inst: InstructionView, major: u8)
    requires
        is_wellformed(inst),
        major >= 2,
        0 <= pos,
        pos + instruction_tokens(inst).len() <= bc.len(),
        bc.subrange(pos, pos + instruction_tokens(inst).len()) == instruction_tokens(inst),
    ensures
        opcode_field(bc[pos]) == d3dsio(inst.opcode),
        operand_tokens(bc, pos, major) == operands_tokens(inst).len(),
        instruction_at(bc, pos, inst.opcode, major) matches Ok(read) && read.opcode == inst.opcode
            && read.dst == inst.dst && read.srcs == inst.srcs && read.flags == inst.flags
            && read.predicate == inst.predicate && read.cmp_func == inst.cmp_func,
{
    let tokens = instruction_tokens(inst);
    let operands = operands_tokens(inst);
    let count = operands.len();
    let control = control_bits(inst);
    assert(bc[pos] == instruction_token(inst, control)) by {
        assert(bc.subrange(pos, pos + tokens.len())[0] == tokens[0]);
    }
    parts_are_in_the_stream(bc, pos, tokens, 1, 1 + count);
    assert(part(tokens, 1, 1 + count) =~= operands);
    projections_are_read_back();
    if let Some(f) = inst.cmp_func {
        comparisons_are_read_back(f);
    }
    instruction_tokens_are_read_back(inst, control);
    assert(comparison_of(inst.opcode, bc[pos]) == inst.cmp_func);
    assert(flags_of(inst.opcode, bc[pos]) == inst.flags);
    let d: nat = if inst.dst is Some {
        1
    } else {
        0
    };
    if let Some(dst) = inst.dst {
        assert(bc[pos + 1] == operands[0]) by {
            assert(bc.subrange(pos + 1, pos + 1 + count)[0] == operands[0]);
        }
        destinations_are_read_back(dst);
    }
    assert(dst_part(bc, pos, inst.opcode, count) == Ok::<(Option<DstOperand>, nat), DxsoError>(
        (inst.dst, d),
    ));
    let p: nat = match inst.predicate {
        Some(pred) => source_tokens(pred).len(),
        None => 0,
    };
    let list = sources_tokens(inst.srcs);
    assert(count == d + p + list.len());
    if let Some(pred) = inst.predicate {
        parts_are_in_the_stream(bc, pos + 1, operands, d, d + p);
        assert(part(operands, d, d + p) =~= source_tokens(pred));
        sources_are_read_back(bc, pos + 1 + d, pred);
    }
    let left = tokens_left(count, d);
    assert(predicate_part(bc, pos + 1 + d, bc[pos], left) == Ok::<
        (Option<SrcOperand>, nat),
        DxsoError,
    >((inst.predicate, p)));
    parts_are_in_the_stream(bc, pos + 1, operands, d + p, count);
    assert(part(operands, d + p, count) =~= list);
    source_lists_are_read_back(bc, pos + 1 + d + p, inst.srcs, Seq::empty());
    assert(Seq::empty() + inst.srcs =~= inst.srcs);
}

// ---------------------------------------------------------------------------
// Declarations, comments and headers
// ---------------------------------------------------------------------------

/// The `D3DSTT` number of a texture type.
pub open spec fn d3dstt(t: TextureType) -> u32 {
    match t {
        TextureType::Texture2D => D3DSTT_2D,
        TextureType::TextureCube => D3DSTT_CUBE,
        TextureType::Texture3D => D3DSTT_VOLUME,
        TextureType::Unknown => 0,
    }
}

/// The token behind a declaration: the usage, or the type of the texture.
pub open spec fn usage_token(d: Declaration) -> u32 {
    match d {
        Declaration::Semantic { usage, usage_index, reg } => D3DSP_PARAMETER | (d3ddeclusage(
            usage,
        ) as u32) | (usage_index << D3DSP_DCL_USAGEINDEX_SHIFT),
        Declaration::Sampler { texture_type, reg } => D3DSP_PARAMETER | (d3dstt(texture_type)
            << D3DSP_TEXTURETYPE_SHIFT),
    }
}

/// The register of a declaration.
pub open spec fn declared_register(d: Declaration) -> Register {
    match d {
        Declaration::Semantic { usage, usage_index, reg } => reg,
        Declaration::Sampler { texture_type, reg } => reg,
    }
}

/// A declaration that is put into tokens is read back from them.
pub proof fn declarations_are_read_back(bc: Seq<u32>, pos: int, d: Declaration)
    requires
        0 <= pos,
        pos + 2 < bc.len(),
        declaration_encodable(d),
        d is Sampler <==> declared_register(d).kind == RegKind::Sampler,
        bc[pos + 1] == usage_token(d),
        bc[pos + 2] == register_bits(
            d3dspr(declared_register(d).kind),
            declared_register(d).index as u32,
        ),
    ensures
        declaration_at(bc, pos) == Ok::<Declaration, DxsoError>(d),
{
    let reg = declared_register(d);
    let t = register_bits(d3dspr(reg.kind), reg.index as u32);
    assert(0u32 & 0xF000_1FFF == 0 && t | 0 == t) by (bit_vector);
    registers_are_read_back(reg, 0);
    match d {
        Declaration::Semantic { usage, usage_index, reg: _ } => {
            let u = d3ddeclusage(usage) as u32;
            assert((0x8000_0000u32 | u | (usage_index << 16)) & 0x1F == u && ((0x8000_0000u32 | u
                | (usage_index << 16)) >> 16) & 0xF == usage_index) by (bit_vector)
                requires
                    u < 32,
                    usage_index < 16,
            ;
            usages_have_their_d3ddeclusage_numbers(usage, d3ddeclusage(usage));
        },
        Declaration::Sampler { texture_type, reg: _ } => {
            let n = d3dstt(texture_type);
            assert(((0x8000_0000u32 | (n << 27)) >> 27) & 0xF == n) by (bit_vector)
                requires
                    n < 16,
            ;
        },
    }
}

/// A comment says how many tokens follow it.
pub proof fn comments_are_read_back(n: u32)
    requires
        n < 0x8000,
    ensures
        opcode_field((D3DSIO_COMMENT as u32) | (n << D3DSI_COMMENTSIZE_SHIFT)) == D3DSIO_COMMENT,
        comment_field((D3DSIO_COMMENT as u32) | (n << D3DSI_COMMENTSIZE_SHIFT)) == n,
{
    assert((0xFFFEu32 | (n << 16)) & 0xFFFF == 0xFFFE && ((0xFFFEu32 | (n << 16)) >> 16) & 0x7FFF
        == n) by (bit_vector)
        requires
            n < 0x8000,
    ;
}

/// A header names the stage and the version of its shader. Vertex shaders are of
/// version 1.1, 2 or 3, pixel shaders of version 1.0 to 1.4, 2 or 3.
pub proof fn headers_are_read_back(major: u8, minor: u8)
    ensures
        header_of(D3DVS_VERSION | ((major as u32) << 8) | (minor as u32)) == (if major == 2 || major
            == 3 || (major == 1 && minor == 1) {
            Ok::<(ShaderType, u8, u8), DxsoError>((ShaderType::Vertex, major, minor))
        } else {
            Err(DxsoError::UnsupportedShaderModel { major, minor })
        }),
        header_of(D3DPS_VERSION | ((major as u32) << 8) | (minor as u32)) == (if major == 2 || major
            == 3 || (major == 1 && minor <= 4) {
            Ok::<(ShaderType, u8, u8), DxsoError>((ShaderType::Pixel, major, minor))
        } else {
            Err(DxsoError::UnsupportedShaderModel { major, minor })
        }),
{
    let (a, b) = (major as u32, minor as u32);
    assert({
        let v = 0xFFFE_0000u32 | (a << 8) | b;
        let p = 0xFFFF_0000u32 | (a << 8) | b;
        &&& (v >> 16) & 0xFFFF == 0xFFFE
        &&& (p >> 16) & 0xFFFF == 0xFFFF
        &&& (v >> 8) & 0xFF == a
        &&& (p >> 8) & 0xFF == a
        &&& v & 0xFF == b
        &&& p & 0xFF == b
    }) by (bit_vector)
        requires
            a < 256,
            b < 256,
    ;
}

/// Whether an instruction with opcode `op` leaves a result: a value, a sample, an
/// address, a predicate or a depth. `texkill` names what it tests in the same
/// place.
pub open spec fn leaves_a_result(op: Opcode) -> bool {
    ||| arity(op) > 0
    ||| is_texture_value(op)
    ||| is_texture_statement(op)
    ||| op == Opcode::Cnd
    ||| op == Opcode::M4x4
    ||| op == Opcode::M4x3
    ||| op == Opcode::M3x4
    ||| op == Opcode::M3x3
    ||| op == Opcode::M3x2
    ||| op == Opcode::MovA
    ||| op == Opcode::SetP
}

/// The first operand of an instruction is a destination where it leaves a result,
/// and nowhere else.
pub proof fn results_have_destinations(op: Opcode)
    ensures
        leaves_a_result(op) <==> op.takes_destination(),
{
}

} // verus!
