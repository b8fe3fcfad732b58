//! What every parsed program holds, whatever stream it came from.

use crate::dxso::ir::{
    Declaration, DstOperand, DxsoProgram, InstructionView, ProgramView, Register, SrcOperand,
};
use crate::dxso::opcode::Opcode;
use crate::dxso::parser::{
    dst_part, fresh_state, header_of, instruction_at, item_at, operand_tokens, parsed, parsed_from,
    predicate_part, reg_of, src_at, srcs_from, swizzle_of, tokens_from, tokens_left, ItemView,
    ParseState,
};
use crate::dxso::queries::const_spans_fit;
use vstd::prelude::*;

verus! {

// ---------------------------------------------------------------------------
// Ranges
// ---------------------------------------------------------------------------

/// Whether a token has room for the register number.
pub open spec fn register_encodable(reg: Register) -> bool {
    reg.index <= 0x7FF
}

/// Whether a token has room for a source operand.
pub open spec fn source_encodable(src: SrcOperand) -> bool {
    &&& register_encodable(src.reg)
    &&& src.swizzle.in_range()
    &&& src.rel_addr matches Some(rel) ==> register_encodable(rel.reg) && rel.swizzle.in_range()
}

/// Whether a token has room for a destination operand.
pub open spec fn destination_encodable(dst: DstOperand) -> bool {
    &&& register_encodable(dst.reg)
    &&& dst.write_mask.0 <= 15
    &&& dst.mods.bits <= 7
    &&& -8 <= dst.shift_scale <= 7
}

/// Whether the operands of an instruction fit their tokens.
pub open spec fn instruction_encodable(inst: InstructionView) -> bool {
    &&& inst.dst matches Some(dst) ==> destination_encodable(dst)
    &&& inst.predicate matches Some(pred) ==> source_encodable(pred)
    &&& forall|j: int| 0 <= j < inst.srcs.len() ==> source_encodable(#[trigger] inst.srcs[j])
}

/// Whether every instruction of a body fits its tokens.
pub open spec fn body_encodable(body: Seq<InstructionView>) -> bool {
    forall|i: int| 0 <= i < body.len() ==> instruction_encodable(#[trigger] body[i])
}

/// The register of a declaration.
pub open spec fn declaration_encodable(d: Declaration) -> bool {
    match d {
        Declaration::Semantic { usage, usage_index, reg } => register_encodable(reg) && usage_index
            <= 15,
        Declaration::Sampler { texture_type, reg } => register_encodable(reg),
    }
}

/// Whether everything that a program names fits its tokens.
pub open spec fn program_encodable(p: ProgramView) -> bool {
    &&& body_encodable(p.instructions)
    &&& forall|l: u32| #[trigger]
        p.subroutines.contains_key(l) ==> l <= 0x7FF && body_encodable(p.subroutines[l])
    &&& forall|i: int|
        0 <= i < p.declarations.len() ==> declaration_encodable(#[trigger] p.declarations[i])
    &&& forall|i: int|
        0 <= i < p.def_constants.len() ==> register_encodable((#[trigger] p.def_constants[i]).reg)
    &&& forall|i: int|
        0 <= i < p.def_int_constants.len() ==> register_encodable(
            (#[trigger] p.def_int_constants[i]).reg,
        )
    &&& forall|i: int|
        0 <= i < p.def_bool_constants.len() ==> register_encodable(
            (#[trigger] p.def_bool_constants[i]).reg,
        )
}

proof fn fields_are_narrow(token: u32)
    ensures
        (token & 0x7FF) as u16 <= 0x7FF,
        ((token >> 16) & 0xF) as u8 <= 15,
        ((token >> 20) & 0x7) as u8 <= 7,
        (token >> 24) & 0xF <= 15,
        (token >> 16) & 0xF <= 15,
        reg_of(token) matches Ok(reg) ==> register_encodable(reg),
{
    assert((token & 0x7FF) as u16 <= 0x7FF && ((token >> 16) & 0xF) as u8 <= 15 && ((token >> 20)
        & 0x7) as u8 <= 7 && (token >> 24) & 0xF <= 15 && (token >> 16) & 0xF <= 15)
        by (bit_vector);
}

proof fn swizzles_select_components(bits: u32)
    ensures
        swizzle_of(bits).in_range(),
{
    assert((bits & 0x3) as u8 <= 3 && ((bits >> 2) & 0x3) as u8 <= 3 && ((bits >> 4) & 0x3) as u8
        <= 3 && ((bits >> 6) & 0x3) as u8 <= 3) by (bit_vector);
}

proof fn sources_are_encodable(bc: Seq<u32>, pos: int, sm1: bool)
    requires
        0 <= pos,
    ensures
        src_at(bc, pos, sm1) matches Ok((src, taken)) ==> source_encodable(src),
{
    if pos < bc.len() {
        fields_are_narrow(bc[pos]);
        swizzles_select_components((bc[pos] >> 16) & 0xFF);
        if pos + 1 < bc.len() {
            fields_are_narrow(bc[pos + 1]);
            swizzles_select_components((bc[pos + 1] >> 16) & 0xFF);
        }
    }
}

proof fn operand_lists_are_encodable(
    bc: Seq<u32>,
    pos: int,
    remaining: nat,
    sm1: bool,
    acc: Seq<SrcOperand>,
)
    requires
        0 <= pos,
        forall|j: int| 0 <= j < acc.len() ==> source_encodable(#[trigger] acc[j]),
    ensures
        srcs_from(bc, pos, remaining, sm1, acc) matches Ok(srcs) ==> forall|j: int|
            0 <= j < srcs.len() ==> source_encodable(#[trigger] srcs[j]),
    decreases remaining,
{
    if remaining > 0 {
        sources_are_encodable(bc, pos, sm1);
        if let Ok((src, taken)) = src_at(bc, pos, sm1) {
            if taken <= remaining {
                operand_lists_are_encodable(
                    bc,
                    pos + taken,
                    (remaining - taken) as nat,
                    sm1,
                    acc.push(src),
                );
            }
        }
    }
}

proof fn instructions_are_encodable(bc: Seq<u32>, pos: int, op: Opcode, major: u8)
    requires
        0 <= pos,
    ensures
        instruction_at(bc, pos, op, major) matches Ok(inst) ==> instruction_encodable(inst),
{
    let count = operand_tokens(bc, pos, major);
    if pos + 1 < bc.len() {
        fields_are_narrow(bc[pos + 1]);
    }
    if let Ok((dst, d)) = dst_part(bc, pos, op, count) {
        let left = tokens_left(count, d);
        sources_are_encodable(bc, pos + 1 + d, false);
        if let Ok((predicate, p)) = predicate_part(bc, pos + 1 + d, bc[pos], left) {
            operand_lists_are_encodable(
                bc,
                pos + 1 + d + p,
                tokens_left(left, p),
                major < 2,
                Seq::empty(),
            );
        }
    }
}

/// Whether an item fits its tokens.
pub open spec fn item_encodable(item: ItemView) -> bool {
    match item {
        ItemView::Declare(d) => declaration_encodable(d),
        ItemView::Define(d) => register_encodable(d.reg),
        ItemView::DefineInt(d) => register_encodable(d.reg),
        ItemView::DefineBool(d) => register_encodable(d.reg),
        ItemView::Label(l) => l <= 0x7FF,
        ItemView::Execute(inst) => instruction_encodable(inst),
        _ => true,
    }
}

proof fn items_are_encodable(bc: Seq<u32>, pos: int, major: u8)
    requires
        0 <= pos,
    ensures
        item_at(bc, pos, major) matches Ok((item, rest)) ==> item_encodable(item),
{
    if pos < bc.len() {
        if pos + 1 < bc.len() {
            fields_are_narrow(bc[pos + 1]);
        }
        if pos + 2 < bc.len() {
            fields_are_narrow(bc[pos + 2]);
        }
        sources_are_encodable(bc, pos + 1, false);
        if let Some(op) = Opcode::decoded(crate::dxso::parser::opcode_field(bc[pos])) {
            instructions_are_encodable(bc, pos, op, major);
        }
    }
}

/// Whether the state of a parse is encodable and consistent.
pub open spec fn state_encodable(st: ParseState) -> bool {
    program_encodable(st.program) && (st.label matches Some(l)
        ==> st.program.subroutines.contains_key(l))
}

proof fn absorbing_keeps_encodability(st: ParseState, item: ItemView)
    requires
        state_encodable(st),
        item_encodable(item),
    ensures
        state_encodable(st.absorb(item)),
{
    let p = st.program;
    let q = st.absorb(item).program;
    match item {
        ItemView::Label(l) => {
            assert forall|k: u32| #[trigger] q.subroutines.contains_key(k) implies k <= 0x7FF
                && body_encodable(q.subroutines[k]) by {
                if k != l || p.subroutines.contains_key(l) {
                    assert(p.subroutines.contains_key(k));
                }
            }
        },
        ItemView::Execute(inst) => {
            if let Some(l) = st.label {
                assert forall|k: u32| #[trigger] q.subroutines.contains_key(k) implies k <= 0x7FF
                    && body_encodable(q.subroutines[k]) by {
                    assert(p.subroutines.contains_key(k));
                }
            }
        },
        _ => {},
    }
}

proof fn remaining_items_are_encodable(bc: Seq<u32>, pos: int, st: ParseState)
    requires
        0 <= pos,
        state_encodable(st),
    ensures
        parsed_from(bc, pos, st) matches Ok(p) ==> program_encodable(p),
    decreases tokens_from(bc, pos),
{
    items_are_encodable(bc, pos, st.program.major);
    if let Ok((item, rest)) = item_at(bc, pos, st.program.major) {
        if !(item is End) {
            absorbing_keeps_encodability(st, item);
            remaining_items_are_encodable(bc, pos + 1 + rest, st.absorb(item));
        }
    }
}

/// Register numbers, lanes, masks and shifts of a parsed program are in the
/// ranges that their token fields have.
pub proof fn parsed_programs_are_encodable(bc: Seq<u32>)
    ensures
        parsed(bc) matches Ok(p) ==> program_encodable(p),
{
    if bc.len() > 0 {
        if let Ok((shader_type, major, minor)) = header_of(bc[0]) {
            remaining_items_are_encodable(bc, 1, fresh_state(shader_type, major, minor));
        }
    }
}

/// The constants that the main body of an encodable program reads lie in the
/// 16-bit range, a matrix and its rows included.
pub proof fn encodable_programs_read_existing_constants(program: DxsoProgram)
    requires
        program_encodable(program@),
    ensures
        const_spans_fit(program.instructions@),
{
    let body = program.instructions@;
    assert forall|i: int, j: int|
        0 <= i < body.len() && 0 <= j < body[i].srcs.len() implies source_encodable(
        #[trigger] body[i].srcs@[j],
    ) by {
        assert(instruction_encodable(program@.instructions[i]));
        assert(program@.instructions[i].srcs[j] == body[i].srcs@[j]);
    }
}

} // verus!
