//! What a program and its float renderings have to hold for a translation.
//!
//! A parsed program can lack operands that its opcodes read: the parser takes
//! the length that a token claims. The checks here tell the programs that lack
//! nothing, and list the floats whose renderings a program needs.

use crate::dxso::emit::arith::{
    arity, matrix_row, matrix_shape, operand_arity, products_from,
};
use crate::dxso::emit::common::{const_rel_text, defs_from, float_locals, vector_text};
use crate::dxso::emit::context::{
    binds_slot, declared_sampler, sampler_slots_fit, samples_slot, sm1_op_samples, EmitContext,
};
use crate::dxso::emit::error::EmitFailure;
use crate::dxso::emit::floats::{
    clamp_to_unit, clamped_to_unit, power_of_two, power_of_two_bits, FloatTexts,
};
use crate::dxso::emit::lower::{
    expanded, expands, free_labels, free_labels_shrink, is_expanding, lowered, lowered_from,
    operand_texts, operands_from, plain_text, value_text, LowerState,
};
use crate::dxso::emit::operands::{src_text, store_text};
use crate::dxso::emit::pixel::ps_source;
use crate::dxso::emit::variant::VariantKey;
use crate::dxso::emit::vertex::vs_source;
use crate::dxso::ir::{
    Declaration, DefConstant, DxsoProgram, Instruction, RegKind, ShaderType, SrcOperand,
};
use crate::dxso::opcode::Opcode;
use crate::dxso::queries::{is_bump_op, matrix_rows};
use vstd::prelude::*;

verus! {

broadcast use vstd::std_specs::btree::group_btree_axioms;

// ---------------------------------------------------------------------------
// Completeness
// ---------------------------------------------------------------------------

/// The number of source operands that `op` reads in a program of that version.
pub open spec fn sources_needed(op: Opcode, major: u8, minor: u8) -> nat {
    match op {
        Opcode::Call
        | Opcode::Rep
        | Opcode::If
        | Opcode::MovA
        | Opcode::TexReg2Ar
        | Opcode::TexReg2Gb
        | Opcode::TexReg2Rgb
        | Opcode::TexM3x2Pad
        | Opcode::TexM3x3Pad
        | Opcode::TexM3x2Tex
        | Opcode::TexM3x3
        | Opcode::TexM3x3Tex
        | Opcode::TexM3x3VSpec
        | Opcode::TexDp3
        | Opcode::TexDp3Tex
        | Opcode::TexBem
        | Opcode::TexBemL
        | Opcode::TexM3x2Depth => 1,
        Opcode::CallNz
        | Opcode::Loop
        | Opcode::Ifc
        | Opcode::BreakC
        | Opcode::SetP
        | Opcode::M4x4
        | Opcode::M4x3
        | Opcode::M3x4
        | Opcode::M3x3
        | Opcode::M3x2
        | Opcode::TexLdL
        | Opcode::TexM3x3Spec
        | Opcode::Bem => 2,
        Opcode::Cnd => 3,
        Opcode::TexLdD => 4,
        // The first models read the coordinate in the destination.
        Opcode::TexCoord => if minor >= 4 {
            1
        } else {
            0
        },
        Opcode::TexLd => if major != 1 {
            2
        } else if minor >= 4 {
            1
        } else {
            0
        },
        _ => arity(op),
    }
}

/// Whether the lanes of a source operand select components.
pub open spec fn selects_components(src: SrcOperand) -> bool {
    src.swizzle.in_range() && (src.rel_addr is Some ==> src.rel_addr->0.swizzle.0[0] < 4)
}

/// Whether `inst` has what its opcode reads.
pub open spec fn is_complete(inst: Instruction, major: u8, minor: u8) -> bool {
    &&& inst.srcs.len() >= sources_needed(inst.opcode, major, minor)
    &&& forall|j: int| 0 <= j < inst.srcs.len() ==> selects_components(#[trigger] inst.srcs@[j])
    &&& inst.predicate is Some ==> inst.predicate->0.swizzle.0[0] < 4
    &&& matrix_rows(inst.opcode) > 1 ==> inst.srcs@[1].reg.index + matrix_rows(inst.opcode) - 1
        <= u16::MAX
    &&& is_bump_op(inst.opcode) && inst.dst is Some ==> inst.dst->0.reg.index < 0x8000
}

/// Whether every instruction of `body` from `i` on has what its opcode reads,
/// and every one of the subroutines that these call in turn, whether or not an
/// earlier one is refused.
pub open spec fn completes_from(
    body: Seq<Instruction>,
    i: nat,
    prog: DxsoProgram,
    expanding: Seq<u32>,
) -> bool
    decreases free_labels(prog, expanding).len(), (body.len() - i) as nat,
{
    i < body.len() ==> {
        let inst = body[i as int];
        &&& is_complete(inst, prog.major, prog.minor)
        &&& expands(inst.opcode) ==> call_completes(
            inst.srcs@[0].reg.index as u32,
            prog,
            expanding,
        )
        &&& completes_from(body, i + 1, prog, expanding)
    }
}

/// Whether every instruction behind a call of `label` has what its opcode reads.
pub open spec fn call_completes(label: u32, prog: DxsoProgram, expanding: Seq<u32>) -> bool
    decreases free_labels(prog, expanding).len(), 0nat,
{
    if !prog.subroutines@.contains_key(label) || expanding.contains(label) {
        true
    } else {
        proof {
            free_labels_shrink(prog, expanding, label);
        }
        completes_from(prog.subroutines@[label]@, 0, prog, expanding.push(label))
    }
}

/// Whether every instruction of the main body and of the subroutines that it
/// calls has what its opcode reads, and every sampler a slot. Then a translation
/// ends in a text or in an error, with any renderings of the floats. It can do
/// so without: a program that is refused before it comes to such an instruction
/// is not translatable in this sense.
pub open spec fn is_translatable(prog: DxsoProgram) -> bool {
    &&& completes_from(prog.instructions@, 0, prog, Seq::empty())
    &&& prog.shader_type == ShaderType::Pixel ==> sampler_slots_fit(prog)
}

fn operand_count(op: Opcode, major: u8, minor: u8) -> (r: usize)
    ensures
        r == sources_needed(op, major, minor),
{
    match op {
        Opcode::Call
        | Opcode::Rep
        | Opcode::If
        | Opcode::MovA
        | Opcode::TexReg2Ar
        | Opcode::TexReg2Gb
        | Opcode::TexReg2Rgb
        | Opcode::TexM3x2Pad
        | Opcode::TexM3x3Pad
        | Opcode::TexM3x2Tex
        | Opcode::TexM3x3
        | Opcode::TexM3x3Tex
        | Opcode::TexM3x3VSpec
        | Opcode::TexDp3
        | Opcode::TexDp3Tex
        | Opcode::TexBem
        | Opcode::TexBemL
        | Opcode::TexM3x2Depth => 1,
        Opcode::CallNz
        | Opcode::Loop
        | Opcode::Ifc
        | Opcode::BreakC
        | Opcode::SetP
        | Opcode::M4x4
        | Opcode::M4x3
        | Opcode::M3x4
        | Opcode::M3x3
        | Opcode::M3x2
        | Opcode::TexLdL
        | Opcode::TexM3x3Spec
        | Opcode::Bem => 2,
        Opcode::Cnd => 3,
        Opcode::TexLdD => 4,
        Opcode::TexCoord => if minor >= 4 {
            1
        } else {
            0
        },
        Opcode::TexLd => if major != 1 {
            2
        } else if minor >= 4 {
            1
        } else {
            0
        },
        _ => operand_arity(op),
    }
}

fn has_components(src: &SrcOperand) -> (r: bool)
    ensures
        r == selects_components(*src),
{
    if !(src.swizzle.0[0] < 4 && src.swizzle.0[1] < 4 && src.swizzle.0[2] < 4 && src.swizzle.0[3]
        < 4) {
        return false;
    }
    match src.rel_addr {
        Some(rel) => rel.swizzle.0[0] < 4,
        None => true,
    }
}

fn check_instruction(inst: &Instruction, major: u8, minor: u8) -> (r: bool)
    ensures
        r == is_complete(*inst, major, minor),
{
    if inst.srcs.len() < operand_count(inst.opcode, major, minor) {
        return false;
    }
    let mut j: usize = 0;
    while j < inst.srcs.len()
        invariant
            j <= inst.srcs.len(),
            forall|k: int| 0 <= k < j ==> selects_components(#[trigger] inst.srcs@[k]),
        decreases inst.srcs.len() - j,
    {
        if !has_components(&inst.srcs[j]) {
            return false;
        }
        j = j + 1;
    }
    if let Some(pred) = inst.predicate {
        if pred.swizzle.0[0] >= 4 {
            return false;
        }
    }
    let last_row: u16 = match inst.opcode {
        Opcode::M4x4 | Opcode::M3x4 => 3,
        Opcode::M4x3 | Opcode::M3x3 => 2,
        Opcode::M3x2 => 1,
        _ => 0,
    };
    if last_row > 0 && inst.srcs[1].reg.index > u16::MAX - last_row {
        return false;
    }
    match inst.opcode {
        Opcode::TexBem | Opcode::TexBemL | Opcode::Bem => match inst.dst {
            Some(dst) => dst.reg.index < 0x8000,
            None => true,
        },
        _ => true,
    }
}

fn check_run(prog: &DxsoProgram, body: &Vec<Instruction>, expanding: &mut Vec<u32>) -> (r: bool)
    ensures
        r == completes_from(body@, 0, *prog, old(expanding)@),
        r ==> final(expanding)@ == old(expanding)@,
    decreases free_labels(*prog, old(expanding)@).len(), (body.len() + 1) as nat,
{
    let ghost labels = expanding@;
    let mut i: usize = 0;
    while i < body.len()
        invariant
            i <= body.len(),
            expanding@ == labels,
            labels == old(expanding)@,
            completes_from(body@, 0, *prog, labels) == completes_from(
                body@,
                i as nat,
                *prog,
                labels,
            ),
        decreases body.len() - i,
    {
        if !check_instruction(&body[i], prog.major, prog.minor) {
            return false;
        }
        if matches!(body[i].opcode, Opcode::Call | Opcode::CallNz) {
            if !check_call(prog, body[i].srcs[0].reg.index as u32, expanding) {
                return false;
            }
        }
        i = i + 1;
    }
    true
}

fn check_call(prog: &DxsoProgram, label: u32, expanding: &mut Vec<u32>) -> (r: bool)
    ensures
        r == call_completes(label, *prog, old(expanding)@),
        r ==> final(expanding)@ == old(expanding)@,
    decreases free_labels(*prog, old(expanding)@).len(), 0nat,
{
    match prog.subroutines.get(&label) {
        None => true,
        Some(body) => {
            if is_expanding(expanding, label) {
                return true;
            }
            proof {
                free_labels_shrink(*prog, expanding@, label);
            }
            expanding.push(label);
            if !check_run(prog, body, expanding) {
                return false;
            }
            expanding.pop();
            assert(expanding@ =~= old(expanding)@);
            true
        },
    }
}

proof fn declared_slots_are_declared(decls: Seq<Declaration>, slot: u16)
    ensures
        declared_sampler(decls, slot) is Some <==> exists|i: int|
            0 <= i < decls.len() && declares_slot(#[trigger] decls[i], slot),
    decreases decls.len(),
{
    if decls.len() > 0 {
        let head = decls.drop_last();
        declared_slots_are_declared(head, slot);
        if declares_slot(decls.last(), slot) {
            assert(declares_slot(decls[decls.len() - 1], slot));
        }
        if exists|i: int| 0 <= i < head.len() && declares_slot(#[trigger] head[i], slot) {
            let i = choose|i: int| 0 <= i < head.len() && declares_slot(#[trigger] head[i], slot);
            assert(declares_slot(decls[i], slot));
        }
        if exists|i: int| 0 <= i < decls.len() && declares_slot(#[trigger] decls[i], slot) {
            let i = choose|i: int| 0 <= i < decls.len() && declares_slot(#[trigger] decls[i], slot);
            assert(i < head.len() ==> declares_slot(head[i], slot));
        }
    }
}

/// Whether `d` declares sampler `slot`.
pub open spec fn declares_slot(d: Declaration, slot: u16) -> bool {
    d matches Declaration::Sampler { texture_type, reg } && reg.index == slot
}

/// Whether some instruction of `body` samples a slot past the last one.
pub open spec fn samples_past_slots(body: Seq<Instruction>) -> bool {
    exists|slot: u16| slot >= 16 && #[trigger] samples_slot(body, slot)
}

fn body_samples_past_slots(body: &Vec<Instruction>) -> (r: bool)
    ensures
        r == samples_past_slots(body@),
{
    let mut i: usize = 0;
    while i < body.len()
        invariant
            i <= body.len(),
            forall|k: int, slot: u16|
                0 <= k < i && slot >= 16 ==> !#[trigger] binds_slot(body@[k], slot),
        decreases body.len() - i,
    {
        if sm1_op_samples(body[i].opcode) {
            if let Some(dst) = body[i].dst {
                if dst.reg.index >= 16 {
                    assert(binds_slot(body@[i as int], dst.reg.index));
                    assert(samples_slot(body@, dst.reg.index));
                    return true;
                }
            }
        }
        i = i + 1;
    }
    false
}

/// Whether every sampler that a pixel program declares, or that its main body
/// samples implicitly, has a slot below 16.
pub(crate) fn check_slots(prog: &DxsoProgram) -> (r: bool)
    ensures
        r == sampler_slots_fit(*prog),
{
    let mut i: usize = 0;
    while i < prog.declarations.len()
        invariant
            i <= prog.declarations.len(),
            forall|k: int, slot: u16|
                0 <= k < i && slot >= 16 ==> !#[trigger] declares_slot(prog.declarations@[k], slot),
        decreases prog.declarations.len() - i,
    {
        if let Declaration::Sampler { texture_type, reg } = prog.declarations[i] {
            if reg.index >= 16 {
                proof {
                    declared_slots_are_declared(prog.declarations@, reg.index);
                    assert(declares_slot(prog.declarations@[i as int], reg.index));
                }
                return false;
            }
        }
        i = i + 1;
    }
    proof {
        assert forall|slot: u16| slot >= 16 implies #[trigger] declared_sampler(
            prog.declarations@,
            slot,
        ) is None by {
            declared_slots_are_declared(prog.declarations@, slot);
        }
    }
    if prog.major != 1 {
        return true;
    }
    !body_samples_past_slots(&prog.instructions)
}

impl DxsoProgram {
    /// Whether every instruction of the main body and of the subroutines that it
    /// calls has what its opcode reads, and every sampler a slot.
    ///
    /// Then a translation ends in a text or in an error, with any renderings of
    /// the floats. The checked translations tell for one of them whether it does.
    pub fn is_translatable(&self) -> (r: bool)
        ensures
            r == is_translatable(*self),
    {
        let mut expanding: Vec<u32> = Vec::new();
        if !check_run(self, &self.instructions, &mut expanding) {
            return false;
        }
        self.shader_type != ShaderType::Pixel || check_slots(self)
    }
}

// ---------------------------------------------------------------------------
// Floats
// ---------------------------------------------------------------------------

/// Whether the lanes of a constant, as they are or clamped, hold the float.
pub open spec fn def_needs(d: DefConstant, bits: u32) -> bool {
    ||| d.value[0] == bits || clamped_to_unit(d.value[0]) == bits
    ||| d.value[1] == bits || clamped_to_unit(d.value[1]) == bits
    ||| d.value[2] == bits || clamped_to_unit(d.value[2]) == bits
    ||| d.value[3] == bits || clamped_to_unit(d.value[3]) == bits
}

/// Whether the destination of `inst` scales by the float.
pub open spec fn scale_needs(inst: Instruction, bits: u32) -> bool {
    inst.dst is Some && inst.dst->0.shift_scale != 0 && power_of_two(inst.dst->0.shift_scale)
        == bits
}

/// Whether some instruction of `body` scales by the float.
pub open spec fn body_needs(body: Seq<Instruction>, bits: u32) -> bool {
    exists|i: int| 0 <= i < body.len() && scale_needs(#[trigger] body[i], bits)
}

/// Whether a translation of the program can need the rendering of the float.
pub open spec fn needs_text(prog: DxsoProgram, bits: u32) -> bool {
    ||| exists|i: int|
        0 <= i < prog.def_constants.len() && def_needs(#[trigger] prog.def_constants@[i], bits)
    ||| exists|b: Seq<Instruction>| #[trigger] prog.has_body(b) && body_needs(b, bits)
}

/// Whether the table holds every rendering that the program can need.
pub open spec fn covers(texts: Map<u32, Seq<char>>, prog: DxsoProgram) -> bool {
    forall|bits: u32| #[trigger] needs_text(prog, bits) ==> texts.contains_key(bits)
}

/// Whether `list` holds the float.
pub open spec fn lists(list: Seq<u32>, bits: u32) -> bool {
    list.contains(bits)
}

fn push_scales(body: &Vec<Instruction>, list: &mut Vec<u32>)
    ensures
        forall|bits: u32| #[trigger]
            lists(final(list)@, bits) <==> lists(old(list)@, bits) || body_needs(body@, bits),
{
    let mut i: usize = 0;
    while i < body.len()
        invariant
            i <= body.len(),
            forall|bits: u32| #[trigger]
                lists(list@, bits) <==> lists(old(list)@, bits) || body_needs(
                    body@.take(i as int),
                    bits,
                ),
        decreases body.len() - i,
    {
        let ghost before = list@;
        let ghost inst = body@[i as int];
        if let Some(dst) = body[i].dst {
            if dst.shift_scale != 0 {
                list.push(power_of_two_bits(dst.shift_scale));
            }
        }
        proof {
            let (longer, shorter) = (body@.take(i + 1), body@.take(i as int));
            assert forall|bits: u32| #[trigger] lists(list@, bits) <==> lists(old(list)@, bits)
                || body_needs(longer, bits) by {
                assert(lists(before, bits) <==> lists(old(list)@, bits) || body_needs(
                    shorter,
                    bits,
                ));
                if inst.dst is Some && inst.dst->0.shift_scale != 0 {
                    pushed(before, power_of_two(inst.dst->0.shift_scale), bits);
                }
                if body_needs(shorter, bits) {
                    let k = choose|k: int|
                        0 <= k < shorter.len() && scale_needs(#[trigger] shorter[k], bits);
                    assert(scale_needs(longer[k], bits));
                }
                if scale_needs(inst, bits) {
                    assert(scale_needs(longer[i as int], bits));
                }
                if body_needs(longer, bits) {
                    let k = choose|k: int|
                        0 <= k < longer.len() && scale_needs(#[trigger] longer[k], bits);
                    assert(k < i ==> scale_needs(shorter[k], bits));
                }
            }
        }
        i = i + 1;
    }
    assert(body@.take(body@.len() as int) =~= body@);
}

proof fn pushed(list: Seq<u32>, x: u32, bits: u32)
    ensures
        lists(list.push(x), bits) <==> lists(list, bits) || x == bits,
{
    assert(list.push(x)[list.len() as int] == x);
    if lists(list, bits) {
        let k = choose|k: int| 0 <= k < list.len() && list[k] == bits;
        assert(list.push(x)[k] == bits);
    }
}

fn push_lanes(d: &DefConstant, list: &mut Vec<u32>)
    ensures
        forall|bits: u32| #[trigger]
            lists(final(list)@, bits) <==> lists(old(list)@, bits) || def_needs(*d, bits),
{
    let mut k: usize = 0;
    while k < 4
        invariant
            k <= 4,
            forall|bits: u32| #[trigger]
                lists(list@, bits) <==> lists(old(list)@, bits) || exists|l: int|
                    0 <= l < k && (#[trigger] d.value[l] == bits || clamped_to_unit(d.value[l])
                        == bits),
        decreases 4 - k,
    {
        let ghost before = list@;
        let raw: u32 = d.value[k];
        let clamped: u32 = clamp_to_unit(raw);
        list.push(raw);
        list.push(clamped);
        assert forall|bits: u32| #[trigger] lists(list@, bits) <==> lists(before, bits) || raw
            == bits || clamped == bits by {
            pushed(before, raw, bits);
            pushed(before.push(raw), clamped, bits);
        }
        assert(d.value[k as int] == raw);
        k = k + 1;
    }
}

impl DxsoProgram {
    /// The floats whose renderings a translation of the program can need, by
    /// bit pattern.
    pub fn float_bits(&self) -> (r: Vec<u32>)
        ensures
            forall|bits: u32| #[trigger] lists(r@, bits) <==> needs_text(*self, bits),
    {
        let mut list: Vec<u32> = Vec::new();
        let mut i: usize = 0;
        while i < self.def_constants.len()
            invariant
                i <= self.def_constants.len(),
                forall|bits: u32| #[trigger]
                    lists(list@, bits) <==> exists|k: int|
                        0 <= k < i && def_needs(#[trigger] self.def_constants@[k], bits),
            decreases self.def_constants.len() - i,
        {
            push_lanes(&self.def_constants[i], &mut list);
            i = i + 1;
        }
        let bodies = self.bodies();
        let mut k: usize = 0;
        while k < bodies.len()
            invariant
                k <= bodies.len(),
                i == self.def_constants.len(),
                forall|bits: u32| #[trigger]
                    lists(list@, bits) <==> {
                        ||| exists|d: int|
                            0 <= d < i && def_needs(#[trigger] self.def_constants@[d], bits)
                        ||| exists|a: int|
                            0 <= a < k && body_needs((#[trigger] bodies@[a])@, bits)
                    },
            decreases bodies.len() - k,
        {
            push_scales(bodies[k], &mut list);
            assert(bodies@[k as int]@ == bodies[k as int]@);
            k = k + 1;
        }
        assert forall|bits: u32| #[trigger] lists(list@, bits) <==> needs_text(*self, bits) by {
            if exists|b: Seq<Instruction>| #[trigger] self.has_body(b) && body_needs(b, bits) {
                let b = choose|b: Seq<Instruction>| #[trigger]
                    self.has_body(b) && body_needs(b, bits);
                let a = choose|a: int| 0 <= a < bodies.len() && (#[trigger] bodies@[a])@ == b;
                assert(body_needs(bodies@[a]@, bits));
            }
            if exists|a: int| 0 <= a < k && body_needs((#[trigger] bodies@[a])@, bits) {
                let a = choose|a: int| 0 <= a < k && body_needs((#[trigger] bodies@[a])@, bits);
                assert(self.has_body(bodies@[a]@));
            }
        }
        list
    }
}

// ---------------------------------------------------------------------------
// What a translation of such a program can fail with
// ---------------------------------------------------------------------------

/// Whether `e` names a feature that has no lowering, or, unless the renderings
/// are all there, a missing one.
pub open spec fn says_why(e: EmitFailure, covered: bool) -> bool {
    e != EmitFailure::Undefined && (covered ==> !(e is MissingFloatText))
}

/// Whether the factor that `inst` scales by has a rendering.
pub open spec fn scale_covered(inst: Instruction, texts: Map<u32, Seq<char>>) -> bool {
    forall|bits: u32| #[trigger] scale_needs(inst, bits) ==> texts.contains_key(bits)
}

/// Whether `inst` is complete and, where `covered`, its factor has a rendering.
pub open spec fn is_ready(inst: Instruction, ctx: EmitContext, covered: bool) -> bool {
    is_complete(inst, ctx.prog.major, ctx.prog.minor) && (covered ==> scale_covered(
        inst,
        ctx.texts@,
    ))
}

/// Whether the factors that `body` scales by have renderings.
pub open spec fn body_covered(body: Seq<Instruction>, texts: Map<u32, Seq<char>>) -> bool {
    forall|i: int| 0 <= i < body.len() ==> scale_covered(#[trigger] body[i], texts)
}

/// Whether the factors that the program scales by have renderings.
pub open spec fn scales_covered(prog: DxsoProgram, texts: Map<u32, Seq<char>>) -> bool {
    forall|b: Seq<Instruction>| #[trigger] prog.has_body(b) ==> body_covered(b, texts)
}

proof fn source_failures(src: SrcOperand, ctx: EmitContext, loops: Seq<Option<u64>>)
    requires
        selects_components(src),
    ensures
        src_text(src, ctx, loops) matches Err(e) ==> says_why(e, true),
{
}

proof fn operand_failures(
    srcs: Seq<SrcOperand>,
    i: nat,
    ctx: EmitContext,
    loops: Seq<Option<u64>>,
    acc: Seq<Seq<char>>,
)
    requires
        forall|j: int| 0 <= j < srcs.len() ==> selects_components(#[trigger] srcs[j]),
        i <= srcs.len(),
    ensures
        match operands_from(srcs, i, ctx, loops, acc) {
            Err(e) => says_why(e, true),
            Ok(texts) => texts.len() == acc.len() + srcs.len() - i,
        },
    decreases srcs.len() - i,
{
    if i < srcs.len() {
        assert(selects_components(srcs[i as int]));
        if srcs[i as int].reg.kind == RegKind::Sampler {
            operand_failures(srcs, i + 1, ctx, loops, acc.push(Seq::empty()));
        } else {
            source_failures(srcs[i as int], ctx, loops);
            if let Ok(t) = src_text(srcs[i as int], ctx, loops) {
                operand_failures(srcs, i + 1, ctx, loops, acc.push(t));
            }
        }
    }
}

proof fn product_failures(
    vector: Seq<char>,
    first: SrcOperand,
    shape: (nat, nat),
    i: nat,
    ctx: EmitContext,
    loops: Seq<Option<u64>>,
    acc: Seq<Seq<char>>,
)
    requires
        selects_components(first),
        shape.1 >= 1 ==> first.reg.index + shape.1 - 1 <= u16::MAX,
    ensures
        products_from(vector, first, shape, i, ctx, loops, acc) matches Err(e) ==> says_why(
            e,
            true,
        ),
    decreases shape.1 - i,
{
    if i < shape.1 {
        let row = matrix_row(first, i);
        assert(selects_components(row));
        source_failures(row, ctx, loops);
        if let Ok(t) = src_text(row, ctx, loops) {
            product_failures(
                vector,
                first,
                shape,
                i + 1,
                ctx,
                loops,
                acc.push(crate::dxso::emit::arith::dot_text(vector, t, shape.0)),
            );
        }
    }
}

proof fn store_failures(inst: Instruction, value: Seq<char>, ctx: EmitContext, covered: bool)
    requires
        is_ready(inst, ctx, covered),
        inst.dst is Some,
    ensures
        store_text(inst.dst->0, value, ctx) matches Err(e) ==> says_why(e, covered),
{
    let shift = inst.dst->0.shift_scale;
    if shift != 0 {
        assert(scale_needs(inst, power_of_two(shift)));
    }
}

proof fn value_failures(
    inst: Instruction,
    s: Seq<Seq<char>>,
    ctx: EmitContext,
    loops: Seq<Option<u64>>,
    covered: bool,
)
    requires
        is_ready(inst, ctx, covered),
        s.len() == inst.srcs.len(),
    ensures
        value_text(inst, s, ctx, loops) matches Err(e) ==> says_why(e, true),
{
    match inst.opcode {
        Opcode::M4x4 | Opcode::M4x3 | Opcode::M3x4 | Opcode::M3x3 | Opcode::M3x2 => {
            assert(selects_components(inst.srcs@[1]));
            product_failures(
                s[0],
                inst.srcs@[1],
                matrix_shape(inst.opcode),
                0,
                ctx,
                loops,
                Seq::empty(),
            );
        },
        _ => {},
    }
}

proof fn plain_failures(
    inst: Instruction,
    s: Seq<Seq<char>>,
    ctx: EmitContext,
    loops: Seq<Option<u64>>,
    covered: bool,
)
    requires
        is_ready(inst, ctx, covered),
        s.len() == inst.srcs.len(),
    ensures
        plain_text(inst, s, ctx, loops) matches Err(e) ==> says_why(e, covered),
{
    value_failures(inst, s, ctx, loops, covered);
    if inst.dst is Some {
        if let Ok(value) = value_text(inst, s, ctx, loops) {
            store_failures(inst, value, ctx, covered);
        }
        assert forall|value: Seq<char>| (#[trigger] store_text(
            inst.dst->0,
            value,
            ctx,
        )) is Err implies says_why(store_text(inst.dst->0, value, ctx)->Err_0, covered) by {
            store_failures(inst, value, ctx, covered);
        }
    }
}

proof fn instruction_failures(
    inst: Instruction,
    ctx: EmitContext,
    expanding: Seq<u32>,
    st: LowerState,
    covered: bool,
)
    requires
        is_ready(inst, ctx, covered),
        expands(inst.opcode) ==> call_completes(
            inst.srcs@[0].reg.index as u32,
            *ctx.prog,
            expanding,
        ),
        covered ==> scales_covered(*ctx.prog, ctx.texts@),
    ensures
        lowered(inst, ctx, expanding, st) matches Err(e) ==> says_why(e, covered),
    decreases free_labels(*ctx.prog, expanding).len(), 0nat, 1nat,
{
    operand_failures(inst.srcs@, 0, ctx, st.loops, Seq::empty());
    if let Ok(s) = operand_texts(inst, ctx, st.loops) {
        plain_failures(inst, s, ctx, st.loops, covered);
        if inst.opcode == Opcode::Call {
            call_failures(inst.srcs@[0].reg.index as u32, ctx, expanding, st, covered);
        } else if inst.opcode == Opcode::CallNz {
            let head = "    if (("@ + s[1] + ").x != 0.0) {\n"@;
            call_failures(
                inst.srcs@[0].reg.index as u32,
                ctx,
                expanding,
                st.append(head),
                covered,
            );
        }
    }
}

proof fn body_failures(
    body: Seq<Instruction>,
    i: nat,
    ctx: EmitContext,
    expanding: Seq<u32>,
    st: LowerState,
    covered: bool,
)
    requires
        completes_from(body, i, *ctx.prog, expanding),
        covered ==> body_covered(body, ctx.texts@),
        covered ==> scales_covered(*ctx.prog, ctx.texts@),
    ensures
        lowered_from(body, i, ctx, expanding, st) matches Err(e) ==> says_why(e, covered),
    decreases free_labels(*ctx.prog, expanding).len(), (body.len() - i) as nat, 0nat,
{
    if i < body.len() {
        assert(is_ready(body[i as int], ctx, covered));
        instruction_failures(body[i as int], ctx, expanding, st, covered);
        if let Ok(next) = lowered(body[i as int], ctx, expanding, st) {
            body_failures(body, i + 1, ctx, expanding, next, covered);
        }
    }
}

proof fn call_failures(
    label: u32,
    ctx: EmitContext,
    expanding: Seq<u32>,
    st: LowerState,
    covered: bool,
)
    requires
        call_completes(label, *ctx.prog, expanding),
        covered ==> scales_covered(*ctx.prog, ctx.texts@),
    ensures
        expanded(label, ctx, expanding, st) matches Err(e) ==> says_why(e, covered),
    decreases free_labels(*ctx.prog, expanding).len(), 0nat, 0nat,
{
    if ctx.prog.subroutines@.contains_key(label) && !expanding.contains(label) {
        free_labels_shrink(*ctx.prog, expanding, label);
        let body = ctx.prog.subroutines@[label]@;
        assert(ctx.prog.has_body(body));
        body_failures(body, 0, ctx, expanding.push(label), st, covered);
    }
}

proof fn constant_failures(
    defs: Seq<DefConstant>,
    i: nat,
    head: Seq<char>,
    mid: Seq<char>,
    clamp: bool,
    texts: Map<u32, Seq<char>>,
    acc: Seq<char>,
    covered: bool,
)
    requires
        covered ==> forall|k: int, bits: u32|
            0 <= k < defs.len() && #[trigger] def_needs(defs[k], bits) ==> texts.contains_key(bits),
    ensures
        defs_from(defs, i, head, mid, clamp, texts, acc) matches Err(e) ==> says_why(e, covered),
    decreases defs.len() - i,
{
    if i < defs.len() {
        let v = defs[i as int].value;
        assert(def_needs(defs[i as int], v[0]) && def_needs(defs[i as int], clamped_to_unit(v[0])));
        assert(def_needs(defs[i as int], v[1]) && def_needs(defs[i as int], clamped_to_unit(v[1])));
        assert(def_needs(defs[i as int], v[2]) && def_needs(defs[i as int], clamped_to_unit(v[2])));
        assert(def_needs(defs[i as int], v[3]) && def_needs(defs[i as int], clamped_to_unit(v[3])));
        if let Ok(t) = vector_text(v, clamp, texts) {
            constant_failures(
                defs,
                i + 1,
                head,
                mid,
                clamp,
                texts,
                acc + head + crate::text::dec(defs[i as int].reg.index as nat) + mid + t + ";\n"@,
                covered,
            );
        }
    }
}

proof fn covering_texts_cover_the_scales(prog: DxsoProgram, texts: Map<u32, Seq<char>>)
    requires
        covers(texts, prog),
    ensures
        scales_covered(prog, texts),
{
    assert forall|b: Seq<Instruction>| #[trigger] prog.has_body(b) implies body_covered(b, texts) by {
        assert forall|i: int| 0 <= i < b.len() implies scale_covered(#[trigger] b[i], texts) by {
            assert forall|bits: u32| #[trigger] scale_needs(b[i], bits) implies texts.contains_key(
                bits,
            ) by {
                assert(body_needs(b, bits));
                assert(needs_text(prog, bits));
            }
        }
    }
}

proof fn program_constant_failures(
    prog: DxsoProgram,
    clamp: bool,
    texts: Map<u32, Seq<char>>,
    covered: bool,
)
    requires
        covered ==> covers(texts, prog),
    ensures
        const_rel_text(prog, texts) matches Err(e) ==> says_why(e, covered),
        float_locals(prog, clamp, texts) matches Err(e) ==> says_why(e, covered),
{
    let defs = prog.def_constants@;
    if covered {
        assert forall|k: int, bits: u32|
            0 <= k < defs.len() && #[trigger] def_needs(defs[k], bits) implies texts.contains_key(
            bits,
        ) by {
            assert(needs_text(prog, bits));
        }
    }
    constant_failures(
        defs,
        0,
        "        case "@,
        ": return "@,
        false,
        texts,
        Seq::empty(),
        covered,
    );
    constant_failures(defs, 0, "    float4 c"@, " = "@, clamp, texts, Seq::empty(), covered);
}

/// A translatable vertex shader has a translation or an error that says why
/// not; with all its renderings, none of them is missing.
pub proof fn vertex_failures_say_why(
    vs: DxsoProgram,
    entry: Seq<char>,
    provided_mask: u16,
    texts: FloatTexts,
)
    requires
        is_translatable(vs),
    ensures
        vs_source(vs, entry, provided_mask, texts) matches Err(e) ==> says_why(
            e,
            covers(texts@, vs),
        ),
{
    let covered = covers(texts@, vs);
    let ctx = EmitContext::spec_vs(vs, texts, provided_mask);
    if covered {
        covering_texts_cover_the_scales(vs, texts@);
    }
    assert(vs.has_body(vs.instructions@));
    program_constant_failures(vs, false, texts@, covered);
    if let Ok(helper) = const_rel_text(vs, texts@) {
        if let Ok(locals) = float_locals(vs, false, texts@) {
            let start = LowerState {
                out: crate::dxso::emit::vertex::vs_prologue(
                    vs,
                    entry,
                    provided_mask,
                    helper,
                    locals,
                ),
                loops: Seq::empty(),
                next_al: 0,
            };
            body_failures(vs.instructions@, 0, ctx, Seq::empty(), start, covered);
        }
    }
}

/// A translatable pixel shader has a translation or an error that says why not;
/// with all its renderings, none of them is missing.
pub proof fn pixel_failures_say_why(
    ps: DxsoProgram,
    variant: VariantKey,
    entry: Seq<char>,
    texts: FloatTexts,
)
    requires
        is_translatable(ps),
    ensures
        ps_source(ps, variant, entry, texts) matches Err(e) ==> says_why(e, covers(texts@, ps)),
{
    let covered = covers(texts@, ps);
    let ctx = EmitContext::spec_ps(
        ps,
        texts,
        variant,
        crate::dxso::emit::pixel::declares_misc(ps.declarations@, 0),
        crate::dxso::emit::pixel::declares_misc(ps.declarations@, 1),
        crate::dxso::emit::pixel::sets_depth(ps),
    );
    if covered {
        covering_texts_cover_the_scales(ps, texts@);
    }
    assert(ps.has_body(ps.instructions@));
    program_constant_failures(ps, ps.major == 1, texts@, covered);
    if let Ok(helper) = const_rel_text(ps, texts@) {
        if let Ok(locals) = float_locals(ps, ps.major == 1, texts@) {
            let start = LowerState {
                out: crate::dxso::emit::pixel::ps_declarations(ps, variant, helper)
                    + crate::dxso::emit::pixel::ps_signature(ps, variant, entry)
                    + crate::dxso::emit::pixel::ps_locals(ps, locals),
                loops: Seq::empty(),
                next_al: 0,
            };
            body_failures(ps.instructions@, 0, ctx, Seq::empty(), start, covered);
        }
    }
}

} // verus!
