//! What holds of every translation.

use crate::dxso::emit::common::{
    const_case, const_rel_text, defs_from, float_locals, preamble, varyings_text, vector_text,
};
use crate::dxso::emit::context::EmitContext;
use crate::dxso::emit::error::EmitFailure;
use crate::dxso::emit::floats::FloatTexts;
use crate::dxso::emit::lower::{
    expanded, free_labels, free_labels_shrink, loop_text, lowered, lowered_from, operand_texts,
    plain_text, rep_text, unlowered_name, LowerState,
};
use crate::dxso::emit::operands::calls_const_rel;
use crate::dxso::emit::pixel::{
    declares_misc, ps_declarations, ps_epilogue, ps_locals, ps_signature, ps_source, sets_depth,
    signature_start, text_if,
};
use crate::dxso::emit::variant::{VariantFlags, VariantKey};
use crate::dxso::emit::vertex::{vertex_in_text, vs_epilogue, vs_prologue, vs_source};
use crate::dxso::ff::key::{FfPsKey, FfVsKey};
use crate::dxso::ff::pixel::{ff_ps_declarations, ff_ps_function, ff_ps_source};
use crate::dxso::ff::vertex::{ff_inputs, ff_vs_declarations, ff_vs_function, ff_vs_source};
use crate::dxso::ir::{DefConstant, DxsoProgram, Instruction};
use crate::dxso::opcode::Opcode;
use crate::dxso::queries::{body_reads_relative, source_before};
use crate::text::{
    appending_keeps_the_start, dec, every_text_starts_with_itself, starts_compose, starts_with,
};
use vstd::prelude::*;

verus! {

// ---------------------------------------------------------------------------
// Lowering
// ---------------------------------------------------------------------------

/// Lowering an instruction only appends: what was translated before it stays as
/// it is.
pub proof fn lowering_only_appends(
    inst: Instruction,
    ctx: EmitContext,
    expanding: Seq<u32>,
    st: LowerState,
)
    ensures
        lowered(inst, ctx, expanding, st) matches Ok(after) ==> starts_with(after.out, st.out),
    decreases free_labels(*ctx.prog, expanding).len(), 0nat, 1nat,
{
    every_text_starts_with_itself(st.out);
    if let Ok(s) = operand_texts(inst, ctx, st.loops) {
        match inst.opcode {
            Opcode::Call => {
                if s.len() >= 1 {
                    calls_only_append(inst.srcs@[0].reg.index as u32, ctx, expanding, st);
                }
            },
            Opcode::CallNz => {
                if s.len() >= 2 {
                    let head = "    if (("@ + s[1] + ").x != 0.0) {\n"@;
                    let label = inst.srcs@[0].reg.index as u32;
                    calls_only_append(label, ctx, expanding, st.append(head));
                    appending_keeps_the_start(st.out, head, st.out);
                    if let Ok(t) = expanded(label, ctx, expanding, st.append(head)) {
                        starts_compose(st.out, st.append(head).out, t.out);
                        appending_keeps_the_start(t.out, "    }\n"@, st.out);
                    }
                }
            },
            Opcode::Loop => {
                if s.len() >= 2 {
                    appending_keeps_the_start(st.out, loop_text(st.next_al, s[1]), st.out);
                }
            },
            Opcode::Rep => {
                if s.len() >= 1 {
                    appending_keeps_the_start(st.out, rep_text(st.loops.len(), s[0]), st.out);
                }
            },
            Opcode::EndLoop | Opcode::EndRep => {
                appending_keeps_the_start(st.out, "    }\n"@, st.out);
            },
            _ => {
                if let Ok(text) = plain_text(inst, s, ctx, st.loops) {
                    appending_keeps_the_start(st.out, text, st.out);
                }
            },
        }
    }
}

/// Lowering a body only appends.
pub proof fn bodies_only_append(
    body: Seq<Instruction>,
    i: nat,
    ctx: EmitContext,
    expanding: Seq<u32>,
    st: LowerState,
)
    ensures
        lowered_from(body, i, ctx, expanding, st) matches Ok(after) ==> starts_with(
            after.out,
            st.out,
        ),
    decreases free_labels(*ctx.prog, expanding).len(), (body.len() - i) as nat, 0nat,
{
    every_text_starts_with_itself(st.out);
    if i < body.len() {
        lowering_only_appends(body[i as int], ctx, expanding, st);
        if let Ok(next) = lowered(body[i as int], ctx, expanding, st) {
            bodies_only_append(body, i + 1, ctx, expanding, next);
            if let Ok(after) = lowered_from(body, i + 1, ctx, expanding, next) {
                starts_compose(st.out, next.out, after.out);
            }
        }
    }
}

proof fn calls_only_append(label: u32, ctx: EmitContext, expanding: Seq<u32>, st: LowerState)
    ensures
        expanded(label, ctx, expanding, st) matches Ok(after) ==> starts_with(after.out, st.out),
    decreases free_labels(*ctx.prog, expanding).len(), 0nat, 0nat,
{
    every_text_starts_with_itself(st.out);
    if ctx.prog.subroutines@.contains_key(label) && !expanding.contains(label) {
        free_labels_shrink(*ctx.prog, expanding, label);
        bodies_only_append(
            ctx.prog.subroutines@[label]@,
            0,
            ctx,
            expanding.push(label),
            st,
        );
    }
}

/// A call of a label that has no body, or whose body is being expanded, leaves
/// the translation as it is. So recursion ends, and a dangling call is harmless.
pub proof fn dangling_calls_are_dropped(
    label: u32,
    ctx: EmitContext,
    expanding: Seq<u32>,
    st: LowerState,
)
    requires
        !ctx.prog.subroutines@.contains_key(label) || expanding.contains(label),
    ensures
        expanded(label, ctx, expanding, st) == Ok::<LowerState, EmitFailure>(st),
{
}

/// The open loops have counters of their own, all of them used up; and there are
/// no more used counters than characters.
pub open spec fn counters_are_fresh(st: LowerState) -> bool {
    &&& forall|i: int| 0 <= i < st.loops.len() && (#[trigger] st.loops[i]) is Some ==> st.loops[i]->0
        < st.next_al
    &&& forall|i: int, j: int|
        0 <= i < j < st.loops.len() && (#[trigger] st.loops[i]) is Some && (
        #[trigger] st.loops[j]) is Some ==> st.loops[i]->0 != st.loops[j]->0
    &&& st.next_al <= st.out.len()
}

/// No two open loops share a counter, so an inner loop never runs an outer one:
/// lowering an instruction keeps the counters of the open loops apart.
pub proof fn loop_counters_stay_apart(
    inst: Instruction,
    ctx: EmitContext,
    expanding: Seq<u32>,
    st: LowerState,
)
    requires
        counters_are_fresh(st),
        lowered(inst, ctx, expanding, st) matches Ok(after) ==> after.out.len() < u64::MAX,
    ensures
        lowered(inst, ctx, expanding, st) matches Ok(after) ==> counters_are_fresh(after),
    decreases free_labels(*ctx.prog, expanding).len(), 0nat, 1nat,
{
    lowering_only_appends(inst, ctx, expanding, st);
    if let Ok(s) = operand_texts(inst, ctx, st.loops) {
        match inst.opcode {
            Opcode::Call => {
                if s.len() >= 1 {
                    calls_keep_counters_apart(
                        inst.srcs@[0].reg.index as u32,
                        ctx,
                        expanding,
                        st,
                    );
                }
            },
            Opcode::CallNz => {
                if s.len() >= 2 {
                    let head = "    if (("@ + s[1] + ").x != 0.0) {\n"@;
                    calls_keep_counters_apart(
                        inst.srcs@[0].reg.index as u32,
                        ctx,
                        expanding,
                        st.append(head),
                    );
                }
            },
            Opcode::Loop => {
                if s.len() >= 2 {
                    let after = lowered(inst, ctx, expanding, st)->Ok_0;
                    loop_heads_are_not_empty(st.next_al, s[1]);
                    assert(after.next_al == st.next_al + 1);
                    assert forall|i: int, j: int|
                        0 <= i < j < after.loops.len() && (#[trigger] after.loops[i]) is Some && (
                        #[trigger] after.loops[j]) is Some implies after.loops[i]->0
                        != after.loops[j]->0 by {
                        assert(after.loops[i] == st.loops[i]);
                    }
                }
            },
            _ => {},
        }
    }
}

proof fn loop_heads_are_not_empty(i: u64, c: Seq<char>)
    ensures
        loop_text(i, c).len() >= 1,
{
    reveal_strlit(") {\n");
}

/// Lowering a body keeps the counters of the open loops apart.
pub proof fn bodies_keep_counters_apart(
    body: Seq<Instruction>,
    i: nat,
    ctx: EmitContext,
    expanding: Seq<u32>,
    st: LowerState,
)
    requires
        counters_are_fresh(st),
        lowered_from(body, i, ctx, expanding, st) matches Ok(after) ==> after.out.len() < u64::MAX,
    ensures
        lowered_from(body, i, ctx, expanding, st) matches Ok(after) ==> counters_are_fresh(after),
    decreases free_labels(*ctx.prog, expanding).len(), (body.len() - i) as nat, 0nat,
{
    if i < body.len() {
        if let Ok(next) = lowered(body[i as int], ctx, expanding, st) {
            bodies_only_append(body, i + 1, ctx, expanding, next);
            if let Ok(after) = lowered_from(body, i + 1, ctx, expanding, next) {
                loop_counters_stay_apart(body[i as int], ctx, expanding, st);
                bodies_keep_counters_apart(body, i + 1, ctx, expanding, next);
            }
        }
    }
}

proof fn calls_keep_counters_apart(
    label: u32,
    ctx: EmitContext,
    expanding: Seq<u32>,
    st: LowerState,
)
    requires
        counters_are_fresh(st),
        expanded(label, ctx, expanding, st) matches Ok(after) ==> after.out.len() < u64::MAX,
    ensures
        expanded(label, ctx, expanding, st) matches Ok(after) ==> counters_are_fresh(after),
    decreases free_labels(*ctx.prog, expanding).len(), 0nat, 0nat,
{
    if ctx.prog.subroutines@.contains_key(label) && !expanding.contains(label) {
        free_labels_shrink(*ctx.prog, expanding, label);
        bodies_keep_counters_apart(
            ctx.prog.subroutines@[label]@,
            0,
            ctx,
            expanding.push(label),
            st,
        );
    }
}

// ---------------------------------------------------------------------------
// Linkage
// ---------------------------------------------------------------------------

/// Whether `text` reads `part` from character `i` on.
pub open spec fn reads_at(text: Seq<char>, part: Seq<char>, i: int) -> bool {
    0 <= i && i + part.len() <= text.len() && text.subrange(i, i + part.len()) == part
}

/// Whether `part` is a part of `text`.
pub open spec fn contains_part(text: Seq<char>, part: Seq<char>) -> bool {
    exists|i: int| #[trigger] reads_at(text, part, i)
}

proof fn a_part_at_the_start(
    text: Seq<char>,
    start: Seq<char>,
    before: Seq<char>,
    part: Seq<char>,
    rest: Seq<char>,
)
    requires
        starts_with(text, start),
        start == before + part + rest,
    ensures
        contains_part(text, part),
{
    let i = before.len() as int;
    assert(text.subrange(i, i + part.len()) =~= part) by {
        assert forall|k: int| 0 <= k < part.len() implies text[i + k] == part[k] by {
            assert(text.take(start.len() as int)[i + k] == text[i + k]);
        }
    }
    assert(reads_at(text, part, i));
}

proof fn a_part_in_the_middle(before: Seq<char>, part: Seq<char>, rest: Seq<char>)
    ensures
        contains_part(before + part + rest, part),
{
    let text = before + part + rest;
    every_text_starts_with_itself(text);
    a_part_at_the_start(text, text, before, part, rest);
}

proof fn parts_compose(text: Seq<char>, middle: Seq<char>, part: Seq<char>)
    requires
        contains_part(text, middle),
        contains_part(middle, part),
    ensures
        contains_part(text, part),
{
    let i = choose|i: int| #[trigger] reads_at(text, middle, i);
    let j = choose|j: int| #[trigger] reads_at(middle, part, j);
    assert(text.subrange(i + j, i + j + part.len()) =~= text.subrange(
        i,
        i + middle.len(),
    ).subrange(j, j + part.len()));
    assert(reads_at(text, part, i + j));
}

/// What a translated vertex shader holds before its instructions.
spec fn vs_head(
    vs: DxsoProgram,
    entry: Seq<char>,
    provided_mask: u16,
    texts: FloatTexts,
) -> Seq<char> {
    vs_prologue(
        vs,
        entry,
        provided_mask,
        const_rel_text(vs, texts@)->Ok_0,
        float_locals(vs, false, texts@)->Ok_0,
    )
}

proof fn vertex_shaders_start_with_their_head(
    vs: DxsoProgram,
    entry: Seq<char>,
    provided_mask: u16,
    texts: FloatTexts,
)
    ensures
        vs_source(vs, entry, provided_mask, texts) matches Ok(text) ==> starts_with(
            text,
            vs_head(vs, entry, provided_mask, texts),
        ),
{
    if let Ok(text) = vs_source(vs, entry, provided_mask, texts) {
        let start = vs_head(vs, entry, provided_mask, texts);
        let st = LowerState { out: start, loops: Seq::empty(), next_al: 0 };
        let ctx = EmitContext::spec_vs(vs, texts, provided_mask);
        bodies_only_append(vs.instructions@, 0, ctx, Seq::empty(), st);
        let end = lowered_from(vs.instructions@, 0, ctx, Seq::empty(), st)->Ok_0;
        appending_keeps_the_start(end.out, vs_epilogue(vs), start);
    }
}

/// What a translated pixel shader holds before its instructions.
spec fn ps_head(
    ps: DxsoProgram,
    variant: VariantKey,
    entry: Seq<char>,
    texts: FloatTexts,
) -> Seq<char> {
    ps_declarations(ps, variant, const_rel_text(ps, texts@)->Ok_0) + ps_signature(
        ps,
        variant,
        entry,
    ) + ps_locals(ps, float_locals(ps, ps.major == 1, texts@)->Ok_0)
}

proof fn pixel_shaders_start_with_their_head(
    ps: DxsoProgram,
    variant: VariantKey,
    entry: Seq<char>,
    texts: FloatTexts,
)
    ensures
        ps_source(ps, variant, entry, texts) matches Ok(text) ==> starts_with(
            text,
            ps_head(ps, variant, entry, texts),
        ),
{
    if let Ok(text) = ps_source(ps, variant, entry, texts) {
        let start = ps_head(ps, variant, entry, texts);
        let st = LowerState { out: start, loops: Seq::empty(), next_al: 0 };
        let ctx = EmitContext::spec_ps(
            ps,
            texts,
            variant,
            declares_misc(ps.declarations@, 0),
            declares_misc(ps.declarations@, 1),
            sets_depth(ps),
        );
        bodies_only_append(ps.instructions@, 0, ctx, Seq::empty(), st);
        let end = lowered_from(ps.instructions@, 0, ctx, Seq::empty(), st)->Ok_0;
        appending_keeps_the_start(end.out, ps_epilogue(ps, variant), start);
    }
}

/// Every vertex shader outputs the same structure, whatever it was made from, so
/// any of them links with any pixel shader.
pub proof fn vertex_shaders_output_the_varyings(
    vs: DxsoProgram,
    entry: Seq<char>,
    provided_mask: u16,
    texts: FloatTexts,
)
    ensures
        vs_source(vs, entry, provided_mask, texts) matches Ok(text) ==> contains_part(
            text,
            varyings_text(false),
        ),
{
    if let Ok(text) = vs_source(vs, entry, provided_mask, texts) {
        vertex_shaders_start_with_their_head(vs, entry, provided_mask, texts);
        let start = vs_head(vs, entry, provided_mask, texts);
        let before = preamble() + vertex_in_text(vs, provided_mask);
        let part = varyings_text(false);
        let rest = start.skip((before + part).len() as int);
        assert(start =~= before + part + rest);
        a_part_at_the_start(text, start, before, part, rest);
    }
}

/// Every pixel shader takes the structure that vertex shaders output, with the
/// colours interpolated or flat as the variant says.
pub proof fn pixel_shaders_take_the_varyings(
    ps: DxsoProgram,
    variant: VariantKey,
    entry: Seq<char>,
    texts: FloatTexts,
)
    ensures
        ps_source(ps, variant, entry, texts) matches Ok(text) ==> contains_part(
            text,
            varyings_text(variant.flags.has(VariantFlags::FLAT_SHADE)),
        ),
{
    if let Ok(text) = ps_source(ps, variant, entry, texts) {
        pixel_shaders_start_with_their_head(ps, variant, entry, texts);
        let start = ps_head(ps, variant, entry, texts);
        let before = preamble();
        let part = varyings_text(variant.flags.has(VariantFlags::FLAT_SHADE));
        let rest = start.skip((before + part).len() as int);
        assert(start =~= before + part + rest);
        a_part_at_the_start(text, start, before, part, rest);
    }
}

/// Fixed-function shaders have the same structure between the stages, so a
/// programmable stage and a fixed one link.
pub proof fn fixed_stages_have_the_varyings(
    vs: FfVsKey,
    vs_entry: Seq<char>,
    ps: FfPsKey,
    variant: VariantKey,
    ps_entry: Seq<char>,
)
    ensures
        contains_part(ff_vs_source(vs, vs_entry), varyings_text(false)),
        contains_part(
            ff_ps_source(ps, variant, ps_entry),
            varyings_text(variant.flags.has(VariantFlags::FLAT_SHADE)),
        ),
{
    let start = ff_vs_declarations(vs);
    every_text_starts_with_itself(start);
    appending_keeps_the_start(start, ff_vs_function(vs, vs_entry), start);
    let before = preamble() + ff_inputs(vs);
    let part = varyings_text(false);
    let tail = start.skip((before + part).len() as int);
    assert(start =~= before + part + tail);
    a_part_at_the_start(ff_vs_source(vs, vs_entry), start, before, part, tail);
    let head = ff_ps_declarations(variant);
    every_text_starts_with_itself(head);
    appending_keeps_the_start(head, ff_ps_function(ps, variant, ps_entry), head);
    let flat = varyings_text(variant.flags.has(VariantFlags::FLAT_SHADE));
    let rest = head.skip((preamble() + flat).len() as int);
    assert(head =~= preamble() + flat + rest);
    a_part_at_the_start(ff_ps_source(ps, variant, ps_entry), head, preamble(), flat, rest);
}

proof fn buffers_are_arguments(ps: DxsoProgram, variant: VariantKey, entry: Seq<char>)
    ensures
        variant.tests_alpha() ==> contains_part(
            ps_signature(ps, variant, entry),
            ",\n    constant float &alpha_ref [[buffer(14)]]"@,
        ),
        variant.blends_fog() ==> contains_part(
            ps_signature(ps, variant, entry),
            ",\n    constant float4 *fog_data [[buffer(13)]]"@,
        ),
        ps.bumps() ==> contains_part(
            ps_signature(ps, variant, entry),
            ",\n    constant float4 *bump_env [[buffer(12)]]"@,
        ),
{
    let text = ps_signature(ps, variant, entry);
    let start = signature_start(ps, entry);
    let alpha = text_if(
        variant.tests_alpha(),
        ",\n    constant float &alpha_ref [[buffer(14)]]"@,
    );
    let fog = text_if(
        variant.blends_fog(),
        ",\n    constant float4 *fog_data [[buffer(13)]]"@,
    );
    let bump = text_if(ps.bumps(), ",\n    constant float4 *bump_env [[buffer(12)]]"@);
    let after_alpha = text.skip((start + alpha).len() as int);
    let after_fog = text.skip((start + alpha + fog).len() as int);
    let after_bump = text.skip((start + alpha + fog + bump).len() as int);
    assert(text =~= start + alpha + after_alpha);
    assert(text =~= (start + alpha) + fog + after_fog);
    assert(text =~= (start + alpha + fog) + bump + after_bump);
    a_part_in_the_middle(start, alpha, after_alpha);
    a_part_in_the_middle(start + alpha, fog, after_fog);
    a_part_in_the_middle(start + alpha + fog, bump, after_bump);
}

/// A pixel shader declares each buffer that a draw with it binds: the alpha
/// reference where the variant tests alpha, the fog parameters where it blends
/// fog, and the bump matrices where an instruction of the program reads them.
pub proof fn pixel_shaders_declare_the_bound_buffers(
    ps: DxsoProgram,
    variant: VariantKey,
    entry: Seq<char>,
    texts: FloatTexts,
)
    ensures
        ps_source(ps, variant, entry, texts) matches Ok(text) ==> {
            &&& variant.tests_alpha() ==> contains_part(
                text,
                ",\n    constant float &alpha_ref [[buffer(14)]]"@,
            )
            &&& variant.blends_fog() ==> contains_part(
                text,
                ",\n    constant float4 *fog_data [[buffer(13)]]"@,
            )
            &&& ps.bumps() ==> contains_part(
                text,
                ",\n    constant float4 *bump_env [[buffer(12)]]"@,
            )
        },
{
    if let Ok(text) = ps_source(ps, variant, entry, texts) {
        let signature = ps_signature(ps, variant, entry);
        pixel_shaders_start_with_their_head(ps, variant, entry, texts);
        a_part_at_the_start(
            text,
            ps_head(ps, variant, entry, texts),
            ps_declarations(ps, variant, const_rel_text(ps, texts@)->Ok_0),
            signature,
            ps_locals(ps, float_locals(ps, ps.major == 1, texts@)->Ok_0),
        );
        buffers_are_arguments(ps, variant, entry);
        if variant.tests_alpha() {
            parts_compose(text, signature, ",\n    constant float &alpha_ref [[buffer(14)]]"@);
        }
        if variant.blends_fog() {
            parts_compose(text, signature, ",\n    constant float4 *fog_data [[buffer(13)]]"@);
        }
        if ps.bumps() {
            parts_compose(text, signature, ",\n    constant float4 *bump_env [[buffer(12)]]"@);
        }
    }
}

/// A vertex shader that reads, in its main body or in a subroutine, an integer
/// constant that it does not define declares the buffer that a draw binds for
/// it.
pub proof fn vertex_shaders_declare_the_bound_buffers(
    vs: DxsoProgram,
    entry: Seq<char>,
    provided_mask: u16,
    texts: FloatTexts,
)
    requires
        vs.reads_bound_ints(),
    ensures
        vs_source(vs, entry, provided_mask, texts) matches Ok(text) ==> contains_part(
            text,
            ",\n    constant int4 *vs_i [[buffer(14)]]"@,
        ),
{
    if let Ok(text) = vs_source(vs, entry, provided_mask, texts) {
        vertex_shaders_start_with_their_head(vs, entry, provided_mask, texts);
        let start = vs_head(vs, entry, provided_mask, texts);
        let before = preamble() + vertex_in_text(vs, provided_mask) + varyings_text(false)
            + const_rel_text(vs, texts@)->Ok_0 + "vertex Varyings "@ + entry + "(\n"@
            + "    VertexIn in [[stage_in]],\n"@
            + "    constant float4 *vs_c [[buffer(15)]],\n"@
            + "    constant float4 &pos_fixup [[buffer(13)]]"@;
        let part = ",\n    constant int4 *vs_i [[buffer(14)]]"@;
        let rest = start.skip((before + part).len() as int);
        assert(start =~= before + part + rest);
        a_part_at_the_start(text, start, before, part, rest);
    }
}

// ---------------------------------------------------------------------------
// Relative reads
// ---------------------------------------------------------------------------

/// Whether `helper` is the function that relative reads call: its head, and a
/// line for each constant that the program defines.
pub open spec fn is_const_rel_helper(
    helper: Seq<char>,
    prog: DxsoProgram,
    texts: Map<u32, Seq<char>>,
) -> bool {
    &&& starts_with(
        helper,
        "inline float4 mtld3d_const_rel(int idx, constant float4 *cb) {\n"@,
    )
    &&& forall|k: int|
        0 <= k < prog.def_constants.len() ==> contains_part(
            helper,
            const_case(#[trigger] prog.def_constants@[k], texts),
        )
}

proof fn every_constant_has_its_line(
    defs: Seq<DefConstant>,
    i: nat,
    texts: Map<u32, Seq<char>>,
    acc: Seq<char>,
)
    ensures
        defs_from(defs, i, "        case "@, ": return "@, false, texts, acc) matches Ok(lines)
            ==> starts_with(lines, acc) && forall|k: int|
            i <= k < defs.len() ==> contains_part(lines, const_case(#[trigger] defs[k], texts)),
    decreases defs.len() - i,
{
    every_text_starts_with_itself(acc);
    if i < defs.len() {
        let d = defs[i as int];
        if let Ok(v) = vector_text(d.value, false, texts) {
            let line = const_case(d, texts);
            let next = acc + "        case "@ + dec(d.reg.index as nat) + ": return "@ + v
                + ";\n"@;
            assert(next =~= acc + line);
            every_constant_has_its_line(defs, i + 1, texts, next);
            if let Ok(lines) = defs_from(
                defs,
                i,
                "        case "@,
                ": return "@,
                false,
                texts,
                acc,
            ) {
                appending_keeps_the_start(acc, line, acc);
                starts_compose(acc, next, lines);
                assert(next =~= acc + line + Seq::empty());
                a_part_at_the_start(lines, next, acc, line, Seq::empty());
            }
        }
    }
}

proof fn relative_reads_have_a_helper(prog: DxsoProgram, texts: Map<u32, Seq<char>>)
    requires
        prog.reads_relative(),
        prog.def_constants@.len() != 0,
    ensures
        const_rel_text(prog, texts) matches Ok(helper) ==> is_const_rel_helper(
            helper,
            prog,
            texts,
        ),
{
    if let Ok(helper) = const_rel_text(prog, texts) {
        let head = "inline float4 mtld3d_const_rel(int idx, constant float4 *cb) {\n"@;
        let open = "    switch (idx) {\n"@;
        let defs = prog.def_constants@;
        let cases = defs_from(
            defs,
            0,
            "        case "@,
            ": return "@,
            false,
            texts,
            Seq::empty(),
        )->Ok_0;
        every_constant_has_its_line(defs, 0, texts, Seq::empty());
        let tail = helper.skip((head + open + cases).len() as int);
        assert(helper =~= head + open + cases + tail);
        assert(helper.take(head.len() as int) =~= head);
        a_part_in_the_middle(head + open, cases, tail);
        assert forall|k: int| 0 <= k < prog.def_constants.len() implies contains_part(
            helper,
            const_case(#[trigger] prog.def_constants@[k], texts),
        ) by {
            parts_compose(helper, cases, const_case(defs[k], texts));
        }
    }
}

proof fn operands_that_call_read_relative(
    prog: DxsoProgram,
    body: Seq<Instruction>,
    i: int,
    j: int,
)
    requires
        prog.has_body(body),
        0 <= i < body.len(),
        0 <= j < body[i].srcs.len(),
        calls_const_rel(body[i].srcs@[j], prog),
    ensures
        prog.reads_relative(),
{
    assert(source_before(body, i, j, body.len() as int, 0));
    assert(body_reads_relative(body));
}

/// Where an operand of the main body or of a subroutine is read through the
/// helper for relative addresses, a translated vertex shader defines the helper,
/// with every constant of the program in it, ahead of the function that holds
/// the calls.
pub proof fn vertex_shaders_define_the_helper_they_call(
    vs: DxsoProgram,
    entry: Seq<char>,
    provided_mask: u16,
    texts: FloatTexts,
    body: Seq<Instruction>,
    i: int,
    j: int,
)
    requires
        vs.has_body(body),
        0 <= i < body.len(),
        0 <= j < body[i].srcs.len(),
        calls_const_rel(body[i].srcs@[j], vs),
    ensures
        vs_source(vs, entry, provided_mask, texts) matches Ok(text) ==> exists|helper: Seq<char>| {
            &&& #[trigger] is_const_rel_helper(helper, vs, texts@)
            &&& starts_with(
                text,
                preamble() + vertex_in_text(vs, provided_mask) + varyings_text(false) + helper
                    + "vertex Varyings "@ + entry + "(\n"@,
            )
        },
{
    operands_that_call_read_relative(vs, body, i, j);
    relative_reads_have_a_helper(vs, texts@);
    if let Ok(text) = vs_source(vs, entry, provided_mask, texts) {
        let helper = const_rel_text(vs, texts@)->Ok_0;
        vertex_shaders_start_with_their_head(vs, entry, provided_mask, texts);
        let head = vs_head(vs, entry, provided_mask, texts);
        let start = preamble() + vertex_in_text(vs, provided_mask) + varyings_text(false) + helper
            + "vertex Varyings "@ + entry + "(\n"@;
        assert(head.take(start.len() as int) =~= start);
        starts_compose(start, head, text);
        assert(is_const_rel_helper(helper, vs, texts@));
    }
}

proof fn a_start_behind_a_text(before: Seq<char>, text: Seq<char>, start: Seq<char>)
    requires
        starts_with(text, start),
    ensures
        starts_with(before + text, before + start),
{
    let n = (before + start).len() as int;
    assert forall|k: int| 0 <= k < n implies (before + text)[k] == (before + start)[k] by {
        if k >= before.len() {
            assert(text.take(start.len() as int)[k - before.len()] == start[k - before.len()]);
        }
    }
    assert((before + text).take(n) =~= before + start);
}

proof fn signatures_have_their_start(ps: DxsoProgram, variant: VariantKey, entry: Seq<char>)
    ensures
        starts_with(ps_signature(ps, variant, entry), signature_start(ps, entry)),
{
    let text = ps_signature(ps, variant, entry);
    let start = signature_start(ps, entry);
    assert(text.take(start.len() as int) =~= start);
}

proof fn declarations_have_the_helper(ps: DxsoProgram, variant: VariantKey, helper: Seq<char>)
    ensures
        contains_part(ps_declarations(ps, variant, helper), helper),
{
    let text = ps_declarations(ps, variant, helper);
    let before = preamble() + varyings_text(variant.flags.has(VariantFlags::FLAT_SHADE));
    let rest = text.skip((before + helper).len() as int);
    assert(text =~= before + helper + rest);
    a_part_in_the_middle(before, helper, rest);
}

/// Where an operand of the main body or of a subroutine is read through the
/// helper for relative addresses, a translated pixel shader defines the helper,
/// with every constant of the program in it, ahead of the function that holds
/// the calls.
pub proof fn pixel_shaders_define_the_helper_they_call(
    ps: DxsoProgram,
    variant: VariantKey,
    entry: Seq<char>,
    texts: FloatTexts,
    body: Seq<Instruction>,
    i: int,
    j: int,
)
    requires
        ps.has_body(body),
        0 <= i < body.len(),
        0 <= j < body[i].srcs.len(),
        calls_const_rel(body[i].srcs@[j], ps),
    ensures
        ps_source(ps, variant, entry, texts) matches Ok(text) ==> exists|helper: Seq<char>| {
            &&& #[trigger] is_const_rel_helper(helper, ps, texts@)
            &&& contains_part(ps_declarations(ps, variant, helper), helper)
            &&& starts_with(
                text,
                ps_declarations(ps, variant, helper) + signature_start(ps, entry),
            )
        },
{
    operands_that_call_read_relative(ps, body, i, j);
    relative_reads_have_a_helper(ps, texts@);
    if let Ok(text) = ps_source(ps, variant, entry, texts) {
        let helper = const_rel_text(ps, texts@)->Ok_0;
        pixel_shaders_start_with_their_head(ps, variant, entry, texts);
        signatures_have_their_start(ps, variant, entry);
        let start = ps_declarations(ps, variant, helper) + signature_start(ps, entry);
        a_start_behind_a_text(
            ps_declarations(ps, variant, helper),
            ps_signature(ps, variant, entry),
            signature_start(ps, entry),
        );
        appending_keeps_the_start(
            ps_declarations(ps, variant, helper) + ps_signature(ps, variant, entry),
            ps_locals(ps, float_locals(ps, ps.major == 1, texts@)->Ok_0),
            start,
        );
        starts_compose(start, ps_head(ps, variant, entry, texts), text);
        declarations_have_the_helper(ps, variant, helper);
        assert(is_const_rel_helper(helper, ps, texts@));
    }
}

// ---------------------------------------------------------------------------
// Refusals
// ---------------------------------------------------------------------------

/// An instruction whose opcode only shapes the stream has no statement, and a
/// predicated `break` needs its predicate: both are refused by name.
pub proof fn unlowered_instructions_are_refused(
    inst: Instruction,
    ctx: EmitContext,
    expanding: Seq<u32>,
    st: LowerState,
)
    requires
        inst.srcs@.len() == 0,
        unlowered_name(inst.opcode) is Some || (inst.opcode == Opcode::BreakP && inst.predicate
            is None),
    ensures
        lowered(inst, ctx, expanding, st) matches Err(EmitFailure::UnsupportedInstruction(_)),
{
}

} // verus!
