//! What holds of every texture cascade.

use crate::d3d::{
    D3DTA_ALPHAREPLICATE, D3DTA_COMPLEMENT, D3DTA_CURRENT, D3DTA_SELECTMASK, D3DTOP_SELECTARG1,
};
use crate::dxso::emit::variant::VariantKey;
use crate::dxso::ff::key::{FfPsKey, FfStage};
use crate::dxso::ff::pixel::{
    arg_text, combine_text, ff_ps_source, stages_from, texture_args_from,
};
use vstd::prelude::*;

verus! {

/// A stage whose colour operation needs a texture that is not bound keeps the
/// colour: it is the stage that selects the result so far. Its alpha operation
/// applies as ever.
pub proof fn unbound_colors_keep_the_result(stage: FfStage, i: nat)
    requires
        !stage.has_color(),
    ensures
        combine_text(stage, i) == combine_text(
            (FfStage {
                color_op: D3DTOP_SELECTARG1 as u8,
                color_arg1: D3DTA_CURRENT as u8,
                ..stage
            }),
            i,
        ),
{
    let current: u8 = D3DTA_CURRENT as u8;
    assert(1u8 as u32 & 15u32 == 1 && 1u8 as u32 & 32u32 == 0 && 1u8 as u32 & 16u32 == 0)
        by (bit_vector);
    assert(current as u32 & D3DTA_SELECTMASK == D3DTA_CURRENT);
    assert(current as u32 & D3DTA_ALPHAREPLICATE == 0);
    assert(current as u32 & D3DTA_COMPLEMENT == 0);
    assert(arg_text(current, i) == "current"@);
}

/// A dot product gives all channels of its stage, whatever the alpha operation
/// is.
pub proof fn dot_products_ignore_alpha(stage: FfStage, other: FfStage, i: nat)
    requires
        stage.is_dot(),
        other == (FfStage {
            alpha_op: other.alpha_op,
            alpha_arg1: other.alpha_arg1,
            alpha_arg2: other.alpha_arg2,
            ..stage
        }),
    ensures
        combine_text(stage, i) == combine_text(other, i),
{
}

proof fn equal_stages_have_equal_texts(
    a: FfPsKey,
    b: FfPsKey,
    variant: VariantKey,
    i: nat,
    n: nat,
    args: Seq<char>,
    stmts: Seq<char>,
)
    requires
        n <= 8,
        a.tt_projected_mask == b.tt_projected_mask,
        forall|k: int| 0 <= k < n ==> (#[trigger] a.stages[k]) == b.stages[k],
    ensures
        texture_args_from(a, variant, i, n, args) == texture_args_from(b, variant, i, n, args),
        stages_from(a, variant, i, n, stmts) == stages_from(b, variant, i, n, stmts),
    decreases n - i,
{
    if i < n {
        assert(a.stages[i as int] == b.stages[i as int]);
        let (more_args, more_stmts) = (
            texture_args_from(a, variant, i, i + 1, args),
            stages_from(a, variant, i, i + 1, stmts),
        );
        reveal_with_fuel(texture_args_from, 2);
        reveal_with_fuel(stages_from, 2);
        equal_stages_have_equal_texts(a, b, variant, i + 1, n, more_args, more_stmts);
    }
}

/// The stages from the first disabled one on do not matter: keys that agree
/// before it have the same shader.
pub proof fn disabled_stages_do_not_matter(
    a: FfPsKey,
    b: FfPsKey,
    variant: VariantKey,
    entry: Seq<char>,
)
    requires
        a.active() == b.active(),
        forall|k: int| 0 <= k < a.active() ==> (#[trigger] a.stages[k]) == b.stages[k],
        a.specular_add == b.specular_add,
        a.tt_projected_mask == b.tt_projected_mask,
    ensures
        ff_ps_source(a, variant, entry) == ff_ps_source(b, variant, entry),
{
    a.at_most_eight_are_active();
    equal_stages_have_equal_texts(a, b, variant, 0, a.active(), ""@, ""@);
    if a.temporary() {
        let k = choose|k: int| 0 <= k < a.active() && (#[trigger] a.stages[k]).uses_temp();
        assert(b.stages[k].uses_temp());
    }
    if b.temporary() {
        let k = choose|k: int| 0 <= k < b.active() && (#[trigger] b.stages[k]).uses_temp();
        assert(a.stages[k] == b.stages[k]);
    }
}

} // verus!
