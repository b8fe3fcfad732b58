//! Fixed-function pixel shaders.

use crate::d3d::{
    D3DTA_ALPHAREPLICATE, D3DTA_COMPLEMENT, D3DTA_CONSTANT, D3DTA_DIFFUSE, D3DTA_SELECTMASK,
    D3DTA_SPECULAR, D3DTA_TEMP, D3DTA_TEXTURE, D3DTA_TFACTOR, D3DTOP_ADD, D3DTOP_ADDSIGNED,
    D3DTOP_ADDSIGNED2X, D3DTOP_ADDSMOOTH, D3DTOP_BLENDCURRENTALPHA, D3DTOP_BLENDDIFFUSEALPHA,
    D3DTOP_BLENDFACTORALPHA, D3DTOP_BLENDTEXTUREALPHA, D3DTOP_BLENDTEXTUREALPHAPM, D3DTOP_DISABLE,
    D3DTOP_DOTPRODUCT3, D3DTOP_MODULATE, D3DTOP_MODULATE2X, D3DTOP_MODULATE4X,
    D3DTOP_MODULATEALPHA_ADDCOLOR, D3DTOP_MODULATECOLOR_ADDALPHA,
    D3DTOP_MODULATEINVALPHA_ADDCOLOR, D3DTOP_MODULATEINVCOLOR_ADDALPHA, D3DTOP_SELECTARG2,
    D3DTOP_SUBTRACT,
};
use crate::dxso::emit::common::{
    alpha_text, emit_alpha_test, emit_srgb_write_helper, emit_varyings, fog_text, preamble,
    srgb_helper_text, varyings_text, write_fog_blend,
};
use crate::dxso::emit::context::{mask_bit, test_mask_bit};
use crate::dxso::emit::pixel::{text_if, DEFAULT_PS_ENTRY};
use crate::dxso::emit::variant::{fog_blend_active, VariantFlags, VariantKey};
use crate::dxso::ff::key::{FfPsKey, FfStage, FfStageResult};
use crate::text::{dec, decimal};
use vstd::prelude::*;

verus! {

/// The buffer that holds the bias of each sampler.
pub const PS_LOD_BIAS_SLOT: u32 = 11;

// ---------------------------------------------------------------------------
// What a stage reads
// ---------------------------------------------------------------------------

/// Whether an argument names `register`.
pub open spec fn names(arg: u8, register: u32) -> bool {
    arg as u32 & D3DTA_SELECTMASK == register
}

/// Whether an operation reads its first argument.
pub open spec fn reads_first(op: u8) -> bool {
    op != D3DTOP_SELECTARG2
}

/// Whether an operation reads its second argument. An unknown operation gives
/// its first one.
pub open spec fn reads_second(op: u8) -> bool {
    D3DTOP_SELECTARG2 <= op <= D3DTOP_BLENDCURRENTALPHA || D3DTOP_MODULATEALPHA_ADDCOLOR <= op
        <= D3DTOP_MODULATEINVCOLOR_ADDALPHA || op == D3DTOP_DOTPRODUCT3
}

/// Whether an operation takes `register` as an argument.
pub open spec fn takes(op: u8, arg1: u8, arg2: u8, register: u32) -> bool {
    reads_first(op) && names(arg1, register) || reads_second(op) && names(arg2, register)
}

/// Whether an operation needs a texture that is not there. The premultiplied
/// blend does without: a missing texture has no alpha.
pub open spec fn is_unbound(op: u8, arg1: u8, arg2: u8, textured: bool) -> bool {
    !textured && (takes(op, arg1, arg2, D3DTA_TEXTURE) || op == D3DTOP_BLENDTEXTUREALPHA)
}

impl FfStage {
    /// Whether the colour operation applies, instead of keeping the colour.
    pub open spec fn has_color(self) -> bool {
        !is_unbound(self.color_op, self.color_arg1, self.color_arg2, self.textured())
    }

    /// Whether the stage is a dot product, which gives all four channels.
    pub open spec fn is_dot(self) -> bool {
        self.color_op == D3DTOP_DOTPRODUCT3 && self.has_color()
    }

    /// Whether the alpha operation applies.
    pub open spec fn has_alpha(self) -> bool {
        !self.is_dot() && !is_unbound(
            self.alpha_op,
            self.alpha_arg1,
            self.alpha_arg2,
            self.textured(),
        )
    }

    /// Whether an operation that applies reads `register`.
    pub open spec fn reads(self, register: u32) -> bool {
        ||| self.has_color() && takes(self.color_op, self.color_arg1, self.color_arg2, register)
        ||| self.has_alpha() && takes(self.alpha_op, self.alpha_arg1, self.alpha_arg2, register)
    }

    /// Whether an operation names the texture factor, applied or not.
    pub open spec fn names_factor(self) -> bool {
        ||| takes(self.color_op, self.color_arg1, self.color_arg2, D3DTA_TFACTOR)
        ||| takes(self.alpha_op, self.alpha_arg1, self.alpha_arg2, D3DTA_TFACTOR)
        ||| self.color_op == D3DTOP_BLENDFACTORALPHA
        ||| self.alpha_op == D3DTOP_BLENDFACTORALPHA
    }

    /// Whether the stage touches the temporary register.
    pub open spec fn uses_temp(self) -> bool {
        self.destination() == FfStageResult::Temp || self.reads(D3DTA_TEMP)
    }

    fn color_applies(&self) -> (r: bool)
        ensures
            r == self.has_color(),
    {
        !lacks_texture(self.color_op, self.color_arg1, self.color_arg2, self.has_texture())
    }

    fn is_dot_product(&self) -> (r: bool)
        ensures
            r == self.is_dot(),
    {
        self.color_op as u32 == D3DTOP_DOTPRODUCT3 && self.color_applies()
    }

    fn alpha_applies(&self) -> (r: bool)
        ensures
            r == self.has_alpha(),
    {
        !self.is_dot_product() && !lacks_texture(
            self.alpha_op,
            self.alpha_arg1,
            self.alpha_arg2,
            self.has_texture(),
        )
    }

    /// Whether an operation that applies reads `register`.
    pub fn reads_argument(&self, register: u32) -> (r: bool)
        ensures
            r == self.reads(register),
    {
        self.color_applies() && takes_argument(
            self.color_op,
            self.color_arg1,
            self.color_arg2,
            register,
        ) || self.alpha_applies() && takes_argument(
            self.alpha_op,
            self.alpha_arg1,
            self.alpha_arg2,
            register,
        )
    }

    fn mentions_factor(&self) -> (r: bool)
        ensures
            r == self.names_factor(),
    {
        takes_argument(self.color_op, self.color_arg1, self.color_arg2, D3DTA_TFACTOR)
            || takes_argument(self.alpha_op, self.alpha_arg1, self.alpha_arg2, D3DTA_TFACTOR)
            || self.color_op as u32 == D3DTOP_BLENDFACTORALPHA || self.alpha_op as u32
            == D3DTOP_BLENDFACTORALPHA
    }

    fn touches_temp(&self) -> (r: bool)
        ensures
            r == self.uses_temp(),
    {
        self.result() == FfStageResult::Temp || self.reads_argument(D3DTA_TEMP)
    }
}

fn takes_argument(op: u8, arg1: u8, arg2: u8, register: u32) -> (r: bool)
    ensures
        r == takes(op, arg1, arg2, register),
{
    let o: u32 = op as u32;
    let first: bool = o != D3DTOP_SELECTARG2;
    let second: bool = D3DTOP_SELECTARG2 <= o && o <= D3DTOP_BLENDCURRENTALPHA
        || D3DTOP_MODULATEALPHA_ADDCOLOR <= o && o <= D3DTOP_MODULATEINVCOLOR_ADDALPHA || o
        == D3DTOP_DOTPRODUCT3;
    first && arg1 as u32 & D3DTA_SELECTMASK == register || second && arg2 as u32 & D3DTA_SELECTMASK
        == register
}

fn lacks_texture(op: u8, arg1: u8, arg2: u8, textured: bool) -> (r: bool)
    ensures
        r == is_unbound(op, arg1, arg2, textured),
{
    !textured && (takes_argument(op, arg1, arg2, D3DTA_TEXTURE) || op as u32
        == D3DTOP_BLENDTEXTUREALPHA)
}

// ---------------------------------------------------------------------------
// What the cascade reads
// ---------------------------------------------------------------------------

/// The number of stages before the first whose colour operation is disabled.
pub open spec fn active_stages(stages: Seq<FfStage>) -> nat
    decreases stages.len(),
{
    if stages.len() == 0 || stages[0].color_op == D3DTOP_DISABLE {
        0
    } else {
        1 + active_stages(stages.skip(1))
    }
}

proof fn active_stages_are_stages(stages: Seq<FfStage>)
    ensures
        active_stages(stages) <= stages.len(),
    decreases stages.len(),
{
    if stages.len() > 0 {
        active_stages_are_stages(stages.skip(1));
    }
}

impl FfPsKey {
    /// The stages that run.
    pub open spec fn active(self) -> nat {
        active_stages(self.stages@)
    }

    /// Whether a stage that runs names the texture factor.
    pub open spec fn factored(self) -> bool {
        exists|i: int| 0 <= i < self.active() && (#[trigger] self.stages[i]).names_factor()
    }

    /// Whether a stage that runs touches the temporary register.
    pub open spec fn temporary(self) -> bool {
        exists|i: int| 0 <= i < self.active() && (#[trigger] self.stages[i]).uses_temp()
    }

    /// No more stages run than there are.
    pub proof fn at_most_eight_are_active(self)
        ensures
            self.active() <= 8,
    {
        active_stages_are_stages(self.stages@);
    }

    fn active_count(&self) -> (r: usize)
        ensures
            r <= 8,
            r == self.active(),
    {
        let mut i: usize = 0;
        assert(self.stages@.skip(0) =~= self.stages@);
        while i < 8 && self.stages[i].color_op as u32 != D3DTOP_DISABLE
            invariant
                i <= 8,
                self.stages@.len() == 8,
                self.active() == i + active_stages(self.stages@.skip(i as int)),
            decreases 8 - i,
        {
            assert(self.stages@.skip(i as int).skip(1) =~= self.stages@.skip(i + 1));
            i = i + 1;
        }
        i
    }

    /// The stages that sample a texture, one bit each.
    pub fn sampled_stage_mask(&self) -> (r: u8)
        ensures
            forall|i: u16|
                i < 8 ==> #[trigger] mask_bit(r as u16, i) == (i < self.active()
                    && self.stages[i as int].textured()),
    {
        let n: usize = self.active_count();
        let mut mask: u8 = 0;
        let mut i: usize = 0;
        assert forall|k: u16| k < 8 implies !#[trigger] mask_bit(0, k) by {
            assert(k < 16 ==> 0u16 & (1u16 << k) == 0) by (bit_vector);
        }
        while i < n
            invariant
                i <= n <= 8,
                n == self.active(),
                forall|k: u16|
                    k < 8 ==> #[trigger] mask_bit(mask as u16, k) == (k < i
                        && self.stages[k as int].textured()),
            decreases n - i,
        {
            if self.stages[i].has_texture() {
                let (old_mask, shift): (u8, u8) = (mask, i as u8);
                mask = old_mask | (1u8 << shift);
                assert forall|k: u16| k < 8 implies #[trigger] mask_bit(mask as u16, k) == (
                mask_bit(old_mask as u16, k) || k == shift) by {
                    assert(k < 8 && shift < 8 ==> (((((old_mask | (1u8 << shift)) as u16) & (1u16
                        << k)) != 0) == (((old_mask as u16) & (1u16 << k)) != 0 || k == shift)))
                        by (bit_vector);
                }
            }
            i = i + 1;
        }
        mask
    }

    /// Whether the shader may read the texture factor. A stage that names it
    /// counts, also where its operation does not apply.
    pub fn reads_texture_factor(&self) -> (r: bool)
        ensures
            r == self.factored(),
    {
        let n: usize = self.active_count();
        let mut i: usize = 0;
        while i < n
            invariant
                i <= n <= 8,
                n == self.active(),
                forall|k: int| 0 <= k < i ==> !(#[trigger] self.stages[k]).names_factor(),
            decreases n - i,
        {
            if self.stages[i].mentions_factor() {
                assert(self.stages[i as int].names_factor());
                return true;
            }
            i = i + 1;
        }
        false
    }

    /// The rows of constants that the shader reads: the texture factor is in
    /// the first, the constant of each stage in the row after that of the stage
    /// before.
    pub fn constant_rows(&self) -> (r: u32)
        ensures
            forall|i: int|
                0 <= i < self.active() && (#[trigger] self.stages[i]).reads(D3DTA_CONSTANT) ==> i
                    + 2 <= r,
            r > 1 ==> r - 2 < self.active() && self.stages[r - 2].reads(D3DTA_CONSTANT),
            self.factored() ==> r >= 1,
            r == 1 ==> self.factored(),
    {
        let mut n: usize = self.active_count();
        while n > 0
            invariant
                n <= self.active() <= 8,
                forall|k: int|
                    n <= k < self.active() ==> !(#[trigger] self.stages[k]).reads(D3DTA_CONSTANT),
            decreases n,
        {
            if self.stages[n - 1].reads_argument(D3DTA_CONSTANT) {
                return n as u32 + 1;
            }
            n = n - 1;
        }
        if self.reads_texture_factor() {
            1
        } else {
            0
        }
    }

    fn needs_temp(&self, n: usize) -> (r: bool)
        requires
            n == self.active(),
            n <= 8,
        ensures
            r == self.temporary(),
    {
        let mut i: usize = 0;
        while i < n
            invariant
                i <= n <= 8,
                n == self.active(),
                forall|k: int| 0 <= k < i ==> !(#[trigger] self.stages[k]).uses_temp(),
            decreases n - i,
        {
            if self.stages[i].touches_temp() {
                assert(self.stages[i as int].uses_temp());
                return true;
            }
            i = i + 1;
        }
        false
    }
}

// ---------------------------------------------------------------------------
// Operations
// ---------------------------------------------------------------------------

/// The texture that a stage samples.
pub open spec fn texel(stage: nat) -> Seq<char> {
    "t"@ + dec(stage)
}

/// The register that an argument reads. A register without a counterpart reads
/// the result so far.
pub open spec fn arg_register(arg: u8, stage: nat) -> Seq<char> {
    if names(arg, D3DTA_DIFFUSE) {
        "in.color0"@
    } else if names(arg, D3DTA_TEXTURE) {
        texel(stage)
    } else if names(arg, D3DTA_TFACTOR) {
        "ps_c[0]"@
    } else if names(arg, D3DTA_SPECULAR) {
        "in.color1"@
    } else if names(arg, D3DTA_TEMP) {
        "temp"@
    } else if names(arg, D3DTA_CONSTANT) {
        "ps_c["@ + dec(stage + 1) + "]"@
    } else {
        "current"@
    }
}

/// The expression of an argument, with its modifiers: the alpha in all channels,
/// and the complement.
pub open spec fn arg_text(arg: u8, stage: nat) -> Seq<char> {
    let spread = if arg as u32 & D3DTA_ALPHAREPLICATE != 0 {
        arg_register(arg, stage) + ".aaaa"@
    } else {
        arg_register(arg, stage)
    };
    if arg as u32 & D3DTA_COMPLEMENT != 0 {
        "(1.0 - "@ + spread + ")"@
    } else {
        spread
    }
}

/// The result of an operation on two arguments; the first one, where the
/// operation is unknown.
pub open spec fn op_text(
    op: u8,
    a: Seq<char>,
    b: Seq<char>,
    stage: nat,
    textured: bool,
) -> Seq<char> {
    match op as u32 {
        D3DTOP_SELECTARG2 => b,
        D3DTOP_MODULATE => "("@ + a + " * "@ + b + ")"@,
        D3DTOP_MODULATE2X => "saturate(2.0 * "@ + a + " * "@ + b + ")"@,
        D3DTOP_MODULATE4X => "saturate(4.0 * "@ + a + " * "@ + b + ")"@,
        D3DTOP_ADD => "saturate("@ + a + " + "@ + b + ")"@,
        D3DTOP_ADDSIGNED => "saturate("@ + a + " + "@ + b + " - 0.5)"@,
        D3DTOP_ADDSIGNED2X => "saturate(2.0 * ("@ + a + " + "@ + b + " - 0.5))"@,
        D3DTOP_SUBTRACT => "saturate("@ + a + " - "@ + b + ")"@,
        D3DTOP_ADDSMOOTH => "saturate("@ + a + " + "@ + b + " - "@ + a + " * "@ + b + ")"@,
        D3DTOP_BLENDDIFFUSEALPHA => "mix("@ + b + ", "@ + a + ", in.color0.a)"@,
        D3DTOP_BLENDTEXTUREALPHA => "mix("@ + b + ", "@ + a + ", "@ + texel(stage) + ".a)"@,
        D3DTOP_BLENDFACTORALPHA => "mix("@ + b + ", "@ + a + ", ps_c[0].a)"@,
        D3DTOP_BLENDTEXTUREALPHAPM => if textured {
            "saturate("@ + a + " + "@ + b + " * (1.0 - "@ + texel(stage) + ".a))"@
        } else {
            "saturate("@ + a + " + "@ + b + ")"@
        },
        D3DTOP_BLENDCURRENTALPHA => "mix("@ + b + ", "@ + a + ", current.a)"@,
        D3DTOP_MODULATEALPHA_ADDCOLOR => "saturate("@ + a + " + ("@ + a + ").a * "@ + b + ")"@,
        D3DTOP_MODULATECOLOR_ADDALPHA => "saturate("@ + a + " * "@ + b + " + ("@ + a + ").a)"@,
        D3DTOP_MODULATEINVALPHA_ADDCOLOR => "saturate((1.0 - ("@ + a + ").a) * "@ + b + " + "@
            + a + ")"@,
        D3DTOP_MODULATEINVCOLOR_ADDALPHA => "saturate((1.0 - "@ + a + ") * "@ + b + " + ("@ + a
            + ").a)"@,
        D3DTOP_DOTPRODUCT3 => "float4(saturate(4.0 * dot(("@ + a + ").rgb - 0.5, ("@ + b
            + ").rgb - 0.5)))"@,
        _ => a,
    }
}

/// The value of an operation. One that lacks its texture keeps the result so far.
pub open spec fn channel_text(op: u8, arg1: u8, arg2: u8, stage: nat, textured: bool) -> Seq<
    char,
> {
    if is_unbound(op, arg1, arg2, textured) {
        "current"@
    } else {
        op_text(op, arg_text(arg1, stage), arg_text(arg2, stage), stage, textured)
    }
}

/// The register that a stage writes.
pub open spec fn result_register(stage: FfStage) -> Seq<char> {
    match stage.destination() {
        FfStageResult::Current => "current"@,
        FfStageResult::Temp => "temp"@,
    }
}

/// The statement that writes the result of stage `i`, both channels at once.
pub open spec fn combine_text(stage: FfStage, i: nat) -> Seq<char> {
    let color = channel_text(
        stage.color_op,
        stage.color_arg1,
        stage.color_arg2,
        i,
        stage.textured(),
    );
    let alpha = channel_text(
        stage.alpha_op,
        stage.alpha_arg1,
        stage.alpha_arg2,
        i,
        stage.textured(),
    );
    if stage.is_dot() {
        "    "@ + result_register(stage) + " = "@ + color + ";\n"@
    } else {
        "    "@ + result_register(stage) + " = float4(("@ + color + ").rgb, ("@ + alpha
            + ").a);\n"@
    }
}

// ---------------------------------------------------------------------------
// Samples
// ---------------------------------------------------------------------------

/// How a stage samples its texture.
pub enum SampleKind {
    Plain,
    Volume,
    Cube,
    Compare,
    RawDepth,
}

/// How the texture at `stage` is sampled.
pub open spec fn sample_kind(variant: VariantKey, stage: u16) -> SampleKind {
    if mask_bit(variant.depth_sampler_mask, stage) {
        if mask_bit(variant.depth_fetch_mask, stage) {
            SampleKind::RawDepth
        } else {
            SampleKind::Compare
        }
    } else if mask_bit(variant.cube_sampler_mask, stage) {
        SampleKind::Cube
    } else if mask_bit(variant.volume_sampler_mask, stage) {
        SampleKind::Volume
    } else {
        SampleKind::Plain
    }
}

/// The Metal type of a texture.
pub open spec fn texture_type(kind: SampleKind) -> Seq<char> {
    match kind {
        SampleKind::Plain => "texture2d<float>"@,
        SampleKind::Volume => "texture3d<float>"@,
        SampleKind::Cube => "texturecube<float>"@,
        _ => "depth2d<float>"@,
    }
}

/// The coordinate of a stage, with the given lanes, divided where the stage
/// projects. A zero divisor gives the origin.
pub open spec fn coord_text(
    stage: nat,
    projected: bool,
    lanes: Seq<char>,
    origin: Seq<char>,
) -> Seq<char> {
    let c = "in.texcoord"@ + dec(stage);
    if projected {
        "("@ + c + ".w != 0.0 ? "@ + c + "."@ + lanes + " / "@ + c + ".w : "@ + origin + ")"@
    } else {
        c + "."@ + lanes
    }
}

/// The sample of the texture at `stage`. A depth texture has one level, and the
/// direction into a cube needs no divisor.
pub open spec fn stage_sample(kind: SampleKind, stage: nat, projected: bool, biased: bool) -> Seq<
    char,
> {
    let n = dec(stage);
    let lod = ", bias(lod_bias["@ + n + "].x)"@;
    let bias = text_if(biased, lod);
    match kind {
        SampleKind::Plain => {
            let at = coord_text(stage, projected, "xy"@, "float2(0.0)"@);
            "s"@ + n + ".sample(samp"@ + n + ", "@ + at + bias + ")"@
        },
        SampleKind::Volume => {
            let at = coord_text(stage, projected, "xyz"@, "float3(0.0)"@);
            "s"@ + n + ".sample(samp"@ + n + ", "@ + at + bias + ")"@
        },
        SampleKind::Cube => {
            let at = coord_text(stage, false, "xyz"@, "float3(0.0)"@);
            "s"@ + n + ".sample(samp"@ + n + ", "@ + at + bias + ")"@
        },
        SampleKind::Compare => {
            let at = coord_text(stage, projected, "xy"@, "float2(0.0)"@);
            let depth = coord_text(stage, projected, "z"@, "0.0"@);
            "float4(s"@ + n + ".sample_compare(samp"@ + n + ", "@ + at + ", saturate("@ + depth
                + "), level(0)))"@
        },
        SampleKind::RawDepth => {
            let at = coord_text(stage, projected, "xy"@, "float2(0.0)"@);
            "float4(s"@ + n + ".sample(samp"@ + n + ", "@ + at + ", level(0)))"@
        },
    }
}

/// The statements of stage `i`: the sample, then the operations.
pub open spec fn stage_text(key: FfPsKey, variant: VariantKey, i: nat) -> Seq<char> {
    let stage = key.stages[i as int];
    let projected = mask_bit(key.tt_projected_mask as u16, i as u16);
    let biased = variant.flags.has(VariantFlags::LOD_BIAS);
    let sample = stage_sample(sample_kind(variant, i as u16), i, projected, biased);
    let texture = "    float4 "@ + texel(i) + " = "@ + sample + ";\n"@;
    text_if(stage.textured(), texture) + combine_text(stage, i)
}

/// The statements of the stages from `i` up to `n`, after `acc`.
pub open spec fn stages_from(
    key: FfPsKey,
    variant: VariantKey,
    i: nat,
    n: nat,
    acc: Seq<char>,
) -> Seq<char>
    decreases n - i,
{
    if i >= n {
        acc
    } else {
        stages_from(key, variant, i + 1, n, acc + stage_text(key, variant, i))
    }
}

/// The texture arguments of the stages from `i` up to `n`, after `acc`.
pub open spec fn texture_args_from(
    key: FfPsKey,
    variant: VariantKey,
    i: nat,
    n: nat,
    acc: Seq<char>,
) -> Seq<char>
    decreases n - i,
{
    if i >= n {
        acc
    } else {
        let d = dec(i);
        let ty = texture_type(sample_kind(variant, i as u16));
        let args = ",\n    "@ + ty + " s"@ + d + " [[texture("@ + d + ")]],\n    sampler samp"@
            + d + " [[sampler("@ + d + ")]]"@;
        texture_args_from(
            key,
            variant,
            i + 1,
            n,
            acc + text_if(key.stages[i as int].textured(), args),
        )
    }
}

// ---------------------------------------------------------------------------
// The shader
// ---------------------------------------------------------------------------

/// Everything before the function. A shader that masks samples returns a
/// structure.
pub open spec fn ff_ps_declarations(variant: VariantKey) -> Seq<char> {
    let srgb = variant.flags.has(VariantFlags::SRGB_WRITE);
    let flat = variant.flags.has(VariantFlags::FLAT_SHADE);
    let masks = variant.flags.has(VariantFlags::SAMPLE_MASK);
    preamble() + varyings_text(flat) + text_if(srgb, srgb_helper_text()) + text_if(
        masks,
        "struct FfPsOut {\n"@ + "    float4 oC0 [[color(0)]];\n"@
            + "    uint oMask [[sample_mask]];\n"@ + "};\n\n"@,
    )
}

/// The function.
pub open spec fn ff_ps_function(key: FfPsKey, variant: VariantKey, entry: Seq<char>) -> Seq<char> {
    let n = key.active();
    let srgb = variant.flags.has(VariantFlags::SRGB_WRITE);
    let masks = variant.flags.has(VariantFlags::SAMPLE_MASK);
    let output = if masks {
        "fragment FfPsOut "@
    } else {
        "fragment float4 "@
    };
    let result = if masks {
        "    return FfPsOut { oC0, "@ + dec(variant.sample_mask as nat) + "u };\n"@
    } else {
        "    return oC0;\n"@
    };
    let alpha = text_if(
        variant.tests_alpha(),
        ",\n    constant float &alpha_ref [[buffer(14)]]"@,
    );
    let fog = text_if(
        variant.blends_fog(),
        ",\n    constant float4 *fog_data [[buffer(13)]]"@,
    );
    let slot = dec(PS_LOD_BIAS_SLOT as nat);
    let lod = text_if(
        variant.flags.has(VariantFlags::LOD_BIAS),
        ",\n    constant float4 *lod_bias [[buffer("@ + slot + ")]]"@,
    );
    let temp = text_if(key.temporary(), "    float4 temp = float4(0.0);\n"@);
    let textures = texture_args_from(key, variant, 0, n, ""@);
    let cascade = stages_from(key, variant, 0, n, ""@);
    let specular = text_if(
        key.specular_add,
        "    current = float4(saturate(current.rgb + in.color1.rgb), current.a);\n"@,
    );
    let encode = text_if(srgb, "    oC0.rgb = mtld3d_linear_to_srgb(oC0.rgb);\n"@);
    output + entry + "(\n"@ + "    Varyings in [[stage_in]],\n"@
        + "    constant float4 *ps_c [[buffer(15)]]"@ + alpha + fog + lod + textures
        + "\n) {\n    float4 current = in.color0;\n"@ + temp + cascade + specular
        + "    float4 oC0 = current;\n"@ + alpha_text(variant) + fog_text(variant, "oC0"@)
        + encode + result + "}\n"@
}

/// The source of a fixed-function pixel shader.
pub open spec fn ff_ps_source(key: FfPsKey, variant: VariantKey, entry: Seq<char>) -> Seq<char> {
    ff_ps_declarations(variant) + ff_ps_function(key, variant, entry)
}

fn texel_name(stage: usize) -> (r: String)
    ensures
        r@ == texel(stage as nat),
{
    let n = decimal(stage as u64);
    "t".to_owned().concat(n.as_str())
}

fn arg_expr(arg: u8, stage: usize) -> (r: String)
    requires
        stage < 8,
    ensures
        r@ == arg_text(arg, stage as nat),
{
    let a: u32 = arg as u32;
    let register: String = match a & D3DTA_SELECTMASK {
        D3DTA_DIFFUSE => "in.color0".to_owned(),
        D3DTA_TEXTURE => texel_name(stage),
        D3DTA_TFACTOR => "ps_c[0]".to_owned(),
        D3DTA_SPECULAR => "in.color1".to_owned(),
        D3DTA_TEMP => "temp".to_owned(),
        D3DTA_CONSTANT => {
            let d = decimal(stage as u64 + 1);
            "ps_c[".to_owned().concat(d.as_str()).concat("]")
        },
        _ => "current".to_owned(),
    };
    let spread: String = if a & D3DTA_ALPHAREPLICATE != 0 {
        register.concat(".aaaa")
    } else {
        register
    };
    if a & D3DTA_COMPLEMENT != 0 {
        "(1.0 - ".to_owned().concat(spread.as_str()).concat(")")
    } else {
        spread
    }
}

fn op_expr(op: u8, a: &str, b: &str, stage: usize, textured: bool) -> (r: String)
    ensures
        r@ == op_text(op, a@, b@, stage as nat, textured),
{
    let name = texel_name(stage);
    let t = name.as_str();
    match op as u32 {
        D3DTOP_SELECTARG2 => b.to_owned(),
        D3DTOP_MODULATE => "(".to_owned().concat(a).concat(" * ").concat(b).concat(")"),
        D3DTOP_MODULATE2X => "saturate(2.0 * ".to_owned()
            .concat(a)
            .concat(" * ")
            .concat(b)
            .concat(")"),
        D3DTOP_MODULATE4X => "saturate(4.0 * ".to_owned()
            .concat(a)
            .concat(" * ")
            .concat(b)
            .concat(")"),
        D3DTOP_ADD => "saturate(".to_owned().concat(a).concat(" + ").concat(b).concat(")"),
        D3DTOP_ADDSIGNED => "saturate(".to_owned()
            .concat(a)
            .concat(" + ")
            .concat(b)
            .concat(" - 0.5)"),
        D3DTOP_ADDSIGNED2X => "saturate(2.0 * (".to_owned()
            .concat(a)
            .concat(" + ")
            .concat(b)
            .concat(" - 0.5))"),
        D3DTOP_SUBTRACT => "saturate(".to_owned().concat(a).concat(" - ").concat(b).concat(")"),
        D3DTOP_ADDSMOOTH => "saturate(".to_owned()
            .concat(a)
            .concat(" + ")
            .concat(b)
            .concat(" - ")
            .concat(a)
            .concat(" * ")
            .concat(b)
            .concat(")"),
        D3DTOP_BLENDDIFFUSEALPHA => "mix(".to_owned()
            .concat(b)
            .concat(", ")
            .concat(a)
            .concat(", in.color0.a)"),
        D3DTOP_BLENDTEXTUREALPHA => "mix(".to_owned()
            .concat(b)
            .concat(", ")
            .concat(a)
            .concat(", ")
            .concat(t)
            .concat(".a)"),
        D3DTOP_BLENDFACTORALPHA => "mix(".to_owned()
            .concat(b)
            .concat(", ")
            .concat(a)
            .concat(", ps_c[0].a)"),
        D3DTOP_BLENDTEXTUREALPHAPM => if textured {
            "saturate(".to_owned()
                .concat(a)
                .concat(" + ")
                .concat(b)
                .concat(" * (1.0 - ")
                .concat(t)
                .concat(".a))")
        } else {
            "saturate(".to_owned().concat(a).concat(" + ").concat(b).concat(")")
        },
        D3DTOP_BLENDCURRENTALPHA => "mix(".to_owned()
            .concat(b)
            .concat(", ")
            .concat(a)
            .concat(", current.a)"),
        D3DTOP_MODULATEALPHA_ADDCOLOR => "saturate(".to_owned()
            .concat(a)
            .concat(" + (")
            .concat(a)
            .concat(").a * ")
            .concat(b)
            .concat(")"),
        D3DTOP_MODULATECOLOR_ADDALPHA => "saturate(".to_owned()
            .concat(a)
            .concat(" * ")
            .concat(b)
            .concat(" + (")
            .concat(a)
            .concat(").a)"),
        D3DTOP_MODULATEINVALPHA_ADDCOLOR => "saturate((1.0 - (".to_owned()
            .concat(a)
            .concat(").a) * ")
            .concat(b)
            .concat(" + ")
            .concat(a)
            .concat(")"),
        D3DTOP_MODULATEINVCOLOR_ADDALPHA => "saturate((1.0 - ".to_owned()
            .concat(a)
            .concat(") * ")
            .concat(b)
            .concat(" + (")
            .concat(a)
            .concat(").a)"),
        D3DTOP_DOTPRODUCT3 => "float4(saturate(4.0 * dot((".to_owned()
            .concat(a)
            .concat(").rgb - 0.5, (")
            .concat(b)
            .concat(").rgb - 0.5)))"),
        _ => a.to_owned(),
    }
}

fn channel_expr(op: u8, arg1: u8, arg2: u8, stage: usize, textured: bool) -> (r: String)
    requires
        stage < 8,
    ensures
        r@ == channel_text(op, arg1, arg2, stage as nat, textured),
{
    if lacks_texture(op, arg1, arg2, textured) {
        "current".to_owned()
    } else {
        let a = arg_expr(arg1, stage);
        let b = arg_expr(arg2, stage);
        op_expr(op, a.as_str(), b.as_str(), stage, textured)
    }
}

fn combine_stmt(stage: FfStage, i: usize) -> (r: String)
    requires
        i < 8,
    ensures
        r@ == combine_text(stage, i as nat),
{
    let textured: bool = stage.has_texture();
    let color = channel_expr(stage.color_op, stage.color_arg1, stage.color_arg2, i, textured);
    let register: &str = match stage.result() {
        FfStageResult::Current => "current",
        FfStageResult::Temp => "temp",
    };
    if stage.is_dot_product() {
        "    ".to_owned().concat(register).concat(" = ").concat(color.as_str()).concat(";\n")
    } else {
        let alpha = channel_expr(stage.alpha_op, stage.alpha_arg1, stage.alpha_arg2, i, textured);
        "    ".to_owned()
            .concat(register)
            .concat(" = float4((")
            .concat(color.as_str())
            .concat(").rgb, (")
            .concat(alpha.as_str())
            .concat(").a);\n")
    }
}

fn kind_of(variant: VariantKey, stage: u16) -> (r: SampleKind)
    requires
        stage < 16,
    ensures
        r == sample_kind(variant, stage),
{
    if test_mask_bit(variant.depth_sampler_mask, stage) {
        if test_mask_bit(variant.depth_fetch_mask, stage) {
            SampleKind::RawDepth
        } else {
            SampleKind::Compare
        }
    } else if test_mask_bit(variant.cube_sampler_mask, stage) {
        SampleKind::Cube
    } else if test_mask_bit(variant.volume_sampler_mask, stage) {
        SampleKind::Volume
    } else {
        SampleKind::Plain
    }
}

fn coord_expr(stage: usize, projected: bool, lanes: &str, origin: &str) -> (r: String)
    ensures
        r@ == coord_text(stage as nat, projected, lanes@, origin@),
{
    let n = decimal(stage as u64);
    let name = "in.texcoord".to_owned().concat(n.as_str());
    let c = name.as_str();
    if projected {
        "(".to_owned()
            .concat(c)
            .concat(".w != 0.0 ? ")
            .concat(c)
            .concat(".")
            .concat(lanes)
            .concat(" / ")
            .concat(c)
            .concat(".w : ")
            .concat(origin)
            .concat(")")
    } else {
        c.to_owned().concat(".").concat(lanes)
    }
}

fn sample_expr(kind: &SampleKind, stage: usize, projected: bool, biased: bool) -> (r: String)
    ensures
        r@ == stage_sample(*kind, stage as nat, projected, biased),
{
    let d = decimal(stage as u64);
    let n = d.as_str();
    let bias: String = if biased {
        ", bias(lod_bias[".to_owned().concat(n).concat("].x)")
    } else {
        "".to_owned()
    };
    match kind {
        SampleKind::Plain => {
            let at = coord_expr(stage, projected, "xy", "float2(0.0)");
            "s".to_owned()
                .concat(n)
                .concat(".sample(samp")
                .concat(n)
                .concat(", ")
                .concat(at.as_str())
                .concat(bias.as_str())
                .concat(")")
        },
        SampleKind::Volume => {
            let at = coord_expr(stage, projected, "xyz", "float3(0.0)");
            "s".to_owned()
                .concat(n)
                .concat(".sample(samp")
                .concat(n)
                .concat(", ")
                .concat(at.as_str())
                .concat(bias.as_str())
                .concat(")")
        },
        SampleKind::Cube => {
            let at = coord_expr(stage, false, "xyz", "float3(0.0)");
            "s".to_owned()
                .concat(n)
                .concat(".sample(samp")
                .concat(n)
                .concat(", ")
                .concat(at.as_str())
                .concat(bias.as_str())
                .concat(")")
        },
        SampleKind::Compare => {
            let at = coord_expr(stage, projected, "xy", "float2(0.0)");
            let depth = coord_expr(stage, projected, "z", "0.0");
            "float4(s".to_owned()
                .concat(n)
                .concat(".sample_compare(samp")
                .concat(n)
                .concat(", ")
                .concat(at.as_str())
                .concat(", saturate(")
                .concat(depth.as_str())
                .concat("), level(0)))")
        },
        SampleKind::RawDepth => {
            let at = coord_expr(stage, projected, "xy", "float2(0.0)");
            "float4(s".to_owned()
                .concat(n)
                .concat(".sample(samp")
                .concat(n)
                .concat(", ")
                .concat(at.as_str())
                .concat(", level(0)))")
        },
    }
}

fn stage_stmts(key: &FfPsKey, variant: VariantKey, i: usize) -> (r: String)
    requires
        i < 8,
    ensures
        r@ == stage_text(*key, variant, i as nat),
{
    let stage = key.stages[i];
    let combine = combine_stmt(stage, i);
    let texture: String = if stage.has_texture() {
        let projected: bool = test_mask_bit(key.tt_projected_mask as u16, i as u16);
        let biased: bool = variant.flags.contains(VariantFlags::LOD_BIAS);
        let sample = sample_expr(&kind_of(variant, i as u16), i, projected, biased);
        let t = texel_name(i);
        "    float4 ".to_owned()
            .concat(t.as_str())
            .concat(" = ")
            .concat(sample.as_str())
            .concat(";\n")
    } else {
        "".to_owned()
    };
    texture.concat(combine.as_str())
}

fn texture_args(key: &FfPsKey, variant: VariantKey, i: usize) -> (r: String)
    requires
        i < 8,
    ensures
        ({
            let d = dec(i as nat);
            let ty = texture_type(sample_kind(variant, i as u16));
            let args = ",\n    "@ + ty + " s"@ + d + " [[texture("@ + d
                + ")]],\n    sampler samp"@ + d + " [[sampler("@ + d + ")]]"@;
            r@ == text_if(key.stages[i as int].textured(), args)
        }),
{
    if key.stages[i].has_texture() {
        let n = decimal(i as u64);
        let d = n.as_str();
        let ty: &str = match kind_of(variant, i as u16) {
            SampleKind::Plain => "texture2d<float>",
            SampleKind::Volume => "texture3d<float>",
            SampleKind::Cube => "texturecube<float>",
            _ => "depth2d<float>",
        };
        ",\n    ".to_owned()
            .concat(ty)
            .concat(" s")
            .concat(d)
            .concat(" [[texture(")
            .concat(d)
            .concat(")]],\n    sampler samp")
            .concat(d)
            .concat(" [[sampler(")
            .concat(d)
            .concat(")]]")
    } else {
        "".to_owned()
    }
}

fn declarations(variant: VariantKey) -> (r: String)
    ensures
        r@ == ff_ps_declarations(variant),
{
    let varyings = emit_varyings(variant.flags.contains(VariantFlags::FLAT_SHADE));
    proof {
        reveal_strlit("");
    }
    let mut helper: String = "".to_owned();
    if variant.flags.contains(VariantFlags::SRGB_WRITE) {
        emit_srgb_write_helper(&mut helper);
        assert(helper@ =~= srgb_helper_text());
    }
    let output: String = if variant.flags.contains(VariantFlags::SAMPLE_MASK) {
        "struct FfPsOut {\n".to_owned()
            .concat("    float4 oC0 [[color(0)]];\n")
            .concat("    uint oMask [[sample_mask]];\n")
            .concat("};\n\n")
    } else {
        "".to_owned()
    };
    let preamble: &str = "#include <metal_stdlib>\nusing namespace metal;\n\n";
    preamble.to_owned().concat(varyings.as_str()).concat(helper.as_str()).concat(output.as_str())
}

/// The source of a fixed-function pixel shader, with the default entry point.
pub fn emit_ps_ff(key: &FfPsKey, variant: VariantKey) -> (r: String)
    ensures
        r@ == ff_ps_source(*key, variant, DEFAULT_PS_ENTRY@),
{
    emit_ps_ff_named(key, variant, DEFAULT_PS_ENTRY)
}

/// The source of a fixed-function pixel shader.
///
/// The stages run up to the first whose colour operation is disabled. Then the
/// specular colour, the alpha test, fog and the encoding apply, in this order.
pub fn emit_ps_ff_named(key: &FfPsKey, variant: VariantKey, entry: &str) -> (r: String)
    ensures
        r@ == ff_ps_source(*key, variant, entry@),
{
    let n: usize = key.active_count();
    let mut textures: String = "".to_owned();
    let mut cascade: String = "".to_owned();
    let mut i: usize = 0;
    while i < n
        invariant
            i <= n <= 8,
            texture_args_from(*key, variant, 0, n as nat, ""@) == texture_args_from(
                *key,
                variant,
                i as nat,
                n as nat,
                textures@,
            ),
            stages_from(*key, variant, 0, n as nat, ""@) == stages_from(
                *key,
                variant,
                i as nat,
                n as nat,
                cascade@,
            ),
        decreases n - i,
    {
        textures = textures.concat(texture_args(key, variant, i).as_str());
        cascade = cascade.concat(stage_stmts(key, variant, i).as_str());
        i = i + 1;
    }
    let head = declarations(variant);
    let masks: bool = variant.flags.contains(VariantFlags::SAMPLE_MASK);
    let output: &str = if masks {
        "fragment FfPsOut "
    } else {
        "fragment float4 "
    };
    let result: String = if masks {
        let mask = decimal(variant.sample_mask as u64);
        "    return FfPsOut { oC0, ".to_owned().concat(mask.as_str()).concat("u };\n")
    } else {
        "    return oC0;\n".to_owned()
    };
    let alpha: &str = if variant.alpha_func != 0 && variant.alpha_func != 8 {
        ",\n    constant float &alpha_ref [[buffer(14)]]"
    } else {
        ""
    };
    let fog: &str = if fog_blend_active(variant) {
        ",\n    constant float4 *fog_data [[buffer(13)]]"
    } else {
        ""
    };
    let lod: String = if variant.flags.contains(VariantFlags::LOD_BIAS) {
        let slot = decimal(PS_LOD_BIAS_SLOT as u64);
        ",\n    constant float4 *lod_bias [[buffer(".to_owned()
            .concat(slot.as_str())
            .concat(")]]")
    } else {
        "".to_owned()
    };
    let temp: &str = if key.needs_temp(n) {
        "    float4 temp = float4(0.0);\n"
    } else {
        ""
    };
    let specular: &str = if key.specular_add {
        "    current = float4(saturate(current.rgb + in.color1.rgb), current.a);\n"
    } else {
        ""
    };
    let encode: &str = if variant.flags.contains(VariantFlags::SRGB_WRITE) {
        "    oC0.rgb = mtld3d_linear_to_srgb(oC0.rgb);\n"
    } else {
        ""
    };
    let test = emit_alpha_test(variant);
    proof {
        reveal_strlit("");
    }
    let mut blend: String = "".to_owned();
    write_fog_blend(&mut blend, variant, "oC0");
    assert(blend@ =~= fog_text(variant, "oC0"@));
    let function = output.to_owned()
        .concat(entry)
        .concat("(\n")
        .concat("    Varyings in [[stage_in]],\n")
        .concat("    constant float4 *ps_c [[buffer(15)]]")
        .concat(alpha)
        .concat(fog)
        .concat(lod.as_str())
        .concat(textures.as_str())
        .concat("\n) {\n    float4 current = in.color0;\n")
        .concat(temp)
        .concat(cascade.as_str())
        .concat(specular)
        .concat("    float4 oC0 = current;\n")
        .concat(test.as_str())
        .concat(blend.as_str())
        .concat(encode)
        .concat(result.as_str())
        .concat("}\n");
    head.concat(function.as_str())
}

} // verus!
