//! Pixel shaders.

use crate::dxso::emit::common::{
    alpha_text, const_rel_text, emit_alpha_test, emit_const_rel_helper, emit_float_locals,
    emit_int_locals, emit_srgb_write_helper, emit_varyings, float_locals, fog_text, int_locals,
    preamble, srgb_helper_text, varyings_text, write_fog_blend,
};
use crate::dxso::emit::complete::check_slots;
use crate::dxso::emit::context::{
    find_sampler, mask_bit, sampler_at, sampler_slots_fit, test_mask_bit, EmitContext,
};
use crate::dxso::emit::error::{emits, EmitError, EmitFailure, Emitted};
use crate::dxso::emit::floats::FloatTexts;
use crate::dxso::emit::lower::{lowered_from, LowerState, Lowering};
use crate::dxso::emit::variant::{fog_blend_active, VariantFlags, VariantKey};
use crate::dxso::ir::{Declaration, DxsoProgram, Instruction, RegKind, ShaderType, TextureType};
use crate::dxso::opcode::Opcode;
use crate::text::{dec, decimal};
use vstd::prelude::*;

verus! {

/// The entry point of a pixel shader where the caller names none.
pub const DEFAULT_PS_ENTRY: &'static str = "mtld3d_ps";

/// Whether the program declares special register `index`: 0 is `vPos`, 1 is
/// `vFace`.
pub open spec fn declares_misc(decls: Seq<Declaration>, index: u16) -> bool {
    exists|i: int| 0 <= i < decls.len() && #[trigger] is_misc_decl(decls[i], index)
}

/// Whether `d` declares special register `index`.
pub open spec fn is_misc_decl(d: Declaration, index: u16) -> bool {
    d matches Declaration::Semantic { reg, .. } && reg.kind == RegKind::MiscType && reg.index
        == index
}

/// Whether `inst` writes fragment depth: by the depth register, or as a side
/// effect.
pub open spec fn inst_sets_depth(inst: Instruction) -> bool {
    inst.opcode == Opcode::TexDepth || inst.opcode == Opcode::TexM3x2Depth || (inst.dst is Some
        && inst.dst->0.reg.kind == RegKind::DepthOut)
}

/// Whether some instruction of `body` writes fragment depth.
pub open spec fn body_sets_depth(body: Seq<Instruction>) -> bool {
    exists|i: int| 0 <= i < body.len() && #[trigger] inst_sets_depth(body[i])
}

/// Whether the main body or a subroutine writes fragment depth.
pub open spec fn sets_depth(ps: DxsoProgram) -> bool {
    exists|b: Seq<Instruction>| #[trigger] ps.has_body(b) && body_sets_depth(b)
}

/// The Metal type of a texture argument. A 2D slot with a depth texture takes a
/// depth type.
pub open spec fn texture_arg(ty: TextureType, depth_bound: bool) -> Seq<char> {
    match ty {
        TextureType::TextureCube => "texturecube<float>"@,
        TextureType::Texture3D => "texture3d<float>"@,
        _ => if depth_bound {
            "depth2d<float>"@
        } else {
            "texture2d<float>"@
        },
    }
}

/// The texture and sampler arguments of the slots from `slot` to 15, after
/// `acc`.
pub open spec fn sampler_args_from(
    ps: DxsoProgram,
    slot: u16,
    depth_sampler_mask: u16,
    acc: Seq<char>,
) -> Seq<char>
    decreases 16 - slot,
{
    if slot >= 16 {
        acc
    } else {
        let next = (slot + 1) as u16;
        match sampler_at(ps, slot) {
            None => sampler_args_from(ps, next, depth_sampler_mask, acc),
            Some(ty) => {
                let n = dec(slot as nat);
                let arg = texture_arg(ty, mask_bit(depth_sampler_mask, slot));
                sampler_args_from(
                    ps,
                    next,
                    depth_sampler_mask,
                    acc + ",\n    "@ + arg + " s"@ + n + " [[texture("@ + n
                        + ")]],\n    sampler samp"@ + n + " [[sampler("@ + n + ")]]"@,
                )
            },
        }
    }
}

/// `text` where `condition` holds, nothing otherwise.
pub open spec fn text_if(condition: bool, text: Seq<char>) -> Seq<char> {
    if condition {
        text
    } else {
        ""@
    }
}

/// The structure that a shader with a depth output returns.
pub open spec fn depth_struct() -> Seq<char> {
    "struct PsOut {\n"@ + "    float4 oC0 [[color(0)]];\n"@
        + "    float oDepth [[depth(any)]];\n"@ + "};\n\n"@
}

/// The texture registers of the first shader model, seeded with the
/// coordinates.
pub open spec fn texture_registers() -> Seq<char> {
    "    float4 t[8];\n"@ + "    t[0] = in.texcoord0;\n"@ + "    t[1] = in.texcoord1;\n"@
        + "    t[2] = in.texcoord2;\n"@ + "    t[3] = in.texcoord3;\n"@
        + "    t[4] = in.texcoord4;\n"@ + "    t[5] = in.texcoord5;\n"@
        + "    t[6] = in.texcoord6;\n"@ + "    t[7] = in.texcoord7;\n"@
}

/// Everything before the function.
pub open spec fn ps_declarations(
    ps: DxsoProgram,
    variant: VariantKey,
    helper: Seq<char>,
) -> Seq<char> {
    let depth = sets_depth(ps);
    let srgb = variant.flags.has(VariantFlags::SRGB_WRITE);
    preamble() + varyings_text(variant.flags.has(VariantFlags::FLAT_SHADE)) + helper
        + text_if(srgb, srgb_helper_text()) + text_if(depth, depth_struct())
}

/// The signature of the function up to the arguments that not every function
/// has.
pub open spec fn signature_start(ps: DxsoProgram, entry: Seq<char>) -> Seq<char> {
    let result = if sets_depth(ps) {
        "fragment PsOut "@
    } else {
        "fragment float4 "@
    };
    result + entry + "(\n"@ + "    Varyings in [[stage_in]],\n"@
        + "    constant float4 *ps_c [[buffer(15)]]"@
}

/// The signature of the function.
pub open spec fn ps_signature(ps: DxsoProgram, variant: VariantKey, entry: Seq<char>) -> Seq<char> {
    let alpha = text_if(
        variant.tests_alpha(),
        ",\n    constant float &alpha_ref [[buffer(14)]]"@,
    );
    let fog = text_if(
        variant.blends_fog(),
        ",\n    constant float4 *fog_data [[buffer(13)]]"@,
    );
    let bump = text_if(
        ps.bumps(),
        ",\n    constant float4 *bump_env [[buffer(12)]]"@,
    );
    let face = text_if(
        declares_misc(ps.declarations@, 1),
        ",\n    bool v_face_in [[front_facing]]"@,
    );
    let samplers = sampler_args_from(ps, 0, variant.depth_sampler_mask, ""@);
    signature_start(ps, entry) + alpha + fog + bump + samplers + face + "\n) {\n"@
}

/// The locals of the function.
pub open spec fn ps_locals(ps: DxsoProgram, locals: Seq<char>) -> Seq<char> {
    let registers = text_if(ps.major == 1, texture_registers());
    let face = text_if(
        declares_misc(ps.declarations@, 1),
        "    float v_face = v_face_in ? 1.0 : -1.0;\n"@,
    );
    let depth = text_if(
        sets_depth(ps),
        "    float4 _depth_storage = float4(0.0);\n"@,
    );
    "    float4 r[32];\n"@ + registers + face + "    int4 a = int4(0);\n"@
        + "    bool4 p0 = bool4(false);\n"@ + "    float4 oC0 = float4(0.0);\n"@ + depth
        + locals + int_locals(ps)
}

/// Everything after the translated instructions: the colour register of the
/// first model, alpha test, fog, encoding, result.
pub open spec fn ps_epilogue(ps: DxsoProgram, variant: VariantKey) -> Seq<char> {
    let colour = text_if(ps.major == 1, "    oC0 = r[0];\n"@);
    let srgb = text_if(
        variant.flags.has(VariantFlags::SRGB_WRITE),
        "    oC0.rgb = mtld3d_linear_to_srgb(oC0.rgb);\n"@,
    );
    let result = if sets_depth(ps) {
        "    PsOut _ps_out;\n"@ + "    _ps_out.oC0 = oC0;\n"@
            + "    _ps_out.oDepth = _depth_storage.x;\n"@ + "    return _ps_out;\n"@
    } else {
        "    return oC0;\n"@
    };
    colour + alpha_text(variant) + fog_text(variant, "oC0"@) + srgb + result + "}\n"@
}

/// The translation of a pixel shader.
pub open spec fn ps_source(
    ps: DxsoProgram,
    variant: VariantKey,
    entry: Seq<char>,
    texts: FloatTexts,
) -> Emitted {
    if ps.shader_type != ShaderType::Pixel {
        Err(EmitFailure::WrongShaderType)
    } else if !sampler_slots_fit(ps) {
        Err(EmitFailure::Undefined)
    } else {
        match const_rel_text(ps, texts@) {
            Err(e) => Err(e),
            // The first model holds its constants in the range from minus one
            // to one.
            Ok(helper) => match float_locals(ps, ps.major == 1, texts@) {
                Err(e) => Err(e),
                Ok(locals) => {
                    let start = LowerState {
                        out: ps_declarations(ps, variant, helper) + ps_signature(ps, variant, entry)
                            + ps_locals(ps, locals),
                        loops: Seq::empty(),
                        next_al: 0,
                    };
                    let ctx = EmitContext::spec_ps(
                        ps,
                        texts,
                        variant,
                        declares_misc(ps.declarations@, 0),
                        declares_misc(ps.declarations@, 1),
                        sets_depth(ps),
                    );
                    match lowered_from(ps.instructions@, 0, ctx, Seq::empty(), start) {
                        Err(e) => Err(e),
                        Ok(end) => Ok(end.out + ps_epilogue(ps, variant)),
                    }
                },
            },
        }
    }
}

fn has_misc_decl(decls: &Vec<Declaration>, index: u16) -> (r: bool)
    ensures
        r == declares_misc(decls@, index),
{
    let mut i: usize = 0;
    while i < decls.len()
        invariant
            i <= decls.len(),
            forall|a: int| 0 <= a < i ==> !#[trigger] is_misc_decl(decls@[a], index),
        decreases decls.len() - i,
    {
        if let Declaration::Semantic { usage, usage_index, reg } = decls[i] {
            if reg.kind == RegKind::MiscType && reg.index == index {
                assert(is_misc_decl(decls@[i as int], index));
                return true;
            }
        }
        i = i + 1;
    }
    false
}

fn body_writes_depth(body: &Vec<Instruction>) -> (r: bool)
    ensures
        r == body_sets_depth(body@),
{
    let mut i: usize = 0;
    while i < body.len()
        invariant
            i <= body.len(),
            forall|a: int| 0 <= a < i ==> !#[trigger] inst_sets_depth(body@[a]),
        decreases body.len() - i,
    {
        let depth_dst: bool = match body[i].dst {
            Some(d) => d.reg.kind == RegKind::DepthOut,
            None => false,
        };
        if matches!(body[i].opcode, Opcode::TexDepth | Opcode::TexM3x2Depth) || depth_dst {
            assert(inst_sets_depth(body@[i as int]));
            return true;
        }
        i = i + 1;
    }
    false
}

fn writes_depth(ps: &DxsoProgram) -> (r: bool)
    ensures
        r == sets_depth(*ps),
{
    ps.some_body(body_writes_depth, Ghost(|b: Seq<Instruction>| body_sets_depth(b)))
}

fn texture_arg_str(ty: TextureType, depth_bound: bool) -> (r: &'static str)
    ensures
        r@ == texture_arg(ty, depth_bound),
{
    match ty {
        TextureType::TextureCube => "texturecube<float>",
        TextureType::Texture3D => "texture3d<float>",
        _ => if depth_bound {
            "depth2d<float>"
        } else {
            "texture2d<float>"
        },
    }
}

fn emit_sampler_args(ps: &DxsoProgram, depth_sampler_mask: u16) -> (r: String)
    ensures
        r@ == sampler_args_from(*ps, 0, depth_sampler_mask, ""@),
{
    let mut acc: String = "".to_owned();
    let mut slot: u16 = 0;
    while slot < 16
        invariant
            slot <= 16,
            sampler_args_from(*ps, 0, depth_sampler_mask, ""@) == sampler_args_from(
                *ps,
                slot,
                depth_sampler_mask,
                acc@,
            ),
        decreases 16 - slot,
    {
        if let Some(ty) = find_sampler(ps, slot) {
            let d = decimal(slot as u64);
            let n = d.as_str();
            let arg = texture_arg_str(ty, test_mask_bit(depth_sampler_mask, slot));
            acc = acc.concat(",\n    ").concat(arg).concat(" s").concat(n).concat(
                " [[texture(",
            ).concat(n).concat(")]],\n    sampler samp").concat(n).concat(" [[sampler(").concat(
                n,
            ).concat(")]]");
        }
        slot = slot + 1;
    }
    acc
}

fn str_if(condition: bool, text: &str) -> (r: &str)
    ensures
        r@ == text_if(condition, text@),
{
    if condition {
        text
    } else {
        ""
    }
}

fn emit_ps_declarations(
    ps: &DxsoProgram,
    variant: VariantKey,
    helper: &str,
    depth: bool,
) -> (r: String)
    requires
        depth == sets_depth(*ps),
    ensures
        r@ == ps_declarations(*ps, variant, helper@),
{
    let preamble: &str = "#include <metal_stdlib>\nusing namespace metal;\n\n";
    let varyings = emit_varyings(variant.flags.contains(VariantFlags::FLAT_SHADE));
    let mut srgb_text: String = String::new();
    emit_srgb_write_helper(&mut srgb_text);
    assert(srgb_text@ =~= srgb_helper_text());
    let srgb = str_if(variant.flags.contains(VariantFlags::SRGB_WRITE), srgb_text.as_str());
    let depth_text = "struct PsOut {\n".to_owned()
        .concat("    float4 oC0 [[color(0)]];\n")
        .concat("    float oDepth [[depth(any)]];\n")
        .concat("};\n\n");
    preamble.to_owned()
        .concat(varyings.as_str())
        .concat(helper)
        .concat(srgb)
        .concat(str_if(depth, depth_text.as_str()))
}

fn emit_ps_signature(
    ps: &DxsoProgram,
    variant: VariantKey,
    entry: &str,
    depth: bool,
    face: bool,
) -> (r: String)
    requires
        depth == sets_depth(*ps),
        face == declares_misc(ps.declarations@, 1),
    ensures
        r@ == ps_signature(*ps, variant, entry@),
{
    let result: &str = if depth {
        "fragment PsOut "
    } else {
        "fragment float4 "
    };
    let tests_alpha: bool = variant.alpha_func != 0 && variant.alpha_func != 8;
    let alpha = str_if(tests_alpha, ",\n    constant float &alpha_ref [[buffer(14)]]");
    let fog = str_if(
        fog_blend_active(variant),
        ",\n    constant float4 *fog_data [[buffer(13)]]",
    );
    let bump = str_if(ps.uses_bump_env(), ",\n    constant float4 *bump_env [[buffer(12)]]");
    let face_arg = str_if(face, ",\n    bool v_face_in [[front_facing]]");
    let samplers = emit_sampler_args(ps, variant.depth_sampler_mask);
    result.to_owned()
        .concat(entry)
        .concat("(\n")
        .concat("    Varyings in [[stage_in]],\n")
        .concat("    constant float4 *ps_c [[buffer(15)]]")
        .concat(alpha)
        .concat(fog)
        .concat(bump)
        .concat(samplers.as_str())
        .concat(face_arg)
        .concat("\n) {\n")
}

fn emit_ps_locals(ps: &DxsoProgram, locals: &str, depth: bool, face: bool) -> (r: String)
    requires
        depth == sets_depth(*ps),
        face == declares_misc(ps.declarations@, 1),
    ensures
        r@ == ps_locals(*ps, locals@),
{
    let register_text = "    float4 t[8];\n".to_owned()
        .concat("    t[0] = in.texcoord0;\n")
        .concat("    t[1] = in.texcoord1;\n")
        .concat("    t[2] = in.texcoord2;\n")
        .concat("    t[3] = in.texcoord3;\n")
        .concat("    t[4] = in.texcoord4;\n")
        .concat("    t[5] = in.texcoord5;\n")
        .concat("    t[6] = in.texcoord6;\n")
        .concat("    t[7] = in.texcoord7;\n");
    let registers = str_if(ps.major == 1, register_text.as_str());
    let face_local = str_if(face, "    float v_face = v_face_in ? 1.0 : -1.0;\n");
    let depth_local = str_if(depth, "    float4 _depth_storage = float4(0.0);\n");
    let ints = emit_int_locals(ps);
    "    float4 r[32];\n".to_owned()
        .concat(registers)
        .concat(face_local)
        .concat("    int4 a = int4(0);\n")
        .concat("    bool4 p0 = bool4(false);\n")
        .concat("    float4 oC0 = float4(0.0);\n")
        .concat(depth_local)
        .concat(locals)
        .concat(ints.as_str())
}

fn emit_ps_epilogue(ps: &DxsoProgram, variant: VariantKey, depth: bool) -> (r: String)
    requires
        depth == sets_depth(*ps),
    ensures
        r@ == ps_epilogue(*ps, variant),
{
    let colour = str_if(ps.major == 1, "    oC0 = r[0];\n");
    let alpha = emit_alpha_test(variant);
    let mut out: String = colour.to_owned().concat(alpha.as_str());
    write_fog_blend(&mut out, variant, "oC0");
    let srgb = str_if(
        variant.flags.contains(VariantFlags::SRGB_WRITE),
        "    oC0.rgb = mtld3d_linear_to_srgb(oC0.rgb);\n",
    );
    let result: String = if depth {
        "    PsOut _ps_out;\n".to_owned()
            .concat("    _ps_out.oC0 = oC0;\n")
            .concat("    _ps_out.oDepth = _depth_storage.x;\n")
            .concat("    return _ps_out;\n")
    } else {
        "    return oC0;\n".to_owned()
    };
    out.concat(srgb).concat(result.as_str()).concat("}\n")
}

/// Translates a pixel shader, with the default entry point.
pub fn emit_ps_programmable(ps: &DxsoProgram, variant: VariantKey, texts: &FloatTexts) -> (r:
    Result<String, EmitError>)
    requires
        ps_source(*ps, variant, DEFAULT_PS_ENTRY@, *texts) != Err::<Seq<char>, EmitFailure>(
            EmitFailure::Undefined,
        ),
    ensures
        emits(r, ps_source(*ps, variant, DEFAULT_PS_ENTRY@, *texts)),
{
    emit_ps_programmable_named(ps, variant, DEFAULT_PS_ENTRY, texts)
}

/// Translates a pixel shader into a function named `entry`.
///
/// `texts` holds the decimal renderings of the program's floats.
pub fn emit_ps_programmable_named(
    ps: &DxsoProgram,
    variant: VariantKey,
    entry: &str,
    texts: &FloatTexts,
) -> (r: Result<String, EmitError>)
    requires
        ps_source(*ps, variant, entry@, *texts) != Err::<Seq<char>, EmitFailure>(
            EmitFailure::Undefined,
        ),
    ensures
        emits(r, ps_source(*ps, variant, entry@, *texts)),
{
    emit_ps_checked(ps, variant, entry, texts)
}

/// Translates any pixel shader into a function named `entry`, as
/// [`emit_ps_programmable_named`] does. Where a sampler has no slot, or the
/// translation comes to an instruction that lacks what its opcode reads, the
/// outcome is [`EmitError::Incomplete`], and nowhere else.
pub fn emit_ps_checked(
    ps: &DxsoProgram,
    variant: VariantKey,
    entry: &str,
    texts: &FloatTexts,
) -> (r: Result<String, EmitError>)
    ensures
        emits(r, ps_source(*ps, variant, entry@, *texts)),
{
    if ps.shader_type != ShaderType::Pixel {
        return Err(EmitError::WrongShaderType);
    }
    if !check_slots(ps) {
        return Err(EmitError::Incomplete);
    }
    let helper = emit_const_rel_helper(ps, texts)?;
    let locals = emit_float_locals(ps, ps.major == 1, texts)?;
    let has_vpos: bool = has_misc_decl(&ps.declarations, 0);
    let has_vface: bool = has_misc_decl(&ps.declarations, 1);
    let depth: bool = writes_depth(ps);
    let declarations = emit_ps_declarations(ps, variant, helper.as_str(), depth);
    let signature = emit_ps_signature(ps, variant, entry, depth, has_vface);
    let local_text = emit_ps_locals(ps, locals.as_str(), depth, has_vface);
    let mut lowering = Lowering {
        out: declarations.concat(signature.as_str()).concat(local_text.as_str()),
        loops: Vec::new(),
        next_al: 0,
    };
    let ctx = EmitContext::ps(ps, texts, variant, has_vpos, has_vface, depth);
    let mut expanding: Vec<u32> = Vec::new();
    lowering.translate_body(&ps.instructions, &ctx, &mut expanding)?;
    let epilogue = emit_ps_epilogue(ps, variant, depth);
    Ok(lowering.out.concat(epilogue.as_str()))
}

} // verus!
