//! Texts shared by the stages.

use crate::dxso::emit::error::{emits, EmitError, Emitted};
use crate::dxso::emit::floats::{
    clamp_to_unit, clamped_to_unit, float_literal, fmt_float, FloatTexts,
};
use crate::dxso::emit::variant::{fog_blend_active, VariantFlags, VariantKey};
use crate::dxso::ir::{DefConstant, DefIntConstant, DxsoProgram};
use crate::text::{dec, decimal, signed_dec, signed_decimal};
use vstd::prelude::*;

verus! {

/// What every translation starts with.
pub open spec fn preamble() -> Seq<char> {
    "#include <metal_stdlib>\nusing namespace metal;\n\n"@
}

// ---------------------------------------------------------------------------
// Varyings
// ---------------------------------------------------------------------------

/// The interpolation qualifier of the colours.
pub open spec fn colour_qualifier(flat: bool) -> Seq<char> {
    if flat {
        " [[flat]]"@
    } else {
        ""@
    }
}

/// The structure between the stages: the same fields in the same order in both,
/// whatever the programs use, so that any two stages link.
pub open spec fn varyings_text(flat: bool) -> Seq<char> {
    let q = colour_qualifier(flat);
    "struct Varyings {\n"@ + "    float4 position [[position, invariant]];\n"@
        + "    float4 position1;\n"@ + "    float4 texcoord0;\n"@ + "    float4 texcoord1;\n"@
        + "    float4 texcoord2;\n"@ + "    float4 texcoord3;\n"@ + "    float4 texcoord4;\n"@
        + "    float4 texcoord5;\n"@ + "    float4 texcoord6;\n"@ + "    float4 texcoord7;\n"@
        + "    float4 color0"@ + q + ";\n    float4 color1"@ + q + ";\n"@ + "    float4 fog;\n"@
        + "    float fog_z [[center_no_perspective]];\n"@
        + "    float point_size [[point_size]];\n"@ + "};\n\n"@
}

/// The structure between the stages.
pub fn emit_varyings(flat: bool) -> (r: String)
    ensures
        r@ == varyings_text(flat),
{
    let q: &str = if flat {
        " [[flat]]"
    } else {
        ""
    };
    "struct Varyings {\n".to_owned()
        .concat("    float4 position [[position, invariant]];\n")
        .concat("    float4 position1;\n")
        .concat("    float4 texcoord0;\n")
        .concat("    float4 texcoord1;\n")
        .concat("    float4 texcoord2;\n")
        .concat("    float4 texcoord3;\n")
        .concat("    float4 texcoord4;\n")
        .concat("    float4 texcoord5;\n")
        .concat("    float4 texcoord6;\n")
        .concat("    float4 texcoord7;\n")
        .concat("    float4 color0")
        .concat(q)
        .concat(";\n    float4 color1")
        .concat(q)
        .concat(";\n")
        .concat("    float4 fog;\n")
        .concat("    float fog_z [[center_no_perspective]];\n")
        .concat("    float point_size [[point_size]];\n")
        .concat("};\n\n")
}

// ---------------------------------------------------------------------------
// Constants
// ---------------------------------------------------------------------------

/// A lane of a defined constant, clamped where the shader model clamps.
pub open spec fn lane_bits(bits: u32, clamp: bool) -> u32 {
    if clamp {
        clamped_to_unit(bits)
    } else {
        bits
    }
}

/// The vector of four float literals.
pub open spec fn vector_text(v: [u32; 4], clamp: bool, texts: Map<u32, Seq<char>>) -> Emitted {
    match float_literal(lane_bits(v[0], clamp), texts) {
        Err(e) => Err(e),
        Ok(x) => match float_literal(lane_bits(v[1], clamp), texts) {
            Err(e) => Err(e),
            Ok(y) => match float_literal(lane_bits(v[2], clamp), texts) {
                Err(e) => Err(e),
                Ok(z) => match float_literal(lane_bits(v[3], clamp), texts) {
                    Err(e) => Err(e),
                    Ok(w) => Ok("float4("@ + x + ", "@ + y + ", "@ + z + ", "@ + w + ")"@),
                },
            },
        },
    }
}

/// One line per constant from `i` on, after `acc`: `head`, the register number,
/// `mid`, the value.
pub open spec fn defs_from(
    defs: Seq<DefConstant>,
    i: nat,
    head: Seq<char>,
    mid: Seq<char>,
    clamp: bool,
    texts: Map<u32, Seq<char>>,
    acc: Seq<char>,
) -> Emitted
    decreases defs.len() - i,
{
    if i >= defs.len() {
        Ok(acc)
    } else {
        match vector_text(defs[i as int].value, clamp, texts) {
            Err(e) => Err(e),
            Ok(v) => defs_from(
                defs,
                i + 1,
                head,
                mid,
                clamp,
                texts,
                acc + head + dec(defs[i as int].reg.index as nat) + mid + v + ";\n"@,
            ),
        }
    }
}

/// The locals of the defined float constants.
pub open spec fn float_locals(prog: DxsoProgram, clamp: bool, texts: Map<u32, Seq<char>>) -> Emitted {
    defs_from(prog.def_constants@, 0, "    float4 c"@, " = "@, clamp, texts, Seq::empty())
}

/// The locals of the defined integer constants from `i` on, after `acc`.
pub open spec fn int_defs_from(defs: Seq<DefIntConstant>, i: nat, acc: Seq<char>) -> Seq<char>
    decreases defs.len() - i,
{
    if i >= defs.len() {
        acc
    } else {
        let d = defs[i as int];
        int_defs_from(
            defs,
            i + 1,
            acc + "    int4 i"@ + dec(d.reg.index as nat) + " = int4("@
                + signed_dec(d.value[0] as int) + ", "@ + signed_dec(d.value[1] as int) + ", "@
                + signed_dec(d.value[2] as int) + ", "@ + signed_dec(d.value[3] as int)
                + ");\n"@,
        )
    }
}

/// The locals of the defined integer constants.
pub open spec fn int_locals(prog: DxsoProgram) -> Seq<char> {
    int_defs_from(prog.def_int_constants@, 0, Seq::empty())
}

/// The line of the helper that returns a defined constant.
pub open spec fn const_case(d: DefConstant, texts: Map<u32, Seq<char>>) -> Seq<char> {
    "        case "@ + dec(d.reg.index as nat) + ": return "@ + vector_text(
        d.value,
        false,
        texts,
    )->Ok_0 + ";\n"@
}

/// The function that reads a constant by a computed index.
///
/// Defined constants are not in the buffer, so the function returns them
/// itself. Only programs that define constants and read by relative address
/// need it.
pub open spec fn const_rel_text(prog: DxsoProgram, texts: Map<u32, Seq<char>>) -> Emitted {
    if !prog.reads_relative() || prog.def_constants@.len() == 0 {
        Ok(""@)
    } else {
        match defs_from(
            prog.def_constants@,
            0,
            "        case "@,
            ": return "@,
            false,
            texts,
            Seq::empty(),
        ) {
            Err(e) => Err(e),
            Ok(cases) => Ok(
                "inline float4 mtld3d_const_rel(int idx, constant float4 *cb) {\n"@
                    + "    switch (idx) {\n"@ + cases + "        default: break;\n"@
                    + "    }\n"@ + "    return cb[clamp(idx, 0, 255)];\n"@ + "}\n\n"@,
            ),
        }
    }
}

fn lane_literal(bits: u32, clamp: bool, texts: &FloatTexts) -> (r: Result<String, EmitError>)
    ensures
        emits(r, float_literal(lane_bits(bits, clamp), texts@)),
{
    if clamp {
        fmt_float(clamp_to_unit(bits), texts)
    } else {
        fmt_float(bits, texts)
    }
}

fn vector_literal(v: &[u32; 4], clamp: bool, texts: &FloatTexts) -> (r: Result<String, EmitError>)
    ensures
        emits(r, vector_text(*v, clamp, texts@)),
{
    let x = lane_literal(v[0], clamp, texts)?;
    let y = lane_literal(v[1], clamp, texts)?;
    let z = lane_literal(v[2], clamp, texts)?;
    let w = lane_literal(v[3], clamp, texts)?;
    Ok("float4(".to_owned()
        .concat(x.as_str())
        .concat(", ")
        .concat(y.as_str())
        .concat(", ")
        .concat(z.as_str())
        .concat(", ")
        .concat(w.as_str())
        .concat(")"))
}

fn def_lines(
    defs: &Vec<DefConstant>,
    head: &str,
    mid: &str,
    clamp: bool,
    texts: &FloatTexts,
) -> (r: Result<String, EmitError>)
    ensures
        emits(r, defs_from(defs@, 0, head@, mid@, clamp, texts@, Seq::empty())),
{
    let mut acc: String = String::new();
    let mut i: usize = 0;
    while i < defs.len()
        invariant
            i <= defs.len(),
            defs_from(defs@, 0, head@, mid@, clamp, texts@, Seq::empty()) == defs_from(
                defs@,
                i as nat,
                head@,
                mid@,
                clamp,
                texts@,
                acc@,
            ),
        decreases defs.len() - i,
    {
        let v = vector_literal(&defs[i].value, clamp, texts)?;
        let n = decimal(defs[i].reg.index as u64);
        acc = acc.concat(head).concat(n.as_str()).concat(mid).concat(v.as_str()).concat(";\n");
        i = i + 1;
    }
    Ok(acc)
}

/// The locals of the defined float constants.
pub fn emit_float_locals(prog: &DxsoProgram, clamp: bool, texts: &FloatTexts) -> (r: Result<
    String,
    EmitError,
>)
    ensures
        emits(r, float_locals(*prog, clamp, texts@)),
{
    def_lines(&prog.def_constants, "    float4 c", " = ", clamp, texts)
}

/// The locals of the defined integer constants.
pub fn emit_int_locals(prog: &DxsoProgram) -> (r: String)
    ensures
        r@ == int_locals(*prog),
{
    let mut acc: String = String::new();
    let mut i: usize = 0;
    while i < prog.def_int_constants.len()
        invariant
            i <= prog.def_int_constants.len(),
            int_locals(*prog) == int_defs_from(prog.def_int_constants@, i as nat, acc@),
        decreases prog.def_int_constants.len() - i,
    {
        let d = prog.def_int_constants[i];
        let n = decimal(d.reg.index as u64);
        let x = signed_decimal(d.value[0]);
        let y = signed_decimal(d.value[1]);
        let z = signed_decimal(d.value[2]);
        let w = signed_decimal(d.value[3]);
        acc = acc.concat("    int4 i").concat(n.as_str()).concat(" = int4(").concat(
            x.as_str(),
        ).concat(", ").concat(y.as_str()).concat(", ").concat(z.as_str()).concat(", ").concat(
            w.as_str(),
        ).concat(");\n");
        i = i + 1;
    }
    acc
}

/// The function that reads a constant by a computed index.
pub fn emit_const_rel_helper(prog: &DxsoProgram, texts: &FloatTexts) -> (r: Result<
    String,
    EmitError,
>)
    ensures
        emits(r, const_rel_text(*prog, texts@)),
{
    if !prog.uses_relative_const_addressing() || prog.def_constants.len() == 0 {
        return Ok("".to_owned());
    }
    let cases = def_lines(&prog.def_constants, "        case ", ": return ", false, texts)?;
    Ok(
        "inline float4 mtld3d_const_rel(int idx, constant float4 *cb) {\n".to_owned()
            .concat("    switch (idx) {\n")
            .concat(cases.as_str())
            .concat("        default: break;\n")
            .concat("    }\n")
            .concat("    return cb[clamp(idx, 0, 255)];\n")
            .concat("}\n\n"),
    )
}

// ---------------------------------------------------------------------------
// Output merging
// ---------------------------------------------------------------------------

/// The function that encodes a linear colour in sRGB.
pub open spec fn srgb_helper_text() -> Seq<char> {
    "static inline float3 mtld3d_linear_to_srgb(float3 c) {\n"@
        + "    float3 lo = 12.92 * c;\n"@
        + "    float3 hi = 1.055 * pow(max(c, float3(0.0)), 1.0 / 2.4) - 0.055;\n"@
        + "    return select(hi, lo, c <= 0.0031308);\n"@ + "}\n\n"@
}

/// Appends the function that encodes a linear colour in sRGB.
///
/// Render targets keep their plain format, which some have no sRGB twin of, so
/// the shader encodes. `max` keeps a negative lane, which takes the linear
/// branch, out of the domain of `pow`.
pub fn emit_srgb_write_helper(out: &mut String)
    ensures
        final(out)@ == old(out)@ + srgb_helper_text(),
{
    let text = "static inline float3 mtld3d_linear_to_srgb(float3 c) {\n".to_owned()
        .concat("    float3 lo = 12.92 * c;\n")
        .concat("    float3 hi = 1.055 * pow(max(c, float3(0.0)), 1.0 / 2.4) - 0.055;\n")
        .concat("    return select(hi, lo, c <= 0.0031308);\n")
        .concat("}\n\n");
    out.append(text.as_str());
}

/// The distance that table fog starts from: the eye W, or the depth with the
/// depth bias added.
pub open spec fn fog_distance(variant: VariantKey) -> Seq<char> {
    if variant.flags.has(VariantFlags::FOG_SOURCE_W) {
        "    float fog_c = 1.0 / in.position.w;\n"@
    } else {
        "    float fog_c = in.fog_z + fog_data[1].w;\n"@
    }
}

/// The factor of table fog: exponential, squared exponential, or linear. Linear
/// fog over an empty range hides everything.
pub open spec fn fog_factor(mode: u8) -> Seq<char> {
    if mode == 1 {
        "    float fog_f = saturate(precise::exp(-fog_data[1].z * fog_c));\n"@
    } else if mode == 2 {
        "    float fog_dz = fog_data[1].z * fog_c;\n"@
            + "    float fog_f = saturate(precise::exp(-fog_dz * fog_dz));\n"@
    } else {
        "    float fog_range = fog_data[1].y - fog_data[1].x;\n"@
            + "    float fog_f = fog_range == 0.0 ? 0.0 : saturate((fog_data[1].y - fog_c) / fog_range);\n"@
    }
}

/// The statements that blend fog into `target`: nothing where the variant has
/// no fog; table fog per pixel; vertex fog by the interpolated factor.
pub open spec fn fog_text(variant: VariantKey, target: Seq<char>) -> Seq<char> {
    if !variant.blends_fog() {
        ""@
    } else if variant.fog_table_mode != 0 {
        fog_distance(variant) + fog_factor(variant.fog_table_mode) + "    "@ + target
            + " = float4(mix(fog_data[0].rgb, "@ + target + ".rgb, fog_f), "@ + target
            + ".a);\n"@
    } else {
        "    "@ + target + " = float4(mix(fog_data[0].rgb, "@ + target
            + ".rgb, saturate(in.fog.x)), "@ + target + ".a);\n"@
    }
}

fn fog_distance_str(variant: VariantKey) -> (r: &'static str)
    ensures
        r@ == fog_distance(variant),
{
    if variant.flags.contains(VariantFlags::FOG_SOURCE_W) {
        "    float fog_c = 1.0 / in.position.w;\n"
    } else {
        "    float fog_c = in.fog_z + fog_data[1].w;\n"
    }
}

fn fog_factor_expr(mode: u8) -> (r: String)
    ensures
        r@ == fog_factor(mode),
{
    match mode {
        1 => "    float fog_f = saturate(precise::exp(-fog_data[1].z * fog_c));\n".to_owned(),
        2 => "    float fog_dz = fog_data[1].z * fog_c;\n".to_owned()
            .concat("    float fog_f = saturate(precise::exp(-fog_dz * fog_dz));\n"),
        _ => "    float fog_range = fog_data[1].y - fog_data[1].x;\n".to_owned()
            .concat("    float fog_f = fog_range == 0.0 ? 0.0 : saturate((fog_data[1].y - fog_c) / fog_range);\n"),
    }
}

/// Appends the statements that blend fog into `target`.
pub fn write_fog_blend(out: &mut String, variant: VariantKey, target: &str)
    ensures
        final(out)@ == old(out)@ + fog_text(variant, target@),
{
    let text: String = if !fog_blend_active(variant) {
        "".to_owned()
    } else if variant.fog_table_mode != 0 {
        let distance = fog_distance_str(variant);
        let factor = fog_factor_expr(variant.fog_table_mode);
        distance.to_owned()
            .concat(factor.as_str())
            .concat("    ")
            .concat(target)
            .concat(" = float4(mix(fog_data[0].rgb, ")
            .concat(target)
            .concat(".rgb, fog_f), ")
            .concat(target)
            .concat(".a);\n")
    } else {
        "    ".to_owned()
            .concat(target)
            .concat(" = float4(mix(fog_data[0].rgb, ")
            .concat(target)
            .concat(".rgb, saturate(in.fog.x)), ")
            .concat(target)
            .concat(".a);\n")
    };
    out.append(text.as_str());
}

/// The condition under which a fragment passes the alpha test.
pub open spec fn alpha_condition(func: u8) -> Seq<char> {
    match func {
        1 => "false"@,
        2 => "oC0.a < alpha_ref"@,
        3 => "oC0.a == alpha_ref"@,
        4 => "oC0.a <= alpha_ref"@,
        5 => "oC0.a > alpha_ref"@,
        6 => "oC0.a != alpha_ref"@,
        7 => "oC0.a >= alpha_ref"@,
        _ => "true"@,
    }
}

/// The statement of the alpha test; nothing where every fragment passes.
pub open spec fn alpha_text(variant: VariantKey) -> Seq<char> {
    if variant.tests_alpha() {
        "    if (!("@ + alpha_condition(variant.alpha_func) + ")) discard_fragment();\n"@
    } else {
        ""@
    }
}

/// The statement of the alpha test.
pub fn emit_alpha_test(variant: VariantKey) -> (r: String)
    ensures
        r@ == alpha_text(variant),
{
    if variant.alpha_func == 0 || variant.alpha_func == 8 {
        return "".to_owned();
    }
    let condition: &str = match variant.alpha_func {
        1 => "false",
        2 => "oC0.a < alpha_ref",
        3 => "oC0.a == alpha_ref",
        4 => "oC0.a <= alpha_ref",
        5 => "oC0.a > alpha_ref",
        6 => "oC0.a != alpha_ref",
        7 => "oC0.a >= alpha_ref",
        _ => "true",
    };
    "    if (!(".to_owned().concat(condition).concat(")) discard_fragment();\n")
}

} // verus!
