//! Vertex shaders.

use crate::dxso::emit::common::{
    const_rel_text, emit_const_rel_helper, emit_float_locals, emit_int_locals, emit_varyings,
    float_locals, int_locals, preamble, varyings_text,
};
use crate::dxso::emit::context::{
    find_output_usage, mask_bit, output_usage, test_mask_bit, EmitContext,
};
use crate::dxso::emit::error::{emits, EmitError, EmitFailure, Emitted};
use crate::dxso::emit::floats::FloatTexts;
use crate::dxso::emit::lower::{lowered_from, LowerState, Lowering};
use crate::dxso::ir::{
    DeclUsage, Declaration, DxsoProgram, Instruction, RegKind, Register, ShaderType,
};
use crate::text::{dec, decimal};
use vstd::prelude::*;

verus! {

broadcast use vstd::std_specs::btree::group_btree_axioms;

/// The entry point of a vertex shader where the caller names none.
pub const DEFAULT_VS_ENTRY: &'static str = "mtld3d_vs";

/// Whether `d` declares an input that the vertex declaration provides.
pub open spec fn declares_attribute(d: Declaration, provided_mask: u16) -> bool {
    d matches Declaration::Semantic { reg, .. } && reg.kind == RegKind::Input && (reg.index >= 16
        || mask_bit(provided_mask, reg.index))
}

/// The register of a declaration.
pub open spec fn declared_reg(d: Declaration) -> Register {
    match d {
        Declaration::Semantic { reg, .. } => reg,
        Declaration::Sampler { reg, .. } => reg,
    }
}

/// The attributes of the declarations from `i` on, after `acc`.
pub open spec fn attributes_from(
    decls: Seq<Declaration>,
    i: nat,
    provided_mask: u16,
    acc: Seq<char>,
) -> Seq<char>
    decreases decls.len() - i,
{
    if i >= decls.len() {
        acc
    } else if declares_attribute(decls[i as int], provided_mask) {
        let n = dec(declared_reg(decls[i as int]).index as nat);
        attributes_from(
            decls,
            i + 1,
            provided_mask,
            acc + "    float4 v"@ + n + " [[attribute("@ + n + ")]];\n"@,
        )
    } else {
        attributes_from(decls, i + 1, provided_mask, acc)
    }
}

/// The input structure: one attribute for each input that the program declares
/// and the vertex declaration provides.
pub open spec fn vertex_in_text(vs: DxsoProgram, provided_mask: u16) -> Seq<char> {
    attributes_from(vs.declarations@, 0, provided_mask, "struct VertexIn {\n"@) + "};\n\n"@
}

/// Whether a write to `reg` sets the fog output: register 1 of the rasterizer
/// file, or in the third model an output declared as fog.
pub open spec fn sets_fog(vs: DxsoProgram, reg: Register) -> bool {
    if vs.major == 3 {
        output_usage(vs.declarations@, reg) matches Some((usage, _)) && usage == DeclUsage::Fog
    } else {
        reg.kind == RegKind::RastOut && reg.index == 1
    }
}

/// Whether some instruction of `body` writes the fog output.
pub open spec fn body_sets_fog(vs: DxsoProgram, body: Seq<Instruction>) -> bool {
    exists|i: int| 0 <= i < body.len() && #[trigger] inst_sets_fog(vs, body[i])
}

/// Whether `inst` writes the fog output.
pub open spec fn inst_sets_fog(vs: DxsoProgram, inst: Instruction) -> bool {
    inst.dst is Some && sets_fog(vs, inst.dst->0.reg)
}

/// Whether the main body or a subroutine writes the fog output.
pub open spec fn writes_fog(vs: DxsoProgram) -> bool {
    exists|b: Seq<Instruction>| #[trigger] vs.has_body(b) && body_sets_fog(vs, b)
}

/// Everything before the translated instructions.
pub open spec fn vs_prologue(
    vs: DxsoProgram,
    entry: Seq<char>,
    provided_mask: u16,
    helper: Seq<char>,
    locals: Seq<char>,
) -> Seq<char> {
    let dynamic_ints = if vs.reads_bound_ints() {
        ",\n    constant int4 *vs_i [[buffer(14)]]"@
    } else {
        ""@
    };
    preamble() + vertex_in_text(vs, provided_mask) + varyings_text(false) + helper
        + "vertex Varyings "@ + entry + "(\n"@ + "    VertexIn in [[stage_in]],\n"@
        + "    constant float4 *vs_c [[buffer(15)]],\n"@
        + "    constant float4 &pos_fixup [[buffer(13)]]"@ + dynamic_ints + "\n"@ + ") {\n"@
        + "    float4 r[32];\n"@ + "    int4 a = int4(0);\n"@
        + "    bool4 p0 = bool4(false);\n"@ + "    Varyings out;\n"@
        + "    out.position = float4(0.0);\n"@ + "    out.position1 = float4(0.0);\n"@
        + "    out.color0 = float4(1.0);\n"@ + "    out.color1 = float4(0.0);\n"@
        + "    out.fog = float4(1.0);\n"@ + "    float4 _psize_storage = float4(1.0);\n"@
        + "    float4 _rastout_discard = float4(0.0);\n"@ + locals + int_locals(vs)
}

/// Everything after the translated instructions.
///
/// The models before the third clamp the colours. A shader that never writes
/// fog takes its fog factor from the alpha of its specular colour. The position
/// is moved by half a pixel, scaled to survive the perspective divide.
pub open spec fn vs_epilogue(vs: DxsoProgram) -> Seq<char> {
    let colours = if vs.major < 3 {
        "    out.color0 = saturate(out.color0);\n"@ + "    out.color1 = saturate(out.color1);\n"@
    } else {
        ""@
    };
    let fog = if writes_fog(vs) {
        ""@
    } else {
        "    out.fog = float4(out.color1.w);\n"@
    };
    colours + fog + "    out.position.x += pos_fixup.x * out.position.w;\n"@
        + "    out.position.y += pos_fixup.y * out.position.w;\n"@
        + "    out.fog_z = out.position.z / out.position.w;\n"@
        + "    out.point_size = _psize_storage.x;\n"@ + "    return out;\n"@ + "}\n"@
}

/// The translation of a vertex shader.
pub open spec fn vs_source(
    vs: DxsoProgram,
    entry: Seq<char>,
    provided_mask: u16,
    texts: FloatTexts,
) -> Emitted {
    if vs.shader_type != ShaderType::Vertex {
        Err(EmitFailure::WrongShaderType)
    } else {
        match const_rel_text(vs, texts@) {
            Err(e) => Err(e),
            Ok(helper) => match float_locals(vs, false, texts@) {
                Err(e) => Err(e),
                Ok(locals) => {
                    let start = LowerState {
                        out: vs_prologue(vs, entry, provided_mask, helper, locals),
                        loops: Seq::empty(),
                        next_al: 0,
                    };
                    let ctx = EmitContext::spec_vs(vs, texts, provided_mask);
                    match lowered_from(vs.instructions@, 0, ctx, Seq::empty(), start) {
                        Err(e) => Err(e),
                        Ok(end) => Ok(end.out + vs_epilogue(vs)),
                    }
                },
            },
        }
    }
}

fn emit_vertex_in(vs: &DxsoProgram, provided_mask: u16) -> (r: String)
    ensures
        r@ == vertex_in_text(*vs, provided_mask),
{
    let mut acc: String = "struct VertexIn {\n".to_owned();
    let mut i: usize = 0;
    while i < vs.declarations.len()
        invariant
            i <= vs.declarations.len(),
            attributes_from(vs.declarations@, 0, provided_mask, "struct VertexIn {\n"@)
                == attributes_from(vs.declarations@, i as nat, provided_mask, acc@),
        decreases vs.declarations.len() - i,
    {
        if let Declaration::Semantic { usage, usage_index, reg } = vs.declarations[i] {
            if reg.kind == RegKind::Input && (reg.index >= 16 || test_mask_bit(
                provided_mask,
                reg.index,
            )) {
                let n = decimal(reg.index as u64);
                acc = acc.concat("    float4 v").concat(n.as_str()).concat(" [[attribute(").concat(
                    n.as_str(),
                ).concat(")]];\n");
            }
        }
        i = i + 1;
    }
    acc.concat("};\n\n")
}

fn is_fog_register(vs: &DxsoProgram, reg: Register) -> (r: bool)
    ensures
        r == sets_fog(*vs, reg),
{
    if vs.major == 3 {
        match find_output_usage(&vs.declarations, reg) {
            Some((usage, _)) => usage == DeclUsage::Fog,
            None => false,
        }
    } else {
        reg.kind == RegKind::RastOut && reg.index == 1
    }
}

fn body_writes_fog(vs: &DxsoProgram, body: &Vec<Instruction>) -> (r: bool)
    ensures
        r == body_sets_fog(*vs, body@),
{
    let mut i: usize = 0;
    while i < body.len()
        invariant
            i <= body.len(),
            forall|a: int| 0 <= a < i ==> !#[trigger] inst_sets_fog(*vs, body@[a]),
        decreases body.len() - i,
    {
        if let Some(dst) = body[i].dst {
            if is_fog_register(vs, dst.reg) {
                assert(inst_sets_fog(*vs, body@[i as int]));
                return true;
            }
        }
        i = i + 1;
    }
    false
}

fn vs_writes_fog(vs: &DxsoProgram) -> (r: bool)
    ensures
        r == writes_fog(*vs),
{
    let test = |b: &Vec<Instruction>| -> (t: bool)
        ensures
            t == body_sets_fog(*vs, b@),
    {
        body_writes_fog(vs, b)
    };
    vs.some_body(test, Ghost(|b: Seq<Instruction>| body_sets_fog(*vs, b)))
}

fn emit_vs_prologue(
    vs: &DxsoProgram,
    entry: &str,
    provided_mask: u16,
    helper: &str,
    locals: &str,
) -> (r: String)
    ensures
        r@ == vs_prologue(*vs, entry@, provided_mask, helper@, locals@),
{
    let dynamic_ints: &str = if vs.uses_dynamic_int_constants() {
        ",\n    constant int4 *vs_i [[buffer(14)]]"
    } else {
        ""
    };
    let preamble: &str = "#include <metal_stdlib>\nusing namespace metal;\n\n";
    let vertex_in = emit_vertex_in(vs, provided_mask);
    let varyings = emit_varyings(false);
    let ints = emit_int_locals(vs);
    preamble.to_owned()
        .concat(vertex_in.as_str())
        .concat(varyings.as_str())
        .concat(helper)
        .concat("vertex Varyings ")
        .concat(entry)
        .concat("(\n")
        .concat("    VertexIn in [[stage_in]],\n")
        .concat("    constant float4 *vs_c [[buffer(15)]],\n")
        .concat("    constant float4 &pos_fixup [[buffer(13)]]")
        .concat(dynamic_ints)
        .concat("\n")
        .concat(") {\n")
        .concat("    float4 r[32];\n")
        .concat("    int4 a = int4(0);\n")
        .concat("    bool4 p0 = bool4(false);\n")
        .concat("    Varyings out;\n")
        .concat("    out.position = float4(0.0);\n")
        .concat("    out.position1 = float4(0.0);\n")
        .concat("    out.color0 = float4(1.0);\n")
        .concat("    out.color1 = float4(0.0);\n")
        .concat("    out.fog = float4(1.0);\n")
        .concat("    float4 _psize_storage = float4(1.0);\n")
        .concat("    float4 _rastout_discard = float4(0.0);\n")
        .concat(locals)
        .concat(ints.as_str())
}

fn emit_vs_epilogue(vs: &DxsoProgram) -> (r: String)
    ensures
        r@ == vs_epilogue(*vs),
{
    let colours: String = if vs.major < 3 {
        "    out.color0 = saturate(out.color0);\n".to_owned()
            .concat("    out.color1 = saturate(out.color1);\n")
    } else {
        "".to_owned()
    };
    let fog: &str = if vs_writes_fog(vs) {
        ""
    } else {
        "    out.fog = float4(out.color1.w);\n"
    };
    colours.as_str().to_owned()
        .concat(fog)
        .concat("    out.position.x += pos_fixup.x * out.position.w;\n")
        .concat("    out.position.y += pos_fixup.y * out.position.w;\n")
        .concat("    out.fog_z = out.position.z / out.position.w;\n")
        .concat("    out.point_size = _psize_storage.x;\n")
        .concat("    return out;\n")
        .concat("}\n")
}

/// Translates a vertex shader, with the default entry point and every input
/// provided.
pub fn emit_vs_programmable(vs: &DxsoProgram, texts: &FloatTexts) -> (r: Result<String, EmitError>)
    requires
        vs_source(*vs, DEFAULT_VS_ENTRY@, u16::MAX, *texts) != Err::<Seq<char>, EmitFailure>(
            EmitFailure::Undefined,
        ),
    ensures
        emits(r, vs_source(*vs, DEFAULT_VS_ENTRY@, u16::MAX, *texts)),
{
    emit_vs_programmable_named(vs, DEFAULT_VS_ENTRY, u16::MAX, texts)
}

/// Translates a vertex shader into a function named `entry`.
///
/// `provided_mask` holds the inputs that the vertex declaration provides, one
/// bit each; `texts` the decimal renderings of the program's floats.
pub fn emit_vs_programmable_named(
    vs: &DxsoProgram,
    entry: &str,
    provided_mask: u16,
    texts: &FloatTexts,
) -> (r: Result<String, EmitError>)
    requires
        vs_source(*vs, entry@, provided_mask, *texts) != Err::<Seq<char>, EmitFailure>(
            EmitFailure::Undefined,
        ),
    ensures
        emits(r, vs_source(*vs, entry@, provided_mask, *texts)),
{
    emit_vs_checked(vs, entry, provided_mask, texts)
}

/// Translates any vertex shader into a function named `entry`, as
/// [`emit_vs_programmable_named`] does. Where the translation comes to an
/// instruction that lacks what its opcode reads, the outcome is
/// [`EmitError::Incomplete`], and nowhere else.
pub fn emit_vs_checked(
    vs: &DxsoProgram,
    entry: &str,
    provided_mask: u16,
    texts: &FloatTexts,
) -> (r: Result<String, EmitError>)
    ensures
        emits(r, vs_source(*vs, entry@, provided_mask, *texts)),
{
    if vs.shader_type != ShaderType::Vertex {
        return Err(EmitError::WrongShaderType);
    }
    let helper = emit_const_rel_helper(vs, texts)?;
    let locals = emit_float_locals(vs, false, texts)?;
    let mut lowering = Lowering {
        out: emit_vs_prologue(vs, entry, provided_mask, helper.as_str(), locals.as_str()),
        loops: Vec::new(),
        next_al: 0,
    };
    let ctx = EmitContext::vs(vs, texts, provided_mask);
    let mut expanding: Vec<u32> = Vec::new();
    lowering.translate_body(&vs.instructions, &ctx, &mut expanding)?;
    let epilogue = emit_vs_epilogue(vs);
    Ok(lowering.out.concat(epilogue.as_str()))
}

} // verus!
