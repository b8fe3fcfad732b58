//! Texts of operands: register reads and writes, modifiers, stores, samples.

use crate::dxso::emit::context::{
    defines_const, input_name, is_output_kind, is_output_reg_kind, output_target, output_usage,
    EmitContext,
};
use crate::dxso::emit::error::{emits, EmitError, EmitFailure, Emitted};
use crate::dxso::emit::floats::{float_literal, fmt_float, power_of_two, power_of_two_bits};
use crate::dxso::ir::{
    DstMods, DstOperand, DxsoProgram, RegKind, Register, SrcModifier, SrcOperand, Swizzle,
    TextureType, WriteMask,
};
use crate::dxso::queries::{defines, is_defined_int};
use crate::text::{dec, decimal, lane, lane_str};
use vstd::prelude::*;

verus! {

// ---------------------------------------------------------------------------
// Reads
// ---------------------------------------------------------------------------

/// The name of a register file.
pub open spec fn kind_name(kind: RegKind) -> Seq<char> {
    match kind {
        RegKind::Temp => "Temp"@,
        RegKind::Input => "Input"@,
        RegKind::Const => "Const"@,
        RegKind::Addr => "Addr"@,
        RegKind::RastOut => "RastOut"@,
        RegKind::AttrOut => "AttrOut"@,
        RegKind::TexcoordOut => "TexcoordOut"@,
        RegKind::ConstInt => "ConstInt"@,
        RegKind::ColorOut => "ColorOut"@,
        RegKind::DepthOut => "DepthOut"@,
        RegKind::Sampler => "Sampler"@,
        RegKind::Output => "Output"@,
        RegKind::ConstBool => "ConstBool"@,
        RegKind::Loop => "Loop"@,
        RegKind::TempFloat16 => "TempFloat16"@,
        RegKind::MiscType => "MiscType"@,
        RegKind::Label => "Label"@,
        RegKind::Predicate => "Predicate"@,
    }
}

fn kind_str(kind: RegKind) -> (r: &'static str)
    ensures
        r@ == kind_name(kind),
{
    match kind {
        RegKind::Temp => "Temp",
        RegKind::Input => "Input",
        RegKind::Const => "Const",
        RegKind::Addr => "Addr",
        RegKind::RastOut => "RastOut",
        RegKind::AttrOut => "AttrOut",
        RegKind::TexcoordOut => "TexcoordOut",
        RegKind::ConstInt => "ConstInt",
        RegKind::ColorOut => "ColorOut",
        RegKind::DepthOut => "DepthOut",
        RegKind::Sampler => "Sampler",
        RegKind::Output => "Output",
        RegKind::ConstBool => "ConstBool",
        RegKind::Loop => "Loop",
        RegKind::TempFloat16 => "TempFloat16",
        RegKind::MiscType => "MiscType",
        RegKind::Label => "Label",
        RegKind::Predicate => "Predicate",
    }
}

/// The counter of the innermost open `loop`. A `rep` scope has none.
pub open spec fn innermost(loops: Seq<Option<u64>>) -> Option<u64>
    decreases loops.len(),
{
    if loops.len() == 0 {
        None
    } else {
        match loops.last() {
            Some(i) => Some(i),
            None => innermost(loops.drop_last()),
        }
    }
}

fn current_loop_al(loops: &Vec<Option<u64>>) -> (r: Option<u64>)
    ensures
        r == innermost(loops@),
{
    let mut n: usize = loops.len();
    assert(loops@.take(n as int) =~= loops@);
    while n > 0
        invariant
            n <= loops.len(),
            innermost(loops@) == innermost(loops@.take(n as int)),
        decreases n,
    {
        n = n - 1;
        assert(loops@.take(n + 1).drop_last() =~= loops@.take(n as int));
        if let Some(i) = loops[n] {
            return Some(i);
        }
    }
    None
}

/// The uniform buffer of float constants.
pub open spec fn const_buffer(ctx: EmitContext) -> Seq<char> {
    if ctx.is_vertex {
        "vs_c"@
    } else {
        "ps_c"@
    }
}

fn const_buffer_str(ctx: &EmitContext) -> (r: &'static str)
    ensures
        r@ == const_buffer(*ctx),
{
    if ctx.is_vertex {
        "vs_c"
    } else {
        "ps_c"
    }
}

/// The expression that reads `reg`.
pub open spec fn read_text(reg: Register, ctx: EmitContext, loops: Seq<Option<u64>>) -> Emitted {
    let n = dec(reg.index as nat);
    match reg.kind {
        RegKind::Temp => Ok("r["@ + n + "]"@),
        // A defined constant is a local; one of ps_1_x holds values from minus
        // one to one.
        RegKind::Const => Ok(
            if defines_const(ctx.prog.def_constants@, reg.index) {
                "c"@ + n
            } else if !ctx.is_vertex && ctx.sm1() {
                "clamp(ps_c["@ + n + "], -1.0, 1.0)"@
            } else {
                const_buffer(ctx) + "["@ + n + "]"@
            },
        ),
        // An input that the vertex declaration leaves out reads zero.
        RegKind::Input => Ok(
            if ctx.is_vertex {
                if ctx.provides(reg.index) {
                    "in.v"@ + n
                } else {
                    "float4(0.0)"@
                }
            } else {
                "in."@ + input_name(ctx.prog.declarations@, ctx.prog.major, reg.index)
            },
        ),
        RegKind::ColorOut => Ok("oC"@ + n),
        // The address register of a vertex shader, and the texture register
        // of a pixel shader: read-write in the first model, an input later.
        RegKind::Addr => Ok(
            if ctx.is_vertex {
                "float4(a)"@
            } else if ctx.sm1() {
                "t["@ + n + "]"@
            } else {
                "in.texcoord"@ + n
            },
        ),
        RegKind::Loop => Ok(
            match innermost(loops) {
                Some(i) => "float4(aL_"@ + dec(i as nat) + ")"@,
                None => "float4(0)"@,
            },
        ),
        // An integer constant is a local where `defi` defines it; a vertex
        // shader reads any other from the integer buffer.
        RegKind::ConstInt => Ok(
            if ctx.is_vertex && !defines(ctx.prog.def_int_constants@, reg.index as int) {
                "float4(vs_i["@ + n + "])"@
            } else {
                "float4(i"@ + n + ")"@
            },
        ),
        RegKind::Label => Ok("/* label "@ + n + " */"@),
        // `vPos` counts pixels from their corner, Metal from their centre.
        RegKind::MiscType => Ok(
            if reg.index == 0 && ctx.has_vpos {
                "(in.position - 0.5)"@
            } else if reg.index == 1 && ctx.has_vface {
                "float4(v_face)"@
            } else {
                "float4(0.0)"@
            },
        ),
        _ => Err(EmitFailure::UnsupportedRegisterKind(kind_name(reg.kind))),
    }
}

/// The expression that reads `reg`.
pub fn register_read_expr(reg: Register, ctx: &EmitContext, loops: &Vec<Option<u64>>) -> (r: Result<
    String,
    EmitError,
>)
    ensures
        emits(r, read_text(reg, *ctx, loops@)),
{
    let n = decimal(reg.index as u64);
    Ok(
        match reg.kind {
            RegKind::Temp => "r[".to_owned().concat(n.as_str()).concat("]"),
            RegKind::Const => {
                if ctx.is_def_const(reg.index) {
                    "c".to_owned().concat(n.as_str())
                } else if !ctx.is_vertex && ctx.is_sm1() {
                    "clamp(ps_c[".to_owned().concat(n.as_str()).concat("], -1.0, 1.0)")
                } else {
                    const_buffer_str(ctx).to_owned().concat("[").concat(n.as_str()).concat("]")
                }
            },
            RegKind::Input => {
                if ctx.is_vertex {
                    if ctx.vs_input_provided(reg.index) {
                        "in.v".to_owned().concat(n.as_str())
                    } else {
                        "float4(0.0)".to_owned()
                    }
                } else {
                    "in.".to_owned().concat(ctx.input_varying_name(reg.index).as_str())
                }
            },
            RegKind::ColorOut => "oC".to_owned().concat(n.as_str()),
            RegKind::Addr => {
                if ctx.is_vertex {
                    "float4(a)".to_owned()
                } else if ctx.is_sm1() {
                    "t[".to_owned().concat(n.as_str()).concat("]")
                } else {
                    "in.texcoord".to_owned().concat(n.as_str())
                }
            },
            RegKind::Loop => match current_loop_al(loops) {
                Some(i) => "float4(aL_".to_owned().concat(decimal(i).as_str()).concat(")"),
                None => "float4(0)".to_owned(),
            },
            RegKind::ConstInt => {
                if ctx.is_vertex && !is_defined_int(&ctx.prog.def_int_constants, reg.index) {
                    "float4(vs_i[".to_owned().concat(n.as_str()).concat("])")
                } else {
                    "float4(i".to_owned().concat(n.as_str()).concat(")")
                }
            },
            RegKind::Label => "/* label ".to_owned().concat(n.as_str()).concat(" */"),
            RegKind::MiscType => {
                if reg.index == 0 && ctx.has_vpos {
                    "(in.position - 0.5)".to_owned()
                } else if reg.index == 1 && ctx.has_vface {
                    "float4(v_face)".to_owned()
                } else {
                    "float4(0.0)".to_owned()
                }
            },
            kind => return Err(EmitError::UnsupportedRegisterKind(kind_str(kind).to_owned())),
        },
    )
}

/// The scalar index of a relative constant read: a lane of the address
/// register, or the counter of the innermost loop.
pub open spec fn relative_index(src: SrcOperand, loops: Seq<Option<u64>>) -> Emitted {
    let rel = src.rel_addr->0;
    match rel.reg.kind {
        RegKind::Addr => if rel.swizzle.0[0] < 4 {
            Ok("a."@ + lane(rel.swizzle.0[0]))
        } else {
            Err(EmitFailure::Undefined)
        },
        RegKind::Loop => Ok(
            match innermost(loops) {
                Some(i) => "aL_"@ + dec(i as nat),
                None => "0"@,
            },
        ),
        _ => Err(
            EmitFailure::UnsupportedRegisterKind(
                "rel_addr using unsupported register "@ + kind_name(rel.reg.kind),
            ),
        ),
    }
}

/// Whether `src` is read through the helper that knows the defined constants.
pub open spec fn calls_const_rel(src: SrcOperand, prog: DxsoProgram) -> bool {
    src.reg.kind == RegKind::Const && src.rel_addr is Some && prog.def_constants@.len() != 0
}

/// The expression that reads the register of `src`, before its swizzle and
/// modifier.
///
/// Only float constants are read by relative address. Where the program
/// defines constants the read goes through a helper that knows them, since
/// they are not in the buffer.
pub open spec fn base_text(src: SrcOperand, ctx: EmitContext, loops: Seq<Option<u64>>) -> Emitted {
    if src.rel_addr is None {
        read_text(src.reg, ctx, loops)
    } else if src.reg.kind != RegKind::Const {
        Err(
            EmitFailure::UnsupportedRegisterKind(
                "rel_addr on non-const register "@ + kind_name(src.reg.kind),
            ),
        )
    } else {
        match relative_index(src, loops) {
            Err(e) => Err(e),
            Ok(index) => {
                let n = dec(src.reg.index as nat);
                if calls_const_rel(src, *ctx.prog) {
                    Ok("mtld3d_const_rel("@ + index + " + "@ + n + ", "@ + const_buffer(ctx)
                        + ")"@)
                } else {
                    Ok(const_buffer(ctx) + "["@ + index + " + "@ + n + "]"@)
                }
            },
        }
    }
}

/// `base` with the lanes of `s` selected.
pub open spec fn swizzled_text(base: Seq<char>, s: Swizzle) -> Seq<char> {
    if s.keeps_lanes() {
        base
    } else {
        "("@ + base + ")."@ + lane(s.0[0]) + lane(s.0[1]) + lane(s.0[2]) + lane(s.0[3])
    }
}

/// `e` with the source modifier `m` applied.
pub open spec fn modified_text(e: Seq<char>, m: SrcModifier) -> Seq<char> {
    match m {
        SrcModifier::Unmodified => e,
        SrcModifier::Neg => "(-"@ + e + ")"@,
        SrcModifier::Bias => "("@ + e + " - 0.5)"@,
        SrcModifier::BiasNeg => "-("@ + e + " - 0.5)"@,
        SrcModifier::Sign => "(2.0 * "@ + e + " - 1.0)"@,
        SrcModifier::SignNeg => "(1.0 - 2.0 * "@ + e + ")"@,
        SrcModifier::Comp => "(1.0 - "@ + e + ")"@,
        SrcModifier::X2 => "(2.0 * "@ + e + ")"@,
        SrcModifier::X2Neg => "(-2.0 * "@ + e + ")"@,
        SrcModifier::Abs => "abs("@ + e + ")"@,
        SrcModifier::AbsNeg => "(-abs("@ + e + "))"@,
        SrcModifier::Dz => "("@ + e + " / ("@ + e + ").z)"@,
        SrcModifier::Dw => "("@ + e + " / ("@ + e + ").w)"@,
        SrcModifier::Not => "float4(!bool4("@ + e + "))"@,
    }
}

/// The expression of a source operand.
pub open spec fn src_text(src: SrcOperand, ctx: EmitContext, loops: Seq<Option<u64>>) -> Emitted {
    match base_text(src, ctx, loops) {
        Err(e) => Err(e),
        Ok(base) => if src.swizzle.in_range() {
            Ok(modified_text(swizzled_text(base, src.swizzle), src.modifier))
        } else {
            Err(EmitFailure::Undefined)
        },
    }
}

fn apply_swizzle(base: &str, s: Swizzle) -> (r: String)
    requires
        s.in_range(),
    ensures
        r@ == swizzled_text(base@, s),
{
    if s.0[0] == 0 && s.0[1] == 1 && s.0[2] == 2 && s.0[3] == 3 {
        base.to_owned()
    } else {
        "(".to_owned()
            .concat(base)
            .concat(").")
            .concat(lane_str(s.0[0]))
            .concat(lane_str(s.0[1]))
            .concat(lane_str(s.0[2]))
            .concat(lane_str(s.0[3]))
    }
}

fn apply_src_modifier(e: &str, m: SrcModifier) -> (r: String)
    ensures
        r@ == modified_text(e@, m),
{
    match m {
        SrcModifier::Unmodified => e.to_owned(),
        SrcModifier::Neg => "(-".to_owned().concat(e).concat(")"),
        SrcModifier::Bias => "(".to_owned().concat(e).concat(" - 0.5)"),
        SrcModifier::BiasNeg => "-(".to_owned().concat(e).concat(" - 0.5)"),
        SrcModifier::Sign => "(2.0 * ".to_owned().concat(e).concat(" - 1.0)"),
        SrcModifier::SignNeg => "(1.0 - 2.0 * ".to_owned().concat(e).concat(")"),
        SrcModifier::Comp => "(1.0 - ".to_owned().concat(e).concat(")"),
        SrcModifier::X2 => "(2.0 * ".to_owned().concat(e).concat(")"),
        SrcModifier::X2Neg => "(-2.0 * ".to_owned().concat(e).concat(")"),
        SrcModifier::Abs => "abs(".to_owned().concat(e).concat(")"),
        SrcModifier::AbsNeg => "(-abs(".to_owned().concat(e).concat("))"),
        SrcModifier::Dz => "(".to_owned().concat(e).concat(" / (").concat(e).concat(").z)"),
        SrcModifier::Dw => "(".to_owned().concat(e).concat(" / (").concat(e).concat(").w)"),
        SrcModifier::Not => "float4(!bool4(".to_owned().concat(e).concat("))"),
    }
}

/// The expression of a source operand.
pub fn load_src(src: &SrcOperand, ctx: &EmitContext, loops: &Vec<Option<u64>>) -> (r: Result<
    String,
    EmitError,
>)
    ensures
        emits(r, src_text(*src, *ctx, loops@)),
{
    let base: String = match src.rel_addr {
        Some(rel) => {
            if src.reg.kind != RegKind::Const {
                return Err(
                    EmitError::UnsupportedRegisterKind(
                        "rel_addr on non-const register ".to_owned()
                            .concat(kind_str(src.reg.kind)),
                    ),
                );
            }
            let index: String = match rel.reg.kind {
                RegKind::Addr => {
                    if rel.swizzle.0[0] >= 4 {
                        return Err(EmitError::Incomplete);
                    }
                    "a.".to_owned().concat(lane_str(rel.swizzle.0[0]))
                },
                RegKind::Loop => match current_loop_al(loops) {
                    Some(i) => "aL_".to_owned().concat(decimal(i).as_str()),
                    None => "0".to_owned(),
                },
                other => {
                    return Err(
                        EmitError::UnsupportedRegisterKind(
                            "rel_addr using unsupported register ".to_owned()
                                .concat(kind_str(other)),
                        ),
                    );
                },
            };
            let n = decimal(src.reg.index as u64);
            let buf = const_buffer_str(ctx);
            if ctx.prog.def_constants.len() == 0 {
                buf.to_owned()
                    .concat("[")
                    .concat(index.as_str())
                    .concat(" + ")
                    .concat(n.as_str())
                    .concat("]")
            } else {
                "mtld3d_const_rel(".to_owned()
                    .concat(index.as_str())
                    .concat(" + ")
                    .concat(n.as_str())
                    .concat(", ")
                    .concat(buf)
                    .concat(")")
            }
        },
        None => register_read_expr(src.reg, ctx, loops)?,
    };
    let lanes = src.swizzle.0;
    if lanes[0] >= 4 || lanes[1] >= 4 || lanes[2] >= 4 || lanes[3] >= 4 {
        return Err(EmitError::Incomplete);
    }
    let swizzled = apply_swizzle(base.as_str(), src.swizzle);
    Ok(apply_src_modifier(swizzled.as_str(), src.modifier))
}

// ---------------------------------------------------------------------------
// Writes
// ---------------------------------------------------------------------------

/// The letter of component `c` where `m` writes it, nothing otherwise.
pub open spec fn mask_lane(m: WriteMask, c: u8) -> Seq<char> {
    if m.has(c) {
        lane(c)
    } else {
        ""@
    }
}

/// The letters of the components that `m` writes.
pub open spec fn mask_text(m: WriteMask) -> Seq<char> {
    mask_lane(m, 0) + mask_lane(m, 1) + mask_lane(m, 2) + mask_lane(m, 3)
}

fn mask_lane_str(m: WriteMask, c: u8) -> (r: &'static str)
    requires
        c < 4,
    ensures
        r@ == mask_lane(m, c),
{
    if m.covers(c) {
        lane_str(c)
    } else {
        ""
    }
}

/// The letters of the components that `m` writes.
pub fn write_mask_chars(m: WriteMask) -> (r: String)
    ensures
        r@ == mask_text(m),
{
    mask_lane_str(m, 0).to_owned()
        .concat(mask_lane_str(m, 1))
        .concat(mask_lane_str(m, 2))
        .concat(mask_lane_str(m, 3))
}

/// The lvalue that a write to `reg` goes to.
///
/// A third-model vertex output goes where its declaration says. Writes without
/// a place of their own go to a scratch vector or a comment.
pub open spec fn write_target(reg: Register, ctx: EmitContext) -> Seq<char> {
    let n = dec(reg.index as nat);
    if ctx.is_vertex && ctx.prog.major == 3 && is_output_kind(reg.kind) {
        match output_usage(ctx.prog.declarations@, reg) {
            Some((usage, usage_index)) => output_target(usage, usage_index),
            None => "_rastout_discard"@,
        }
    } else {
        match reg.kind {
            RegKind::Temp => "r["@ + n + "]"@,
            RegKind::RastOut => if reg.index == 0 {
                "out.position"@
            } else if reg.index == 1 {
                "out.fog"@
            } else if reg.index == 2 {
                "_psize_storage"@
            } else {
                "_rastout_discard"@
            },
            RegKind::AttrOut => "out.color"@ + n,
            RegKind::TexcoordOut => "out.texcoord"@ + n,
            RegKind::Addr => "t["@ + n + "]"@,
            RegKind::ColorOut => "oC"@ + n,
            RegKind::DepthOut => if ctx.has_depth_out {
                "_depth_storage"@
            } else {
                "/* oDepth */"@
            },
            RegKind::Predicate => "/* p0 */"@,
            _ => "/* unsupported reg "@ + kind_name(reg.kind) + " */"@,
        }
    }
}

/// The lvalue that a write to `reg` goes to.
pub fn register_write_target(reg: Register, ctx: &EmitContext) -> (r: String)
    ensures
        r@ == write_target(reg, *ctx),
{
    if ctx.is_vertex && ctx.prog.major == 3 && is_output_reg_kind(reg.kind) {
        return match ctx.declared_output(reg) {
            Some(target) => target,
            None => "_rastout_discard".to_owned(),
        };
    }
    let n = decimal(reg.index as u64);
    match reg.kind {
        RegKind::Temp => "r[".to_owned().concat(n.as_str()).concat("]"),
        RegKind::RastOut => match reg.index {
            0 => "out.position".to_owned(),
            1 => "out.fog".to_owned(),
            2 => "_psize_storage".to_owned(),
            _ => "_rastout_discard".to_owned(),
        },
        RegKind::AttrOut => "out.color".to_owned().concat(n.as_str()),
        RegKind::TexcoordOut => "out.texcoord".to_owned().concat(n.as_str()),
        RegKind::Addr => "t[".to_owned().concat(n.as_str()).concat("]"),
        RegKind::ColorOut => "oC".to_owned().concat(n.as_str()),
        RegKind::DepthOut => {
            if ctx.has_depth_out {
                "_depth_storage".to_owned()
            } else {
                "/* oDepth */".to_owned()
            }
        },
        RegKind::Predicate => "/* p0 */".to_owned(),
        other => "/* unsupported reg ".to_owned().concat(kind_str(other)).concat(" */"),
    }
}

/// `value` multiplied by two to the power `shift`.
pub open spec fn scaled_text(value: Seq<char>, shift: i8, ctx: EmitContext) -> Emitted {
    if shift == 0 {
        Ok(value)
    } else {
        match float_literal(power_of_two(shift), ctx.texts@) {
            Ok(factor) => Ok("("@ + value + " * "@ + factor + ")"@),
            Err(e) => Err(e),
        }
    }
}

/// The assignment of `value` to the components of `target` that `mask` writes.
pub open spec fn assign_text(target: Seq<char>, mask: WriteMask, value: Seq<char>) -> Seq<char> {
    if mask == WriteMask::spec_all() {
        "    "@ + target + " = "@ + value + ";\n"@
    } else {
        "    "@ + target + "."@ + mask_text(mask) + " = ("@ + value + ")."@ + mask_text(mask)
            + ";\n"@
    }
}

/// The statement that stores `value` in `dst`: scaled, then clamped where the
/// destination saturates, then written through the mask.
pub open spec fn store_text(dst: DstOperand, value: Seq<char>, ctx: EmitContext) -> Emitted {
    match scaled_text(value, dst.shift_scale, ctx) {
        Err(e) => Err(e),
        Ok(scaled) => Ok(
            assign_text(
                write_target(dst.reg, ctx),
                dst.write_mask,
                if dst.mods.has(DstMods::SATURATE) {
                    "saturate("@ + scaled + ")"@
                } else {
                    scaled
                },
            ),
        ),
    }
}

/// The statement that writes the address register of a vertex shader. `mova`
/// rounds the value, a plain `mov` floors it.
pub open spec fn address_text(dst: DstOperand, value: Seq<char>, floors: bool) -> Seq<char> {
    let rounded = if floors {
        "int4(floor("@ + value + "))"@
    } else {
        "int4(round("@ + value + "))"@
    };
    assign_text("a"@, dst.write_mask, rounded)
}

fn assignment(target: &str, mask: WriteMask, value: &str) -> (r: String)
    ensures
        r@ == assign_text(target@, mask, value@),
{
    if mask == WriteMask::all() {
        "    ".to_owned().concat(target).concat(" = ").concat(value).concat(";\n")
    } else {
        let chars = write_mask_chars(mask);
        "    ".to_owned()
            .concat(target)
            .concat(".")
            .concat(chars.as_str())
            .concat(" = (")
            .concat(value)
            .concat(").")
            .concat(chars.as_str())
            .concat(";\n")
    }
}

/// The statement that writes the address register of a vertex shader.
pub fn write_address_register(dst: DstOperand, value: &str, floors: bool) -> (r: String)
    ensures
        r@ == address_text(dst, value@, floors),
{
    let rounded: String = if floors {
        "int4(floor(".to_owned().concat(value).concat("))")
    } else {
        "int4(round(".to_owned().concat(value).concat("))")
    };
    assignment("a", dst.write_mask, rounded.as_str())
}

/// The statement that stores `value` in `dst`.
pub fn store_dst(dst: DstOperand, value: &str, ctx: &EmitContext) -> (r: Result<String, EmitError>)
    ensures
        emits(r, store_text(dst, value@, *ctx)),
{
    let target = register_write_target(dst.reg, ctx);
    let scaled: String = if dst.shift_scale == 0 {
        value.to_owned()
    } else {
        let factor = fmt_float(power_of_two_bits(dst.shift_scale), ctx.texts)?;
        "(".to_owned().concat(value).concat(" * ").concat(factor.as_str()).concat(")")
    };
    let stored: String = if dst.mods.contains(DstMods::SATURATE) {
        "saturate(".to_owned().concat(scaled.as_str()).concat(")")
    } else {
        scaled
    };
    Ok(assignment(target.as_str(), dst.write_mask, stored.as_str()))
}

// ---------------------------------------------------------------------------
// Samples
// ---------------------------------------------------------------------------

/// The lanes of a coordinate that sampler `slot` takes.
pub open spec fn coord_lanes(ctx: EmitContext, slot: u16) -> Seq<char> {
    match ctx.sampler(slot) {
        Some(TextureType::TextureCube) | Some(TextureType::Texture3D) => "xyz"@,
        _ => "xy"@,
    }
}

fn sampler_coord_swizzle(ctx: &EmitContext, slot: u16) -> (r: &'static str)
    ensures
        r@ == coord_lanes(*ctx, slot),
{
    match ctx.sampler_type(slot) {
        Some(TextureType::TextureCube | TextureType::Texture3D) => "xyz",
        _ => "xy",
    }
}

/// The level-of-detail argument of a sample of a depth texture: the given one,
/// or the first level. Implicit gradients are undefined next to a discarded
/// fragment.
pub open spec fn depth_lod(suffix: Option<Seq<char>>) -> Seq<char> {
    match suffix {
        Some(s) => s,
        None => ", level(0)"@,
    }
}

/// The expression that samples `slot` at `coord`, with the trailing argument
/// `suffix` where there is one.
///
/// A depth texture is compared against the clamped third coordinate, or read
/// raw; either gives a scalar, which is spread over a vector.
pub open spec fn sample_text(
    ctx: EmitContext,
    slot: u16,
    coord: Seq<char>,
    suffix: Option<Seq<char>>,
) -> Seq<char> {
    let n = dec(slot as nat);
    if ctx.raw_depth_bound(slot) {
        "float4(s"@ + n + ".sample(samp"@ + n + ", ("@ + coord + ").xy"@ + depth_lod(suffix)
            + "))"@
    } else if ctx.depth_bound(slot) {
        "float4(s"@ + n + ".sample_compare(samp"@ + n + ", ("@ + coord + ").xy, saturate(("@
            + coord + ").z)"@ + depth_lod(suffix) + "))"@
    } else {
        let tail = match suffix {
            Some(s) => s,
            None => ""@,
        };
        "s"@ + n + ".sample(samp"@ + n + ", ("@ + coord + ")."@ + coord_lanes(ctx, slot) + tail
            + ")"@
    }
}

/// The view of an optional text.
pub open spec fn opt_view(s: Option<&str>) -> Option<Seq<char>> {
    match s {
        Some(t) => Some(t@),
        None => None,
    }
}

/// The expression that samples `slot` at `coord`.
pub fn sample_or_compare(ctx: &EmitContext, slot: u16, coord: &str, suffix: Option<&str>) -> (r:
    String)
    ensures
        r@ == sample_text(*ctx, slot, coord@, opt_view(suffix)),
{
    let n = decimal(slot as u64);
    let lod: &str = match suffix {
        Some(s) => s,
        None => ", level(0)",
    };
    if ctx.is_raw_depth_sampler(slot) {
        return "float4(s".to_owned()
            .concat(n.as_str())
            .concat(".sample(samp")
            .concat(n.as_str())
            .concat(", (")
            .concat(coord)
            .concat(").xy")
            .concat(lod)
            .concat("))");
    }
    if ctx.is_depth_sampler(slot) {
        return "float4(s".to_owned()
            .concat(n.as_str())
            .concat(".sample_compare(samp")
            .concat(n.as_str())
            .concat(", (")
            .concat(coord)
            .concat(").xy, saturate((")
            .concat(coord)
            .concat(").z)")
            .concat(lod)
            .concat("))");
    }
    let lanes = sampler_coord_swizzle(ctx, slot);
    let tail: &str = match suffix {
        Some(s) => s,
        None => "",
    };
    "s".to_owned()
        .concat(n.as_str())
        .concat(".sample(samp")
        .concat(n.as_str())
        .concat(", (")
        .concat(coord)
        .concat(").")
        .concat(lanes)
        .concat(tail)
        .concat(")")
}

// ---------------------------------------------------------------------------
// Predicates and bump matrices
// ---------------------------------------------------------------------------

/// The condition that gates a predicated instruction: the predicate lane that
/// all lanes select, or any lane where they differ, negated for `Not`.
pub open spec fn gate_text(pred: SrcOperand) -> Emitted {
    let s = pred.swizzle.0;
    if s[0] >= 4 {
        Err(EmitFailure::Undefined)
    } else {
        let base = if s[1] == s[0] && s[2] == s[0] && s[3] == s[0] {
            "p0."@ + lane(s[0])
        } else {
            "any(p0)"@
        };
        if pred.modifier == SrcModifier::Not {
            Ok("!("@ + base + ")"@)
        } else {
            Ok(base)
        }
    }
}

/// The condition that gates a predicated instruction.
pub fn predicate_gate_expr(pred: &SrcOperand) -> (r: String)
    requires
        pred.swizzle.0[0] < 4,
    ensures
        gate_text(*pred) == Ok::<Seq<char>, EmitFailure>(r@),
{
    let s = pred.swizzle.0;
    let base: String = if s[1] == s[0] && s[2] == s[0] && s[3] == s[0] {
        "p0.".to_owned().concat(lane_str(s[0]))
    } else {
        "any(p0)".to_owned()
    };
    if pred.modifier == SrcModifier::Not {
        "!(".to_owned().concat(base.as_str()).concat(")")
    } else {
        base
    }
}

/// Element `component` of the bump matrix of `stage`.
pub open spec fn bump_matrix(stage: u16, component: Seq<char>) -> Seq<char> {
    "bump_env["@ + dec((stage * 2) as nat) + "]."@ + component
}

/// Luminance scale (`x`) or offset (`y`) of the bump mapping of `stage`.
pub open spec fn bump_luminance(stage: u16, component: Seq<char>) -> Seq<char> {
    "bump_env["@ + dec((stage * 2 + 1) as nat) + "]."@ + component
}

/// Element `component` of the bump matrix of `stage`.
pub fn bump_matrix_expr(stage: u16, component: &str) -> (r: String)
    requires
        stage < 0x8000,
    ensures
        r@ == bump_matrix(stage, component@),
{
    let i: u16 = stage * 2;
    "bump_env[".to_owned().concat(decimal(i as u64).as_str()).concat("].").concat(component)
}

/// Luminance scale or offset of the bump mapping of `stage`.
pub fn bump_lum_expr(stage: u16, component: &str) -> (r: String)
    requires
        stage < 0x8000,
    ensures
        r@ == bump_luminance(stage, component@),
{
    let i: u16 = stage * 2 + 1;
    "bump_env[".to_owned().concat(decimal(i as u64).as_str()).concat("].").concat(component)
}

} // verus!
