//! Texts of the texture instructions.

use crate::dxso::emit::context::EmitContext;
use crate::dxso::emit::error::{emits, EmitError, EmitFailure, Emitted};
use crate::dxso::emit::operands::{
    bump_lum_expr, bump_luminance, bump_matrix, bump_matrix_expr, mask_text, read_text,
    register_read_expr, register_write_target, sample_or_compare, sample_text, store_dst,
    store_text, write_mask_chars, write_target,
};
use crate::dxso::ir::{DstOperand, InstrFlags, Instruction, TextureType, WriteMask};
use crate::dxso::opcode::Opcode;
use crate::text::{dec, decimal, views};
use vstd::prelude::*;

verus! {

/// The failure of an instruction that lacks its destination.
pub open spec fn missing(message: Seq<char>) -> Emitted {
    Err(EmitFailure::UnsupportedInstruction(message))
}

fn missing_error(message: &str) -> (r: EmitError)
    ensures
        r@ == EmitFailure::UnsupportedInstruction(message@),
{
    EmitError::UnsupportedInstruction(message.to_owned())
}

/// The failure of a program without a translation.
pub open spec fn undefined() -> Emitted {
    Err(EmitFailure::Undefined)
}

// ---------------------------------------------------------------------------
// Sampling with explicit operands
// ---------------------------------------------------------------------------

/// The coordinate register `raw` divided by its `w`; the origin where that is
/// zero.
pub open spec fn projected_text(raw: Seq<char>) -> Seq<char> {
    "((("@ + raw + ").w != 0.0) ? float4(("@ + raw + ").xyz / ("@ + raw
        + ").w, 1.0) : float4(0.0, 0.0, 0.0, 1.0))"@
}

/// The value of `texld` in the first shader model.
///
/// The sampler is that of the destination's number. Before ps_1_4 the
/// coordinate is the destination register itself, divided by its `w` where
/// the stage projects.
pub open spec fn sm1_texld_text(
    inst: Instruction,
    s: Seq<Seq<char>>,
    ctx: EmitContext,
    loops: Seq<Option<u64>>,
) -> Emitted {
    match inst.dst {
        None => missing("SM1 tex/texld missing dst"@),
        Some(dst) => if ctx.prog.minor >= 4 {
            if s.len() < 1 {
                undefined()
            } else {
                Ok(sample_text(ctx, dst.reg.index, s[0], None))
            }
        } else {
            match read_text(dst.reg, ctx, loops) {
                Err(e) => Err(e),
                Ok(raw) => Ok(
                    sample_text(
                        ctx,
                        dst.reg.index,
                        if ctx.projects(dst.reg.index) {
                            projected_text(raw)
                        } else {
                            raw
                        },
                        None,
                    ),
                ),
            }
        },
    }
}

/// The value of `texld` from the second shader model on. `texldp` divides the
/// coordinate by its `w`.
pub open spec fn texld_text(inst: Instruction, s: Seq<Seq<char>>, ctx: EmitContext) -> Emitted {
    if s.len() < 2 {
        undefined()
    } else {
        let coord = if inst.flags.has(InstrFlags::TEX_PROJECTED) {
            "(("@ + s[0] + ") / ("@ + s[0] + ").w)"@
        } else {
            s[0]
        };
        Ok(sample_text(ctx, inst.srcs@[1].reg.index, coord, None))
    }
}

/// The value of `texldl`: the level of detail is the coordinate's `w`.
pub open spec fn texldl_text(inst: Instruction, s: Seq<Seq<char>>, ctx: EmitContext) -> Emitted {
    if s.len() < 2 {
        undefined()
    } else {
        let suffix = ", level(("@ + s[0] + ").w)"@;
        Ok(sample_text(ctx, inst.srcs@[1].reg.index, s[0], Some(suffix)))
    }
}

/// The value of `texldd`: the gradients are the third and fourth operand.
pub open spec fn texldd_text(inst: Instruction, s: Seq<Seq<char>>, ctx: EmitContext) -> Emitted {
    if s.len() < 4 {
        undefined()
    } else {
        let slot = inst.srcs@[1].reg.index;
        let suffix = match ctx.sampler(slot) {
            Some(TextureType::TextureCube) => {
                ", gradientcube(("@ + s[2] + ").xyz, ("@ + s[3] + ").xyz)"@
            },
            Some(TextureType::Texture3D) => {
                ", gradient3d(("@ + s[2] + ").xyz, ("@ + s[3] + ").xyz)"@
            },
            _ => ", gradient2d(("@ + s[2] + ").xy, ("@ + s[3] + ").xy)"@,
        };
        Ok(sample_text(ctx, slot, s[0], Some(suffix)))
    }
}

fn sm1_texld_expr(
    inst: &Instruction,
    s: &Vec<String>,
    ctx: &EmitContext,
    loops: &Vec<Option<u64>>,
) -> (r: Result<String, EmitError>)
    ensures
        emits(r, sm1_texld_text(*inst, views(s@), *ctx, loops@)),
{
    match inst.dst {
        None => Err(missing_error("SM1 tex/texld missing dst")),
        Some(dst) => {
            let slot: u16 = dst.reg.index;
            if ctx.prog.minor >= 4 {
                if s.len() < 1 {
                    return Err(EmitError::Incomplete);
                }
                return Ok(sample_or_compare(ctx, slot, s[0].as_str(), None));
            }
            let raw = register_read_expr(dst.reg, ctx, loops)?;
            if ctx.is_tt_projected(slot) {
                let r = raw.as_str();
                let coord = "(((".to_owned()
                    .concat(r)
                    .concat(").w != 0.0) ? float4((")
                    .concat(r)
                    .concat(").xyz / (")
                    .concat(r)
                    .concat(").w, 1.0) : float4(0.0, 0.0, 0.0, 1.0))");
                Ok(sample_or_compare(ctx, slot, coord.as_str(), None))
            } else {
                Ok(sample_or_compare(ctx, slot, raw.as_str(), None))
            }
        },
    }
}

fn texld_expr(inst: &Instruction, s: &Vec<String>, ctx: &EmitContext) -> (r: String)
    requires
        s.len() == inst.srcs.len(),
        s.len() >= 2,
    ensures
        texld_text(*inst, views(s@), *ctx) == Ok::<Seq<char>, EmitFailure>(r@),
{
    let slot: u16 = inst.srcs[1].reg.index;
    if inst.flags.contains(InstrFlags::TEX_PROJECTED) {
        let c = s[0].as_str();
        let projected = "((".to_owned().concat(c).concat(") / (").concat(c).concat(").w)");
        sample_or_compare(ctx, slot, projected.as_str(), None)
    } else {
        sample_or_compare(ctx, slot, s[0].as_str(), None)
    }
}

fn texldl_expr(inst: &Instruction, s: &Vec<String>, ctx: &EmitContext) -> (r: String)
    requires
        s.len() == inst.srcs.len(),
        s.len() >= 2,
    ensures
        texldl_text(*inst, views(s@), *ctx) == Ok::<Seq<char>, EmitFailure>(r@),
{
    let suffix = ", level((".to_owned().concat(s[0].as_str()).concat(").w)");
    sample_or_compare(ctx, inst.srcs[1].reg.index, s[0].as_str(), Some(suffix.as_str()))
}

fn texldd_expr(inst: &Instruction, s: &Vec<String>, ctx: &EmitContext) -> (r: String)
    requires
        s.len() == inst.srcs.len(),
        s.len() >= 4,
    ensures
        texldd_text(*inst, views(s@), *ctx) == Ok::<Seq<char>, EmitFailure>(r@),
{
    let slot: u16 = inst.srcs[1].reg.index;
    let ddx = s[2].as_str();
    let ddy = s[3].as_str();
    let suffix: String = match ctx.sampler_type(slot) {
        Some(TextureType::TextureCube) => {
            ", gradientcube((".to_owned()
                .concat(ddx)
                .concat(").xyz, (")
                .concat(ddy)
                .concat(").xyz)")
        },
        Some(TextureType::Texture3D) => {
            ", gradient3d((".to_owned()
                .concat(ddx)
                .concat(").xyz, (")
                .concat(ddy)
                .concat(").xyz)")
        },
        _ => ", gradient2d((".to_owned()
            .concat(ddx)
            .concat(").xy, (")
            .concat(ddy)
            .concat(").xy)"),
    };
    sample_or_compare(ctx, slot, s[0].as_str(), Some(suffix.as_str()))
}

// ---------------------------------------------------------------------------
// Texture addressing of the ps_1_x models
// ---------------------------------------------------------------------------

/// The value of `texcoord` (clamped) and, from ps_1_4 on, `texcrd` (not).
pub open spec fn texcoord_text(inst: Instruction, s: Seq<Seq<char>>, ctx: EmitContext) -> Emitted {
    match inst.dst {
        None => missing("texcoord/texcrd missing dst"@),
        Some(dst) => if ctx.prog.minor >= 4 {
            if s.len() < 1 {
                undefined()
            } else {
                Ok(s[0])
            }
        } else {
            Ok("saturate(in.texcoord"@ + dec(dst.reg.index as nat) + ")"@)
        },
    }
}

/// `a - b`, or zero where that is negative.
pub open spec fn less(a: u16, b: u16) -> nat {
    if a >= b {
        (a - b) as nat
    } else {
        0
    }
}

/// The dot product of a destination register's coordinate and an operand.
pub open spec fn row_text(coord: Seq<char>, s: Seq<char>) -> Seq<char> {
    "dot(("@ + coord + ").xyz, ("@ + s + ").xyz)"@
}

/// The normal that the `texm3x3` family assembles at register `m`: the rows
/// that the two preceding registers hold, and its own.
pub open spec fn normal_text(m: u16, coord: Seq<char>, s: Seq<char>) -> Seq<char> {
    "float3(t["@ + dec(less(m, 2)) + "].x, t["@ + dec(less(m, 1)) + "].x, "@
        + row_text(coord, s) + ")"@
}

/// The eye vector of `texm3x3vspec`: the `w` of the three coordinates.
pub open spec fn vspec_eye(m: u16, coord: Seq<char>) -> Seq<char> {
    "float3(t["@ + dec(less(m, 2)) + "].w, t["@ + dec(less(m, 1)) + "].w, ("@ + coord + ").w)"@
}

/// `eye` reflected about `normal`.
pub open spec fn reflected_text(n: Seq<char>, eye: Seq<char>) -> Seq<char> {
    "(2.0 * dot("@ + n + ", "@ + eye + ") / dot("@ + n + ", "@ + n + ") * "@ + n + " - "@ + eye
        + ")"@
}

/// The value of an op that reads the coordinate in its destination register.
///
/// `coord` is that register and `s` the operands, of which there is one, and
/// two for `texm3x3spec`.
pub open spec fn row_op_text(
    op: Opcode,
    m: u16,
    coord: Seq<char>,
    s: Seq<Seq<char>>,
    ctx: EmitContext,
) -> Seq<char> {
    let row = row_text(coord, s[0]);
    let normal = normal_text(m, coord, s[0]);
    match op {
        Opcode::TexM3x2Pad | Opcode::TexM3x3Pad => "float4("@ + row + ", 0.0, 0.0, 0.0)"@,
        Opcode::TexM3x2Tex => {
            let at = "float4(t["@ + dec(less(m, 1)) + "].x, "@ + row + ", 0.0, 0.0)"@;
            sample_text(ctx, m, at, None)
        },
        Opcode::TexM3x3 => "float4("@ + normal + ", 1.0)"@,
        Opcode::TexM3x3Tex => {
            let at = "float4("@ + normal + ", 0.0)"@;
            sample_text(ctx, m, at, None)
        },
        Opcode::TexM3x3Spec => {
            let eye = "("@ + s[1] + ").xyz"@;
            let at = "float4("@ + reflected_text(normal, eye) + ", 0.0)"@;
            sample_text(ctx, m, at, None)
        },
        Opcode::TexM3x3VSpec => {
            let at = "float4("@ + reflected_text(normal, vspec_eye(m, coord)) + ", 0.0)"@;
            sample_text(ctx, m, at, None)
        },
        Opcode::TexDp3 => "float4("@ + row + ")"@,
        _ => {
            let at = "float4("@ + row + ", 0.0, 0.0, 0.0)"@;
            sample_text(ctx, m, at, None)
        },
    }
}

/// Whether `op` reads the coordinate in its destination register.
pub open spec fn is_row_op(op: Opcode) -> bool {
    match op {
        Opcode::TexM3x2Pad
        | Opcode::TexM3x3Pad
        | Opcode::TexM3x2Tex
        | Opcode::TexM3x3
        | Opcode::TexM3x3Tex
        | Opcode::TexM3x3Spec
        | Opcode::TexM3x3VSpec
        | Opcode::TexDp3
        | Opcode::TexDp3Tex => true,
        _ => false,
    }
}

/// The message for a row op without a destination.
pub open spec fn row_op_message(op: Opcode) -> Seq<char> {
    match op {
        Opcode::TexM3x2Pad | Opcode::TexM3x3Pad => "texm3xNpad missing dst"@,
        Opcode::TexM3x2Tex => "texm3x2tex missing dst"@,
        Opcode::TexDp3 => "texdp3 missing dst"@,
        Opcode::TexDp3Tex => "texdp3tex missing dst"@,
        _ => "texm3x3* missing dst"@,
    }
}

/// The value of an op that reads the coordinate in its destination register.
pub open spec fn row_value_text(
    inst: Instruction,
    s: Seq<Seq<char>>,
    ctx: EmitContext,
    loops: Seq<Option<u64>>,
) -> Emitted {
    match inst.dst {
        None => missing(row_op_message(inst.opcode)),
        Some(dst) => match read_text(dst.reg, ctx, loops) {
            Err(e) => Err(e),
            Ok(coord) => if s.len() < 1 || (inst.opcode == Opcode::TexM3x3Spec && s.len() < 2) {
                undefined()
            } else {
                Ok(row_op_text(inst.opcode, dst.reg.index, coord, s, ctx))
            },
        },
    }
}

/// The value of `texreg2ar`, `texreg2gb` and `texreg2rgb`: the sample of the
/// destination's stage at two or three components of the operand.
pub open spec fn texreg_text(inst: Instruction, s: Seq<Seq<char>>, ctx: EmitContext) -> Emitted {
    match inst.dst {
        None => missing(
            match inst.opcode {
                Opcode::TexReg2Ar => "texreg2ar missing dst"@,
                Opcode::TexReg2Gb => "texreg2gb missing dst"@,
                _ => "texreg2rgb missing dst"@,
            },
        ),
        Some(dst) => if s.len() < 1 {
            undefined()
        } else {
            let at = match inst.opcode {
                Opcode::TexReg2Ar => "float4(("@ + s[0] + ").w, ("@ + s[0] + ").x, 0.0, 0.0)"@,
                Opcode::TexReg2Gb => "float4(("@ + s[0] + ").y, ("@ + s[0] + ").z, 0.0, 0.0)"@,
                _ => "float4(("@ + s[0] + ").xyz, 0.0)"@,
            };
            Ok(sample_text(ctx, dst.reg.index, at, None))
        },
    }
}

/// The value of `bem`: the first operand plus the bump matrix of the
/// destination's stage applied to the second.
pub open spec fn bem_text(inst: Instruction, s: Seq<Seq<char>>) -> Emitted {
    match inst.dst {
        None => missing("bem missing dst"@),
        Some(dst) => {
            let n = dst.reg.index;
            if n >= 0x8000 || s.len() < 2 {
                undefined()
            } else {
                let x = "("@ + s[0] + ").x + "@ + bump_matrix(n, "x"@) + " * ("@ + s[1]
                    + ").x + "@ + bump_matrix(n, "z"@) + " * ("@ + s[1] + ").y"@;
                let y = "("@ + s[0] + ").y + "@ + bump_matrix(n, "y"@) + " * ("@ + s[1]
                    + ").x + "@ + bump_matrix(n, "w"@) + " * ("@ + s[1] + ").y"@;
                Ok("float4("@ + x + ", "@ + y + ", 0.0, 0.0)"@)
            }
        },
    }
}

/// Component `c` of the coordinate that `texbem` perturbs.
pub open spec fn bem_base(coord: Seq<char>, c: Seq<char>, projected: bool) -> Seq<char> {
    if projected {
        "((("@ + coord + ").w != 0.0) ? ("@ + coord + ")."@ + c + " / ("@ + coord + ").w : 0.0)"@
    } else {
        "("@ + coord + ")."@ + c
    }
}

/// The coordinate at which `texbem` samples stage `n`.
pub open spec fn perturbed_text(
    n: u16,
    coord: Seq<char>,
    bump: Seq<char>,
    projected: bool,
) -> Seq<char> {
    let u = bem_base(coord, "x"@, projected) + " + "@ + bump_matrix(n, "x"@) + " * ("@ + bump
        + ").x + "@ + bump_matrix(n, "z"@) + " * ("@ + bump + ").y"@;
    let v = bem_base(coord, "y"@, projected) + " + "@ + bump_matrix(n, "y"@) + " * ("@ + bump
        + ").x + "@ + bump_matrix(n, "w"@) + " * ("@ + bump + ").y"@;
    "float4("@ + u + ", "@ + v + ", 0.0, 0.0)"@
}

/// The statement by which `texbeml` scales the sampled colour.
pub open spec fn luminance_text(n: u16, target: Seq<char>, bump: Seq<char>) -> Seq<char> {
    let lum = "saturate(("@ + bump + ").z * "@ + bump_luminance(n, "x"@) + " + "@
        + bump_luminance(n, "y"@) + ")"@;
    "    "@ + target + " = float4("@ + target + ".rgb * "@ + lum + ", "@ + target + ".a);\n"@
}

/// The statements of `texbem` and `texbeml`: sample the destination's stage at
/// its coordinate, perturbed by the bump matrix applied to the operand;
/// `texbeml` then scales the colour by the luminance.
pub open spec fn texbem_text(
    inst: Instruction,
    s: Seq<Seq<char>>,
    ctx: EmitContext,
    loops: Seq<Option<u64>>,
) -> Emitted {
    match inst.dst {
        None => missing("texbem missing dst"@),
        Some(dst) => {
            let n = dst.reg.index;
            match read_text(dst.reg, ctx, loops) {
                Err(e) => Err(e),
                Ok(coord) => if s.len() < 1 || n >= 0x8000 {
                    undefined()
                } else {
                    let at = perturbed_text(n, coord, s[0], ctx.projects(n));
                    match store_text(dst, sample_text(ctx, n, at, None), ctx) {
                        Err(e) => Err(e),
                        Ok(store) => Ok(
                            if inst.opcode == Opcode::TexBemL {
                                store + luminance_text(n, write_target(dst.reg, ctx), s[0])
                            } else {
                                store
                            },
                        ),
                    }
                },
            }
        },
    }
}

/// The statement of `texm3x2depth`: depth is the preceding register's row over
/// this one's.
pub open spec fn m3x2depth_text(
    inst: Instruction,
    s: Seq<Seq<char>>,
    ctx: EmitContext,
    loops: Seq<Option<u64>>,
) -> Emitted {
    match inst.dst {
        None => missing("texm3x2depth missing dst"@),
        Some(dst) => match read_text(dst.reg, ctx, loops) {
            Err(e) => Err(e),
            Ok(coord) => if s.len() < 1 {
                undefined()
            } else {
                let w = row_text(coord, s[0]);
                let z = "t["@ + dec(less(dst.reg.index, 1)) + "].x"@;
                Ok("    _depth_storage = float4(("@ + w + ") != 0.0 ? saturate(("@ + z
                    + ") / ("@ + w + ")) : 0.0);\n"@)
            },
        },
    }
}

/// The statement of `texdepth`: depth is `x` over `y`, which is at most one.
pub open spec fn texdepth_text(
    inst: Instruction,
    ctx: EmitContext,
    loops: Seq<Option<u64>>,
) -> Emitted {
    match inst.dst {
        None => missing("texdepth missing dst"@),
        Some(dst) => match read_text(dst.reg, ctx, loops) {
            Err(e) => Err(e),
            Ok(src) => Ok(
                "    _depth_storage = float4(saturate(("@ + src + ").x / min(("@ + src
                    + ").y, 1.0)));\n"@,
            ),
        },
    }
}

/// Whether `mask` writes none of the four components.
pub open spec fn writes_nothing(mask: WriteMask) -> bool {
    !mask.has(0) && !mask.has(1) && !mask.has(2) && !mask.has(3)
}

/// What `texkill` tests: the register itself from ps_1_4 on, the texture
/// coordinate of its number before.
pub open spec fn killed_text(dst: DstOperand, ctx: EmitContext, loops: Seq<Option<u64>>) -> Emitted {
    if ctx.prog.major >= 2 || (ctx.prog.major == 1 && ctx.prog.minor == 4) {
        read_text(dst.reg, ctx, loops)
    } else {
        Ok("in.texcoord"@ + dec(dst.reg.index as nat))
    }
}

/// The statement of `texkill`: discard where a tested component is negative.
/// From the second model on the write mask selects the components.
pub open spec fn texkill_text(
    inst: Instruction,
    ctx: EmitContext,
    loops: Seq<Option<u64>>,
) -> Emitted {
    match inst.dst {
        None => missing("texkill missing dst operand"@),
        Some(dst) => match killed_text(dst, ctx, loops) {
            Err(e) => Err(e),
            Ok(load) => if ctx.prog.major >= 2 {
                if writes_nothing(dst.write_mask) {
                    Ok(""@)
                } else {
                    Ok("    if (any(("@ + load + ")."@ + mask_text(dst.write_mask)
                        + " < 0.0)) discard_fragment();\n"@)
                }
            } else {
                Ok("    if (any(("@ + load + ").xyz < 0.0)) discard_fragment();\n"@)
            },
        },
    }
}

fn texcoord_expr(inst: &Instruction, s: &Vec<String>, ctx: &EmitContext) -> (r: Result<
    String,
    EmitError,
>)
    ensures
        emits(r, texcoord_text(*inst, views(s@), *ctx)),
{
    match inst.dst {
        None => Err(missing_error("texcoord/texcrd missing dst")),
        Some(dst) => if ctx.prog.minor >= 4 {
            if s.len() < 1 {
                return Err(EmitError::Incomplete);
            }
            Ok(s[0].as_str().to_owned())
        } else {
            Ok("saturate(in.texcoord".to_owned()
                .concat(decimal(dst.reg.index as u64).as_str())
                .concat(")"))
        },
    }
}

fn less_than(a: u16, b: u16) -> (r: u64)
    ensures
        r == less(a, b),
{
    if a >= b {
        (a - b) as u64
    } else {
        0
    }
}

fn row_expr(coord: &str, s: &str) -> (r: String)
    ensures
        r@ == row_text(coord@, s@),
{
    "dot((".to_owned().concat(coord).concat(").xyz, (").concat(s).concat(").xyz)")
}

fn normal_expr(m: u16, coord: &str, s: &str) -> (r: String)
    ensures
        r@ == normal_text(m, coord@, s@),
{
    let a = decimal(less_than(m, 2));
    let b = decimal(less_than(m, 1));
    let row = row_expr(coord, s);
    "float3(t[".to_owned()
        .concat(a.as_str())
        .concat("].x, t[")
        .concat(b.as_str())
        .concat("].x, ")
        .concat(row.as_str())
        .concat(")")
}

fn vspec_eye_expr(m: u16, coord: &str) -> (r: String)
    ensures
        r@ == vspec_eye(m, coord@),
{
    let a = decimal(less_than(m, 2));
    let b = decimal(less_than(m, 1));
    "float3(t[".to_owned()
        .concat(a.as_str())
        .concat("].w, t[")
        .concat(b.as_str())
        .concat("].w, (")
        .concat(coord)
        .concat(").w)")
}

fn reflected_expr(n: &str, eye: &str) -> (r: String)
    ensures
        r@ == reflected_text(n@, eye@),
{
    "(2.0 * dot(".to_owned()
        .concat(n)
        .concat(", ")
        .concat(eye)
        .concat(") / dot(")
        .concat(n)
        .concat(", ")
        .concat(n)
        .concat(") * ")
        .concat(n)
        .concat(" - ")
        .concat(eye)
        .concat(")")
}

fn row_op_expr(op: Opcode, m: u16, coord: &str, s: &Vec<String>, ctx: &EmitContext) -> (r: String)
    requires
        is_row_op(op),
        s.len() >= 1,
        op == Opcode::TexM3x3Spec ==> s.len() >= 2,
    ensures
        r@ == row_op_text(op, m, coord@, views(s@), *ctx),
{
    let row = row_expr(coord, s[0].as_str());
    let normal = normal_expr(m, coord, s[0].as_str());
    match op {
        Opcode::TexM3x2Pad | Opcode::TexM3x3Pad => "float4(".to_owned()
            .concat(row.as_str())
            .concat(", 0.0, 0.0, 0.0)"),
        Opcode::TexM3x2Tex => {
            let b = decimal(less_than(m, 1));
            let at = "float4(t[".to_owned()
                .concat(b.as_str())
                .concat("].x, ")
                .concat(row.as_str())
                .concat(", 0.0, 0.0)");
            sample_or_compare(ctx, m, at.as_str(), None)
        },
        Opcode::TexM3x3 => "float4(".to_owned().concat(normal.as_str()).concat(", 1.0)"),
        Opcode::TexM3x3Tex => {
            let at = "float4(".to_owned().concat(normal.as_str()).concat(", 0.0)");
            sample_or_compare(ctx, m, at.as_str(), None)
        },
        Opcode::TexM3x3Spec => {
            let eye = "(".to_owned().concat(s[1].as_str()).concat(").xyz");
            let reflected = reflected_expr(normal.as_str(), eye.as_str());
            let at = "float4(".to_owned().concat(reflected.as_str()).concat(", 0.0)");
            sample_or_compare(ctx, m, at.as_str(), None)
        },
        Opcode::TexM3x3VSpec => {
            let eye = vspec_eye_expr(m, coord);
            let reflected = reflected_expr(normal.as_str(), eye.as_str());
            let at = "float4(".to_owned().concat(reflected.as_str()).concat(", 0.0)");
            sample_or_compare(ctx, m, at.as_str(), None)
        },
        Opcode::TexDp3 => "float4(".to_owned().concat(row.as_str()).concat(")"),
        _ => {
            let at = "float4(".to_owned().concat(row.as_str()).concat(", 0.0, 0.0, 0.0)");
            sample_or_compare(ctx, m, at.as_str(), None)
        },
    }
}

fn row_op_message_str(op: Opcode) -> (r: &'static str)
    ensures
        r@ == row_op_message(op),
{
    match op {
        Opcode::TexM3x2Pad | Opcode::TexM3x3Pad => "texm3xNpad missing dst",
        Opcode::TexM3x2Tex => "texm3x2tex missing dst",
        Opcode::TexDp3 => "texdp3 missing dst",
        Opcode::TexDp3Tex => "texdp3tex missing dst",
        _ => "texm3x3* missing dst",
    }
}

fn row_value_expr(
    inst: &Instruction,
    s: &Vec<String>,
    ctx: &EmitContext,
    loops: &Vec<Option<u64>>,
) -> (r: Result<String, EmitError>)
    requires
        is_row_op(inst.opcode),
    ensures
        emits(r, row_value_text(*inst, views(s@), *ctx, loops@)),
{
    match inst.dst {
        None => Err(missing_error(row_op_message_str(inst.opcode))),
        Some(dst) => {
            let coord = register_read_expr(dst.reg, ctx, loops)?;
            if s.len() < 1 || (inst.opcode == Opcode::TexM3x3Spec && s.len() < 2) {
                return Err(EmitError::Incomplete);
            }
            Ok(row_op_expr(inst.opcode, dst.reg.index, coord.as_str(), s, ctx))
        },
    }
}

fn texreg_expr(inst: &Instruction, s: &Vec<String>, ctx: &EmitContext) -> (r: Result<
    String,
    EmitError,
>)
    ensures
        emits(r, texreg_text(*inst, views(s@), *ctx)),
{
    match inst.dst {
        None => Err(
            missing_error(
                match inst.opcode {
                    Opcode::TexReg2Ar => "texreg2ar missing dst",
                    Opcode::TexReg2Gb => "texreg2gb missing dst",
                    _ => "texreg2rgb missing dst",
                },
            ),
        ),
        Some(dst) => {
            if s.len() < 1 {
                return Err(EmitError::Incomplete);
            }
            let c = s[0].as_str();
            let at: String = match inst.opcode {
                Opcode::TexReg2Ar => "float4((".to_owned()
                    .concat(c)
                    .concat(").w, (")
                    .concat(c)
                    .concat(").x, 0.0, 0.0)"),
                Opcode::TexReg2Gb => "float4((".to_owned()
                    .concat(c)
                    .concat(").y, (")
                    .concat(c)
                    .concat(").z, 0.0, 0.0)"),
                _ => "float4((".to_owned().concat(c).concat(").xyz, 0.0)"),
            };
            Ok(sample_or_compare(ctx, dst.reg.index, at.as_str(), None))
        },
    }
}

fn bem_expr(inst: &Instruction, s: &Vec<String>) -> (r: Result<String, EmitError>)
    ensures
        emits(r, bem_text(*inst, views(s@))),
{
    match inst.dst {
        None => Err(missing_error("bem missing dst")),
        Some(dst) => {
            let n: u16 = dst.reg.index;
            if n >= 0x8000 || s.len() < 2 {
                return Err(EmitError::Incomplete);
            }
            let m00 = bump_matrix_expr(n, "x");
            let m01 = bump_matrix_expr(n, "y");
            let m10 = bump_matrix_expr(n, "z");
            let m11 = bump_matrix_expr(n, "w");
            let a = s[0].as_str();
            let b = s[1].as_str();
            let x = "(".to_owned()
                .concat(a)
                .concat(").x + ")
                .concat(m00.as_str())
                .concat(" * (")
                .concat(b)
                .concat(").x + ")
                .concat(m10.as_str())
                .concat(" * (")
                .concat(b)
                .concat(").y");
            let y = "(".to_owned()
                .concat(a)
                .concat(").y + ")
                .concat(m01.as_str())
                .concat(" * (")
                .concat(b)
                .concat(").x + ")
                .concat(m11.as_str())
                .concat(" * (")
                .concat(b)
                .concat(").y");
            Ok("float4(".to_owned()
                .concat(x.as_str())
                .concat(", ")
                .concat(y.as_str())
                .concat(", 0.0, 0.0)"))
        },
    }
}

fn bem_base_expr(coord: &str, c: &str, projected: bool) -> (r: String)
    ensures
        r@ == bem_base(coord@, c@, projected),
{
    if projected {
        "(((".to_owned()
            .concat(coord)
            .concat(").w != 0.0) ? (")
            .concat(coord)
            .concat(").")
            .concat(c)
            .concat(" / (")
            .concat(coord)
            .concat(").w : 0.0)")
    } else {
        "(".to_owned().concat(coord).concat(").").concat(c)
    }
}

fn perturbed_expr(n: u16, coord: &str, bump: &str, projected: bool) -> (r: String)
    requires
        n < 0x8000,
    ensures
        r@ == perturbed_text(n, coord@, bump@, projected),
{
    let m00 = bump_matrix_expr(n, "x");
    let m01 = bump_matrix_expr(n, "y");
    let m10 = bump_matrix_expr(n, "z");
    let m11 = bump_matrix_expr(n, "w");
    let bx = bem_base_expr(coord, "x", projected);
    let by = bem_base_expr(coord, "y", projected);
    let u = bx.as_str().to_owned()
        .concat(" + ")
        .concat(m00.as_str())
        .concat(" * (")
        .concat(bump)
        .concat(").x + ")
        .concat(m10.as_str())
        .concat(" * (")
        .concat(bump)
        .concat(").y");
    let v = by.as_str().to_owned()
        .concat(" + ")
        .concat(m01.as_str())
        .concat(" * (")
        .concat(bump)
        .concat(").x + ")
        .concat(m11.as_str())
        .concat(" * (")
        .concat(bump)
        .concat(").y");
    "float4(".to_owned().concat(u.as_str()).concat(", ").concat(v.as_str()).concat(", 0.0, 0.0)")
}

fn luminance_stmt(n: u16, target: &str, bump: &str) -> (r: String)
    requires
        n < 0x8000,
    ensures
        r@ == luminance_text(n, target@, bump@),
{
    let scale = bump_lum_expr(n, "x");
    let offset = bump_lum_expr(n, "y");
    let lum = "saturate((".to_owned()
        .concat(bump)
        .concat(").z * ")
        .concat(scale.as_str())
        .concat(" + ")
        .concat(offset.as_str())
        .concat(")");
    "    ".to_owned()
        .concat(target)
        .concat(" = float4(")
        .concat(target)
        .concat(".rgb * ")
        .concat(lum.as_str())
        .concat(", ")
        .concat(target)
        .concat(".a);\n")
}

fn texbem_stmt(
    inst: &Instruction,
    s: &Vec<String>,
    ctx: &EmitContext,
    loops: &Vec<Option<u64>>,
) -> (r: Result<String, EmitError>)
    ensures
        emits(r, texbem_text(*inst, views(s@), *ctx, loops@)),
{
    match inst.dst {
        None => Err(missing_error("texbem missing dst")),
        Some(dst) => {
            let n: u16 = dst.reg.index;
            let coord = register_read_expr(dst.reg, ctx, loops)?;
            if s.len() < 1 || n >= 0x8000 {
                return Err(EmitError::Incomplete);
            }
            let bump = s[0].as_str();
            let at = perturbed_expr(n, coord.as_str(), bump, ctx.is_tt_projected(n));
            let sampled = sample_or_compare(ctx, n, at.as_str(), None);
            let store = store_dst(dst, sampled.as_str(), ctx)?;
            if inst.opcode == Opcode::TexBemL {
                let target = register_write_target(dst.reg, ctx);
                Ok(store.concat(luminance_stmt(n, target.as_str(), bump).as_str()))
            } else {
                Ok(store)
            }
        },
    }
}

fn m3x2depth_stmt(
    inst: &Instruction,
    s: &Vec<String>,
    ctx: &EmitContext,
    loops: &Vec<Option<u64>>,
) -> (r: Result<String, EmitError>)
    ensures
        emits(r, m3x2depth_text(*inst, views(s@), *ctx, loops@)),
{
    match inst.dst {
        None => Err(missing_error("texm3x2depth missing dst")),
        Some(dst) => {
            let coord = register_read_expr(dst.reg, ctx, loops)?;
            if s.len() < 1 {
                return Err(EmitError::Incomplete);
            }
            let row = row_expr(coord.as_str(), s[0].as_str());
            let w = row.as_str();
            let z = "t[".to_owned()
                .concat(decimal(less_than(dst.reg.index, 1)).as_str())
                .concat("].x");
            Ok("    _depth_storage = float4((".to_owned()
                .concat(w)
                .concat(") != 0.0 ? saturate((")
                .concat(z.as_str())
                .concat(") / (")
                .concat(w)
                .concat(")) : 0.0);\n"))
        },
    }
}

fn texdepth_stmt(inst: &Instruction, ctx: &EmitContext, loops: &Vec<Option<u64>>) -> (r: Result<
    String,
    EmitError,
>)
    ensures
        emits(r, texdepth_text(*inst, *ctx, loops@)),
{
    match inst.dst {
        None => Err(missing_error("texdepth missing dst")),
        Some(dst) => {
            let read = register_read_expr(dst.reg, ctx, loops)?;
            let src = read.as_str();
            Ok("    _depth_storage = float4(saturate((".to_owned()
                .concat(src)
                .concat(").x / min((")
                .concat(src)
                .concat(").y, 1.0)));\n"))
        },
    }
}

fn texkill_stmt(inst: &Instruction, ctx: &EmitContext, loops: &Vec<Option<u64>>) -> (r: Result<
    String,
    EmitError,
>)
    ensures
        emits(r, texkill_text(*inst, *ctx, loops@)),
{
    match inst.dst {
        None => Err(missing_error("texkill missing dst operand")),
        Some(dst) => {
            let load: String = if ctx.prog.major >= 2 || (ctx.prog.major == 1 && ctx.prog.minor
                == 4) {
                register_read_expr(dst.reg, ctx, loops)?
            } else {
                "in.texcoord".to_owned().concat(decimal(dst.reg.index as u64).as_str())
            };
            if ctx.prog.major < 2 {
                return Ok("    if (any((".to_owned()
                    .concat(load.as_str())
                    .concat(").xyz < 0.0)) discard_fragment();\n"));
            }
            let mask = dst.write_mask;
            if !mask.covers(0) && !mask.covers(1) && !mask.covers(2) && !mask.covers(3) {
                return Ok("".to_owned());
            }
            let chars = write_mask_chars(mask);
            Ok("    if (any((".to_owned()
                .concat(load.as_str())
                .concat(").")
                .concat(chars.as_str())
                .concat(" < 0.0)) discard_fragment();\n"))
        },
    }
}

// ---------------------------------------------------------------------------
// Dispatch
// ---------------------------------------------------------------------------

/// Whether `op` computes a texture value that is then stored.
pub open spec fn is_texture_value(op: Opcode) -> bool {
    match op {
        Opcode::TexCoord
        | Opcode::TexLd
        | Opcode::TexLdL
        | Opcode::TexLdD
        | Opcode::Bem
        | Opcode::TexReg2Ar
        | Opcode::TexReg2Gb
        | Opcode::TexReg2Rgb => true,
        _ => is_row_op(op),
    }
}

/// The value of a texture instruction.
pub open spec fn texture_value_text(
    inst: Instruction,
    s: Seq<Seq<char>>,
    ctx: EmitContext,
    loops: Seq<Option<u64>>,
) -> Emitted {
    match inst.opcode {
        Opcode::TexCoord => texcoord_text(inst, s, ctx),
        Opcode::TexLd => if ctx.sm1() {
            sm1_texld_text(inst, s, ctx, loops)
        } else {
            texld_text(inst, s, ctx)
        },
        Opcode::TexLdL => texldl_text(inst, s, ctx),
        Opcode::TexLdD => texldd_text(inst, s, ctx),
        Opcode::Bem => bem_text(inst, s),
        Opcode::TexReg2Ar | Opcode::TexReg2Gb | Opcode::TexReg2Rgb => texreg_text(inst, s, ctx),
        _ => row_value_text(inst, s, ctx, loops),
    }
}

/// The value of a texture instruction.
pub fn texture_value_expr(
    inst: &Instruction,
    s: &Vec<String>,
    ctx: &EmitContext,
    loops: &Vec<Option<u64>>,
) -> (r: Result<String, EmitError>)
    requires
        is_texture_value(inst.opcode),
        s.len() == inst.srcs.len(),
    ensures
        emits(r, texture_value_text(*inst, views(s@), *ctx, loops@)),
{
    match inst.opcode {
        Opcode::TexCoord => texcoord_expr(inst, s, ctx),
        Opcode::TexLd => if ctx.is_sm1() {
            sm1_texld_expr(inst, s, ctx, loops)
        } else if s.len() < 2 {
            Err(EmitError::Incomplete)
        } else {
            Ok(texld_expr(inst, s, ctx))
        },
        Opcode::TexLdL => if s.len() < 2 {
            Err(EmitError::Incomplete)
        } else {
            Ok(texldl_expr(inst, s, ctx))
        },
        Opcode::TexLdD => if s.len() < 4 {
            Err(EmitError::Incomplete)
        } else {
            Ok(texldd_expr(inst, s, ctx))
        },
        Opcode::Bem => bem_expr(inst, s),
        Opcode::TexReg2Ar | Opcode::TexReg2Gb | Opcode::TexReg2Rgb => texreg_expr(inst, s, ctx),
        _ => row_value_expr(inst, s, ctx, loops),
    }
}

/// Whether `op` is a texture instruction that is a statement of its own.
pub open spec fn is_texture_statement(op: Opcode) -> bool {
    match op {
        Opcode::TexKill
        | Opcode::TexBem
        | Opcode::TexBemL
        | Opcode::TexM3x2Depth
        | Opcode::TexDepth => true,
        _ => false,
    }
}

/// The statements of a texture instruction that is not a plain store.
pub open spec fn texture_statement_text(
    inst: Instruction,
    s: Seq<Seq<char>>,
    ctx: EmitContext,
    loops: Seq<Option<u64>>,
) -> Emitted {
    match inst.opcode {
        Opcode::TexKill => texkill_text(inst, ctx, loops),
        Opcode::TexBem | Opcode::TexBemL => texbem_text(inst, s, ctx, loops),
        Opcode::TexM3x2Depth => m3x2depth_text(inst, s, ctx, loops),
        _ => texdepth_text(inst, ctx, loops),
    }
}

/// The statements of a texture instruction that is not a plain store.
pub fn texture_statement(
    inst: &Instruction,
    s: &Vec<String>,
    ctx: &EmitContext,
    loops: &Vec<Option<u64>>,
) -> (r: Result<String, EmitError>)
    ensures
        emits(r, texture_statement_text(*inst, views(s@), *ctx, loops@)),
{
    match inst.opcode {
        Opcode::TexKill => texkill_stmt(inst, ctx, loops),
        Opcode::TexBem | Opcode::TexBemL => texbem_stmt(inst, s, ctx, loops),
        Opcode::TexM3x2Depth => m3x2depth_stmt(inst, s, ctx, loops),
        _ => texdepth_stmt(inst, ctx, loops),
    }
}

} // verus!
