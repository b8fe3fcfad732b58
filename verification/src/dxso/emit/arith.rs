//! Texts of the arithmetic instructions.

use crate::dxso::emit::context::EmitContext;
use crate::dxso::emit::error::{emits, EmitError, EmitFailure, Emitted};
use crate::dxso::emit::operands::{load_src, src_text};
use crate::dxso::ir::{DstOperand, InstrFlags, Instruction, Register, SrcOperand};
use crate::dxso::opcode::Opcode;
use crate::text::views;
use vstd::prelude::*;

verus! {

/// The number of operands of a plain arithmetic opcode; 0 for any other.
pub open spec fn arity(op: Opcode) -> nat {
    match op {
        Opcode::Mov
        | Opcode::Rcp
        | Opcode::Rsq
        | Opcode::Frc
        | Opcode::Nrm
        | Opcode::Abs
        | Opcode::Exp
        | Opcode::ExpP
        | Opcode::Log
        | Opcode::LogP
        | Opcode::Sgn
        | Opcode::Dsx
        | Opcode::Dsy
        | Opcode::Lit
        | Opcode::SinCos => 1,
        Opcode::Add
        | Opcode::Sub
        | Opcode::Mul
        | Opcode::Dp3
        | Opcode::Dp4
        | Opcode::Min
        | Opcode::Max
        | Opcode::Pow
        | Opcode::Crs
        | Opcode::Dst
        | Opcode::Slt
        | Opcode::Sge => 2,
        Opcode::Mad
        | Opcode::Lrp
        | Opcode::Dp2Add
        | Opcode::Cmp => 3,
        _ => 0,
    }
}

/// The number of operands of a plain arithmetic opcode; 0 for any other.
pub fn operand_arity(op: Opcode) -> (r: usize)
    ensures
        r == arity(op),
{
    match op {
        Opcode::Mov
        | Opcode::Rcp
        | Opcode::Rsq
        | Opcode::Frc
        | Opcode::Nrm
        | Opcode::Abs
        | Opcode::Exp
        | Opcode::ExpP
        | Opcode::Log
        | Opcode::LogP
        | Opcode::Sgn
        | Opcode::Dsx
        | Opcode::Dsy
        | Opcode::Lit
        | Opcode::SinCos => 1,
        Opcode::Add
        | Opcode::Sub
        | Opcode::Mul
        | Opcode::Dp3
        | Opcode::Dp4
        | Opcode::Min
        | Opcode::Max
        | Opcode::Pow
        | Opcode::Crs
        | Opcode::Dst
        | Opcode::Slt
        | Opcode::Sge => 2,
        Opcode::Mad | Opcode::Lrp | Opcode::Dp2Add | Opcode::Cmp => 3,
        _ => 0,
    }
}

/// The value of a plain arithmetic opcode on the operands `s`.
pub open spec fn arith_text(op: Opcode, s: Seq<Seq<char>>) -> Seq<char> {
    match op {
        Opcode::Mov => s[0],
        Opcode::Add => "("@ + s[0] + " + "@ + s[1] + ")"@,
        Opcode::Sub => "("@ + s[0] + " - "@ + s[1] + ")"@,
        Opcode::Mul => "("@ + s[0] + " * "@ + s[1] + ")"@,
        Opcode::Mad => "fma("@ + s[0] + ", "@ + s[1] + ", "@ + s[2] + ")"@,
        Opcode::Dp3 => "float4(dot(("@ + s[0] + ").xyz, ("@ + s[1] + ").xyz))"@,
        Opcode::Dp4 => "float4(dot("@ + s[0] + ", "@ + s[1] + "))"@,
        Opcode::Rcp => "float4(1.0 / ("@ + s[0] + ").x)"@,
        Opcode::Rsq => "float4(rsqrt(abs(("@ + s[0] + ").x)))"@,
        Opcode::Min => "min("@ + s[0] + ", "@ + s[1] + ")"@,
        Opcode::Max => "max("@ + s[0] + ", "@ + s[1] + ")"@,
        Opcode::Frc => "fract("@ + s[0] + ")"@,
        // s0 * s1 + (1 - s0) * s2
        Opcode::Lrp => "mix("@ + s[2] + ", "@ + s[1] + ", "@ + s[0] + ")"@,
        // Every written component is scaled by the length of `xyz`.
        Opcode::Nrm => "(("@ + s[0] + ") * rsqrt(dot(("@ + s[0] + ").xyz, ("@ + s[0]
            + ").xyz)))"@,
        Opcode::Abs => "abs("@ + s[0] + ")"@,
        Opcode::Pow => "float4(pow(abs(("@ + s[0] + ").x), ("@ + s[1] + ").x))"@,
        Opcode::Exp | Opcode::ExpP => "float4(exp2(("@ + s[0] + ").x))"@,
        Opcode::Log | Opcode::LogP => "float4(log2(abs(("@ + s[0] + ").x)))"@,
        Opcode::Crs => "float4(cross(("@ + s[0] + ").xyz, ("@ + s[1] + ").xyz), 0.0)"@,
        Opcode::Sgn => "sign("@ + s[0] + ")"@,
        Opcode::Dp2Add => "float4(dot(("@ + s[0] + ").xy, ("@ + s[1] + ").xy) + ("@ + s[2]
            + ").x)"@,
        Opcode::Dsx => "dfdx("@ + s[0] + ")"@,
        Opcode::Dsy => "dfdy("@ + s[0] + ")"@,
        Opcode::Lit => "float4(1.0, max(("@ + s[0] + ").x, 0.0), (("@ + s[0]
            + ").x > 0.0) ? pow(max(("@ + s[0] + ").y, 0.0), ("@ + s[0] + ").w) : 0.0, 1.0)"@,
        Opcode::Dst => "float4(1.0, ("@ + s[0] + ").y * ("@ + s[1] + ").y, ("@ + s[0]
            + ").z, ("@ + s[1] + ").w)"@,
        // The coefficient operands of the second model are ignored.
        Opcode::SinCos => "float4(cos(("@ + s[0] + ").x), sin(("@ + s[0] + ").x), 0.0, 0.0)"@,
        // `select(a, b, c)` is `b` where `c` holds.
        Opcode::Cmp => "select("@ + s[2] + ", "@ + s[1] + ", "@ + s[0] + " >= float4(0.0))"@,
        // `step(edge, x)` is one where `x >= edge`.
        Opcode::Slt => "(float4(1.0) - step("@ + s[1] + ", "@ + s[0] + "))"@,
        Opcode::Sge => "step("@ + s[1] + ", "@ + s[0] + ")"@,
        _ => ""@,
    }
}

/// The value of a plain arithmetic opcode.
pub fn arith_expr(op: Opcode, s: &Vec<String>) -> (r: String)
    requires
        0 < arity(op) <= s.len(),
    ensures
        r@ == arith_text(op, views(s@)),
{
    match op {
        Opcode::Mov => s[0].as_str().to_owned(),
        Opcode::Add => "(".to_owned()
            .concat(s[0].as_str())
            .concat(" + ")
            .concat(s[1].as_str())
            .concat(")"),
        Opcode::Sub => "(".to_owned()
            .concat(s[0].as_str())
            .concat(" - ")
            .concat(s[1].as_str())
            .concat(")"),
        Opcode::Mul => "(".to_owned()
            .concat(s[0].as_str())
            .concat(" * ")
            .concat(s[1].as_str())
            .concat(")"),
        Opcode::Mad => "fma(".to_owned()
            .concat(s[0].as_str())
            .concat(", ")
            .concat(s[1].as_str())
            .concat(", ")
            .concat(s[2].as_str())
            .concat(")"),
        Opcode::Dp3 => "float4(dot((".to_owned()
            .concat(s[0].as_str())
            .concat(").xyz, (")
            .concat(s[1].as_str())
            .concat(").xyz))"),
        Opcode::Dp4 => "float4(dot(".to_owned()
            .concat(s[0].as_str())
            .concat(", ")
            .concat(s[1].as_str())
            .concat("))"),
        Opcode::Rcp => "float4(1.0 / (".to_owned().concat(s[0].as_str()).concat(").x)"),
        Opcode::Rsq => "float4(rsqrt(abs((".to_owned().concat(s[0].as_str()).concat(").x)))"),
        Opcode::Min => "min(".to_owned()
            .concat(s[0].as_str())
            .concat(", ")
            .concat(s[1].as_str())
            .concat(")"),
        Opcode::Max => "max(".to_owned()
            .concat(s[0].as_str())
            .concat(", ")
            .concat(s[1].as_str())
            .concat(")"),
        Opcode::Frc => "fract(".to_owned().concat(s[0].as_str()).concat(")"),
        Opcode::Lrp => "mix(".to_owned()
            .concat(s[2].as_str())
            .concat(", ")
            .concat(s[1].as_str())
            .concat(", ")
            .concat(s[0].as_str())
            .concat(")"),
        Opcode::Nrm => "((".to_owned()
            .concat(s[0].as_str())
            .concat(") * rsqrt(dot((")
            .concat(s[0].as_str())
            .concat(").xyz, (")
            .concat(s[0].as_str())
            .concat(").xyz)))"),
        Opcode::Abs => "abs(".to_owned().concat(s[0].as_str()).concat(")"),
        Opcode::Pow => "float4(pow(abs((".to_owned()
            .concat(s[0].as_str())
            .concat(").x), (")
            .concat(s[1].as_str())
            .concat(").x))"),
        Opcode::Exp | Opcode::ExpP => "float4(exp2((".to_owned()
            .concat(s[0].as_str())
            .concat(").x))"),
        Opcode::Log | Opcode::LogP => "float4(log2(abs((".to_owned()
            .concat(s[0].as_str())
            .concat(").x)))"),
        Opcode::Crs => "float4(cross((".to_owned()
            .concat(s[0].as_str())
            .concat(").xyz, (")
            .concat(s[1].as_str())
            .concat(").xyz), 0.0)"),
        Opcode::Sgn => "sign(".to_owned().concat(s[0].as_str()).concat(")"),
        Opcode::Dp2Add => "float4(dot((".to_owned()
            .concat(s[0].as_str())
            .concat(").xy, (")
            .concat(s[1].as_str())
            .concat(").xy) + (")
            .concat(s[2].as_str())
            .concat(").x)"),
        Opcode::Dsx => "dfdx(".to_owned().concat(s[0].as_str()).concat(")"),
        Opcode::Dsy => "dfdy(".to_owned().concat(s[0].as_str()).concat(")"),
        Opcode::Lit => "float4(1.0, max((".to_owned()
            .concat(s[0].as_str())
            .concat(").x, 0.0), ((")
            .concat(s[0].as_str())
            .concat(").x > 0.0) ? pow(max((")
            .concat(s[0].as_str())
            .concat(").y, 0.0), (")
            .concat(s[0].as_str())
            .concat(").w) : 0.0, 1.0)"),
        Opcode::Dst => "float4(1.0, (".to_owned()
            .concat(s[0].as_str())
            .concat(").y * (")
            .concat(s[1].as_str())
            .concat(").y, (")
            .concat(s[0].as_str())
            .concat(").z, (")
            .concat(s[1].as_str())
            .concat(").w)"),
        Opcode::SinCos => "float4(cos((".to_owned()
            .concat(s[0].as_str())
            .concat(").x), sin((")
            .concat(s[0].as_str())
            .concat(").x), 0.0, 0.0)"),
        Opcode::Cmp => "select(".to_owned()
            .concat(s[2].as_str())
            .concat(", ")
            .concat(s[1].as_str())
            .concat(", ")
            .concat(s[0].as_str())
            .concat(" >= float4(0.0))"),
        Opcode::Slt => "(float4(1.0) - step(".to_owned()
            .concat(s[1].as_str())
            .concat(", ")
            .concat(s[0].as_str())
            .concat("))"),
        Opcode::Sge => "step(".to_owned()
            .concat(s[1].as_str())
            .concat(", ")
            .concat(s[0].as_str())
            .concat(")"),
        _ => "".to_owned(),
    }
}

/// Whether `dst` is written in its alpha component alone.
pub open spec fn alpha_only(dst: Option<DstOperand>) -> bool {
    dst is Some && dst->0.write_mask.0 == 0b1000
}

/// The value of `cnd`.
///
/// In ps_1_4 each component is compared. Before, the first one decides, except
/// that a co-issued `cnd` that writes a colour takes its second operand.
pub open spec fn cnd_text(inst: Instruction, s: Seq<Seq<char>>, major: u8, minor: u8) -> Seq<char> {
    if major == 1 && minor >= 4 {
        "select("@ + s[2] + ", "@ + s[1] + ", "@ + s[0] + " > float4(0.5))"@
    } else if inst.flags.has(InstrFlags::COISSUE) && !alpha_only(inst.dst) {
        s[1]
    } else {
        "select("@ + s[2] + ", "@ + s[1] + ", ("@ + s[0] + ").x > 0.5)"@
    }
}

/// The value of `cnd`.
pub fn cnd_expr(inst: &Instruction, s: &Vec<String>, major: u8, minor: u8) -> (r: String)
    requires
        s.len() >= 3,
    ensures
        r@ == cnd_text(*inst, views(s@), major, minor),
{
    if major == 1 && minor >= 4 {
        return "select(".to_owned()
            .concat(s[2].as_str())
            .concat(", ")
            .concat(s[1].as_str())
            .concat(", ")
            .concat(s[0].as_str())
            .concat(" > float4(0.5))");
    }
    let alpha: bool = match inst.dst {
        Some(d) => d.write_mask.0 == 0b1000,
        None => false,
    };
    if inst.flags.contains(InstrFlags::COISSUE) && !alpha {
        s[1].as_str().to_owned()
    } else {
        "select(".to_owned()
            .concat(s[2].as_str())
            .concat(", ")
            .concat(s[1].as_str())
            .concat(", (")
            .concat(s[0].as_str())
            .concat(").x > 0.5)")
    }
}

/// Columns and rows of a matrix product.
pub open spec fn matrix_shape(op: Opcode) -> (nat, nat) {
    match op {
        Opcode::M4x4 => (4, 4),
        Opcode::M4x3 => (4, 3),
        Opcode::M3x4 => (3, 4),
        Opcode::M3x3 => (3, 3),
        _ => (3, 2),
    }
}

/// Row `i` of the matrix that starts at the operand `first`.
pub open spec fn matrix_row(first: SrcOperand, i: nat) -> SrcOperand {
    SrcOperand {
        reg: Register { kind: first.reg.kind, index: (first.reg.index + i) as u16 },
        ..first
    }
}

/// The product of a vector and one matrix row.
pub open spec fn dot_text(vector: Seq<char>, row: Seq<char>, cols: nat) -> Seq<char> {
    if cols == 3 {
        "dot(("@ + vector + ").xyz, ("@ + row + ").xyz)"@
    } else {
        "dot("@ + vector + ", "@ + row + ")"@
    }
}

/// The products of `vector` with the rows from `i` on, after `acc`.
pub open spec fn products_from(
    vector: Seq<char>,
    first: SrcOperand,
    shape: (nat, nat),
    i: nat,
    ctx: EmitContext,
    loops: Seq<Option<u64>>,
    acc: Seq<Seq<char>>,
) -> Result<Seq<Seq<char>>, EmitFailure>
    decreases shape.1 - i,
{
    if i >= shape.1 {
        Ok(acc)
    } else if first.reg.index + i > u16::MAX {
        Err(EmitFailure::Undefined)
    } else {
        match src_text(matrix_row(first, i), ctx, loops) {
            Err(e) => Err(e),
            Ok(row) => products_from(
                vector,
                first,
                shape,
                i + 1,
                ctx,
                loops,
                acc.push(dot_text(vector, row, shape.0)),
            ),
        }
    }
}

/// Lane `i` of a matrix product; lanes without a row are zero.
pub open spec fn product_lane(products: Seq<Seq<char>>, i: int) -> Seq<char> {
    if i < products.len() {
        products[i]
    } else {
        "0.0"@
    }
}

/// The product of `vector` and the matrix whose first row is `first`.
pub open spec fn matmul_text(
    vector: Seq<char>,
    first: SrcOperand,
    shape: (nat, nat),
    ctx: EmitContext,
    loops: Seq<Option<u64>>,
) -> Emitted {
    match products_from(vector, first, shape, 0, ctx, loops, Seq::empty()) {
        Err(e) => Err(e),
        Ok(p) => Ok(
            "float4("@ + product_lane(p, 0) + ", "@ + product_lane(p, 1) + ", "@
                + product_lane(p, 2) + ", "@ + product_lane(p, 3) + ")"@,
        ),
    }
}

fn product_lane_str(products: &Vec<String>, i: usize) -> (r: &str)
    ensures
        r@ == product_lane(views(products@), i as int),
{
    if i < products.len() {
        products[i].as_str()
    } else {
        "0.0"
    }
}

/// The product of `vector` and the matrix whose first row is `first`.
pub fn emit_matmul(
    vector: &str,
    first: &SrcOperand,
    cols: u8,
    rows: u8,
    ctx: &EmitContext,
    loops: &Vec<Option<u64>>,
) -> (r: Result<String, EmitError>)
    requires
        rows <= 4,
    ensures
        emits(r, matmul_text(vector@, *first, (cols as nat, rows as nat), *ctx, loops@)),
{
    let ghost shape = (cols as nat, rows as nat);
    let mut products: Vec<String> = Vec::new();
    let mut i: u8 = 0;
    assert(views(products@) =~= Seq::empty());
    while i < rows
        invariant
            i <= rows <= 4,
            shape == (cols as nat, rows as nat),
            products_from(vector@, *first, shape, 0, *ctx, loops@, Seq::empty()) == products_from(
                vector@,
                *first,
                shape,
                i as nat,
                *ctx,
                loops@,
                views(products@),
            ),
        decreases rows - i,
    {
        if first.reg.index > u16::MAX - i as u16 {
            return Err(EmitError::Incomplete);
        }
        let row = SrcOperand {
            reg: Register { kind: first.reg.kind, index: first.reg.index + i as u16 },
            swizzle: first.swizzle,
            modifier: first.modifier,
            rel_addr: first.rel_addr,
        };
        assert(row == matrix_row(*first, i as nat));
        let row_text = load_src(&row, ctx, loops)?;
        let product: String = if cols == 3 {
            "dot((".to_owned()
                .concat(vector)
                .concat(").xyz, (")
                .concat(row_text.as_str())
                .concat(").xyz)")
        } else {
            "dot(".to_owned().concat(vector).concat(", ").concat(row_text.as_str()).concat(")")
        };
        let ghost before = views(products@);
        products.push(product);
        assert(views(products@) =~= before.push(product@));
        i = i + 1;
    }
    Ok(
        "float4(".to_owned()
            .concat(product_lane_str(&products, 0))
            .concat(", ")
            .concat(product_lane_str(&products, 1))
            .concat(", ")
            .concat(product_lane_str(&products, 2))
            .concat(", ")
            .concat(product_lane_str(&products, 3))
            .concat(")"),
    )
}

} // verus!
