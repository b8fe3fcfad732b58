//! What the arithmetic instructions compute.
//!
//! Direct3D says what each operation does to the values of its operands. The
//! laws say that the texts compute that, whatever the operands are.

use crate::dxso::emit::arith::{
    alpha_only, arith_text, arity, cnd_text, dot_text, matmul_text, matrix_row, matrix_shape,
    product_lane, products_from,
};
use crate::dxso::emit::context::EmitContext;
use crate::dxso::emit::error::EmitFailure;
use crate::dxso::emit::metal::{
    absolute, call_1, call_2, call_3, call_4, choice, computes, four, greater, group, has_value,
    infix, inner, is_written, lanes, number, numerals, operand, sign_of, truth, vectors, whole, Env,
    Expr, Function, Operator, Value,
};
use crate::dxso::emit::operands::src_text;
use crate::dxso::ir::{InstrFlags, Instruction, Register, SrcOperand};
use crate::dxso::opcode::Opcode;
use vstd::prelude::*;

verus! {

// ---------------------------------------------------------------------------
// Arithmetic
// ---------------------------------------------------------------------------

/// The text of an arithmetic opcode, as a function of the operands.
pub open spec fn arith_of(op: Opcode) -> spec_fn(Seq<Seq<char>>) -> Seq<char> {
    |s: Seq<Seq<char>>| arith_text(op, s)
}

/// What an arithmetic opcode does to its operands.
pub open spec fn arith_result(op: Opcode, env: Env) -> Value {
    let a = env.operands[0];
    let b = env.operands[1];
    let c = env.operands[2];
    let l = env.library;
    match op {
        Opcode::Mov => a,
        Opcode::Add => Seq::new(4, |i: int| a[i] + b[i]),
        Opcode::Sub => Seq::new(4, |i: int| a[i] - b[i]),
        Opcode::Mul => Seq::new(4, |i: int| a[i] * b[i]),
        Opcode::Mad => Seq::new(4, |i: int| a[i] * b[i] + c[i]),
        Opcode::Dp3 => four(a[0] * b[0] + a[1] * b[1] + a[2] * b[2]),
        Opcode::Dp4 => four(a[0] * b[0] + a[1] * b[1] + a[2] * b[2] + a[3] * b[3]),
        Opcode::Rcp => four(whole(1) / a[0]),
        Opcode::Rsq => four((l.rsqrt)(absolute(a[0]))),
        Opcode::Min => Seq::new(4, |i: int| if a[i] < b[i] { a[i] } else { b[i] }),
        Opcode::Max => Seq::new(4, |i: int| if a[i] < b[i] { b[i] } else { a[i] }),
        Opcode::Frc => Seq::new(4, |i: int| a[i] - (l.floor)(a[i])),
        Opcode::Lrp => Seq::new(4, |i: int| a[i] * b[i] + (whole(1) - a[i]) * c[i]),
        Opcode::Nrm => Seq::new(4, |i: int| a[i] * (l.rsqrt)(a[0] * a[0] + a[1] * a[1]
            + a[2] * a[2])),
        Opcode::Abs => Seq::new(4, |i: int| absolute(a[i])),
        Opcode::Pow => four((l.pow)(absolute(a[0]), b[0])),
        Opcode::Exp | Opcode::ExpP => four((l.exp2)(a[0])),
        Opcode::Log | Opcode::LogP => four((l.log2)(absolute(a[0]))),
        Opcode::Crs => seq![
            a[1] * b[2] - a[2] * b[1],
            a[2] * b[0] - a[0] * b[2],
            a[0] * b[1] - a[1] * b[0],
            whole(0),
        ],
        Opcode::Sgn => Seq::new(4, |i: int| sign_of(a[i])),
        Opcode::Dp2Add => four(a[0] * b[0] + a[1] * b[1] + c[0]),
        Opcode::Dsx => (l.dfdx)(a),
        Opcode::Dsy => (l.dfdy)(a),
        Opcode::Lit => seq![
            whole(1),
            greater(a[0], whole(0)),
            if a[0] > whole(0) {
                (l.pow)(greater(a[1], whole(0)), a[3])
            } else {
                whole(0)
            },
            whole(1),
        ],
        Opcode::Dst => seq![whole(1), a[1] * b[1], a[2], b[3]],
        Opcode::SinCos => seq![(l.cos)(a[0]), (l.sin)(a[0]), whole(0), whole(0)],
        Opcode::Cmp => Seq::new(4, |i: int| if a[i] >= whole(0) { b[i] } else { c[i] }),
        Opcode::Slt => Seq::new(4, |i: int| truth(a[i] < b[i])),
        Opcode::Sge => Seq::new(4, |i: int| truth(a[i] >= b[i])),
        _ => Seq::empty(),
    }
}

/// What an arithmetic opcode does to its operands, as a function.
pub open spec fn arith_meaning(op: Opcode) -> spec_fn(Env) -> Value {
    |env: Env| arith_result(op, env)
}

proof fn mov_computes()
    ensures
        computes(arith_of(Opcode::Mov), 1, 6, 6, arith_meaning(Opcode::Mov)),
{
    reveal_with_fuel(Expr::behind, 2);
    reveal_with_fuel(Expr::value, 2);
    reveal_with_fuel(Expr::is_plain, 2);
    let e = operand(0);
    assert forall|s: Seq<Seq<char>>| #[trigger] (Seq::empty() + s[0]) == s[0] by {
        assert(Seq::empty() + s[0] =~= s[0]);
    }
    assert(is_written(e, arith_of(Opcode::Mov), 1, 6, 6));
    assert forall|env: Env| #[trigger] vectors(env.operands, 1) implies e.value(env)
        == (arith_meaning(Opcode::Mov))(env) by {
        assert(e.value(env) =~= (arith_meaning(Opcode::Mov))(env));
    }
    assert(has_value(e, 1, arith_meaning(Opcode::Mov)));
}

proof fn add_computes()
    ensures
        computes(arith_of(Opcode::Add), 2, 6, 6, arith_meaning(Opcode::Add)),
{
    reveal_with_fuel(Expr::behind, 4);
    reveal_with_fuel(Expr::value, 4);
    reveal_with_fuel(Expr::is_plain, 4);
    let e = group(infix(Operator::Plus, operand(0), operand(1)));
    assert("("@ == Seq::empty() + "("@) by {
        reveal_strlit("(");
    }
    assert(is_written(e, arith_of(Opcode::Add), 2, 6, 6));
    assert forall|env: Env| #[trigger] vectors(env.operands, 2) implies e.value(env)
        == (arith_meaning(Opcode::Add))(env) by {
        assert(e.value(env) =~= (arith_meaning(Opcode::Add))(env));
    }
    assert(has_value(e, 2, arith_meaning(Opcode::Add)));
}

proof fn sub_computes()
    ensures
        computes(arith_of(Opcode::Sub), 2, 6, 6, arith_meaning(Opcode::Sub)),
{
    reveal_with_fuel(Expr::behind, 4);
    reveal_with_fuel(Expr::value, 4);
    reveal_with_fuel(Expr::is_plain, 4);
    let e = group(infix(Operator::Minus, operand(0), operand(1)));
    assert("("@ == Seq::empty() + "("@) by {
        reveal_strlit("(");
    }
    assert(is_written(e, arith_of(Opcode::Sub), 2, 6, 6));
    assert forall|env: Env| #[trigger] vectors(env.operands, 2) implies e.value(env)
        == (arith_meaning(Opcode::Sub))(env) by {
        assert(e.value(env) =~= (arith_meaning(Opcode::Sub))(env));
    }
    assert(has_value(e, 2, arith_meaning(Opcode::Sub)));
}

proof fn mul_computes()
    ensures
        computes(arith_of(Opcode::Mul), 2, 6, 6, arith_meaning(Opcode::Mul)),
{
    reveal_with_fuel(Expr::behind, 4);
    reveal_with_fuel(Expr::value, 4);
    reveal_with_fuel(Expr::is_plain, 4);
    let e = group(infix(Operator::Times, operand(0), operand(1)));
    assert("("@ == Seq::empty() + "("@) by {
        reveal_strlit("(");
    }
    assert(is_written(e, arith_of(Opcode::Mul), 2, 6, 6));
    assert forall|env: Env| #[trigger] vectors(env.operands, 2) implies e.value(env)
        == (arith_meaning(Opcode::Mul))(env) by {
        assert(e.value(env) =~= (arith_meaning(Opcode::Mul))(env));
    }
    assert(has_value(e, 2, arith_meaning(Opcode::Mul)));
}

proof fn mad_computes()
    ensures
        computes(arith_of(Opcode::Mad), 3, 6, 6, arith_meaning(Opcode::Mad)),
{
    reveal_with_fuel(Expr::behind, 3);
    reveal_with_fuel(Expr::value, 3);
    reveal_with_fuel(Expr::is_plain, 3);
    let e = call_3(Function::Fma, operand(0), operand(1), operand(2));
    assert("fma("@ == Seq::empty() + "fma("@) by {
        reveal_strlit("fma(");
    }
    assert(is_written(e, arith_of(Opcode::Mad), 3, 6, 6));
    assert forall|env: Env| #[trigger] vectors(env.operands, 3) implies e.value(env)
        == (arith_meaning(Opcode::Mad))(env) by {
        assert(e.value(env) =~= (arith_meaning(Opcode::Mad))(env));
    }
    assert(has_value(e, 3, arith_meaning(Opcode::Mad)));
}

proof fn dp3_computes()
    ensures
        computes(arith_of(Opcode::Dp3), 2, 6, 6, arith_meaning(Opcode::Dp3)),
{
    reveal_with_fuel(Expr::behind, 6);
    reveal_with_fuel(Expr::value, 6);
    reveal_with_fuel(Expr::is_plain, 6);
    reveal_with_fuel(inner, 5);
    let e = call_1(
        Function::Float4,
        call_2(Function::Dot, lanes(group(operand(0)), "xyz"@), lanes(group(operand(1)), "xyz"@)),
    );
    assert("float4(dot(("@ == Seq::empty() + "float4("@ + "dot("@ + "("@) by {
        reveal_strlit("float4(dot((");
        reveal_strlit("float4(");
        reveal_strlit("dot(");
        reveal_strlit("(");
    }
    assert forall|x: Seq<char>| #[trigger] (x + ").xyz, ("@) == x + ")"@ + "."@ + "xyz"@ + ", "@
        + "("@ by {
        reveal_strlit(").xyz, (");
        reveal_strlit(")");
        reveal_strlit(".");
        reveal_strlit("xyz");
        reveal_strlit(", ");
        reveal_strlit("(");
        assert(x + ").xyz, ("@ =~= x + ")"@ + "."@ + "xyz"@ + ", "@ + "("@);
    }
    assert forall|x: Seq<char>| #[trigger] (x + ").xyz))"@) == x + ")"@ + "."@ + "xyz"@ + ")"@
        + ")"@ by {
        reveal_strlit(").xyz))");
        reveal_strlit(")");
        reveal_strlit(".");
        reveal_strlit("xyz");
        assert(x + ").xyz))"@ =~= x + ")"@ + "."@ + "xyz"@ + ")"@ + ")"@);
    }
    assert(is_written(e, arith_of(Opcode::Dp3), 2, 6, 6));
    reveal_strlit("xyz");
    assert forall|env: Env| #[trigger] vectors(env.operands, 2) implies e.value(env)
        == (arith_meaning(Opcode::Dp3))(env) by {
        assert(e.value(env) =~= (arith_meaning(Opcode::Dp3))(env));
    }
    assert(has_value(e, 2, arith_meaning(Opcode::Dp3)));
}

proof fn dp4_computes()
    ensures
        computes(arith_of(Opcode::Dp4), 2, 6, 6, arith_meaning(Opcode::Dp4)),
{
    reveal_with_fuel(Expr::behind, 4);
    reveal_with_fuel(Expr::value, 4);
    reveal_with_fuel(Expr::is_plain, 4);
    reveal_with_fuel(inner, 5);
    let e = call_1(Function::Float4, call_2(Function::Dot, operand(0), operand(1)));
    assert("float4(dot("@ == Seq::empty() + "float4("@ + "dot("@) by {
        reveal_strlit("float4(dot(");
        reveal_strlit("float4(");
        reveal_strlit("dot(");
    }
    assert forall|x: Seq<char>| #[trigger] (x + "))"@) == x + ")"@ + ")"@ by {
        reveal_strlit("))");
        reveal_strlit(")");
        assert(x + "))"@ =~= x + ")"@ + ")"@);
    }
    assert(is_written(e, arith_of(Opcode::Dp4), 2, 6, 6));
    assert forall|env: Env| #[trigger] vectors(env.operands, 2) implies e.value(env)
        == (arith_meaning(Opcode::Dp4))(env) by {
        assert(e.value(env) =~= (arith_meaning(Opcode::Dp4))(env));
    }
    assert(has_value(e, 2, arith_meaning(Opcode::Dp4)));
}

proof fn rcp_computes()
    ensures
        computes(arith_of(Opcode::Rcp), 1, 6, 6, arith_meaning(Opcode::Rcp)),
{
    reveal_with_fuel(Expr::behind, 6);
    reveal_with_fuel(Expr::value, 6);
    reveal_with_fuel(Expr::is_plain, 6);
    numerals();
    let e = call_1(
        Function::Float4,
        infix(Operator::Over, number("1.0"@), lanes(group(operand(0)), "x"@)),
    );
    assert("float4(1.0 / ("@ == Seq::empty() + "float4("@ + "1.0"@ + " / "@ + "("@) by {
        reveal_strlit("float4(1.0 / (");
        reveal_strlit("float4(");
        reveal_strlit("1.0");
        reveal_strlit(" / ");
        reveal_strlit("(");
    }
    assert forall|x: Seq<char>| #[trigger] (x + ").x)"@) == x + ")"@ + "."@ + "x"@ + ")"@ by {
        reveal_strlit(").x)");
        reveal_strlit(")");
        reveal_strlit(".");
        reveal_strlit("x");
        assert(x + ").x)"@ =~= x + ")"@ + "."@ + "x"@ + ")"@);
    }
    assert(is_written(e, arith_of(Opcode::Rcp), 1, 6, 6));
    reveal_strlit("x");
    assert forall|env: Env| #[trigger] vectors(env.operands, 1) implies e.value(env)
        == (arith_meaning(Opcode::Rcp))(env) by {
        assert(e.value(env) =~= (arith_meaning(Opcode::Rcp))(env));
    }
    assert(has_value(e, 1, arith_meaning(Opcode::Rcp)));
}

proof fn rsq_computes()
    ensures
        computes(arith_of(Opcode::Rsq), 1, 6, 6, arith_meaning(Opcode::Rsq)),
{
    reveal_with_fuel(Expr::behind, 7);
    reveal_with_fuel(Expr::value, 7);
    reveal_with_fuel(Expr::is_plain, 7);
    let e = call_1(
        Function::Float4,
        call_1(Function::Rsqrt, call_1(Function::Abs, lanes(group(operand(0)), "x"@))),
    );
    assert("float4(rsqrt(abs(("@ == Seq::empty() + "float4("@ + "rsqrt("@ + "abs("@ + "("@) by {
        reveal_strlit("float4(rsqrt(abs((");
        reveal_strlit("float4(");
        reveal_strlit("rsqrt(");
        reveal_strlit("abs(");
        reveal_strlit("(");
    }
    assert forall|x: Seq<char>| #[trigger] (x + ").x)))"@) == x + ")"@ + "."@ + "x"@ + ")"@ + ")"@
        + ")"@ by {
        reveal_strlit(").x)))");
        reveal_strlit(")");
        reveal_strlit(".");
        reveal_strlit("x");
        assert(x + ").x)))"@ =~= x + ")"@ + "."@ + "x"@ + ")"@ + ")"@ + ")"@);
    }
    assert(is_written(e, arith_of(Opcode::Rsq), 1, 6, 6));
    reveal_strlit("x");
    assert forall|env: Env| #[trigger] vectors(env.operands, 1) implies e.value(env)
        == (arith_meaning(Opcode::Rsq))(env) by {
        assert(e.value(env) =~= (arith_meaning(Opcode::Rsq))(env));
    }
    assert(has_value(e, 1, arith_meaning(Opcode::Rsq)));
}

proof fn min_computes()
    ensures
        computes(arith_of(Opcode::Min), 2, 6, 6, arith_meaning(Opcode::Min)),
{
    reveal_with_fuel(Expr::behind, 3);
    reveal_with_fuel(Expr::value, 3);
    reveal_with_fuel(Expr::is_plain, 3);
    let e = call_2(Function::Min, operand(0), operand(1));
    assert("min("@ == Seq::empty() + "min("@) by {
        reveal_strlit("min(");
    }
    assert(is_written(e, arith_of(Opcode::Min), 2, 6, 6));
    assert forall|env: Env| #[trigger] vectors(env.operands, 2) implies e.value(env)
        == (arith_meaning(Opcode::Min))(env) by {
        assert(e.value(env) =~= (arith_meaning(Opcode::Min))(env));
    }
    assert(has_value(e, 2, arith_meaning(Opcode::Min)));
}

proof fn max_computes()
    ensures
        computes(arith_of(Opcode::Max), 2, 6, 6, arith_meaning(Opcode::Max)),
{
    reveal_with_fuel(Expr::behind, 3);
    reveal_with_fuel(Expr::value, 3);
    reveal_with_fuel(Expr::is_plain, 3);
    let e = call_2(Function::Max, operand(0), operand(1));
    assert("max("@ == Seq::empty() + "max("@) by {
        reveal_strlit("max(");
    }
    assert(is_written(e, arith_of(Opcode::Max), 2, 6, 6));
    assert forall|env: Env| #[trigger] vectors(env.operands, 2) implies e.value(env)
        == (arith_meaning(Opcode::Max))(env) by {
        assert(e.value(env) =~= (arith_meaning(Opcode::Max))(env));
    }
    assert(has_value(e, 2, arith_meaning(Opcode::Max)));
}

proof fn frc_computes()
    ensures
        computes(arith_of(Opcode::Frc), 1, 6, 6, arith_meaning(Opcode::Frc)),
{
    reveal_with_fuel(Expr::behind, 3);
    reveal_with_fuel(Expr::value, 3);
    reveal_with_fuel(Expr::is_plain, 3);
    let e = call_1(Function::Fract, operand(0));
    assert("fract("@ == Seq::empty() + "fract("@) by {
        reveal_strlit("fract(");
    }
    assert(is_written(e, arith_of(Opcode::Frc), 1, 6, 6));
    assert forall|env: Env| #[trigger] vectors(env.operands, 1) implies e.value(env)
        == (arith_meaning(Opcode::Frc))(env) by {
        assert(e.value(env) =~= (arith_meaning(Opcode::Frc))(env));
    }
    assert(has_value(e, 1, arith_meaning(Opcode::Frc)));
}

proof fn lrp_computes()
    ensures
        computes(arith_of(Opcode::Lrp), 3, 6, 6, arith_meaning(Opcode::Lrp)),
{
    reveal_with_fuel(Expr::behind, 3);
    reveal_with_fuel(Expr::value, 3);
    reveal_with_fuel(Expr::is_plain, 3);
    let e = call_3(Function::Mix, operand(2), operand(1), operand(0));
    assert("mix("@ == Seq::empty() + "mix("@) by {
        reveal_strlit("mix(");
    }
    assert(is_written(e, arith_of(Opcode::Lrp), 3, 6, 6));
    assert forall|env: Env| #[trigger] vectors(env.operands, 3) implies e.value(env)
        == (arith_meaning(Opcode::Lrp))(env) by {
        let (a, b, c) = (env.operands[0], env.operands[1], env.operands[2]);
        assert forall|i: int| 0 <= i < 4 implies c[i] * (whole(1) - a[i]) + b[i] * a[i]
            == a[i] * b[i]
            + (whole(1) - a[i]) * c[i] by {
            let (x, y, z) = (a[i], b[i], c[i]);
            assert(z * (whole(1) - x) + y * x == x * y + (whole(1) - x) * z) by (nonlinear_arith);
        }
        assert(e.value(env) =~= (arith_meaning(Opcode::Lrp))(env));
    }
    assert(has_value(e, 3, arith_meaning(Opcode::Lrp)));
}

proof fn nrm_computes()
    ensures
        computes(arith_of(Opcode::Nrm), 1, 6, 6, arith_meaning(Opcode::Nrm)),
{
    reveal_with_fuel(Expr::behind, 8);
    reveal_with_fuel(Expr::value, 8);
    reveal_with_fuel(Expr::is_plain, 8);
    reveal_with_fuel(inner, 5);
    let e = group(
        infix(
            Operator::Times,
            group(operand(0)),
            call_1(
                Function::Rsqrt,
                call_2(
                    Function::Dot,
                    lanes(group(operand(0)), "xyz"@),
                    lanes(group(operand(0)), "xyz"@),
                ),
            ),
        ),
    );
    assert("(("@ == Seq::empty() + "("@ + "("@) by {
        reveal_strlit("((");
        reveal_strlit("(");
    }
    assert forall|x: Seq<char>| #[trigger] (x + ") * rsqrt(dot(("@) == x + ")"@ + " * "@ + "rsqrt("@
        + "dot("@ + "("@ by {
        reveal_strlit(") * rsqrt(dot((");
        reveal_strlit(")");
        reveal_strlit(" * ");
        reveal_strlit("rsqrt(");
        reveal_strlit("dot(");
        reveal_strlit("(");
        assert(x + ") * rsqrt(dot(("@ =~= x + ")"@ + " * "@ + "rsqrt("@ + "dot("@ + "("@);
    }
    assert forall|x: Seq<char>| #[trigger] (x + ").xyz, ("@) == x + ")"@ + "."@ + "xyz"@ + ", "@
        + "("@ by {
        reveal_strlit(").xyz, (");
        reveal_strlit(")");
        reveal_strlit(".");
        reveal_strlit("xyz");
        reveal_strlit(", ");
        reveal_strlit("(");
        assert(x + ").xyz, ("@ =~= x + ")"@ + "."@ + "xyz"@ + ", "@ + "("@);
    }
    assert forall|x: Seq<char>| #[trigger] (x + ").xyz)))"@) == x + ")"@ + "."@ + "xyz"@ + ")"@
        + ")"@ + ")"@ by {
        reveal_strlit(").xyz)))");
        reveal_strlit(")");
        reveal_strlit(".");
        reveal_strlit("xyz");
        assert(x + ").xyz)))"@ =~= x + ")"@ + "."@ + "xyz"@ + ")"@ + ")"@ + ")"@);
    }
    assert(is_written(e, arith_of(Opcode::Nrm), 1, 6, 6));
    reveal_strlit("xyz");
    assert forall|env: Env| #[trigger] vectors(env.operands, 1) implies e.value(env)
        == (arith_meaning(Opcode::Nrm))(env) by {
        assert(e.value(env) =~= (arith_meaning(Opcode::Nrm))(env));
    }
    assert(has_value(e, 1, arith_meaning(Opcode::Nrm)));
}

proof fn abs_computes()
    ensures
        computes(arith_of(Opcode::Abs), 1, 6, 6, arith_meaning(Opcode::Abs)),
{
    reveal_with_fuel(Expr::behind, 3);
    reveal_with_fuel(Expr::value, 3);
    reveal_with_fuel(Expr::is_plain, 3);
    let e = call_1(Function::Abs, operand(0));
    assert("abs("@ == Seq::empty() + "abs("@) by {
        reveal_strlit("abs(");
    }
    assert(is_written(e, arith_of(Opcode::Abs), 1, 6, 6));
    assert forall|env: Env| #[trigger] vectors(env.operands, 1) implies e.value(env)
        == (arith_meaning(Opcode::Abs))(env) by {
        assert(e.value(env) =~= (arith_meaning(Opcode::Abs))(env));
    }
    assert(has_value(e, 1, arith_meaning(Opcode::Abs)));
}

proof fn pow_computes()
    ensures
        computes(arith_of(Opcode::Pow), 2, 6, 6, arith_meaning(Opcode::Pow)),
{
    reveal_with_fuel(Expr::behind, 7);
    reveal_with_fuel(Expr::value, 7);
    reveal_with_fuel(Expr::is_plain, 7);
    let e = call_1(
        Function::Float4,
        call_2(
            Function::Pow,
            call_1(Function::Abs, lanes(group(operand(0)), "x"@)),
            lanes(group(operand(1)), "x"@),
        ),
    );
    assert("float4(pow(abs(("@ == Seq::empty() + "float4("@ + "pow("@ + "abs("@ + "("@) by {
        reveal_strlit("float4(pow(abs((");
        reveal_strlit("float4(");
        reveal_strlit("pow(");
        reveal_strlit("abs(");
        reveal_strlit("(");
    }
    assert forall|x: Seq<char>| #[trigger] (x + ").x), ("@) == x + ")"@ + "."@ + "x"@ + ")"@ + ", "@
        + "("@ by {
        reveal_strlit(").x), (");
        reveal_strlit(")");
        reveal_strlit(".");
        reveal_strlit("x");
        reveal_strlit(", ");
        reveal_strlit("(");
        assert(x + ").x), ("@ =~= x + ")"@ + "."@ + "x"@ + ")"@ + ", "@ + "("@);
    }
    assert forall|x: Seq<char>| #[trigger] (x + ").x))"@) == x + ")"@ + "."@ + "x"@ + ")"@
        + ")"@ by {
        reveal_strlit(").x))");
        reveal_strlit(")");
        reveal_strlit(".");
        reveal_strlit("x");
        assert(x + ").x))"@ =~= x + ")"@ + "."@ + "x"@ + ")"@ + ")"@);
    }
    assert(is_written(e, arith_of(Opcode::Pow), 2, 6, 6));
    reveal_strlit("x");
    assert forall|env: Env| #[trigger] vectors(env.operands, 2) implies e.value(env)
        == (arith_meaning(Opcode::Pow))(env) by {
        assert(e.value(env) =~= (arith_meaning(Opcode::Pow))(env));
    }
    assert(has_value(e, 2, arith_meaning(Opcode::Pow)));
}

proof fn exp_computes()
    ensures
        computes(arith_of(Opcode::Exp), 1, 6, 6, arith_meaning(Opcode::Exp)),
{
    reveal_with_fuel(Expr::behind, 6);
    reveal_with_fuel(Expr::value, 6);
    reveal_with_fuel(Expr::is_plain, 6);
    let e = call_1(Function::Float4, call_1(Function::Exp2, lanes(group(operand(0)), "x"@)));
    assert("float4(exp2(("@ == Seq::empty() + "float4("@ + "exp2("@ + "("@) by {
        reveal_strlit("float4(exp2((");
        reveal_strlit("float4(");
        reveal_strlit("exp2(");
        reveal_strlit("(");
    }
    assert forall|x: Seq<char>| #[trigger] (x + ").x))"@) == x + ")"@ + "."@ + "x"@ + ")"@
        + ")"@ by {
        reveal_strlit(").x))");
        reveal_strlit(")");
        reveal_strlit(".");
        reveal_strlit("x");
        assert(x + ").x))"@ =~= x + ")"@ + "."@ + "x"@ + ")"@ + ")"@);
    }
    assert(is_written(e, arith_of(Opcode::Exp), 1, 6, 6));
    reveal_strlit("x");
    assert forall|env: Env| #[trigger] vectors(env.operands, 1) implies e.value(env)
        == (arith_meaning(Opcode::Exp))(env) by {
        assert(e.value(env) =~= (arith_meaning(Opcode::Exp))(env));
    }
    assert(has_value(e, 1, arith_meaning(Opcode::Exp)));
}

proof fn exp_p_computes()
    ensures
        computes(arith_of(Opcode::ExpP), 1, 6, 6, arith_meaning(Opcode::ExpP)),
{
    reveal_with_fuel(Expr::behind, 6);
    reveal_with_fuel(Expr::value, 6);
    reveal_with_fuel(Expr::is_plain, 6);
    let e = call_1(Function::Float4, call_1(Function::Exp2, lanes(group(operand(0)), "x"@)));
    assert("float4(exp2(("@ == Seq::empty() + "float4("@ + "exp2("@ + "("@) by {
        reveal_strlit("float4(exp2((");
        reveal_strlit("float4(");
        reveal_strlit("exp2(");
        reveal_strlit("(");
    }
    assert forall|x: Seq<char>| #[trigger] (x + ").x))"@) == x + ")"@ + "."@ + "x"@ + ")"@
        + ")"@ by {
        reveal_strlit(").x))");
        reveal_strlit(")");
        reveal_strlit(".");
        reveal_strlit("x");
        assert(x + ").x))"@ =~= x + ")"@ + "."@ + "x"@ + ")"@ + ")"@);
    }
    assert(is_written(e, arith_of(Opcode::ExpP), 1, 6, 6));
    reveal_strlit("x");
    assert forall|env: Env| #[trigger] vectors(env.operands, 1) implies e.value(env)
        == (arith_meaning(Opcode::ExpP))(env) by {
        assert(e.value(env) =~= (arith_meaning(Opcode::ExpP))(env));
    }
    assert(has_value(e, 1, arith_meaning(Opcode::ExpP)));
}

proof fn log_computes()
    ensures
        computes(arith_of(Opcode::Log), 1, 6, 6, arith_meaning(Opcode::Log)),
{
    reveal_with_fuel(Expr::behind, 7);
    reveal_with_fuel(Expr::value, 7);
    reveal_with_fuel(Expr::is_plain, 7);
    let e = call_1(
        Function::Float4,
        call_1(Function::Log2, call_1(Function::Abs, lanes(group(operand(0)), "x"@))),
    );
    assert("float4(log2(abs(("@ == Seq::empty() + "float4("@ + "log2("@ + "abs("@ + "("@) by {
        reveal_strlit("float4(log2(abs((");
        reveal_strlit("float4(");
        reveal_strlit("log2(");
        reveal_strlit("abs(");
        reveal_strlit("(");
    }
    assert forall|x: Seq<char>| #[trigger] (x + ").x)))"@) == x + ")"@ + "."@ + "x"@ + ")"@ + ")"@
        + ")"@ by {
        reveal_strlit(").x)))");
        reveal_strlit(")");
        reveal_strlit(".");
        reveal_strlit("x");
        assert(x + ").x)))"@ =~= x + ")"@ + "."@ + "x"@ + ")"@ + ")"@ + ")"@);
    }
    assert(is_written(e, arith_of(Opcode::Log), 1, 6, 6));
    reveal_strlit("x");
    assert forall|env: Env| #[trigger] vectors(env.operands, 1) implies e.value(env)
        == (arith_meaning(Opcode::Log))(env) by {
        assert(e.value(env) =~= (arith_meaning(Opcode::Log))(env));
    }
    assert(has_value(e, 1, arith_meaning(Opcode::Log)));
}

proof fn log_p_computes()
    ensures
        computes(arith_of(Opcode::LogP), 1, 6, 6, arith_meaning(Opcode::LogP)),
{
    reveal_with_fuel(Expr::behind, 7);
    reveal_with_fuel(Expr::value, 7);
    reveal_with_fuel(Expr::is_plain, 7);
    let e = call_1(
        Function::Float4,
        call_1(Function::Log2, call_1(Function::Abs, lanes(group(operand(0)), "x"@))),
    );
    assert("float4(log2(abs(("@ == Seq::empty() + "float4("@ + "log2("@ + "abs("@ + "("@) by {
        reveal_strlit("float4(log2(abs((");
        reveal_strlit("float4(");
        reveal_strlit("log2(");
        reveal_strlit("abs(");
        reveal_strlit("(");
    }
    assert forall|x: Seq<char>| #[trigger] (x + ").x)))"@) == x + ")"@ + "."@ + "x"@ + ")"@ + ")"@
        + ")"@ by {
        reveal_strlit(").x)))");
        reveal_strlit(")");
        reveal_strlit(".");
        reveal_strlit("x");
        assert(x + ").x)))"@ =~= x + ")"@ + "."@ + "x"@ + ")"@ + ")"@ + ")"@);
    }
    assert(is_written(e, arith_of(Opcode::LogP), 1, 6, 6));
    reveal_strlit("x");
    assert forall|env: Env| #[trigger] vectors(env.operands, 1) implies e.value(env)
        == (arith_meaning(Opcode::LogP))(env) by {
        assert(e.value(env) =~= (arith_meaning(Opcode::LogP))(env));
    }
    assert(has_value(e, 1, arith_meaning(Opcode::LogP)));
}

proof fn crs_computes()
    ensures
        computes(arith_of(Opcode::Crs), 2, 6, 6, arith_meaning(Opcode::Crs)),
{
    reveal_with_fuel(Expr::behind, 6);
    reveal_with_fuel(Expr::value, 6);
    reveal_with_fuel(Expr::is_plain, 6);
    numerals();
    let e = call_2(
        Function::Float4,
        call_2(Function::Cross, lanes(group(operand(0)), "xyz"@), lanes(group(operand(1)), "xyz"@)),
        number("0.0"@),
    );
    assert("float4(cross(("@ == Seq::empty() + "float4("@ + "cross("@ + "("@) by {
        reveal_strlit("float4(cross((");
        reveal_strlit("float4(");
        reveal_strlit("cross(");
        reveal_strlit("(");
    }
    assert forall|x: Seq<char>| #[trigger] (x + ").xyz, ("@) == x + ")"@ + "."@ + "xyz"@ + ", "@
        + "("@ by {
        reveal_strlit(").xyz, (");
        reveal_strlit(")");
        reveal_strlit(".");
        reveal_strlit("xyz");
        reveal_strlit(", ");
        reveal_strlit("(");
        assert(x + ").xyz, ("@ =~= x + ")"@ + "."@ + "xyz"@ + ", "@ + "("@);
    }
    assert forall|x: Seq<char>| #[trigger] (x + ").xyz), 0.0)"@) == x + ")"@ + "."@ + "xyz"@ + ")"@
        + ", "@ + "0.0"@ + ")"@ by {
        reveal_strlit(").xyz), 0.0)");
        reveal_strlit(")");
        reveal_strlit(".");
        reveal_strlit("xyz");
        reveal_strlit(", ");
        reveal_strlit("0.0");
        assert(x + ").xyz), 0.0)"@ =~= x + ")"@ + "."@ + "xyz"@ + ")"@ + ", "@ + "0.0"@ + ")"@);
    }
    assert(is_written(e, arith_of(Opcode::Crs), 2, 6, 6));
    reveal_strlit("xyz");
    assert forall|env: Env| #[trigger] vectors(env.operands, 2) implies e.value(env)
        == (arith_meaning(Opcode::Crs))(env) by {
        assert(e.value(env) =~= (arith_meaning(Opcode::Crs))(env));
    }
    assert(has_value(e, 2, arith_meaning(Opcode::Crs)));
}

proof fn sgn_computes()
    ensures
        computes(arith_of(Opcode::Sgn), 1, 6, 6, arith_meaning(Opcode::Sgn)),
{
    reveal_with_fuel(Expr::behind, 3);
    reveal_with_fuel(Expr::value, 3);
    reveal_with_fuel(Expr::is_plain, 3);
    let e = call_1(Function::Sign, operand(0));
    assert("sign("@ == Seq::empty() + "sign("@) by {
        reveal_strlit("sign(");
    }
    assert(is_written(e, arith_of(Opcode::Sgn), 1, 6, 6));
    assert forall|env: Env| #[trigger] vectors(env.operands, 1) implies e.value(env)
        == (arith_meaning(Opcode::Sgn))(env) by {
        assert(e.value(env) =~= (arith_meaning(Opcode::Sgn))(env));
    }
    assert(has_value(e, 1, arith_meaning(Opcode::Sgn)));
}

proof fn dp2_add_computes()
    ensures
        computes(arith_of(Opcode::Dp2Add), 3, 6, 6, arith_meaning(Opcode::Dp2Add)),
{
    reveal_with_fuel(Expr::behind, 7);
    reveal_with_fuel(Expr::value, 7);
    reveal_with_fuel(Expr::is_plain, 7);
    reveal_with_fuel(inner, 5);
    let e = call_1(
        Function::Float4,
        infix(
            Operator::Plus,
            call_2(Function::Dot, lanes(group(operand(0)), "xy"@), lanes(group(operand(1)), "xy"@)),
            lanes(group(operand(2)), "x"@),
        ),
    );
    assert("float4(dot(("@ == Seq::empty() + "float4("@ + "dot("@ + "("@) by {
        reveal_strlit("float4(dot((");
        reveal_strlit("float4(");
        reveal_strlit("dot(");
        reveal_strlit("(");
    }
    assert forall|x: Seq<char>| #[trigger] (x + ").xy, ("@) == x + ")"@ + "."@ + "xy"@ + ", "@
        + "("@ by {
        reveal_strlit(").xy, (");
        reveal_strlit(")");
        reveal_strlit(".");
        reveal_strlit("xy");
        reveal_strlit(", ");
        reveal_strlit("(");
        assert(x + ").xy, ("@ =~= x + ")"@ + "."@ + "xy"@ + ", "@ + "("@);
    }
    assert forall|x: Seq<char>| #[trigger] (x + ").xy) + ("@) == x + ")"@ + "."@ + "xy"@ + ")"@
        + " + "@ + "("@ by {
        reveal_strlit(").xy) + (");
        reveal_strlit(")");
        reveal_strlit(".");
        reveal_strlit("xy");
        reveal_strlit(" + ");
        reveal_strlit("(");
        assert(x + ").xy) + ("@ =~= x + ")"@ + "."@ + "xy"@ + ")"@ + " + "@ + "("@);
    }
    assert forall|x: Seq<char>| #[trigger] (x + ").x)"@) == x + ")"@ + "."@ + "x"@ + ")"@ by {
        reveal_strlit(").x)");
        reveal_strlit(")");
        reveal_strlit(".");
        reveal_strlit("x");
        assert(x + ").x)"@ =~= x + ")"@ + "."@ + "x"@ + ")"@);
    }
    assert(is_written(e, arith_of(Opcode::Dp2Add), 3, 6, 6));
    reveal_strlit("x");
    reveal_strlit("xy");
    assert forall|env: Env| #[trigger] vectors(env.operands, 3) implies e.value(env)
        == (arith_meaning(Opcode::Dp2Add))(env) by {
        assert(e.value(env) =~= (arith_meaning(Opcode::Dp2Add))(env));
    }
    assert(has_value(e, 3, arith_meaning(Opcode::Dp2Add)));
}

proof fn dsx_computes()
    ensures
        computes(arith_of(Opcode::Dsx), 1, 6, 6, arith_meaning(Opcode::Dsx)),
{
    reveal_with_fuel(Expr::behind, 3);
    reveal_with_fuel(Expr::value, 3);
    reveal_with_fuel(Expr::is_plain, 3);
    let e = call_1(Function::Dfdx, operand(0));
    assert("dfdx("@ == Seq::empty() + "dfdx("@) by {
        reveal_strlit("dfdx(");
    }
    assert(is_written(e, arith_of(Opcode::Dsx), 1, 6, 6));
    assert forall|env: Env| #[trigger] vectors(env.operands, 1) implies e.value(env)
        == (arith_meaning(Opcode::Dsx))(env) by {
        assert(e.value(env) =~= (arith_meaning(Opcode::Dsx))(env));
    }
    assert(has_value(e, 1, arith_meaning(Opcode::Dsx)));
}

proof fn dsy_computes()
    ensures
        computes(arith_of(Opcode::Dsy), 1, 6, 6, arith_meaning(Opcode::Dsy)),
{
    reveal_with_fuel(Expr::behind, 3);
    reveal_with_fuel(Expr::value, 3);
    reveal_with_fuel(Expr::is_plain, 3);
    let e = call_1(Function::Dfdy, operand(0));
    assert("dfdy("@ == Seq::empty() + "dfdy("@) by {
        reveal_strlit("dfdy(");
    }
    assert(is_written(e, arith_of(Opcode::Dsy), 1, 6, 6));
    assert forall|env: Env| #[trigger] vectors(env.operands, 1) implies e.value(env)
        == (arith_meaning(Opcode::Dsy))(env) by {
        assert(e.value(env) =~= (arith_meaning(Opcode::Dsy))(env));
    }
    assert(has_value(e, 1, arith_meaning(Opcode::Dsy)));
}

spec fn lit_computes_expr() -> Expr {
    call_4(
        Function::Float4,
        number("1.0"@),
        call_2(Function::Max, lanes(group(operand(0)), "x"@), number("0.0"@)),
        choice(
            group(infix(Operator::More, lanes(group(operand(0)), "x"@), number("0.0"@))),
            call_2(
                Function::Pow,
                call_2(Function::Max, lanes(group(operand(0)), "y"@), number("0.0"@)),
                lanes(group(operand(0)), "w"@),
            ),
            number("0.0"@),
        ),
        number("1.0"@),
    )
}

#[verifier::rlimit(30)]
proof fn lit_computes_is_written()
    ensures
        is_written(lit_computes_expr(), arith_of(Opcode::Lit), 1, 6, 6),
{
    reveal_with_fuel(Expr::behind, 8);
    reveal_with_fuel(Expr::is_plain, 8);
    assert("float4(1.0, max(("@ == Seq::empty() + "float4("@ + "1.0"@ + ", "@ + "max("@ + "("@) by {
        reveal_strlit("float4(1.0, max((");
        reveal_strlit("float4(");
        reveal_strlit("1.0");
        reveal_strlit(", ");
        reveal_strlit("max(");
        reveal_strlit("(");
    }
    assert forall|x: Seq<char>| #[trigger] (x + ").x, 0.0), (("@) == x + ")"@ + "."@ + "x"@ + ", "@
        + "0.0"@ + ")"@ + ", "@ + "("@ + "("@ by {
        reveal_strlit(").x, 0.0), ((");
        reveal_strlit(")");
        reveal_strlit(".");
        reveal_strlit("x");
        reveal_strlit(", ");
        reveal_strlit("0.0");
        reveal_strlit("(");
        assert(x + ").x, 0.0), (("@ =~= x + ")"@ + "."@ + "x"@ + ", "@ + "0.0"@ + ")"@ + ", "@
            + "("@ + "("@);
    }
    assert forall|x: Seq<char>| #[trigger] (x + ").x > 0.0) ? pow(max(("@) == x + ")"@ + "."@ + "x"@
        + " > "@ + "0.0"@ + ")"@ + " ? "@ + "pow("@ + "max("@ + "("@ by {
        reveal_strlit(").x > 0.0) ? pow(max((");
        reveal_strlit(")");
        reveal_strlit(".");
        reveal_strlit("x");
        reveal_strlit(" > ");
        reveal_strlit("0.0");
        reveal_strlit(" ? ");
        reveal_strlit("pow(");
        reveal_strlit("max(");
        reveal_strlit("(");
        assert(x + ").x > 0.0) ? pow(max(("@ =~= x + ")"@ + "."@ + "x"@ + " > "@ + "0.0"@ + ")"@
            + " ? "@ + "pow("@ + "max("@ + "("@);
    }
    assert forall|x: Seq<char>| #[trigger] (x + ").y, 0.0), ("@) == x + ")"@ + "."@ + "y"@ + ", "@
        + "0.0"@ + ")"@ + ", "@ + "("@ by {
        reveal_strlit(").y, 0.0), (");
        reveal_strlit(")");
        reveal_strlit(".");
        reveal_strlit("y");
        reveal_strlit(", ");
        reveal_strlit("0.0");
        reveal_strlit("(");
        assert(x + ").y, 0.0), ("@ =~= x + ")"@ + "."@ + "y"@ + ", "@ + "0.0"@ + ")"@ + ", "@
            + "("@);
    }
    assert forall|x: Seq<char>| #[trigger] (x + ").w) : 0.0, 1.0)"@) == x + ")"@ + "."@ + "w"@
        + ")"@ + " : "@ + "0.0"@ + ", "@ + "1.0"@ + ")"@ by {
        reveal_strlit(").w) : 0.0, 1.0)");
        reveal_strlit(")");
        reveal_strlit(".");
        reveal_strlit("w");
        reveal_strlit(" : ");
        reveal_strlit("0.0");
        reveal_strlit(", ");
        reveal_strlit("1.0");
        assert(x + ").w) : 0.0, 1.0)"@ =~= x + ")"@ + "."@ + "w"@ + ")"@ + " : "@ + "0.0"@ + ", "@
            + "1.0"@ + ")"@);
    }
}

#[verifier::rlimit(30)]
proof fn lit_computes_has_value()
    ensures
        has_value(lit_computes_expr(), 1, arith_meaning(Opcode::Lit)),
{
    reveal_with_fuel(Expr::value, 8);
    numerals();
    reveal_strlit("w");
    reveal_strlit("x");
    reveal_strlit("y");
    let e = lit_computes_expr();
    assert forall|env: Env| #[trigger] vectors(env.operands, 1) implies e.value(env)
        == (arith_meaning(Opcode::Lit))(env) by {
        assert(e.value(env) =~= (arith_meaning(Opcode::Lit))(env));
    }
}

proof fn lit_computes()
    ensures
        computes(arith_of(Opcode::Lit), 1, 6, 6, arith_meaning(Opcode::Lit)),
{
    lit_computes_is_written();
    lit_computes_has_value();
}

proof fn dst_computes()
    ensures
        computes(arith_of(Opcode::Dst), 2, 6, 6, arith_meaning(Opcode::Dst)),
{
    reveal_with_fuel(Expr::behind, 6);
    reveal_with_fuel(Expr::value, 6);
    reveal_with_fuel(Expr::is_plain, 6);
    numerals();
    let e = call_4(
        Function::Float4,
        number("1.0"@),
        infix(Operator::Times, lanes(group(operand(0)), "y"@), lanes(group(operand(1)), "y"@)),
        lanes(group(operand(0)), "z"@),
        lanes(group(operand(1)), "w"@),
    );
    assert("float4(1.0, ("@ == Seq::empty() + "float4("@ + "1.0"@ + ", "@ + "("@) by {
        reveal_strlit("float4(1.0, (");
        reveal_strlit("float4(");
        reveal_strlit("1.0");
        reveal_strlit(", ");
        reveal_strlit("(");
    }
    assert forall|x: Seq<char>| #[trigger] (x + ").y * ("@) == x + ")"@ + "."@ + "y"@ + " * "@
        + "("@ by {
        reveal_strlit(").y * (");
        reveal_strlit(")");
        reveal_strlit(".");
        reveal_strlit("y");
        reveal_strlit(" * ");
        reveal_strlit("(");
        assert(x + ").y * ("@ =~= x + ")"@ + "."@ + "y"@ + " * "@ + "("@);
    }
    assert forall|x: Seq<char>| #[trigger] (x + ").y, ("@) == x + ")"@ + "."@ + "y"@ + ", "@
        + "("@ by {
        reveal_strlit(").y, (");
        reveal_strlit(")");
        reveal_strlit(".");
        reveal_strlit("y");
        reveal_strlit(", ");
        reveal_strlit("(");
        assert(x + ").y, ("@ =~= x + ")"@ + "."@ + "y"@ + ", "@ + "("@);
    }
    assert forall|x: Seq<char>| #[trigger] (x + ").z, ("@) == x + ")"@ + "."@ + "z"@ + ", "@
        + "("@ by {
        reveal_strlit(").z, (");
        reveal_strlit(")");
        reveal_strlit(".");
        reveal_strlit("z");
        reveal_strlit(", ");
        reveal_strlit("(");
        assert(x + ").z, ("@ =~= x + ")"@ + "."@ + "z"@ + ", "@ + "("@);
    }
    assert forall|x: Seq<char>| #[trigger] (x + ").w)"@) == x + ")"@ + "."@ + "w"@ + ")"@ by {
        reveal_strlit(").w)");
        reveal_strlit(")");
        reveal_strlit(".");
        reveal_strlit("w");
        assert(x + ").w)"@ =~= x + ")"@ + "."@ + "w"@ + ")"@);
    }
    assert(is_written(e, arith_of(Opcode::Dst), 2, 6, 6));
    reveal_strlit("w");
    reveal_strlit("y");
    reveal_strlit("z");
    assert forall|env: Env| #[trigger] vectors(env.operands, 2) implies e.value(env)
        == (arith_meaning(Opcode::Dst))(env) by {
        assert(e.value(env) =~= (arith_meaning(Opcode::Dst))(env));
    }
    assert(has_value(e, 2, arith_meaning(Opcode::Dst)));
}

proof fn sin_cos_computes()
    ensures
        computes(arith_of(Opcode::SinCos), 1, 6, 6, arith_meaning(Opcode::SinCos)),
{
    reveal_with_fuel(Expr::behind, 6);
    reveal_with_fuel(Expr::value, 6);
    reveal_with_fuel(Expr::is_plain, 6);
    numerals();
    let e = call_4(
        Function::Float4,
        call_1(Function::Cos, lanes(group(operand(0)), "x"@)),
        call_1(Function::Sin, lanes(group(operand(0)), "x"@)),
        number("0.0"@),
        number("0.0"@),
    );
    assert("float4(cos(("@ == Seq::empty() + "float4("@ + "cos("@ + "("@) by {
        reveal_strlit("float4(cos((");
        reveal_strlit("float4(");
        reveal_strlit("cos(");
        reveal_strlit("(");
    }
    assert forall|x: Seq<char>| #[trigger] (x + ").x), sin(("@) == x + ")"@ + "."@ + "x"@ + ")"@
        + ", "@ + "sin("@ + "("@ by {
        reveal_strlit(").x), sin((");
        reveal_strlit(")");
        reveal_strlit(".");
        reveal_strlit("x");
        reveal_strlit(", ");
        reveal_strlit("sin(");
        reveal_strlit("(");
        assert(x + ").x), sin(("@ =~= x + ")"@ + "."@ + "x"@ + ")"@ + ", "@ + "sin("@ + "("@);
    }
    assert forall|x: Seq<char>| #[trigger] (x + ").x), 0.0, 0.0)"@) == x + ")"@ + "."@ + "x"@ + ")"@
        + ", "@ + "0.0"@ + ", "@ + "0.0"@ + ")"@ by {
        reveal_strlit(").x), 0.0, 0.0)");
        reveal_strlit(")");
        reveal_strlit(".");
        reveal_strlit("x");
        reveal_strlit(", ");
        reveal_strlit("0.0");
        assert(x + ").x), 0.0, 0.0)"@ =~= x + ")"@ + "."@ + "x"@ + ")"@ + ", "@ + "0.0"@ + ", "@
            + "0.0"@ + ")"@);
    }
    assert(is_written(e, arith_of(Opcode::SinCos), 1, 6, 6));
    reveal_strlit("x");
    assert forall|env: Env| #[trigger] vectors(env.operands, 1) implies e.value(env)
        == (arith_meaning(Opcode::SinCos))(env) by {
        assert(e.value(env) =~= (arith_meaning(Opcode::SinCos))(env));
    }
    assert(has_value(e, 1, arith_meaning(Opcode::SinCos)));
}

proof fn cmp_computes()
    ensures
        computes(arith_of(Opcode::Cmp), 3, 6, 6, arith_meaning(Opcode::Cmp)),
{
    reveal_with_fuel(Expr::behind, 5);
    reveal_with_fuel(Expr::value, 5);
    reveal_with_fuel(Expr::is_plain, 5);
    numerals();
    let e = call_3(
        Function::Select,
        operand(2),
        operand(1),
        infix(Operator::AtLeast, operand(0), call_1(Function::Float4, number("0.0"@))),
    );
    assert("select("@ == Seq::empty() + "select("@) by {
        reveal_strlit("select(");
    }
    assert forall|x: Seq<char>| #[trigger] (x + " >= float4(0.0))"@) == x + " >= "@ + "float4("@
        + "0.0"@ + ")"@ + ")"@ by {
        reveal_strlit(" >= float4(0.0))");
        reveal_strlit(" >= ");
        reveal_strlit("float4(");
        reveal_strlit("0.0");
        reveal_strlit(")");
        assert(x + " >= float4(0.0))"@ =~= x + " >= "@ + "float4("@ + "0.0"@ + ")"@ + ")"@);
    }
    assert(is_written(e, arith_of(Opcode::Cmp), 3, 6, 6));
    assert forall|env: Env| #[trigger] vectors(env.operands, 3) implies e.value(env)
        == (arith_meaning(Opcode::Cmp))(env) by {
        assert(e.value(env) =~= (arith_meaning(Opcode::Cmp))(env));
    }
    assert(has_value(e, 3, arith_meaning(Opcode::Cmp)));
}

proof fn slt_computes()
    ensures
        computes(arith_of(Opcode::Slt), 2, 6, 6, arith_meaning(Opcode::Slt)),
{
    reveal_with_fuel(Expr::behind, 5);
    reveal_with_fuel(Expr::value, 5);
    reveal_with_fuel(Expr::is_plain, 5);
    numerals();
    let e = group(
        infix(
            Operator::Minus,
            call_1(Function::Float4, number("1.0"@)),
            call_2(Function::Step, operand(1), operand(0)),
        ),
    );
    assert("(float4(1.0) - step("@ == Seq::empty() + "("@ + "float4("@ + "1.0"@ + ")"@ + " - "@
        + "step("@) by {
        reveal_strlit("(float4(1.0) - step(");
        reveal_strlit("(");
        reveal_strlit("float4(");
        reveal_strlit("1.0");
        reveal_strlit(")");
        reveal_strlit(" - ");
        reveal_strlit("step(");
    }
    assert forall|x: Seq<char>| #[trigger] (x + "))"@) == x + ")"@ + ")"@ by {
        reveal_strlit("))");
        reveal_strlit(")");
        assert(x + "))"@ =~= x + ")"@ + ")"@);
    }
    assert(is_written(e, arith_of(Opcode::Slt), 2, 6, 6));
    assert forall|env: Env| #[trigger] vectors(env.operands, 2) implies e.value(env)
        == (arith_meaning(Opcode::Slt))(env) by {
        assert(e.value(env) =~= (arith_meaning(Opcode::Slt))(env));
    }
    assert(has_value(e, 2, arith_meaning(Opcode::Slt)));
}

proof fn sge_computes()
    ensures
        computes(arith_of(Opcode::Sge), 2, 6, 6, arith_meaning(Opcode::Sge)),
{
    reveal_with_fuel(Expr::behind, 3);
    reveal_with_fuel(Expr::value, 3);
    reveal_with_fuel(Expr::is_plain, 3);
    let e = call_2(Function::Step, operand(1), operand(0));
    assert("step("@ == Seq::empty() + "step("@) by {
        reveal_strlit("step(");
    }
    assert(is_written(e, arith_of(Opcode::Sge), 2, 6, 6));
    assert forall|env: Env| #[trigger] vectors(env.operands, 2) implies e.value(env)
        == (arith_meaning(Opcode::Sge))(env) by {
        assert(e.value(env) =~= (arith_meaning(Opcode::Sge))(env));
    }
    assert(has_value(e, 2, arith_meaning(Opcode::Sge)));
}

/// The text of an arithmetic opcode computes what Direct3D says of the opcode,
/// for all values of the operands, and binds tightly enough to be used as it is.
pub proof fn arithmetic_computes(op: Opcode)
    requires
        arity(op) > 0,
    ensures
        computes(arith_of(op), arity(op), 6, 6, arith_meaning(op)),
{
    match op {
        Opcode::Mov => mov_computes(),
        Opcode::Add => add_computes(),
        Opcode::Sub => sub_computes(),
        Opcode::Mul => mul_computes(),
        Opcode::Mad => mad_computes(),
        Opcode::Dp3 => dp3_computes(),
        Opcode::Dp4 => dp4_computes(),
        Opcode::Rcp => rcp_computes(),
        Opcode::Rsq => rsq_computes(),
        Opcode::Min => min_computes(),
        Opcode::Max => max_computes(),
        Opcode::Frc => frc_computes(),
        Opcode::Lrp => lrp_computes(),
        Opcode::Nrm => nrm_computes(),
        Opcode::Abs => abs_computes(),
        Opcode::Pow => pow_computes(),
        Opcode::Exp => exp_computes(),
        Opcode::ExpP => exp_p_computes(),
        Opcode::Log => log_computes(),
        Opcode::LogP => log_p_computes(),
        Opcode::Crs => crs_computes(),
        Opcode::Sgn => sgn_computes(),
        Opcode::Dp2Add => dp2_add_computes(),
        Opcode::Dsx => dsx_computes(),
        Opcode::Dsy => dsy_computes(),
        Opcode::Lit => lit_computes(),
        Opcode::Dst => dst_computes(),
        Opcode::SinCos => sin_cos_computes(),
        Opcode::Cmp => cmp_computes(),
        Opcode::Slt => slt_computes(),
        Opcode::Sge => sge_computes(),
        _ => {},
    }
}

// ---------------------------------------------------------------------------
// Conditions and matrices
// ---------------------------------------------------------------------------

/// The text of `cnd`, as a function of the operands.
pub open spec fn cnd_of(inst: Instruction, major: u8, minor: u8) -> spec_fn(
    Seq<Seq<char>>,
) -> Seq<char> {
    |s: Seq<Seq<char>>| cnd_text(inst, s, major, minor)
}

/// Lane `i` of `cnd`: the second operand where the first is above one half, else
/// the third. In ps_1_4 each lane decides for itself, before it the first lane
/// for all. A `cnd` that is issued together with an alpha instruction moves its
/// second operand.
pub open spec fn cnd_lane(inst: Instruction, major: u8, minor: u8, env: Env, i: int) -> real {
    let (a, b, c) = (env.operands[0], env.operands[1], env.operands[2]);
    let half = whole(1) / whole(2);
    let decides = if major == 1 && minor >= 4 {
        a[i]
    } else {
        a[0]
    };
    let paired = !(major == 1 && minor >= 4) && inst.flags.has(InstrFlags::COISSUE)
        && !alpha_only(inst.dst);
    if paired || decides > half {
        b[i]
    } else {
        c[i]
    }
}

/// What `cnd` does to its operands, as a function.
pub open spec fn cnd_meaning(inst: Instruction, major: u8, minor: u8) -> spec_fn(Env) -> Value {
    |env: Env| Seq::new(4, |i: int| cnd_lane(inst, major, minor, env, i))
}

proof fn lanewise_cnd_computes(inst: Instruction, major: u8, minor: u8)
    requires
        major == 1 && minor >= 4,
    ensures
        computes(cnd_of(inst, major, minor), 3, 6, 6, cnd_meaning(inst, major, minor)),
{
    reveal_with_fuel(Expr::behind, 5);
    reveal_with_fuel(Expr::value, 5);
    reveal_with_fuel(Expr::is_plain, 5);
    numerals();
    let e = call_3(
        Function::Select,
        operand(2),
        operand(1),
        infix(Operator::More, operand(0), call_1(Function::Float4, number("0.5"@))),
    );
    assert("select("@ == Seq::empty() + "select("@) by {
        reveal_strlit("select(");
    }
    assert forall|x: Seq<char>| #[trigger] (x + " > float4(0.5))"@) == x + " > "@ + "float4("@
        + "0.5"@ + ")"@ + ")"@ by {
        reveal_strlit(" > float4(0.5))");
        reveal_strlit(" > ");
        reveal_strlit("float4(");
        reveal_strlit("0.5");
        reveal_strlit(")");
        assert(x + " > float4(0.5))"@ =~= x + " > "@ + "float4("@ + "0.5"@ + ")"@ + ")"@);
    }
    assert(is_written(e, cnd_of(inst, major, minor), 3, 6, 6));
    assert forall|env: Env| #[trigger] vectors(env.operands, 3) implies e.value(env)
        == (cnd_meaning(inst, major, minor))(env) by {
        assert(e.value(env) =~= (cnd_meaning(inst, major, minor))(env));
    }
    assert(has_value(e, 3, cnd_meaning(inst, major, minor)));
}

proof fn paired_cnd_computes(inst: Instruction, major: u8, minor: u8)
    requires
        !(major == 1 && minor >= 4),
        inst.flags.has(InstrFlags::COISSUE) && !alpha_only(inst.dst),
    ensures
        computes(cnd_of(inst, major, minor), 3, 6, 6, cnd_meaning(inst, major, minor)),
{
    reveal_with_fuel(Expr::behind, 2);
    reveal_with_fuel(Expr::value, 2);
    reveal_with_fuel(Expr::is_plain, 2);
    let e = operand(1);
    assert forall|s: Seq<Seq<char>>| #[trigger] (Seq::empty() + s[1]) == s[1] by {
        assert(Seq::empty() + s[1] =~= s[1]);
    }
    assert(is_written(e, cnd_of(inst, major, minor), 3, 6, 6));
    assert forall|env: Env| #[trigger] vectors(env.operands, 3) implies e.value(env)
        == (cnd_meaning(inst, major, minor))(env) by {
        assert(e.value(env) =~= (cnd_meaning(inst, major, minor))(env));
    }
    assert(has_value(e, 3, cnd_meaning(inst, major, minor)));
}

proof fn scalar_cnd_computes(inst: Instruction, major: u8, minor: u8)
    requires
        !(major == 1 && minor >= 4),
        !(inst.flags.has(InstrFlags::COISSUE) && !alpha_only(inst.dst)),
    ensures
        computes(cnd_of(inst, major, minor), 3, 6, 6, cnd_meaning(inst, major, minor)),
{
    reveal_with_fuel(Expr::behind, 6);
    reveal_with_fuel(Expr::value, 6);
    reveal_with_fuel(Expr::is_plain, 6);
    numerals();
    let e = call_3(
        Function::Select,
        operand(2),
        operand(1),
        infix(Operator::More, lanes(group(operand(0)), "x"@), number("0.5"@)),
    );
    assert("select("@ == Seq::empty() + "select("@) by {
        reveal_strlit("select(");
    }
    assert forall|x: Seq<char>| #[trigger] (x + ", ("@) == x + ", "@ + "("@ by {
        reveal_strlit(", (");
        reveal_strlit(", ");
        reveal_strlit("(");
        assert(x + ", ("@ =~= x + ", "@ + "("@);
    }
    assert forall|x: Seq<char>| #[trigger] (x + ").x > 0.5)"@) == x + ")"@ + "."@ + "x"@ + " > "@
        + "0.5"@ + ")"@ by {
        reveal_strlit(").x > 0.5)");
        reveal_strlit(")");
        reveal_strlit(".");
        reveal_strlit("x");
        reveal_strlit(" > ");
        reveal_strlit("0.5");
        assert(x + ").x > 0.5)"@ =~= x + ")"@ + "."@ + "x"@ + " > "@ + "0.5"@ + ")"@);
    }
    assert(is_written(e, cnd_of(inst, major, minor), 3, 6, 6));
    reveal_strlit("x");
    assert forall|env: Env| #[trigger] vectors(env.operands, 3) implies e.value(env)
        == (cnd_meaning(inst, major, minor))(env) by {
        assert(e.value(env) =~= (cnd_meaning(inst, major, minor))(env));
    }
    assert(has_value(e, 3, cnd_meaning(inst, major, minor)));
}

/// The text of `cnd` computes what Direct3D says of it, for all operands.
pub proof fn cnd_computes(inst: Instruction, major: u8, minor: u8)
    ensures
        computes(cnd_of(inst, major, minor), 3, 6, 6, cnd_meaning(inst, major, minor)),
{
    if major == 1 && minor >= 4 {
        lanewise_cnd_computes(inst, major, minor);
    } else if inst.flags.has(InstrFlags::COISSUE) && !alpha_only(inst.dst) {
        paired_cnd_computes(inst, major, minor);
    } else {
        scalar_cnd_computes(inst, major, minor);
    }
}

/// The text of a matrix product, as a function of the vector and the rows behind
/// it.
pub open spec fn matrix_of(op: Opcode) -> spec_fn(Seq<Seq<char>>) -> Seq<char> {
    |s: Seq<Seq<char>>|
        {
            let (cols, rows) = matrix_shape(op);
            let p = Seq::new(rows, |i: int| dot_text(s[0], s[i + 1], cols));
            "float4("@ + product_lane(p, 0) + ", "@ + product_lane(p, 1) + ", "@ + product_lane(
                p,
                2,
            ) + ", "@ + product_lane(p, 3) + ")"@
        }
}

/// The rows of the matrix that an opcode multiplies with, by its name.
pub open spec fn matrix_rows(op: Opcode) -> nat {
    match op {
        Opcode::M4x4 | Opcode::M3x4 => 4,
        Opcode::M4x3 | Opcode::M3x3 => 3,
        _ => 2,
    }
}

/// The products of a vector with the rows of a matrix. The first number in the
/// name of the opcode says how many components count, the second how many rows
/// there are.
pub open spec fn matrix_meaning(op: Opcode) -> spec_fn(Env) -> Value {
    |env: Env|
        {
            let v = env.operands[0];
            let m = env.operands;
            match op {
                Opcode::M4x4 => seq![
                    product(v, m[1], 4),
                    product(v, m[2], 4),
                    product(v, m[3], 4),
                    product(v, m[4], 4),
                ],
                Opcode::M4x3 => seq![
                    product(v, m[1], 4),
                    product(v, m[2], 4),
                    product(v, m[3], 4),
                    whole(0),
                ],
                Opcode::M3x4 => seq![
                    product(v, m[1], 3),
                    product(v, m[2], 3),
                    product(v, m[3], 3),
                    product(v, m[4], 3),
                ],
                Opcode::M3x3 => seq![
                    product(v, m[1], 3),
                    product(v, m[2], 3),
                    product(v, m[3], 3),
                    whole(0),
                ],
                _ => seq![product(v, m[1], 3), product(v, m[2], 3), whole(0), whole(0)],
            }
        }
}

/// The sum of the products of the first three lanes or of all four.
pub open spec fn product(v: Value, row: Value, cols: nat) -> real {
    if cols == 3 {
        v[0] * row[0] + v[1] * row[1] + v[2] * row[2]
    } else {
        v[0] * row[0] + v[1] * row[1] + v[2] * row[2] + v[3] * row[3]
    }
}

/// A product behind a text, part by part.
proof fn appended_dot(x: Seq<char>, vector: Seq<char>, row: Seq<char>, cols: nat)
    ensures
        cols == 3 ==> x + dot_text(vector, row, cols) == x + "dot(("@ + vector + ").xyz, ("@ + row
            + ").xyz)"@,
        cols != 3 ==> x + dot_text(vector, row, cols) == x + "dot("@ + vector + ", "@ + row + ")"@,
{
    if cols == 3 {
        assert(x + dot_text(vector, row, cols) =~= x + "dot(("@ + vector + ").xyz, ("@ + row
            + ").xyz)"@);
    } else {
        assert(x + dot_text(vector, row, cols) =~= x + "dot("@ + vector + ", "@ + row + ")"@);
    }
}

spec fn m4x4_expr() -> Expr {
    call_4(
        Function::Float4,
        call_2(Function::Dot, operand(0), operand(1)),
        call_2(Function::Dot, operand(0), operand(2)),
        call_2(Function::Dot, operand(0), operand(3)),
        call_2(Function::Dot, operand(0), operand(4)),
    )
}

#[verifier::rlimit(60)]
proof fn m4x4_is_written()
    ensures
        is_written(m4x4_expr(), matrix_of(Opcode::M4x4), 5, 6, 7),
{
    reveal_with_fuel(Expr::behind, 4);
    reveal_with_fuel(Expr::is_plain, 4);
    assert("float4("@ == Seq::empty() + "float4("@) by {
        reveal_strlit("float4(");
    }
    assert forall|s: Seq<Seq<char>>| s.len() >= 5 implies #[trigger] matrix_of(Opcode::M4x4)(s)
        == m4x4_expr().text(s) by {
        let p = Seq::new(4, |i: int| dot_text(s[0], s[i + 1], 4));
        let x0 = "float4("@;
        appended_dot(x0, s[0], s[1], 4);
        let x1 = x0 + product_lane(p, 0) + ", "@;
        appended_dot(x1, s[0], s[2], 4);
        let x2 = x1 + product_lane(p, 1) + ", "@;
        appended_dot(x2, s[0], s[3], 4);
        let x3 = x2 + product_lane(p, 2) + ", "@;
        appended_dot(x3, s[0], s[4], 4);
        let x4 = x3 + product_lane(p, 3) + ")"@;
    }
}

#[verifier::rlimit(60)]
proof fn m4x4_has_value()
    ensures
        has_value(m4x4_expr(), 5, matrix_meaning(Opcode::M4x4)),
{
    reveal_with_fuel(Expr::value, 4);
    reveal_with_fuel(inner, 5);
    let e = m4x4_expr();
    assert forall|env: Env| #[trigger] vectors(env.operands, 5) implies e.value(env)
        == (matrix_meaning(Opcode::M4x4))(env) by {
        assert(e.value(env) =~= (matrix_meaning(Opcode::M4x4))(env));
    }
}

spec fn m4x3_expr() -> Expr {
    call_4(
        Function::Float4,
        call_2(Function::Dot, operand(0), operand(1)),
        call_2(Function::Dot, operand(0), operand(2)),
        call_2(Function::Dot, operand(0), operand(3)),
        number("0.0"@),
    )
}

#[verifier::rlimit(60)]
proof fn m4x3_is_written()
    ensures
        is_written(m4x3_expr(), matrix_of(Opcode::M4x3), 4, 6, 7),
{
    reveal_with_fuel(Expr::behind, 4);
    reveal_with_fuel(Expr::is_plain, 4);
    assert("float4("@ == Seq::empty() + "float4("@) by {
        reveal_strlit("float4(");
    }
    assert forall|s: Seq<Seq<char>>| s.len() >= 4 implies #[trigger] matrix_of(Opcode::M4x3)(s)
        == m4x3_expr().text(s) by {
        let p = Seq::new(3, |i: int| dot_text(s[0], s[i + 1], 4));
        let x0 = "float4("@;
        appended_dot(x0, s[0], s[1], 4);
        let x1 = x0 + product_lane(p, 0) + ", "@;
        appended_dot(x1, s[0], s[2], 4);
        let x2 = x1 + product_lane(p, 1) + ", "@;
        appended_dot(x2, s[0], s[3], 4);
        let x3 = x2 + product_lane(p, 2) + ", "@;
        let x4 = x3 + product_lane(p, 3) + ")"@;
    }
}

#[verifier::rlimit(60)]
proof fn m4x3_has_value()
    ensures
        has_value(m4x3_expr(), 4, matrix_meaning(Opcode::M4x3)),
{
    reveal_with_fuel(Expr::value, 4);
    reveal_with_fuel(inner, 5);
    numerals();
    let e = m4x3_expr();
    assert forall|env: Env| #[trigger] vectors(env.operands, 4) implies e.value(env)
        == (matrix_meaning(Opcode::M4x3))(env) by {
        assert(e.value(env) =~= (matrix_meaning(Opcode::M4x3))(env));
    }
}

spec fn m3x4_expr() -> Expr {
    call_4(
        Function::Float4,
        call_2(Function::Dot, lanes(group(operand(0)), "xyz"@), lanes(group(operand(1)), "xyz"@)),
        call_2(Function::Dot, lanes(group(operand(0)), "xyz"@), lanes(group(operand(2)), "xyz"@)),
        call_2(Function::Dot, lanes(group(operand(0)), "xyz"@), lanes(group(operand(3)), "xyz"@)),
        call_2(Function::Dot, lanes(group(operand(0)), "xyz"@), lanes(group(operand(4)), "xyz"@)),
    )
}

#[verifier::rlimit(60)]
proof fn m3x4_is_written()
    ensures
        is_written(m3x4_expr(), matrix_of(Opcode::M3x4), 5, 6, 7),
{
    reveal_with_fuel(Expr::behind, 6);
    reveal_with_fuel(Expr::is_plain, 6);
    assert("float4("@ == Seq::empty() + "float4("@) by {
        reveal_strlit("float4(");
    }
    assert forall|x: Seq<char>| #[trigger] (x + "dot(("@) == x + "dot("@ + "("@ by {
        reveal_strlit("dot((");
        reveal_strlit("dot(");
        reveal_strlit("(");
        assert(x + "dot(("@ =~= x + "dot("@ + "("@);
    }
    assert forall|x: Seq<char>| #[trigger] (x + ").xyz, ("@) == x + ")"@ + "."@ + "xyz"@ + ", "@
        + "("@ by {
        reveal_strlit(").xyz, (");
        reveal_strlit(")");
        reveal_strlit(".");
        reveal_strlit("xyz");
        reveal_strlit(", ");
        reveal_strlit("(");
        assert(x + ").xyz, ("@ =~= x + ")"@ + "."@ + "xyz"@ + ", "@ + "("@);
    }
    assert forall|x: Seq<char>| #[trigger] (x + ").xyz)"@) == x + ")"@ + "."@ + "xyz"@ + ")"@ by {
        reveal_strlit(").xyz)");
        reveal_strlit(")");
        reveal_strlit(".");
        reveal_strlit("xyz");
        assert(x + ").xyz)"@ =~= x + ")"@ + "."@ + "xyz"@ + ")"@);
    }
    assert forall|s: Seq<Seq<char>>| s.len() >= 5 implies #[trigger] matrix_of(Opcode::M3x4)(s)
        == m3x4_expr().text(s) by {
        let p = Seq::new(4, |i: int| dot_text(s[0], s[i + 1], 3));
        let x0 = "float4("@;
        appended_dot(x0, s[0], s[1], 3);
        let x1 = x0 + product_lane(p, 0) + ", "@;
        appended_dot(x1, s[0], s[2], 3);
        let x2 = x1 + product_lane(p, 1) + ", "@;
        appended_dot(x2, s[0], s[3], 3);
        let x3 = x2 + product_lane(p, 2) + ", "@;
        appended_dot(x3, s[0], s[4], 3);
        let x4 = x3 + product_lane(p, 3) + ")"@;
    }
}

#[verifier::rlimit(60)]
proof fn m3x4_has_value()
    ensures
        has_value(m3x4_expr(), 5, matrix_meaning(Opcode::M3x4)),
{
    reveal_with_fuel(Expr::value, 6);
    reveal_with_fuel(inner, 5);
    reveal_strlit("xyz");
    let e = m3x4_expr();
    assert forall|env: Env| #[trigger] vectors(env.operands, 5) implies e.value(env)
        == (matrix_meaning(Opcode::M3x4))(env) by {
        assert(e.value(env) =~= (matrix_meaning(Opcode::M3x4))(env));
    }
}

spec fn m3x3_expr() -> Expr {
    call_4(
        Function::Float4,
        call_2(Function::Dot, lanes(group(operand(0)), "xyz"@), lanes(group(operand(1)), "xyz"@)),
        call_2(Function::Dot, lanes(group(operand(0)), "xyz"@), lanes(group(operand(2)), "xyz"@)),
        call_2(Function::Dot, lanes(group(operand(0)), "xyz"@), lanes(group(operand(3)), "xyz"@)),
        number("0.0"@),
    )
}

#[verifier::rlimit(60)]
proof fn m3x3_is_written()
    ensures
        is_written(m3x3_expr(), matrix_of(Opcode::M3x3), 4, 6, 7),
{
    reveal_with_fuel(Expr::behind, 6);
    reveal_with_fuel(Expr::is_plain, 6);
    assert("float4("@ == Seq::empty() + "float4("@) by {
        reveal_strlit("float4(");
    }
    assert forall|x: Seq<char>| #[trigger] (x + "dot(("@) == x + "dot("@ + "("@ by {
        reveal_strlit("dot((");
        reveal_strlit("dot(");
        reveal_strlit("(");
        assert(x + "dot(("@ =~= x + "dot("@ + "("@);
    }
    assert forall|x: Seq<char>| #[trigger] (x + ").xyz, ("@) == x + ")"@ + "."@ + "xyz"@ + ", "@
        + "("@ by {
        reveal_strlit(").xyz, (");
        reveal_strlit(")");
        reveal_strlit(".");
        reveal_strlit("xyz");
        reveal_strlit(", ");
        reveal_strlit("(");
        assert(x + ").xyz, ("@ =~= x + ")"@ + "."@ + "xyz"@ + ", "@ + "("@);
    }
    assert forall|x: Seq<char>| #[trigger] (x + ").xyz)"@) == x + ")"@ + "."@ + "xyz"@ + ")"@ by {
        reveal_strlit(").xyz)");
        reveal_strlit(")");
        reveal_strlit(".");
        reveal_strlit("xyz");
        assert(x + ").xyz)"@ =~= x + ")"@ + "."@ + "xyz"@ + ")"@);
    }
    assert forall|s: Seq<Seq<char>>| s.len() >= 4 implies #[trigger] matrix_of(Opcode::M3x3)(s)
        == m3x3_expr().text(s) by {
        let p = Seq::new(3, |i: int| dot_text(s[0], s[i + 1], 3));
        let x0 = "float4("@;
        appended_dot(x0, s[0], s[1], 3);
        let x1 = x0 + product_lane(p, 0) + ", "@;
        appended_dot(x1, s[0], s[2], 3);
        let x2 = x1 + product_lane(p, 1) + ", "@;
        appended_dot(x2, s[0], s[3], 3);
        let x3 = x2 + product_lane(p, 2) + ", "@;
        let x4 = x3 + product_lane(p, 3) + ")"@;
    }
}

#[verifier::rlimit(60)]
proof fn m3x3_has_value()
    ensures
        has_value(m3x3_expr(), 4, matrix_meaning(Opcode::M3x3)),
{
    reveal_with_fuel(Expr::value, 6);
    reveal_with_fuel(inner, 5);
    numerals();
    reveal_strlit("xyz");
    let e = m3x3_expr();
    assert forall|env: Env| #[trigger] vectors(env.operands, 4) implies e.value(env)
        == (matrix_meaning(Opcode::M3x3))(env) by {
        assert(e.value(env) =~= (matrix_meaning(Opcode::M3x3))(env));
    }
}

spec fn m3x2_expr() -> Expr {
    call_4(
        Function::Float4,
        call_2(Function::Dot, lanes(group(operand(0)), "xyz"@), lanes(group(operand(1)), "xyz"@)),
        call_2(Function::Dot, lanes(group(operand(0)), "xyz"@), lanes(group(operand(2)), "xyz"@)),
        number("0.0"@),
        number("0.0"@),
    )
}

#[verifier::rlimit(60)]
proof fn m3x2_is_written()
    ensures
        is_written(m3x2_expr(), matrix_of(Opcode::M3x2), 3, 6, 7),
{
    reveal_with_fuel(Expr::behind, 6);
    reveal_with_fuel(Expr::is_plain, 6);
    assert("float4("@ == Seq::empty() + "float4("@) by {
        reveal_strlit("float4(");
    }
    assert forall|x: Seq<char>| #[trigger] (x + "dot(("@) == x + "dot("@ + "("@ by {
        reveal_strlit("dot((");
        reveal_strlit("dot(");
        reveal_strlit("(");
        assert(x + "dot(("@ =~= x + "dot("@ + "("@);
    }
    assert forall|x: Seq<char>| #[trigger] (x + ").xyz, ("@) == x + ")"@ + "."@ + "xyz"@ + ", "@
        + "("@ by {
        reveal_strlit(").xyz, (");
        reveal_strlit(")");
        reveal_strlit(".");
        reveal_strlit("xyz");
        reveal_strlit(", ");
        reveal_strlit("(");
        assert(x + ").xyz, ("@ =~= x + ")"@ + "."@ + "xyz"@ + ", "@ + "("@);
    }
    assert forall|x: Seq<char>| #[trigger] (x + ").xyz)"@) == x + ")"@ + "."@ + "xyz"@ + ")"@ by {
        reveal_strlit(").xyz)");
        reveal_strlit(")");
        reveal_strlit(".");
        reveal_strlit("xyz");
        assert(x + ").xyz)"@ =~= x + ")"@ + "."@ + "xyz"@ + ")"@);
    }
    assert forall|s: Seq<Seq<char>>| s.len() >= 3 implies #[trigger] matrix_of(Opcode::M3x2)(s)
        == m3x2_expr().text(s) by {
        let p = Seq::new(2, |i: int| dot_text(s[0], s[i + 1], 3));
        let x0 = "float4("@;
        appended_dot(x0, s[0], s[1], 3);
        let x1 = x0 + product_lane(p, 0) + ", "@;
        appended_dot(x1, s[0], s[2], 3);
        let x2 = x1 + product_lane(p, 1) + ", "@;
        let x3 = x2 + product_lane(p, 2) + ", "@;
        let x4 = x3 + product_lane(p, 3) + ")"@;
    }
}

#[verifier::rlimit(60)]
proof fn m3x2_has_value()
    ensures
        has_value(m3x2_expr(), 3, matrix_meaning(Opcode::M3x2)),
{
    reveal_with_fuel(Expr::value, 6);
    reveal_with_fuel(inner, 5);
    numerals();
    reveal_strlit("xyz");
    let e = m3x2_expr();
    assert forall|env: Env| #[trigger] vectors(env.operands, 3) implies e.value(env)
        == (matrix_meaning(Opcode::M3x2))(env) by {
        assert(e.value(env) =~= (matrix_meaning(Opcode::M3x2))(env));
    }
}

/// The text of a matrix product computes the products of the vector with the
/// rows, for all values of them.
pub proof fn matrix_products_compute(op: Opcode)
    requires
        op == Opcode::M4x4 || op == Opcode::M4x3 || op == Opcode::M3x4 || op == Opcode::M3x3 || op
            == Opcode::M3x2,
    ensures
        computes(matrix_of(op), matrix_rows(op) + 1, 6, 7, matrix_meaning(op)),
{
    match op {
        Opcode::M4x4 => {
            m4x4_is_written();
            m4x4_has_value();
        },
        Opcode::M4x3 => {
            m4x3_is_written();
            m4x3_has_value();
        },
        Opcode::M3x4 => {
            m3x4_is_written();
            m3x4_has_value();
        },
        Opcode::M3x3 => {
            m3x3_is_written();
            m3x3_has_value();
        },
        Opcode::M3x2 => {
            m3x2_is_written();
            m3x2_has_value();
        },
        _ => {},
    }
}

/// The rows of a matrix as texts, behind the vector that is multiplied with it:
/// the registers that follow each other from the first one on, read in the same
/// way.
pub open spec fn matrix_operands(
    s: Seq<Seq<char>>,
    vector: Seq<char>,
    first: SrcOperand,
    rows: nat,
    ctx: EmitContext,
    loops: Seq<Option<u64>>,
) -> bool {
    s.len() == rows + 1 && s[0] == vector && forall|i: int|
        0 <= i < rows ==> src_text(
            (SrcOperand {
                reg: Register { kind: first.reg.kind, index: (first.reg.index + i) as u16 },
                ..first
            }),
            ctx,
            loops,
        ) == Ok::<Seq<char>, EmitFailure>(#[trigger] s[i + 1])
}

proof fn products_are_of_the_rows(
    vector: Seq<char>,
    first: SrcOperand,
    shape: (nat, nat),
    i: nat,
    ctx: EmitContext,
    loops: Seq<Option<u64>>,
    s: Seq<Seq<char>>,
    acc: Seq<Seq<char>>,
) -> (t: Seq<Seq<char>>)
    requires
        i <= shape.1,
        matrix_operands(s, vector, first, i, ctx, loops),
        acc == Seq::new(i, |j: int| dot_text(s[0], s[j + 1], shape.0)),
        products_from(vector, first, shape, i, ctx, loops, acc) is Ok,
    ensures
        matrix_operands(t, vector, first, shape.1, ctx, loops),
        products_from(vector, first, shape, i, ctx, loops, acc)->Ok_0 == Seq::new(
            shape.1,
            |j: int| dot_text(t[0], t[j + 1], shape.0),
        ),
    decreases shape.1 - i,
{
    if i >= shape.1 {
        s
    } else {
        let row = src_text(matrix_row(first, i), ctx, loops)->Ok_0;
        let u = s.push(row);
        let more = acc.push(dot_text(vector, row, shape.0));
        assert forall|j: int| 0 <= j < i + 1 implies src_text(
            (SrcOperand {
                reg: Register { kind: first.reg.kind, index: (first.reg.index + j) as u16 },
                ..first
            }),
            ctx,
            loops,
        ) == Ok::<Seq<char>, EmitFailure>(#[trigger] u[j + 1]) by {
            if j < i {
                assert(u[j + 1] == s[j + 1]);
            }
        }
        assert(more =~= Seq::new((i + 1) as nat, |j: int| dot_text(u[0], u[j + 1], shape.0)));
        products_are_of_the_rows(vector, first, shape, i + 1, ctx, loops, u, more)
    }
}

/// A matrix instruction multiplies with the rows that lie in consecutive
/// registers.
pub proof fn matrix_instructions_multiply(
    op: Opcode,
    vector: Seq<char>,
    first: SrcOperand,
    ctx: EmitContext,
    loops: Seq<Option<u64>>,
)
    requires
        op == Opcode::M4x4 || op == Opcode::M4x3 || op == Opcode::M3x4 || op == Opcode::M3x3 || op
            == Opcode::M3x2,
        matmul_text(vector, first, matrix_shape(op), ctx, loops) is Ok,
    ensures
        exists|s: Seq<Seq<char>>| #[trigger]
            matrix_operands(s, vector, first, matrix_rows(op), ctx, loops) && matmul_text(
                vector,
                first,
                matrix_shape(op),
                ctx,
                loops,
            )->Ok_0 == matrix_of(op)(s),
        computes(matrix_of(op), matrix_rows(op) + 1, 6, 7, matrix_meaning(op)),
{
    matrix_products_compute(op);
    let s = seq![vector];
    let acc = Seq::<Seq<char>>::empty();
    assert(acc =~= Seq::new(0, |j: int| dot_text(s[0], s[j + 1], matrix_shape(op).0)));
    let t = products_are_of_the_rows(vector, first, matrix_shape(op), 0, ctx, loops, s, acc);
    assert(matrix_operands(t, vector, first, matrix_rows(op), ctx, loops));
}

} // verus!
