//! What the operands of an instruction stand for.
//!
//! Direct3D says what a swizzle and a modifier do to the value of a source, and
//! which lanes of a destination an instruction changes. The laws say that the
//! texts do that, whatever is read or written.

use crate::dxso::emit::context::EmitContext;
use crate::dxso::emit::error::EmitFailure;
use crate::dxso::emit::floats::{float_literal, power_of_two};
use crate::dxso::emit::metal::{
    absolute, assigned, assigns, assigns_lanes, call_1, clamped, computes, group, has_value, infix,
    inverted, is_written, lanes, letter_lane, negated, number, numerals, operand, truth, vectors,
    whole, writing_appends, Env, Expr, Function, Operator, Value,
};
use crate::dxso::emit::operands::{
    address_text, assign_text, base_text, coord_lanes, mask_lane, mask_text, modified_text,
    read_text, sample_text, scaled_text, src_text, store_text, swizzled_text, write_target,
};
use crate::dxso::ir::{
    DstMods, DstOperand, RegKind, Register, SrcModifier, SrcOperand, Swizzle, TextureType,
    WriteMask,
};
use crate::text::{dec, lane, numerals_are_unique};
use vstd::prelude::*;

verus! {

// ---------------------------------------------------------------------------
// Modifiers
// ---------------------------------------------------------------------------

/// The text of a modified source, as a function of the source.
pub open spec fn modified_of(m: SrcModifier) -> spec_fn(Seq<Seq<char>>) -> Seq<char> {
    |s: Seq<Seq<char>>| modified_text(s[0], m)
}

/// What a modifier makes of lane `i` of the source `v`.
pub open spec fn modified_lane(m: SrcModifier, v: Value, i: int) -> real {
    let x = v[i];
    let two = whole(2);
    let half = whole(1) / two;
    match m {
        SrcModifier::Unmodified => x,
        SrcModifier::Neg => -x,
        SrcModifier::Bias => x - half,
        SrcModifier::BiasNeg => -(x - half),
        SrcModifier::Sign => two * (x - half),
        SrcModifier::SignNeg => -(two * (x - half)),
        SrcModifier::Comp => whole(1) - x,
        SrcModifier::X2 => two * x,
        SrcModifier::X2Neg => -(two * x),
        SrcModifier::Abs => absolute(x),
        SrcModifier::AbsNeg => -absolute(x),
        SrcModifier::Dz => x / v[2],
        SrcModifier::Dw => x / v[3],
        SrcModifier::Not => truth(x == whole(0)),
    }
}

/// What a modifier makes of a source of four lanes, as a function.
pub open spec fn modified_meaning(m: SrcModifier) -> spec_fn(Env) -> Value {
    |env: Env| Seq::new(4, |i: int| modified_lane(m, env.operands[0], i))
}

proof fn unmodified_computes()
    ensures
        computes(
            modified_of(SrcModifier::Unmodified),
            1,
            7,
            6,
            modified_meaning(SrcModifier::Unmodified),
        ),
{
    reveal_with_fuel(Expr::behind, 2);
    reveal_with_fuel(Expr::value, 2);
    reveal_with_fuel(Expr::is_plain, 2);
    let e = operand(0);
    assert forall|s: Seq<Seq<char>>| #[trigger] (Seq::empty() + s[0]) == s[0] by {
        assert(Seq::empty() + s[0] =~= s[0]);
    }
    assert(is_written(e, modified_of(SrcModifier::Unmodified), 1, 7, 6));
    assert forall|env: Env| #[trigger] vectors(env.operands, 1) implies e.value(env)
        == (modified_meaning(SrcModifier::Unmodified))(env) by {
        assert(e.value(env) =~= (modified_meaning(SrcModifier::Unmodified))(env));
    }
    assert(has_value(e, 1, modified_meaning(SrcModifier::Unmodified)));
}

proof fn neg_computes()
    ensures
        computes(modified_of(SrcModifier::Neg), 1, 7, 6, modified_meaning(SrcModifier::Neg)),
{
    reveal_with_fuel(Expr::behind, 4);
    reveal_with_fuel(Expr::value, 4);
    reveal_with_fuel(Expr::is_plain, 4);
    let e = group(negated(operand(0)));
    assert("(-"@ == Seq::empty() + "("@ + "-"@) by {
        reveal_strlit("(-");
        reveal_strlit("(");
        reveal_strlit("-");
    }
    assert(is_written(e, modified_of(SrcModifier::Neg), 1, 7, 6));
    assert forall|env: Env| #[trigger] vectors(env.operands, 1) implies e.value(env)
        == (modified_meaning(SrcModifier::Neg))(env) by {
        assert(e.value(env) =~= (modified_meaning(SrcModifier::Neg))(env));
    }
    assert(has_value(e, 1, modified_meaning(SrcModifier::Neg)));
}

proof fn bias_computes()
    ensures
        computes(modified_of(SrcModifier::Bias), 1, 7, 6, modified_meaning(SrcModifier::Bias)),
{
    reveal_with_fuel(Expr::behind, 4);
    reveal_with_fuel(Expr::value, 4);
    reveal_with_fuel(Expr::is_plain, 4);
    numerals();
    let e = group(infix(Operator::Minus, operand(0), number("0.5"@)));
    assert("("@ == Seq::empty() + "("@) by {
        reveal_strlit("(");
    }
    assert forall|x: Seq<char>| #[trigger] (x + " - 0.5)"@) == x + " - "@ + "0.5"@ + ")"@ by {
        reveal_strlit(" - 0.5)");
        reveal_strlit(" - ");
        reveal_strlit("0.5");
        reveal_strlit(")");
        assert(x + " - 0.5)"@ =~= x + " - "@ + "0.5"@ + ")"@);
    }
    assert(is_written(e, modified_of(SrcModifier::Bias), 1, 7, 6));
    assert forall|env: Env| #[trigger] vectors(env.operands, 1) implies e.value(env)
        == (modified_meaning(SrcModifier::Bias))(env) by {
        assert(e.value(env) =~= (modified_meaning(SrcModifier::Bias))(env));
    }
    assert(has_value(e, 1, modified_meaning(SrcModifier::Bias)));
}

proof fn bias_neg_computes()
    ensures
        computes(
            modified_of(SrcModifier::BiasNeg),
            1,
            7,
            6,
            modified_meaning(SrcModifier::BiasNeg),
        ),
{
    reveal_with_fuel(Expr::behind, 5);
    reveal_with_fuel(Expr::value, 5);
    reveal_with_fuel(Expr::is_plain, 5);
    numerals();
    let e = negated(group(infix(Operator::Minus, operand(0), number("0.5"@))));
    assert("-("@ == Seq::empty() + "-"@ + "("@) by {
        reveal_strlit("-(");
        reveal_strlit("-");
        reveal_strlit("(");
    }
    assert forall|x: Seq<char>| #[trigger] (x + " - 0.5)"@) == x + " - "@ + "0.5"@ + ")"@ by {
        reveal_strlit(" - 0.5)");
        reveal_strlit(" - ");
        reveal_strlit("0.5");
        reveal_strlit(")");
        assert(x + " - 0.5)"@ =~= x + " - "@ + "0.5"@ + ")"@);
    }
    assert(is_written(e, modified_of(SrcModifier::BiasNeg), 1, 7, 6));
    assert forall|env: Env| #[trigger] vectors(env.operands, 1) implies e.value(env)
        == (modified_meaning(SrcModifier::BiasNeg))(env) by {
        assert(e.value(env) =~= (modified_meaning(SrcModifier::BiasNeg))(env));
    }
    assert(has_value(e, 1, modified_meaning(SrcModifier::BiasNeg)));
}

proof fn sign_computes()
    ensures
        computes(modified_of(SrcModifier::Sign), 1, 7, 6, modified_meaning(SrcModifier::Sign)),
{
    reveal_with_fuel(Expr::behind, 5);
    reveal_with_fuel(Expr::value, 5);
    reveal_with_fuel(Expr::is_plain, 5);
    numerals();
    let e = group(
        infix(Operator::Minus, infix(Operator::Times, number("2.0"@), operand(0)), number("1.0"@)),
    );
    assert("(2.0 * "@ == Seq::empty() + "("@ + "2.0"@ + " * "@) by {
        reveal_strlit("(2.0 * ");
        reveal_strlit("(");
        reveal_strlit("2.0");
        reveal_strlit(" * ");
    }
    assert forall|x: Seq<char>| #[trigger] (x + " - 1.0)"@) == x + " - "@ + "1.0"@ + ")"@ by {
        reveal_strlit(" - 1.0)");
        reveal_strlit(" - ");
        reveal_strlit("1.0");
        reveal_strlit(")");
        assert(x + " - 1.0)"@ =~= x + " - "@ + "1.0"@ + ")"@);
    }
    assert(is_written(e, modified_of(SrcModifier::Sign), 1, 7, 6));
    assert forall|env: Env| #[trigger] vectors(env.operands, 1) implies e.value(env)
        == (modified_meaning(SrcModifier::Sign))(env) by {
        let v = env.operands[0];
        assert forall|i: int| 0 <= i < 4 implies whole(2) * v[i] - whole(1)
            == #[trigger] modified_lane(
            SrcModifier::Sign,
            v,
            i,
        ) by {
            let x = v[i];
            assert(whole(2) * x - whole(1)
                == whole(2) * (x - whole(1) / whole(2))) by (nonlinear_arith);
        }
        assert(e.value(env) =~= (modified_meaning(SrcModifier::Sign))(env));
    }
    assert(has_value(e, 1, modified_meaning(SrcModifier::Sign)));
}

proof fn sign_neg_computes()
    ensures
        computes(
            modified_of(SrcModifier::SignNeg),
            1,
            7,
            6,
            modified_meaning(SrcModifier::SignNeg),
        ),
{
    reveal_with_fuel(Expr::behind, 5);
    reveal_with_fuel(Expr::value, 5);
    reveal_with_fuel(Expr::is_plain, 5);
    numerals();
    let e = group(
        infix(Operator::Minus, number("1.0"@), infix(Operator::Times, number("2.0"@), operand(0))),
    );
    assert("(1.0 - 2.0 * "@ == Seq::empty() + "("@ + "1.0"@ + " - "@ + "2.0"@ + " * "@) by {
        reveal_strlit("(1.0 - 2.0 * ");
        reveal_strlit("(");
        reveal_strlit("1.0");
        reveal_strlit(" - ");
        reveal_strlit("2.0");
        reveal_strlit(" * ");
    }
    assert(is_written(e, modified_of(SrcModifier::SignNeg), 1, 7, 6));
    assert forall|env: Env| #[trigger] vectors(env.operands, 1) implies e.value(env)
        == (modified_meaning(SrcModifier::SignNeg))(env) by {
        let v = env.operands[0];
        assert forall|i: int| 0 <= i < 4 implies whole(1) - whole(2) * v[i]
            == #[trigger] modified_lane(
            SrcModifier::SignNeg,
            v,
            i,
        ) by {
            let x = v[i];
            assert(whole(1) - whole(2) * x
                == -(whole(2) * (x - whole(1) / whole(2)))) by (nonlinear_arith);
        }
        assert(e.value(env) =~= (modified_meaning(SrcModifier::SignNeg))(env));
    }
    assert(has_value(e, 1, modified_meaning(SrcModifier::SignNeg)));
}

proof fn comp_computes()
    ensures
        computes(modified_of(SrcModifier::Comp), 1, 7, 6, modified_meaning(SrcModifier::Comp)),
{
    reveal_with_fuel(Expr::behind, 4);
    reveal_with_fuel(Expr::value, 4);
    reveal_with_fuel(Expr::is_plain, 4);
    numerals();
    let e = group(infix(Operator::Minus, number("1.0"@), operand(0)));
    assert("(1.0 - "@ == Seq::empty() + "("@ + "1.0"@ + " - "@) by {
        reveal_strlit("(1.0 - ");
        reveal_strlit("(");
        reveal_strlit("1.0");
        reveal_strlit(" - ");
    }
    assert(is_written(e, modified_of(SrcModifier::Comp), 1, 7, 6));
    assert forall|env: Env| #[trigger] vectors(env.operands, 1) implies e.value(env)
        == (modified_meaning(SrcModifier::Comp))(env) by {
        assert(e.value(env) =~= (modified_meaning(SrcModifier::Comp))(env));
    }
    assert(has_value(e, 1, modified_meaning(SrcModifier::Comp)));
}

proof fn x2_computes()
    ensures
        computes(modified_of(SrcModifier::X2), 1, 7, 6, modified_meaning(SrcModifier::X2)),
{
    reveal_with_fuel(Expr::behind, 4);
    reveal_with_fuel(Expr::value, 4);
    reveal_with_fuel(Expr::is_plain, 4);
    numerals();
    let e = group(infix(Operator::Times, number("2.0"@), operand(0)));
    assert("(2.0 * "@ == Seq::empty() + "("@ + "2.0"@ + " * "@) by {
        reveal_strlit("(2.0 * ");
        reveal_strlit("(");
        reveal_strlit("2.0");
        reveal_strlit(" * ");
    }
    assert(is_written(e, modified_of(SrcModifier::X2), 1, 7, 6));
    assert forall|env: Env| #[trigger] vectors(env.operands, 1) implies e.value(env)
        == (modified_meaning(SrcModifier::X2))(env) by {
        assert(e.value(env) =~= (modified_meaning(SrcModifier::X2))(env));
    }
    assert(has_value(e, 1, modified_meaning(SrcModifier::X2)));
}

proof fn x2_neg_computes()
    ensures
        computes(modified_of(SrcModifier::X2Neg), 1, 7, 6, modified_meaning(SrcModifier::X2Neg)),
{
    reveal_with_fuel(Expr::behind, 5);
    reveal_with_fuel(Expr::value, 5);
    reveal_with_fuel(Expr::is_plain, 5);
    numerals();
    let e = group(infix(Operator::Times, negated(number("2.0"@)), operand(0)));
    assert("(-2.0 * "@ == Seq::empty() + "("@ + "-"@ + "2.0"@ + " * "@) by {
        reveal_strlit("(-2.0 * ");
        reveal_strlit("(");
        reveal_strlit("-");
        reveal_strlit("2.0");
        reveal_strlit(" * ");
    }
    assert(is_written(e, modified_of(SrcModifier::X2Neg), 1, 7, 6));
    assert forall|env: Env| #[trigger] vectors(env.operands, 1) implies e.value(env)
        == (modified_meaning(SrcModifier::X2Neg))(env) by {
        let v = env.operands[0];
        assert forall|i: int| 0 <= i < 4 implies (-whole(2)) * v[i] == #[trigger] modified_lane(
            SrcModifier::X2Neg,
            v,
            i,
        ) by {
            let x = v[i];
            assert((-whole(2)) * x == -(whole(2) * x)) by (nonlinear_arith);
        }
        assert(e.value(env) =~= (modified_meaning(SrcModifier::X2Neg))(env));
    }
    assert(has_value(e, 1, modified_meaning(SrcModifier::X2Neg)));
}

proof fn abs_computes()
    ensures
        computes(modified_of(SrcModifier::Abs), 1, 7, 6, modified_meaning(SrcModifier::Abs)),
{
    reveal_with_fuel(Expr::behind, 3);
    reveal_with_fuel(Expr::value, 3);
    reveal_with_fuel(Expr::is_plain, 3);
    let e = call_1(Function::Abs, operand(0));
    assert("abs("@ == Seq::empty() + "abs("@) by {
        reveal_strlit("abs(");
    }
    assert(is_written(e, modified_of(SrcModifier::Abs), 1, 7, 6));
    assert forall|env: Env| #[trigger] vectors(env.operands, 1) implies e.value(env)
        == (modified_meaning(SrcModifier::Abs))(env) by {
        assert(e.value(env) =~= (modified_meaning(SrcModifier::Abs))(env));
    }
    assert(has_value(e, 1, modified_meaning(SrcModifier::Abs)));
}

proof fn abs_neg_computes()
    ensures
        computes(modified_of(SrcModifier::AbsNeg), 1, 7, 6, modified_meaning(SrcModifier::AbsNeg)),
{
    reveal_with_fuel(Expr::behind, 5);
    reveal_with_fuel(Expr::value, 5);
    reveal_with_fuel(Expr::is_plain, 5);
    let e = group(negated(call_1(Function::Abs, operand(0))));
    assert("(-abs("@ == Seq::empty() + "("@ + "-"@ + "abs("@) by {
        reveal_strlit("(-abs(");
        reveal_strlit("(");
        reveal_strlit("-");
        reveal_strlit("abs(");
    }
    assert forall|x: Seq<char>| #[trigger] (x + "))"@) == x + ")"@ + ")"@ by {
        reveal_strlit("))");
        reveal_strlit(")");
        assert(x + "))"@ =~= x + ")"@ + ")"@);
    }
    assert(is_written(e, modified_of(SrcModifier::AbsNeg), 1, 7, 6));
    assert forall|env: Env| #[trigger] vectors(env.operands, 1) implies e.value(env)
        == (modified_meaning(SrcModifier::AbsNeg))(env) by {
        assert(e.value(env) =~= (modified_meaning(SrcModifier::AbsNeg))(env));
    }
    assert(has_value(e, 1, modified_meaning(SrcModifier::AbsNeg)));
}

proof fn dz_computes()
    ensures
        computes(modified_of(SrcModifier::Dz), 1, 7, 6, modified_meaning(SrcModifier::Dz)),
{
    reveal_with_fuel(Expr::behind, 6);
    reveal_with_fuel(Expr::value, 6);
    reveal_with_fuel(Expr::is_plain, 6);
    let e = group(infix(Operator::Over, operand(0), lanes(group(operand(0)), "z"@)));
    assert("("@ == Seq::empty() + "("@) by {
        reveal_strlit("(");
    }
    assert forall|x: Seq<char>| #[trigger] (x + " / ("@) == x + " / "@ + "("@ by {
        reveal_strlit(" / (");
        reveal_strlit(" / ");
        reveal_strlit("(");
        assert(x + " / ("@ =~= x + " / "@ + "("@);
    }
    assert forall|x: Seq<char>| #[trigger] (x + ").z)"@) == x + ")"@ + "."@ + "z"@ + ")"@ by {
        reveal_strlit(").z)");
        reveal_strlit(")");
        reveal_strlit(".");
        reveal_strlit("z");
        assert(x + ").z)"@ =~= x + ")"@ + "."@ + "z"@ + ")"@);
    }
    assert(is_written(e, modified_of(SrcModifier::Dz), 1, 7, 6));
    reveal_strlit("z");
    assert forall|env: Env| #[trigger] vectors(env.operands, 1) implies e.value(env)
        == (modified_meaning(SrcModifier::Dz))(env) by {
        assert(e.value(env) =~= (modified_meaning(SrcModifier::Dz))(env));
    }
    assert(has_value(e, 1, modified_meaning(SrcModifier::Dz)));
}

proof fn dw_computes()
    ensures
        computes(modified_of(SrcModifier::Dw), 1, 7, 6, modified_meaning(SrcModifier::Dw)),
{
    reveal_with_fuel(Expr::behind, 6);
    reveal_with_fuel(Expr::value, 6);
    reveal_with_fuel(Expr::is_plain, 6);
    let e = group(infix(Operator::Over, operand(0), lanes(group(operand(0)), "w"@)));
    assert("("@ == Seq::empty() + "("@) by {
        reveal_strlit("(");
    }
    assert forall|x: Seq<char>| #[trigger] (x + " / ("@) == x + " / "@ + "("@ by {
        reveal_strlit(" / (");
        reveal_strlit(" / ");
        reveal_strlit("(");
        assert(x + " / ("@ =~= x + " / "@ + "("@);
    }
    assert forall|x: Seq<char>| #[trigger] (x + ").w)"@) == x + ")"@ + "."@ + "w"@ + ")"@ by {
        reveal_strlit(").w)");
        reveal_strlit(")");
        reveal_strlit(".");
        reveal_strlit("w");
        assert(x + ").w)"@ =~= x + ")"@ + "."@ + "w"@ + ")"@);
    }
    assert(is_written(e, modified_of(SrcModifier::Dw), 1, 7, 6));
    reveal_strlit("w");
    assert forall|env: Env| #[trigger] vectors(env.operands, 1) implies e.value(env)
        == (modified_meaning(SrcModifier::Dw))(env) by {
        assert(e.value(env) =~= (modified_meaning(SrcModifier::Dw))(env));
    }
    assert(has_value(e, 1, modified_meaning(SrcModifier::Dw)));
}

proof fn not_computes()
    ensures
        computes(modified_of(SrcModifier::Not), 1, 7, 6, modified_meaning(SrcModifier::Not)),
{
    reveal_with_fuel(Expr::behind, 5);
    reveal_with_fuel(Expr::value, 5);
    reveal_with_fuel(Expr::is_plain, 5);
    let e = call_1(Function::Float4, inverted(call_1(Function::Bool4, operand(0))));
    assert("float4(!bool4("@ == Seq::empty() + "float4("@ + "!"@ + "bool4("@) by {
        reveal_strlit("float4(!bool4(");
        reveal_strlit("float4(");
        reveal_strlit("!");
        reveal_strlit("bool4(");
    }
    assert forall|x: Seq<char>| #[trigger] (x + "))"@) == x + ")"@ + ")"@ by {
        reveal_strlit("))");
        reveal_strlit(")");
        assert(x + "))"@ =~= x + ")"@ + ")"@);
    }
    assert(is_written(e, modified_of(SrcModifier::Not), 1, 7, 6));
    assert forall|env: Env| #[trigger] vectors(env.operands, 1) implies e.value(env)
        == (modified_meaning(SrcModifier::Not))(env) by {
        assert(e.value(env) =~= (modified_meaning(SrcModifier::Not))(env));
    }
    assert(has_value(e, 1, modified_meaning(SrcModifier::Not)));
}

/// The text of a modified source computes what Direct3D says of the modifier, in
/// each lane and for all values of the source.
pub proof fn modifiers_compute(m: SrcModifier)
    ensures
        computes(modified_of(m), 1, 7, 6, modified_meaning(m)),
{
    match m {
        SrcModifier::Unmodified => unmodified_computes(),
        SrcModifier::Neg => neg_computes(),
        SrcModifier::Bias => bias_computes(),
        SrcModifier::BiasNeg => bias_neg_computes(),
        SrcModifier::Sign => sign_computes(),
        SrcModifier::SignNeg => sign_neg_computes(),
        SrcModifier::Comp => comp_computes(),
        SrcModifier::X2 => x2_computes(),
        SrcModifier::X2Neg => x2_neg_computes(),
        SrcModifier::Abs => abs_computes(),
        SrcModifier::AbsNeg => abs_neg_computes(),
        SrcModifier::Dz => dz_computes(),
        SrcModifier::Dw => dw_computes(),
        SrcModifier::Not => not_computes(),
    }
}

// ---------------------------------------------------------------------------
// Swizzles
// ---------------------------------------------------------------------------

/// The text of a swizzled source, as a function of the source.
pub open spec fn swizzled_of(w: Swizzle) -> spec_fn(Seq<Seq<char>>) -> Seq<char> {
    |s: Seq<Seq<char>>| swizzled_text(s[0], w)
}

/// The source with each lane taken from the component that the swizzle names.
pub open spec fn swizzled_meaning(w: Swizzle) -> spec_fn(Env) -> Value {
    |env: Env| Seq::new(4, |i: int| env.operands[0][w.0[i] as int])
}

/// The text of a swizzled source computes the source with its lanes selected.
pub proof fn swizzles_compute(w: Swizzle)
    requires
        w.in_range(),
    ensures
        computes(swizzled_of(w), 1, 7, 7, swizzled_meaning(w)),
{
    reveal_with_fuel(Expr::behind, 4);
    reveal_with_fuel(Expr::value, 4);
    reveal_with_fuel(Expr::is_plain, 4);
    reveal_strlit("x");
    reveal_strlit("y");
    reveal_strlit("z");
    reveal_strlit("w");
    let (p, q, r, t) = (lane(w.0[0]), lane(w.0[1]), lane(w.0[2]), lane(w.0[3]));
    let letters = p + q + r + t;
    let e = if w.keeps_lanes() {
        operand(0)
    } else {
        lanes(group(operand(0)), letters)
    };
    assert forall|s: Seq<Seq<char>>| s.len() >= 1 implies #[trigger] swizzled_of(w)(s) == e.text(
        s,
    ) by {
        if w.keeps_lanes() {
            assert(Seq::empty() + s[0] =~= s[0]);
        } else {
            let x = "("@ + s[0];
            assert(Seq::empty() + "("@ =~= "("@);
            assert(")."@ == ")"@ + "."@) by {
                reveal_strlit(").");
                reveal_strlit(")");
                reveal_strlit(".");
            }
            assert(x + ")."@ + p + q + r + t =~= x + ")"@ + "."@ + letters);
        }
    }
    assert(is_written(e, swizzled_of(w), 1, 7, 7));
    assert forall|env: Env| #[trigger] vectors(env.operands, 1) implies e.value(env)
        == swizzled_meaning(w)(env) by {
        assert(e.value(env) =~= swizzled_meaning(w)(env));
    }
    assert(has_value(e, 1, swizzled_meaning(w)));
}

// ---------------------------------------------------------------------------
// Destinations
// ---------------------------------------------------------------------------

/// Whether a mask names lane `i`: bit zero stands for the first lane.
pub open spec fn names_lane(m: WriteMask, i: int) -> bool {
    if i == 0 {
        m.0 % 2 == 1
    } else if i == 1 {
        m.0 / 2 % 2 == 1
    } else if i == 2 {
        m.0 / 4 % 2 == 1
    } else {
        m.0 / 8 % 2 == 1
    }
}

/// Bit `i` of a mask stands for lane `i`.
pub proof fn masks_have_the_lanes_they_name(m: WriteMask)
    ensures
        m.has(0) == names_lane(m, 0),
        m.has(1) == names_lane(m, 1),
        m.has(2) == names_lane(m, 2),
        m.has(3) == names_lane(m, 3),
{
    let b = m.0;
    assert((b & (1u8 << 0u8) != 0) == (b % 2 == 1) && (b & (1u8 << 1u8) != 0) == (b / 2 % 2 == 1)
        && (b & (1u8 << 2u8) != 0) == (b / 4 % 2 == 1) && (b & (1u8 << 3u8) != 0) == (b / 8 % 2
        == 1)) by (bit_vector);
}

/// The lanes of `v` that `letters` select, one after the other.
pub open spec fn picked(v: Value, letters: Seq<char>) -> Value {
    Seq::new(letters.len(), |j: int| v[letter_lane(letters[j])])
}

/// The assignment through a mask changes the lanes that the mask names, each to
/// the same lane of the value, and keeps the others.
pub proof fn masked_writes_keep_the_other_lanes(m: WriteMask, old_value: Value, v: Value)
    requires
        old_value.len() == 4,
        v.len() == 4,
    ensures
        assigned(old_value, mask_text(m), picked(v, mask_text(m)), mask_text(m).len())
            == Seq::new(
            4,
            |i: int|
                if names_lane(m, i) {
                    v[i]
                } else {
                    old_value[i]
                },
        ),
{
    reveal_with_fuel(assigned, 5);
    masks_have_the_lanes_they_name(m);
    reveal_strlit("");
    reveal_strlit("x");
    reveal_strlit("y");
    reveal_strlit("z");
    reveal_strlit("w");
    let (p, q, r, t) = (mask_lane(m, 0), mask_lane(m, 1), mask_lane(m, 2), mask_lane(m, 3));
    let letters = mask_text(m);
    if m.has(0) {
        assert(letters[0] == 'x');
    }
    if m.has(1) {
        assert(letters[p.len() as int] == 'y');
    }
    if m.has(2) {
        assert(letters[(p.len() + q.len()) as int] == 'z');
    }
    if m.has(3) {
        assert(letters[(p.len() + q.len() + r.len()) as int] == 'w');
    }
    assert(assigned(old_value, letters, picked(v, letters), letters.len()) =~= Seq::new(
        4,
        |i: int|
            if names_lane(m, i) {
                v[i]
            } else {
                old_value[i]
            },
    ));
}

/// Whether `text` assigns `e` to the lanes of `target` that `m` names. Both sides
/// select the lanes, unless all are written.
pub open spec fn stores(
    text: Seq<char>,
    target: Seq<char>,
    m: WriteMask,
    e: Expr,
    s: Seq<Seq<char>>,
) -> bool {
    if names_lane(m, 0) && names_lane(m, 1) && names_lane(m, 2) && names_lane(m, 3) {
        assigns(text, target, e, s)
    } else {
        assigns_lanes(text, target, mask_text(m), lanes(group(e), mask_text(m)), s)
    }
}

/// Lane `i` of what an instruction stores: the result, multiplied by the factor
/// that follows it where the destination is scaled, and brought into the unit
/// range where it saturates.
pub open spec fn stored_lane(dst: DstOperand, env: Env, i: int) -> real {
    let x = env.operands[0][i];
    let scaled = if dst.shift_scale != 0 {
        x * env.operands[1][0]
    } else {
        x
    };
    if dst.mods.has(DstMods::SATURATE) {
        clamped(scaled)
    } else {
        scaled
    }
}

/// Whether the first operand is a vector of four lanes and the second a scalar.
pub open spec fn vector_and_factor(operands: Seq<Value>) -> bool {
    operands.len() >= 2 && operands[0].len() == 4 && operands[1].len() == 1
}

proof fn assignments_store(
    target: Seq<char>,
    m: WriteMask,
    value: Seq<char>,
    e: Expr,
    s: Seq<Seq<char>>,
)
    requires
        m.0 < 16,
        value == e.text(s),
    ensures
        stores(assign_text(target, m, value), target, m, e, s),
{
    reveal_with_fuel(Expr::behind, 3);
    masks_have_the_lanes_they_name(m);
    let letters = mask_text(m);
    let plain = "    "@ + target + " = "@;
    let masked = "    "@ + target + "."@ + letters + " = "@;
    writing_appends(e, plain, s);
    writing_appends(e, masked + "("@, s);
    let h = "    "@ + target + "."@ + letters;
    assert(h + " = ("@ == masked + "("@) by {
        reveal_strlit(" = (");
        reveal_strlit(" = ");
        reveal_strlit("(");
        assert(h + " = ("@ =~= h + " = "@ + "("@);
    }
    let x = masked + "("@ + value;
    assert(x + ")."@ == x + ")"@ + "."@) by {
        reveal_strlit(").");
        reveal_strlit(")");
        reveal_strlit(".");
        assert(x + ")."@ =~= x + ")"@ + "."@);
    }
}

/// An instruction stores its result, scaled by the power of two that the
/// destination names and saturated where it asks for it, in the lanes that the
/// mask names.
pub proof fn destinations_store(dst: DstOperand, value: Seq<char>, ctx: EmitContext)
    requires
        dst.write_mask.0 < 16,
        store_text(dst, value, ctx) is Ok,
    ensures
        exists|e: Expr, s: Seq<Seq<char>>| #[trigger]
            stores(
                store_text(dst, value, ctx)->Ok_0,
                write_target(dst.reg, ctx),
                dst.write_mask,
                e,
                s,
            ) && s.len() == 2 && s[0] == value && e.is_plain(6) && (dst.shift_scale != 0
                ==> float_literal(
                power_of_two(dst.shift_scale),
                ctx.texts@,
            ) == Ok::<Seq<char>, EmitFailure>(s[1])) && forall|env: Env| #[trigger]
                vector_and_factor(env.operands) ==> e.value(env) == Seq::new(
                4,
                |i: int| stored_lane(dst, env, i),
            ),
{
    reveal_with_fuel(Expr::behind, 5);
    reveal_with_fuel(Expr::value, 5);
    reveal_with_fuel(Expr::is_plain, 5);
    let factor = match float_literal(power_of_two(dst.shift_scale), ctx.texts@) {
        Ok(f) => f,
        Err(_) => Seq::empty(),
    };
    let s = seq![value, factor];
    let product = if dst.shift_scale == 0 {
        operand(0)
    } else {
        group(infix(Operator::Times, operand(0), operand(1)))
    };
    let e = if dst.mods.has(DstMods::SATURATE) {
        call_1(Function::Saturate, product)
    } else {
        product
    };
    let scaled = scaled_text(value, dst.shift_scale, ctx)->Ok_0;
    assert(Seq::empty() + value =~= value);
    assert(Seq::empty() + "("@ =~= "("@);
    assert(Seq::empty() + "saturate("@ =~= "saturate("@);
    let x = "saturate("@;
    assert(x + ("("@ + value + " * "@ + factor + ")"@) =~= x + "("@ + value + " * "@ + factor
        + ")"@);
    let stored = if dst.mods.has(DstMods::SATURATE) {
        "saturate("@ + scaled + ")"@
    } else {
        scaled
    };
    assert(stored == e.text(s));
    assignments_store(write_target(dst.reg, ctx), dst.write_mask, stored, e, s);
    assert forall|env: Env| #[trigger] vector_and_factor(env.operands) implies e.value(env)
        == Seq::new(4, |i: int| stored_lane(dst, env, i)) by {
        assert(e.value(env) =~= Seq::new(4, |i: int| stored_lane(dst, env, i)));
    }
    assert(stores(
        store_text(dst, value, ctx)->Ok_0,
        write_target(dst.reg, ctx),
        dst.write_mask,
        e,
        s,
    ));
}

/// A write to the address register floors each lane of the value where `floors`
/// says so, and rounds it otherwise.
pub proof fn addresses_are_whole(dst: DstOperand, value: Seq<char>, floors: bool)
    requires
        dst.write_mask.0 < 16,
    ensures
        exists|e: Expr, s: Seq<Seq<char>>| #[trigger]
            stores(address_text(dst, value, floors), "a"@, dst.write_mask, e, s) && s.len() == 1
                && s[0] == value && e.is_plain(1)
                    && forall|env: Env| #[trigger] vectors(env.operands, 1)
                ==> e.value(env) == Seq::new(
                4,
                |i: int|
                    if floors {
                        (env.library.floor)(env.operands[0][i])
                    } else {
                        (env.library.round)(env.operands[0][i])
                    },
            ),
{
    reveal_with_fuel(Expr::behind, 5);
    reveal_with_fuel(Expr::value, 5);
    reveal_with_fuel(Expr::is_plain, 5);
    let s = seq![value];
    let e = if floors {
        call_1(Function::Int4, call_1(Function::Floor, operand(0)))
    } else {
        call_1(Function::Int4, call_1(Function::Round, operand(0)))
    };
    let rounded = if floors {
        "int4(floor("@ + value + "))"@
    } else {
        "int4(round("@ + value + "))"@
    };
    assert("int4(floor("@ == Seq::empty() + "int4("@ + "floor("@ && "int4(round("@ == Seq::empty()
        + "int4("@ + "round("@) by {
        reveal_strlit("int4(floor(");
        reveal_strlit("int4(round(");
        reveal_strlit("int4(");
        reveal_strlit("floor(");
        reveal_strlit("round(");
    }
    assert forall|x: Seq<char>| #[trigger] (x + "))"@) == x + ")"@ + ")"@ by {
        reveal_strlit("))");
        reveal_strlit(")");
        assert(x + "))"@ =~= x + ")"@ + ")"@);
    }
    assert(rounded == e.text(s));
    assignments_store("a"@, dst.write_mask, rounded, e, s);
    assert forall|env: Env| #[trigger] vectors(env.operands, 1) implies e.value(env) == Seq::new(
        4,
        |i: int|
            if floors {
                (env.library.floor)(env.operands[0][i])
            } else {
                (env.library.round)(env.operands[0][i])
            },
    ) by {
        assert(e.value(env) =~= Seq::new(
            4,
            |i: int|
                if floors {
                    (env.library.floor)(env.operands[0][i])
                } else {
                    (env.library.round)(env.operands[0][i])
                },
        ));
    }
    assert(stores(address_text(dst, value, floors), "a"@, dst.write_mask, e, s));
}

// ---------------------------------------------------------------------------
// Registers
// ---------------------------------------------------------------------------

/// A source is swizzled first and modified then.
pub proof fn sources_are_swizzled_then_modified(
    src: SrcOperand,
    ctx: EmitContext,
    loops: Seq<Option<u64>>,
)
    requires
        src.swizzle.in_range(),
        base_text(src, ctx, loops) is Ok,
    ensures
        src_text(src, ctx, loops) == Ok::<Seq<char>, EmitFailure>(
            modified_of(src.modifier)(
                seq![swizzled_of(src.swizzle)(seq![base_text(src, ctx, loops)->Ok_0])],
            ),
        ),
        computes(swizzled_of(src.swizzle), 1, 7, 7, swizzled_meaning(src.swizzle)),
        computes(modified_of(src.modifier), 1, 7, 6, modified_meaning(src.modifier)),
{
    swizzles_compute(src.swizzle);
    modifiers_compute(src.modifier);
}

/// A register that can be read and written is one variable: a temporary, a colour
/// that a pixel shader writes, and a texture register of the first model.
pub proof fn reads_see_writes(reg: Register, ctx: EmitContext, loops: Seq<Option<u64>>)
    requires
        reg.kind == RegKind::Temp || !ctx.is_vertex && (reg.kind == RegKind::ColorOut || reg.kind
            == RegKind::Addr && ctx.sm1()),
    ensures
        read_text(reg, ctx, loops) == Ok::<Seq<char>, EmitFailure>(write_target(reg, ctx)),
{
}

/// Different temporaries are different variables.
pub proof fn temporaries_do_not_clash(a: Register, b: Register, ctx: EmitContext)
    requires
        a.kind == RegKind::Temp,
        b.kind == RegKind::Temp,
        a.index != b.index,
    ensures
        write_target(a, ctx) != write_target(b, ctx),
{
    let (m, n) = (dec(a.index as nat), dec(b.index as nat));
    if write_target(a, ctx) == write_target(b, ctx) {
        reveal_strlit("r[");
        reveal_strlit("]");
        let (p, q) = (write_target(a, ctx), write_target(b, ctx));
        assert(m =~= p.subrange(2, p.len() - 1));
        assert(n =~= q.subrange(2, q.len() - 1));
        numerals_are_unique(a.index as nat, b.index as nat);
    }
}

// ---------------------------------------------------------------------------
// Samples
// ---------------------------------------------------------------------------

/// The lanes of a coordinate that a texture takes: three for a cube and a volume,
/// two otherwise.
pub open spec fn dimensions(ctx: EmitContext, slot: u16) -> nat {
    match ctx.sampler(slot) {
        Some(TextureType::TextureCube) | Some(TextureType::Texture3D) => 3,
        _ => 2,
    }
}

/// A colour texture is sampled at the first lanes of the coordinate, as many as
/// it has dimensions.
pub proof fn colors_are_sampled_at_the_coordinate(ctx: EmitContext, slot: u16, coord: Seq<char>)
    requires
        !ctx.raw_depth_bound(slot),
        !ctx.depth_bound(slot),
    ensures
        exists|e: Expr, s: Seq<Seq<char>>|
            sample_text(ctx, slot, coord, None) == #[trigger] e.behind(
                "s"@ + dec(slot as nat) + ".sample(samp"@ + dec(slot as nat) + ", "@,
                s,
            ) + ")"@ && s.len() == 1 && s[0] == coord && e.is_plain(1) && forall|env: Env|
                #[trigger] vectors(env.operands, 1) ==> e.value(env)
                == env.operands[0].subrange(0, dimensions(ctx, slot) as int),
{
    reveal_with_fuel(Expr::behind, 4);
    reveal_with_fuel(Expr::value, 4);
    reveal_with_fuel(Expr::is_plain, 4);
    let n = dec(slot as nat);
    let s = seq![coord];
    let letters = coord_lanes(ctx, slot);
    let e = lanes(group(operand(0)), letters);
    let x = "s"@ + n + ".sample(samp"@ + n;
    assert(x + ", ("@ == x + ", "@ + "("@) by {
        reveal_strlit(", (");
        reveal_strlit(", ");
        reveal_strlit("(");
        assert(x + ", ("@ =~= x + ", "@ + "("@);
    }
    let y = x + ", "@ + "("@ + coord;
    assert(y + ")."@ == y + ")"@ + "."@) by {
        reveal_strlit(").");
        reveal_strlit(")");
        reveal_strlit(".");
        assert(y + ")."@ =~= y + ")"@ + "."@);
    }
    let z = y + ")"@ + "."@ + letters;
    assert(z + ""@ =~= z) by {
        reveal_strlit("");
    }
    reveal_strlit("xy");
    reveal_strlit("xyz");
    assert forall|env: Env| #[trigger] vectors(env.operands, 1) implies e.value(env)
        == env.operands[0].subrange(0, dimensions(ctx, slot) as int) by {
        assert(e.value(env) =~= env.operands[0].subrange(0, dimensions(ctx, slot) as int));
    }
    assert(sample_text(ctx, slot, coord, None) == e.behind(
        "s"@ + n + ".sample(samp"@ + n + ", "@,
        s,
    ) + ")"@);
}

/// A depth texture that is compared is sampled at the first two lanes of the
/// coordinate, against the third one in the unit range.
pub proof fn depths_are_compared_with_the_third_lane(ctx: EmitContext, slot: u16, coord: Seq<char>)
    requires
        !ctx.raw_depth_bound(slot),
        ctx.depth_bound(slot),
    ensures
        exists|at: Expr, depth: Expr, s: Seq<Seq<char>>|
            sample_text(ctx, slot, coord, None) == #[trigger] depth.behind(
                #[trigger] at.behind(
                    "float4(s"@ + dec(slot as nat) + ".sample_compare(samp"@ + dec(slot as nat)
                        + ", "@,
                    s,
                ) + ", "@,
                s,
            ) + ", level(0)))"@ && s.len() == 1 && s[0] == coord && at.is_plain(1)
                && depth.is_plain(1) && forall|env: Env| #[trigger] vectors(env.operands, 1)
                ==> at.value(env) == seq![env.operands[0][0], env.operands[0][1]]
                && depth.value(env) == seq![clamped(env.operands[0][2])],
{
    reveal_with_fuel(Expr::behind, 5);
    reveal_with_fuel(Expr::value, 5);
    reveal_with_fuel(Expr::is_plain, 5);
    let n = dec(slot as nat);
    let s = seq![coord];
    let at = lanes(group(operand(0)), "xy"@);
    let depth = call_1(Function::Saturate, lanes(group(operand(0)), "z"@));
    let h = "float4(s"@ + n + ".sample_compare(samp"@ + n;
    assert(h + ", ("@ == h + ", "@ + "("@) by {
        reveal_strlit(", (");
        reveal_strlit(", ");
        reveal_strlit("(");
        assert(h + ", ("@ =~= h + ", "@ + "("@);
    }
    let y = h + ", "@ + "("@ + coord;
    assert(y + ").xy, saturate(("@ == y + ")"@ + "."@ + "xy"@ + ", "@ + "saturate("@ + "("@) by {
        reveal_strlit(").xy, saturate((");
        reveal_strlit(")");
        reveal_strlit(".");
        reveal_strlit("xy");
        reveal_strlit(", ");
        reveal_strlit("saturate(");
        reveal_strlit("(");
        assert(y + ").xy, saturate(("@ =~= y + ")"@ + "."@ + "xy"@ + ", "@ + "saturate("@ + "("@);
    }
    let z = y + ").xy, saturate(("@ + coord;
    assert(z + ").z)"@ == z + ")"@ + "."@ + "z"@ + ")"@) by {
        reveal_strlit(").z)");
        reveal_strlit(")");
        reveal_strlit(".");
        reveal_strlit("z");
        assert(z + ").z)"@ =~= z + ")"@ + "."@ + "z"@ + ")"@);
    }
    let w = z + ").z)"@;
    assert(w + ", level(0)"@ + "))"@ == w + ", level(0)))"@) by {
        reveal_strlit(", level(0)");
        reveal_strlit("))");
        reveal_strlit(", level(0)))");
        assert(w + ", level(0)"@ + "))"@ =~= w + ", level(0)))"@);
    }
    let lhs = at.behind("float4(s"@ + n + ".sample_compare(samp"@ + n + ", "@, s);
    assert(sample_text(ctx, slot, coord, None) == depth.behind(lhs + ", "@, s)
        + ", level(0)))"@);
    reveal_strlit("xy");
    reveal_strlit("z");
    assert forall|env: Env| #[trigger] vectors(env.operands, 1) implies at.value(env) == seq![
        env.operands[0][0],
        env.operands[0][1],
    ] && depth.value(env) == seq![clamped(env.operands[0][2])] by {
        assert(at.value(env) =~= seq![env.operands[0][0], env.operands[0][1]]);
        assert(depth.value(env) =~= seq![clamped(env.operands[0][2])]);
    }
}

} // verus!
