//! What the texture stages compute.
//!
//! Direct3D says how a stage combines its arguments. The laws say that the texts
//! do that, for all colours.

use crate::d3d::{
    D3DTA_ALPHAREPLICATE, D3DTA_COMPLEMENT, D3DTA_CONSTANT, D3DTA_DIFFUSE, D3DTA_SPECULAR,
    D3DTA_TEMP, D3DTA_TEXTURE, D3DTA_TFACTOR, D3DTOP_ADD, D3DTOP_ADDSIGNED, D3DTOP_ADDSIGNED2X,
    D3DTOP_ADDSMOOTH, D3DTOP_BLENDCURRENTALPHA, D3DTOP_BLENDDIFFUSEALPHA, D3DTOP_BLENDFACTORALPHA,
    D3DTOP_BLENDTEXTUREALPHA, D3DTOP_BLENDTEXTUREALPHAPM, D3DTOP_DOTPRODUCT3, D3DTOP_MODULATE,
    D3DTOP_MODULATE2X, D3DTOP_MODULATE4X, D3DTOP_MODULATEALPHA_ADDCOLOR,
    D3DTOP_MODULATECOLOR_ADDALPHA, D3DTOP_MODULATEINVALPHA_ADDCOLOR,
    D3DTOP_MODULATEINVCOLOR_ADDALPHA, D3DTOP_SELECTARG2, D3DTOP_SUBTRACT,
};
use crate::dxso::emit::metal::{
    call_1, call_2, call_3, choice, clamped, computes, group, has_value, infix, inner, is_written,
    lanes, name, named, number, numerals, operand, vectors, whole, Env, Expr, Function, Operator,
    Value,
};
use crate::dxso::ff::key::FfStage;
use crate::dxso::ff::pixel::{
    arg_register, arg_text, channel_text, combine_text, coord_text, names, op_text, result_register,
    texel,
};
use crate::text::dec;
use vstd::prelude::*;

verus! {

// ---------------------------------------------------------------------------
// Operations
// ---------------------------------------------------------------------------

/// The text of an operation, as a function of its two arguments.
pub open spec fn op_of(op: u32, stage: nat, textured: bool) -> spec_fn(
    Seq<Seq<char>>,
) -> Seq<char> {
    |s: Seq<Seq<char>>| op_text(op as u8, s[0], s[1], stage, textured)
}

/// The alpha of what a name holds.
pub open spec fn alpha_of(env: Env, n: Seq<char>) -> real {
    (env.names)(n)[3]
}

/// The first argument weighed by `t`, the second by what is left.
pub open spec fn blended(a: real, b: real, t: real) -> real {
    a * t + b * (whole(1) - t)
}

/// Channel `i` of an operation on two arguments; the first one, where the
/// operation is unknown.
pub open spec fn combined(op: u32, env: Env, stage: nat, textured: bool, i: int) -> real {
    let a = env.operands[0];
    let b = env.operands[1];
    let half = whole(1) / whole(2);
    match op {
        D3DTOP_SELECTARG2 => b[i],
        D3DTOP_MODULATE => a[i] * b[i],
        D3DTOP_MODULATE2X => clamped(whole(2) * a[i] * b[i]),
        D3DTOP_MODULATE4X => clamped(whole(4) * a[i] * b[i]),
        D3DTOP_ADD => clamped(a[i] + b[i]),
        D3DTOP_ADDSIGNED => clamped(a[i] + b[i] - half),
        D3DTOP_ADDSIGNED2X => clamped(whole(2) * (a[i] + b[i] - half)),
        D3DTOP_SUBTRACT => clamped(a[i] - b[i]),
        D3DTOP_ADDSMOOTH => clamped(a[i] + b[i] * (whole(1) - a[i])),
        D3DTOP_BLENDDIFFUSEALPHA => blended(a[i], b[i], alpha_of(env, "in.color0"@)),
        D3DTOP_BLENDTEXTUREALPHA => blended(a[i], b[i], alpha_of(env, texel(stage))),
        D3DTOP_BLENDFACTORALPHA => blended(a[i], b[i], alpha_of(env, "ps_c[0]"@)),
        D3DTOP_BLENDTEXTUREALPHAPM => if textured {
            clamped(a[i] + b[i] * (whole(1) - alpha_of(env, texel(stage))))
        } else {
            clamped(a[i] + b[i])
        },
        D3DTOP_BLENDCURRENTALPHA => blended(a[i], b[i], alpha_of(env, "current"@)),
        D3DTOP_MODULATEALPHA_ADDCOLOR => clamped(a[i] + a[3] * b[i]),
        D3DTOP_MODULATECOLOR_ADDALPHA => clamped(a[i] * b[i] + a[3]),
        D3DTOP_MODULATEINVALPHA_ADDCOLOR => clamped((whole(1) - a[3]) * b[i] + a[i]),
        D3DTOP_MODULATEINVCOLOR_ADDALPHA => clamped((whole(1) - a[i]) * b[i] + a[3]),
        D3DTOP_DOTPRODUCT3 => clamped(
            whole(4) * ((a[0] - half) * (b[0] - half) + (a[1] - half) * (b[1] - half)
                + (a[2] - half) * (
            b[2] - half)),
        ),
        _ => a[i],
    }
}

/// What an operation makes of its arguments, as a function.
pub open spec fn op_meaning(op: u32, stage: nat, textured: bool) -> spec_fn(Env) -> Value {
    |env: Env| Seq::new(4, |i: int| combined(op, env, stage, textured, i))
}

proof fn selectarg2_computes(stage: nat, textured: bool)
    ensures
        computes(
            op_of(D3DTOP_SELECTARG2, stage, textured),
            2,
            7,
            7,
            op_meaning(D3DTOP_SELECTARG2, stage, textured),
        ),
{
    reveal_with_fuel(Expr::behind, 2);
    reveal_with_fuel(Expr::value, 2);
    reveal_with_fuel(Expr::is_plain, 2);
    let e = operand(1);
    assert forall|s: Seq<Seq<char>>| #[trigger] (Seq::empty() + s[1]) == s[1] by {
        assert(Seq::empty() + s[1] =~= s[1]);
    }
    assert(is_written(e, op_of(D3DTOP_SELECTARG2, stage, textured), 2, 7, 7));
    assert forall|env: Env| #[trigger] vectors(env.operands, 2) implies e.value(env)
        == (op_meaning(D3DTOP_SELECTARG2, stage, textured))(env) by {
        assert(e.value(env) =~= (op_meaning(D3DTOP_SELECTARG2, stage, textured))(env));
    }
    assert(has_value(e, 2, op_meaning(D3DTOP_SELECTARG2, stage, textured)));
}

proof fn modulate_computes(stage: nat, textured: bool)
    ensures
        computes(
            op_of(D3DTOP_MODULATE, stage, textured),
            2,
            7,
            7,
            op_meaning(D3DTOP_MODULATE, stage, textured),
        ),
{
    reveal_with_fuel(Expr::behind, 4);
    reveal_with_fuel(Expr::value, 4);
    reveal_with_fuel(Expr::is_plain, 4);
    let e = group(infix(Operator::Times, operand(0), operand(1)));
    assert("("@ == Seq::empty() + "("@) by {
        reveal_strlit("(");
    }
    assert(is_written(e, op_of(D3DTOP_MODULATE, stage, textured), 2, 7, 7));
    assert forall|env: Env| #[trigger] vectors(env.operands, 2) implies e.value(env)
        == (op_meaning(D3DTOP_MODULATE, stage, textured))(env) by {
        assert(e.value(env) =~= (op_meaning(D3DTOP_MODULATE, stage, textured))(env));
    }
    assert(has_value(e, 2, op_meaning(D3DTOP_MODULATE, stage, textured)));
}

proof fn modulate2x_computes(stage: nat, textured: bool)
    ensures
        computes(
            op_of(D3DTOP_MODULATE2X, stage, textured),
            2,
            7,
            7,
            op_meaning(D3DTOP_MODULATE2X, stage, textured),
        ),
{
    reveal_with_fuel(Expr::behind, 5);
    reveal_with_fuel(Expr::value, 5);
    reveal_with_fuel(Expr::is_plain, 5);
    numerals();
    let e = call_1(
        Function::Saturate,
        infix(Operator::Times, infix(Operator::Times, number("2.0"@), operand(0)), operand(1)),
    );
    assert("saturate(2.0 * "@ == Seq::empty() + "saturate("@ + "2.0"@ + " * "@) by {
        reveal_strlit("saturate(2.0 * ");
        reveal_strlit("saturate(");
        reveal_strlit("2.0");
        reveal_strlit(" * ");
    }
    assert(is_written(e, op_of(D3DTOP_MODULATE2X, stage, textured), 2, 7, 7));
    assert forall|env: Env| #[trigger] vectors(env.operands, 2) implies e.value(env)
        == (op_meaning(D3DTOP_MODULATE2X, stage, textured))(env) by {
        assert(e.value(env) =~= (op_meaning(D3DTOP_MODULATE2X, stage, textured))(env));
    }
    assert(has_value(e, 2, op_meaning(D3DTOP_MODULATE2X, stage, textured)));
}

proof fn modulate4x_computes(stage: nat, textured: bool)
    ensures
        computes(
            op_of(D3DTOP_MODULATE4X, stage, textured),
            2,
            7,
            7,
            op_meaning(D3DTOP_MODULATE4X, stage, textured),
        ),
{
    reveal_with_fuel(Expr::behind, 5);
    reveal_with_fuel(Expr::value, 5);
    reveal_with_fuel(Expr::is_plain, 5);
    numerals();
    let e = call_1(
        Function::Saturate,
        infix(Operator::Times, infix(Operator::Times, number("4.0"@), operand(0)), operand(1)),
    );
    assert("saturate(4.0 * "@ == Seq::empty() + "saturate("@ + "4.0"@ + " * "@) by {
        reveal_strlit("saturate(4.0 * ");
        reveal_strlit("saturate(");
        reveal_strlit("4.0");
        reveal_strlit(" * ");
    }
    assert(is_written(e, op_of(D3DTOP_MODULATE4X, stage, textured), 2, 7, 7));
    assert forall|env: Env| #[trigger] vectors(env.operands, 2) implies e.value(env)
        == (op_meaning(D3DTOP_MODULATE4X, stage, textured))(env) by {
        assert(e.value(env) =~= (op_meaning(D3DTOP_MODULATE4X, stage, textured))(env));
    }
    assert(has_value(e, 2, op_meaning(D3DTOP_MODULATE4X, stage, textured)));
}

proof fn add_computes(stage: nat, textured: bool)
    ensures
        computes(
            op_of(D3DTOP_ADD, stage, textured),
            2,
            7,
            7,
            op_meaning(D3DTOP_ADD, stage, textured),
        ),
{
    reveal_with_fuel(Expr::behind, 4);
    reveal_with_fuel(Expr::value, 4);
    reveal_with_fuel(Expr::is_plain, 4);
    let e = call_1(Function::Saturate, infix(Operator::Plus, operand(0), operand(1)));
    assert("saturate("@ == Seq::empty() + "saturate("@) by {
        reveal_strlit("saturate(");
    }
    assert(is_written(e, op_of(D3DTOP_ADD, stage, textured), 2, 7, 7));
    assert forall|env: Env| #[trigger] vectors(env.operands, 2) implies e.value(env)
        == (op_meaning(D3DTOP_ADD, stage, textured))(env) by {
        assert(e.value(env) =~= (op_meaning(D3DTOP_ADD, stage, textured))(env));
    }
    assert(has_value(e, 2, op_meaning(D3DTOP_ADD, stage, textured)));
}

proof fn addsigned_computes(stage: nat, textured: bool)
    ensures
        computes(
            op_of(D3DTOP_ADDSIGNED, stage, textured),
            2,
            7,
            7,
            op_meaning(D3DTOP_ADDSIGNED, stage, textured),
        ),
{
    reveal_with_fuel(Expr::behind, 5);
    reveal_with_fuel(Expr::value, 5);
    reveal_with_fuel(Expr::is_plain, 5);
    numerals();
    let e = call_1(
        Function::Saturate,
        infix(Operator::Minus, infix(Operator::Plus, operand(0), operand(1)), number("0.5"@)),
    );
    assert("saturate("@ == Seq::empty() + "saturate("@) by {
        reveal_strlit("saturate(");
    }
    assert forall|x: Seq<char>| #[trigger] (x + " - 0.5)"@) == x + " - "@ + "0.5"@ + ")"@ by {
        reveal_strlit(" - 0.5)");
        reveal_strlit(" - ");
        reveal_strlit("0.5");
        reveal_strlit(")");
        assert(x + " - 0.5)"@ =~= x + " - "@ + "0.5"@ + ")"@);
    }
    assert(is_written(e, op_of(D3DTOP_ADDSIGNED, stage, textured), 2, 7, 7));
    assert forall|env: Env| #[trigger] vectors(env.operands, 2) implies e.value(env)
        == (op_meaning(D3DTOP_ADDSIGNED, stage, textured))(env) by {
        assert(e.value(env) =~= (op_meaning(D3DTOP_ADDSIGNED, stage, textured))(env));
    }
    assert(has_value(e, 2, op_meaning(D3DTOP_ADDSIGNED, stage, textured)));
}

proof fn addsigned2x_computes(stage: nat, textured: bool)
    ensures
        computes(
            op_of(D3DTOP_ADDSIGNED2X, stage, textured),
            2,
            7,
            7,
            op_meaning(D3DTOP_ADDSIGNED2X, stage, textured),
        ),
{
    reveal_with_fuel(Expr::behind, 7);
    reveal_with_fuel(Expr::value, 7);
    reveal_with_fuel(Expr::is_plain, 7);
    numerals();
    let e = call_1(
        Function::Saturate,
        infix(
            Operator::Times,
            number("2.0"@),
            group(
                infix(
                    Operator::Minus,
                    infix(Operator::Plus, operand(0), operand(1)),
                    number("0.5"@),
                ),
            ),
        ),
    );
    assert("saturate(2.0 * ("@ == Seq::empty() + "saturate("@ + "2.0"@ + " * "@ + "("@) by {
        reveal_strlit("saturate(2.0 * (");
        reveal_strlit("saturate(");
        reveal_strlit("2.0");
        reveal_strlit(" * ");
        reveal_strlit("(");
    }
    assert forall|x: Seq<char>| #[trigger] (x + " - 0.5))"@) == x + " - "@ + "0.5"@ + ")"@
        + ")"@ by {
        reveal_strlit(" - 0.5))");
        reveal_strlit(" - ");
        reveal_strlit("0.5");
        reveal_strlit(")");
        assert(x + " - 0.5))"@ =~= x + " - "@ + "0.5"@ + ")"@ + ")"@);
    }
    assert(is_written(e, op_of(D3DTOP_ADDSIGNED2X, stage, textured), 2, 7, 7));
    assert forall|env: Env| #[trigger] vectors(env.operands, 2) implies e.value(env)
        == (op_meaning(D3DTOP_ADDSIGNED2X, stage, textured))(env) by {
        assert(e.value(env) =~= (op_meaning(D3DTOP_ADDSIGNED2X, stage, textured))(env));
    }
    assert(has_value(e, 2, op_meaning(D3DTOP_ADDSIGNED2X, stage, textured)));
}

proof fn subtract_computes(stage: nat, textured: bool)
    ensures
        computes(
            op_of(D3DTOP_SUBTRACT, stage, textured),
            2,
            7,
            7,
            op_meaning(D3DTOP_SUBTRACT, stage, textured),
        ),
{
    reveal_with_fuel(Expr::behind, 4);
    reveal_with_fuel(Expr::value, 4);
    reveal_with_fuel(Expr::is_plain, 4);
    let e = call_1(Function::Saturate, infix(Operator::Minus, operand(0), operand(1)));
    assert("saturate("@ == Seq::empty() + "saturate("@) by {
        reveal_strlit("saturate(");
    }
    assert(is_written(e, op_of(D3DTOP_SUBTRACT, stage, textured), 2, 7, 7));
    assert forall|env: Env| #[trigger] vectors(env.operands, 2) implies e.value(env)
        == (op_meaning(D3DTOP_SUBTRACT, stage, textured))(env) by {
        assert(e.value(env) =~= (op_meaning(D3DTOP_SUBTRACT, stage, textured))(env));
    }
    assert(has_value(e, 2, op_meaning(D3DTOP_SUBTRACT, stage, textured)));
}

proof fn addsmooth_computes(stage: nat, textured: bool)
    ensures
        computes(
            op_of(D3DTOP_ADDSMOOTH, stage, textured),
            2,
            7,
            7,
            op_meaning(D3DTOP_ADDSMOOTH, stage, textured),
        ),
{
    reveal_with_fuel(Expr::behind, 5);
    reveal_with_fuel(Expr::value, 5);
    reveal_with_fuel(Expr::is_plain, 5);
    let e = call_1(
        Function::Saturate,
        infix(
            Operator::Minus,
            infix(Operator::Plus, operand(0), operand(1)),
            infix(Operator::Times, operand(0), operand(1)),
        ),
    );
    assert("saturate("@ == Seq::empty() + "saturate("@) by {
        reveal_strlit("saturate(");
    }
    assert(is_written(e, op_of(D3DTOP_ADDSMOOTH, stage, textured), 2, 7, 7));
    assert forall|env: Env| #[trigger] vectors(env.operands, 2) implies e.value(env)
        == (op_meaning(D3DTOP_ADDSMOOTH, stage, textured))(env) by {
        let (a, b) = (env.operands[0], env.operands[1]);
        assert forall|i: int| 0 <= i < 4 implies a[i] + b[i] - a[i] * b[i] == a[i]
            + b[i] * (whole(1) - #[trigger] a[i]) by {
            let (x, y) = (a[i], b[i]);
            assert(x + y - x * y == x + y * (whole(1) - x)) by (nonlinear_arith);
        }
        assert(e.value(env) =~= (op_meaning(D3DTOP_ADDSMOOTH, stage, textured))(env));
    }
    assert(has_value(e, 2, op_meaning(D3DTOP_ADDSMOOTH, stage, textured)));
}

proof fn blenddiffusealpha_computes(stage: nat, textured: bool)
    ensures
        computes(
            op_of(D3DTOP_BLENDDIFFUSEALPHA, stage, textured),
            2,
            7,
            7,
            op_meaning(D3DTOP_BLENDDIFFUSEALPHA, stage, textured),
        ),
{
    reveal_with_fuel(Expr::behind, 4);
    reveal_with_fuel(Expr::value, 4);
    reveal_with_fuel(Expr::is_plain, 4);
    let e = call_3(Function::Mix, operand(1), operand(0), lanes(name("in.color0"@), "a"@));
    assert("mix("@ == Seq::empty() + "mix("@) by {
        reveal_strlit("mix(");
    }
    assert forall|x: Seq<char>| #[trigger] (x + ", in.color0.a)"@) == x + ", "@ + "in.color0"@
        + "."@ + "a"@ + ")"@ by {
        reveal_strlit(", in.color0.a)");
        reveal_strlit(", ");
        reveal_strlit("in.color0");
        reveal_strlit(".");
        reveal_strlit("a");
        reveal_strlit(")");
        assert(x + ", in.color0.a)"@ =~= x + ", "@ + "in.color0"@ + "."@ + "a"@ + ")"@);
    }
    assert(is_written(e, op_of(D3DTOP_BLENDDIFFUSEALPHA, stage, textured), 2, 7, 7));
    reveal_strlit("a");
    assert forall|env: Env| #[trigger] vectors(env.operands, 2) implies e.value(env)
        == (op_meaning(D3DTOP_BLENDDIFFUSEALPHA, stage, textured))(env) by {
        assert(e.value(env) =~= (op_meaning(D3DTOP_BLENDDIFFUSEALPHA, stage, textured))(env));
    }
    assert(has_value(e, 2, op_meaning(D3DTOP_BLENDDIFFUSEALPHA, stage, textured)));
}

proof fn blendtexturealpha_computes(stage: nat, textured: bool)
    ensures
        computes(
            op_of(D3DTOP_BLENDTEXTUREALPHA, stage, textured),
            2,
            7,
            7,
            op_meaning(D3DTOP_BLENDTEXTUREALPHA, stage, textured),
        ),
{
    reveal_with_fuel(Expr::behind, 4);
    reveal_with_fuel(Expr::value, 4);
    reveal_with_fuel(Expr::is_plain, 4);
    let e = call_3(Function::Mix, operand(1), operand(0), lanes(name(texel(stage)), "a"@));
    assert("mix("@ == Seq::empty() + "mix("@) by {
        reveal_strlit("mix(");
    }
    assert forall|x: Seq<char>| #[trigger] (x + ".a)"@) == x + "."@ + "a"@ + ")"@ by {
        reveal_strlit(".a)");
        reveal_strlit(".");
        reveal_strlit("a");
        reveal_strlit(")");
        assert(x + ".a)"@ =~= x + "."@ + "a"@ + ")"@);
    }
    assert(is_written(e, op_of(D3DTOP_BLENDTEXTUREALPHA, stage, textured), 2, 7, 7));
    reveal_strlit("a");
    assert forall|env: Env| #[trigger] vectors(env.operands, 2) implies e.value(env)
        == (op_meaning(D3DTOP_BLENDTEXTUREALPHA, stage, textured))(env) by {
        assert(e.value(env) =~= (op_meaning(D3DTOP_BLENDTEXTUREALPHA, stage, textured))(env));
    }
    assert(has_value(e, 2, op_meaning(D3DTOP_BLENDTEXTUREALPHA, stage, textured)));
}

proof fn blendfactoralpha_computes(stage: nat, textured: bool)
    ensures
        computes(
            op_of(D3DTOP_BLENDFACTORALPHA, stage, textured),
            2,
            7,
            7,
            op_meaning(D3DTOP_BLENDFACTORALPHA, stage, textured),
        ),
{
    reveal_with_fuel(Expr::behind, 4);
    reveal_with_fuel(Expr::value, 4);
    reveal_with_fuel(Expr::is_plain, 4);
    let e = call_3(Function::Mix, operand(1), operand(0), lanes(name("ps_c[0]"@), "a"@));
    assert("mix("@ == Seq::empty() + "mix("@) by {
        reveal_strlit("mix(");
    }
    assert forall|x: Seq<char>| #[trigger] (x + ", ps_c[0].a)"@) == x + ", "@ + "ps_c[0]"@ + "."@
        + "a"@ + ")"@ by {
        reveal_strlit(", ps_c[0].a)");
        reveal_strlit(", ");
        reveal_strlit("ps_c[0]");
        reveal_strlit(".");
        reveal_strlit("a");
        reveal_strlit(")");
        assert(x + ", ps_c[0].a)"@ =~= x + ", "@ + "ps_c[0]"@ + "."@ + "a"@ + ")"@);
    }
    assert(is_written(e, op_of(D3DTOP_BLENDFACTORALPHA, stage, textured), 2, 7, 7));
    reveal_strlit("a");
    assert forall|env: Env| #[trigger] vectors(env.operands, 2) implies e.value(env)
        == (op_meaning(D3DTOP_BLENDFACTORALPHA, stage, textured))(env) by {
        assert(e.value(env) =~= (op_meaning(D3DTOP_BLENDFACTORALPHA, stage, textured))(env));
    }
    assert(has_value(e, 2, op_meaning(D3DTOP_BLENDFACTORALPHA, stage, textured)));
}

proof fn blendtexturealphapm_computes(stage: nat)
    ensures
        computes(
            op_of(D3DTOP_BLENDTEXTUREALPHAPM, stage, true),
            2,
            7,
            7,
            op_meaning(D3DTOP_BLENDTEXTUREALPHAPM, stage, true),
        ),
{
    reveal_with_fuel(Expr::behind, 8);
    reveal_with_fuel(Expr::value, 8);
    reveal_with_fuel(Expr::is_plain, 8);
    numerals();
    let e = call_1(
        Function::Saturate,
        infix(
            Operator::Plus,
            operand(0),
            infix(
                Operator::Times,
                operand(1),
                group(infix(Operator::Minus, number("1.0"@), lanes(name(texel(stage)), "a"@))),
            ),
        ),
    );
    assert("saturate("@ == Seq::empty() + "saturate("@) by {
        reveal_strlit("saturate(");
    }
    assert forall|x: Seq<char>| #[trigger] (x + " * (1.0 - "@) == x + " * "@ + "("@ + "1.0"@
        + " - "@ by {
        reveal_strlit(" * (1.0 - ");
        reveal_strlit(" * ");
        reveal_strlit("(");
        reveal_strlit("1.0");
        reveal_strlit(" - ");
        assert(x + " * (1.0 - "@ =~= x + " * "@ + "("@ + "1.0"@ + " - "@);
    }
    assert forall|x: Seq<char>| #[trigger] (x + ".a))"@) == x + "."@ + "a"@ + ")"@ + ")"@ by {
        reveal_strlit(".a))");
        reveal_strlit(".");
        reveal_strlit("a");
        reveal_strlit(")");
        assert(x + ".a))"@ =~= x + "."@ + "a"@ + ")"@ + ")"@);
    }
    assert(is_written(e, op_of(D3DTOP_BLENDTEXTUREALPHAPM, stage, true), 2, 7, 7));
    reveal_strlit("a");
    assert forall|env: Env| #[trigger] vectors(env.operands, 2) implies e.value(env)
        == (op_meaning(D3DTOP_BLENDTEXTUREALPHAPM, stage, true))(env) by {
        assert(e.value(env) =~= (op_meaning(D3DTOP_BLENDTEXTUREALPHAPM, stage, true))(env));
    }
    assert(has_value(e, 2, op_meaning(D3DTOP_BLENDTEXTUREALPHAPM, stage, true)));
}

proof fn untextured_blendtexturealphapm_computes(stage: nat)
    ensures
        computes(
            op_of(D3DTOP_BLENDTEXTUREALPHAPM, stage, false),
            2,
            7,
            7,
            op_meaning(D3DTOP_BLENDTEXTUREALPHAPM, stage, false),
        ),
{
    reveal_with_fuel(Expr::behind, 4);
    reveal_with_fuel(Expr::value, 4);
    reveal_with_fuel(Expr::is_plain, 4);
    let e = call_1(Function::Saturate, infix(Operator::Plus, operand(0), operand(1)));
    assert("saturate("@ == Seq::empty() + "saturate("@) by {
        reveal_strlit("saturate(");
    }
    assert(is_written(e, op_of(D3DTOP_BLENDTEXTUREALPHAPM, stage, false), 2, 7, 7));
    assert forall|env: Env| #[trigger] vectors(env.operands, 2) implies e.value(env)
        == (op_meaning(D3DTOP_BLENDTEXTUREALPHAPM, stage, false))(env) by {
        assert(e.value(env) =~= (op_meaning(D3DTOP_BLENDTEXTUREALPHAPM, stage, false))(env));
    }
    assert(has_value(e, 2, op_meaning(D3DTOP_BLENDTEXTUREALPHAPM, stage, false)));
}

proof fn blendcurrentalpha_computes(stage: nat, textured: bool)
    ensures
        computes(
            op_of(D3DTOP_BLENDCURRENTALPHA, stage, textured),
            2,
            7,
            7,
            op_meaning(D3DTOP_BLENDCURRENTALPHA, stage, textured),
        ),
{
    reveal_with_fuel(Expr::behind, 4);
    reveal_with_fuel(Expr::value, 4);
    reveal_with_fuel(Expr::is_plain, 4);
    let e = call_3(Function::Mix, operand(1), operand(0), lanes(name("current"@), "a"@));
    assert("mix("@ == Seq::empty() + "mix("@) by {
        reveal_strlit("mix(");
    }
    assert forall|x: Seq<char>| #[trigger] (x + ", current.a)"@) == x + ", "@ + "current"@ + "."@
        + "a"@ + ")"@ by {
        reveal_strlit(", current.a)");
        reveal_strlit(", ");
        reveal_strlit("current");
        reveal_strlit(".");
        reveal_strlit("a");
        reveal_strlit(")");
        assert(x + ", current.a)"@ =~= x + ", "@ + "current"@ + "."@ + "a"@ + ")"@);
    }
    assert(is_written(e, op_of(D3DTOP_BLENDCURRENTALPHA, stage, textured), 2, 7, 7));
    reveal_strlit("a");
    assert forall|env: Env| #[trigger] vectors(env.operands, 2) implies e.value(env)
        == (op_meaning(D3DTOP_BLENDCURRENTALPHA, stage, textured))(env) by {
        assert(e.value(env) =~= (op_meaning(D3DTOP_BLENDCURRENTALPHA, stage, textured))(env));
    }
    assert(has_value(e, 2, op_meaning(D3DTOP_BLENDCURRENTALPHA, stage, textured)));
}

proof fn modulatealpha_addcolor_computes(stage: nat, textured: bool)
    ensures
        computes(
            op_of(D3DTOP_MODULATEALPHA_ADDCOLOR, stage, textured),
            2,
            7,
            7,
            op_meaning(D3DTOP_MODULATEALPHA_ADDCOLOR, stage, textured),
        ),
{
    reveal_with_fuel(Expr::behind, 7);
    reveal_with_fuel(Expr::value, 7);
    reveal_with_fuel(Expr::is_plain, 7);
    let e = call_1(
        Function::Saturate,
        infix(
            Operator::Plus,
            operand(0),
            infix(Operator::Times, lanes(group(operand(0)), "a"@), operand(1)),
        ),
    );
    assert("saturate("@ == Seq::empty() + "saturate("@) by {
        reveal_strlit("saturate(");
    }
    assert forall|x: Seq<char>| #[trigger] (x + " + ("@) == x + " + "@ + "("@ by {
        reveal_strlit(" + (");
        reveal_strlit(" + ");
        reveal_strlit("(");
        assert(x + " + ("@ =~= x + " + "@ + "("@);
    }
    assert forall|x: Seq<char>| #[trigger] (x + ").a * "@) == x + ")"@ + "."@ + "a"@ + " * "@ by {
        reveal_strlit(").a * ");
        reveal_strlit(")");
        reveal_strlit(".");
        reveal_strlit("a");
        reveal_strlit(" * ");
        assert(x + ").a * "@ =~= x + ")"@ + "."@ + "a"@ + " * "@);
    }
    assert(is_written(e, op_of(D3DTOP_MODULATEALPHA_ADDCOLOR, stage, textured), 2, 7, 7));
    reveal_strlit("a");
    assert forall|env: Env| #[trigger] vectors(env.operands, 2) implies e.value(env)
        == (op_meaning(D3DTOP_MODULATEALPHA_ADDCOLOR, stage, textured))(env) by {
        assert(e.value(env) =~= (op_meaning(D3DTOP_MODULATEALPHA_ADDCOLOR, stage, textured))(env));
    }
    assert(has_value(e, 2, op_meaning(D3DTOP_MODULATEALPHA_ADDCOLOR, stage, textured)));
}

proof fn modulatecolor_addalpha_computes(stage: nat, textured: bool)
    ensures
        computes(
            op_of(D3DTOP_MODULATECOLOR_ADDALPHA, stage, textured),
            2,
            7,
            7,
            op_meaning(D3DTOP_MODULATECOLOR_ADDALPHA, stage, textured),
        ),
{
    reveal_with_fuel(Expr::behind, 6);
    reveal_with_fuel(Expr::value, 6);
    reveal_with_fuel(Expr::is_plain, 6);
    let e = call_1(
        Function::Saturate,
        infix(
            Operator::Plus,
            infix(Operator::Times, operand(0), operand(1)),
            lanes(group(operand(0)), "a"@),
        ),
    );
    assert("saturate("@ == Seq::empty() + "saturate("@) by {
        reveal_strlit("saturate(");
    }
    assert forall|x: Seq<char>| #[trigger] (x + " + ("@) == x + " + "@ + "("@ by {
        reveal_strlit(" + (");
        reveal_strlit(" + ");
        reveal_strlit("(");
        assert(x + " + ("@ =~= x + " + "@ + "("@);
    }
    assert forall|x: Seq<char>| #[trigger] (x + ").a)"@) == x + ")"@ + "."@ + "a"@ + ")"@ by {
        reveal_strlit(").a)");
        reveal_strlit(")");
        reveal_strlit(".");
        reveal_strlit("a");
        assert(x + ").a)"@ =~= x + ")"@ + "."@ + "a"@ + ")"@);
    }
    assert(is_written(e, op_of(D3DTOP_MODULATECOLOR_ADDALPHA, stage, textured), 2, 7, 7));
    reveal_strlit("a");
    assert forall|env: Env| #[trigger] vectors(env.operands, 2) implies e.value(env)
        == (op_meaning(D3DTOP_MODULATECOLOR_ADDALPHA, stage, textured))(env) by {
        assert(e.value(env) =~= (op_meaning(D3DTOP_MODULATECOLOR_ADDALPHA, stage, textured))(env));
    }
    assert(has_value(e, 2, op_meaning(D3DTOP_MODULATECOLOR_ADDALPHA, stage, textured)));
}

proof fn modulateinvalpha_addcolor_computes(stage: nat, textured: bool)
    ensures
        computes(
            op_of(D3DTOP_MODULATEINVALPHA_ADDCOLOR, stage, textured),
            2,
            7,
            7,
            op_meaning(D3DTOP_MODULATEINVALPHA_ADDCOLOR, stage, textured),
        ),
{
    reveal_with_fuel(Expr::behind, 9);
    reveal_with_fuel(Expr::value, 9);
    reveal_with_fuel(Expr::is_plain, 9);
    numerals();
    let e = call_1(
        Function::Saturate,
        infix(
            Operator::Plus,
            infix(
                Operator::Times,
                group(infix(Operator::Minus, number("1.0"@), lanes(group(operand(0)), "a"@))),
                operand(1),
            ),
            operand(0),
        ),
    );
    assert("saturate((1.0 - ("@ == Seq::empty() + "saturate("@ + "("@ + "1.0"@ + " - "@ + "("@) by {
        reveal_strlit("saturate((1.0 - (");
        reveal_strlit("saturate(");
        reveal_strlit("(");
        reveal_strlit("1.0");
        reveal_strlit(" - ");
    }
    assert forall|x: Seq<char>| #[trigger] (x + ").a) * "@) == x + ")"@ + "."@ + "a"@ + ")"@
        + " * "@ by {
        reveal_strlit(").a) * ");
        reveal_strlit(")");
        reveal_strlit(".");
        reveal_strlit("a");
        reveal_strlit(" * ");
        assert(x + ").a) * "@ =~= x + ")"@ + "."@ + "a"@ + ")"@ + " * "@);
    }
    assert(is_written(e, op_of(D3DTOP_MODULATEINVALPHA_ADDCOLOR, stage, textured), 2, 7, 7));
    reveal_strlit("a");
    assert forall|env: Env| #[trigger] vectors(env.operands, 2) implies e.value(env)
        == (op_meaning(D3DTOP_MODULATEINVALPHA_ADDCOLOR, stage, textured))(env) by {
        assert(e.value(env)
            =~= (op_meaning(D3DTOP_MODULATEINVALPHA_ADDCOLOR, stage, textured))(env));
    }
    assert(has_value(e, 2, op_meaning(D3DTOP_MODULATEINVALPHA_ADDCOLOR, stage, textured)));
}

proof fn modulateinvcolor_addalpha_computes(stage: nat, textured: bool)
    ensures
        computes(
            op_of(D3DTOP_MODULATEINVCOLOR_ADDALPHA, stage, textured),
            2,
            7,
            7,
            op_meaning(D3DTOP_MODULATEINVCOLOR_ADDALPHA, stage, textured),
        ),
{
    reveal_with_fuel(Expr::behind, 7);
    reveal_with_fuel(Expr::value, 7);
    reveal_with_fuel(Expr::is_plain, 7);
    numerals();
    let e = call_1(
        Function::Saturate,
        infix(
            Operator::Plus,
            infix(
                Operator::Times,
                group(infix(Operator::Minus, number("1.0"@), operand(0))),
                operand(1),
            ),
            lanes(group(operand(0)), "a"@),
        ),
    );
    assert("saturate((1.0 - "@ == Seq::empty() + "saturate("@ + "("@ + "1.0"@ + " - "@) by {
        reveal_strlit("saturate((1.0 - ");
        reveal_strlit("saturate(");
        reveal_strlit("(");
        reveal_strlit("1.0");
        reveal_strlit(" - ");
    }
    assert forall|x: Seq<char>| #[trigger] (x + ") * "@) == x + ")"@ + " * "@ by {
        reveal_strlit(") * ");
        reveal_strlit(")");
        reveal_strlit(" * ");
        assert(x + ") * "@ =~= x + ")"@ + " * "@);
    }
    assert forall|x: Seq<char>| #[trigger] (x + " + ("@) == x + " + "@ + "("@ by {
        reveal_strlit(" + (");
        reveal_strlit(" + ");
        reveal_strlit("(");
        assert(x + " + ("@ =~= x + " + "@ + "("@);
    }
    assert forall|x: Seq<char>| #[trigger] (x + ").a)"@) == x + ")"@ + "."@ + "a"@ + ")"@ by {
        reveal_strlit(").a)");
        reveal_strlit(")");
        reveal_strlit(".");
        reveal_strlit("a");
        assert(x + ").a)"@ =~= x + ")"@ + "."@ + "a"@ + ")"@);
    }
    assert(is_written(e, op_of(D3DTOP_MODULATEINVCOLOR_ADDALPHA, stage, textured), 2, 7, 7));
    reveal_strlit("a");
    assert forall|env: Env| #[trigger] vectors(env.operands, 2) implies e.value(env)
        == (op_meaning(D3DTOP_MODULATEINVCOLOR_ADDALPHA, stage, textured))(env) by {
        assert(e.value(env)
            =~= (op_meaning(D3DTOP_MODULATEINVCOLOR_ADDALPHA, stage, textured))(env));
    }
    assert(has_value(e, 2, op_meaning(D3DTOP_MODULATEINVCOLOR_ADDALPHA, stage, textured)));
}

proof fn dotproduct3_computes(stage: nat, textured: bool)
    ensures
        computes(
            op_of(D3DTOP_DOTPRODUCT3, stage, textured),
            2,
            7,
            7,
            op_meaning(D3DTOP_DOTPRODUCT3, stage, textured),
        ),
{
    reveal_with_fuel(Expr::behind, 9);
    reveal_with_fuel(Expr::value, 9);
    reveal_with_fuel(Expr::is_plain, 9);
    reveal_with_fuel(inner, 5);
    numerals();
    let e = call_1(
        Function::Float4,
        call_1(
            Function::Saturate,
            infix(
                Operator::Times,
                number("4.0"@),
                call_2(
                    Function::Dot,
                    infix(Operator::Minus, lanes(group(operand(0)), "rgb"@), number("0.5"@)),
                    infix(Operator::Minus, lanes(group(operand(1)), "rgb"@), number("0.5"@)),
                ),
            ),
        ),
    );
    assert("float4(saturate(4.0 * dot(("@ == Seq::empty() + "float4("@ + "saturate("@ + "4.0"@
        + " * "@ + "dot("@ + "("@) by {
        reveal_strlit("float4(saturate(4.0 * dot((");
        reveal_strlit("float4(");
        reveal_strlit("saturate(");
        reveal_strlit("4.0");
        reveal_strlit(" * ");
        reveal_strlit("dot(");
        reveal_strlit("(");
    }
    assert forall|x: Seq<char>| #[trigger] (x + ").rgb - 0.5, ("@) == x + ")"@ + "."@ + "rgb"@
        + " - "@ + "0.5"@ + ", "@ + "("@ by {
        reveal_strlit(").rgb - 0.5, (");
        reveal_strlit(")");
        reveal_strlit(".");
        reveal_strlit("rgb");
        reveal_strlit(" - ");
        reveal_strlit("0.5");
        reveal_strlit(", ");
        reveal_strlit("(");
        assert(x + ").rgb - 0.5, ("@ =~= x + ")"@ + "."@ + "rgb"@ + " - "@ + "0.5"@ + ", "@ + "("@);
    }
    assert forall|x: Seq<char>| #[trigger] (x + ").rgb - 0.5)))"@) == x + ")"@ + "."@ + "rgb"@
        + " - "@ + "0.5"@ + ")"@ + ")"@ + ")"@ by {
        reveal_strlit(").rgb - 0.5)))");
        reveal_strlit(")");
        reveal_strlit(".");
        reveal_strlit("rgb");
        reveal_strlit(" - ");
        reveal_strlit("0.5");
        assert(x + ").rgb - 0.5)))"@ =~= x + ")"@ + "."@ + "rgb"@ + " - "@ + "0.5"@ + ")"@ + ")"@
            + ")"@);
    }
    assert(is_written(e, op_of(D3DTOP_DOTPRODUCT3, stage, textured), 2, 7, 7));
    reveal_strlit("rgb");
    assert forall|env: Env| #[trigger] vectors(env.operands, 2) implies e.value(env)
        == (op_meaning(D3DTOP_DOTPRODUCT3, stage, textured))(env) by {
        assert(e.value(env) =~= (op_meaning(D3DTOP_DOTPRODUCT3, stage, textured))(env));
    }
    assert(has_value(e, 2, op_meaning(D3DTOP_DOTPRODUCT3, stage, textured)));
}

proof fn first_computes(op: u32, stage: nat, textured: bool)
    requires
        op < 256,
        op != D3DTOP_SELECTARG2,
        op != D3DTOP_MODULATE,
        op != D3DTOP_MODULATE2X,
        op != D3DTOP_MODULATE4X,
        op != D3DTOP_ADD,
        op != D3DTOP_ADDSIGNED,
        op != D3DTOP_ADDSIGNED2X,
        op != D3DTOP_SUBTRACT,
        op != D3DTOP_ADDSMOOTH,
        op != D3DTOP_BLENDDIFFUSEALPHA,
        op != D3DTOP_BLENDTEXTUREALPHA,
        op != D3DTOP_BLENDFACTORALPHA,
        op != D3DTOP_BLENDTEXTUREALPHAPM,
        op != D3DTOP_BLENDCURRENTALPHA,
        op != D3DTOP_MODULATEALPHA_ADDCOLOR,
        op != D3DTOP_MODULATECOLOR_ADDALPHA,
        op != D3DTOP_MODULATEINVALPHA_ADDCOLOR,
        op != D3DTOP_MODULATEINVCOLOR_ADDALPHA,
        op != D3DTOP_DOTPRODUCT3,
    ensures
        computes(op_of(op, stage, textured), 2, 7, 7, op_meaning(op, stage, textured)),
{
    reveal_with_fuel(Expr::behind, 2);
    reveal_with_fuel(Expr::value, 2);
    reveal_with_fuel(Expr::is_plain, 2);
    let e = operand(0);
    assert forall|s: Seq<Seq<char>>| #[trigger] (Seq::empty() + s[0]) == s[0] by {
        assert(Seq::empty() + s[0] =~= s[0]);
    }
    assert(is_written(e, op_of(op, stage, textured), 2, 7, 7));
    assert forall|env: Env| #[trigger] vectors(env.operands, 2) implies e.value(env)
        == (op_meaning(op, stage, textured))(env) by {
        assert(e.value(env) =~= (op_meaning(op, stage, textured))(env));
    }
    assert(has_value(e, 2, op_meaning(op, stage, textured)));
}

/// The text of an operation computes what Direct3D says of it, in each channel
/// and for all arguments.
pub proof fn stage_operations_compute(op: u8, stage: nat, textured: bool)
    ensures
        computes(
            op_of(op as u32, stage, textured),
            2,
            7,
            7,
            op_meaning(op as u32, stage, textured),
        ),
{
    match op as u32 {
        D3DTOP_SELECTARG2 => selectarg2_computes(stage, textured),
        D3DTOP_MODULATE => modulate_computes(stage, textured),
        D3DTOP_MODULATE2X => modulate2x_computes(stage, textured),
        D3DTOP_MODULATE4X => modulate4x_computes(stage, textured),
        D3DTOP_ADD => add_computes(stage, textured),
        D3DTOP_ADDSIGNED => addsigned_computes(stage, textured),
        D3DTOP_ADDSIGNED2X => addsigned2x_computes(stage, textured),
        D3DTOP_SUBTRACT => subtract_computes(stage, textured),
        D3DTOP_ADDSMOOTH => addsmooth_computes(stage, textured),
        D3DTOP_BLENDDIFFUSEALPHA => blenddiffusealpha_computes(stage, textured),
        D3DTOP_BLENDTEXTUREALPHA => blendtexturealpha_computes(stage, textured),
        D3DTOP_BLENDFACTORALPHA => blendfactoralpha_computes(stage, textured),
        D3DTOP_BLENDTEXTUREALPHAPM => if textured {
            blendtexturealphapm_computes(stage);
        } else {
            untextured_blendtexturealphapm_computes(stage);
        },
        D3DTOP_BLENDCURRENTALPHA => blendcurrentalpha_computes(stage, textured),
        D3DTOP_MODULATEALPHA_ADDCOLOR => modulatealpha_addcolor_computes(stage, textured),
        D3DTOP_MODULATECOLOR_ADDALPHA => modulatecolor_addalpha_computes(stage, textured),
        D3DTOP_MODULATEINVALPHA_ADDCOLOR => modulateinvalpha_addcolor_computes(stage, textured),
        D3DTOP_MODULATEINVCOLOR_ADDALPHA => modulateinvcolor_addalpha_computes(stage, textured),
        D3DTOP_DOTPRODUCT3 => dotproduct3_computes(stage, textured),
        _ => first_computes(op as u32, stage, textured),
    }
}

// ---------------------------------------------------------------------------
// Arguments
// ---------------------------------------------------------------------------

/// What an argument selects: the diffuse or the specular colour, the texture of
/// the stage, the texture factor, the temporary register, the constant of the
/// stage, or the result so far.
pub open spec fn selected(arg: u8, env: Env, stage: nat) -> Value {
    let n = if names(arg, D3DTA_DIFFUSE) {
        "in.color0"@
    } else if names(arg, D3DTA_SPECULAR) {
        "in.color1"@
    } else if names(arg, D3DTA_TEXTURE) {
        "t"@ + dec(stage)
    } else if names(arg, D3DTA_TFACTOR) {
        "ps_c[0]"@
    } else if names(arg, D3DTA_TEMP) {
        "temp"@
    } else if names(arg, D3DTA_CONSTANT) {
        "ps_c["@ + dec(stage + 1) + "]"@
    } else {
        "current"@
    };
    (env.names)(n)
}

/// Channel `i` of an argument with its modifiers.
pub open spec fn argument(arg: u8, env: Env, stage: nat, i: int) -> real {
    let v = selected(arg, env, stage);
    let x = if arg as u32 & D3DTA_ALPHAREPLICATE != 0 {
        v[3]
    } else {
        v[i]
    };
    if arg as u32 & D3DTA_COMPLEMENT != 0 {
        whole(1) - x
    } else {
        x
    }
}

/// The text of an argument computes what the argument selects, with the alpha
/// replicated and complemented as its modifiers say.
pub proof fn stage_arguments_compute(arg: u8, stage: nat)
    ensures
        exists|e: Expr| #[trigger]
            e.is_plain(7) && e.level(7) == 7 && e.text(Seq::empty()) == arg_text(arg, stage)
                && forall|env: Env| #[trigger] selected(arg, env, stage).len() == 4 ==> e.value(env)
                == Seq::new(4, |i: int| argument(arg, env, stage, i)),
{
    reveal_with_fuel(Expr::behind, 5);
    reveal_with_fuel(Expr::value, 5);
    reveal_with_fuel(Expr::is_plain, 5);
    numerals();
    reveal_strlit("aaaa");
    let n = arg_register(arg, stage);
    let spread = if arg as u32 & D3DTA_ALPHAREPLICATE != 0 {
        lanes(name(n), "aaaa"@)
    } else {
        name(n)
    };
    let e = if arg as u32 & D3DTA_COMPLEMENT != 0 {
        group(infix(Operator::Minus, number("1.0"@), spread))
    } else {
        spread
    };
    assert(Seq::empty() + n =~= n);
    assert forall|x: Seq<char>| #[trigger] (x + ".aaaa"@) == x + "."@ + "aaaa"@ by {
        reveal_strlit(".aaaa");
        reveal_strlit(".");
        assert(x + ".aaaa"@ =~= x + "."@ + "aaaa"@);
    }
    let x = "(1.0 - "@;
    assert(x == Seq::empty() + "("@ + "1.0"@ + " - "@) by {
        reveal_strlit("(1.0 - ");
        reveal_strlit("(");
        reveal_strlit("1.0");
        reveal_strlit(" - ");
    }
    assert(x + (n + ".aaaa"@) =~= x + n + ".aaaa"@);
    assert(e.text(Seq::empty()) == arg_text(arg, stage));
    assert forall|env: Env| #[trigger] selected(arg, env, stage).len() == 4 implies e.value(env)
        == Seq::new(4, |i: int| argument(arg, env, stage, i)) by {
        assert(e.value(env) =~= Seq::new(4, |i: int| argument(arg, env, stage, i)));
    }
    assert(e.is_plain(7));
}

// ---------------------------------------------------------------------------
// Results
// ---------------------------------------------------------------------------

/// The two channels of a stage as texts.
pub open spec fn channels(stage: FfStage, i: nat) -> Seq<Seq<char>> {
    seq![
        channel_text(stage.color_op, stage.color_arg1, stage.color_arg2, i, stage.textured()),
        channel_text(stage.alpha_op, stage.alpha_arg1, stage.alpha_arg2, i, stage.textured()),
    ]
}

/// A stage that is no dot product writes the colour of its colour operation and
/// the alpha of its alpha operation.
pub proof fn stages_join_color_and_alpha(stage: FfStage, i: nat)
    requires
        !stage.is_dot(),
    ensures
        exists|e: Expr| #[trigger]
            e.is_plain(1) && combine_text(stage, i) == e.behind(
                "    "@ + result_register(stage) + " = "@,
                channels(stage, i),
            ) + ";\n"@ && forall|env: Env| #[trigger] vectors(env.operands, 2) ==> e.value(env)
                == seq![
                env.operands[0][0],
                env.operands[0][1],
                env.operands[0][2],
                env.operands[1][3],
            ],
{
    reveal_with_fuel(Expr::behind, 5);
    reveal_with_fuel(Expr::value, 5);
    reveal_with_fuel(Expr::is_plain, 5);
    reveal_strlit("rgb");
    reveal_strlit("a");
    let e = call_2(
        Function::Float4,
        lanes(group(operand(0)), "rgb"@),
        lanes(group(operand(1)), "a"@),
    );
    assert forall|x: Seq<char>| #[trigger] (x + " = float4(("@) == x + " = "@ + "float4("@
        + "("@ by {
        reveal_strlit(" = float4((");
        reveal_strlit(" = ");
        reveal_strlit("float4(");
        reveal_strlit("(");
        assert(x + " = float4(("@ =~= x + " = "@ + "float4("@ + "("@);
    }
    assert forall|x: Seq<char>| #[trigger] (x + ").rgb, ("@) == x + ")"@ + "."@ + "rgb"@ + ", "@
        + "("@ by {
        reveal_strlit(").rgb, (");
        reveal_strlit(")");
        reveal_strlit(".");
        reveal_strlit("rgb");
        reveal_strlit(", ");
        reveal_strlit("(");
        assert(x + ").rgb, ("@ =~= x + ")"@ + "."@ + "rgb"@ + ", "@ + "("@);
    }
    assert forall|x: Seq<char>| #[trigger] (x + ").a);\n"@) == x + ")"@ + "."@ + "a"@ + ")"@
        + ";\n"@ by {
        reveal_strlit(").a);\n");
        reveal_strlit(")");
        reveal_strlit(".");
        reveal_strlit("a");
        reveal_strlit(";\n");
        assert(x + ").a);\n"@ =~= x + ")"@ + "."@ + "a"@ + ")"@ + ";\n"@);
    }
    assert forall|env: Env| #[trigger] vectors(env.operands, 2) implies e.value(env) == seq![
        env.operands[0][0],
        env.operands[0][1],
        env.operands[0][2],
        env.operands[1][3],
    ] by {
        assert(e.value(env) =~= seq![
            env.operands[0][0],
            env.operands[0][1],
            env.operands[0][2],
            env.operands[1][3],
        ]);
    }
    assert(e.is_plain(1));
}

// ---------------------------------------------------------------------------
// Coordinates
// ---------------------------------------------------------------------------

/// The first lanes of the coordinate of a stage, divided by the fourth one where
/// the stage projects. A zero divisor gives zeros.
pub open spec fn sampled_at(env: Env, stage: nat, projected: bool, first: int, count: nat) -> Value {
    let c = named(env, "in.texcoord"@ + dec(stage));
    Seq::new(
        count,
        |i: int|
            if !projected {
                c[first + i]
            } else if c[3] != whole(0) {
                c[first + i] / c[3]
            } else {
                whole(0)
            },
    )
}

/// Whether the coordinate of a stage is a vector.
pub open spec fn holds_coordinate(env: Env, stage: nat) -> bool {
    named(env, "in.texcoord"@ + dec(stage)).len() == 4
}

spec fn two_divided_expr(c: Seq<char>) -> Expr {
    group(
        choice(
            infix(Operator::Other, lanes(name(c), "w"@), number("0.0"@)),
            infix(Operator::Over, lanes(name(c), "xy"@), lanes(name(c), "w"@)),
            call_1(Function::Float2, number("0.0"@)),
        ),
    )
}

proof fn two_divided_is_written(stage: nat)
    ensures
        two_divided_expr("in.texcoord"@ + dec(stage)).is_plain(7),
        coord_text(stage, true, "xy"@, "float2(0.0)"@) == two_divided_expr("in.texcoord"@
            + dec(stage)).text(
            Seq::empty(),
        ),
{
    reveal_with_fuel(Expr::behind, 6);
    reveal_with_fuel(Expr::is_plain, 6);
    let c = "in.texcoord"@ + dec(stage);
    assert("("@ == Seq::empty() + "("@) by {
        reveal_strlit("(");
    }
    assert forall|x: Seq<char>| #[trigger] (x + ".w != 0.0 ? "@) == x + "."@ + "w"@ + " != "@
        + "0.0"@ + " ? "@ by {
        reveal_strlit(".w != 0.0 ? ");
        reveal_strlit(".");
        reveal_strlit("w");
        reveal_strlit(" != ");
        reveal_strlit("0.0");
        reveal_strlit(" ? ");
        assert(x + ".w != 0.0 ? "@ =~= x + "."@ + "w"@ + " != "@ + "0.0"@ + " ? "@);
    }
    assert forall|x: Seq<char>| #[trigger] (x + ".w : "@) == x + "."@ + "w"@ + " : "@ by {
        reveal_strlit(".w : ");
        reveal_strlit(".");
        reveal_strlit("w");
        reveal_strlit(" : ");
        assert(x + ".w : "@ =~= x + "."@ + "w"@ + " : "@);
    }
    assert forall|x: Seq<char>| #[trigger] (x + "float2(0.0)"@) == x + "float2("@ + "0.0"@
        + ")"@ by {
        reveal_strlit("float2(0.0)");
        reveal_strlit("float2(");
        reveal_strlit("0.0");
        reveal_strlit(")");
        assert(x + "float2(0.0)"@ =~= x + "float2("@ + "0.0"@ + ")"@);
    }
}

proof fn two_divided_has_value(env: Env, stage: nat)
    requires
        holds_coordinate(env, stage),
    ensures
        two_divided_expr("in.texcoord"@ + dec(stage)).value(env)
            == sampled_at(env, stage, true, 0, 2),
{
    reveal_with_fuel(Expr::value, 6);
    numerals();
    reveal_strlit("w");
    reveal_strlit("xy");
    assert(two_divided_expr("in.texcoord"@ + dec(stage)).value(env) =~= sampled_at(
        env,
        stage,
        true,
        0,
        2,
    ));
}

spec fn two_plain_expr(c: Seq<char>) -> Expr {
    lanes(name(c), "xy"@)
}

proof fn two_plain_is_written(stage: nat)
    ensures
        two_plain_expr("in.texcoord"@ + dec(stage)).is_plain(7),
        coord_text(stage, false, "xy"@, "float2(0.0)"@) == two_plain_expr("in.texcoord"@
            + dec(stage)).text(
            Seq::empty(),
        ),
{
    reveal_with_fuel(Expr::behind, 3);
    reveal_with_fuel(Expr::is_plain, 3);
    let c = "in.texcoord"@ + dec(stage);
    assert(Seq::empty() + c =~= c);
}

proof fn two_plain_has_value(env: Env, stage: nat)
    requires
        holds_coordinate(env, stage),
    ensures
        two_plain_expr("in.texcoord"@ + dec(stage)).value(env)
            == sampled_at(env, stage, false, 0, 2),
{
    reveal_with_fuel(Expr::value, 3);
    numerals();
    reveal_strlit("w");
    reveal_strlit("xy");
    assert(two_plain_expr("in.texcoord"@ + dec(stage)).value(env) =~= sampled_at(
        env,
        stage,
        false,
        0,
        2,
    ));
}

spec fn three_divided_expr(c: Seq<char>) -> Expr {
    group(
        choice(
            infix(Operator::Other, lanes(name(c), "w"@), number("0.0"@)),
            infix(Operator::Over, lanes(name(c), "xyz"@), lanes(name(c), "w"@)),
            call_1(Function::Float3, number("0.0"@)),
        ),
    )
}

proof fn three_divided_is_written(stage: nat)
    ensures
        three_divided_expr("in.texcoord"@ + dec(stage)).is_plain(7),
        coord_text(stage, true, "xyz"@, "float3(0.0)"@) == three_divided_expr("in.texcoord"@
            + dec(stage)).text(
            Seq::empty(),
        ),
{
    reveal_with_fuel(Expr::behind, 6);
    reveal_with_fuel(Expr::is_plain, 6);
    let c = "in.texcoord"@ + dec(stage);
    assert("("@ == Seq::empty() + "("@) by {
        reveal_strlit("(");
    }
    assert forall|x: Seq<char>| #[trigger] (x + ".w != 0.0 ? "@) == x + "."@ + "w"@ + " != "@
        + "0.0"@ + " ? "@ by {
        reveal_strlit(".w != 0.0 ? ");
        reveal_strlit(".");
        reveal_strlit("w");
        reveal_strlit(" != ");
        reveal_strlit("0.0");
        reveal_strlit(" ? ");
        assert(x + ".w != 0.0 ? "@ =~= x + "."@ + "w"@ + " != "@ + "0.0"@ + " ? "@);
    }
    assert forall|x: Seq<char>| #[trigger] (x + ".w : "@) == x + "."@ + "w"@ + " : "@ by {
        reveal_strlit(".w : ");
        reveal_strlit(".");
        reveal_strlit("w");
        reveal_strlit(" : ");
        assert(x + ".w : "@ =~= x + "."@ + "w"@ + " : "@);
    }
    assert forall|x: Seq<char>| #[trigger] (x + "float3(0.0)"@) == x + "float3("@ + "0.0"@
        + ")"@ by {
        reveal_strlit("float3(0.0)");
        reveal_strlit("float3(");
        reveal_strlit("0.0");
        reveal_strlit(")");
        assert(x + "float3(0.0)"@ =~= x + "float3("@ + "0.0"@ + ")"@);
    }
}

proof fn three_divided_has_value(env: Env, stage: nat)
    requires
        holds_coordinate(env, stage),
    ensures
        three_divided_expr("in.texcoord"@ + dec(stage)).value(env)
            == sampled_at(env, stage, true, 0, 3),
{
    reveal_with_fuel(Expr::value, 6);
    numerals();
    reveal_strlit("w");
    reveal_strlit("xyz");
    assert(three_divided_expr("in.texcoord"@ + dec(stage)).value(env) =~= sampled_at(
        env,
        stage,
        true,
        0,
        3,
    ));
}

spec fn three_plain_expr(c: Seq<char>) -> Expr {
    lanes(name(c), "xyz"@)
}

proof fn three_plain_is_written(stage: nat)
    ensures
        three_plain_expr("in.texcoord"@ + dec(stage)).is_plain(7),
        coord_text(stage, false, "xyz"@, "float3(0.0)"@) == three_plain_expr("in.texcoord"@
            + dec(stage)).text(
            Seq::empty(),
        ),
{
    reveal_with_fuel(Expr::behind, 3);
    reveal_with_fuel(Expr::is_plain, 3);
    let c = "in.texcoord"@ + dec(stage);
    assert(Seq::empty() + c =~= c);
}

proof fn three_plain_has_value(env: Env, stage: nat)
    requires
        holds_coordinate(env, stage),
    ensures
        three_plain_expr("in.texcoord"@ + dec(stage)).value(env)
            == sampled_at(env, stage, false, 0, 3),
{
    reveal_with_fuel(Expr::value, 3);
    numerals();
    reveal_strlit("w");
    reveal_strlit("xyz");
    assert(three_plain_expr("in.texcoord"@ + dec(stage)).value(env) =~= sampled_at(
        env,
        stage,
        false,
        0,
        3,
    ));
}

spec fn third_divided_expr(c: Seq<char>) -> Expr {
    group(
        choice(
            infix(Operator::Other, lanes(name(c), "w"@), number("0.0"@)),
            infix(Operator::Over, lanes(name(c), "z"@), lanes(name(c), "w"@)),
            number("0.0"@),
        ),
    )
}

proof fn third_divided_is_written(stage: nat)
    ensures
        third_divided_expr("in.texcoord"@ + dec(stage)).is_plain(7),
        coord_text(stage, true, "z"@, "0.0"@) == third_divided_expr("in.texcoord"@
            + dec(stage)).text(
            Seq::empty(),
        ),
{
    reveal_with_fuel(Expr::behind, 6);
    reveal_with_fuel(Expr::is_plain, 6);
    let c = "in.texcoord"@ + dec(stage);
    assert("("@ == Seq::empty() + "("@) by {
        reveal_strlit("(");
    }
    assert forall|x: Seq<char>| #[trigger] (x + ".w != 0.0 ? "@) == x + "."@ + "w"@ + " != "@
        + "0.0"@ + " ? "@ by {
        reveal_strlit(".w != 0.0 ? ");
        reveal_strlit(".");
        reveal_strlit("w");
        reveal_strlit(" != ");
        reveal_strlit("0.0");
        reveal_strlit(" ? ");
        assert(x + ".w != 0.0 ? "@ =~= x + "."@ + "w"@ + " != "@ + "0.0"@ + " ? "@);
    }
    assert forall|x: Seq<char>| #[trigger] (x + ".w : "@) == x + "."@ + "w"@ + " : "@ by {
        reveal_strlit(".w : ");
        reveal_strlit(".");
        reveal_strlit("w");
        reveal_strlit(" : ");
        assert(x + ".w : "@ =~= x + "."@ + "w"@ + " : "@);
    }
}

proof fn third_divided_has_value(env: Env, stage: nat)
    requires
        holds_coordinate(env, stage),
    ensures
        third_divided_expr("in.texcoord"@ + dec(stage)).value(env)
            == sampled_at(env, stage, true, 2, 1),
{
    reveal_with_fuel(Expr::value, 6);
    numerals();
    reveal_strlit("w");
    reveal_strlit("z");
    assert(third_divided_expr("in.texcoord"@ + dec(stage)).value(env) =~= sampled_at(
        env,
        stage,
        true,
        2,
        1,
    ));
}

spec fn third_plain_expr(c: Seq<char>) -> Expr {
    lanes(name(c), "z"@)
}

proof fn third_plain_is_written(stage: nat)
    ensures
        third_plain_expr("in.texcoord"@ + dec(stage)).is_plain(7),
        coord_text(stage, false, "z"@, "0.0"@) == third_plain_expr("in.texcoord"@
            + dec(stage)).text(
            Seq::empty(),
        ),
{
    reveal_with_fuel(Expr::behind, 3);
    reveal_with_fuel(Expr::is_plain, 3);
    let c = "in.texcoord"@ + dec(stage);
    assert(Seq::empty() + c =~= c);
}

proof fn third_plain_has_value(env: Env, stage: nat)
    requires
        holds_coordinate(env, stage),
    ensures
        third_plain_expr("in.texcoord"@ + dec(stage)).value(env)
            == sampled_at(env, stage, false, 2, 1),
{
    reveal_with_fuel(Expr::value, 3);
    numerals();
    reveal_strlit("w");
    reveal_strlit("z");
    assert(third_plain_expr("in.texcoord"@ + dec(stage)).value(env) =~= sampled_at(
        env,
        stage,
        false,
        2,
        1,
    ));
}

/// Whether `text` computes lanes of the coordinate of a stage.
pub open spec fn is_coordinate(
    text: Seq<char>,
    stage: nat,
    projected: bool,
    first: int,
    count: nat,
) -> bool {
    exists|e: Expr| #[trigger]
        e.is_plain(7) && text == e.text(Seq::empty()) && forall|env: Env| #[trigger]
            holds_coordinate(env, stage) ==> e.value(env) == sampled_at(
            env,
            stage,
            projected,
            first,
            count,
        )
}

/// The coordinate of a stage is its first two or three lanes, and the depth to
/// compare with the third one, each divided where the stage projects.
pub proof fn stage_coordinates_divide(stage: nat, projected: bool)
    ensures
        is_coordinate(
            coord_text(stage, projected, "xy"@, "float2(0.0)"@),
            stage,
            projected,
            0,
            2,
        ),
        is_coordinate(
            coord_text(stage, projected, "xyz"@, "float3(0.0)"@),
            stage,
            projected,
            0,
            3,
        ),
        is_coordinate(coord_text(stage, projected, "z"@, "0.0"@), stage, projected, 2, 1),
{
    let c = "in.texcoord"@ + dec(stage);
    let e = if projected {
        two_divided_expr(c)
    } else {
        two_plain_expr(c)
    };
    two_divided_is_written(stage);
    two_plain_is_written(stage);
    assert forall|env: Env| #[trigger] holds_coordinate(env, stage) implies e.value(env)
        == sampled_at(env, stage, projected, 0, 2) by {
        two_divided_has_value(env, stage);
        two_plain_has_value(env, stage);
    }
    assert(e.is_plain(7));
    let e = if projected {
        three_divided_expr(c)
    } else {
        three_plain_expr(c)
    };
    three_divided_is_written(stage);
    three_plain_is_written(stage);
    assert forall|env: Env| #[trigger] holds_coordinate(env, stage) implies e.value(env)
        == sampled_at(env, stage, projected, 0, 3) by {
        three_divided_has_value(env, stage);
        three_plain_has_value(env, stage);
    }
    assert(e.is_plain(7));
    let e = if projected {
        third_divided_expr(c)
    } else {
        third_plain_expr(c)
    };
    third_divided_is_written(stage);
    third_plain_is_written(stage);
    assert forall|env: Env| #[trigger] holds_coordinate(env, stage) implies e.value(env)
        == sampled_at(env, stage, projected, 2, 1) by {
        third_divided_has_value(env, stage);
        third_plain_has_value(env, stage);
    }
    assert(e.is_plain(7));
}

} // verus!
