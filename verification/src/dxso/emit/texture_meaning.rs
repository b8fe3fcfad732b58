//! What the texture instructions compute.
//!
//! Direct3D says where a texture is sampled, how a coordinate is bumped, and what
//! a depth instruction writes. The laws say that the texts compute that, for all
//! operands.

use crate::dxso::emit::context::EmitContext;
use crate::dxso::emit::error::EmitFailure;
use crate::dxso::emit::metal::{
    call_1, call_2, call_4, choice, clamped, computes, four, group, has_value, infix, inner,
    is_written, lanes, lesser, letter_lane, name, number, numerals, operand, truth, vectors, whole,
    Env, Expr, Function, Operator, Value,
};
use crate::dxso::emit::operand_meaning::{masks_have_the_lanes_they_name, names_lane};
use crate::dxso::emit::operands::{bump_matrix, mask_lane, mask_text, read_text, sample_text};
use crate::dxso::emit::texture::{
    bem_text, killed_text, projected_text, reflected_text, row_text, texdepth_text, texkill_text,
    texld_text, texreg_text, writes_nothing,
};
use crate::dxso::ir::{InstrFlags, Instruction};
use crate::dxso::opcode::Opcode;
use crate::text::dec;
use vstd::prelude::*;

verus! {

// ---------------------------------------------------------------------------
// Coordinates
// ---------------------------------------------------------------------------

/// The text of a projected coordinate, as a function of the coordinate.
pub open spec fn projected_of() -> spec_fn(Seq<Seq<char>>) -> Seq<char> {
    |s: Seq<Seq<char>>| projected_text(s[0])
}

/// A coordinate divided by its fourth lane; the origin where that is zero.
pub open spec fn projected_meaning() -> spec_fn(Env) -> Value {
    |env: Env|
        {
            let c = env.operands[0];
            if c[3] != whole(0) {
                seq![c[0] / c[3], c[1] / c[3], c[2] / c[3], whole(1)]
            } else {
                seq![whole(0), whole(0), whole(0), whole(1)]
            }
        }
}

spec fn projections_divide_expr() -> Expr {
    group(
        choice(
            group(infix(Operator::Other, lanes(group(operand(0)), "w"@), number("0.0"@))),
            call_2(
                Function::Float4,
                infix(
                    Operator::Over,
                    lanes(group(operand(0)), "xyz"@),
                    lanes(group(operand(0)), "w"@),
                ),
                number("1.0"@),
            ),
            call_4(
                Function::Float4,
                number("0.0"@),
                number("0.0"@),
                number("0.0"@),
                number("1.0"@),
            ),
        ),
    )
}

#[verifier::rlimit(30)]
proof fn projections_divide_is_written()
    ensures
        is_written(projections_divide_expr(), projected_of(), 1, 6, 7),
{
    reveal_with_fuel(Expr::behind, 8);
    reveal_with_fuel(Expr::is_plain, 8);
    assert("((("@ == Seq::empty() + "("@ + "("@ + "("@) by {
        reveal_strlit("(((");
        reveal_strlit("(");
    }
    assert forall|x: Seq<char>| #[trigger] (x + ").w != 0.0) ? float4(("@) == x + ")"@ + "."@ + "w"@
        + " != "@ + "0.0"@ + ")"@ + " ? "@ + "float4("@ + "("@ by {
        reveal_strlit(").w != 0.0) ? float4((");
        reveal_strlit(")");
        reveal_strlit(".");
        reveal_strlit("w");
        reveal_strlit(" != ");
        reveal_strlit("0.0");
        reveal_strlit(" ? ");
        reveal_strlit("float4(");
        reveal_strlit("(");
        assert(x + ").w != 0.0) ? float4(("@ =~= x + ")"@ + "."@ + "w"@ + " != "@ + "0.0"@ + ")"@
            + " ? "@ + "float4("@ + "("@);
    }
    assert forall|x: Seq<char>| #[trigger] (x + ").xyz / ("@) == x + ")"@ + "."@ + "xyz"@ + " / "@
        + "("@ by {
        reveal_strlit(").xyz / (");
        reveal_strlit(")");
        reveal_strlit(".");
        reveal_strlit("xyz");
        reveal_strlit(" / ");
        reveal_strlit("(");
        assert(x + ").xyz / ("@ =~= x + ")"@ + "."@ + "xyz"@ + " / "@ + "("@);
    }
    assert forall|x: Seq<char>| #[trigger] (x + ").w, 1.0) : float4(0.0, 0.0, 0.0, 1.0))"@) == x
        + ").w, 1.0) : float4("@ + "0.0, 0.0, 0.0, 1.0)"@ + ")"@ by {
        reveal_strlit(").w, 1.0) : float4(0.0, 0.0, 0.0, 1.0))");
        reveal_strlit(").w, 1.0) : float4(");
        reveal_strlit("0.0, 0.0, 0.0, 1.0)");
        reveal_strlit(")");
        assert(x + ").w, 1.0) : float4(0.0, 0.0, 0.0, 1.0))"@ =~= x + ").w, 1.0) : float4("@
            + "0.0, 0.0, 0.0, 1.0)"@ + ")"@);
    }
    assert forall|x: Seq<char>| #[trigger] (x + ").w, 1.0) : float4("@) == x + ")"@ + "."@ + "w"@
        + ", "@ + "1.0"@ + ")"@ + " : "@ + "float4("@ by {
        reveal_strlit(").w, 1.0) : float4(");
        reveal_strlit(")");
        reveal_strlit(".");
        reveal_strlit("w");
        reveal_strlit(", ");
        reveal_strlit("1.0");
        reveal_strlit(" : ");
        reveal_strlit("float4(");
        assert(x + ").w, 1.0) : float4("@ =~= x + ")"@ + "."@ + "w"@ + ", "@ + "1.0"@ + ")"@
            + " : "@ + "float4("@);
    }
    assert forall|x: Seq<char>| #[trigger] (x + "0.0, 0.0, 0.0, 1.0)"@) == x + "0.0"@ + ", "@
        + "0.0"@ + ", "@ + "0.0"@ + ", "@ + "1.0"@ + ")"@ by {
        reveal_strlit("0.0, 0.0, 0.0, 1.0)");
        reveal_strlit("0.0");
        reveal_strlit(", ");
        reveal_strlit("1.0");
        reveal_strlit(")");
        assert(x + "0.0, 0.0, 0.0, 1.0)"@ =~= x + "0.0"@ + ", "@ + "0.0"@ + ", "@ + "0.0"@ + ", "@
            + "1.0"@ + ")"@);
    }
}

#[verifier::rlimit(30)]
proof fn projections_divide_has_value()
    ensures
        has_value(projections_divide_expr(), 1, projected_meaning()),
{
    reveal_with_fuel(Expr::value, 8);
    numerals();
    reveal_strlit("w");
    reveal_strlit("xyz");
    let e = projections_divide_expr();
    assert forall|env: Env| #[trigger] vectors(env.operands, 1) implies e.value(env)
        == (projected_meaning())(env) by {
        assert(e.value(env) =~= (projected_meaning())(env));
    }
}

/// A projected coordinate is divided by its fourth lane.
pub proof fn projections_divide()
    ensures
        computes(projected_of(), 1, 6, 7, projected_meaning()),
{
    projections_divide_is_written();
    projections_divide_has_value();
}

/// The coordinate that `texld` samples at, as a function of its first operand.
pub open spec fn texld_at(projected: bool) -> spec_fn(Seq<Seq<char>>) -> Seq<char> {
    |s: Seq<Seq<char>>|
        if projected {
            "(("@ + s[0] + ") / ("@ + s[0] + ").w)"@
        } else {
            s[0]
        }
}

/// The coordinate, divided by its fourth lane where the instruction projects.
pub open spec fn texld_meaning(projected: bool) -> spec_fn(Env) -> Value {
    |env: Env|
        Seq::new(
            4,
            |i: int|
                if projected {
                    env.operands[0][i] / env.operands[0][3]
                } else {
                    env.operands[0][i]
                },
        )
}

proof fn projected_texld_computes()
    ensures
        computes(texld_at(true), 1, 6, 6, texld_meaning(true)),
{
    reveal_with_fuel(Expr::behind, 6);
    reveal_with_fuel(Expr::value, 6);
    reveal_with_fuel(Expr::is_plain, 6);
    let e = group(infix(Operator::Over, group(operand(0)), lanes(group(operand(0)), "w"@)));
    assert("(("@ == Seq::empty() + "("@ + "("@) by {
        reveal_strlit("((");
        reveal_strlit("(");
    }
    assert forall|x: Seq<char>| #[trigger] (x + ") / ("@) == x + ")"@ + " / "@ + "("@ by {
        reveal_strlit(") / (");
        reveal_strlit(")");
        reveal_strlit(" / ");
        reveal_strlit("(");
        assert(x + ") / ("@ =~= x + ")"@ + " / "@ + "("@);
    }
    assert forall|x: Seq<char>| #[trigger] (x + ").w)"@) == x + ")"@ + "."@ + "w"@ + ")"@ by {
        reveal_strlit(").w)");
        reveal_strlit(")");
        reveal_strlit(".");
        reveal_strlit("w");
        assert(x + ").w)"@ =~= x + ")"@ + "."@ + "w"@ + ")"@);
    }
    assert(is_written(e, texld_at(true), 1, 6, 6));
    reveal_strlit("w");
    assert forall|env: Env| #[trigger] vectors(env.operands, 1) implies e.value(env)
        == (texld_meaning(true))(env) by {
        assert(e.value(env) =~= (texld_meaning(true))(env));
    }
    assert(has_value(e, 1, texld_meaning(true)));
}

proof fn plain_texld_computes()
    ensures
        computes(texld_at(false), 1, 6, 6, texld_meaning(false)),
{
    reveal_with_fuel(Expr::behind, 2);
    reveal_with_fuel(Expr::value, 2);
    reveal_with_fuel(Expr::is_plain, 2);
    let e = operand(0);
    assert forall|s: Seq<Seq<char>>| #[trigger] (Seq::empty() + s[0]) == s[0] by {
        assert(Seq::empty() + s[0] =~= s[0]);
    }
    assert(is_written(e, texld_at(false), 1, 6, 6));
    assert forall|env: Env| #[trigger] vectors(env.operands, 1) implies e.value(env)
        == (texld_meaning(false))(env) by {
        assert(e.value(env) =~= (texld_meaning(false))(env));
    }
    assert(has_value(e, 1, texld_meaning(false)));
}

/// `texld` samples the texture of its second operand at its first one, divided by
/// the fourth lane where it projects.
pub proof fn texld_samples_at_its_operand(inst: Instruction, s: Seq<Seq<char>>, ctx: EmitContext)
    requires
        s.len() >= 2,
    ensures
        texld_text(inst, s, ctx) == Ok::<Seq<char>, EmitFailure>(
            sample_text(
                ctx,
                inst.srcs@[1].reg.index,
                texld_at(inst.flags.has(InstrFlags::TEX_PROJECTED))(s),
                None,
            ),
        ),
        computes(
            texld_at(inst.flags.has(InstrFlags::TEX_PROJECTED)),
            1,
            6,
            6,
            texld_meaning(inst.flags.has(InstrFlags::TEX_PROJECTED)),
        ),
{
    projected_texld_computes();
    plain_texld_computes();
}

/// The coordinate that a `texreg2` instruction samples at, as a function of its
/// operand.
pub open spec fn texreg_at(op: Opcode) -> spec_fn(Seq<Seq<char>>) -> Seq<char> {
    |s: Seq<Seq<char>>|
        match op {
            Opcode::TexReg2Ar => "float4(("@ + s[0] + ").w, ("@ + s[0] + ").x, 0.0, 0.0)"@,
            Opcode::TexReg2Gb => "float4(("@ + s[0] + ").y, ("@ + s[0] + ").z, 0.0, 0.0)"@,
            _ => "float4(("@ + s[0] + ").xyz, 0.0)"@,
        }
}

/// The lanes that the name of a `texreg2` instruction gives, as a coordinate.
pub open spec fn texreg_meaning(op: Opcode) -> spec_fn(Env) -> Value {
    |env: Env|
        {
            let c = env.operands[0];
            let (red, green, blue, alpha) = (c[0], c[1], c[2], c[3]);
            match op {
                Opcode::TexReg2Ar => seq![alpha, red, whole(0), whole(0)],
                Opcode::TexReg2Gb => seq![green, blue, whole(0), whole(0)],
                _ => seq![red, green, blue, whole(0)],
            }
        }
}

proof fn texreg2ar_computes()
    ensures
        computes(texreg_at(Opcode::TexReg2Ar), 1, 6, 6, texreg_meaning(Opcode::TexReg2Ar)),
{
    reveal_with_fuel(Expr::behind, 5);
    reveal_with_fuel(Expr::value, 5);
    reveal_with_fuel(Expr::is_plain, 5);
    numerals();
    let e = call_4(
        Function::Float4,
        lanes(group(operand(0)), "w"@),
        lanes(group(operand(0)), "x"@),
        number("0.0"@),
        number("0.0"@),
    );
    assert("float4(("@ == Seq::empty() + "float4("@ + "("@) by {
        reveal_strlit("float4((");
        reveal_strlit("float4(");
        reveal_strlit("(");
    }
    assert forall|x: Seq<char>| #[trigger] (x + ").w, ("@) == x + ")"@ + "."@ + "w"@ + ", "@
        + "("@ by {
        reveal_strlit(").w, (");
        reveal_strlit(")");
        reveal_strlit(".");
        reveal_strlit("w");
        reveal_strlit(", ");
        reveal_strlit("(");
        assert(x + ").w, ("@ =~= x + ")"@ + "."@ + "w"@ + ", "@ + "("@);
    }
    assert forall|x: Seq<char>| #[trigger] (x + ").x, 0.0, 0.0)"@) == x + ")"@ + "."@ + "x"@ + ", "@
        + "0.0"@ + ", "@ + "0.0"@ + ")"@ by {
        reveal_strlit(").x, 0.0, 0.0)");
        reveal_strlit(")");
        reveal_strlit(".");
        reveal_strlit("x");
        reveal_strlit(", ");
        reveal_strlit("0.0");
        assert(x + ").x, 0.0, 0.0)"@ =~= x + ")"@ + "."@ + "x"@ + ", "@ + "0.0"@ + ", "@ + "0.0"@
            + ")"@);
    }
    assert(is_written(e, texreg_at(Opcode::TexReg2Ar), 1, 6, 6));
    reveal_strlit("w");
    reveal_strlit("x");
    assert forall|env: Env| #[trigger] vectors(env.operands, 1) implies e.value(env)
        == (texreg_meaning(Opcode::TexReg2Ar))(env) by {
        assert(e.value(env) =~= (texreg_meaning(Opcode::TexReg2Ar))(env));
    }
    assert(has_value(e, 1, texreg_meaning(Opcode::TexReg2Ar)));
}

proof fn texreg2gb_computes()
    ensures
        computes(texreg_at(Opcode::TexReg2Gb), 1, 6, 6, texreg_meaning(Opcode::TexReg2Gb)),
{
    reveal_with_fuel(Expr::behind, 5);
    reveal_with_fuel(Expr::value, 5);
    reveal_with_fuel(Expr::is_plain, 5);
    numerals();
    let e = call_4(
        Function::Float4,
        lanes(group(operand(0)), "y"@),
        lanes(group(operand(0)), "z"@),
        number("0.0"@),
        number("0.0"@),
    );
    assert("float4(("@ == Seq::empty() + "float4("@ + "("@) by {
        reveal_strlit("float4((");
        reveal_strlit("float4(");
        reveal_strlit("(");
    }
    assert forall|x: Seq<char>| #[trigger] (x + ").y, ("@) == x + ")"@ + "."@ + "y"@ + ", "@
        + "("@ by {
        reveal_strlit(").y, (");
        reveal_strlit(")");
        reveal_strlit(".");
        reveal_strlit("y");
        reveal_strlit(", ");
        reveal_strlit("(");
        assert(x + ").y, ("@ =~= x + ")"@ + "."@ + "y"@ + ", "@ + "("@);
    }
    assert forall|x: Seq<char>| #[trigger] (x + ").z, 0.0, 0.0)"@) == x + ")"@ + "."@ + "z"@ + ", "@
        + "0.0"@ + ", "@ + "0.0"@ + ")"@ by {
        reveal_strlit(").z, 0.0, 0.0)");
        reveal_strlit(")");
        reveal_strlit(".");
        reveal_strlit("z");
        reveal_strlit(", ");
        reveal_strlit("0.0");
        assert(x + ").z, 0.0, 0.0)"@ =~= x + ")"@ + "."@ + "z"@ + ", "@ + "0.0"@ + ", "@ + "0.0"@
            + ")"@);
    }
    assert(is_written(e, texreg_at(Opcode::TexReg2Gb), 1, 6, 6));
    reveal_strlit("y");
    reveal_strlit("z");
    assert forall|env: Env| #[trigger] vectors(env.operands, 1) implies e.value(env)
        == (texreg_meaning(Opcode::TexReg2Gb))(env) by {
        assert(e.value(env) =~= (texreg_meaning(Opcode::TexReg2Gb))(env));
    }
    assert(has_value(e, 1, texreg_meaning(Opcode::TexReg2Gb)));
}

proof fn texreg2rgb_computes()
    ensures
        computes(texreg_at(Opcode::TexReg2Rgb), 1, 6, 6, texreg_meaning(Opcode::TexReg2Rgb)),
{
    reveal_with_fuel(Expr::behind, 5);
    reveal_with_fuel(Expr::value, 5);
    reveal_with_fuel(Expr::is_plain, 5);
    numerals();
    let e = call_2(Function::Float4, lanes(group(operand(0)), "xyz"@), number("0.0"@));
    assert("float4(("@ == Seq::empty() + "float4("@ + "("@) by {
        reveal_strlit("float4((");
        reveal_strlit("float4(");
        reveal_strlit("(");
    }
    assert forall|x: Seq<char>| #[trigger] (x + ").xyz, 0.0)"@) == x + ")"@ + "."@ + "xyz"@ + ", "@
        + "0.0"@ + ")"@ by {
        reveal_strlit(").xyz, 0.0)");
        reveal_strlit(")");
        reveal_strlit(".");
        reveal_strlit("xyz");
        reveal_strlit(", ");
        reveal_strlit("0.0");
        assert(x + ").xyz, 0.0)"@ =~= x + ")"@ + "."@ + "xyz"@ + ", "@ + "0.0"@ + ")"@);
    }
    assert(is_written(e, texreg_at(Opcode::TexReg2Rgb), 1, 6, 6));
    reveal_strlit("xyz");
    assert forall|env: Env| #[trigger] vectors(env.operands, 1) implies e.value(env)
        == (texreg_meaning(Opcode::TexReg2Rgb))(env) by {
        assert(e.value(env) =~= (texreg_meaning(Opcode::TexReg2Rgb))(env));
    }
    assert(has_value(e, 1, texreg_meaning(Opcode::TexReg2Rgb)));
}

/// A `texreg2` instruction samples the texture of its destination at the lanes of
/// its operand that its name gives.
pub proof fn texreg_samples_at_its_lanes(inst: Instruction, s: Seq<Seq<char>>, ctx: EmitContext)
    requires
        s.len() >= 1,
        inst.dst is Some,
        inst.opcode == Opcode::TexReg2Ar || inst.opcode == Opcode::TexReg2Gb || inst.opcode
            == Opcode::TexReg2Rgb,
    ensures
        texreg_text(inst, s, ctx) == Ok::<Seq<char>, EmitFailure>(
            sample_text(ctx, inst.dst->0.reg.index, texreg_at(inst.opcode)(s), None),
        ),
        computes(texreg_at(inst.opcode), 1, 6, 6, texreg_meaning(inst.opcode)),
{
    texreg2ar_computes();
    texreg2gb_computes();
    texreg2rgb_computes();
}

// ---------------------------------------------------------------------------
// Rows and reflections
// ---------------------------------------------------------------------------

/// The product of a coordinate with an operand, as a text of both.
pub open spec fn row_of() -> spec_fn(Seq<Seq<char>>) -> Seq<char> {
    |s: Seq<Seq<char>>| row_text(s[0], s[1])
}

/// The product of the first three lanes of a coordinate and an operand.
pub open spec fn row_meaning() -> spec_fn(Env) -> Value {
    |env: Env|
        {
            let (a, b) = (env.operands[0], env.operands[1]);
            seq![a[0] * b[0] + a[1] * b[1] + a[2] * b[2]]
        }
}

/// A matrix row of a texture instruction is the product with its coordinate.
pub proof fn rows_are_products()
    ensures
        computes(row_of(), 2, 6, 7, row_meaning()),
{
    reveal_with_fuel(Expr::behind, 5);
    reveal_with_fuel(Expr::value, 5);
    reveal_with_fuel(Expr::is_plain, 5);
    reveal_with_fuel(inner, 5);
    let e = call_2(
        Function::Dot,
        lanes(group(operand(0)), "xyz"@),
        lanes(group(operand(1)), "xyz"@),
    );
    assert("dot(("@ == Seq::empty() + "dot("@ + "("@) by {
        reveal_strlit("dot((");
        reveal_strlit("dot(");
        reveal_strlit("(");
    }
    assert forall|x: Seq<char>| #[trigger] (x + ").xyz, ("@) == x + ")"@ + "."@ + "xyz"@ + ", "@
        + "("@ by {
        reveal_strlit(").xyz, (");
        reveal_strlit(")");
        reveal_strlit(".");
        reveal_strlit("xyz");
        reveal_strlit(", ");
        reveal_strlit("(");
        assert(x + ").xyz, ("@ =~= x + ")"@ + "."@ + "xyz"@ + ", "@ + "("@);
    }
    assert forall|x: Seq<char>| #[trigger] (x + ").xyz)"@) == x + ")"@ + "."@ + "xyz"@ + ")"@ by {
        reveal_strlit(").xyz)");
        reveal_strlit(")");
        reveal_strlit(".");
        reveal_strlit("xyz");
        assert(x + ").xyz)"@ =~= x + ")"@ + "."@ + "xyz"@ + ")"@);
    }
    assert(is_written(e, row_of(), 2, 6, 7));
    reveal_strlit("xyz");
    assert forall|env: Env| #[trigger] vectors(env.operands, 2) implies e.value(env)
        == (row_meaning())(env) by {
        assert(e.value(env) =~= (row_meaning())(env));
    }
    assert(has_value(e, 2, row_meaning()));
}

/// The reflection of the eye vector about the normal, as a text of both.
pub open spec fn reflected_of() -> spec_fn(Seq<Seq<char>>) -> Seq<char> {
    |s: Seq<Seq<char>>| reflected_text(s[0], s[1])
}

/// Whether the normal and the eye vector have three lanes.
pub open spec fn are_directions(operands: Seq<Value>) -> bool {
    operands.len() >= 2 && operands[0].len() == 3 && operands[1].len() == 3
}

/// The product of two directions.
pub open spec fn along(a: Value, b: Value) -> real {
    a[0] * b[0] + a[1] * b[1] + a[2] * b[2]
}

/// The eye vector reflected about the normal `n`, which need not be a unit
/// vector: twice its part along the normal, less the vector.
pub open spec fn reflection(n: Value, eye: Value) -> Value {
    Seq::new(3, |i: int| whole(2) * along(n, eye) / along(n, n) * n[i] - eye[i])
}

spec fn reflection_expr() -> Expr {
    group(
        infix(
            Operator::Minus,
            infix(
                Operator::Times,
                infix(
                    Operator::Over,
                    infix(
                        Operator::Times,
                        number("2.0"@),
                        call_2(Function::Dot, operand(0), operand(1)),
                    ),
                    call_2(Function::Dot, operand(0), operand(0)),
                ),
                operand(0),
            ),
            operand(1),
        ),
    )
}

/// A reflected direction is computed from the normal and the eye vector.
pub proof fn reflections_turn_about_the_normal()
    ensures
        exists|e: Expr| #[trigger]
            is_written(e, reflected_of(), 2, 7, 7) && forall|env: Env| #[trigger] are_directions(
                env.operands,
            ) ==> e.value(env) == reflection(env.operands[0], env.operands[1]),
{
    reveal_with_fuel(Expr::behind, 8);
    reveal_with_fuel(Expr::value, 8);
    reveal_with_fuel(Expr::is_plain, 8);
    reveal_with_fuel(inner, 4);
    numerals();
    let e = reflection_expr();
    assert("(2.0 * dot("@ == Seq::empty() + "("@ + "2.0"@ + " * "@ + "dot("@) by {
        reveal_strlit("(2.0 * dot(");
        reveal_strlit("(");
        reveal_strlit("2.0");
        reveal_strlit(" * ");
        reveal_strlit("dot(");
    }
    assert forall|x: Seq<char>| #[trigger] (x + ") / dot("@) == x + ")"@ + " / "@ + "dot("@ by {
        reveal_strlit(") / dot(");
        reveal_strlit(")");
        reveal_strlit(" / ");
        reveal_strlit("dot(");
        assert(x + ") / dot("@ =~= x + ")"@ + " / "@ + "dot("@);
    }
    assert forall|x: Seq<char>| #[trigger] (x + ") * "@) == x + ")"@ + " * "@ by {
        reveal_strlit(") * ");
        reveal_strlit(")");
        reveal_strlit(" * ");
        assert(x + ") * "@ =~= x + ")"@ + " * "@);
    }
    assert(is_written(e, reflected_of(), 2, 7, 7));
    assert forall|env: Env| #[trigger] are_directions(env.operands) implies e.value(env)
        == reflection(env.operands[0], env.operands[1]) by {
        assert(e.value(env) =~= reflection(env.operands[0], env.operands[1]));
    }
}

// ---------------------------------------------------------------------------
// Bumps and depths
// ---------------------------------------------------------------------------

/// The text of `bem`, as a function of its operands.
pub open spec fn bem_of(inst: Instruction) -> spec_fn(Seq<Seq<char>>) -> Seq<char> {
    |s: Seq<Seq<char>>| bem_text(inst, s)->Ok_0
}

/// The name of the bump matrix of stage `n`.
pub open spec fn matrix_name(n: u16) -> Seq<char> {
    "bump_env["@ + dec((2 * n) as nat) + "]"@
}

/// The first operand, moved by the second one times the bump matrix, whose
/// elements are given row by row.
pub open spec fn bem_meaning(n: u16) -> spec_fn(Env) -> Value {
    |env: Env|
        {
            let (a, d) = (env.operands[0], env.operands[1]);
            let m = (env.names)(matrix_name(n));
            let (m00, m01, m10, m11) = (m[0], m[1], m[2], m[3]);
            seq![
                a[0] + m00 * d[0] + m10 * d[1],
                a[1] + m01 * d[0] + m11 * d[1],
                whole(0),
                whole(0),
            ]
        }
}

spec fn bem_expr(m: Seq<char>) -> Expr {
    call_4(
        Function::Float4,
        infix(
            Operator::Plus,
            infix(
                Operator::Plus,
                lanes(group(operand(0)), "x"@),
                infix(Operator::Times, lanes(name(m), "x"@), lanes(group(operand(1)), "x"@)),
            ),
            infix(Operator::Times, lanes(name(m), "z"@), lanes(group(operand(1)), "y"@)),
        ),
        infix(
            Operator::Plus,
            infix(
                Operator::Plus,
                lanes(group(operand(0)), "y"@),
                infix(Operator::Times, lanes(name(m), "y"@), lanes(group(operand(1)), "x"@)),
            ),
            infix(Operator::Times, lanes(name(m), "w"@), lanes(group(operand(1)), "y"@)),
        ),
        number("0.0"@),
        number("0.0"@),
    )
}

/// The text of `bem`, part by part.
spec fn bem_parts(s: Seq<Seq<char>>, m: Seq<char>) -> Seq<char> {
    "float4(("@ + s[0] + ").x + "@ + m + "."@ + "x"@ + " * ("@ + s[1] + ").x + "@ + m + "."@ + "z"@
        + " * ("@ + s[1] + ").y, ("@ + s[0] + ").y + "@ + m + "."@ + "y"@ + " * ("@ + s[1]
        + ").x + "@ + m + "."@ + "w"@ + " * ("@ + s[1] + ").y, 0.0, 0.0)"@
}

proof fn bem_parts_are_written(s: Seq<Seq<char>>, m: Seq<char>)
    ensures
        bem_parts(s, m) == bem_expr(m).text(s),
        bem_expr(m).is_plain(6),
{
    reveal_with_fuel(Expr::behind, 8);
    reveal_with_fuel(Expr::is_plain, 8);
    assert("float4(("@ == Seq::empty() + "float4("@ + "("@) by {
        reveal_strlit("float4((");
        reveal_strlit("float4(");
        reveal_strlit("(");
    }
    assert forall|x: Seq<char>| #[trigger] (x + ").x + "@) == x + ")"@ + "."@ + "x"@ + " + "@ by {
        reveal_strlit(").x + ");
        reveal_strlit(")");
        reveal_strlit(".");
        reveal_strlit("x");
        reveal_strlit(" + ");
        assert(x + ").x + "@ =~= x + ")"@ + "."@ + "x"@ + " + "@);
    }
    assert forall|x: Seq<char>| #[trigger] (x + " * ("@) == x + " * "@ + "("@ by {
        reveal_strlit(" * (");
        reveal_strlit(" * ");
        reveal_strlit("(");
        assert(x + " * ("@ =~= x + " * "@ + "("@);
    }
    assert forall|x: Seq<char>| #[trigger] (x + ").y, ("@) == x + ")"@ + "."@ + "y"@ + ", "@
        + "("@ by {
        reveal_strlit(").y, (");
        reveal_strlit(")");
        reveal_strlit(".");
        reveal_strlit("y");
        reveal_strlit(", ");
        reveal_strlit("(");
        assert(x + ").y, ("@ =~= x + ")"@ + "."@ + "y"@ + ", "@ + "("@);
    }
    assert forall|x: Seq<char>| #[trigger] (x + ").y + "@) == x + ")"@ + "."@ + "y"@ + " + "@ by {
        reveal_strlit(").y + ");
        reveal_strlit(")");
        reveal_strlit(".");
        reveal_strlit("y");
        reveal_strlit(" + ");
        assert(x + ").y + "@ =~= x + ")"@ + "."@ + "y"@ + " + "@);
    }
    assert forall|x: Seq<char>| #[trigger] (x + ").y, 0.0, 0.0)"@) == x + ")"@ + "."@ + "y"@ + ", "@
        + "0.0"@ + ", "@ + "0.0"@ + ")"@ by {
        reveal_strlit(").y, 0.0, 0.0)");
        reveal_strlit(")");
        reveal_strlit(".");
        reveal_strlit("y");
        reveal_strlit(", ");
        reveal_strlit("0.0");
        assert(x + ").y, 0.0, 0.0)"@ =~= x + ")"@ + "."@ + "y"@ + ", "@ + "0.0"@ + ", "@ + "0.0"@
            + ")"@);
    }
}

/// The sum of eleven texts.
spec fn eleven(p: Seq<Seq<char>>) -> Seq<char> {
    p[0] + p[1] + p[2] + p[3] + p[4] + p[5] + p[6] + p[7] + p[8] + p[9] + p[10]
}

proof fn sums_flatten(h: Seq<char>, p: Seq<Seq<char>>)
    ensures
        h + eleven(p) == h + p[0] + p[1] + p[2] + p[3] + p[4] + p[5] + p[6] + p[7] + p[8] + p[9]
            + p[10],
{
    let a = p[0] + p[1] + p[2] + p[3];
    let b = a + p[4] + p[5] + p[6] + p[7];
    assert(h + a =~= h + p[0] + p[1] + p[2] + p[3]);
    assert(h + b =~= h + a + p[4] + p[5] + p[6] + p[7]);
    assert(h + eleven(p) =~= h + b + p[8] + p[9] + p[10]);
}

proof fn elements_are_lanes(n: u16, l: Seq<char>)
    requires
        n < 0x8000,
    ensures
        bump_matrix(n, l) == matrix_name(n) + "."@ + l,
{
    let h = "bump_env["@ + dec((2 * n) as nat);
    assert(n * 2 == 2 * n);
    assert(h + "]."@ == h + "]"@ + "."@) by {
        reveal_strlit("].");
        reveal_strlit("]");
        reveal_strlit(".");
        assert(h + "]."@ =~= h + "]"@ + "."@);
    }
}

proof fn behind_a_text(x: Seq<char>, m: Seq<char>, l: Seq<char>)
    ensures
        x + (m + "."@ + l) == x + m + "."@ + l,
{
    assert(x + (m + "."@ + l) =~= x + m + "."@ + l);
}

proof fn bem_is_written(inst: Instruction, s: Seq<Seq<char>>)
    requires
        inst.dst is Some,
        inst.dst->0.reg.index < 0x8000,
        s.len() >= 2,
    ensures
        bem_text(inst, s) == Ok::<Seq<char>, EmitFailure>(
            bem_parts(s, matrix_name(inst.dst->0.reg.index)),
        ),
{
    let n = inst.dst->0.reg.index;
    let m = matrix_name(n);
    let (u, v) = (s[0], s[1]);
    elements_are_lanes(n, "x"@);
    elements_are_lanes(n, "y"@);
    elements_are_lanes(n, "z"@);
    elements_are_lanes(n, "w"@);
    let (bx, by) = (bump_matrix(n, "x"@), bump_matrix(n, "y"@));
    let (bz, bw) = (bump_matrix(n, "z"@), bump_matrix(n, "w"@));
    let h = "float4("@;
    assert(h + "("@ == "float4(("@) by {
        reveal_strlit("float4((");
        reveal_strlit("float4(");
        reveal_strlit("(");
    }
    let first = seq!["("@, u, ").x + "@, bx, " * ("@, v, ").x + "@, bz, " * ("@, v, ").y"@];
    sums_flatten(h, first);
    let a1 = h + "("@ + u + ").x + "@;
    behind_a_text(a1, m, "x"@);
    let a2 = a1 + bx + " * ("@ + v + ").x + "@;
    behind_a_text(a2, m, "z"@);
    let k = a2 + bz + " * ("@ + v;
    let second = seq!["("@, u, ").y + "@, by, " * ("@, v, ").x + "@, bw, " * ("@, v, ").y"@];
    let j = k + ").y"@ + ", "@;
    assert(j + "("@ == k + ").y, ("@) by {
        reveal_strlit(").y, (");
        reveal_strlit(").y");
        reveal_strlit(", ");
        reveal_strlit("(");
        assert(j + "("@ =~= k + ").y, ("@);
    }
    sums_flatten(j, second);
    let a3 = j + "("@ + u + ").y + "@;
    behind_a_text(a3, m, "y"@);
    let a4 = a3 + by + " * ("@ + v + ").x + "@;
    behind_a_text(a4, m, "w"@);
    let l = a4 + bw + " * ("@ + v;
    assert(l + ").y"@ + ", 0.0, 0.0)"@ == l + ").y, 0.0, 0.0)"@) by {
        reveal_strlit(").y, 0.0, 0.0)");
        reveal_strlit(").y");
        reveal_strlit(", 0.0, 0.0)");
        assert(l + ").y"@ + ", 0.0, 0.0)"@ =~= l + ").y, 0.0, 0.0)"@);
    }
    let left = "("@ + u + ").x + "@ + bx + " * ("@ + v + ").x + "@ + bz + " * ("@ + v + ").y"@;
    let right = "("@ + u + ").y + "@ + by + " * ("@ + v + ").x + "@ + bw + " * ("@ + v + ").y"@;
    assert(bem_text(inst, s)->Ok_0 == h + left + ", "@ + right + ", 0.0, 0.0)"@);
    assert(h + left == k + ").y"@);
    assert(j + right == l + ").y"@);
}

/// `bem` moves a coordinate by a bump that is turned by the matrix of its stage.
pub proof fn bumps_are_turned_by_the_matrix(inst: Instruction)
    requires
        inst.dst is Some,
        inst.dst->0.reg.index < 0x8000,
    ensures
        computes(bem_of(inst), 2, 6, 7, bem_meaning(inst.dst->0.reg.index)),
{
    reveal_with_fuel(Expr::value, 8);
    numerals();
    let n = inst.dst->0.reg.index;
    let m = matrix_name(n);
    let e = bem_expr(m);
    assert forall|s: Seq<Seq<char>>| s.len() >= 2 implies #[trigger] bem_of(inst)(s)
        == e.text(s) by {
        bem_is_written(inst, s);
        bem_parts_are_written(s, m);
    }
    bem_parts_are_written(Seq::empty(), m);
    assert(is_written(e, bem_of(inst), 2, 6, 7));
    reveal_strlit("x");
    reveal_strlit("y");
    reveal_strlit("z");
    reveal_strlit("w");
    assert forall|env: Env| #[trigger] vectors(env.operands, 2) implies e.value(env) == (
    bem_meaning(n))(env) by {
        assert(e.value(env) =~= (bem_meaning(n))(env));
    }
    assert(has_value(e, 2, bem_meaning(n)));
}

/// The value that `texdepth` writes, as a function of what it reads.
pub open spec fn texdepth_of() -> spec_fn(Seq<Seq<char>>) -> Seq<char> {
    |s: Seq<Seq<char>>|
        "float4(saturate(("@ + s[0] + ").x / min(("@ + s[0] + ").y, 1.0)))"@
}

/// The first lane divided by the second one, which counts as one where it is
/// more, in the unit range.
pub open spec fn texdepth_meaning() -> spec_fn(Env) -> Value {
    |env: Env|
        {
            let c = env.operands[0];
            four(clamped(c[0] / lesser(c[1], whole(1))))
        }
}

proof fn texdepth_computes()
    ensures
        computes(texdepth_of(), 1, 6, 7, texdepth_meaning()),
{
    reveal_with_fuel(Expr::behind, 8);
    reveal_with_fuel(Expr::value, 8);
    reveal_with_fuel(Expr::is_plain, 8);
    numerals();
    let e = call_1(
        Function::Float4,
        call_1(
            Function::Saturate,
            infix(
                Operator::Over,
                lanes(group(operand(0)), "x"@),
                call_2(Function::Min, lanes(group(operand(0)), "y"@), number("1.0"@)),
            ),
        ),
    );
    assert("float4(saturate(("@ == Seq::empty() + "float4("@ + "saturate("@ + "("@) by {
        reveal_strlit("float4(saturate((");
        reveal_strlit("float4(");
        reveal_strlit("saturate(");
        reveal_strlit("(");
    }
    assert forall|x: Seq<char>| #[trigger] (x + ").x / min(("@) == x + ")"@ + "."@ + "x"@ + " / "@
        + "min("@ + "("@ by {
        reveal_strlit(").x / min((");
        reveal_strlit(")");
        reveal_strlit(".");
        reveal_strlit("x");
        reveal_strlit(" / ");
        reveal_strlit("min(");
        reveal_strlit("(");
        assert(x + ").x / min(("@ =~= x + ")"@ + "."@ + "x"@ + " / "@ + "min("@ + "("@);
    }
    assert forall|x: Seq<char>| #[trigger] (x + ").y, 1.0)))"@) == x + ")"@ + "."@ + "y"@ + ", "@
        + "1.0"@ + ")"@ + ")"@ + ")"@ by {
        reveal_strlit(").y, 1.0)))");
        reveal_strlit(")");
        reveal_strlit(".");
        reveal_strlit("y");
        reveal_strlit(", ");
        reveal_strlit("1.0");
        assert(x + ").y, 1.0)))"@ =~= x + ")"@ + "."@ + "y"@ + ", "@ + "1.0"@ + ")"@ + ")"@ + ")"@);
    }
    assert(is_written(e, texdepth_of(), 1, 6, 7));
    reveal_strlit("x");
    reveal_strlit("y");
    assert forall|env: Env| #[trigger] vectors(env.operands, 1) implies e.value(env)
        == (texdepth_meaning())(env) by {
        assert(e.value(env) =~= (texdepth_meaning())(env));
    }
    assert(has_value(e, 1, texdepth_meaning()));
}

/// `texdepth` writes the quotient of the first two lanes of its register as the
/// depth.
pub proof fn texdepth_divides(inst: Instruction, ctx: EmitContext, loops: Seq<Option<u64>>)
    requires
        inst.dst is Some,
        read_text(inst.dst->0.reg, ctx, loops) is Ok,
    ensures
        texdepth_text(inst, ctx, loops) == Ok::<Seq<char>, EmitFailure>(
            "    _depth_storage = "@ + texdepth_of()(
                seq![read_text(inst.dst->0.reg, ctx, loops)->Ok_0],
            ) + ";\n"@,
        ),
        computes(texdepth_of(), 1, 6, 7, texdepth_meaning()),
{
    texdepth_computes();
    let r = read_text(inst.dst->0.reg, ctx, loops)->Ok_0;
    let t = "    _depth_storage = "@;
    assert("    _depth_storage = float4(saturate(("@ == t + "float4(saturate(("@) by {
        reveal_strlit("    _depth_storage = float4(saturate((");
        reveal_strlit("    _depth_storage = ");
        reveal_strlit("float4(saturate((");
    }
    assert(").y, 1.0)));\n"@ == ").y, 1.0)))"@ + ";\n"@) by {
        reveal_strlit(").y, 1.0)));\n");
        reveal_strlit(").y, 1.0)))");
        reveal_strlit(";\n");
    }
    assert(texdepth_text(inst, ctx, loops)->Ok_0 =~= t + texdepth_of()(seq![r]) + ";\n"@);
}

// ---------------------------------------------------------------------------
// Discards
// ---------------------------------------------------------------------------

/// The lanes that `texkill` tests, as letters: those of the mask, or the first
/// three before the second shader model.
pub open spec fn tested_letters(inst: Instruction, major: u8) -> Seq<char> {
    if major >= 2 {
        mask_text(inst.dst->0.write_mask)
    } else {
        "xyz"@
    }
}

/// Whether `texkill` tests lane `i`.
pub open spec fn tests_lane(inst: Instruction, major: u8, i: int) -> bool {
    if major >= 2 {
        names_lane(inst.dst->0.write_mask, i)
    } else {
        i < 3
    }
}

/// Whether a lane that `texkill` tests is negative.
pub open spec fn kills(inst: Instruction, major: u8, v: Value) -> bool {
    exists|i: int| 0 <= i < 4 && tests_lane(inst, major, i) && #[trigger] v[i] < whole(0)
}

spec fn kill_expr(letters: Seq<char>) -> Expr {
    call_1(
        Function::Any,
        infix(Operator::Less, lanes(group(operand(0)), letters), number("0.0"@)),
    )
}

proof fn kill_is_written(load: Seq<char>, letters: Seq<char>, s: Seq<Seq<char>>)
    requires
        s.len() == 1,
        s[0] == load,
    ensures
        kill_expr(letters).is_plain(1),
        "    if (any(("@ + load + ")."@ + letters + " < 0.0)) discard_fragment();\n"@ == kill_expr(
            letters,
        ).behind("    if ("@, s) + ") discard_fragment();\n"@,
{
    reveal_with_fuel(Expr::behind, 5);
    reveal_with_fuel(Expr::is_plain, 5);
    assert("    if (any(("@ == "    if ("@ + "any("@ + "("@) by {
        reveal_strlit("    if (any((");
        reveal_strlit("    if (");
        reveal_strlit("any(");
        reveal_strlit("(");
    }
    let x = "    if (any(("@ + load;
    assert(x + ")."@ == x + ")"@ + "."@) by {
        reveal_strlit(").");
        reveal_strlit(")");
        reveal_strlit(".");
        assert(x + ")."@ =~= x + ")"@ + "."@);
    }
    let y = x + ")"@ + "."@ + letters;
    assert(y + " < 0.0)) discard_fragment();\n"@ == y + " < "@ + "0.0"@ + ")"@
        + ") discard_fragment();\n"@) by {
        reveal_strlit(" < 0.0)) discard_fragment();\n");
        reveal_strlit(" < ");
        reveal_strlit("0.0");
        reveal_strlit(")");
        reveal_strlit(") discard_fragment();\n");
        assert(y + " < 0.0)) discard_fragment();\n"@ =~= y + " < "@ + "0.0"@ + ")"@
            + ") discard_fragment();\n"@);
    }
}

proof fn kill_has_value(inst: Instruction, major: u8, env: Env)
    requires
        vectors(env.operands, 1),
        !(major >= 2 && writes_nothing(inst.dst->0.write_mask)),
    ensures
        kill_expr(tested_letters(inst, major)).value(env) == seq![
            truth(kills(inst, major, env.operands[0])),
        ],
{
    reveal_with_fuel(Expr::value, 5);
    numerals();
    let m = inst.dst->0.write_mask;
    masks_have_the_lanes_they_name(m);
    reveal_strlit("");
    reveal_strlit("x");
    reveal_strlit("y");
    reveal_strlit("z");
    reveal_strlit("w");
    reveal_strlit("xyz");
    let letters = tested_letters(inst, major);
    let v = env.operands[0];
    let (p, q, r) = (mask_lane(m, 0), mask_lane(m, 1), mask_lane(m, 2));
    let t = infix(Operator::Less, lanes(group(operand(0)), letters), number("0.0"@)).value(env);
    assert(letters.len() > 0);
    assert(t.len() == letters.len());
    assert forall|j: int| 0 <= j < letters.len() implies #[trigger] t[j] == truth(
        v[letter_lane(letters[j])] < whole(0),
    ) by {}
    assert forall|j: int| 0 <= j < letters.len() implies tests_lane(
        inst,
        major,
        letter_lane(#[trigger] letters[j]),
    ) by {}
    if kills(inst, major, v) {
        let i = choose|i: int|
            0 <= i < 4 && tests_lane(inst, major, i) && #[trigger] v[i] < whole(0);
        let j: int = if major < 2 {
            i
        } else if i == 0 {
            0
        } else if i == 1 {
            p.len() as int
        } else if i == 2 {
            (p.len() + q.len()) as int
        } else {
            (p.len() + q.len() + r.len()) as int
        };
        assert(0 <= j < letters.len() && letter_lane(letters[j]) == i);
        assert(t[j] != whole(0));
    }
    if exists|j: int| 0 <= j < t.len() && #[trigger] t[j] != whole(0) {
        let j = choose|j: int| 0 <= j < t.len() && #[trigger] t[j] != whole(0);
        let i = letter_lane(letters[j]);
        assert(v[i] < whole(0) && tests_lane(inst, major, i) && 0 <= i < 4);
        assert(kills(inst, major, v));
    }
    assert(kill_expr(letters).value(env) =~= seq![truth(kills(inst, major, v))]);
}

/// `texkill` discards a fragment where a lane that it tests is negative.
pub proof fn texkill_discards_negative_lanes(
    inst: Instruction,
    ctx: EmitContext,
    loops: Seq<Option<u64>>,
)
    requires
        inst.dst is Some,
        !(ctx.prog.major >= 2 && writes_nothing(inst.dst->0.write_mask)),
        killed_text(inst.dst->0, ctx, loops) is Ok,
    ensures
        exists|e: Expr, s: Seq<Seq<char>>|
            texkill_text(inst, ctx, loops) == Ok::<Seq<char>, EmitFailure>(
                #[trigger] e.behind("    if ("@, s) + ") discard_fragment();\n"@,
            ) && s.len() == 1 && killed_text(inst.dst->0, ctx, loops) == Ok::<
                Seq<char>,
                EmitFailure,
            >(s[0]) && e.is_plain(1) && forall|env: Env| #[trigger] vectors(env.operands, 1)
                ==> e.value(env) == seq![truth(kills(inst, ctx.prog.major, env.operands[0]))],
{
    let load = killed_text(inst.dst->0, ctx, loops)->Ok_0;
    let letters = tested_letters(inst, ctx.prog.major);
    let s = seq![load];
    let e = kill_expr(letters);
    kill_is_written(load, letters, s);
    let x = "    if (any(("@ + load;
    assert(x + ").xyz < 0.0)) discard_fragment();\n"@ == x + ")."@ + "xyz"@
        + " < 0.0)) discard_fragment();\n"@) by {
        reveal_strlit(").xyz < 0.0)) discard_fragment();\n");
        reveal_strlit(").");
        reveal_strlit("xyz");
        reveal_strlit(" < 0.0)) discard_fragment();\n");
        assert(x + ").xyz < 0.0)) discard_fragment();\n"@ =~= x + ")."@ + "xyz"@
            + " < 0.0)) discard_fragment();\n"@);
    }
    assert(texkill_text(inst, ctx, loops) == Ok::<Seq<char>, EmitFailure>(
        e.behind("    if ("@, s) + ") discard_fragment();\n"@,
    ));
    assert forall|env: Env| #[trigger] vectors(env.operands, 1) implies e.value(env) == seq![
        truth(kills(inst, ctx.prog.major, env.operands[0])),
    ] by {
        kill_has_value(inst, ctx.prog.major, env);
    }
}

} // verus!
