//! What the vertices of the fixed-function pipeline become.
//!
//! Direct3D says how vertices are transformed, lit and fogged. The laws say that
//! the statements do that, for all vertices and all constants.

use crate::d3d::{D3DFOG_EXP, D3DFOG_EXP2, D3DFOG_LINEAR};
use crate::dxso::emit::metal::{
    absolute, after, assigned, call_1, call_2, call_3, call_4, choice, clamped, computes,
    digits_value, greater, group, has_value, infix, inner, is_program, is_written, lanes, lesser,
    lines, name, named, negated, number, numeral_value, numerals, operand, point_scale, vectors,
    whole, Env, Expr, Function, Operator, Statement, Value,
};
use crate::dxso::ff::key::{FfVsFlags, FfVsKey};
use crate::dxso::ff::vertex::{
    eye_position, ff_fog, fog_distance, kept_components, padded, point_size, row,
    transformed_position, window_position,
};
use vstd::prelude::*;

verus! {

/// Whether a name holds a vector of four lanes.
pub open spec fn is_vector(env: Env, n: Seq<char>) -> bool {
    named(env, n).len() == 4
}

// ---------------------------------------------------------------------------
// Fog
// ---------------------------------------------------------------------------

/// Whether the position and the constants that fog reads are vectors.
pub open spec fn holds_vertex(env: Env) -> bool {
    is_vector(env, "pos"@) && is_vector(env, "pos_view"@) && is_vector(env, "vs_c[2]"@)
        && is_vector(env, "vs_c[8]"@)
}

/// The distance of a vertex from the eye, or its depth.
pub open spec fn eye_distance(key: FfVsKey, env: Env) -> real {
    let v = named(env, "pos_view"@);
    let p = named(env, "pos"@);
    let r = named(env, "vs_c[2]"@);
    if key.flags.has(FfVsFlags::RANGE_FOG) {
        (env.library.sqrt)(v[0] * v[0] + v[1] * v[1] + v[2] * v[2])
    } else {
        absolute(p[0] * r[0] + p[1] * r[1] + p[2] * r[2] + p[3] * r[3])
    }
}

/// The factor of fog at the distance `d`: the part of the colour that is seen
/// through it. The constants hold the start, the end and the density.
pub open spec fn fog_fraction(mode: u8, d: real, env: Env) -> real {
    let k = named(env, "vs_c[8]"@);
    if mode == D3DFOG_EXP {
        clamped((env.library.exp)(-(k[2] * d)))
    } else if mode == D3DFOG_EXP2 {
        clamped((env.library.exp)(-((k[2] * d) * (k[2] * d))))
    } else if k[1] == k[0] {
        whole(0)
    } else {
        clamped((k[1] - d) / (k[1] - k[0]))
    }
}

spec fn range_distance_program() -> Seq<Statement> {
    seq![
        Statement::Declare(
            "float"@,
            "eyeZ"@,
            call_1(Function::Length, lanes(name("pos_view"@), "xyz"@)),
        ),
    ]
}

proof fn range_distance_is_written(key: FfVsKey)
    requires
        key.flags.has(FfVsFlags::RANGE_FOG),
    ensures
        is_program(fog_distance(key), range_distance_program(), Seq::empty(), "    "@),
{
    reveal_with_fuel(lines, 2);
    reveal_with_fuel(Expr::behind, 4);
    reveal_with_fuel(Expr::is_plain, 4);
    let p1 = range_distance_program();
    assert(p1.drop_last() =~= Seq::empty());
    assert("    float eyeZ = length(pos_view.xyz);\n"@ == Seq::empty()
        + "    float eyeZ = length(pos_view."@ + "xyz);\n"@) by {
        reveal_strlit("    float eyeZ = length(pos_view.xyz);\n");
        reveal_strlit("    float eyeZ = length(pos_view.");
        reveal_strlit("xyz);\n");
    }
    assert forall|x: Seq<char>| #[trigger] (x + "    float eyeZ = length(pos_view."@) == x + "    "@
        + "float"@ + " "@ + "eyeZ"@ + " = "@ + "length("@ + "pos_view"@ + "."@ by {
        reveal_strlit("    float eyeZ = length(pos_view.");
        reveal_strlit("    ");
        reveal_strlit("float");
        reveal_strlit(" ");
        reveal_strlit("eyeZ");
        reveal_strlit(" = ");
        reveal_strlit("length(");
        reveal_strlit("pos_view");
        reveal_strlit(".");
        assert(x + "    float eyeZ = length(pos_view."@ =~= x + "    "@ + "float"@ + " "@ + "eyeZ"@
            + " = "@ + "length("@ + "pos_view"@ + "."@);
    }
    assert forall|x: Seq<char>| #[trigger] (x + "xyz);\n"@) == x + "xyz"@ + ")"@ + ";\n"@ by {
        reveal_strlit("xyz);\n");
        reveal_strlit("xyz");
        reveal_strlit(")");
        reveal_strlit(";\n");
        assert(x + "xyz);\n"@ =~= x + "xyz"@ + ")"@ + ";\n"@);
    }
}

spec fn depth_distance_program() -> Seq<Statement> {
    seq![
        Statement::Declare(
            "float"@,
            "eyeZ"@,
            call_1(Function::Abs, call_2(Function::Dot, name("pos"@), name("vs_c[2]"@))),
        ),
    ]
}

proof fn depth_distance_is_written(key: FfVsKey)
    requires
        !key.flags.has(FfVsFlags::RANGE_FOG),
    ensures
        is_program(fog_distance(key), depth_distance_program(), Seq::empty(), "    "@),
{
    reveal_with_fuel(lines, 2);
    reveal_with_fuel(Expr::behind, 4);
    reveal_with_fuel(Expr::is_plain, 4);
    let p1 = depth_distance_program();
    assert(p1.drop_last() =~= Seq::empty());
    assert("    float eyeZ = abs(dot(pos, vs_c[2]));\n"@ == Seq::empty()
        + "    float eyeZ = abs(dot(pos"@ + ", vs_c[2]));\n"@) by {
        reveal_strlit("    float eyeZ = abs(dot(pos, vs_c[2]));\n");
        reveal_strlit("    float eyeZ = abs(dot(pos");
        reveal_strlit(", vs_c[2]));\n");
    }
    assert forall|x: Seq<char>| #[trigger] (x + "    float eyeZ = abs(dot(pos"@) == x + "    "@
        + "float"@ + " "@ + "eyeZ"@ + " = "@ + "abs("@ + "dot("@ + "pos"@ by {
        reveal_strlit("    float eyeZ = abs(dot(pos");
        reveal_strlit("    ");
        reveal_strlit("float");
        reveal_strlit(" ");
        reveal_strlit("eyeZ");
        reveal_strlit(" = ");
        reveal_strlit("abs(");
        reveal_strlit("dot(");
        reveal_strlit("pos");
        assert(x + "    float eyeZ = abs(dot(pos"@ =~= x + "    "@ + "float"@ + " "@ + "eyeZ"@
            + " = "@ + "abs("@ + "dot("@ + "pos"@);
    }
    assert forall|x: Seq<char>| #[trigger] (x + ", vs_c[2]));\n"@) == x + ", "@ + "vs_c[2]"@ + ")"@
        + ")"@ + ";\n"@ by {
        reveal_strlit(", vs_c[2]));\n");
        reveal_strlit(", ");
        reveal_strlit("vs_c[2]");
        reveal_strlit(")");
        reveal_strlit(";\n");
        assert(x + ", vs_c[2]));\n"@ =~= x + ", "@ + "vs_c[2]"@ + ")"@ + ")"@ + ";\n"@);
    }
}

spec fn exponential_fog_program() -> Seq<Statement> {
    seq![
        Statement::Assign(
            "out.fog"@,
            call_4(
                Function::Float4,
                call_1(
                    Function::Saturate,
                    call_1(
                        Function::Exp,
                        infix(
                            Operator::Times,
                            negated(lanes(name("vs_c[8]"@), "z"@)),
                            name("eyeZ"@),
                        ),
                    ),
                ),
                number("0.0"@),
                number("0.0"@),
                number("0.0"@),
            ),
        ),
    ]
}

proof fn exponential_fog_is_written(start: Seq<char>)
    ensures
        is_program(
            start + "    out.fog = float4(saturate(exp(-vs_c[8].z * eyeZ)), 0.0, 0.0, 0.0);\n"@,
            exponential_fog_program(),
            start,
            "    "@,
        ),
{
    reveal_with_fuel(lines, 2);
    reveal_with_fuel(Expr::behind, 8);
    reveal_with_fuel(Expr::is_plain, 8);
    let p1 = exponential_fog_program();
    assert(p1.drop_last() =~= Seq::empty());
    assert forall|x: Seq<char>| #[trigger] (x
        + "    out.fog = float4(saturate(exp(-vs_c[8].z * eyeZ)), 0.0, 0.0, 0.0);\n"@) == x
        + "    out.fog = float4(saturate(exp(-vs_c[8]"@ + ".z * eyeZ)), 0.0"@
        + ", 0.0, 0.0);\n"@ by {
        reveal_strlit("    out.fog = float4(saturate(exp(-vs_c[8].z * eyeZ)), 0.0, 0.0, 0.0);\n");
        reveal_strlit("    out.fog = float4(saturate(exp(-vs_c[8]");
        reveal_strlit(".z * eyeZ)), 0.0");
        reveal_strlit(", 0.0, 0.0);\n");
        assert(x + "    out.fog = float4(saturate(exp(-vs_c[8].z * eyeZ)), 0.0, 0.0, 0.0);\n"@ =~= x
            + "    out.fog = float4(saturate(exp(-vs_c[8]"@ + ".z * eyeZ)), 0.0"@
            + ", 0.0, 0.0);\n"@);
    }
    assert forall|x: Seq<char>| #[trigger] (x + "    out.fog = float4(saturate(exp(-vs_c[8]"@) == x
        + "    "@ + "out.fog"@ + " = "@ + "float4("@ + "saturate("@ + "exp("@ + "-"@
        + "vs_c[8]"@ by {
        reveal_strlit("    out.fog = float4(saturate(exp(-vs_c[8]");
        reveal_strlit("    ");
        reveal_strlit("out.fog");
        reveal_strlit(" = ");
        reveal_strlit("float4(");
        reveal_strlit("saturate(");
        reveal_strlit("exp(");
        reveal_strlit("-");
        reveal_strlit("vs_c[8]");
        assert(x + "    out.fog = float4(saturate(exp(-vs_c[8]"@ =~= x + "    "@ + "out.fog"@
            + " = "@ + "float4("@ + "saturate("@ + "exp("@ + "-"@ + "vs_c[8]"@);
    }
    assert forall|x: Seq<char>| #[trigger] (x + ".z * eyeZ)), 0.0"@) == x + "."@ + "z"@ + " * "@
        + "eyeZ"@ + ")"@ + ")"@ + ", "@ + "0.0"@ by {
        reveal_strlit(".z * eyeZ)), 0.0");
        reveal_strlit(".");
        reveal_strlit("z");
        reveal_strlit(" * ");
        reveal_strlit("eyeZ");
        reveal_strlit(")");
        reveal_strlit(", ");
        reveal_strlit("0.0");
        assert(x + ".z * eyeZ)), 0.0"@ =~= x + "."@ + "z"@ + " * "@ + "eyeZ"@ + ")"@ + ")"@ + ", "@
            + "0.0"@);
    }
    assert forall|x: Seq<char>| #[trigger] (x + ", 0.0, 0.0);\n"@) == x + ", "@ + "0.0"@ + ", "@
        + "0.0"@ + ")"@ + ";\n"@ by {
        reveal_strlit(", 0.0, 0.0);\n");
        reveal_strlit(", ");
        reveal_strlit("0.0");
        reveal_strlit(")");
        reveal_strlit(";\n");
        assert(x + ", 0.0, 0.0);\n"@ =~= x + ", "@ + "0.0"@ + ", "@ + "0.0"@ + ")"@ + ";\n"@);
    }
}

proof fn exponential_fog_runs(env: Env)
    requires
        is_vector(env, "vs_c[8]"@),
        named(env, "eyeZ"@).len() == 1,
    ensures
        named(after(exponential_fog_program(), env), "out.fog"@)
            == seq![fog_fraction(1, named(env, "eyeZ"@)[0], env), whole(0), whole(0), whole(0)],
{
    reveal_with_fuel(after, 2);
    reveal_with_fuel(Expr::value, 8);
    numerals();
    reveal_strlit("z");
    reveal_strlit("eyeZ");
    reveal_strlit("fog_dz");
    reveal_strlit("fog_range");
    reveal_strlit("out.fog");
    reveal_strlit("pos");
    reveal_strlit("pos_view");
    reveal_strlit("vs_c[2]");
    reveal_strlit("vs_c[8]");
    assert("out.fog"@.len() != "eyeZ"@.len());
    assert("out.fog"@.len() != "fog_dz"@.len());
    assert("out.fog"@.len() != "fog_range"@.len());
    assert("out.fog"@.len() != "pos"@.len());
    assert("out.fog"@.len() != "pos_view"@.len());
    assert("out.fog"@[0] != "vs_c[2]"@[0]);
    assert("out.fog"@[0] != "vs_c[8]"@[0]);
    let (x, y) = (named(env, "vs_c[8]"@)[2], named(env, "eyeZ"@)[0]);
    assert((-x) * y == -(x * y)) by (nonlinear_arith);
    let p1 = exponential_fog_program();
    assert(p1.drop_last() =~= Seq::empty());
    let e0 = env;
    let e1 = p1[0].run(e0);
    assert(named(e1, "out.fog"@)
        =~= seq![fog_fraction(1, named(env, "eyeZ"@)[0], env), whole(0), whole(0), whole(0)]);
    assert(after(p1, env) == e1);
}

spec fn squared_fog_program() -> Seq<Statement> {
    seq![
        Statement::Declare(
            "float"@,
            "fog_dz"@,
            infix(Operator::Times, lanes(name("vs_c[8]"@), "z"@), name("eyeZ"@)),
        ),
        Statement::Assign(
            "out.fog"@,
            call_4(
                Function::Float4,
                call_1(
                    Function::Saturate,
                    call_1(
                        Function::Exp,
                        infix(Operator::Times, negated(name("fog_dz"@)), name("fog_dz"@)),
                    ),
                ),
                number("0.0"@),
                number("0.0"@),
                number("0.0"@),
            ),
        ),
    ]
}

proof fn squared_fog_is_written(start: Seq<char>)
    ensures
        is_program(
            start + "    float fog_dz = vs_c[8].z * eyeZ;\n"@
                + "    out.fog = float4(saturate(exp(-fog_dz * fog_dz)), 0.0, 0.0, 0.0);\n"@,
            squared_fog_program(),
            start,
            "    "@,
        ),
{
    reveal_with_fuel(lines, 3);
    reveal_with_fuel(Expr::behind, 7);
    reveal_with_fuel(Expr::is_plain, 7);
    let p2 = squared_fog_program();
    let p1 = seq![p2[0]];
    assert(p2.drop_last() =~= p1);
    assert(p1.drop_last() =~= Seq::empty());
    assert forall|x: Seq<char>| #[trigger] (x + "    float fog_dz = vs_c[8].z * eyeZ;\n"@) == x
        + "    float fog_dz = vs_c[8].z"@ + " * eyeZ;\n"@ by {
        reveal_strlit("    float fog_dz = vs_c[8].z * eyeZ;\n");
        reveal_strlit("    float fog_dz = vs_c[8].z");
        reveal_strlit(" * eyeZ;\n");
        assert(x + "    float fog_dz = vs_c[8].z * eyeZ;\n"@ =~= x + "    float fog_dz = vs_c[8].z"@
            + " * eyeZ;\n"@);
    }
    assert forall|x: Seq<char>| #[trigger] (x + "    float fog_dz = vs_c[8].z"@) == x + "    "@
        + "float"@ + " "@ + "fog_dz"@ + " = "@ + "vs_c[8]"@ + "."@ + "z"@ by {
        reveal_strlit("    float fog_dz = vs_c[8].z");
        reveal_strlit("    ");
        reveal_strlit("float");
        reveal_strlit(" ");
        reveal_strlit("fog_dz");
        reveal_strlit(" = ");
        reveal_strlit("vs_c[8]");
        reveal_strlit(".");
        reveal_strlit("z");
        assert(x + "    float fog_dz = vs_c[8].z"@ =~= x + "    "@ + "float"@ + " "@ + "fog_dz"@
            + " = "@ + "vs_c[8]"@ + "."@ + "z"@);
    }
    assert forall|x: Seq<char>| #[trigger] (x + " * eyeZ;\n"@) == x + " * "@ + "eyeZ"@ + ";\n"@ by {
        reveal_strlit(" * eyeZ;\n");
        reveal_strlit(" * ");
        reveal_strlit("eyeZ");
        reveal_strlit(";\n");
        assert(x + " * eyeZ;\n"@ =~= x + " * "@ + "eyeZ"@ + ";\n"@);
    }
    assert forall|x: Seq<char>| #[trigger] (x
        + "    out.fog = float4(saturate(exp(-fog_dz * fog_dz)), 0.0, 0.0, 0.0);\n"@) == x
        + "    out.fog = float4(saturate(exp(-fog_dz"@ + " * fog_dz)), 0.0, 0.0"@
        + ", 0.0);\n"@ by {
        reveal_strlit("    out.fog = float4(saturate(exp(-fog_dz * fog_dz)), 0.0, 0.0, 0.0);\n");
        reveal_strlit("    out.fog = float4(saturate(exp(-fog_dz");
        reveal_strlit(" * fog_dz)), 0.0, 0.0");
        reveal_strlit(", 0.0);\n");
        assert(x + "    out.fog = float4(saturate(exp(-fog_dz * fog_dz)), 0.0, 0.0, 0.0);\n"@ =~= x
            + "    out.fog = float4(saturate(exp(-fog_dz"@ + " * fog_dz)), 0.0, 0.0"@
            + ", 0.0);\n"@);
    }
    assert forall|x: Seq<char>| #[trigger] (x + "    out.fog = float4(saturate(exp(-fog_dz"@) == x
        + "    "@ + "out.fog"@ + " = "@ + "float4("@ + "saturate("@ + "exp("@ + "-"@
        + "fog_dz"@ by {
        reveal_strlit("    out.fog = float4(saturate(exp(-fog_dz");
        reveal_strlit("    ");
        reveal_strlit("out.fog");
        reveal_strlit(" = ");
        reveal_strlit("float4(");
        reveal_strlit("saturate(");
        reveal_strlit("exp(");
        reveal_strlit("-");
        reveal_strlit("fog_dz");
        assert(x + "    out.fog = float4(saturate(exp(-fog_dz"@ =~= x + "    "@ + "out.fog"@
            + " = "@ + "float4("@ + "saturate("@ + "exp("@ + "-"@ + "fog_dz"@);
    }
    assert forall|x: Seq<char>| #[trigger] (x + " * fog_dz)), 0.0, 0.0"@) == x + " * "@ + "fog_dz"@
        + ")"@ + ")"@ + ", "@ + "0.0"@ + ", "@ + "0.0"@ by {
        reveal_strlit(" * fog_dz)), 0.0, 0.0");
        reveal_strlit(" * ");
        reveal_strlit("fog_dz");
        reveal_strlit(")");
        reveal_strlit(", ");
        reveal_strlit("0.0");
        assert(x + " * fog_dz)), 0.0, 0.0"@ =~= x + " * "@ + "fog_dz"@ + ")"@ + ")"@ + ", "@
            + "0.0"@ + ", "@ + "0.0"@);
    }
    assert forall|x: Seq<char>| #[trigger] (x + ", 0.0);\n"@) == x + ", "@ + "0.0"@ + ")"@
        + ";\n"@ by {
        reveal_strlit(", 0.0);\n");
        reveal_strlit(", ");
        reveal_strlit("0.0");
        reveal_strlit(")");
        reveal_strlit(";\n");
        assert(x + ", 0.0);\n"@ =~= x + ", "@ + "0.0"@ + ")"@ + ";\n"@);
    }
}

proof fn squared_fog_runs(env: Env)
    requires
        is_vector(env, "vs_c[8]"@),
        named(env, "eyeZ"@).len() == 1,
    ensures
        named(after(squared_fog_program(), env), "out.fog"@)
            == seq![fog_fraction(2, named(env, "eyeZ"@)[0], env), whole(0), whole(0), whole(0)],
{
    reveal_with_fuel(after, 3);
    reveal_with_fuel(Expr::value, 7);
    numerals();
    reveal_strlit("z");
    reveal_strlit("eyeZ");
    reveal_strlit("fog_dz");
    reveal_strlit("fog_range");
    reveal_strlit("out.fog");
    reveal_strlit("pos");
    reveal_strlit("pos_view");
    reveal_strlit("vs_c[2]");
    reveal_strlit("vs_c[8]");
    assert("fog_dz"@.len() != "eyeZ"@.len());
    assert("fog_dz"@.len() != "fog_range"@.len());
    assert("fog_dz"@.len() != "out.fog"@.len());
    assert("fog_dz"@.len() != "pos"@.len());
    assert("fog_dz"@.len() != "pos_view"@.len());
    assert("fog_dz"@.len() != "vs_c[2]"@.len());
    assert("fog_dz"@.len() != "vs_c[8]"@.len());
    assert("out.fog"@.len() != "eyeZ"@.len());
    assert("out.fog"@.len() != "fog_range"@.len());
    assert("out.fog"@.len() != "pos"@.len());
    assert("out.fog"@.len() != "pos_view"@.len());
    assert("out.fog"@[0] != "vs_c[2]"@[0]);
    assert("out.fog"@[0] != "vs_c[8]"@[0]);
    let x = named(env, "vs_c[8]"@)[2] * named(env, "eyeZ"@)[0];
    assert((-x) * x == -(x * x)) by (nonlinear_arith);
    let p2 = squared_fog_program();
    let p1 = seq![p2[0]];
    assert(p2.drop_last() =~= p1);
    assert(p1.drop_last() =~= Seq::empty());
    let e0 = env;
    let e1 = p2[0].run(e0);
    assert(named(e1, "fog_dz"@) =~= seq![named(env, "vs_c[8]"@)[2] * named(env, "eyeZ"@)[0]]);
    assert(named(e1, "vs_c[8]"@) == named(env, "vs_c[8]"@));
    let e2 = p2[1].run(e1);
    assert(named(e2, "out.fog"@)
        =~= seq![fog_fraction(2, named(env, "eyeZ"@)[0], env), whole(0), whole(0), whole(0)]);
    assert(after(p2, env) == e2);
}

spec fn linear_fog_program() -> Seq<Statement> {
    seq![
        Statement::Declare(
            "float"@,
            "fog_range"@,
            infix(Operator::Minus, lanes(name("vs_c[8]"@), "y"@), lanes(name("vs_c[8]"@), "x"@)),
        ),
        Statement::Assign(
            "out.fog"@,
            call_4(
                Function::Float4,
                choice(
                    infix(Operator::Same, name("fog_range"@), number("0.0"@)),
                    number("0.0"@),
                    call_1(
                        Function::Saturate,
                        infix(
                            Operator::Over,
                            group(
                                infix(
                                    Operator::Minus,
                                    lanes(name("vs_c[8]"@), "y"@),
                                    name("eyeZ"@),
                                ),
                            ),
                            name("fog_range"@),
                        ),
                    ),
                ),
                number("0.0"@),
                number("0.0"@),
                number("0.0"@),
            ),
        ),
    ]
}

proof fn linear_fog_is_written(start: Seq<char>)
    ensures
        is_program(
            start + "    float fog_range = vs_c[8].y - vs_c[8].x;\n"@
                + "    out.fog = float4(fog_range == 0.0 ? 0.0 : saturate((vs_c[8].y - eyeZ) / fog_range), 0.0, 0.0, 0.0);\n"@,
            linear_fog_program(),
            start,
            "    "@,
        ),
{
    reveal_with_fuel(lines, 3);
    reveal_with_fuel(Expr::behind, 9);
    reveal_with_fuel(Expr::is_plain, 9);
    let p2 = linear_fog_program();
    let p1 = seq![p2[0]];
    assert(p2.drop_last() =~= p1);
    assert(p1.drop_last() =~= Seq::empty());
    assert forall|x: Seq<char>| #[trigger] (x + "    float fog_range = vs_c[8].y - vs_c[8].x;\n"@)
        == x + "    float fog_range = vs_c[8].y"@ + " - vs_c[8].x;\n"@ by {
        reveal_strlit("    float fog_range = vs_c[8].y - vs_c[8].x;\n");
        reveal_strlit("    float fog_range = vs_c[8].y");
        reveal_strlit(" - vs_c[8].x;\n");
        assert(x + "    float fog_range = vs_c[8].y - vs_c[8].x;\n"@ =~= x
            + "    float fog_range = vs_c[8].y"@ + " - vs_c[8].x;\n"@);
    }
    assert forall|x: Seq<char>| #[trigger] (x + "    float fog_range = vs_c[8].y"@) == x + "    "@
        + "float"@ + " "@ + "fog_range"@ + " = "@ + "vs_c[8]"@ + "."@ + "y"@ by {
        reveal_strlit("    float fog_range = vs_c[8].y");
        reveal_strlit("    ");
        reveal_strlit("float");
        reveal_strlit(" ");
        reveal_strlit("fog_range");
        reveal_strlit(" = ");
        reveal_strlit("vs_c[8]");
        reveal_strlit(".");
        reveal_strlit("y");
        assert(x + "    float fog_range = vs_c[8].y"@ =~= x + "    "@ + "float"@ + " "@
            + "fog_range"@ + " = "@ + "vs_c[8]"@ + "."@ + "y"@);
    }
    assert forall|x: Seq<char>| #[trigger] (x + " - vs_c[8].x;\n"@) == x + " - "@ + "vs_c[8]"@
        + "."@ + "x"@ + ";\n"@ by {
        reveal_strlit(" - vs_c[8].x;\n");
        reveal_strlit(" - ");
        reveal_strlit("vs_c[8]");
        reveal_strlit(".");
        reveal_strlit("x");
        reveal_strlit(";\n");
        assert(x + " - vs_c[8].x;\n"@ =~= x + " - "@ + "vs_c[8]"@ + "."@ + "x"@ + ";\n"@);
    }
    assert forall|x: Seq<char>| #[trigger] (x
        + "    out.fog = float4(fog_range == 0.0 ? 0.0 : saturate((vs_c[8].y - eyeZ) / fog_range), 0.0, 0.0, 0.0);\n"@)
        == x + "    out.fog = float4(fog_range == 0.0 ? "@ + "0.0 : saturate((vs_c[8].y - "@
        + "eyeZ) / fog_range), 0.0, "@ + "0.0, 0.0);\n"@ by {
        reveal_strlit("    out.fog = float4(fog_range == 0.0 ? 0.0 : saturate((vs_c[8].y - eyeZ) / fog_range), 0.0, 0.0, 0.0);\n");
        reveal_strlit("    out.fog = float4(fog_range == 0.0 ? ");
        reveal_strlit("0.0 : saturate((vs_c[8].y - ");
        reveal_strlit("eyeZ) / fog_range), 0.0, ");
        reveal_strlit("0.0, 0.0);\n");
        assert(x
            + "    out.fog = float4(fog_range == 0.0 ? 0.0 : saturate((vs_c[8].y - eyeZ) / fog_range), 0.0, 0.0, 0.0);\n"@
            =~= x + "    out.fog = float4(fog_range == 0.0 ? "@ + "0.0 : saturate((vs_c[8].y - "@
            + "eyeZ) / fog_range), 0.0, "@ + "0.0, 0.0);\n"@);
    }
    assert forall|x: Seq<char>| #[trigger] (x + "    out.fog = float4(fog_range == 0.0 ? "@) == x
        + "    "@ + "out.fog"@ + " = "@ + "float4("@ + "fog_range"@ + " == "@ + "0.0"@ + " ? "@ by {
        reveal_strlit("    out.fog = float4(fog_range == 0.0 ? ");
        reveal_strlit("    ");
        reveal_strlit("out.fog");
        reveal_strlit(" = ");
        reveal_strlit("float4(");
        reveal_strlit("fog_range");
        reveal_strlit(" == ");
        reveal_strlit("0.0");
        reveal_strlit(" ? ");
        assert(x + "    out.fog = float4(fog_range == 0.0 ? "@ =~= x + "    "@ + "out.fog"@ + " = "@
            + "float4("@ + "fog_range"@ + " == "@ + "0.0"@ + " ? "@);
    }
    assert forall|x: Seq<char>| #[trigger] (x + "0.0 : saturate((vs_c[8].y - "@) == x + "0.0"@
        + " : "@ + "saturate("@ + "("@ + "vs_c[8]"@ + "."@ + "y"@ + " - "@ by {
        reveal_strlit("0.0 : saturate((vs_c[8].y - ");
        reveal_strlit("0.0");
        reveal_strlit(" : ");
        reveal_strlit("saturate(");
        reveal_strlit("(");
        reveal_strlit("vs_c[8]");
        reveal_strlit(".");
        reveal_strlit("y");
        reveal_strlit(" - ");
        assert(x + "0.0 : saturate((vs_c[8].y - "@ =~= x + "0.0"@ + " : "@ + "saturate("@ + "("@
            + "vs_c[8]"@ + "."@ + "y"@ + " - "@);
    }
    assert forall|x: Seq<char>| #[trigger] (x + "eyeZ) / fog_range), 0.0, "@) == x + "eyeZ"@ + ")"@
        + " / "@ + "fog_range"@ + ")"@ + ", "@ + "0.0"@ + ", "@ by {
        reveal_strlit("eyeZ) / fog_range), 0.0, ");
        reveal_strlit("eyeZ");
        reveal_strlit(")");
        reveal_strlit(" / ");
        reveal_strlit("fog_range");
        reveal_strlit(", ");
        reveal_strlit("0.0");
        assert(x + "eyeZ) / fog_range), 0.0, "@ =~= x + "eyeZ"@ + ")"@ + " / "@ + "fog_range"@
            + ")"@ + ", "@ + "0.0"@ + ", "@);
    }
    assert forall|x: Seq<char>| #[trigger] (x + "0.0, 0.0);\n"@) == x + "0.0"@ + ", "@ + "0.0"@
        + ")"@ + ";\n"@ by {
        reveal_strlit("0.0, 0.0);\n");
        reveal_strlit("0.0");
        reveal_strlit(", ");
        reveal_strlit(")");
        reveal_strlit(";\n");
        assert(x + "0.0, 0.0);\n"@ =~= x + "0.0"@ + ", "@ + "0.0"@ + ")"@ + ";\n"@);
    }
}

proof fn linear_fog_runs(env: Env)
    requires
        is_vector(env, "vs_c[8]"@),
        named(env, "eyeZ"@).len() == 1,
    ensures
        named(after(linear_fog_program(), env), "out.fog"@)
            == seq![fog_fraction(3, named(env, "eyeZ"@)[0], env), whole(0), whole(0), whole(0)],
{
    reveal_with_fuel(after, 3);
    reveal_with_fuel(Expr::value, 9);
    numerals();
    reveal_strlit("x");
    reveal_strlit("y");
    reveal_strlit("eyeZ");
    reveal_strlit("fog_dz");
    reveal_strlit("fog_range");
    reveal_strlit("out.fog");
    reveal_strlit("pos");
    reveal_strlit("pos_view");
    reveal_strlit("vs_c[2]");
    reveal_strlit("vs_c[8]");
    assert("fog_range"@.len() != "eyeZ"@.len());
    assert("fog_range"@.len() != "fog_dz"@.len());
    assert("fog_range"@.len() != "out.fog"@.len());
    assert("fog_range"@.len() != "pos"@.len());
    assert("fog_range"@.len() != "pos_view"@.len());
    assert("fog_range"@.len() != "vs_c[2]"@.len());
    assert("fog_range"@.len() != "vs_c[8]"@.len());
    assert("out.fog"@.len() != "eyeZ"@.len());
    assert("out.fog"@.len() != "fog_dz"@.len());
    assert("out.fog"@.len() != "pos"@.len());
    assert("out.fog"@.len() != "pos_view"@.len());
    assert("out.fog"@[0] != "vs_c[2]"@[0]);
    assert("out.fog"@[0] != "vs_c[8]"@[0]);
    let p2 = linear_fog_program();
    let p1 = seq![p2[0]];
    assert(p2.drop_last() =~= p1);
    assert(p1.drop_last() =~= Seq::empty());
    let e0 = env;
    let e1 = p2[0].run(e0);
    assert(named(e1, "fog_range"@) =~= seq![
        named(env, "vs_c[8]"@)[1] - named(env, "vs_c[8]"@)[0],
    ]);
    assert(named(e1, "vs_c[8]"@) == named(env, "vs_c[8]"@));
    assert(named(e1, "eyeZ"@) == named(env, "eyeZ"@));
    let e2 = p2[1].run(e1);
    assert(named(e2, "out.fog"@)
        =~= seq![fog_fraction(3, named(env, "eyeZ"@)[0], env), whole(0), whole(0), whole(0)]);
    assert(after(p2, env) == e2);
}

/// The distance statement of `key`.
spec fn distance_program(key: FfVsKey) -> Seq<Statement> {
    if key.flags.has(FfVsFlags::RANGE_FOG) {
        range_distance_program()
    } else {
        depth_distance_program()
    }
}

/// The factor statements of `key`.
spec fn factor_program(key: FfVsKey) -> Seq<Statement> {
    if key.fog_mode == 1 {
        exponential_fog_program()
    } else if key.fog_mode == 2 {
        squared_fog_program()
    } else {
        linear_fog_program()
    }
}

proof fn distances_are_measured(key: FfVsKey, env: Env)
    requires
        holds_vertex(env),
    ensures
        named(after(distance_program(key), env), "eyeZ"@) == seq![eye_distance(key, env)],
        named(after(distance_program(key), env), "vs_c[8]"@) == named(env, "vs_c[8]"@),
        after(distance_program(key), env).library == env.library,
{
    reveal_with_fuel(after, 2);
    reveal_with_fuel(Expr::value, 4);
    reveal_with_fuel(inner, 5);
    reveal_strlit("xyz");
    reveal_strlit("eyeZ");
    reveal_strlit("vs_c[8]");
    assert("eyeZ"@.len() != "vs_c[8]"@.len());
    let p = distance_program(key);
    assert(p.drop_last() =~= Seq::empty());
    let e = p[0].run(env);
    assert(after(p, env) == e);
    assert(named(e, "eyeZ"@) =~= seq![eye_distance(key, env)]);
}

/// The fog statements of an untransformed vertex give the factor that its mode
/// has at its distance.
pub proof fn vertex_fog_follows_its_mode(key: FfVsKey)
    requires
        !key.flags.has(FfVsFlags::HAS_RHW),
        D3DFOG_EXP <= key.fog_mode <= D3DFOG_LINEAR,
    ensures
        exists|p: Seq<Statement>, q: Seq<Statement>| #[trigger]
            is_program(fog_distance(key), p, Seq::empty(), "    "@) && #[trigger] is_program(
                ff_fog(key),
                q,
                fog_distance(key),
                "    "@,
            ) && forall|env: Env| #[trigger] holds_vertex(env) ==> named(
                after(q, after(p, env)),
                "out.fog"@,
            ) == seq![
                fog_fraction(key.fog_mode, eye_distance(key, env), env),
                whole(0),
                whole(0),
                whole(0),
            ],
{
    let (p, q) = (distance_program(key), factor_program(key));
    if key.flags.has(FfVsFlags::RANGE_FOG) {
        range_distance_is_written(key);
    } else {
        depth_distance_is_written(key);
    }
    exponential_fog_is_written(fog_distance(key));
    squared_fog_is_written(fog_distance(key));
    linear_fog_is_written(fog_distance(key));
    assert(is_program(fog_distance(key), p, Seq::empty(), "    "@));
    assert(is_program(ff_fog(key), q, fog_distance(key), "    "@));
    assert forall|env: Env| #[trigger] holds_vertex(env) implies named(
        after(q, after(p, env)),
        "out.fog"@,
    ) == seq![
        fog_fraction(key.fog_mode, eye_distance(key, env), env),
        whole(0),
        whole(0),
        whole(0),
    ] by {
        distances_are_measured(key, env);
        let e = after(p, env);
        if key.fog_mode == 1 {
            exponential_fog_runs(e);
        } else if key.fog_mode == 2 {
            squared_fog_runs(e);
        } else {
            linear_fog_runs(e);
        }
    }
}

// ---------------------------------------------------------------------------
// Positions
// ---------------------------------------------------------------------------

/// The product of the matrix whose rows start at constant `first` with `v`.
pub open spec fn transformed(env: Env, first: nat, v: Value) -> Value {
    seq![
        row_product(named(env, row(first)), v),
        row_product(named(env, row(first + 1)), v),
        row_product(named(env, row(first + 2)), v),
        row_product(named(env, row(first + 3)), v),
    ]
}

/// The product of a matrix row with a vector.
pub open spec fn row_product(r: Value, v: Value) -> real {
    v[0] * r[0] + v[1] * r[1] + v[2] * r[2] + v[3] * r[3]
}

/// Whether the constants of the two matrices and the vertex are vectors.
pub open spec fn holds_matrices(env: Env) -> bool {
    &&& is_vector(env, "in.v0"@)
    &&& is_vector(env, "pos_fixup"@)
    &&& forall|i: nat| i < 8 ==> is_vector(env, #[trigger] row(i))
}

/// The position of an untransformed vertex in the space of the eye: its position
/// with a fourth lane of one, times the world-view matrix.
pub open spec fn in_eye_space(env: Env) -> Value {
    let v = named(env, "in.v0"@);
    transformed(env, 0, seq![v[0], v[1], v[2], whole(1)])
}

/// The position on the screen: the projection of the position in eye space,
/// shifted by the position fix-up in units of the fourth lane.
pub open spec fn projected(env: Env) -> Value {
    let c = transformed(env, 4, in_eye_space(env));
    let f = named(env, "pos_fixup"@);
    seq![c[0] + f[0] * c[3], c[1] + f[1] * c[3], c[2], c[3]]
}

proof fn rows_are_named()
    ensures
        row(0) == "vs_c[0]"@,
        row(1) == "vs_c[1]"@,
        row(2) == "vs_c[2]"@,
        row(3) == "vs_c[3]"@,
        row(4) == "vs_c[4]"@,
        row(5) == "vs_c[5]"@,
        row(6) == "vs_c[6]"@,
        row(7) == "vs_c[7]"@,
{
    reveal_with_fuel(crate::text::dec, 2);
    reveal_strlit("vs_c[");
    reveal_strlit("]");
    reveal_strlit("0");
    reveal_strlit("vs_c[0]");
    assert(row(0) =~= "vs_c[0]"@);
    reveal_strlit("1");
    reveal_strlit("vs_c[1]");
    assert(row(1) =~= "vs_c[1]"@);
    reveal_strlit("2");
    reveal_strlit("vs_c[2]");
    assert(row(2) =~= "vs_c[2]"@);
    reveal_strlit("3");
    reveal_strlit("vs_c[3]");
    assert(row(3) =~= "vs_c[3]"@);
    reveal_strlit("4");
    reveal_strlit("vs_c[4]");
    assert(row(4) =~= "vs_c[4]"@);
    reveal_strlit("5");
    reveal_strlit("vs_c[5]");
    assert(row(5) =~= "vs_c[5]"@);
    reveal_strlit("6");
    reveal_strlit("vs_c[6]");
    assert(row(6) =~= "vs_c[6]"@);
    reveal_strlit("7");
    reveal_strlit("vs_c[7]");
    assert(row(7) =~= "vs_c[7]"@);
}

spec fn matrix_transform_0() -> Statement {
    Statement::Declare(
        "float4"@,
        "pos"@,
        call_2(Function::Float4, lanes(name("in.v0"@), "xyz"@), number("1.0"@)),
    )
}

spec fn matrix_transform_1() -> Statement {
    Statement::Declare(
        "float4"@,
        "pos_view"@,
        call_4(
            Function::Float4,
            call_2(Function::Dot, name("pos"@), name("vs_c[0]"@)),
            call_2(Function::Dot, name("pos"@), name("vs_c[1]"@)),
            call_2(Function::Dot, name("pos"@), name("vs_c[2]"@)),
            call_2(Function::Dot, name("pos"@), name("vs_c[3]"@)),
        ),
    )
}

spec fn matrix_transform_2() -> Statement {
    Statement::Assign(
        "out.position"@,
        call_4(
            Function::Float4,
            call_2(Function::Dot, name("pos_view"@), name("vs_c[4]"@)),
            call_2(Function::Dot, name("pos_view"@), name("vs_c[5]"@)),
            call_2(Function::Dot, name("pos_view"@), name("vs_c[6]"@)),
            call_2(Function::Dot, name("pos_view"@), name("vs_c[7]"@)),
        ),
    )
}

spec fn matrix_transform_3() -> Statement {
    Statement::IncreaseLanes(
        "out.position"@,
        "x"@,
        infix(Operator::Times, lanes(name("pos_fixup"@), "x"@), lanes(name("out.position"@), "w"@)),
    )
}

spec fn matrix_transform_4() -> Statement {
    Statement::IncreaseLanes(
        "out.position"@,
        "y"@,
        infix(Operator::Times, lanes(name("pos_fixup"@), "y"@), lanes(name("out.position"@), "w"@)),
    )
}

spec fn matrix_transform_program() -> Seq<Statement> {
    seq![
        matrix_transform_0(),
        matrix_transform_1(),
        matrix_transform_2(),
        matrix_transform_3(),
        matrix_transform_4(),
    ]
}

proof fn matrix_transform_line_0(acc: Seq<char>)
    ensures
        acc + "    float4 pos = float4(in.v0.xyz, 1.0);\n"@
            == matrix_transform_0().behind(acc, "    "@),
        matrix_transform_0().is_plain(),
{
    reveal_with_fuel(Expr::behind, 4);
    reveal_with_fuel(Expr::is_plain, 4);
    assert forall|x: Seq<char>| #[trigger] (x + "    float4 pos = float4(in.v0.xyz, 1.0);\n"@) == x
        + "    float4 pos = float4(in.v0."@ + "xyz, 1.0);\n"@ by {
        reveal_strlit("    float4 pos = float4(in.v0.xyz, 1.0);\n");
        reveal_strlit("    float4 pos = float4(in.v0.");
        reveal_strlit("xyz, 1.0);\n");
        assert(x + "    float4 pos = float4(in.v0.xyz, 1.0);\n"@ =~= x
            + "    float4 pos = float4(in.v0."@ + "xyz, 1.0);\n"@);
    }
    assert forall|x: Seq<char>| #[trigger] (x + "    float4 pos = float4(in.v0."@) == x + "    "@
        + "float4"@ + " "@ + "pos"@ + " = "@ + "float4("@ + "in.v0"@ + "."@ by {
        reveal_strlit("    float4 pos = float4(in.v0.");
        reveal_strlit("    ");
        reveal_strlit("float4");
        reveal_strlit(" ");
        reveal_strlit("pos");
        reveal_strlit(" = ");
        reveal_strlit("float4(");
        reveal_strlit("in.v0");
        reveal_strlit(".");
        assert(x + "    float4 pos = float4(in.v0."@ =~= x + "    "@ + "float4"@ + " "@ + "pos"@
            + " = "@ + "float4("@ + "in.v0"@ + "."@);
    }
    assert forall|x: Seq<char>| #[trigger] (x + "xyz, 1.0);\n"@) == x + "xyz"@ + ", "@ + "1.0"@
        + ")"@ + ";\n"@ by {
        reveal_strlit("xyz, 1.0);\n");
        reveal_strlit("xyz");
        reveal_strlit(", ");
        reveal_strlit("1.0");
        reveal_strlit(")");
        reveal_strlit(";\n");
        assert(x + "xyz, 1.0);\n"@ =~= x + "xyz"@ + ", "@ + "1.0"@ + ")"@ + ";\n"@);
    }
}

proof fn matrix_transform_line_1(acc: Seq<char>)
    ensures
        acc
            + "    float4 pos_view = float4(dot(pos, vs_c[0]), dot(pos, vs_c[1]), dot(pos, vs_c[2]), dot(pos, vs_c[3]));\n"@
            == matrix_transform_1().behind(acc, "    "@),
        matrix_transform_1().is_plain(),
{
    reveal_with_fuel(Expr::behind, 4);
    reveal_with_fuel(Expr::is_plain, 4);
    assert forall|x: Seq<char>| #[trigger] (x
        + "    float4 pos_view = float4(dot(pos, vs_c[0]), dot(pos, vs_c[1]), dot(pos, vs_c[2]), dot(pos, vs_c[3]));\n"@)
        == x + "    float4 pos_view = float4(dot(pos"@ + ", vs_c[0]), dot(pos, vs_c[1]"@
        + "), dot(pos, vs_c[2]), "@ + "dot(pos, vs_c[3]));\n"@ by {
        reveal_strlit("    float4 pos_view = float4(dot(pos, vs_c[0]), dot(pos, vs_c[1]), dot(pos, vs_c[2]), dot(pos, vs_c[3]));\n");
        reveal_strlit("    float4 pos_view = float4(dot(pos");
        reveal_strlit(", vs_c[0]), dot(pos, vs_c[1]");
        reveal_strlit("), dot(pos, vs_c[2]), ");
        reveal_strlit("dot(pos, vs_c[3]));\n");
        assert(x
            + "    float4 pos_view = float4(dot(pos, vs_c[0]), dot(pos, vs_c[1]), dot(pos, vs_c[2]), dot(pos, vs_c[3]));\n"@
            =~= x + "    float4 pos_view = float4(dot(pos"@ + ", vs_c[0]), dot(pos, vs_c[1]"@
            + "), dot(pos, vs_c[2]), "@ + "dot(pos, vs_c[3]));\n"@);
    }
    assert forall|x: Seq<char>| #[trigger] (x + "    float4 pos_view = float4(dot(pos"@) == x
        + "    "@ + "float4"@ + " "@ + "pos_view"@ + " = "@ + "float4("@ + "dot("@ + "pos"@ by {
        reveal_strlit("    float4 pos_view = float4(dot(pos");
        reveal_strlit("    ");
        reveal_strlit("float4");
        reveal_strlit(" ");
        reveal_strlit("pos_view");
        reveal_strlit(" = ");
        reveal_strlit("float4(");
        reveal_strlit("dot(");
        reveal_strlit("pos");
        assert(x + "    float4 pos_view = float4(dot(pos"@ =~= x + "    "@ + "float4"@ + " "@
            + "pos_view"@ + " = "@ + "float4("@ + "dot("@ + "pos"@);
    }
    assert forall|x: Seq<char>| #[trigger] (x + ", vs_c[0]), dot(pos, vs_c[1]"@) == x + ", "@
        + "vs_c[0]"@ + ")"@ + ", "@ + "dot("@ + "pos"@ + ", "@ + "vs_c[1]"@ by {
        reveal_strlit(", vs_c[0]), dot(pos, vs_c[1]");
        reveal_strlit(", ");
        reveal_strlit("vs_c[0]");
        reveal_strlit(")");
        reveal_strlit("dot(");
        reveal_strlit("pos");
        reveal_strlit("vs_c[1]");
        assert(x + ", vs_c[0]), dot(pos, vs_c[1]"@ =~= x + ", "@ + "vs_c[0]"@ + ")"@ + ", "@
            + "dot("@ + "pos"@ + ", "@ + "vs_c[1]"@);
    }
    assert forall|x: Seq<char>| #[trigger] (x + "), dot(pos, vs_c[2]), "@) == x + ")"@ + ", "@
        + "dot("@ + "pos"@ + ", "@ + "vs_c[2]"@ + ")"@ + ", "@ by {
        reveal_strlit("), dot(pos, vs_c[2]), ");
        reveal_strlit(")");
        reveal_strlit(", ");
        reveal_strlit("dot(");
        reveal_strlit("pos");
        reveal_strlit("vs_c[2]");
        assert(x + "), dot(pos, vs_c[2]), "@ =~= x + ")"@ + ", "@ + "dot("@ + "pos"@ + ", "@
            + "vs_c[2]"@ + ")"@ + ", "@);
    }
    assert forall|x: Seq<char>| #[trigger] (x + "dot(pos, vs_c[3]));\n"@) == x + "dot("@ + "pos"@
        + ", "@ + "vs_c[3]"@ + ")"@ + ")"@ + ";\n"@ by {
        reveal_strlit("dot(pos, vs_c[3]));\n");
        reveal_strlit("dot(");
        reveal_strlit("pos");
        reveal_strlit(", ");
        reveal_strlit("vs_c[3]");
        reveal_strlit(")");
        reveal_strlit(";\n");
        assert(x + "dot(pos, vs_c[3]));\n"@ =~= x + "dot("@ + "pos"@ + ", "@ + "vs_c[3]"@ + ")"@
            + ")"@ + ";\n"@);
    }
}

proof fn matrix_transform_line_2(acc: Seq<char>)
    ensures
        acc
            + "    out.position = float4(dot(pos_view, vs_c[4]), dot(pos_view, vs_c[5]), dot(pos_view, vs_c[6]), dot(pos_view, vs_c[7]));\n"@
            == matrix_transform_2().behind(acc, "    "@),
        matrix_transform_2().is_plain(),
{
    reveal_with_fuel(Expr::behind, 4);
    reveal_with_fuel(Expr::is_plain, 4);
    assert forall|x: Seq<char>| #[trigger] (x
        + "    out.position = float4(dot(pos_view, vs_c[4]), dot(pos_view, vs_c[5]), dot(pos_view, vs_c[6]), dot(pos_view, vs_c[7]));\n"@)
        == x + "    out.position = float4(dot(pos_view, vs_c[4]"@ + "), dot(pos_view, vs_c[5]), "@
        + "dot(pos_view, vs_c[6]), dot(pos_view"@ + ", vs_c[7]));\n"@ by {
        reveal_strlit("    out.position = float4(dot(pos_view, vs_c[4]), dot(pos_view, vs_c[5]), dot(pos_view, vs_c[6]), dot(pos_view, vs_c[7]));\n");
        reveal_strlit("    out.position = float4(dot(pos_view, vs_c[4]");
        reveal_strlit("), dot(pos_view, vs_c[5]), ");
        reveal_strlit("dot(pos_view, vs_c[6]), dot(pos_view");
        reveal_strlit(", vs_c[7]));\n");
        assert(x
            + "    out.position = float4(dot(pos_view, vs_c[4]), dot(pos_view, vs_c[5]), dot(pos_view, vs_c[6]), dot(pos_view, vs_c[7]));\n"@
            =~= x + "    out.position = float4(dot(pos_view, vs_c[4]"@
            + "), dot(pos_view, vs_c[5]), "@ + "dot(pos_view, vs_c[6]), dot(pos_view"@
            + ", vs_c[7]));\n"@);
    }
    assert forall|x: Seq<char>| #[trigger] (x + "    out.position = float4(dot(pos_view, vs_c[4]"@)
        == x + "    "@ + "out.position"@ + " = "@ + "float4("@ + "dot("@ + "pos_view"@ + ", "@
        + "vs_c[4]"@ by {
        reveal_strlit("    out.position = float4(dot(pos_view, vs_c[4]");
        reveal_strlit("    ");
        reveal_strlit("out.position");
        reveal_strlit(" = ");
        reveal_strlit("float4(");
        reveal_strlit("dot(");
        reveal_strlit("pos_view");
        reveal_strlit(", ");
        reveal_strlit("vs_c[4]");
        assert(x + "    out.position = float4(dot(pos_view, vs_c[4]"@ =~= x + "    "@
            + "out.position"@ + " = "@ + "float4("@ + "dot("@ + "pos_view"@ + ", "@ + "vs_c[4]"@);
    }
    assert forall|x: Seq<char>| #[trigger] (x + "), dot(pos_view, vs_c[5]), "@) == x + ")"@ + ", "@
        + "dot("@ + "pos_view"@ + ", "@ + "vs_c[5]"@ + ")"@ + ", "@ by {
        reveal_strlit("), dot(pos_view, vs_c[5]), ");
        reveal_strlit(")");
        reveal_strlit(", ");
        reveal_strlit("dot(");
        reveal_strlit("pos_view");
        reveal_strlit("vs_c[5]");
        assert(x + "), dot(pos_view, vs_c[5]), "@ =~= x + ")"@ + ", "@ + "dot("@ + "pos_view"@
            + ", "@ + "vs_c[5]"@ + ")"@ + ", "@);
    }
    assert forall|x: Seq<char>| #[trigger] (x + "dot(pos_view, vs_c[6]), dot(pos_view"@) == x
        + "dot("@ + "pos_view"@ + ", "@ + "vs_c[6]"@ + ")"@ + ", "@ + "dot("@ + "pos_view"@ by {
        reveal_strlit("dot(pos_view, vs_c[6]), dot(pos_view");
        reveal_strlit("dot(");
        reveal_strlit("pos_view");
        reveal_strlit(", ");
        reveal_strlit("vs_c[6]");
        reveal_strlit(")");
        assert(x + "dot(pos_view, vs_c[6]), dot(pos_view"@ =~= x + "dot("@ + "pos_view"@ + ", "@
            + "vs_c[6]"@ + ")"@ + ", "@ + "dot("@ + "pos_view"@);
    }
    assert forall|x: Seq<char>| #[trigger] (x + ", vs_c[7]));\n"@) == x + ", "@ + "vs_c[7]"@ + ")"@
        + ")"@ + ";\n"@ by {
        reveal_strlit(", vs_c[7]));\n");
        reveal_strlit(", ");
        reveal_strlit("vs_c[7]");
        reveal_strlit(")");
        reveal_strlit(";\n");
        assert(x + ", vs_c[7]));\n"@ =~= x + ", "@ + "vs_c[7]"@ + ")"@ + ")"@ + ";\n"@);
    }
}

proof fn matrix_transform_line_3(acc: Seq<char>)
    ensures
        acc + "    out.position.x += pos_fixup.x * out.position.w;\n"@
            == matrix_transform_3().behind(acc, "    "@),
        matrix_transform_3().is_plain(),
{
    reveal_with_fuel(Expr::behind, 4);
    reveal_with_fuel(Expr::is_plain, 4);
    assert forall|x: Seq<char>| #[trigger] (x
        + "    out.position.x += pos_fixup.x * out.position.w;\n"@) == x
        + "    out.position.x += pos_fixup.x"@ + " * out.position.w;\n"@ by {
        reveal_strlit("    out.position.x += pos_fixup.x * out.position.w;\n");
        reveal_strlit("    out.position.x += pos_fixup.x");
        reveal_strlit(" * out.position.w;\n");
        assert(x + "    out.position.x += pos_fixup.x * out.position.w;\n"@ =~= x
            + "    out.position.x += pos_fixup.x"@ + " * out.position.w;\n"@);
    }
    assert forall|x: Seq<char>| #[trigger] (x + "    out.position.x += pos_fixup.x"@) == x + "    "@
        + "out.position"@ + "."@ + "x"@ + " += "@ + "pos_fixup"@ + "."@ + "x"@ by {
        reveal_strlit("    out.position.x += pos_fixup.x");
        reveal_strlit("    ");
        reveal_strlit("out.position");
        reveal_strlit(".");
        reveal_strlit("x");
        reveal_strlit(" += ");
        reveal_strlit("pos_fixup");
        assert(x + "    out.position.x += pos_fixup.x"@ =~= x + "    "@ + "out.position"@ + "."@
            + "x"@ + " += "@ + "pos_fixup"@ + "."@ + "x"@);
    }
    assert forall|x: Seq<char>| #[trigger] (x + " * out.position.w;\n"@) == x + " * "@
        + "out.position"@ + "."@ + "w"@ + ";\n"@ by {
        reveal_strlit(" * out.position.w;\n");
        reveal_strlit(" * ");
        reveal_strlit("out.position");
        reveal_strlit(".");
        reveal_strlit("w");
        reveal_strlit(";\n");
        assert(x + " * out.position.w;\n"@ =~= x + " * "@ + "out.position"@ + "."@ + "w"@ + ";\n"@);
    }
}

proof fn matrix_transform_line_4(acc: Seq<char>)
    ensures
        acc + "    out.position.y += pos_fixup.y * out.position.w;\n"@
            == matrix_transform_4().behind(acc, "    "@),
        matrix_transform_4().is_plain(),
{
    reveal_with_fuel(Expr::behind, 4);
    reveal_with_fuel(Expr::is_plain, 4);
    assert forall|x: Seq<char>| #[trigger] (x
        + "    out.position.y += pos_fixup.y * out.position.w;\n"@) == x
        + "    out.position.y += pos_fixup.y"@ + " * out.position.w;\n"@ by {
        reveal_strlit("    out.position.y += pos_fixup.y * out.position.w;\n");
        reveal_strlit("    out.position.y += pos_fixup.y");
        reveal_strlit(" * out.position.w;\n");
        assert(x + "    out.position.y += pos_fixup.y * out.position.w;\n"@ =~= x
            + "    out.position.y += pos_fixup.y"@ + " * out.position.w;\n"@);
    }
    assert forall|x: Seq<char>| #[trigger] (x + "    out.position.y += pos_fixup.y"@) == x + "    "@
        + "out.position"@ + "."@ + "y"@ + " += "@ + "pos_fixup"@ + "."@ + "y"@ by {
        reveal_strlit("    out.position.y += pos_fixup.y");
        reveal_strlit("    ");
        reveal_strlit("out.position");
        reveal_strlit(".");
        reveal_strlit("y");
        reveal_strlit(" += ");
        reveal_strlit("pos_fixup");
        assert(x + "    out.position.y += pos_fixup.y"@ =~= x + "    "@ + "out.position"@ + "."@
            + "y"@ + " += "@ + "pos_fixup"@ + "."@ + "y"@);
    }
    assert forall|x: Seq<char>| #[trigger] (x + " * out.position.w;\n"@) == x + " * "@
        + "out.position"@ + "."@ + "w"@ + ";\n"@ by {
        reveal_strlit(" * out.position.w;\n");
        reveal_strlit(" * ");
        reveal_strlit("out.position");
        reveal_strlit(".");
        reveal_strlit("w");
        reveal_strlit(";\n");
        assert(x + " * out.position.w;\n"@ =~= x + " * "@ + "out.position"@ + "."@ + "w"@ + ";\n"@);
    }
}

proof fn matrix_transform_is_written(key: FfVsKey)
    requires
        key.vertex_blend_count == 0,
    ensures
        is_program(transformed_position(key), matrix_transform_program(), Seq::empty(), "    "@),
{
    reveal_with_fuel(lines, 6);
    let p5 = matrix_transform_program();
    let p4 = seq![p5[0], p5[1], p5[2], p5[3]];
    assert(p5.drop_last() =~= p4);
    let p3 = seq![p5[0], p5[1], p5[2]];
    assert(p4.drop_last() =~= p3);
    let p2 = seq![p5[0], p5[1]];
    assert(p3.drop_last() =~= p2);
    let p1 = seq![p5[0]];
    assert(p2.drop_last() =~= p1);
    assert(p1.drop_last() =~= Seq::empty());
    let a0 = Seq::<char>::empty();
    assert(a0 + "    float4 pos = float4(in.v0.xyz, 1.0);\n"@
        =~= "    float4 pos = float4(in.v0.xyz, 1.0);\n"@);
    matrix_transform_line_0(a0);
    let a1 = a0 + "    float4 pos = float4(in.v0.xyz, 1.0);\n"@;
    assert(lines(p1, a0, "    "@) == a1);
    matrix_transform_line_1(a1);
    let a2 = a1
        + "    float4 pos_view = float4(dot(pos, vs_c[0]), dot(pos, vs_c[1]), dot(pos, vs_c[2]), dot(pos, vs_c[3]));\n"@;
    assert(lines(p2, a0, "    "@) == a2);
    matrix_transform_line_2(a2);
    let a3 = a2
        + "    out.position = float4(dot(pos_view, vs_c[4]), dot(pos_view, vs_c[5]), dot(pos_view, vs_c[6]), dot(pos_view, vs_c[7]));\n"@;
    assert(lines(p3, a0, "    "@) == a3);
    matrix_transform_line_3(a3);
    let a4 = a3 + "    out.position.x += pos_fixup.x * out.position.w;\n"@;
    assert(lines(p4, a0, "    "@) == a4);
    matrix_transform_line_4(a4);
    let a5 = a4 + "    out.position.y += pos_fixup.y * out.position.w;\n"@;
    assert(lines(p5, a0, "    "@) == a5);
}

#[verifier::rlimit(50)]
proof fn matrix_transform_runs(env: Env)
    requires
        holds_matrices(env),
    ensures
        named(after(matrix_transform_program(), env), "pos_view"@) == in_eye_space(env),
        named(after(matrix_transform_program(), env), "out.position"@) == projected(env),
{
    reveal_with_fuel(after, 6);
    reveal_with_fuel(Expr::value, 4);
    reveal_with_fuel(inner, 5);
    reveal_with_fuel(assigned, 5);
    numerals();
    reveal_strlit("w");
    reveal_strlit("x");
    reveal_strlit("xyz");
    reveal_strlit("y");
    reveal_strlit("in.v0");
    reveal_strlit("out.position");
    reveal_strlit("pos");
    reveal_strlit("pos_fixup");
    reveal_strlit("pos_view");
    reveal_strlit("vs_c[0]");
    reveal_strlit("vs_c[1]");
    reveal_strlit("vs_c[2]");
    reveal_strlit("vs_c[3]");
    reveal_strlit("vs_c[4]");
    reveal_strlit("vs_c[5]");
    reveal_strlit("vs_c[6]");
    reveal_strlit("vs_c[7]");
    assert("pos"@.len() != "in.v0"@.len());
    assert("pos"@.len() != "out.position"@.len());
    assert("pos"@.len() != "pos_fixup"@.len());
    assert("pos"@.len() != "pos_view"@.len());
    assert("pos"@.len() != "vs_c[0]"@.len());
    assert("pos"@.len() != "vs_c[1]"@.len());
    assert("pos"@.len() != "vs_c[2]"@.len());
    assert("pos"@.len() != "vs_c[3]"@.len());
    assert("pos"@.len() != "vs_c[4]"@.len());
    assert("pos"@.len() != "vs_c[5]"@.len());
    assert("pos"@.len() != "vs_c[6]"@.len());
    assert("pos"@.len() != "vs_c[7]"@.len());
    assert("pos_view"@.len() != "in.v0"@.len());
    assert("pos_view"@.len() != "out.position"@.len());
    assert("pos_view"@.len() != "pos_fixup"@.len());
    assert("pos_view"@.len() != "vs_c[0]"@.len());
    assert("pos_view"@.len() != "vs_c[1]"@.len());
    assert("pos_view"@.len() != "vs_c[2]"@.len());
    assert("pos_view"@.len() != "vs_c[3]"@.len());
    assert("pos_view"@.len() != "vs_c[4]"@.len());
    assert("pos_view"@.len() != "vs_c[5]"@.len());
    assert("pos_view"@.len() != "vs_c[6]"@.len());
    assert("pos_view"@.len() != "vs_c[7]"@.len());
    assert("out.position"@.len() != "in.v0"@.len());
    assert("out.position"@.len() != "pos_fixup"@.len());
    assert("out.position"@.len() != "vs_c[0]"@.len());
    assert("out.position"@.len() != "vs_c[1]"@.len());
    assert("out.position"@.len() != "vs_c[2]"@.len());
    assert("out.position"@.len() != "vs_c[3]"@.len());
    assert("out.position"@.len() != "vs_c[4]"@.len());
    assert("out.position"@.len() != "vs_c[5]"@.len());
    assert("out.position"@.len() != "vs_c[6]"@.len());
    assert("out.position"@.len() != "vs_c[7]"@.len());
    rows_are_named();
    assert forall|i: nat| i < 8 implies is_vector(env, #[trigger] row(i)) by {}
    assert(is_vector(env, row(0)) && is_vector(env, row(1)) && is_vector(env, row(2)) && is_vector(
        env,
        row(3),
    ));
    assert(is_vector(env, row(4)) && is_vector(env, row(5)) && is_vector(env, row(6)) && is_vector(
        env,
        row(7),
    ));
    let v = named(env, "in.v0"@);
    let f = named(env, "pos_fixup"@);
    let c = transformed(env, 4, in_eye_space(env));
    let p5 = matrix_transform_program();
    let p4 = seq![p5[0], p5[1], p5[2], p5[3]];
    assert(p5.drop_last() =~= p4);
    let p3 = seq![p5[0], p5[1], p5[2]];
    assert(p4.drop_last() =~= p3);
    let p2 = seq![p5[0], p5[1]];
    assert(p3.drop_last() =~= p2);
    let p1 = seq![p5[0]];
    assert(p2.drop_last() =~= p1);
    assert(p1.drop_last() =~= Seq::empty());
    let e0 = env;
    let e1 = p5[0].run(e0);
    assert(named(e1, "pos"@) =~= seq![v[0], v[1], v[2], whole(1)]);
    assert(named(e1, "pos_fixup"@) == named(env, "pos_fixup"@));
    assert(named(e1, "vs_c[0]"@) == named(env, "vs_c[0]"@));
    assert(named(e1, "vs_c[1]"@) == named(env, "vs_c[1]"@));
    assert(named(e1, "vs_c[2]"@) == named(env, "vs_c[2]"@));
    assert(named(e1, "vs_c[3]"@) == named(env, "vs_c[3]"@));
    assert(named(e1, "vs_c[4]"@) == named(env, "vs_c[4]"@));
    assert(named(e1, "vs_c[5]"@) == named(env, "vs_c[5]"@));
    assert(named(e1, "vs_c[6]"@) == named(env, "vs_c[6]"@));
    assert(named(e1, "vs_c[7]"@) == named(env, "vs_c[7]"@));
    let e2 = p5[1].run(e1);
    assert(named(e2, "pos_view"@) =~= in_eye_space(env));
    assert(named(e2, "pos_fixup"@) == named(env, "pos_fixup"@));
    assert(named(e2, "vs_c[4]"@) == named(env, "vs_c[4]"@));
    assert(named(e2, "vs_c[5]"@) == named(env, "vs_c[5]"@));
    assert(named(e2, "vs_c[6]"@) == named(env, "vs_c[6]"@));
    assert(named(e2, "vs_c[7]"@) == named(env, "vs_c[7]"@));
    let e3 = p5[2].run(e2);
    assert(named(e3, "out.position"@) =~= c);
    assert(named(e3, "pos_view"@) == in_eye_space(env));
    assert(named(e3, "pos_fixup"@) == named(env, "pos_fixup"@));
    let e4 = p5[3].run(e3);
    assert(named(e4, "out.position"@) =~= seq![c[0] + f[0] * c[3], c[1], c[2], c[3]]);
    assert(named(e4, "pos_view"@) == in_eye_space(env));
    assert(named(e4, "pos_fixup"@) == named(env, "pos_fixup"@));
    let e5 = p5[4].run(e4);
    assert(named(e5, "out.position"@) =~= projected(env));
    assert(named(e5, "pos_view"@) == in_eye_space(env));
    assert(after(p5, env) == e5);
}

/// A vertex that is not blended is multiplied with the world-view matrix and then
/// with the projection.
pub proof fn vertices_are_projected(key: FfVsKey)
    requires
        key.vertex_blend_count == 0,
    ensures
        exists|p: Seq<Statement>| #[trigger]
            is_program(transformed_position(key), p, Seq::empty(), "    "@) && forall|env: Env|
                #[trigger] holds_matrices(env) ==> named(after(p, env), "pos_view"@)
                == in_eye_space(env) && named(after(p, env), "out.position"@) == projected(env),
{
    let p = matrix_transform_program();
    matrix_transform_is_written(key);
    assert forall|env: Env| #[trigger] holds_matrices(env) implies named(
        after(p, env),
        "pos_view"@,
    ) == in_eye_space(env) && named(after(p, env), "out.position"@) == projected(env) by {
        matrix_transform_runs(env);
    }
}

/// Whether the constant that holds the viewport and the vertex are vectors, and
/// the viewport is not empty.
pub open spec fn holds_viewport(env: Env) -> bool {
    is_vector(env, "in.v0"@) && is_vector(env, "vs_c[0]"@) && named(env, "vs_c[0]"@)[0] != whole(0)
        && named(env, "vs_c[0]"@)[1] != whole(0)
}

/// The fourth lane of the position: the reciprocal of that of the vertex, and one
/// where that is zero.
pub open spec fn window_depth_scale(env: Env) -> real {
    let v = named(env, "in.v0"@);
    if v[3] != whole(0) {
        whole(1) / v[3]
    } else {
        whole(1)
    }
}

/// The position whose quotient by its fourth lane is the centre of the pixel that
/// the vertex names, in a viewport that spans minus one to one, with y upwards.
pub open spec fn unprojected(env: Env) -> Value {
    let v = named(env, "in.v0"@);
    let k = named(env, "vs_c[0]"@);
    let half = whole(1) / whole(2);
    let w = window_depth_scale(env);
    let x = whole(2) * ((v[0] + half - k[2]) / k[0]) - whole(1);
    let y = whole(1) - whole(2) * ((v[1] + half - k[3]) / k[1]);
    seq![x * w, y * w, v[2] * w, w]
}

proof fn centres_are_half_a_pixel_away(a: real, w: real)
    requires
        w != whole(0),
    ensures
        (a / w) * whole(2) + whole(1) / w == whole(2) * ((a + whole(1) / whole(2)) / w),
{
    let q = a / w;
    let r = whole(1) / w;
    let t = (a + whole(1) / whole(2)) / w;
    assert(q * w == a) by (nonlinear_arith)
        requires
            q == a / w,
            w != whole(0),
    ;
    assert(r * w == whole(1)) by (nonlinear_arith)
        requires
            r == whole(1) / w,
            w != whole(0),
    ;
    assert(t * w == a + whole(1) / whole(2)) by (nonlinear_arith)
        requires
            t == (a + whole(1) / whole(2)) / w,
            w != whole(0),
    ;
    assert((q * whole(2) + r - whole(2) * t) * w == whole(0)) by (nonlinear_arith)
        requires
            q * w == a,
            r * w == whole(1),
            t * w == a + whole(1) / whole(2),
    ;
    let z = q * whole(2) + r - whole(2) * t;
    assert(z == whole(0)) by (nonlinear_arith)
        requires
            z * w == whole(0),
            w != whole(0),
    ;
}

spec fn window_transform_0() -> Statement {
    Statement::Declare("float2"@, "vp"@, lanes(name("vs_c[0]"@), "xy"@))
}

spec fn window_transform_1() -> Statement {
    Statement::Declare("float2"@, "vp_origin"@, lanes(name("vs_c[0]"@), "zw"@))
}

spec fn window_transform_2() -> Statement {
    Statement::Declare(
        "float"@,
        "w"@,
        choice(
            infix(Operator::Other, lanes(name("in.v0"@), "w"@), number("0.0"@)),
            infix(Operator::Over, number("1.0"@), lanes(name("in.v0"@), "w"@)),
            number("1.0"@),
        ),
    )
}

spec fn window_transform_3() -> Statement {
    Statement::Declare(
        "float"@,
        "ndc_x"@,
        infix(
            Operator::Plus,
            infix(
                Operator::Minus,
                infix(
                    Operator::Times,
                    group(
                        infix(
                            Operator::Over,
                            group(
                                infix(
                                    Operator::Minus,
                                    lanes(name("in.v0"@), "x"@),
                                    lanes(name("vp_origin"@), "x"@),
                                ),
                            ),
                            lanes(name("vp"@), "x"@),
                        ),
                    ),
                    number("2.0"@),
                ),
                number("1.0"@),
            ),
            infix(Operator::Over, number("1.0"@), lanes(name("vp"@), "x"@)),
        ),
    )
}

spec fn window_transform_4() -> Statement {
    Statement::Declare(
        "float"@,
        "ndc_y"@,
        infix(
            Operator::Minus,
            infix(
                Operator::Minus,
                number("1.0"@),
                infix(
                    Operator::Times,
                    group(
                        infix(
                            Operator::Over,
                            group(
                                infix(
                                    Operator::Minus,
                                    lanes(name("in.v0"@), "y"@),
                                    lanes(name("vp_origin"@), "y"@),
                                ),
                            ),
                            lanes(name("vp"@), "y"@),
                        ),
                    ),
                    number("2.0"@),
                ),
            ),
            infix(Operator::Over, number("1.0"@), lanes(name("vp"@), "y"@)),
        ),
    )
}

spec fn window_transform_5() -> Statement {
    Statement::Assign(
        "out.position"@,
        call_4(
            Function::Float4,
            infix(Operator::Times, name("ndc_x"@), name("w"@)),
            infix(Operator::Times, name("ndc_y"@), name("w"@)),
            infix(Operator::Times, lanes(name("in.v0"@), "z"@), name("w"@)),
            name("w"@),
        ),
    )
}

spec fn window_transform_program() -> Seq<Statement> {
    seq![
        window_transform_0(),
        window_transform_1(),
        window_transform_2(),
        window_transform_3(),
        window_transform_4(),
        window_transform_5(),
    ]
}

proof fn window_transform_line_0(acc: Seq<char>)
    ensures
        acc + "    float2 vp = vs_c[0].xy;\n"@ == window_transform_0().behind(acc, "    "@),
        window_transform_0().is_plain(),
{
    reveal_with_fuel(Expr::behind, 3);
    reveal_with_fuel(Expr::is_plain, 3);
    assert forall|x: Seq<char>| #[trigger] (x + "    float2 vp = vs_c[0].xy;\n"@) == x + "    "@
        + "float2"@ + " "@ + "vp"@ + " = "@ + "vs_c[0]"@ + "."@ + "xy"@ + ";\n"@ by {
        reveal_strlit("    float2 vp = vs_c[0].xy;\n");
        reveal_strlit("    ");
        reveal_strlit("float2");
        reveal_strlit(" ");
        reveal_strlit("vp");
        reveal_strlit(" = ");
        reveal_strlit("vs_c[0]");
        reveal_strlit(".");
        reveal_strlit("xy");
        reveal_strlit(";\n");
        assert(x + "    float2 vp = vs_c[0].xy;\n"@ =~= x + "    "@ + "float2"@ + " "@ + "vp"@
            + " = "@ + "vs_c[0]"@ + "."@ + "xy"@ + ";\n"@);
    }
}

proof fn window_transform_line_1(acc: Seq<char>)
    ensures
        acc + "    float2 vp_origin = vs_c[0].zw;\n"@ == window_transform_1().behind(acc, "    "@),
        window_transform_1().is_plain(),
{
    reveal_with_fuel(Expr::behind, 3);
    reveal_with_fuel(Expr::is_plain, 3);
    assert forall|x: Seq<char>| #[trigger] (x + "    float2 vp_origin = vs_c[0].zw;\n"@) == x
        + "    "@ + "float2"@ + " "@ + "vp_origin"@ + " = "@ + "vs_c[0]"@ + "."@ + "zw"@
        + ";\n"@ by {
        reveal_strlit("    float2 vp_origin = vs_c[0].zw;\n");
        reveal_strlit("    ");
        reveal_strlit("float2");
        reveal_strlit(" ");
        reveal_strlit("vp_origin");
        reveal_strlit(" = ");
        reveal_strlit("vs_c[0]");
        reveal_strlit(".");
        reveal_strlit("zw");
        reveal_strlit(";\n");
        assert(x + "    float2 vp_origin = vs_c[0].zw;\n"@ =~= x + "    "@ + "float2"@ + " "@
            + "vp_origin"@ + " = "@ + "vs_c[0]"@ + "."@ + "zw"@ + ";\n"@);
    }
}

proof fn window_transform_line_2(acc: Seq<char>)
    ensures
        acc + "    float w = in.v0.w != 0.0 ? 1.0 / in.v0.w : 1.0;\n"@
            == window_transform_2().behind(acc, "    "@),
        window_transform_2().is_plain(),
{
    reveal_with_fuel(Expr::behind, 5);
    reveal_with_fuel(Expr::is_plain, 5);
    assert forall|x: Seq<char>| #[trigger] (x
        + "    float w = in.v0.w != 0.0 ? 1.0 / in.v0.w : 1.0;\n"@) == x + "    float w = in.v0.w"@
        + " != 0.0 ? 1.0 / in.v0.w"@ + " : 1.0;\n"@ by {
        reveal_strlit("    float w = in.v0.w != 0.0 ? 1.0 / in.v0.w : 1.0;\n");
        reveal_strlit("    float w = in.v0.w");
        reveal_strlit(" != 0.0 ? 1.0 / in.v0.w");
        reveal_strlit(" : 1.0;\n");
        assert(x + "    float w = in.v0.w != 0.0 ? 1.0 / in.v0.w : 1.0;\n"@ =~= x
            + "    float w = in.v0.w"@ + " != 0.0 ? 1.0 / in.v0.w"@ + " : 1.0;\n"@);
    }
    assert forall|x: Seq<char>| #[trigger] (x + "    float w = in.v0.w"@) == x + "    "@ + "float"@
        + " "@ + "w"@ + " = "@ + "in.v0"@ + "."@ + "w"@ by {
        reveal_strlit("    float w = in.v0.w");
        reveal_strlit("    ");
        reveal_strlit("float");
        reveal_strlit(" ");
        reveal_strlit("w");
        reveal_strlit(" = ");
        reveal_strlit("in.v0");
        reveal_strlit(".");
        assert(x + "    float w = in.v0.w"@ =~= x + "    "@ + "float"@ + " "@ + "w"@ + " = "@
            + "in.v0"@ + "."@ + "w"@);
    }
    assert forall|x: Seq<char>| #[trigger] (x + " != 0.0 ? 1.0 / in.v0.w"@) == x + " != "@ + "0.0"@
        + " ? "@ + "1.0"@ + " / "@ + "in.v0"@ + "."@ + "w"@ by {
        reveal_strlit(" != 0.0 ? 1.0 / in.v0.w");
        reveal_strlit(" != ");
        reveal_strlit("0.0");
        reveal_strlit(" ? ");
        reveal_strlit("1.0");
        reveal_strlit(" / ");
        reveal_strlit("in.v0");
        reveal_strlit(".");
        reveal_strlit("w");
        assert(x + " != 0.0 ? 1.0 / in.v0.w"@ =~= x + " != "@ + "0.0"@ + " ? "@ + "1.0"@ + " / "@
            + "in.v0"@ + "."@ + "w"@);
    }
    assert forall|x: Seq<char>| #[trigger] (x + " : 1.0;\n"@) == x + " : "@ + "1.0"@ + ";\n"@ by {
        reveal_strlit(" : 1.0;\n");
        reveal_strlit(" : ");
        reveal_strlit("1.0");
        reveal_strlit(";\n");
        assert(x + " : 1.0;\n"@ =~= x + " : "@ + "1.0"@ + ";\n"@);
    }
}

proof fn window_transform_line_3(acc: Seq<char>)
    ensures
        acc + "    float ndc_x = ((in.v0.x - vp_origin.x) / vp.x) * 2.0 - 1.0 + 1.0 / vp.x;\n"@
            == window_transform_3().behind(acc, "    "@),
        window_transform_3().is_plain(),
{
    reveal_with_fuel(Expr::behind, 10);
    reveal_with_fuel(Expr::is_plain, 10);
    assert forall|x: Seq<char>| #[trigger] (x
        + "    float ndc_x = ((in.v0.x - vp_origin.x) / vp.x) * 2.0 - 1.0 + 1.0 / vp.x;\n"@) == x
        + "    float ndc_x = ((in.v0"@ + ".x - vp_origin.x) / "@ + "vp.x) * 2.0 - 1.0"@
        + " + 1.0 / vp.x;\n"@ by {
        reveal_strlit("    float ndc_x = ((in.v0.x - vp_origin.x) / vp.x) * 2.0 - 1.0 + 1.0 / vp.x;\n");
        reveal_strlit("    float ndc_x = ((in.v0");
        reveal_strlit(".x - vp_origin.x) / ");
        reveal_strlit("vp.x) * 2.0 - 1.0");
        reveal_strlit(" + 1.0 / vp.x;\n");
        assert(x + "    float ndc_x = ((in.v0.x - vp_origin.x) / vp.x) * 2.0 - 1.0 + 1.0 / vp.x;\n"@
            =~= x + "    float ndc_x = ((in.v0"@ + ".x - vp_origin.x) / "@ + "vp.x) * 2.0 - 1.0"@
            + " + 1.0 / vp.x;\n"@);
    }
    assert forall|x: Seq<char>| #[trigger] (x + "    float ndc_x = ((in.v0"@) == x + "    "@
        + "float"@ + " "@ + "ndc_x"@ + " = "@ + "("@ + "("@ + "in.v0"@ by {
        reveal_strlit("    float ndc_x = ((in.v0");
        reveal_strlit("    ");
        reveal_strlit("float");
        reveal_strlit(" ");
        reveal_strlit("ndc_x");
        reveal_strlit(" = ");
        reveal_strlit("(");
        reveal_strlit("in.v0");
        assert(x + "    float ndc_x = ((in.v0"@ =~= x + "    "@ + "float"@ + " "@ + "ndc_x"@
            + " = "@ + "("@ + "("@ + "in.v0"@);
    }
    assert forall|x: Seq<char>| #[trigger] (x + ".x - vp_origin.x) / "@) == x + "."@ + "x"@ + " - "@
        + "vp_origin"@ + "."@ + "x"@ + ")"@ + " / "@ by {
        reveal_strlit(".x - vp_origin.x) / ");
        reveal_strlit(".");
        reveal_strlit("x");
        reveal_strlit(" - ");
        reveal_strlit("vp_origin");
        reveal_strlit(")");
        reveal_strlit(" / ");
        assert(x + ".x - vp_origin.x) / "@ =~= x + "."@ + "x"@ + " - "@ + "vp_origin"@ + "."@ + "x"@
            + ")"@ + " / "@);
    }
    assert forall|x: Seq<char>| #[trigger] (x + "vp.x) * 2.0 - 1.0"@) == x + "vp"@ + "."@ + "x"@
        + ")"@ + " * "@ + "2.0"@ + " - "@ + "1.0"@ by {
        reveal_strlit("vp.x) * 2.0 - 1.0");
        reveal_strlit("vp");
        reveal_strlit(".");
        reveal_strlit("x");
        reveal_strlit(")");
        reveal_strlit(" * ");
        reveal_strlit("2.0");
        reveal_strlit(" - ");
        reveal_strlit("1.0");
        assert(x + "vp.x) * 2.0 - 1.0"@ =~= x + "vp"@ + "."@ + "x"@ + ")"@ + " * "@ + "2.0"@
            + " - "@ + "1.0"@);
    }
    assert forall|x: Seq<char>| #[trigger] (x + " + 1.0 / vp.x;\n"@) == x + " + "@ + "1.0"@ + " / "@
        + "vp"@ + "."@ + "x"@ + ";\n"@ by {
        reveal_strlit(" + 1.0 / vp.x;\n");
        reveal_strlit(" + ");
        reveal_strlit("1.0");
        reveal_strlit(" / ");
        reveal_strlit("vp");
        reveal_strlit(".");
        reveal_strlit("x");
        reveal_strlit(";\n");
        assert(x + " + 1.0 / vp.x;\n"@ =~= x + " + "@ + "1.0"@ + " / "@ + "vp"@ + "."@ + "x"@
            + ";\n"@);
    }
}

proof fn window_transform_line_4(acc: Seq<char>)
    ensures
        acc + "    float ndc_y = 1.0 - ((in.v0.y - vp_origin.y) / vp.y) * 2.0 - 1.0 / vp.y;\n"@
            == window_transform_4().behind(acc, "    "@),
        window_transform_4().is_plain(),
{
    reveal_with_fuel(Expr::behind, 10);
    reveal_with_fuel(Expr::is_plain, 10);
    assert forall|x: Seq<char>| #[trigger] (x
        + "    float ndc_y = 1.0 - ((in.v0.y - vp_origin.y) / vp.y) * 2.0 - 1.0 / vp.y;\n"@) == x
        + "    float ndc_y = 1.0 - ("@ + "(in.v0.y - vp_origin.y"@ + ") / vp.y) * 2.0"@
        + " - 1.0 / vp.y;\n"@ by {
        reveal_strlit("    float ndc_y = 1.0 - ((in.v0.y - vp_origin.y) / vp.y) * 2.0 - 1.0 / vp.y;\n");
        reveal_strlit("    float ndc_y = 1.0 - (");
        reveal_strlit("(in.v0.y - vp_origin.y");
        reveal_strlit(") / vp.y) * 2.0");
        reveal_strlit(" - 1.0 / vp.y;\n");
        assert(x + "    float ndc_y = 1.0 - ((in.v0.y - vp_origin.y) / vp.y) * 2.0 - 1.0 / vp.y;\n"@
            =~= x + "    float ndc_y = 1.0 - ("@ + "(in.v0.y - vp_origin.y"@ + ") / vp.y) * 2.0"@
            + " - 1.0 / vp.y;\n"@);
    }
    assert forall|x: Seq<char>| #[trigger] (x + "    float ndc_y = 1.0 - ("@) == x + "    "@
        + "float"@ + " "@ + "ndc_y"@ + " = "@ + "1.0"@ + " - "@ + "("@ by {
        reveal_strlit("    float ndc_y = 1.0 - (");
        reveal_strlit("    ");
        reveal_strlit("float");
        reveal_strlit(" ");
        reveal_strlit("ndc_y");
        reveal_strlit(" = ");
        reveal_strlit("1.0");
        reveal_strlit(" - ");
        reveal_strlit("(");
        assert(x + "    float ndc_y = 1.0 - ("@ =~= x + "    "@ + "float"@ + " "@ + "ndc_y"@
            + " = "@ + "1.0"@ + " - "@ + "("@);
    }
    assert forall|x: Seq<char>| #[trigger] (x + "(in.v0.y - vp_origin.y"@) == x + "("@ + "in.v0"@
        + "."@ + "y"@ + " - "@ + "vp_origin"@ + "."@ + "y"@ by {
        reveal_strlit("(in.v0.y - vp_origin.y");
        reveal_strlit("(");
        reveal_strlit("in.v0");
        reveal_strlit(".");
        reveal_strlit("y");
        reveal_strlit(" - ");
        reveal_strlit("vp_origin");
        assert(x + "(in.v0.y - vp_origin.y"@ =~= x + "("@ + "in.v0"@ + "."@ + "y"@ + " - "@
            + "vp_origin"@ + "."@ + "y"@);
    }
    assert forall|x: Seq<char>| #[trigger] (x + ") / vp.y) * 2.0"@) == x + ")"@ + " / "@ + "vp"@
        + "."@ + "y"@ + ")"@ + " * "@ + "2.0"@ by {
        reveal_strlit(") / vp.y) * 2.0");
        reveal_strlit(")");
        reveal_strlit(" / ");
        reveal_strlit("vp");
        reveal_strlit(".");
        reveal_strlit("y");
        reveal_strlit(" * ");
        reveal_strlit("2.0");
        assert(x + ") / vp.y) * 2.0"@ =~= x + ")"@ + " / "@ + "vp"@ + "."@ + "y"@ + ")"@ + " * "@
            + "2.0"@);
    }
    assert forall|x: Seq<char>| #[trigger] (x + " - 1.0 / vp.y;\n"@) == x + " - "@ + "1.0"@ + " / "@
        + "vp"@ + "."@ + "y"@ + ";\n"@ by {
        reveal_strlit(" - 1.0 / vp.y;\n");
        reveal_strlit(" - ");
        reveal_strlit("1.0");
        reveal_strlit(" / ");
        reveal_strlit("vp");
        reveal_strlit(".");
        reveal_strlit("y");
        reveal_strlit(";\n");
        assert(x + " - 1.0 / vp.y;\n"@ =~= x + " - "@ + "1.0"@ + " / "@ + "vp"@ + "."@ + "y"@
            + ";\n"@);
    }
}

proof fn window_transform_line_5(acc: Seq<char>)
    ensures
        acc + "    out.position = float4(ndc_x * w, ndc_y * w, in.v0.z * w, w);\n"@
            == window_transform_5().behind(acc, "    "@),
        window_transform_5().is_plain(),
{
    reveal_with_fuel(Expr::behind, 5);
    reveal_with_fuel(Expr::is_plain, 5);
    assert forall|x: Seq<char>| #[trigger] (x
        + "    out.position = float4(ndc_x * w, ndc_y * w, in.v0.z * w, w);\n"@) == x
        + "    out.position = float4(ndc_x * w, "@ + "ndc_y * w, in.v0.z * "@ + "w, w);\n"@ by {
        reveal_strlit("    out.position = float4(ndc_x * w, ndc_y * w, in.v0.z * w, w);\n");
        reveal_strlit("    out.position = float4(ndc_x * w, ");
        reveal_strlit("ndc_y * w, in.v0.z * ");
        reveal_strlit("w, w);\n");
        assert(x + "    out.position = float4(ndc_x * w, ndc_y * w, in.v0.z * w, w);\n"@ =~= x
            + "    out.position = float4(ndc_x * w, "@ + "ndc_y * w, in.v0.z * "@ + "w, w);\n"@);
    }
    assert forall|x: Seq<char>| #[trigger] (x + "    out.position = float4(ndc_x * w, "@) == x
        + "    "@ + "out.position"@ + " = "@ + "float4("@ + "ndc_x"@ + " * "@ + "w"@ + ", "@ by {
        reveal_strlit("    out.position = float4(ndc_x * w, ");
        reveal_strlit("    ");
        reveal_strlit("out.position");
        reveal_strlit(" = ");
        reveal_strlit("float4(");
        reveal_strlit("ndc_x");
        reveal_strlit(" * ");
        reveal_strlit("w");
        reveal_strlit(", ");
        assert(x + "    out.position = float4(ndc_x * w, "@ =~= x + "    "@ + "out.position"@
            + " = "@ + "float4("@ + "ndc_x"@ + " * "@ + "w"@ + ", "@);
    }
    assert forall|x: Seq<char>| #[trigger] (x + "ndc_y * w, in.v0.z * "@) == x + "ndc_y"@ + " * "@
        + "w"@ + ", "@ + "in.v0"@ + "."@ + "z"@ + " * "@ by {
        reveal_strlit("ndc_y * w, in.v0.z * ");
        reveal_strlit("ndc_y");
        reveal_strlit(" * ");
        reveal_strlit("w");
        reveal_strlit(", ");
        reveal_strlit("in.v0");
        reveal_strlit(".");
        reveal_strlit("z");
        assert(x + "ndc_y * w, in.v0.z * "@ =~= x + "ndc_y"@ + " * "@ + "w"@ + ", "@ + "in.v0"@
            + "."@ + "z"@ + " * "@);
    }
    assert forall|x: Seq<char>| #[trigger] (x + "w, w);\n"@) == x + "w"@ + ", "@ + "w"@ + ")"@
        + ";\n"@ by {
        reveal_strlit("w, w);\n");
        reveal_strlit("w");
        reveal_strlit(", ");
        reveal_strlit(")");
        reveal_strlit(";\n");
        assert(x + "w, w);\n"@ =~= x + "w"@ + ", "@ + "w"@ + ")"@ + ";\n"@);
    }
}

proof fn window_transform_is_written()
    ensures
        is_program(window_position(), window_transform_program(), Seq::empty(), "    "@),
{
    reveal_with_fuel(lines, 7);
    let p6 = window_transform_program();
    let p5 = seq![p6[0], p6[1], p6[2], p6[3], p6[4]];
    assert(p6.drop_last() =~= p5);
    let p4 = seq![p6[0], p6[1], p6[2], p6[3]];
    assert(p5.drop_last() =~= p4);
    let p3 = seq![p6[0], p6[1], p6[2]];
    assert(p4.drop_last() =~= p3);
    let p2 = seq![p6[0], p6[1]];
    assert(p3.drop_last() =~= p2);
    let p1 = seq![p6[0]];
    assert(p2.drop_last() =~= p1);
    assert(p1.drop_last() =~= Seq::empty());
    let a0 = Seq::<char>::empty();
    assert(a0 + "    float2 vp = vs_c[0].xy;\n"@ =~= "    float2 vp = vs_c[0].xy;\n"@);
    window_transform_line_0(a0);
    let a1 = a0 + "    float2 vp = vs_c[0].xy;\n"@;
    assert(lines(p1, a0, "    "@) == a1);
    window_transform_line_1(a1);
    let a2 = a1 + "    float2 vp_origin = vs_c[0].zw;\n"@;
    assert(lines(p2, a0, "    "@) == a2);
    window_transform_line_2(a2);
    let a3 = a2 + "    float w = in.v0.w != 0.0 ? 1.0 / in.v0.w : 1.0;\n"@;
    assert(lines(p3, a0, "    "@) == a3);
    window_transform_line_3(a3);
    let a4 = a3 + "    float ndc_x = ((in.v0.x - vp_origin.x) / vp.x) * 2.0 - 1.0 + 1.0 / vp.x;\n"@;
    assert(lines(p4, a0, "    "@) == a4);
    window_transform_line_4(a4);
    let a5 = a4 + "    float ndc_y = 1.0 - ((in.v0.y - vp_origin.y) / vp.y) * 2.0 - 1.0 / vp.y;\n"@;
    assert(lines(p5, a0, "    "@) == a5);
    window_transform_line_5(a5);
    let a6 = a5 + "    out.position = float4(ndc_x * w, ndc_y * w, in.v0.z * w, w);\n"@;
    assert(lines(p6, a0, "    "@) == a6);
}

#[verifier::rlimit(50)]
proof fn window_transform_runs(env: Env)
    requires
        holds_viewport(env),
    ensures
        named(after(window_transform_program(), env), "out.position"@) == unprojected(env),
{
    reveal_with_fuel(after, 7);
    reveal_with_fuel(Expr::value, 10);
    numerals();
    reveal_strlit("w");
    reveal_strlit("x");
    reveal_strlit("xy");
    reveal_strlit("y");
    reveal_strlit("z");
    reveal_strlit("zw");
    reveal_strlit("in.v0");
    reveal_strlit("ndc_x");
    reveal_strlit("ndc_y");
    reveal_strlit("out.position");
    reveal_strlit("vp");
    reveal_strlit("vp_origin");
    reveal_strlit("vs_c[0]");
    reveal_strlit("w");
    assert("vp"@.len() != "in.v0"@.len());
    assert("vp"@.len() != "ndc_x"@.len());
    assert("vp"@.len() != "ndc_y"@.len());
    assert("vp"@.len() != "out.position"@.len());
    assert("vp"@.len() != "vp_origin"@.len());
    assert("vp"@.len() != "vs_c[0]"@.len());
    assert("vp"@.len() != "w"@.len());
    assert("vp_origin"@.len() != "in.v0"@.len());
    assert("vp_origin"@.len() != "ndc_x"@.len());
    assert("vp_origin"@.len() != "ndc_y"@.len());
    assert("vp_origin"@.len() != "out.position"@.len());
    assert("vp_origin"@.len() != "vs_c[0]"@.len());
    assert("vp_origin"@.len() != "w"@.len());
    assert("w"@.len() != "in.v0"@.len());
    assert("w"@.len() != "ndc_x"@.len());
    assert("w"@.len() != "ndc_y"@.len());
    assert("w"@.len() != "out.position"@.len());
    assert("w"@.len() != "vs_c[0]"@.len());
    assert("ndc_x"@[0] != "in.v0"@[0]);
    assert("ndc_x"@[4] != "ndc_y"@[4]);
    assert("ndc_x"@.len() != "out.position"@.len());
    assert("ndc_x"@.len() != "vs_c[0]"@.len());
    assert("ndc_y"@[0] != "in.v0"@[0]);
    assert("ndc_y"@.len() != "out.position"@.len());
    assert("ndc_y"@.len() != "vs_c[0]"@.len());
    assert("out.position"@.len() != "in.v0"@.len());
    assert("out.position"@.len() != "vs_c[0]"@.len());
    let v = named(env, "in.v0"@);
    let k = named(env, "vs_c[0]"@);
    let half = whole(1) / whole(2);
    let s = window_depth_scale(env);
    let x = whole(2) * ((v[0] + half - k[2]) / k[0]) - whole(1);
    let y = whole(1) - whole(2) * ((v[1] + half - k[3]) / k[1]);
    centres_are_half_a_pixel_away(v[0] - k[2], k[0]);
    centres_are_half_a_pixel_away(v[1] - k[3], k[1]);
    assert(v[0] - k[2] + half == v[0] + half - k[2]);
    assert(v[1] - k[3] + half == v[1] + half - k[3]);
    let p6 = window_transform_program();
    let p5 = seq![p6[0], p6[1], p6[2], p6[3], p6[4]];
    assert(p6.drop_last() =~= p5);
    let p4 = seq![p6[0], p6[1], p6[2], p6[3]];
    assert(p5.drop_last() =~= p4);
    let p3 = seq![p6[0], p6[1], p6[2]];
    assert(p4.drop_last() =~= p3);
    let p2 = seq![p6[0], p6[1]];
    assert(p3.drop_last() =~= p2);
    let p1 = seq![p6[0]];
    assert(p2.drop_last() =~= p1);
    assert(p1.drop_last() =~= Seq::empty());
    let e0 = env;
    let e1 = p6[0].run(e0);
    assert(named(e1, "vp"@) =~= seq![k[0], k[1]]);
    assert(named(e1, "in.v0"@) == named(env, "in.v0"@));
    assert(named(e1, "vs_c[0]"@) == named(env, "vs_c[0]"@));
    let e2 = p6[1].run(e1);
    assert(named(e2, "vp_origin"@) =~= seq![k[2], k[3]]);
    assert(named(e2, "vp"@) == seq![k[0], k[1]]);
    assert(named(e2, "in.v0"@) == named(env, "in.v0"@));
    let e3 = p6[2].run(e2);
    assert(named(e3, "w"@) =~= seq![s]);
    assert(named(e3, "vp"@) == seq![k[0], k[1]]);
    assert(named(e3, "vp_origin"@) == seq![k[2], k[3]]);
    assert(named(e3, "in.v0"@) == named(env, "in.v0"@));
    let e4 = p6[3].run(e3);
    assert(named(e4, "ndc_x"@) =~= seq![x]);
    assert(named(e4, "w"@) == seq![s]);
    assert(named(e4, "vp"@) == seq![k[0], k[1]]);
    assert(named(e4, "vp_origin"@) == seq![k[2], k[3]]);
    assert(named(e4, "in.v0"@) == named(env, "in.v0"@));
    let e5 = p6[4].run(e4);
    assert(named(e5, "ndc_y"@) =~= seq![y]);
    assert(named(e5, "ndc_x"@) == seq![x]);
    assert(named(e5, "w"@) == seq![s]);
    assert(named(e5, "in.v0"@) == named(env, "in.v0"@));
    let e6 = p6[5].run(e5);
    assert(named(e6, "out.position"@) =~= unprojected(env));
    assert(after(p6, env) == e6);
}

/// A vertex that is given in pixels lands at the centre of its pixel.
pub proof fn window_vertices_land_on_their_pixels()
    ensures
        exists|p: Seq<Statement>| #[trigger]
            is_program(window_position(), p, Seq::empty(), "    "@) && forall|env: Env| #[trigger]
                holds_viewport(env) ==> named(after(p, env), "out.position"@) == unprojected(env),
{
    let p = window_transform_program();
    window_transform_is_written();
    assert forall|env: Env| #[trigger] holds_viewport(env) implies named(
        after(p, env),
        "out.position"@,
    ) == unprojected(env) by {
        window_transform_runs(env);
    }
}

// ---------------------------------------------------------------------------
// Texture coordinates
// ---------------------------------------------------------------------------

/// The components of a transformed coordinate that are kept, as a text of it.
pub open spec fn kept_of(count: u8, projected: bool) -> spec_fn(Seq<Seq<char>>) -> Seq<char> {
    |s: Seq<Seq<char>>| kept_components(count, projected, s[0])
}

/// The first `count` components of a coordinate, and zeros. Where the coordinate
/// is projected, the last of them is the divisor, which stands in the fourth
/// lane.
pub open spec fn kept_meaning(count: u8, projected: bool) -> spec_fn(Env) -> Value {
    |env: Env|
        {
            let c = env.operands[0];
            Seq::new(
                4,
                |i: int|
                    if count == 0 || count >= 4 {
                        c[i]
                    } else if projected {
                        if i == 3 {
                            c[count - 1]
                        } else if i < count - 1 {
                            c[i]
                        } else {
                            whole(0)
                        }
                    } else if i < count {
                        c[i]
                    } else {
                        whole(0)
                    },
            )
        }
}

proof fn divided_1_computes()
    ensures
        computes(kept_of(1, true), 1, 7, 7, kept_meaning(1, true)),
{
    reveal_with_fuel(Expr::behind, 4);
    reveal_with_fuel(Expr::value, 4);
    reveal_with_fuel(Expr::is_plain, 4);
    numerals();
    let e = call_4(
        Function::Float4,
        number("0.0"@),
        number("0.0"@),
        number("0.0"@),
        lanes(operand(0), "x"@),
    );
    assert("float4(0.0, 0.0, 0.0, "@ == Seq::empty() + "float4("@ + "0.0"@ + ", "@ + "0.0"@ + ", "@
        + "0.0"@ + ", "@) by {
        reveal_strlit("float4(0.0, 0.0, 0.0, ");
        reveal_strlit("float4(");
        reveal_strlit("0.0");
        reveal_strlit(", ");
    }
    assert forall|x: Seq<char>| #[trigger] (x + ".x)"@) == x + "."@ + "x"@ + ")"@ by {
        reveal_strlit(".x)");
        reveal_strlit(".");
        reveal_strlit("x");
        reveal_strlit(")");
        assert(x + ".x)"@ =~= x + "."@ + "x"@ + ")"@);
    }
    assert(is_written(e, kept_of(1, true), 1, 7, 7));
    reveal_strlit("x");
    assert forall|env: Env| #[trigger] vectors(env.operands, 1) implies e.value(env)
        == (kept_meaning(1, true))(env) by {
        assert(e.value(env) =~= (kept_meaning(1, true))(env));
    }
    assert(has_value(e, 1, kept_meaning(1, true)));
}

proof fn plain_1_computes()
    ensures
        computes(kept_of(1, false), 1, 7, 7, kept_meaning(1, false)),
{
    reveal_with_fuel(Expr::behind, 4);
    reveal_with_fuel(Expr::value, 4);
    reveal_with_fuel(Expr::is_plain, 4);
    numerals();
    let e = call_4(
        Function::Float4,
        lanes(operand(0), "x"@),
        number("0.0"@),
        number("0.0"@),
        number("0.0"@),
    );
    assert("float4("@ == Seq::empty() + "float4("@) by {
        reveal_strlit("float4(");
    }
    assert forall|x: Seq<char>| #[trigger] (x + ".x, 0.0, 0.0, 0.0)"@) == x + "."@ + "x"@ + ", "@
        + "0.0"@ + ", "@ + "0.0"@ + ", "@ + "0.0"@ + ")"@ by {
        reveal_strlit(".x, 0.0, 0.0, 0.0)");
        reveal_strlit(".");
        reveal_strlit("x");
        reveal_strlit(", ");
        reveal_strlit("0.0");
        reveal_strlit(")");
        assert(x + ".x, 0.0, 0.0, 0.0)"@ =~= x + "."@ + "x"@ + ", "@ + "0.0"@ + ", "@ + "0.0"@
            + ", "@ + "0.0"@ + ")"@);
    }
    assert(is_written(e, kept_of(1, false), 1, 7, 7));
    reveal_strlit("x");
    assert forall|env: Env| #[trigger] vectors(env.operands, 1) implies e.value(env)
        == (kept_meaning(1, false))(env) by {
        assert(e.value(env) =~= (kept_meaning(1, false))(env));
    }
    assert(has_value(e, 1, kept_meaning(1, false)));
}

proof fn divided_2_computes()
    ensures
        computes(kept_of(2, true), 1, 7, 7, kept_meaning(2, true)),
{
    reveal_with_fuel(Expr::behind, 4);
    reveal_with_fuel(Expr::value, 4);
    reveal_with_fuel(Expr::is_plain, 4);
    numerals();
    let e = call_4(
        Function::Float4,
        lanes(operand(0), "x"@),
        number("0.0"@),
        number("0.0"@),
        lanes(operand(0), "y"@),
    );
    assert("float4("@ == Seq::empty() + "float4("@) by {
        reveal_strlit("float4(");
    }
    assert forall|x: Seq<char>| #[trigger] (x + ".x, 0.0, 0.0, "@) == x + "."@ + "x"@ + ", "@
        + "0.0"@ + ", "@ + "0.0"@ + ", "@ by {
        reveal_strlit(".x, 0.0, 0.0, ");
        reveal_strlit(".");
        reveal_strlit("x");
        reveal_strlit(", ");
        reveal_strlit("0.0");
        assert(x + ".x, 0.0, 0.0, "@ =~= x + "."@ + "x"@ + ", "@ + "0.0"@ + ", "@ + "0.0"@ + ", "@);
    }
    assert forall|x: Seq<char>| #[trigger] (x + ".y)"@) == x + "."@ + "y"@ + ")"@ by {
        reveal_strlit(".y)");
        reveal_strlit(".");
        reveal_strlit("y");
        reveal_strlit(")");
        assert(x + ".y)"@ =~= x + "."@ + "y"@ + ")"@);
    }
    assert(is_written(e, kept_of(2, true), 1, 7, 7));
    reveal_strlit("x");
    reveal_strlit("y");
    assert forall|env: Env| #[trigger] vectors(env.operands, 1) implies e.value(env)
        == (kept_meaning(2, true))(env) by {
        assert(e.value(env) =~= (kept_meaning(2, true))(env));
    }
    assert(has_value(e, 1, kept_meaning(2, true)));
}

proof fn plain_2_computes()
    ensures
        computes(kept_of(2, false), 1, 7, 7, kept_meaning(2, false)),
{
    reveal_with_fuel(Expr::behind, 4);
    reveal_with_fuel(Expr::value, 4);
    reveal_with_fuel(Expr::is_plain, 4);
    numerals();
    let e = call_4(
        Function::Float4,
        lanes(operand(0), "x"@),
        lanes(operand(0), "y"@),
        number("0.0"@),
        number("0.0"@),
    );
    assert("float4("@ == Seq::empty() + "float4("@) by {
        reveal_strlit("float4(");
    }
    assert forall|x: Seq<char>| #[trigger] (x + ".x, "@) == x + "."@ + "x"@ + ", "@ by {
        reveal_strlit(".x, ");
        reveal_strlit(".");
        reveal_strlit("x");
        reveal_strlit(", ");
        assert(x + ".x, "@ =~= x + "."@ + "x"@ + ", "@);
    }
    assert forall|x: Seq<char>| #[trigger] (x + ".y, 0.0, 0.0)"@) == x + "."@ + "y"@ + ", "@
        + "0.0"@ + ", "@ + "0.0"@ + ")"@ by {
        reveal_strlit(".y, 0.0, 0.0)");
        reveal_strlit(".");
        reveal_strlit("y");
        reveal_strlit(", ");
        reveal_strlit("0.0");
        reveal_strlit(")");
        assert(x + ".y, 0.0, 0.0)"@ =~= x + "."@ + "y"@ + ", "@ + "0.0"@ + ", "@ + "0.0"@ + ")"@);
    }
    assert(is_written(e, kept_of(2, false), 1, 7, 7));
    reveal_strlit("x");
    reveal_strlit("y");
    assert forall|env: Env| #[trigger] vectors(env.operands, 1) implies e.value(env)
        == (kept_meaning(2, false))(env) by {
        assert(e.value(env) =~= (kept_meaning(2, false))(env));
    }
    assert(has_value(e, 1, kept_meaning(2, false)));
}

proof fn divided_3_computes()
    ensures
        computes(kept_of(3, true), 1, 7, 7, kept_meaning(3, true)),
{
    reveal_with_fuel(Expr::behind, 4);
    reveal_with_fuel(Expr::value, 4);
    reveal_with_fuel(Expr::is_plain, 4);
    numerals();
    let e = call_4(
        Function::Float4,
        lanes(operand(0), "x"@),
        lanes(operand(0), "y"@),
        number("0.0"@),
        lanes(operand(0), "z"@),
    );
    assert("float4("@ == Seq::empty() + "float4("@) by {
        reveal_strlit("float4(");
    }
    assert forall|x: Seq<char>| #[trigger] (x + ".x, "@) == x + "."@ + "x"@ + ", "@ by {
        reveal_strlit(".x, ");
        reveal_strlit(".");
        reveal_strlit("x");
        reveal_strlit(", ");
        assert(x + ".x, "@ =~= x + "."@ + "x"@ + ", "@);
    }
    assert forall|x: Seq<char>| #[trigger] (x + ".y, 0.0, "@) == x + "."@ + "y"@ + ", "@ + "0.0"@
        + ", "@ by {
        reveal_strlit(".y, 0.0, ");
        reveal_strlit(".");
        reveal_strlit("y");
        reveal_strlit(", ");
        reveal_strlit("0.0");
        assert(x + ".y, 0.0, "@ =~= x + "."@ + "y"@ + ", "@ + "0.0"@ + ", "@);
    }
    assert forall|x: Seq<char>| #[trigger] (x + ".z)"@) == x + "."@ + "z"@ + ")"@ by {
        reveal_strlit(".z)");
        reveal_strlit(".");
        reveal_strlit("z");
        reveal_strlit(")");
        assert(x + ".z)"@ =~= x + "."@ + "z"@ + ")"@);
    }
    assert(is_written(e, kept_of(3, true), 1, 7, 7));
    reveal_strlit("x");
    reveal_strlit("y");
    reveal_strlit("z");
    assert forall|env: Env| #[trigger] vectors(env.operands, 1) implies e.value(env)
        == (kept_meaning(3, true))(env) by {
        assert(e.value(env) =~= (kept_meaning(3, true))(env));
    }
    assert(has_value(e, 1, kept_meaning(3, true)));
}

proof fn plain_3_computes()
    ensures
        computes(kept_of(3, false), 1, 7, 7, kept_meaning(3, false)),
{
    reveal_with_fuel(Expr::behind, 4);
    reveal_with_fuel(Expr::value, 4);
    reveal_with_fuel(Expr::is_plain, 4);
    numerals();
    let e = call_4(
        Function::Float4,
        lanes(operand(0), "x"@),
        lanes(operand(0), "y"@),
        lanes(operand(0), "z"@),
        number("0.0"@),
    );
    assert("float4("@ == Seq::empty() + "float4("@) by {
        reveal_strlit("float4(");
    }
    assert forall|x: Seq<char>| #[trigger] (x + ".x, "@) == x + "."@ + "x"@ + ", "@ by {
        reveal_strlit(".x, ");
        reveal_strlit(".");
        reveal_strlit("x");
        reveal_strlit(", ");
        assert(x + ".x, "@ =~= x + "."@ + "x"@ + ", "@);
    }
    assert forall|x: Seq<char>| #[trigger] (x + ".y, "@) == x + "."@ + "y"@ + ", "@ by {
        reveal_strlit(".y, ");
        reveal_strlit(".");
        reveal_strlit("y");
        reveal_strlit(", ");
        assert(x + ".y, "@ =~= x + "."@ + "y"@ + ", "@);
    }
    assert forall|x: Seq<char>| #[trigger] (x + ".z, 0.0)"@) == x + "."@ + "z"@ + ", "@ + "0.0"@
        + ")"@ by {
        reveal_strlit(".z, 0.0)");
        reveal_strlit(".");
        reveal_strlit("z");
        reveal_strlit(", ");
        reveal_strlit("0.0");
        reveal_strlit(")");
        assert(x + ".z, 0.0)"@ =~= x + "."@ + "z"@ + ", "@ + "0.0"@ + ")"@);
    }
    assert(is_written(e, kept_of(3, false), 1, 7, 7));
    reveal_strlit("x");
    reveal_strlit("y");
    reveal_strlit("z");
    assert forall|env: Env| #[trigger] vectors(env.operands, 1) implies e.value(env)
        == (kept_meaning(3, false))(env) by {
        assert(e.value(env) =~= (kept_meaning(3, false))(env));
    }
    assert(has_value(e, 1, kept_meaning(3, false)));
}

proof fn whole_coordinate_computes(count: u8, projected: bool)
    requires
        count == 0 || count >= 4,
    ensures
        computes(kept_of(count, projected), 1, 7, 7, kept_meaning(count, projected)),
{
    reveal_with_fuel(Expr::behind, 2);
    reveal_with_fuel(Expr::value, 2);
    reveal_with_fuel(Expr::is_plain, 2);
    let e = operand(0);
    assert forall|s: Seq<Seq<char>>| #[trigger] (Seq::empty() + s[0]) == s[0] by {
        assert(Seq::empty() + s[0] =~= s[0]);
    }
    assert(is_written(e, kept_of(count, projected), 1, 7, 7));
    assert forall|env: Env| #[trigger] vectors(env.operands, 1) implies e.value(env)
        == (kept_meaning(count, projected))(env) by {
        assert(e.value(env) =~= (kept_meaning(count, projected))(env));
    }
    assert(has_value(e, 1, kept_meaning(count, projected)));
}

/// The text of a coordinate keeps the components that the transform asks for.
pub proof fn transforms_keep_their_components(count: u8, projected: bool)
    ensures
        computes(kept_of(count, projected), 1, 7, 7, kept_meaning(count, projected)),
{
    if count == 0 || count >= 4 {
        whole_coordinate_computes(count, projected);
    } else if projected {
        divided_1_computes();
        divided_2_computes();
        divided_3_computes();
    } else {
        plain_1_computes();
        plain_2_computes();
        plain_3_computes();
    }
}

/// The text of a coordinate with fewer components, as a text of it.
pub open spec fn padded_of(dims: u8) -> spec_fn(Seq<Seq<char>>) -> Seq<char> {
    |s: Seq<Seq<char>>| padded(s[0], dims)
}

/// The first `dims` components of a coordinate, and zeros.
pub open spec fn padded_meaning(dims: u8) -> spec_fn(Env) -> Value {
    |env: Env|
        Seq::new(
            4,
            |i: int|
                if dims == 0 || i < dims {
                    env.operands[0][i]
                } else {
                    whole(0)
                },
        )
}

proof fn padded_1_computes()
    ensures
        computes(padded_of(1), 1, 7, 7, padded_meaning(1)),
{
    reveal_with_fuel(Expr::behind, 4);
    reveal_with_fuel(Expr::value, 4);
    reveal_with_fuel(Expr::is_plain, 4);
    numerals();
    let e = call_4(
        Function::Float4,
        lanes(operand(0), "x"@),
        number("0.0"@),
        number("0.0"@),
        number("0.0"@),
    );
    assert("float4("@ == Seq::empty() + "float4("@) by {
        reveal_strlit("float4(");
    }
    assert forall|x: Seq<char>| #[trigger] (x + ".x, 0.0, 0.0, 0.0)"@) == x + "."@ + "x"@ + ", "@
        + "0.0"@ + ", "@ + "0.0"@ + ", "@ + "0.0"@ + ")"@ by {
        reveal_strlit(".x, 0.0, 0.0, 0.0)");
        reveal_strlit(".");
        reveal_strlit("x");
        reveal_strlit(", ");
        reveal_strlit("0.0");
        reveal_strlit(")");
        assert(x + ".x, 0.0, 0.0, 0.0)"@ =~= x + "."@ + "x"@ + ", "@ + "0.0"@ + ", "@ + "0.0"@
            + ", "@ + "0.0"@ + ")"@);
    }
    assert(is_written(e, padded_of(1), 1, 7, 7));
    reveal_strlit("x");
    assert forall|env: Env| #[trigger] vectors(env.operands, 1) implies e.value(env)
        == (padded_meaning(1))(env) by {
        assert(e.value(env) =~= (padded_meaning(1))(env));
    }
    assert(has_value(e, 1, padded_meaning(1)));
}

proof fn padded_2_computes()
    ensures
        computes(padded_of(2), 1, 7, 7, padded_meaning(2)),
{
    reveal_with_fuel(Expr::behind, 4);
    reveal_with_fuel(Expr::value, 4);
    reveal_with_fuel(Expr::is_plain, 4);
    numerals();
    let e = call_3(Function::Float4, lanes(operand(0), "xy"@), number("0.0"@), number("0.0"@));
    assert("float4("@ == Seq::empty() + "float4("@) by {
        reveal_strlit("float4(");
    }
    assert forall|x: Seq<char>| #[trigger] (x + ".xy, 0.0, 0.0)"@) == x + "."@ + "xy"@ + ", "@
        + "0.0"@ + ", "@ + "0.0"@ + ")"@ by {
        reveal_strlit(".xy, 0.0, 0.0)");
        reveal_strlit(".");
        reveal_strlit("xy");
        reveal_strlit(", ");
        reveal_strlit("0.0");
        reveal_strlit(")");
        assert(x + ".xy, 0.0, 0.0)"@ =~= x + "."@ + "xy"@ + ", "@ + "0.0"@ + ", "@ + "0.0"@ + ")"@);
    }
    assert(is_written(e, padded_of(2), 1, 7, 7));
    reveal_strlit("xy");
    assert forall|env: Env| #[trigger] vectors(env.operands, 1) implies e.value(env)
        == (padded_meaning(2))(env) by {
        assert(e.value(env) =~= (padded_meaning(2))(env));
    }
    assert(has_value(e, 1, padded_meaning(2)));
}

proof fn padded_3_computes()
    ensures
        computes(padded_of(3), 1, 7, 7, padded_meaning(3)),
{
    reveal_with_fuel(Expr::behind, 4);
    reveal_with_fuel(Expr::value, 4);
    reveal_with_fuel(Expr::is_plain, 4);
    numerals();
    let e = call_2(Function::Float4, lanes(operand(0), "xyz"@), number("0.0"@));
    assert("float4("@ == Seq::empty() + "float4("@) by {
        reveal_strlit("float4(");
    }
    assert forall|x: Seq<char>| #[trigger] (x + ".xyz, 0.0)"@) == x + "."@ + "xyz"@ + ", "@ + "0.0"@
        + ")"@ by {
        reveal_strlit(".xyz, 0.0)");
        reveal_strlit(".");
        reveal_strlit("xyz");
        reveal_strlit(", ");
        reveal_strlit("0.0");
        reveal_strlit(")");
        assert(x + ".xyz, 0.0)"@ =~= x + "."@ + "xyz"@ + ", "@ + "0.0"@ + ")"@);
    }
    assert(is_written(e, padded_of(3), 1, 7, 7));
    reveal_strlit("xyz");
    assert forall|env: Env| #[trigger] vectors(env.operands, 1) implies e.value(env)
        == (padded_meaning(3))(env) by {
        assert(e.value(env) =~= (padded_meaning(3))(env));
    }
    assert(has_value(e, 1, padded_meaning(3)));
}

proof fn unpadded_computes(dims: u8)
    requires
        dims == 0 || dims >= 4,
    ensures
        computes(padded_of(dims), 1, 7, 7, padded_meaning(dims)),
{
    reveal_with_fuel(Expr::behind, 2);
    reveal_with_fuel(Expr::value, 2);
    reveal_with_fuel(Expr::is_plain, 2);
    let e = operand(0);
    assert forall|s: Seq<Seq<char>>| #[trigger] (Seq::empty() + s[0]) == s[0] by {
        assert(Seq::empty() + s[0] =~= s[0]);
    }
    assert(is_written(e, padded_of(dims), 1, 7, 7));
    assert forall|env: Env| #[trigger] vectors(env.operands, 1) implies e.value(env)
        == (padded_meaning(dims))(env) by {
        assert(e.value(env) =~= (padded_meaning(dims))(env));
    }
    assert(has_value(e, 1, padded_meaning(dims)));
}

/// A coordinate with fewer than four components is filled with zeros.
pub proof fn coordinates_are_padded_with_zeros(dims: u8)
    ensures
        computes(padded_of(dims), 1, 7, 7, padded_meaning(dims)),
{
    if dims == 0 || dims >= 4 {
        unpadded_computes(dims);
    } else {
        padded_1_computes();
        padded_2_computes();
        padded_3_computes();
    }
}

// ---------------------------------------------------------------------------
// Points
// ---------------------------------------------------------------------------

/// Whether what the size of a point is computed from has the lanes that it is
/// declared with.
pub open spec fn holds_point(env: Env) -> bool {
    &&& is_vector(env, "vs_draw.point"@)
    &&& is_vector(env, "vs_draw.point_scale"@)
    &&& is_vector(env, "pos_fixup"@)
    &&& is_vector(env, "pos_view"@)
    &&& named(env, "in.psize"@).len() == 1
}

/// The size that is asked for: that of the vertex, or that of the draw.
pub open spec fn asked_size(key: FfVsKey, env: Env) -> real {
    if key.flags.has(FfVsFlags::HAS_PSIZE) {
        named(env, "in.psize"@)[0]
    } else {
        named(env, "vs_draw.point"@)[0]
    }
}

/// The height of the viewport in reported pixels: the position fix-up holds minus
/// its reciprocal in rendered ones, and the rendered pixels per reported one.
pub open spec fn viewport_height(env: Env) -> real {
    let f = named(env, "pos_fixup"@);
    (-whole(1)) / f[1] / f[3]
}

/// The size of a point in rendered pixels. A scaled point shrinks with the
/// distance by the root of a polynomial of it. Limits hold before the size is
/// turned into rendered pixels.
pub open spec fn final_size(key: FfVsKey, env: Env) -> real {
    let v = named(env, "pos_view"@);
    let k = named(env, "vs_draw.point_scale"@);
    let limits = named(env, "vs_draw.point"@);
    let d = (env.library.sqrt)(v[0] * v[0] + v[1] * v[1] + v[2] * v[2]);
    let q = k[0] + k[1] * d + k[2] * d * d;
    let size = if key.flags.has(FfVsFlags::POINT_SCALE) && !key.flags.has(FfVsFlags::HAS_RHW) {
        asked_size(key, env) * (viewport_height(env) / (env.library.sqrt)(
            greater(q, whole(1) / whole(1000000)),
        ))
    } else {
        asked_size(key, env)
    };
    lesser(greater(size, limits[1]), limits[2]) * named(env, "pos_fixup"@)[3]
}

proof fn least_divisor()
    ensures
        numeral_value("0.000001"@) == whole(1) / whole(1000000),
{
    reveal_strlit("0.000001");
    let t8 = "0.000001"@;
    let t7 = t8.drop_last();
    assert(t8.last() == '1' && t7.len() == 7);
    let t6 = t7.drop_last();
    assert(t7.last() == '0' && t6.len() == 6);
    let t5 = t6.drop_last();
    assert(t6.last() == '0' && t5.len() == 5);
    let t4 = t5.drop_last();
    assert(t5.last() == '0' && t4.len() == 4);
    let t3 = t4.drop_last();
    assert(t4.last() == '0' && t3.len() == 3);
    let t2 = t3.drop_last();
    assert(t3.last() == '0' && t2.len() == 2);
    let t1 = t2.drop_last();
    assert(t2.last() == '.' && t1.len() == 1);
    let t0 = t1.drop_last();
    assert(t1.last() == '0' && t0.len() == 0);
    assert(digits_value(t0) == 0);
    assert(digits_value(t1) == 0);
    assert(digits_value(t2) == 0);
    assert(digits_value(t3) == 0);
    assert(digits_value(t4) == 0);
    assert(digits_value(t5) == 0);
    assert(digits_value(t6) == 0);
    assert(digits_value(t7) == 0);
    assert(digits_value(t8) == 1);
    assert(point_scale(t2) == 1);
    assert(point_scale(t3) == 10);
    assert(point_scale(t4) == 100);
    assert(point_scale(t5) == 1000);
    assert(point_scale(t6) == 10000);
    assert(point_scale(t7) == 100000);
    assert(point_scale(t8) == 1000000);
}

spec fn plain_point_0() -> Statement {
    Statement::Declare("float"@, "psize"@, lanes(name("vs_draw.point"@), "x"@))
}

spec fn plain_point_1() -> Statement {
    Statement::Assign(
        "out.point_size"@,
        infix(
            Operator::Times,
            call_3(
                Function::Clamp,
                name("psize"@),
                lanes(name("vs_draw.point"@), "y"@),
                lanes(name("vs_draw.point"@), "z"@),
            ),
            lanes(name("pos_fixup"@), "w"@),
        ),
    )
}

spec fn plain_point_program() -> Seq<Statement> {
    seq![
        plain_point_0(),
        plain_point_1(),
    ]
}

proof fn plain_point_line_0(acc: Seq<char>)
    ensures
        acc + "    float psize = vs_draw.point.x;\n"@ == plain_point_0().behind(acc, "    "@),
        plain_point_0().is_plain(),
{
    reveal_with_fuel(Expr::behind, 3);
    reveal_with_fuel(Expr::is_plain, 3);
    assert forall|x: Seq<char>| #[trigger] (x + "    float psize = vs_draw.point.x;\n"@) == x
        + "    "@ + "float"@ + " "@ + "psize"@ + " = "@ + "vs_draw.point"@ + "."@ + "x"@
        + ";\n"@ by {
        reveal_strlit("    float psize = vs_draw.point.x;\n");
        reveal_strlit("    ");
        reveal_strlit("float");
        reveal_strlit(" ");
        reveal_strlit("psize");
        reveal_strlit(" = ");
        reveal_strlit("vs_draw.point");
        reveal_strlit(".");
        reveal_strlit("x");
        reveal_strlit(";\n");
        assert(x + "    float psize = vs_draw.point.x;\n"@ =~= x + "    "@ + "float"@ + " "@
            + "psize"@ + " = "@ + "vs_draw.point"@ + "."@ + "x"@ + ";\n"@);
    }
}

proof fn plain_point_line_1(acc: Seq<char>)
    ensures
        acc
            + "    out.point_size = clamp(psize, vs_draw.point.y, vs_draw.point.z) * pos_fixup.w;\n"@
            == plain_point_1().behind(acc, "    "@),
        plain_point_1().is_plain(),
{
    reveal_with_fuel(Expr::behind, 5);
    reveal_with_fuel(Expr::is_plain, 5);
    assert forall|x: Seq<char>| #[trigger] (x
        + "    out.point_size = clamp(psize, vs_draw.point.y, vs_draw.point.z) * pos_fixup.w;\n"@)
        == x + "    out.point_size = clamp(psize, vs_draw.point."@
        + "y, vs_draw.point.z) * pos_fixup"@ + ".w;\n"@ by {
        reveal_strlit("    out.point_size = clamp(psize, vs_draw.point.y, vs_draw.point.z) * pos_fixup.w;\n");
        reveal_strlit("    out.point_size = clamp(psize, vs_draw.point.");
        reveal_strlit("y, vs_draw.point.z) * pos_fixup");
        reveal_strlit(".w;\n");
        assert(x
            + "    out.point_size = clamp(psize, vs_draw.point.y, vs_draw.point.z) * pos_fixup.w;\n"@
            =~= x + "    out.point_size = clamp(psize, vs_draw.point."@
            + "y, vs_draw.point.z) * pos_fixup"@ + ".w;\n"@);
    }
    assert forall|x: Seq<char>| #[trigger] (x + "    out.point_size = clamp(psize, vs_draw.point."@)
        == x + "    "@ + "out.point_size"@ + " = "@ + "clamp("@ + "psize"@ + ", "@
        + "vs_draw.point"@ + "."@ by {
        reveal_strlit("    out.point_size = clamp(psize, vs_draw.point.");
        reveal_strlit("    ");
        reveal_strlit("out.point_size");
        reveal_strlit(" = ");
        reveal_strlit("clamp(");
        reveal_strlit("psize");
        reveal_strlit(", ");
        reveal_strlit("vs_draw.point");
        reveal_strlit(".");
        assert(x + "    out.point_size = clamp(psize, vs_draw.point."@ =~= x + "    "@
            + "out.point_size"@ + " = "@ + "clamp("@ + "psize"@ + ", "@ + "vs_draw.point"@ + "."@);
    }
    assert forall|x: Seq<char>| #[trigger] (x + "y, vs_draw.point.z) * pos_fixup"@) == x + "y"@
        + ", "@ + "vs_draw.point"@ + "."@ + "z"@ + ")"@ + " * "@ + "pos_fixup"@ by {
        reveal_strlit("y, vs_draw.point.z) * pos_fixup");
        reveal_strlit("y");
        reveal_strlit(", ");
        reveal_strlit("vs_draw.point");
        reveal_strlit(".");
        reveal_strlit("z");
        reveal_strlit(")");
        reveal_strlit(" * ");
        reveal_strlit("pos_fixup");
        assert(x + "y, vs_draw.point.z) * pos_fixup"@ =~= x + "y"@ + ", "@ + "vs_draw.point"@ + "."@
            + "z"@ + ")"@ + " * "@ + "pos_fixup"@);
    }
    assert forall|x: Seq<char>| #[trigger] (x + ".w;\n"@) == x + "."@ + "w"@ + ";\n"@ by {
        reveal_strlit(".w;\n");
        reveal_strlit(".");
        reveal_strlit("w");
        reveal_strlit(";\n");
        assert(x + ".w;\n"@ =~= x + "."@ + "w"@ + ";\n"@);
    }
}

proof fn plain_point_is_written()
    ensures
        is_program(
            "    float psize = vs_draw.point.x;\n"@
                + "    out.point_size = clamp(psize, vs_draw.point.y, vs_draw.point.z) * pos_fixup.w;\n"@,
            plain_point_program(),
            Seq::empty(),
            "    "@,
        ),
{
    reveal_with_fuel(lines, 3);
    let p2 = plain_point_program();
    let p1 = seq![p2[0]];
    assert(p2.drop_last() =~= p1);
    assert(p1.drop_last() =~= Seq::empty());
    let a0 = Seq::<char>::empty();
    assert(a0 + "    float psize = vs_draw.point.x;\n"@
        =~= "    float psize = vs_draw.point.x;\n"@);
    plain_point_line_0(a0);
    let a1 = a0 + "    float psize = vs_draw.point.x;\n"@;
    assert(lines(p1, a0, "    "@) == a1);
    plain_point_line_1(a1);
    let a2 = a1
        + "    out.point_size = clamp(psize, vs_draw.point.y, vs_draw.point.z) * pos_fixup.w;\n"@;
    assert(lines(p2, a0, "    "@) == a2);
}

#[verifier::rlimit(50)]
proof fn plain_point_runs(key: FfVsKey, env: Env)
    requires
        holds_point(env),
        !key.flags.has(FfVsFlags::HAS_PSIZE),
        !(key.flags.has(FfVsFlags::POINT_SCALE) && !key.flags.has(FfVsFlags::HAS_RHW)),
    ensures
        named(after(plain_point_program(), env), "out.point_size"@) == seq![final_size(key, env)],
{
    reveal_with_fuel(after, 3);
    reveal_with_fuel(Expr::value, 5);
    reveal_with_fuel(inner, 5);
    reveal_strlit("w");
    reveal_strlit("x");
    reveal_strlit("y");
    reveal_strlit("z");
    reveal_strlit("in.psize");
    reveal_strlit("out.point_size");
    reveal_strlit("pos_fixup");
    reveal_strlit("pos_view");
    reveal_strlit("psize");
    reveal_strlit("psize_d");
    reveal_strlit("vs_draw.point");
    reveal_strlit("vs_draw.point_scale");
    assert("psize"@.len() != "in.psize"@.len());
    assert("psize"@.len() != "out.point_size"@.len());
    assert("psize"@.len() != "pos_fixup"@.len());
    assert("psize"@.len() != "pos_view"@.len());
    assert("psize"@.len() != "psize_d"@.len());
    assert("psize"@.len() != "vs_draw.point"@.len());
    assert("psize"@.len() != "vs_draw.point_scale"@.len());
    assert("out.point_size"@.len() != "in.psize"@.len());
    assert("out.point_size"@.len() != "pos_fixup"@.len());
    assert("out.point_size"@.len() != "pos_view"@.len());
    assert("out.point_size"@.len() != "psize_d"@.len());
    assert("out.point_size"@.len() != "vs_draw.point"@.len());
    assert("out.point_size"@.len() != "vs_draw.point_scale"@.len());
    let p2 = plain_point_program();
    let p1 = seq![p2[0]];
    assert(p2.drop_last() =~= p1);
    assert(p1.drop_last() =~= Seq::empty());
    let e0 = env;
    let e1 = p2[0].run(e0);
    assert(named(e1, "psize"@) =~= seq![asked_size(key, env)]);
    assert(named(e1, "vs_draw.point"@) == named(env, "vs_draw.point"@));
    assert(named(e1, "vs_draw.point_scale"@) == named(env, "vs_draw.point_scale"@));
    assert(named(e1, "pos_fixup"@) == named(env, "pos_fixup"@));
    assert(named(e1, "pos_view"@) == named(env, "pos_view"@));
    let e2 = p2[1].run(e1);
    assert(named(e2, "out.point_size"@) =~= seq![final_size(key, env)]);
    assert(after(p2, env) == e2);
}

spec fn scaled_point_0() -> Statement {
    Statement::Declare("float"@, "psize"@, lanes(name("vs_draw.point"@), "x"@))
}

spec fn scaled_point_1() -> Statement {
    Statement::Declare(
        "float"@,
        "psize_d"@,
        call_1(Function::Length, lanes(name("pos_view"@), "xyz"@)),
    )
}

spec fn scaled_point_2() -> Statement {
    Statement::Scale(
        "psize"@,
        infix(
            Operator::Over,
            group(
                infix(
                    Operator::Over,
                    group(
                        infix(
                            Operator::Over,
                            negated(number("1.0"@)),
                            lanes(name("pos_fixup"@), "y"@),
                        ),
                    ),
                    lanes(name("pos_fixup"@), "w"@),
                ),
            ),
            call_1(
                Function::Sqrt,
                call_2(
                    Function::Max,
                    infix(
                        Operator::Plus,
                        infix(
                            Operator::Plus,
                            lanes(name("vs_draw.point_scale"@), "x"@),
                            infix(
                                Operator::Times,
                                lanes(name("vs_draw.point_scale"@), "y"@),
                                name("psize_d"@),
                            ),
                        ),
                        infix(
                            Operator::Times,
                            infix(
                                Operator::Times,
                                lanes(name("vs_draw.point_scale"@), "z"@),
                                name("psize_d"@),
                            ),
                            name("psize_d"@),
                        ),
                    ),
                    number("0.000001"@),
                ),
            ),
        ),
    )
}

spec fn scaled_point_3() -> Statement {
    Statement::Assign(
        "out.point_size"@,
        infix(
            Operator::Times,
            call_3(
                Function::Clamp,
                name("psize"@),
                lanes(name("vs_draw.point"@), "y"@),
                lanes(name("vs_draw.point"@), "z"@),
            ),
            lanes(name("pos_fixup"@), "w"@),
        ),
    )
}

spec fn scaled_point_program() -> Seq<Statement> {
    seq![
        scaled_point_0(),
        scaled_point_1(),
        scaled_point_2(),
        scaled_point_3(),
    ]
}

proof fn scaled_point_line_0(acc: Seq<char>)
    ensures
        acc + "    float psize = vs_draw.point.x;\n"@ == scaled_point_0().behind(acc, "    "@),
        scaled_point_0().is_plain(),
{
    reveal_with_fuel(Expr::behind, 3);
    reveal_with_fuel(Expr::is_plain, 3);
    assert forall|x: Seq<char>| #[trigger] (x + "    float psize = vs_draw.point.x;\n"@) == x
        + "    "@ + "float"@ + " "@ + "psize"@ + " = "@ + "vs_draw.point"@ + "."@ + "x"@
        + ";\n"@ by {
        reveal_strlit("    float psize = vs_draw.point.x;\n");
        reveal_strlit("    ");
        reveal_strlit("float");
        reveal_strlit(" ");
        reveal_strlit("psize");
        reveal_strlit(" = ");
        reveal_strlit("vs_draw.point");
        reveal_strlit(".");
        reveal_strlit("x");
        reveal_strlit(";\n");
        assert(x + "    float psize = vs_draw.point.x;\n"@ =~= x + "    "@ + "float"@ + " "@
            + "psize"@ + " = "@ + "vs_draw.point"@ + "."@ + "x"@ + ";\n"@);
    }
}

proof fn scaled_point_line_1(acc: Seq<char>)
    ensures
        acc + "    float psize_d = length(pos_view.xyz);\n"@
            == scaled_point_1().behind(acc, "    "@),
        scaled_point_1().is_plain(),
{
    reveal_with_fuel(Expr::behind, 4);
    reveal_with_fuel(Expr::is_plain, 4);
    assert forall|x: Seq<char>| #[trigger] (x + "    float psize_d = length(pos_view.xyz);\n"@) == x
        + "    float psize_d = length(pos_view."@ + "xyz);\n"@ by {
        reveal_strlit("    float psize_d = length(pos_view.xyz);\n");
        reveal_strlit("    float psize_d = length(pos_view.");
        reveal_strlit("xyz);\n");
        assert(x + "    float psize_d = length(pos_view.xyz);\n"@ =~= x
            + "    float psize_d = length(pos_view."@ + "xyz);\n"@);
    }
    assert forall|x: Seq<char>| #[trigger] (x + "    float psize_d = length(pos_view."@) == x
        + "    "@ + "float"@ + " "@ + "psize_d"@ + " = "@ + "length("@ + "pos_view"@ + "."@ by {
        reveal_strlit("    float psize_d = length(pos_view.");
        reveal_strlit("    ");
        reveal_strlit("float");
        reveal_strlit(" ");
        reveal_strlit("psize_d");
        reveal_strlit(" = ");
        reveal_strlit("length(");
        reveal_strlit("pos_view");
        reveal_strlit(".");
        assert(x + "    float psize_d = length(pos_view."@ =~= x + "    "@ + "float"@ + " "@
            + "psize_d"@ + " = "@ + "length("@ + "pos_view"@ + "."@);
    }
    assert forall|x: Seq<char>| #[trigger] (x + "xyz);\n"@) == x + "xyz"@ + ")"@ + ";\n"@ by {
        reveal_strlit("xyz);\n");
        reveal_strlit("xyz");
        reveal_strlit(")");
        reveal_strlit(";\n");
        assert(x + "xyz);\n"@ =~= x + "xyz"@ + ")"@ + ";\n"@);
    }
}

proof fn scaled_point_line_2(acc: Seq<char>)
    ensures
        acc
            + "    psize *= ((-1.0 / pos_fixup.y) / pos_fixup.w) / sqrt(max(vs_draw.point_scale.x + vs_draw.point_scale.y * psize_d + vs_draw.point_scale.z * psize_d * psize_d, 0.000001));\n"@
            == scaled_point_2().behind(acc, "    "@),
        scaled_point_2().is_plain(),
{
    reveal_with_fuel(Expr::behind, 9);
    reveal_with_fuel(Expr::is_plain, 9);
    assert forall|x: Seq<char>| #[trigger] (x
        + "    psize *= ((-1.0 / pos_fixup.y) / pos_fixup.w) / sqrt(max(vs_draw.point_scale.x + vs_draw.point_scale.y * psize_d + vs_draw.point_scale.z * psize_d * psize_d, 0.000001));\n"@)
        == x + "    psize *= ((-1.0 / "@ + "pos_fixup.y) / pos_fixup.w"@
        + ") / sqrt(max(vs_draw.point_scale.x + "@
        + "vs_draw.point_scale.y * psize_d + vs_draw.point_scale."@
        + "z * psize_d * psize_d, 0.000001)"@ + ");\n"@ by {
        reveal_strlit("    psize *= ((-1.0 / pos_fixup.y) / pos_fixup.w) / sqrt(max(vs_draw.point_scale.x + vs_draw.point_scale.y * psize_d + vs_draw.point_scale.z * psize_d * psize_d, 0.000001));\n");
        reveal_strlit("    psize *= ((-1.0 / ");
        reveal_strlit("pos_fixup.y) / pos_fixup.w");
        reveal_strlit(") / sqrt(max(vs_draw.point_scale.x + ");
        reveal_strlit("vs_draw.point_scale.y * psize_d + vs_draw.point_scale.");
        reveal_strlit("z * psize_d * psize_d, 0.000001)");
        reveal_strlit(");\n");
        assert(x
            + "    psize *= ((-1.0 / pos_fixup.y) / pos_fixup.w) / sqrt(max(vs_draw.point_scale.x + vs_draw.point_scale.y * psize_d + vs_draw.point_scale.z * psize_d * psize_d, 0.000001));\n"@
            =~= x + "    psize *= ((-1.0 / "@ + "pos_fixup.y) / pos_fixup.w"@
            + ") / sqrt(max(vs_draw.point_scale.x + "@
            + "vs_draw.point_scale.y * psize_d + vs_draw.point_scale."@
            + "z * psize_d * psize_d, 0.000001)"@ + ");\n"@);
    }
    assert forall|x: Seq<char>| #[trigger] (x + "    psize *= ((-1.0 / "@) == x + "    "@ + "psize"@
        + " *= "@ + "("@ + "("@ + "-"@ + "1.0"@ + " / "@ by {
        reveal_strlit("    psize *= ((-1.0 / ");
        reveal_strlit("    ");
        reveal_strlit("psize");
        reveal_strlit(" *= ");
        reveal_strlit("(");
        reveal_strlit("-");
        reveal_strlit("1.0");
        reveal_strlit(" / ");
        assert(x + "    psize *= ((-1.0 / "@ =~= x + "    "@ + "psize"@ + " *= "@ + "("@ + "("@
            + "-"@ + "1.0"@ + " / "@);
    }
    assert forall|x: Seq<char>| #[trigger] (x + "pos_fixup.y) / pos_fixup.w"@) == x + "pos_fixup"@
        + "."@ + "y"@ + ")"@ + " / "@ + "pos_fixup"@ + "."@ + "w"@ by {
        reveal_strlit("pos_fixup.y) / pos_fixup.w");
        reveal_strlit("pos_fixup");
        reveal_strlit(".");
        reveal_strlit("y");
        reveal_strlit(")");
        reveal_strlit(" / ");
        reveal_strlit("w");
        assert(x + "pos_fixup.y) / pos_fixup.w"@ =~= x + "pos_fixup"@ + "."@ + "y"@ + ")"@ + " / "@
            + "pos_fixup"@ + "."@ + "w"@);
    }
    assert forall|x: Seq<char>| #[trigger] (x + ") / sqrt(max(vs_draw.point_scale.x + "@) == x
        + ")"@ + " / "@ + "sqrt("@ + "max("@ + "vs_draw.point_scale"@ + "."@ + "x"@ + " + "@ by {
        reveal_strlit(") / sqrt(max(vs_draw.point_scale.x + ");
        reveal_strlit(")");
        reveal_strlit(" / ");
        reveal_strlit("sqrt(");
        reveal_strlit("max(");
        reveal_strlit("vs_draw.point_scale");
        reveal_strlit(".");
        reveal_strlit("x");
        reveal_strlit(" + ");
        assert(x + ") / sqrt(max(vs_draw.point_scale.x + "@ =~= x + ")"@ + " / "@ + "sqrt("@
            + "max("@ + "vs_draw.point_scale"@ + "."@ + "x"@ + " + "@);
    }
    assert forall|x: Seq<char>| #[trigger] (x
        + "vs_draw.point_scale.y * psize_d + vs_draw.point_scale."@) == x + "vs_draw.point_scale"@
        + "."@ + "y"@ + " * "@ + "psize_d"@ + " + "@ + "vs_draw.point_scale"@ + "."@ by {
        reveal_strlit("vs_draw.point_scale.y * psize_d + vs_draw.point_scale.");
        reveal_strlit("vs_draw.point_scale");
        reveal_strlit(".");
        reveal_strlit("y");
        reveal_strlit(" * ");
        reveal_strlit("psize_d");
        reveal_strlit(" + ");
        assert(x + "vs_draw.point_scale.y * psize_d + vs_draw.point_scale."@ =~= x
            + "vs_draw.point_scale"@ + "."@ + "y"@ + " * "@ + "psize_d"@ + " + "@
            + "vs_draw.point_scale"@ + "."@);
    }
    assert forall|x: Seq<char>| #[trigger] (x + "z * psize_d * psize_d, 0.000001)"@) == x + "z"@
        + " * "@ + "psize_d"@ + " * "@ + "psize_d"@ + ", "@ + "0.000001"@ + ")"@ by {
        reveal_strlit("z * psize_d * psize_d, 0.000001)");
        reveal_strlit("z");
        reveal_strlit(" * ");
        reveal_strlit("psize_d");
        reveal_strlit(", ");
        reveal_strlit("0.000001");
        reveal_strlit(")");
        assert(x + "z * psize_d * psize_d, 0.000001)"@ =~= x + "z"@ + " * "@ + "psize_d"@ + " * "@
            + "psize_d"@ + ", "@ + "0.000001"@ + ")"@);
    }
    assert forall|x: Seq<char>| #[trigger] (x + ");\n"@) == x + ")"@ + ";\n"@ by {
        reveal_strlit(");\n");
        reveal_strlit(")");
        reveal_strlit(";\n");
        assert(x + ");\n"@ =~= x + ")"@ + ";\n"@);
    }
}

proof fn scaled_point_line_3(acc: Seq<char>)
    ensures
        acc
            + "    out.point_size = clamp(psize, vs_draw.point.y, vs_draw.point.z) * pos_fixup.w;\n"@
            == scaled_point_3().behind(acc, "    "@),
        scaled_point_3().is_plain(),
{
    reveal_with_fuel(Expr::behind, 5);
    reveal_with_fuel(Expr::is_plain, 5);
    assert forall|x: Seq<char>| #[trigger] (x
        + "    out.point_size = clamp(psize, vs_draw.point.y, vs_draw.point.z) * pos_fixup.w;\n"@)
        == x + "    out.point_size = clamp(psize, vs_draw.point."@
        + "y, vs_draw.point.z) * pos_fixup"@ + ".w;\n"@ by {
        reveal_strlit("    out.point_size = clamp(psize, vs_draw.point.y, vs_draw.point.z) * pos_fixup.w;\n");
        reveal_strlit("    out.point_size = clamp(psize, vs_draw.point.");
        reveal_strlit("y, vs_draw.point.z) * pos_fixup");
        reveal_strlit(".w;\n");
        assert(x
            + "    out.point_size = clamp(psize, vs_draw.point.y, vs_draw.point.z) * pos_fixup.w;\n"@
            =~= x + "    out.point_size = clamp(psize, vs_draw.point."@
            + "y, vs_draw.point.z) * pos_fixup"@ + ".w;\n"@);
    }
    assert forall|x: Seq<char>| #[trigger] (x + "    out.point_size = clamp(psize, vs_draw.point."@)
        == x + "    "@ + "out.point_size"@ + " = "@ + "clamp("@ + "psize"@ + ", "@
        + "vs_draw.point"@ + "."@ by {
        reveal_strlit("    out.point_size = clamp(psize, vs_draw.point.");
        reveal_strlit("    ");
        reveal_strlit("out.point_size");
        reveal_strlit(" = ");
        reveal_strlit("clamp(");
        reveal_strlit("psize");
        reveal_strlit(", ");
        reveal_strlit("vs_draw.point");
        reveal_strlit(".");
        assert(x + "    out.point_size = clamp(psize, vs_draw.point."@ =~= x + "    "@
            + "out.point_size"@ + " = "@ + "clamp("@ + "psize"@ + ", "@ + "vs_draw.point"@ + "."@);
    }
    assert forall|x: Seq<char>| #[trigger] (x + "y, vs_draw.point.z) * pos_fixup"@) == x + "y"@
        + ", "@ + "vs_draw.point"@ + "."@ + "z"@ + ")"@ + " * "@ + "pos_fixup"@ by {
        reveal_strlit("y, vs_draw.point.z) * pos_fixup");
        reveal_strlit("y");
        reveal_strlit(", ");
        reveal_strlit("vs_draw.point");
        reveal_strlit(".");
        reveal_strlit("z");
        reveal_strlit(")");
        reveal_strlit(" * ");
        reveal_strlit("pos_fixup");
        assert(x + "y, vs_draw.point.z) * pos_fixup"@ =~= x + "y"@ + ", "@ + "vs_draw.point"@ + "."@
            + "z"@ + ")"@ + " * "@ + "pos_fixup"@);
    }
    assert forall|x: Seq<char>| #[trigger] (x + ".w;\n"@) == x + "."@ + "w"@ + ";\n"@ by {
        reveal_strlit(".w;\n");
        reveal_strlit(".");
        reveal_strlit("w");
        reveal_strlit(";\n");
        assert(x + ".w;\n"@ =~= x + "."@ + "w"@ + ";\n"@);
    }
}

proof fn scaled_point_is_written()
    ensures
        is_program(
            "    float psize = vs_draw.point.x;\n"@ + "    float psize_d = length(pos_view.xyz);\n"@
                + "    psize *= ((-1.0 / pos_fixup.y) / pos_fixup.w) / sqrt(max(vs_draw.point_scale.x + vs_draw.point_scale.y * psize_d + vs_draw.point_scale.z * psize_d * psize_d, 0.000001));\n"@
                + "    out.point_size = clamp(psize, vs_draw.point.y, vs_draw.point.z) * pos_fixup.w;\n"@,
            scaled_point_program(),
            Seq::empty(),
            "    "@,
        ),
{
    reveal_with_fuel(lines, 5);
    let p4 = scaled_point_program();
    let p3 = seq![p4[0], p4[1], p4[2]];
    assert(p4.drop_last() =~= p3);
    let p2 = seq![p4[0], p4[1]];
    assert(p3.drop_last() =~= p2);
    let p1 = seq![p4[0]];
    assert(p2.drop_last() =~= p1);
    assert(p1.drop_last() =~= Seq::empty());
    let a0 = Seq::<char>::empty();
    assert(a0 + "    float psize = vs_draw.point.x;\n"@
        =~= "    float psize = vs_draw.point.x;\n"@);
    scaled_point_line_0(a0);
    let a1 = a0 + "    float psize = vs_draw.point.x;\n"@;
    assert(lines(p1, a0, "    "@) == a1);
    scaled_point_line_1(a1);
    let a2 = a1 + "    float psize_d = length(pos_view.xyz);\n"@;
    assert(lines(p2, a0, "    "@) == a2);
    scaled_point_line_2(a2);
    let a3 = a2
        + "    psize *= ((-1.0 / pos_fixup.y) / pos_fixup.w) / sqrt(max(vs_draw.point_scale.x + vs_draw.point_scale.y * psize_d + vs_draw.point_scale.z * psize_d * psize_d, 0.000001));\n"@;
    assert(lines(p3, a0, "    "@) == a3);
    scaled_point_line_3(a3);
    let a4 = a3
        + "    out.point_size = clamp(psize, vs_draw.point.y, vs_draw.point.z) * pos_fixup.w;\n"@;
    assert(lines(p4, a0, "    "@) == a4);
}

#[verifier::rlimit(50)]
proof fn scaled_point_runs(key: FfVsKey, env: Env)
    requires
        holds_point(env),
        !key.flags.has(FfVsFlags::HAS_PSIZE),
        (key.flags.has(FfVsFlags::POINT_SCALE) && !key.flags.has(FfVsFlags::HAS_RHW)),
    ensures
        named(after(scaled_point_program(), env), "out.point_size"@) == seq![final_size(key, env)],
{
    reveal_with_fuel(after, 5);
    reveal_with_fuel(Expr::value, 9);
    reveal_with_fuel(inner, 5);
    numerals();
    reveal_strlit("w");
    reveal_strlit("x");
    reveal_strlit("xyz");
    reveal_strlit("y");
    reveal_strlit("z");
    reveal_strlit("in.psize");
    reveal_strlit("out.point_size");
    reveal_strlit("pos_fixup");
    reveal_strlit("pos_view");
    reveal_strlit("psize");
    reveal_strlit("psize_d");
    reveal_strlit("vs_draw.point");
    reveal_strlit("vs_draw.point_scale");
    assert("psize"@.len() != "in.psize"@.len());
    assert("psize"@.len() != "out.point_size"@.len());
    assert("psize"@.len() != "pos_fixup"@.len());
    assert("psize"@.len() != "pos_view"@.len());
    assert("psize"@.len() != "psize_d"@.len());
    assert("psize"@.len() != "vs_draw.point"@.len());
    assert("psize"@.len() != "vs_draw.point_scale"@.len());
    assert("psize_d"@.len() != "in.psize"@.len());
    assert("psize_d"@.len() != "out.point_size"@.len());
    assert("psize_d"@.len() != "pos_fixup"@.len());
    assert("psize_d"@.len() != "pos_view"@.len());
    assert("psize_d"@.len() != "vs_draw.point"@.len());
    assert("psize_d"@.len() != "vs_draw.point_scale"@.len());
    assert("out.point_size"@.len() != "in.psize"@.len());
    assert("out.point_size"@.len() != "pos_fixup"@.len());
    assert("out.point_size"@.len() != "pos_view"@.len());
    assert("out.point_size"@.len() != "vs_draw.point"@.len());
    assert("out.point_size"@.len() != "vs_draw.point_scale"@.len());
    least_divisor();
    let v = named(env, "pos_view"@);
    let k = named(env, "vs_draw.point_scale"@);
    let d = (env.library.sqrt)(v[0] * v[0] + v[1] * v[1] + v[2] * v[2]);
    let q = k[0] + k[1] * d + k[2] * d * d;
    let p4 = scaled_point_program();
    let p3 = seq![p4[0], p4[1], p4[2]];
    assert(p4.drop_last() =~= p3);
    let p2 = seq![p4[0], p4[1]];
    assert(p3.drop_last() =~= p2);
    let p1 = seq![p4[0]];
    assert(p2.drop_last() =~= p1);
    assert(p1.drop_last() =~= Seq::empty());
    let e0 = env;
    let e1 = p4[0].run(e0);
    assert(named(e1, "psize"@) =~= seq![asked_size(key, env)]);
    assert(named(e1, "vs_draw.point"@) == named(env, "vs_draw.point"@));
    assert(named(e1, "vs_draw.point_scale"@) == named(env, "vs_draw.point_scale"@));
    assert(named(e1, "pos_fixup"@) == named(env, "pos_fixup"@));
    assert(named(e1, "pos_view"@) == named(env, "pos_view"@));
    let e2 = p4[1].run(e1);
    assert(named(e2, "psize_d"@) =~= seq![d]);
    assert(named(e2, "psize"@) == seq![asked_size(key, env)]);
    assert(named(e2, "vs_draw.point"@) == named(env, "vs_draw.point"@));
    assert(named(e2, "vs_draw.point_scale"@) == named(env, "vs_draw.point_scale"@));
    assert(named(e2, "pos_fixup"@) == named(env, "pos_fixup"@));
    let e3 = p4[2].run(e2);
    assert(named(e3, "psize"@) =~= seq![
        asked_size(key, env) * (viewport_height(env) / (env.library.sqrt)(
            greater(q, whole(1) / whole(1000000)),
        )),
    ]);
    assert(named(e3, "vs_draw.point"@) == named(env, "vs_draw.point"@));
    assert(named(e3, "pos_fixup"@) == named(env, "pos_fixup"@));
    let e4 = p4[3].run(e3);
    assert(named(e4, "out.point_size"@) =~= seq![final_size(key, env)]);
    assert(after(p4, env) == e4);
}

spec fn own_point_0() -> Statement {
    Statement::Declare("float"@, "psize"@, name("in.psize"@))
}

spec fn own_point_1() -> Statement {
    Statement::Assign(
        "out.point_size"@,
        infix(
            Operator::Times,
            call_3(
                Function::Clamp,
                name("psize"@),
                lanes(name("vs_draw.point"@), "y"@),
                lanes(name("vs_draw.point"@), "z"@),
            ),
            lanes(name("pos_fixup"@), "w"@),
        ),
    )
}

spec fn own_point_program() -> Seq<Statement> {
    seq![
        own_point_0(),
        own_point_1(),
    ]
}

proof fn own_point_line_0(acc: Seq<char>)
    ensures
        acc + "    float psize = in.psize;\n"@ == own_point_0().behind(acc, "    "@),
        own_point_0().is_plain(),
{
    reveal_with_fuel(Expr::behind, 2);
    reveal_with_fuel(Expr::is_plain, 2);
    assert forall|x: Seq<char>| #[trigger] (x + "    float psize = in.psize;\n"@) == x + "    "@
        + "float"@ + " "@ + "psize"@ + " = "@ + "in.psize"@ + ";\n"@ by {
        reveal_strlit("    float psize = in.psize;\n");
        reveal_strlit("    ");
        reveal_strlit("float");
        reveal_strlit(" ");
        reveal_strlit("psize");
        reveal_strlit(" = ");
        reveal_strlit("in.psize");
        reveal_strlit(";\n");
        assert(x + "    float psize = in.psize;\n"@ =~= x + "    "@ + "float"@ + " "@ + "psize"@
            + " = "@ + "in.psize"@ + ";\n"@);
    }
}

proof fn own_point_line_1(acc: Seq<char>)
    ensures
        acc
            + "    out.point_size = clamp(psize, vs_draw.point.y, vs_draw.point.z) * pos_fixup.w;\n"@
            == own_point_1().behind(acc, "    "@),
        own_point_1().is_plain(),
{
    reveal_with_fuel(Expr::behind, 5);
    reveal_with_fuel(Expr::is_plain, 5);
    assert forall|x: Seq<char>| #[trigger] (x
        + "    out.point_size = clamp(psize, vs_draw.point.y, vs_draw.point.z) * pos_fixup.w;\n"@)
        == x + "    out.point_size = clamp(psize, vs_draw.point."@
        + "y, vs_draw.point.z) * pos_fixup"@ + ".w;\n"@ by {
        reveal_strlit("    out.point_size = clamp(psize, vs_draw.point.y, vs_draw.point.z) * pos_fixup.w;\n");
        reveal_strlit("    out.point_size = clamp(psize, vs_draw.point.");
        reveal_strlit("y, vs_draw.point.z) * pos_fixup");
        reveal_strlit(".w;\n");
        assert(x
            + "    out.point_size = clamp(psize, vs_draw.point.y, vs_draw.point.z) * pos_fixup.w;\n"@
            =~= x + "    out.point_size = clamp(psize, vs_draw.point."@
            + "y, vs_draw.point.z) * pos_fixup"@ + ".w;\n"@);
    }
    assert forall|x: Seq<char>| #[trigger] (x + "    out.point_size = clamp(psize, vs_draw.point."@)
        == x + "    "@ + "out.point_size"@ + " = "@ + "clamp("@ + "psize"@ + ", "@
        + "vs_draw.point"@ + "."@ by {
        reveal_strlit("    out.point_size = clamp(psize, vs_draw.point.");
        reveal_strlit("    ");
        reveal_strlit("out.point_size");
        reveal_strlit(" = ");
        reveal_strlit("clamp(");
        reveal_strlit("psize");
        reveal_strlit(", ");
        reveal_strlit("vs_draw.point");
        reveal_strlit(".");
        assert(x + "    out.point_size = clamp(psize, vs_draw.point."@ =~= x + "    "@
            + "out.point_size"@ + " = "@ + "clamp("@ + "psize"@ + ", "@ + "vs_draw.point"@ + "."@);
    }
    assert forall|x: Seq<char>| #[trigger] (x + "y, vs_draw.point.z) * pos_fixup"@) == x + "y"@
        + ", "@ + "vs_draw.point"@ + "."@ + "z"@ + ")"@ + " * "@ + "pos_fixup"@ by {
        reveal_strlit("y, vs_draw.point.z) * pos_fixup");
        reveal_strlit("y");
        reveal_strlit(", ");
        reveal_strlit("vs_draw.point");
        reveal_strlit(".");
        reveal_strlit("z");
        reveal_strlit(")");
        reveal_strlit(" * ");
        reveal_strlit("pos_fixup");
        assert(x + "y, vs_draw.point.z) * pos_fixup"@ =~= x + "y"@ + ", "@ + "vs_draw.point"@ + "."@
            + "z"@ + ")"@ + " * "@ + "pos_fixup"@);
    }
    assert forall|x: Seq<char>| #[trigger] (x + ".w;\n"@) == x + "."@ + "w"@ + ";\n"@ by {
        reveal_strlit(".w;\n");
        reveal_strlit(".");
        reveal_strlit("w");
        reveal_strlit(";\n");
        assert(x + ".w;\n"@ =~= x + "."@ + "w"@ + ";\n"@);
    }
}

proof fn own_point_is_written()
    ensures
        is_program(
            "    float psize = in.psize;\n"@
                + "    out.point_size = clamp(psize, vs_draw.point.y, vs_draw.point.z) * pos_fixup.w;\n"@,
            own_point_program(),
            Seq::empty(),
            "    "@,
        ),
{
    reveal_with_fuel(lines, 3);
    let p2 = own_point_program();
    let p1 = seq![p2[0]];
    assert(p2.drop_last() =~= p1);
    assert(p1.drop_last() =~= Seq::empty());
    let a0 = Seq::<char>::empty();
    assert(a0 + "    float psize = in.psize;\n"@ =~= "    float psize = in.psize;\n"@);
    own_point_line_0(a0);
    let a1 = a0 + "    float psize = in.psize;\n"@;
    assert(lines(p1, a0, "    "@) == a1);
    own_point_line_1(a1);
    let a2 = a1
        + "    out.point_size = clamp(psize, vs_draw.point.y, vs_draw.point.z) * pos_fixup.w;\n"@;
    assert(lines(p2, a0, "    "@) == a2);
}

#[verifier::rlimit(50)]
proof fn own_point_runs(key: FfVsKey, env: Env)
    requires
        holds_point(env),
        key.flags.has(FfVsFlags::HAS_PSIZE),
        !(key.flags.has(FfVsFlags::POINT_SCALE) && !key.flags.has(FfVsFlags::HAS_RHW)),
    ensures
        named(after(own_point_program(), env), "out.point_size"@) == seq![final_size(key, env)],
{
    reveal_with_fuel(after, 3);
    reveal_with_fuel(Expr::value, 5);
    reveal_with_fuel(inner, 5);
    reveal_strlit("w");
    reveal_strlit("y");
    reveal_strlit("z");
    reveal_strlit("in.psize");
    reveal_strlit("out.point_size");
    reveal_strlit("pos_fixup");
    reveal_strlit("pos_view");
    reveal_strlit("psize");
    reveal_strlit("psize_d");
    reveal_strlit("vs_draw.point");
    reveal_strlit("vs_draw.point_scale");
    assert("psize"@.len() != "in.psize"@.len());
    assert("psize"@.len() != "out.point_size"@.len());
    assert("psize"@.len() != "pos_fixup"@.len());
    assert("psize"@.len() != "pos_view"@.len());
    assert("psize"@.len() != "psize_d"@.len());
    assert("psize"@.len() != "vs_draw.point"@.len());
    assert("psize"@.len() != "vs_draw.point_scale"@.len());
    assert("out.point_size"@.len() != "in.psize"@.len());
    assert("out.point_size"@.len() != "pos_fixup"@.len());
    assert("out.point_size"@.len() != "pos_view"@.len());
    assert("out.point_size"@.len() != "psize_d"@.len());
    assert("out.point_size"@.len() != "vs_draw.point"@.len());
    assert("out.point_size"@.len() != "vs_draw.point_scale"@.len());
    let p2 = own_point_program();
    let p1 = seq![p2[0]];
    assert(p2.drop_last() =~= p1);
    assert(p1.drop_last() =~= Seq::empty());
    let e0 = env;
    let e1 = p2[0].run(e0);
    assert(named(e1, "psize"@) =~= seq![asked_size(key, env)]);
    assert(named(e1, "vs_draw.point"@) == named(env, "vs_draw.point"@));
    assert(named(e1, "vs_draw.point_scale"@) == named(env, "vs_draw.point_scale"@));
    assert(named(e1, "pos_fixup"@) == named(env, "pos_fixup"@));
    assert(named(e1, "pos_view"@) == named(env, "pos_view"@));
    let e2 = p2[1].run(e1);
    assert(named(e2, "out.point_size"@) =~= seq![final_size(key, env)]);
    assert(after(p2, env) == e2);
}

spec fn own_scaled_point_0() -> Statement {
    Statement::Declare("float"@, "psize"@, name("in.psize"@))
}

spec fn own_scaled_point_1() -> Statement {
    Statement::Declare(
        "float"@,
        "psize_d"@,
        call_1(Function::Length, lanes(name("pos_view"@), "xyz"@)),
    )
}

spec fn own_scaled_point_2() -> Statement {
    Statement::Scale(
        "psize"@,
        infix(
            Operator::Over,
            group(
                infix(
                    Operator::Over,
                    group(
                        infix(
                            Operator::Over,
                            negated(number("1.0"@)),
                            lanes(name("pos_fixup"@), "y"@),
                        ),
                    ),
                    lanes(name("pos_fixup"@), "w"@),
                ),
            ),
            call_1(
                Function::Sqrt,
                call_2(
                    Function::Max,
                    infix(
                        Operator::Plus,
                        infix(
                            Operator::Plus,
                            lanes(name("vs_draw.point_scale"@), "x"@),
                            infix(
                                Operator::Times,
                                lanes(name("vs_draw.point_scale"@), "y"@),
                                name("psize_d"@),
                            ),
                        ),
                        infix(
                            Operator::Times,
                            infix(
                                Operator::Times,
                                lanes(name("vs_draw.point_scale"@), "z"@),
                                name("psize_d"@),
                            ),
                            name("psize_d"@),
                        ),
                    ),
                    number("0.000001"@),
                ),
            ),
        ),
    )
}

spec fn own_scaled_point_3() -> Statement {
    Statement::Assign(
        "out.point_size"@,
        infix(
            Operator::Times,
            call_3(
                Function::Clamp,
                name("psize"@),
                lanes(name("vs_draw.point"@), "y"@),
                lanes(name("vs_draw.point"@), "z"@),
            ),
            lanes(name("pos_fixup"@), "w"@),
        ),
    )
}

spec fn own_scaled_point_program() -> Seq<Statement> {
    seq![
        own_scaled_point_0(),
        own_scaled_point_1(),
        own_scaled_point_2(),
        own_scaled_point_3(),
    ]
}

proof fn own_scaled_point_line_0(acc: Seq<char>)
    ensures
        acc + "    float psize = in.psize;\n"@ == own_scaled_point_0().behind(acc, "    "@),
        own_scaled_point_0().is_plain(),
{
    reveal_with_fuel(Expr::behind, 2);
    reveal_with_fuel(Expr::is_plain, 2);
    assert forall|x: Seq<char>| #[trigger] (x + "    float psize = in.psize;\n"@) == x + "    "@
        + "float"@ + " "@ + "psize"@ + " = "@ + "in.psize"@ + ";\n"@ by {
        reveal_strlit("    float psize = in.psize;\n");
        reveal_strlit("    ");
        reveal_strlit("float");
        reveal_strlit(" ");
        reveal_strlit("psize");
        reveal_strlit(" = ");
        reveal_strlit("in.psize");
        reveal_strlit(";\n");
        assert(x + "    float psize = in.psize;\n"@ =~= x + "    "@ + "float"@ + " "@ + "psize"@
            + " = "@ + "in.psize"@ + ";\n"@);
    }
}

proof fn own_scaled_point_line_1(acc: Seq<char>)
    ensures
        acc + "    float psize_d = length(pos_view.xyz);\n"@
            == own_scaled_point_1().behind(acc, "    "@),
        own_scaled_point_1().is_plain(),
{
    reveal_with_fuel(Expr::behind, 4);
    reveal_with_fuel(Expr::is_plain, 4);
    assert forall|x: Seq<char>| #[trigger] (x + "    float psize_d = length(pos_view.xyz);\n"@) == x
        + "    float psize_d = length(pos_view."@ + "xyz);\n"@ by {
        reveal_strlit("    float psize_d = length(pos_view.xyz);\n");
        reveal_strlit("    float psize_d = length(pos_view.");
        reveal_strlit("xyz);\n");
        assert(x + "    float psize_d = length(pos_view.xyz);\n"@ =~= x
            + "    float psize_d = length(pos_view."@ + "xyz);\n"@);
    }
    assert forall|x: Seq<char>| #[trigger] (x + "    float psize_d = length(pos_view."@) == x
        + "    "@ + "float"@ + " "@ + "psize_d"@ + " = "@ + "length("@ + "pos_view"@ + "."@ by {
        reveal_strlit("    float psize_d = length(pos_view.");
        reveal_strlit("    ");
        reveal_strlit("float");
        reveal_strlit(" ");
        reveal_strlit("psize_d");
        reveal_strlit(" = ");
        reveal_strlit("length(");
        reveal_strlit("pos_view");
        reveal_strlit(".");
        assert(x + "    float psize_d = length(pos_view."@ =~= x + "    "@ + "float"@ + " "@
            + "psize_d"@ + " = "@ + "length("@ + "pos_view"@ + "."@);
    }
    assert forall|x: Seq<char>| #[trigger] (x + "xyz);\n"@) == x + "xyz"@ + ")"@ + ";\n"@ by {
        reveal_strlit("xyz);\n");
        reveal_strlit("xyz");
        reveal_strlit(")");
        reveal_strlit(";\n");
        assert(x + "xyz);\n"@ =~= x + "xyz"@ + ")"@ + ";\n"@);
    }
}

proof fn own_scaled_point_line_2(acc: Seq<char>)
    ensures
        acc
            + "    psize *= ((-1.0 / pos_fixup.y) / pos_fixup.w) / sqrt(max(vs_draw.point_scale.x + vs_draw.point_scale.y * psize_d + vs_draw.point_scale.z * psize_d * psize_d, 0.000001));\n"@
            == own_scaled_point_2().behind(acc, "    "@),
        own_scaled_point_2().is_plain(),
{
    reveal_with_fuel(Expr::behind, 9);
    reveal_with_fuel(Expr::is_plain, 9);
    assert forall|x: Seq<char>| #[trigger] (x
        + "    psize *= ((-1.0 / pos_fixup.y) / pos_fixup.w) / sqrt(max(vs_draw.point_scale.x + vs_draw.point_scale.y * psize_d + vs_draw.point_scale.z * psize_d * psize_d, 0.000001));\n"@)
        == x + "    psize *= ((-1.0 / "@ + "pos_fixup.y) / pos_fixup.w"@
        + ") / sqrt(max(vs_draw.point_scale.x + "@
        + "vs_draw.point_scale.y * psize_d + vs_draw.point_scale."@
        + "z * psize_d * psize_d, 0.000001)"@ + ");\n"@ by {
        reveal_strlit("    psize *= ((-1.0 / pos_fixup.y) / pos_fixup.w) / sqrt(max(vs_draw.point_scale.x + vs_draw.point_scale.y * psize_d + vs_draw.point_scale.z * psize_d * psize_d, 0.000001));\n");
        reveal_strlit("    psize *= ((-1.0 / ");
        reveal_strlit("pos_fixup.y) / pos_fixup.w");
        reveal_strlit(") / sqrt(max(vs_draw.point_scale.x + ");
        reveal_strlit("vs_draw.point_scale.y * psize_d + vs_draw.point_scale.");
        reveal_strlit("z * psize_d * psize_d, 0.000001)");
        reveal_strlit(");\n");
        assert(x
            + "    psize *= ((-1.0 / pos_fixup.y) / pos_fixup.w) / sqrt(max(vs_draw.point_scale.x + vs_draw.point_scale.y * psize_d + vs_draw.point_scale.z * psize_d * psize_d, 0.000001));\n"@
            =~= x + "    psize *= ((-1.0 / "@ + "pos_fixup.y) / pos_fixup.w"@
            + ") / sqrt(max(vs_draw.point_scale.x + "@
            + "vs_draw.point_scale.y * psize_d + vs_draw.point_scale."@
            + "z * psize_d * psize_d, 0.000001)"@ + ");\n"@);
    }
    assert forall|x: Seq<char>| #[trigger] (x + "    psize *= ((-1.0 / "@) == x + "    "@ + "psize"@
        + " *= "@ + "("@ + "("@ + "-"@ + "1.0"@ + " / "@ by {
        reveal_strlit("    psize *= ((-1.0 / ");
        reveal_strlit("    ");
        reveal_strlit("psize");
        reveal_strlit(" *= ");
        reveal_strlit("(");
        reveal_strlit("-");
        reveal_strlit("1.0");
        reveal_strlit(" / ");
        assert(x + "    psize *= ((-1.0 / "@ =~= x + "    "@ + "psize"@ + " *= "@ + "("@ + "("@
            + "-"@ + "1.0"@ + " / "@);
    }
    assert forall|x: Seq<char>| #[trigger] (x + "pos_fixup.y) / pos_fixup.w"@) == x + "pos_fixup"@
        + "."@ + "y"@ + ")"@ + " / "@ + "pos_fixup"@ + "."@ + "w"@ by {
        reveal_strlit("pos_fixup.y) / pos_fixup.w");
        reveal_strlit("pos_fixup");
        reveal_strlit(".");
        reveal_strlit("y");
        reveal_strlit(")");
        reveal_strlit(" / ");
        reveal_strlit("w");
        assert(x + "pos_fixup.y) / pos_fixup.w"@ =~= x + "pos_fixup"@ + "."@ + "y"@ + ")"@ + " / "@
            + "pos_fixup"@ + "."@ + "w"@);
    }
    assert forall|x: Seq<char>| #[trigger] (x + ") / sqrt(max(vs_draw.point_scale.x + "@) == x
        + ")"@ + " / "@ + "sqrt("@ + "max("@ + "vs_draw.point_scale"@ + "."@ + "x"@ + " + "@ by {
        reveal_strlit(") / sqrt(max(vs_draw.point_scale.x + ");
        reveal_strlit(")");
        reveal_strlit(" / ");
        reveal_strlit("sqrt(");
        reveal_strlit("max(");
        reveal_strlit("vs_draw.point_scale");
        reveal_strlit(".");
        reveal_strlit("x");
        reveal_strlit(" + ");
        assert(x + ") / sqrt(max(vs_draw.point_scale.x + "@ =~= x + ")"@ + " / "@ + "sqrt("@
            + "max("@ + "vs_draw.point_scale"@ + "."@ + "x"@ + " + "@);
    }
    assert forall|x: Seq<char>| #[trigger] (x
        + "vs_draw.point_scale.y * psize_d + vs_draw.point_scale."@) == x + "vs_draw.point_scale"@
        + "."@ + "y"@ + " * "@ + "psize_d"@ + " + "@ + "vs_draw.point_scale"@ + "."@ by {
        reveal_strlit("vs_draw.point_scale.y * psize_d + vs_draw.point_scale.");
        reveal_strlit("vs_draw.point_scale");
        reveal_strlit(".");
        reveal_strlit("y");
        reveal_strlit(" * ");
        reveal_strlit("psize_d");
        reveal_strlit(" + ");
        assert(x + "vs_draw.point_scale.y * psize_d + vs_draw.point_scale."@ =~= x
            + "vs_draw.point_scale"@ + "."@ + "y"@ + " * "@ + "psize_d"@ + " + "@
            + "vs_draw.point_scale"@ + "."@);
    }
    assert forall|x: Seq<char>| #[trigger] (x + "z * psize_d * psize_d, 0.000001)"@) == x + "z"@
        + " * "@ + "psize_d"@ + " * "@ + "psize_d"@ + ", "@ + "0.000001"@ + ")"@ by {
        reveal_strlit("z * psize_d * psize_d, 0.000001)");
        reveal_strlit("z");
        reveal_strlit(" * ");
        reveal_strlit("psize_d");
        reveal_strlit(", ");
        reveal_strlit("0.000001");
        reveal_strlit(")");
        assert(x + "z * psize_d * psize_d, 0.000001)"@ =~= x + "z"@ + " * "@ + "psize_d"@ + " * "@
            + "psize_d"@ + ", "@ + "0.000001"@ + ")"@);
    }
    assert forall|x: Seq<char>| #[trigger] (x + ");\n"@) == x + ")"@ + ";\n"@ by {
        reveal_strlit(");\n");
        reveal_strlit(")");
        reveal_strlit(";\n");
        assert(x + ");\n"@ =~= x + ")"@ + ";\n"@);
    }
}

proof fn own_scaled_point_line_3(acc: Seq<char>)
    ensures
        acc
            + "    out.point_size = clamp(psize, vs_draw.point.y, vs_draw.point.z) * pos_fixup.w;\n"@
            == own_scaled_point_3().behind(acc, "    "@),
        own_scaled_point_3().is_plain(),
{
    reveal_with_fuel(Expr::behind, 5);
    reveal_with_fuel(Expr::is_plain, 5);
    assert forall|x: Seq<char>| #[trigger] (x
        + "    out.point_size = clamp(psize, vs_draw.point.y, vs_draw.point.z) * pos_fixup.w;\n"@)
        == x + "    out.point_size = clamp(psize, vs_draw.point."@
        + "y, vs_draw.point.z) * pos_fixup"@ + ".w;\n"@ by {
        reveal_strlit("    out.point_size = clamp(psize, vs_draw.point.y, vs_draw.point.z) * pos_fixup.w;\n");
        reveal_strlit("    out.point_size = clamp(psize, vs_draw.point.");
        reveal_strlit("y, vs_draw.point.z) * pos_fixup");
        reveal_strlit(".w;\n");
        assert(x
            + "    out.point_size = clamp(psize, vs_draw.point.y, vs_draw.point.z) * pos_fixup.w;\n"@
            =~= x + "    out.point_size = clamp(psize, vs_draw.point."@
            + "y, vs_draw.point.z) * pos_fixup"@ + ".w;\n"@);
    }
    assert forall|x: Seq<char>| #[trigger] (x + "    out.point_size = clamp(psize, vs_draw.point."@)
        == x + "    "@ + "out.point_size"@ + " = "@ + "clamp("@ + "psize"@ + ", "@
        + "vs_draw.point"@ + "."@ by {
        reveal_strlit("    out.point_size = clamp(psize, vs_draw.point.");
        reveal_strlit("    ");
        reveal_strlit("out.point_size");
        reveal_strlit(" = ");
        reveal_strlit("clamp(");
        reveal_strlit("psize");
        reveal_strlit(", ");
        reveal_strlit("vs_draw.point");
        reveal_strlit(".");
        assert(x + "    out.point_size = clamp(psize, vs_draw.point."@ =~= x + "    "@
            + "out.point_size"@ + " = "@ + "clamp("@ + "psize"@ + ", "@ + "vs_draw.point"@ + "."@);
    }
    assert forall|x: Seq<char>| #[trigger] (x + "y, vs_draw.point.z) * pos_fixup"@) == x + "y"@
        + ", "@ + "vs_draw.point"@ + "."@ + "z"@ + ")"@ + " * "@ + "pos_fixup"@ by {
        reveal_strlit("y, vs_draw.point.z) * pos_fixup");
        reveal_strlit("y");
        reveal_strlit(", ");
        reveal_strlit("vs_draw.point");
        reveal_strlit(".");
        reveal_strlit("z");
        reveal_strlit(")");
        reveal_strlit(" * ");
        reveal_strlit("pos_fixup");
        assert(x + "y, vs_draw.point.z) * pos_fixup"@ =~= x + "y"@ + ", "@ + "vs_draw.point"@ + "."@
            + "z"@ + ")"@ + " * "@ + "pos_fixup"@);
    }
    assert forall|x: Seq<char>| #[trigger] (x + ".w;\n"@) == x + "."@ + "w"@ + ";\n"@ by {
        reveal_strlit(".w;\n");
        reveal_strlit(".");
        reveal_strlit("w");
        reveal_strlit(";\n");
        assert(x + ".w;\n"@ =~= x + "."@ + "w"@ + ";\n"@);
    }
}

proof fn own_scaled_point_is_written()
    ensures
        is_program(
            "    float psize = in.psize;\n"@ + "    float psize_d = length(pos_view.xyz);\n"@
                + "    psize *= ((-1.0 / pos_fixup.y) / pos_fixup.w) / sqrt(max(vs_draw.point_scale.x + vs_draw.point_scale.y * psize_d + vs_draw.point_scale.z * psize_d * psize_d, 0.000001));\n"@
                + "    out.point_size = clamp(psize, vs_draw.point.y, vs_draw.point.z) * pos_fixup.w;\n"@,
            own_scaled_point_program(),
            Seq::empty(),
            "    "@,
        ),
{
    reveal_with_fuel(lines, 5);
    let p4 = own_scaled_point_program();
    let p3 = seq![p4[0], p4[1], p4[2]];
    assert(p4.drop_last() =~= p3);
    let p2 = seq![p4[0], p4[1]];
    assert(p3.drop_last() =~= p2);
    let p1 = seq![p4[0]];
    assert(p2.drop_last() =~= p1);
    assert(p1.drop_last() =~= Seq::empty());
    let a0 = Seq::<char>::empty();
    assert(a0 + "    float psize = in.psize;\n"@ =~= "    float psize = in.psize;\n"@);
    own_scaled_point_line_0(a0);
    let a1 = a0 + "    float psize = in.psize;\n"@;
    assert(lines(p1, a0, "    "@) == a1);
    own_scaled_point_line_1(a1);
    let a2 = a1 + "    float psize_d = length(pos_view.xyz);\n"@;
    assert(lines(p2, a0, "    "@) == a2);
    own_scaled_point_line_2(a2);
    let a3 = a2
        + "    psize *= ((-1.0 / pos_fixup.y) / pos_fixup.w) / sqrt(max(vs_draw.point_scale.x + vs_draw.point_scale.y * psize_d + vs_draw.point_scale.z * psize_d * psize_d, 0.000001));\n"@;
    assert(lines(p3, a0, "    "@) == a3);
    own_scaled_point_line_3(a3);
    let a4 = a3
        + "    out.point_size = clamp(psize, vs_draw.point.y, vs_draw.point.z) * pos_fixup.w;\n"@;
    assert(lines(p4, a0, "    "@) == a4);
}

#[verifier::rlimit(50)]
proof fn own_scaled_point_runs(key: FfVsKey, env: Env)
    requires
        holds_point(env),
        key.flags.has(FfVsFlags::HAS_PSIZE),
        (key.flags.has(FfVsFlags::POINT_SCALE) && !key.flags.has(FfVsFlags::HAS_RHW)),
    ensures
        named(after(own_scaled_point_program(), env), "out.point_size"@)
            == seq![final_size(key, env)],
{
    reveal_with_fuel(after, 5);
    reveal_with_fuel(Expr::value, 9);
    reveal_with_fuel(inner, 5);
    numerals();
    reveal_strlit("w");
    reveal_strlit("x");
    reveal_strlit("xyz");
    reveal_strlit("y");
    reveal_strlit("z");
    reveal_strlit("in.psize");
    reveal_strlit("out.point_size");
    reveal_strlit("pos_fixup");
    reveal_strlit("pos_view");
    reveal_strlit("psize");
    reveal_strlit("psize_d");
    reveal_strlit("vs_draw.point");
    reveal_strlit("vs_draw.point_scale");
    assert("psize"@.len() != "in.psize"@.len());
    assert("psize"@.len() != "out.point_size"@.len());
    assert("psize"@.len() != "pos_fixup"@.len());
    assert("psize"@.len() != "pos_view"@.len());
    assert("psize"@.len() != "psize_d"@.len());
    assert("psize"@.len() != "vs_draw.point"@.len());
    assert("psize"@.len() != "vs_draw.point_scale"@.len());
    assert("psize_d"@.len() != "in.psize"@.len());
    assert("psize_d"@.len() != "out.point_size"@.len());
    assert("psize_d"@.len() != "pos_fixup"@.len());
    assert("psize_d"@.len() != "pos_view"@.len());
    assert("psize_d"@.len() != "vs_draw.point"@.len());
    assert("psize_d"@.len() != "vs_draw.point_scale"@.len());
    assert("out.point_size"@.len() != "in.psize"@.len());
    assert("out.point_size"@.len() != "pos_fixup"@.len());
    assert("out.point_size"@.len() != "pos_view"@.len());
    assert("out.point_size"@.len() != "vs_draw.point"@.len());
    assert("out.point_size"@.len() != "vs_draw.point_scale"@.len());
    least_divisor();
    let v = named(env, "pos_view"@);
    let k = named(env, "vs_draw.point_scale"@);
    let d = (env.library.sqrt)(v[0] * v[0] + v[1] * v[1] + v[2] * v[2]);
    let q = k[0] + k[1] * d + k[2] * d * d;
    let p4 = own_scaled_point_program();
    let p3 = seq![p4[0], p4[1], p4[2]];
    assert(p4.drop_last() =~= p3);
    let p2 = seq![p4[0], p4[1]];
    assert(p3.drop_last() =~= p2);
    let p1 = seq![p4[0]];
    assert(p2.drop_last() =~= p1);
    assert(p1.drop_last() =~= Seq::empty());
    let e0 = env;
    let e1 = p4[0].run(e0);
    assert(named(e1, "psize"@) =~= seq![asked_size(key, env)]);
    assert(named(e1, "vs_draw.point"@) == named(env, "vs_draw.point"@));
    assert(named(e1, "vs_draw.point_scale"@) == named(env, "vs_draw.point_scale"@));
    assert(named(e1, "pos_fixup"@) == named(env, "pos_fixup"@));
    assert(named(e1, "pos_view"@) == named(env, "pos_view"@));
    let e2 = p4[1].run(e1);
    assert(named(e2, "psize_d"@) =~= seq![d]);
    assert(named(e2, "psize"@) == seq![asked_size(key, env)]);
    assert(named(e2, "vs_draw.point"@) == named(env, "vs_draw.point"@));
    assert(named(e2, "vs_draw.point_scale"@) == named(env, "vs_draw.point_scale"@));
    assert(named(e2, "pos_fixup"@) == named(env, "pos_fixup"@));
    let e3 = p4[2].run(e2);
    assert(named(e3, "psize"@) =~= seq![
        asked_size(key, env) * (viewport_height(env) / (env.library.sqrt)(
            greater(q, whole(1) / whole(1000000)),
        )),
    ]);
    assert(named(e3, "vs_draw.point"@) == named(env, "vs_draw.point"@));
    assert(named(e3, "pos_fixup"@) == named(env, "pos_fixup"@));
    let e4 = p4[3].run(e3);
    assert(named(e4, "out.point_size"@) =~= seq![final_size(key, env)]);
    assert(after(p4, env) == e4);
}

spec fn point_program(key: FfVsKey) -> Seq<Statement> {
    let scaled = key.flags.has(FfVsFlags::POINT_SCALE) && !key.flags.has(FfVsFlags::HAS_RHW);
    if key.flags.has(FfVsFlags::HAS_PSIZE) {
        if scaled {
            own_scaled_point_program()
        } else {
            own_point_program()
        }
    } else if scaled {
        scaled_point_program()
    } else {
        plain_point_program()
    }
}

proof fn points_are_written(key: FfVsKey)
    ensures
        is_program(point_size(key), point_program(key), Seq::empty(), "    "@),
{
    plain_point_is_written();
    scaled_point_is_written();
    own_point_is_written();
    own_scaled_point_is_written();
    let size = if key.flags.has(FfVsFlags::HAS_PSIZE) {
        "    float psize = in.psize;\n"@
    } else {
        "    float psize = vs_draw.point.x;\n"@
    };
    let a = "    float psize_d = length(pos_view.xyz);\n"@;
    let b = "    psize *= ((-1.0 / pos_fixup.y) / pos_fixup.w) / sqrt(max(vs_draw.point_scale.x + vs_draw.point_scale.y * psize_d + vs_draw.point_scale.z * psize_d * psize_d, 0.000001));\n"@;
    assert(size + (a + b) =~= size + a + b);
    reveal_strlit("");
    assert(size + ""@ =~= size);
}

/// The statements of the point size scale it with the distance where the state
/// asks for it, and keep it in its limits.
pub proof fn points_are_scaled(key: FfVsKey)
    ensures
        exists|p: Seq<Statement>| #[trigger]
            is_program(point_size(key), p, Seq::empty(), "    "@) && forall|env: Env| #[trigger]
                holds_point(env) ==> named(after(p, env), "out.point_size"@) == seq![
                final_size(key, env),
            ],
{
    let p = point_program(key);
    points_are_written(key);
    assert forall|env: Env| #[trigger] holds_point(env) implies named(
        after(p, env),
        "out.point_size"@,
    ) == seq![final_size(key, env)] by {
        let scaled = key.flags.has(FfVsFlags::POINT_SCALE) && !key.flags.has(FfVsFlags::HAS_RHW);
        if key.flags.has(FfVsFlags::HAS_PSIZE) {
            if scaled {
                own_scaled_point_runs(key, env);
            } else {
                own_point_runs(key, env);
            }
        } else if scaled {
            scaled_point_runs(key, env);
        } else {
            plain_point_runs(key, env);
        }
    }
}

// ---------------------------------------------------------------------------
// Eye space
// ---------------------------------------------------------------------------

spec fn eye_rows_0() -> Statement {
    Statement::Declare(
        "float3"@,
        "posEye"@,
        call_3(
            Function::Float3,
            call_2(Function::Dot, name("pos"@), name("vs_c[0]"@)),
            call_2(Function::Dot, name("pos"@), name("vs_c[1]"@)),
            call_2(Function::Dot, name("pos"@), name("vs_c[2]"@)),
        ),
    )
}

spec fn eye_rows_program() -> Seq<Statement> {
    seq![
        eye_rows_0(),
    ]
}

proof fn eye_rows_line_0(acc: Seq<char>)
    ensures
        acc
            + "    float3 posEye = float3(dot(pos, vs_c[0]), dot(pos, vs_c[1]), dot(pos, vs_c[2]));\n"@
            == eye_rows_0().behind(acc, "    "@),
        eye_rows_0().is_plain(),
{
    reveal_with_fuel(Expr::behind, 4);
    reveal_with_fuel(Expr::is_plain, 4);
    assert forall|x: Seq<char>| #[trigger] (x
        + "    float3 posEye = float3(dot(pos, vs_c[0]), dot(pos, vs_c[1]), dot(pos, vs_c[2]));\n"@)
        == x + "    float3 posEye = float3(dot(pos"@ + ", vs_c[0]), dot(pos, vs_c[1]"@
        + "), dot(pos, vs_c[2]))"@ + ";\n"@ by {
        reveal_strlit("    float3 posEye = float3(dot(pos, vs_c[0]), dot(pos, vs_c[1]), dot(pos, vs_c[2]));\n");
        reveal_strlit("    float3 posEye = float3(dot(pos");
        reveal_strlit(", vs_c[0]), dot(pos, vs_c[1]");
        reveal_strlit("), dot(pos, vs_c[2]))");
        reveal_strlit(";\n");
        assert(x
            + "    float3 posEye = float3(dot(pos, vs_c[0]), dot(pos, vs_c[1]), dot(pos, vs_c[2]));\n"@
            =~= x + "    float3 posEye = float3(dot(pos"@ + ", vs_c[0]), dot(pos, vs_c[1]"@
            + "), dot(pos, vs_c[2]))"@ + ";\n"@);
    }
    assert forall|x: Seq<char>| #[trigger] (x + "    float3 posEye = float3(dot(pos"@) == x
        + "    "@ + "float3"@ + " "@ + "posEye"@ + " = "@ + "float3("@ + "dot("@ + "pos"@ by {
        reveal_strlit("    float3 posEye = float3(dot(pos");
        reveal_strlit("    ");
        reveal_strlit("float3");
        reveal_strlit(" ");
        reveal_strlit("posEye");
        reveal_strlit(" = ");
        reveal_strlit("float3(");
        reveal_strlit("dot(");
        reveal_strlit("pos");
        assert(x + "    float3 posEye = float3(dot(pos"@ =~= x + "    "@ + "float3"@ + " "@
            + "posEye"@ + " = "@ + "float3("@ + "dot("@ + "pos"@);
    }
    assert forall|x: Seq<char>| #[trigger] (x + ", vs_c[0]), dot(pos, vs_c[1]"@) == x + ", "@
        + "vs_c[0]"@ + ")"@ + ", "@ + "dot("@ + "pos"@ + ", "@ + "vs_c[1]"@ by {
        reveal_strlit(", vs_c[0]), dot(pos, vs_c[1]");
        reveal_strlit(", ");
        reveal_strlit("vs_c[0]");
        reveal_strlit(")");
        reveal_strlit("dot(");
        reveal_strlit("pos");
        reveal_strlit("vs_c[1]");
        assert(x + ", vs_c[0]), dot(pos, vs_c[1]"@ =~= x + ", "@ + "vs_c[0]"@ + ")"@ + ", "@
            + "dot("@ + "pos"@ + ", "@ + "vs_c[1]"@);
    }
    assert forall|x: Seq<char>| #[trigger] (x + "), dot(pos, vs_c[2]))"@) == x + ")"@ + ", "@
        + "dot("@ + "pos"@ + ", "@ + "vs_c[2]"@ + ")"@ + ")"@ by {
        reveal_strlit("), dot(pos, vs_c[2]))");
        reveal_strlit(")");
        reveal_strlit(", ");
        reveal_strlit("dot(");
        reveal_strlit("pos");
        reveal_strlit("vs_c[2]");
        assert(x + "), dot(pos, vs_c[2]))"@ =~= x + ")"@ + ", "@ + "dot("@ + "pos"@ + ", "@
            + "vs_c[2]"@ + ")"@ + ")"@);
    }
}

proof fn eye_rows_is_written()
    ensures
        is_program(
            "    float3 posEye = float3(dot(pos, vs_c[0]), dot(pos, vs_c[1]), dot(pos, vs_c[2]));\n"@,
            eye_rows_program(),
            Seq::empty(),
            "    "@,
        ),
{
    reveal_with_fuel(lines, 2);
    let p1 = eye_rows_program();
    assert(p1.drop_last() =~= Seq::empty());
    let a0 = Seq::<char>::empty();
    assert(a0
        + "    float3 posEye = float3(dot(pos, vs_c[0]), dot(pos, vs_c[1]), dot(pos, vs_c[2]));\n"@
        =~= "    float3 posEye = float3(dot(pos, vs_c[0]), dot(pos, vs_c[1]), dot(pos, vs_c[2]));\n"@);
    eye_rows_line_0(a0);
    let a1 = a0
        + "    float3 posEye = float3(dot(pos, vs_c[0]), dot(pos, vs_c[1]), dot(pos, vs_c[2]));\n"@;
    assert(lines(p1, a0, "    "@) == a1);
}

spec fn eye_lanes_0() -> Statement {
    Statement::Declare("float3"@, "posEye"@, lanes(name("pos_view"@), "xyz"@))
}

spec fn eye_lanes_program() -> Seq<Statement> {
    seq![
        eye_lanes_0(),
    ]
}

proof fn eye_lanes_line_0(acc: Seq<char>)
    ensures
        acc + "    float3 posEye = pos_view.xyz;\n"@ == eye_lanes_0().behind(acc, "    "@),
        eye_lanes_0().is_plain(),
{
    reveal_with_fuel(Expr::behind, 3);
    reveal_with_fuel(Expr::is_plain, 3);
    assert forall|x: Seq<char>| #[trigger] (x + "    float3 posEye = pos_view.xyz;\n"@) == x
        + "    "@ + "float3"@ + " "@ + "posEye"@ + " = "@ + "pos_view"@ + "."@ + "xyz"@
        + ";\n"@ by {
        reveal_strlit("    float3 posEye = pos_view.xyz;\n");
        reveal_strlit("    ");
        reveal_strlit("float3");
        reveal_strlit(" ");
        reveal_strlit("posEye");
        reveal_strlit(" = ");
        reveal_strlit("pos_view");
        reveal_strlit(".");
        reveal_strlit("xyz");
        reveal_strlit(";\n");
        assert(x + "    float3 posEye = pos_view.xyz;\n"@ =~= x + "    "@ + "float3"@ + " "@
            + "posEye"@ + " = "@ + "pos_view"@ + "."@ + "xyz"@ + ";\n"@);
    }
}

proof fn eye_lanes_is_written()
    ensures
        is_program(
            "    float3 posEye = pos_view.xyz;\n"@,
            eye_lanes_program(),
            Seq::empty(),
            "    "@,
        ),
{
    reveal_with_fuel(lines, 2);
    let p1 = eye_lanes_program();
    assert(p1.drop_last() =~= Seq::empty());
    let a0 = Seq::<char>::empty();
    assert(a0 + "    float3 posEye = pos_view.xyz;\n"@ =~= "    float3 posEye = pos_view.xyz;\n"@);
    eye_lanes_line_0(a0);
    let a1 = a0 + "    float3 posEye = pos_view.xyz;\n"@;
    assert(lines(p1, a0, "    "@) == a1);
}

/// Whether the position and the rows of the world-view matrix are vectors.
pub open spec fn holds_eye(env: Env) -> bool {
    is_vector(env, "pos"@) && is_vector(env, "pos_view"@) && is_vector(env, "vs_c[0]"@)
        && is_vector(env, "vs_c[1]"@) && is_vector(env, "vs_c[2]"@)
}

/// The position in eye space is the first three lanes of the blended position, or
/// of the position times the world-view matrix.
pub proof fn eyes_see_the_position(key: FfVsKey)
    ensures
        exists|p: Seq<Statement>| #[trigger]
            is_program(eye_position(key), p, Seq::empty(), "    "@) && forall|env: Env| #[trigger]
                holds_eye(env) ==> named(after(p, env), "posEye"@) == (if key.vertex_blend_count
                > 0 {
                named(env, "pos_view"@).subrange(0, 3)
            } else {
                transformed(env, 0, named(env, "pos"@)).subrange(0, 3)
            }),
{
    reveal_with_fuel(after, 2);
    reveal_with_fuel(Expr::value, 4);
    reveal_with_fuel(inner, 5);
    reveal_strlit("xyz");
    rows_are_named();
    eye_rows_is_written();
    eye_lanes_is_written();
    let p = if key.vertex_blend_count > 0 {
        eye_lanes_program()
    } else {
        eye_rows_program()
    };
    assert(p.drop_last() =~= Seq::empty());
    assert(is_program(eye_position(key), p, Seq::empty(), "    "@));
    assert forall|env: Env| #[trigger] holds_eye(env) implies named(after(p, env), "posEye"@) == (
    if key.vertex_blend_count > 0 {
        named(env, "pos_view"@).subrange(0, 3)
    } else {
        transformed(env, 0, named(env, "pos"@)).subrange(0, 3)
    }) by {
        assert(after(p, env) == p[0].run(env));
        if key.vertex_blend_count > 0 {
            assert(named(after(p, env), "posEye"@) =~= named(env, "pos_view"@).subrange(0, 3));
        } else {
            assert(named(after(p, env), "posEye"@) =~= transformed(
                env,
                0,
                named(env, "pos"@),
            ).subrange(0, 3));
        }
    }
}

} // verus!
