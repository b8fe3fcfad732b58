//! What the lights of the fixed-function pipeline add.
//!
//! Direct3D says how a light fades and what a surface makes of it. The laws say
//! that the statements of a light compute that, for all vertices, lights and
//! materials.

use crate::dxso::emit::metal::{
    after, assigned, call_1, call_2, call_3, choice, clamped, greater, group, infix, inner,
    is_program, lanes, lines, lines_append, name, named, negated, number, numerals,
    other_names_are_kept, programs_compose, whole, Env, Expr, Function, Library, Operator,
    Statement, Value,
};
use crate::dxso::ff::key::{FfVsFlags, FfVsKey};
use crate::dxso::ff::vertex::{
    light_text, light_vector, lights_from, lit_colors, material_text, row, LIGHT_ROW,
};
use crate::dxso::emit::pixel::text_if;
use crate::dxso::ff::vertex_meaning::is_vector;
use vstd::prelude::*;

verus! {

/// Whether `n` is the name of an input or of a constant, which no light changes.
pub open spec fn is_input(n: Seq<char>) -> bool {
    n.len() > 1 && (n[0] == 'v' && n[1] == 's' || n[0] == 'i' && n[1] == 'n')
}

proof fn inputs_are_no_locals(n: Seq<char>)
    requires
        is_input(n),
    ensures
        n != "toL"@,
        n != "dist"@,
        n != "L"@,
        n != "atten_k"@,
        n != "atten"@,
        n != "rho"@,
        n != "ndotl"@,
        n != "ndoth"@,
        n != "specFactor"@,
        n != "diffuseAccum"@,
        n != "specAccum"@,
        n != "n"@,
        n != "V"@,
        n != "posEye"@,
        n != "mat_power"@,
{
    reveal_strlit("toL");
    reveal_strlit("dist");
    reveal_strlit("L");
    reveal_strlit("atten_k");
    reveal_strlit("atten");
    reveal_strlit("rho");
    reveal_strlit("ndotl");
    reveal_strlit("ndoth");
    reveal_strlit("specFactor");
    reveal_strlit("diffuseAccum");
    reveal_strlit("specAccum");
    reveal_strlit("n");
    reveal_strlit("V");
    reveal_strlit("posEye");
    reveal_strlit("mat_power");
}

/// The vector from the position `p` to `at`.
pub open spec fn towards(at: Value, p: Value) -> Value {
    seq![at[0] - p[0], at[1] - p[1], at[2] - p[2]]
}

/// What the distance `d` leaves of a light: the reciprocal of a polynomial of the
/// distance, and nothing out of its range.
pub open spec fn fades(k: Value, d: real) -> real {
    let f = whole(1) / (k[0] + d * (k[1] + d * k[2]));
    if d <= k[3] {
        f
    } else {
        whole(0)
    }
}

/// What the cone of a spot light leaves of it. `l` points to the light.
pub open spec fn cone_part(
    l: Value,
    dir: Value,
    specular: Value,
    ambient: Value,
    library: Library,
) -> real {
    let rho = (-l[0]) * dir[0] + (-l[1]) * dir[1] + (-l[2]) * dir[2];
    (library.pow)(clamped(rho * specular[3] + ambient[3]), dir[3])
}

/// The product of two vectors of three lanes.
pub open spec fn dot_3(a: Value, b: Value) -> real {
    a[0] * b[0] + a[1] * b[1] + a[2] * b[2]
}

/// The length of a vector of three lanes.
pub open spec fn length_3(v: Value, l: Library) -> real {
    (l.sqrt)(dot_3(v, v))
}

/// The unit vector along a vector of three lanes.
pub open spec fn unit_3(v: Value, l: Library) -> Value {
    let r = (l.rsqrt)(dot_3(v, v));
    seq![v[0] * r, v[1] * r, v[2] * r]
}

spec fn along_direction_0(dir: Seq<char>) -> Statement {
    Statement::Declare("float3"@, "L"@, negated(lanes(name(dir), "xyz"@)))
}

spec fn along_direction_program(dir: Seq<char>) -> Seq<Statement> {
    seq![
        along_direction_0(dir),
    ]
}

proof fn along_direction_line_0(dir: Seq<char>, acc: Seq<char>)
    ensures
        acc + "        float3 L = -"@ + dir + ".xyz;\n"@
            == along_direction_0(dir).behind(acc, "        "@),
        along_direction_0(dir).is_plain(),
{
    reveal_with_fuel(Expr::behind, 4);
    reveal_with_fuel(Expr::is_plain, 4);
    assert forall|x: Seq<char>| #[trigger] (x + "        float3 L = -"@) == x + "        "@
        + "float3"@ + " "@ + "L"@ + " = "@ + "-"@ by {
        reveal_strlit("        float3 L = -");
        reveal_strlit("        ");
        reveal_strlit("float3");
        reveal_strlit(" ");
        reveal_strlit("L");
        reveal_strlit(" = ");
        reveal_strlit("-");
        assert(x + "        float3 L = -"@ =~= x + "        "@ + "float3"@ + " "@ + "L"@ + " = "@
            + "-"@);
    }
    assert forall|x: Seq<char>| #[trigger] (x + ".xyz;\n"@) == x + "."@ + "xyz"@ + ";\n"@ by {
        reveal_strlit(".xyz;\n");
        reveal_strlit(".");
        reveal_strlit("xyz");
        reveal_strlit(";\n");
        assert(x + ".xyz;\n"@ =~= x + "."@ + "xyz"@ + ";\n"@);
    }
}

proof fn along_direction_is_written(dir: Seq<char>)
    ensures
        is_program(
            "        float3 L = -"@ + dir + ".xyz;\n"@,
            along_direction_program(dir),
            Seq::empty(),
            "        "@,
        ),
{
    reveal_with_fuel(lines, 2);
    let p1 = along_direction_program(dir);
    assert(p1.drop_last() =~= Seq::empty());
    let a0 = Seq::<char>::empty();
    assert(a0 + "        float3 L = -"@ =~= "        float3 L = -"@);
    along_direction_line_0(dir, a0);
    let a1 = a0 + "        float3 L = -"@ + dir + ".xyz;\n"@;
    assert(lines(p1, a0, "        "@) == a1);
}

spec fn full_light_0() -> Statement {
    Statement::Declare("float"@, "atten"@, number("1.0"@))
}

spec fn full_light_program() -> Seq<Statement> {
    seq![
        full_light_0(),
    ]
}

proof fn full_light_line_0(acc: Seq<char>)
    ensures
        acc + "        float atten = 1.0;\n"@ == full_light_0().behind(acc, "        "@),
        full_light_0().is_plain(),
{
    reveal_with_fuel(Expr::behind, 2);
    reveal_with_fuel(Expr::is_plain, 2);
    assert forall|x: Seq<char>| #[trigger] (x + "        float atten = 1.0;\n"@) == x + "        "@
        + "float"@ + " "@ + "atten"@ + " = "@ + "1.0"@ + ";\n"@ by {
        reveal_strlit("        float atten = 1.0;\n");
        reveal_strlit("        ");
        reveal_strlit("float");
        reveal_strlit(" ");
        reveal_strlit("atten");
        reveal_strlit(" = ");
        reveal_strlit("1.0");
        reveal_strlit(";\n");
        assert(x + "        float atten = 1.0;\n"@ =~= x + "        "@ + "float"@ + " "@ + "atten"@
            + " = "@ + "1.0"@ + ";\n"@);
    }
}

proof fn full_light_is_written()
    ensures
        is_program(
            "        float atten = 1.0;\n"@,
            full_light_program(),
            Seq::empty(),
            "        "@,
        ),
{
    reveal_with_fuel(lines, 2);
    let p1 = full_light_program();
    assert(p1.drop_last() =~= Seq::empty());
    let a0 = Seq::<char>::empty();
    assert(a0 + "        float atten = 1.0;\n"@ =~= "        float atten = 1.0;\n"@);
    full_light_line_0(a0);
    let a1 = a0 + "        float atten = 1.0;\n"@;
    assert(lines(p1, a0, "        "@) == a1);
}

spec fn to_the_light_0(at: Seq<char>) -> Statement {
    Statement::Declare(
        "float3"@,
        "toL"@,
        infix(Operator::Minus, lanes(name(at), "xyz"@), name("posEye"@)),
    )
}

spec fn to_the_light_1(at: Seq<char>) -> Statement {
    Statement::Declare("float"@, "dist"@, call_1(Function::Length, name("toL"@)))
}

spec fn to_the_light_program(at: Seq<char>) -> Seq<Statement> {
    seq![
        to_the_light_0(at),
        to_the_light_1(at),
    ]
}

proof fn to_the_light_line_0(at: Seq<char>, acc: Seq<char>)
    ensures
        acc + "        float3 toL = "@ + at + ".xyz - posEye;\n"@
            == to_the_light_0(at).behind(acc, "        "@),
        to_the_light_0(at).is_plain(),
{
    reveal_with_fuel(Expr::behind, 4);
    reveal_with_fuel(Expr::is_plain, 4);
    assert forall|x: Seq<char>| #[trigger] (x + "        float3 toL = "@) == x + "        "@
        + "float3"@ + " "@ + "toL"@ + " = "@ by {
        reveal_strlit("        float3 toL = ");
        reveal_strlit("        ");
        reveal_strlit("float3");
        reveal_strlit(" ");
        reveal_strlit("toL");
        reveal_strlit(" = ");
        assert(x + "        float3 toL = "@ =~= x + "        "@ + "float3"@ + " "@ + "toL"@
            + " = "@);
    }
    assert forall|x: Seq<char>| #[trigger] (x + ".xyz - posEye;\n"@) == x + "."@ + "xyz"@ + " - "@
        + "posEye"@ + ";\n"@ by {
        reveal_strlit(".xyz - posEye;\n");
        reveal_strlit(".");
        reveal_strlit("xyz");
        reveal_strlit(" - ");
        reveal_strlit("posEye");
        reveal_strlit(";\n");
        assert(x + ".xyz - posEye;\n"@ =~= x + "."@ + "xyz"@ + " - "@ + "posEye"@ + ";\n"@);
    }
}

proof fn to_the_light_line_1(at: Seq<char>, acc: Seq<char>)
    ensures
        acc + "        float dist = length(toL);\n"@ == to_the_light_1(at).behind(acc, "        "@),
        to_the_light_1(at).is_plain(),
{
    reveal_with_fuel(Expr::behind, 3);
    reveal_with_fuel(Expr::is_plain, 3);
    assert forall|x: Seq<char>| #[trigger] (x + "        float dist = length(toL);\n"@) == x
        + "        "@ + "float"@ + " "@ + "dist"@ + " = "@ + "length("@ + "toL"@ + ")"@
        + ";\n"@ by {
        reveal_strlit("        float dist = length(toL);\n");
        reveal_strlit("        ");
        reveal_strlit("float");
        reveal_strlit(" ");
        reveal_strlit("dist");
        reveal_strlit(" = ");
        reveal_strlit("length(");
        reveal_strlit("toL");
        reveal_strlit(")");
        reveal_strlit(";\n");
        assert(x + "        float dist = length(toL);\n"@ =~= x + "        "@ + "float"@ + " "@
            + "dist"@ + " = "@ + "length("@ + "toL"@ + ")"@ + ";\n"@);
    }
}

proof fn to_the_light_is_written(at: Seq<char>)
    ensures
        is_program(
            "        float3 toL = "@ + at + ".xyz - posEye;\n"@
                + "        float dist = length(toL);\n"@,
            to_the_light_program(at),
            Seq::empty(),
            "        "@,
        ),
{
    reveal_with_fuel(lines, 3);
    let p2 = to_the_light_program(at);
    let p1 = seq![p2[0]];
    assert(p2.drop_last() =~= p1);
    assert(p1.drop_last() =~= Seq::empty());
    let a0 = Seq::<char>::empty();
    assert(a0 + "        float3 toL = "@ =~= "        float3 toL = "@);
    to_the_light_line_0(at, a0);
    let a1 = a0 + "        float3 toL = "@ + at + ".xyz - posEye;\n"@;
    assert(lines(p1, a0, "        "@) == a1);
    to_the_light_line_1(at, a1);
    let a2 = a1 + "        float dist = length(toL);\n"@;
    assert(lines(p2, a0, "        "@) == a2);
}

spec fn unit_vector_0() -> Statement {
    Statement::Declare("float3"@, "L"@, call_1(Function::Normalize, name("toL"@)))
}

spec fn unit_vector_program() -> Seq<Statement> {
    seq![
        unit_vector_0(),
    ]
}

proof fn unit_vector_line_0(acc: Seq<char>)
    ensures
        acc + "        float3 L = normalize(toL);\n"@ == unit_vector_0().behind(acc, "        "@),
        unit_vector_0().is_plain(),
{
    reveal_with_fuel(Expr::behind, 3);
    reveal_with_fuel(Expr::is_plain, 3);
    assert forall|x: Seq<char>| #[trigger] (x + "        float3 L = normalize(toL);\n"@) == x
        + "        "@ + "float3"@ + " "@ + "L"@ + " = "@ + "normalize("@ + "toL"@ + ")"@
        + ";\n"@ by {
        reveal_strlit("        float3 L = normalize(toL);\n");
        reveal_strlit("        ");
        reveal_strlit("float3");
        reveal_strlit(" ");
        reveal_strlit("L");
        reveal_strlit(" = ");
        reveal_strlit("normalize(");
        reveal_strlit("toL");
        reveal_strlit(")");
        reveal_strlit(";\n");
        assert(x + "        float3 L = normalize(toL);\n"@ =~= x + "        "@ + "float3"@ + " "@
            + "L"@ + " = "@ + "normalize("@ + "toL"@ + ")"@ + ";\n"@);
    }
}

proof fn unit_vector_is_written()
    ensures
        is_program(
            "        float3 L = normalize(toL);\n"@,
            unit_vector_program(),
            Seq::empty(),
            "        "@,
        ),
{
    reveal_with_fuel(lines, 2);
    let p1 = unit_vector_program();
    assert(p1.drop_last() =~= Seq::empty());
    let a0 = Seq::<char>::empty();
    assert(a0 + "        float3 L = normalize(toL);\n"@
        =~= "        float3 L = normalize(toL);\n"@);
    unit_vector_line_0(a0);
    let a1 = a0 + "        float3 L = normalize(toL);\n"@;
    assert(lines(p1, a0, "        "@) == a1);
}

spec fn distance_falloff_0(falloff: Seq<char>) -> Statement {
    Statement::Declare("float4"@, "atten_k"@, name(falloff))
}

spec fn distance_falloff_1(falloff: Seq<char>) -> Statement {
    Statement::Declare(
        "float"@,
        "atten"@,
        infix(
            Operator::Over,
            number("1.0"@),
            group(
                infix(
                    Operator::Plus,
                    lanes(name("atten_k"@), "x"@),
                    infix(
                        Operator::Times,
                        name("dist"@),
                        group(
                            infix(
                                Operator::Plus,
                                lanes(name("atten_k"@), "y"@),
                                infix(
                                    Operator::Times,
                                    name("dist"@),
                                    lanes(name("atten_k"@), "z"@),
                                ),
                            ),
                        ),
                    ),
                ),
            ),
        ),
    )
}

spec fn distance_falloff_2(falloff: Seq<char>) -> Statement {
    Statement::Scale("atten"@, call_2(Function::Step, name("dist"@), lanes(name("atten_k"@), "w"@)))
}

spec fn distance_falloff_program(falloff: Seq<char>) -> Seq<Statement> {
    seq![
        distance_falloff_0(falloff),
        distance_falloff_1(falloff),
        distance_falloff_2(falloff),
    ]
}

proof fn distance_falloff_line_0(falloff: Seq<char>, acc: Seq<char>)
    ensures
        acc + "        float4 atten_k = "@ + falloff + ";\n"@
            == distance_falloff_0(falloff).behind(acc, "        "@),
        distance_falloff_0(falloff).is_plain(),
{
    reveal_with_fuel(Expr::behind, 2);
    reveal_with_fuel(Expr::is_plain, 2);
    assert forall|x: Seq<char>| #[trigger] (x + "        float4 atten_k = "@) == x + "        "@
        + "float4"@ + " "@ + "atten_k"@ + " = "@ by {
        reveal_strlit("        float4 atten_k = ");
        reveal_strlit("        ");
        reveal_strlit("float4");
        reveal_strlit(" ");
        reveal_strlit("atten_k");
        reveal_strlit(" = ");
        assert(x + "        float4 atten_k = "@ =~= x + "        "@ + "float4"@ + " "@ + "atten_k"@
            + " = "@);
    }
}

proof fn distance_falloff_line_1(falloff: Seq<char>, acc: Seq<char>)
    ensures
        acc + "        float atten = 1.0 / (atten_k.x + dist * (atten_k.y + dist * atten_k.z));\n"@
            == distance_falloff_1(falloff).behind(acc, "        "@),
        distance_falloff_1(falloff).is_plain(),
{
    reveal_with_fuel(Expr::behind, 10);
    reveal_with_fuel(Expr::is_plain, 10);
    assert forall|x: Seq<char>| #[trigger] (x
        + "        float atten = 1.0 / (atten_k.x + dist * (atten_k.y + dist * atten_k.z));\n"@)
        == x + "        float atten = 1.0 / ("@ + "atten_k.x + dist * (atten_k"@
        + ".y + dist * atten_k.z"@ + "));\n"@ by {
        reveal_strlit("        float atten = 1.0 / (atten_k.x + dist * (atten_k.y + dist * atten_k.z));\n");
        reveal_strlit("        float atten = 1.0 / (");
        reveal_strlit("atten_k.x + dist * (atten_k");
        reveal_strlit(".y + dist * atten_k.z");
        reveal_strlit("));\n");
        assert(x
            + "        float atten = 1.0 / (atten_k.x + dist * (atten_k.y + dist * atten_k.z));\n"@
            =~= x + "        float atten = 1.0 / ("@ + "atten_k.x + dist * (atten_k"@
            + ".y + dist * atten_k.z"@ + "));\n"@);
    }
    assert forall|x: Seq<char>| #[trigger] (x + "        float atten = 1.0 / ("@) == x + "        "@
        + "float"@ + " "@ + "atten"@ + " = "@ + "1.0"@ + " / "@ + "("@ by {
        reveal_strlit("        float atten = 1.0 / (");
        reveal_strlit("        ");
        reveal_strlit("float");
        reveal_strlit(" ");
        reveal_strlit("atten");
        reveal_strlit(" = ");
        reveal_strlit("1.0");
        reveal_strlit(" / ");
        reveal_strlit("(");
        assert(x + "        float atten = 1.0 / ("@ =~= x + "        "@ + "float"@ + " "@ + "atten"@
            + " = "@ + "1.0"@ + " / "@ + "("@);
    }
    assert forall|x: Seq<char>| #[trigger] (x + "atten_k.x + dist * (atten_k"@) == x + "atten_k"@
        + "."@ + "x"@ + " + "@ + "dist"@ + " * "@ + "("@ + "atten_k"@ by {
        reveal_strlit("atten_k.x + dist * (atten_k");
        reveal_strlit("atten_k");
        reveal_strlit(".");
        reveal_strlit("x");
        reveal_strlit(" + ");
        reveal_strlit("dist");
        reveal_strlit(" * ");
        reveal_strlit("(");
        assert(x + "atten_k.x + dist * (atten_k"@ =~= x + "atten_k"@ + "."@ + "x"@ + " + "@
            + "dist"@ + " * "@ + "("@ + "atten_k"@);
    }
    assert forall|x: Seq<char>| #[trigger] (x + ".y + dist * atten_k.z"@) == x + "."@ + "y"@
        + " + "@ + "dist"@ + " * "@ + "atten_k"@ + "."@ + "z"@ by {
        reveal_strlit(".y + dist * atten_k.z");
        reveal_strlit(".");
        reveal_strlit("y");
        reveal_strlit(" + ");
        reveal_strlit("dist");
        reveal_strlit(" * ");
        reveal_strlit("atten_k");
        reveal_strlit("z");
        assert(x + ".y + dist * atten_k.z"@ =~= x + "."@ + "y"@ + " + "@ + "dist"@ + " * "@
            + "atten_k"@ + "."@ + "z"@);
    }
    assert forall|x: Seq<char>| #[trigger] (x + "));\n"@) == x + ")"@ + ")"@ + ";\n"@ by {
        reveal_strlit("));\n");
        reveal_strlit(")");
        reveal_strlit(";\n");
        assert(x + "));\n"@ =~= x + ")"@ + ")"@ + ";\n"@);
    }
}

proof fn distance_falloff_line_2(falloff: Seq<char>, acc: Seq<char>)
    ensures
        acc + "        atten *= step(dist, atten_k.w);\n"@
            == distance_falloff_2(falloff).behind(acc, "        "@),
        distance_falloff_2(falloff).is_plain(),
{
    reveal_with_fuel(Expr::behind, 4);
    reveal_with_fuel(Expr::is_plain, 4);
    assert forall|x: Seq<char>| #[trigger] (x + "        atten *= step(dist, atten_k.w);\n"@) == x
        + "        atten *= step(dist, atten_k."@ + "w);\n"@ by {
        reveal_strlit("        atten *= step(dist, atten_k.w);\n");
        reveal_strlit("        atten *= step(dist, atten_k.");
        reveal_strlit("w);\n");
        assert(x + "        atten *= step(dist, atten_k.w);\n"@ =~= x
            + "        atten *= step(dist, atten_k."@ + "w);\n"@);
    }
    assert forall|x: Seq<char>| #[trigger] (x + "        atten *= step(dist, atten_k."@) == x
        + "        "@ + "atten"@ + " *= "@ + "step("@ + "dist"@ + ", "@ + "atten_k"@ + "."@ by {
        reveal_strlit("        atten *= step(dist, atten_k.");
        reveal_strlit("        ");
        reveal_strlit("atten");
        reveal_strlit(" *= ");
        reveal_strlit("step(");
        reveal_strlit("dist");
        reveal_strlit(", ");
        reveal_strlit("atten_k");
        reveal_strlit(".");
        assert(x + "        atten *= step(dist, atten_k."@ =~= x + "        "@ + "atten"@ + " *= "@
            + "step("@ + "dist"@ + ", "@ + "atten_k"@ + "."@);
    }
    assert forall|x: Seq<char>| #[trigger] (x + "w);\n"@) == x + "w"@ + ")"@ + ";\n"@ by {
        reveal_strlit("w);\n");
        reveal_strlit("w");
        reveal_strlit(")");
        reveal_strlit(";\n");
        assert(x + "w);\n"@ =~= x + "w"@ + ")"@ + ";\n"@);
    }
}

proof fn distance_falloff_is_written(falloff: Seq<char>)
    ensures
        is_program(
            "        float4 atten_k = "@ + falloff + ";\n"@
                + "        float atten = 1.0 / (atten_k.x + dist * (atten_k.y + dist * atten_k.z));\n"@
                + "        atten *= step(dist, atten_k.w);\n"@,
            distance_falloff_program(falloff),
            Seq::empty(),
            "        "@,
        ),
{
    reveal_with_fuel(lines, 4);
    let p3 = distance_falloff_program(falloff);
    let p2 = seq![p3[0], p3[1]];
    assert(p3.drop_last() =~= p2);
    let p1 = seq![p3[0]];
    assert(p2.drop_last() =~= p1);
    assert(p1.drop_last() =~= Seq::empty());
    let a0 = Seq::<char>::empty();
    assert(a0 + "        float4 atten_k = "@ =~= "        float4 atten_k = "@);
    distance_falloff_line_0(falloff, a0);
    let a1 = a0 + "        float4 atten_k = "@ + falloff + ";\n"@;
    assert(lines(p1, a0, "        "@) == a1);
    distance_falloff_line_1(falloff, a1);
    let a2 = a1
        + "        float atten = 1.0 / (atten_k.x + dist * (atten_k.y + dist * atten_k.z));\n"@;
    assert(lines(p2, a0, "        "@) == a2);
    distance_falloff_line_2(falloff, a2);
    let a3 = a2 + "        atten *= step(dist, atten_k.w);\n"@;
    assert(lines(p3, a0, "        "@) == a3);
}

spec fn cone_0(dir: Seq<char>, specular: Seq<char>, ambient: Seq<char>) -> Statement {
    Statement::Declare(
        "float"@,
        "rho"@,
        call_2(Function::Dot, negated(name("L"@)), lanes(name(dir), "xyz"@)),
    )
}

spec fn cone_1(dir: Seq<char>, specular: Seq<char>, ambient: Seq<char>) -> Statement {
    Statement::Scale(
        "atten"@,
        call_2(
            Function::Pow,
            call_1(
                Function::Saturate,
                infix(
                    Operator::Plus,
                    infix(Operator::Times, name("rho"@), lanes(name(specular), "w"@)),
                    lanes(name(ambient), "w"@),
                ),
            ),
            lanes(name(dir), "w"@),
        ),
    )
}

spec fn cone_program(dir: Seq<char>, specular: Seq<char>, ambient: Seq<char>) -> Seq<Statement> {
    seq![
        cone_0(dir, specular, ambient),
        cone_1(dir, specular, ambient),
    ]
}

proof fn cone_line_0(dir: Seq<char>, specular: Seq<char>, ambient: Seq<char>, acc: Seq<char>)
    ensures
        acc + "        float rho = dot(-L, "@ + dir + ".xyz);\n"@
            == cone_0(dir, specular, ambient).behind(acc, "        "@),
        cone_0(dir, specular, ambient).is_plain(),
{
    reveal_with_fuel(Expr::behind, 4);
    reveal_with_fuel(Expr::is_plain, 4);
    assert forall|x: Seq<char>| #[trigger] (x + "        float rho = dot(-L, "@) == x + "        "@
        + "float"@ + " "@ + "rho"@ + " = "@ + "dot("@ + "-"@ + "L"@ + ", "@ by {
        reveal_strlit("        float rho = dot(-L, ");
        reveal_strlit("        ");
        reveal_strlit("float");
        reveal_strlit(" ");
        reveal_strlit("rho");
        reveal_strlit(" = ");
        reveal_strlit("dot(");
        reveal_strlit("-");
        reveal_strlit("L");
        reveal_strlit(", ");
        assert(x + "        float rho = dot(-L, "@ =~= x + "        "@ + "float"@ + " "@ + "rho"@
            + " = "@ + "dot("@ + "-"@ + "L"@ + ", "@);
    }
    assert forall|x: Seq<char>| #[trigger] (x + ".xyz);\n"@) == x + "."@ + "xyz"@ + ")"@
        + ";\n"@ by {
        reveal_strlit(".xyz);\n");
        reveal_strlit(".");
        reveal_strlit("xyz");
        reveal_strlit(")");
        reveal_strlit(";\n");
        assert(x + ".xyz);\n"@ =~= x + "."@ + "xyz"@ + ")"@ + ";\n"@);
    }
}

proof fn cone_line_1(dir: Seq<char>, specular: Seq<char>, ambient: Seq<char>, acc: Seq<char>)
    ensures
        acc + "        atten *= pow(saturate(rho * "@ + specular + ".w + "@ + ambient + ".w), "@
            + dir + ".w);\n"@ == cone_1(dir, specular, ambient).behind(acc, "        "@),
        cone_1(dir, specular, ambient).is_plain(),
{
    reveal_with_fuel(Expr::behind, 7);
    reveal_with_fuel(Expr::is_plain, 7);
    assert forall|x: Seq<char>| #[trigger] (x + "        atten *= pow(saturate(rho * "@) == x
        + "        "@ + "atten"@ + " *= "@ + "pow("@ + "saturate("@ + "rho"@ + " * "@ by {
        reveal_strlit("        atten *= pow(saturate(rho * ");
        reveal_strlit("        ");
        reveal_strlit("atten");
        reveal_strlit(" *= ");
        reveal_strlit("pow(");
        reveal_strlit("saturate(");
        reveal_strlit("rho");
        reveal_strlit(" * ");
        assert(x + "        atten *= pow(saturate(rho * "@ =~= x + "        "@ + "atten"@ + " *= "@
            + "pow("@ + "saturate("@ + "rho"@ + " * "@);
    }
    assert forall|x: Seq<char>| #[trigger] (x + ".w + "@) == x + "."@ + "w"@ + " + "@ by {
        reveal_strlit(".w + ");
        reveal_strlit(".");
        reveal_strlit("w");
        reveal_strlit(" + ");
        assert(x + ".w + "@ =~= x + "."@ + "w"@ + " + "@);
    }
    assert forall|x: Seq<char>| #[trigger] (x + ".w), "@) == x + "."@ + "w"@ + ")"@ + ", "@ by {
        reveal_strlit(".w), ");
        reveal_strlit(".");
        reveal_strlit("w");
        reveal_strlit(")");
        reveal_strlit(", ");
        assert(x + ".w), "@ =~= x + "."@ + "w"@ + ")"@ + ", "@);
    }
    assert forall|x: Seq<char>| #[trigger] (x + ".w);\n"@) == x + "."@ + "w"@ + ")"@ + ";\n"@ by {
        reveal_strlit(".w);\n");
        reveal_strlit(".");
        reveal_strlit("w");
        reveal_strlit(")");
        reveal_strlit(";\n");
        assert(x + ".w);\n"@ =~= x + "."@ + "w"@ + ")"@ + ";\n"@);
    }
}

proof fn cone_is_written(dir: Seq<char>, specular: Seq<char>, ambient: Seq<char>)
    ensures
        is_program(
            "        float rho = dot(-L, "@ + dir + ".xyz);\n"@
                + "        atten *= pow(saturate(rho * "@ + specular + ".w + "@ + ambient + ".w), "@
                + dir + ".w);\n"@,
            cone_program(dir, specular, ambient),
            Seq::empty(),
            "        "@,
        ),
{
    reveal_with_fuel(lines, 3);
    let p2 = cone_program(dir, specular, ambient);
    let p1 = seq![p2[0]];
    assert(p2.drop_last() =~= p1);
    assert(p1.drop_last() =~= Seq::empty());
    let a0 = Seq::<char>::empty();
    assert(a0 + "        float rho = dot(-L, "@ =~= "        float rho = dot(-L, "@);
    cone_line_0(dir, specular, ambient, a0);
    let a1 = a0 + "        float rho = dot(-L, "@ + dir + ".xyz);\n"@;
    assert(lines(p1, a0, "        "@) == a1);
    cone_line_1(dir, specular, ambient, a1);
    let a2 = a1 + "        atten *= pow(saturate(rho * "@ + specular + ".w + "@ + ambient + ".w), "@
        + dir + ".w);\n"@;
    assert(lines(p2, a0, "        "@) == a2);
}

spec fn lambert_0(diffuse: Seq<char>, material: Seq<char>) -> Statement {
    Statement::Declare(
        "float"@,
        "ndotl"@,
        call_2(Function::Max, call_2(Function::Dot, name("n"@), name("L"@)), number("0.0"@)),
    )
}

spec fn lambert_1(diffuse: Seq<char>, material: Seq<char>) -> Statement {
    Statement::Increase(
        "diffuseAccum"@,
        infix(
            Operator::Times,
            infix(
                Operator::Times,
                infix(Operator::Times, name("atten"@), name("ndotl"@)),
                name(diffuse),
            ),
            name(material),
        ),
    )
}

spec fn lambert_program(diffuse: Seq<char>, material: Seq<char>) -> Seq<Statement> {
    seq![
        lambert_0(diffuse, material),
        lambert_1(diffuse, material),
    ]
}

proof fn lambert_line_0(diffuse: Seq<char>, material: Seq<char>, acc: Seq<char>)
    ensures
        acc + "        float ndotl = max(dot(n, L), 0.0);\n"@
            == lambert_0(diffuse, material).behind(acc, "        "@),
        lambert_0(diffuse, material).is_plain(),
{
    reveal_with_fuel(Expr::behind, 4);
    reveal_with_fuel(Expr::is_plain, 4);
    assert forall|x: Seq<char>| #[trigger] (x + "        float ndotl = max(dot(n, L), 0.0);\n"@)
        == x + "        float ndotl = max(dot(n"@ + ", L), 0.0);\n"@ by {
        reveal_strlit("        float ndotl = max(dot(n, L), 0.0);\n");
        reveal_strlit("        float ndotl = max(dot(n");
        reveal_strlit(", L), 0.0);\n");
        assert(x + "        float ndotl = max(dot(n, L), 0.0);\n"@ =~= x
            + "        float ndotl = max(dot(n"@ + ", L), 0.0);\n"@);
    }
    assert forall|x: Seq<char>| #[trigger] (x + "        float ndotl = max(dot(n"@) == x
        + "        "@ + "float"@ + " "@ + "ndotl"@ + " = "@ + "max("@ + "dot("@ + "n"@ by {
        reveal_strlit("        float ndotl = max(dot(n");
        reveal_strlit("        ");
        reveal_strlit("float");
        reveal_strlit(" ");
        reveal_strlit("ndotl");
        reveal_strlit(" = ");
        reveal_strlit("max(");
        reveal_strlit("dot(");
        reveal_strlit("n");
        assert(x + "        float ndotl = max(dot(n"@ =~= x + "        "@ + "float"@ + " "@
            + "ndotl"@ + " = "@ + "max("@ + "dot("@ + "n"@);
    }
    assert forall|x: Seq<char>| #[trigger] (x + ", L), 0.0);\n"@) == x + ", "@ + "L"@ + ")"@ + ", "@
        + "0.0"@ + ")"@ + ";\n"@ by {
        reveal_strlit(", L), 0.0);\n");
        reveal_strlit(", ");
        reveal_strlit("L");
        reveal_strlit(")");
        reveal_strlit("0.0");
        reveal_strlit(";\n");
        assert(x + ", L), 0.0);\n"@ =~= x + ", "@ + "L"@ + ")"@ + ", "@ + "0.0"@ + ")"@ + ";\n"@);
    }
}

proof fn lambert_line_1(diffuse: Seq<char>, material: Seq<char>, acc: Seq<char>)
    ensures
        acc + "        diffuseAccum += atten * ndotl * "@ + diffuse + " * "@ + material + ";\n"@
            == lambert_1(diffuse, material).behind(acc, "        "@),
        lambert_1(diffuse, material).is_plain(),
{
    reveal_with_fuel(Expr::behind, 5);
    reveal_with_fuel(Expr::is_plain, 5);
    assert forall|x: Seq<char>| #[trigger] (x + "        diffuseAccum += atten * ndotl * "@) == x
        + "        "@ + "diffuseAccum"@ + " += "@ + "atten"@ + " * "@ + "ndotl"@ + " * "@ by {
        reveal_strlit("        diffuseAccum += atten * ndotl * ");
        reveal_strlit("        ");
        reveal_strlit("diffuseAccum");
        reveal_strlit(" += ");
        reveal_strlit("atten");
        reveal_strlit(" * ");
        reveal_strlit("ndotl");
        assert(x + "        diffuseAccum += atten * ndotl * "@ =~= x + "        "@ + "diffuseAccum"@
            + " += "@ + "atten"@ + " * "@ + "ndotl"@ + " * "@);
    }
}

proof fn lambert_is_written(diffuse: Seq<char>, material: Seq<char>)
    ensures
        is_program(
            "        float ndotl = max(dot(n, L), 0.0);\n"@
                + "        diffuseAccum += atten * ndotl * "@ + diffuse + " * "@ + material
                + ";\n"@,
            lambert_program(diffuse, material),
            Seq::empty(),
            "        "@,
        ),
{
    reveal_with_fuel(lines, 3);
    let p2 = lambert_program(diffuse, material);
    let p1 = seq![p2[0]];
    assert(p2.drop_last() =~= p1);
    assert(p1.drop_last() =~= Seq::empty());
    let a0 = Seq::<char>::empty();
    assert(a0 + "        float ndotl = max(dot(n, L), 0.0);\n"@
        =~= "        float ndotl = max(dot(n, L), 0.0);\n"@);
    lambert_line_0(diffuse, material, a0);
    let a1 = a0 + "        float ndotl = max(dot(n, L), 0.0);\n"@;
    assert(lines(p1, a0, "        "@) == a1);
    lambert_line_1(diffuse, material, a1);
    let a2 = a1 + "        diffuseAccum += atten * ndotl * "@ + diffuse + " * "@ + material
        + ";\n"@;
    assert(lines(p2, a0, "        "@) == a2);
}

spec fn ambient_light_0(ambient: Seq<char>, material: Seq<char>) -> Statement {
    Statement::Increase(
        "diffuseAccum"@,
        infix(
            Operator::Times,
            name("atten"@),
            group(infix(Operator::Times, name(ambient), name(material))),
        ),
    )
}

spec fn ambient_light_program(ambient: Seq<char>, material: Seq<char>) -> Seq<Statement> {
    seq![
        ambient_light_0(ambient, material),
    ]
}

proof fn ambient_light_line_0(ambient: Seq<char>, material: Seq<char>, acc: Seq<char>)
    ensures
        acc + "        diffuseAccum += atten * ("@ + ambient + " * "@ + material + ");\n"@
            == ambient_light_0(ambient, material).behind(acc, "        "@),
        ambient_light_0(ambient, material).is_plain(),
{
    reveal_with_fuel(Expr::behind, 5);
    reveal_with_fuel(Expr::is_plain, 5);
    assert forall|x: Seq<char>| #[trigger] (x + "        diffuseAccum += atten * ("@) == x
        + "        "@ + "diffuseAccum"@ + " += "@ + "atten"@ + " * "@ + "("@ by {
        reveal_strlit("        diffuseAccum += atten * (");
        reveal_strlit("        ");
        reveal_strlit("diffuseAccum");
        reveal_strlit(" += ");
        reveal_strlit("atten");
        reveal_strlit(" * ");
        reveal_strlit("(");
        assert(x + "        diffuseAccum += atten * ("@ =~= x + "        "@ + "diffuseAccum"@
            + " += "@ + "atten"@ + " * "@ + "("@);
    }
    assert forall|x: Seq<char>| #[trigger] (x + ");\n"@) == x + ")"@ + ";\n"@ by {
        reveal_strlit(");\n");
        reveal_strlit(")");
        reveal_strlit(";\n");
        assert(x + ");\n"@ =~= x + ")"@ + ";\n"@);
    }
}

proof fn ambient_light_is_written(ambient: Seq<char>, material: Seq<char>)
    ensures
        is_program(
            "        diffuseAccum += atten * ("@ + ambient + " * "@ + material + ");\n"@,
            ambient_light_program(ambient, material),
            Seq::empty(),
            "        "@,
        ),
{
    reveal_with_fuel(lines, 2);
    let p1 = ambient_light_program(ambient, material);
    assert(p1.drop_last() =~= Seq::empty());
    let a0 = Seq::<char>::empty();
    assert(a0 + "        diffuseAccum += atten * ("@ =~= "        diffuseAccum += atten * ("@);
    ambient_light_line_0(ambient, material, a0);
    let a1 = a0 + "        diffuseAccum += atten * ("@ + ambient + " * "@ + material + ");\n"@;
    assert(lines(p1, a0, "        "@) == a1);
}

spec fn highlight_0(specular: Seq<char>, material: Seq<char>) -> Statement {
    Statement::Declare(
        "float"@,
        "ndoth"@,
        call_2(
            Function::Max,
            call_2(
                Function::Dot,
                name("n"@),
                call_1(Function::Normalize, infix(Operator::Plus, name("L"@), name("V"@))),
            ),
            number("0.0"@),
        ),
    )
}

spec fn highlight_1(specular: Seq<char>, material: Seq<char>) -> Statement {
    Statement::Declare(
        "float"@,
        "specFactor"@,
        choice(
            infix(Operator::More, name("ndotl"@), number("0.0"@)),
            call_2(Function::Pow, name("ndoth"@), name("mat_power"@)),
            number("0.0"@),
        ),
    )
}

spec fn highlight_2(specular: Seq<char>, material: Seq<char>) -> Statement {
    Statement::Increase(
        "specAccum"@,
        infix(
            Operator::Times,
            infix(Operator::Times, name("atten"@), name("specFactor"@)),
            group(
                infix(
                    Operator::Times,
                    lanes(name(specular), "rgb"@),
                    lanes(name(material), "rgb"@),
                ),
            ),
        ),
    )
}

spec fn highlight_program(specular: Seq<char>, material: Seq<char>) -> Seq<Statement> {
    seq![
        highlight_0(specular, material),
        highlight_1(specular, material),
        highlight_2(specular, material),
    ]
}

proof fn highlight_line_0(specular: Seq<char>, material: Seq<char>, acc: Seq<char>)
    ensures
        acc + "        float ndoth = max(dot(n, normalize(L + V)), 0.0);\n"@
            == highlight_0(specular, material).behind(acc, "        "@),
        highlight_0(specular, material).is_plain(),
{
    reveal_with_fuel(Expr::behind, 6);
    reveal_with_fuel(Expr::is_plain, 6);
    assert forall|x: Seq<char>| #[trigger] (x
        + "        float ndoth = max(dot(n, normalize(L + V)), 0.0);\n"@) == x
        + "        float ndoth = max(dot(n"@ + ", normalize(L + V)), "@ + "0.0);\n"@ by {
        reveal_strlit("        float ndoth = max(dot(n, normalize(L + V)), 0.0);\n");
        reveal_strlit("        float ndoth = max(dot(n");
        reveal_strlit(", normalize(L + V)), ");
        reveal_strlit("0.0);\n");
        assert(x + "        float ndoth = max(dot(n, normalize(L + V)), 0.0);\n"@ =~= x
            + "        float ndoth = max(dot(n"@ + ", normalize(L + V)), "@ + "0.0);\n"@);
    }
    assert forall|x: Seq<char>| #[trigger] (x + "        float ndoth = max(dot(n"@) == x
        + "        "@ + "float"@ + " "@ + "ndoth"@ + " = "@ + "max("@ + "dot("@ + "n"@ by {
        reveal_strlit("        float ndoth = max(dot(n");
        reveal_strlit("        ");
        reveal_strlit("float");
        reveal_strlit(" ");
        reveal_strlit("ndoth");
        reveal_strlit(" = ");
        reveal_strlit("max(");
        reveal_strlit("dot(");
        reveal_strlit("n");
        assert(x + "        float ndoth = max(dot(n"@ =~= x + "        "@ + "float"@ + " "@
            + "ndoth"@ + " = "@ + "max("@ + "dot("@ + "n"@);
    }
    assert forall|x: Seq<char>| #[trigger] (x + ", normalize(L + V)), "@) == x + ", "@
        + "normalize("@ + "L"@ + " + "@ + "V"@ + ")"@ + ")"@ + ", "@ by {
        reveal_strlit(", normalize(L + V)), ");
        reveal_strlit(", ");
        reveal_strlit("normalize(");
        reveal_strlit("L");
        reveal_strlit(" + ");
        reveal_strlit("V");
        reveal_strlit(")");
        assert(x + ", normalize(L + V)), "@ =~= x + ", "@ + "normalize("@ + "L"@ + " + "@ + "V"@
            + ")"@ + ")"@ + ", "@);
    }
    assert forall|x: Seq<char>| #[trigger] (x + "0.0);\n"@) == x + "0.0"@ + ")"@ + ";\n"@ by {
        reveal_strlit("0.0);\n");
        reveal_strlit("0.0");
        reveal_strlit(")");
        reveal_strlit(";\n");
        assert(x + "0.0);\n"@ =~= x + "0.0"@ + ")"@ + ";\n"@);
    }
}

proof fn highlight_line_1(specular: Seq<char>, material: Seq<char>, acc: Seq<char>)
    ensures
        acc + "        float specFactor = ndotl > 0.0 ? pow(ndoth, mat_power) : 0.0;\n"@
            == highlight_1(specular, material).behind(acc, "        "@),
        highlight_1(specular, material).is_plain(),
{
    reveal_with_fuel(Expr::behind, 4);
    reveal_with_fuel(Expr::is_plain, 4);
    assert forall|x: Seq<char>| #[trigger] (x
        + "        float specFactor = ndotl > 0.0 ? pow(ndoth, mat_power) : 0.0;\n"@) == x
        + "        float specFactor = ndotl > 0.0"@ + " ? pow(ndoth, mat_power) : 0.0"@
        + ";\n"@ by {
        reveal_strlit("        float specFactor = ndotl > 0.0 ? pow(ndoth, mat_power) : 0.0;\n");
        reveal_strlit("        float specFactor = ndotl > 0.0");
        reveal_strlit(" ? pow(ndoth, mat_power) : 0.0");
        reveal_strlit(";\n");
        assert(x + "        float specFactor = ndotl > 0.0 ? pow(ndoth, mat_power) : 0.0;\n"@ =~= x
            + "        float specFactor = ndotl > 0.0"@ + " ? pow(ndoth, mat_power) : 0.0"@
            + ";\n"@);
    }
    assert forall|x: Seq<char>| #[trigger] (x + "        float specFactor = ndotl > 0.0"@) == x
        + "        "@ + "float"@ + " "@ + "specFactor"@ + " = "@ + "ndotl"@ + " > "@ + "0.0"@ by {
        reveal_strlit("        float specFactor = ndotl > 0.0");
        reveal_strlit("        ");
        reveal_strlit("float");
        reveal_strlit(" ");
        reveal_strlit("specFactor");
        reveal_strlit(" = ");
        reveal_strlit("ndotl");
        reveal_strlit(" > ");
        reveal_strlit("0.0");
        assert(x + "        float specFactor = ndotl > 0.0"@ =~= x + "        "@ + "float"@ + " "@
            + "specFactor"@ + " = "@ + "ndotl"@ + " > "@ + "0.0"@);
    }
    assert forall|x: Seq<char>| #[trigger] (x + " ? pow(ndoth, mat_power) : 0.0"@) == x + " ? "@
        + "pow("@ + "ndoth"@ + ", "@ + "mat_power"@ + ")"@ + " : "@ + "0.0"@ by {
        reveal_strlit(" ? pow(ndoth, mat_power) : 0.0");
        reveal_strlit(" ? ");
        reveal_strlit("pow(");
        reveal_strlit("ndoth");
        reveal_strlit(", ");
        reveal_strlit("mat_power");
        reveal_strlit(")");
        reveal_strlit(" : ");
        reveal_strlit("0.0");
        assert(x + " ? pow(ndoth, mat_power) : 0.0"@ =~= x + " ? "@ + "pow("@ + "ndoth"@ + ", "@
            + "mat_power"@ + ")"@ + " : "@ + "0.0"@);
    }
}

proof fn highlight_line_2(specular: Seq<char>, material: Seq<char>, acc: Seq<char>)
    ensures
        acc + "        specAccum += atten * specFactor * ("@ + specular + ".rgb * "@ + material
            + ".rgb);\n"@ == highlight_2(specular, material).behind(acc, "        "@),
        highlight_2(specular, material).is_plain(),
{
    reveal_with_fuel(Expr::behind, 6);
    reveal_with_fuel(Expr::is_plain, 6);
    assert forall|x: Seq<char>| #[trigger] (x + "        specAccum += atten * specFactor * ("@) == x
        + "        "@ + "specAccum"@ + " += "@ + "atten"@ + " * "@ + "specFactor"@ + " * "@
        + "("@ by {
        reveal_strlit("        specAccum += atten * specFactor * (");
        reveal_strlit("        ");
        reveal_strlit("specAccum");
        reveal_strlit(" += ");
        reveal_strlit("atten");
        reveal_strlit(" * ");
        reveal_strlit("specFactor");
        reveal_strlit("(");
        assert(x + "        specAccum += atten * specFactor * ("@ =~= x + "        "@ + "specAccum"@
            + " += "@ + "atten"@ + " * "@ + "specFactor"@ + " * "@ + "("@);
    }
    assert forall|x: Seq<char>| #[trigger] (x + ".rgb * "@) == x + "."@ + "rgb"@ + " * "@ by {
        reveal_strlit(".rgb * ");
        reveal_strlit(".");
        reveal_strlit("rgb");
        reveal_strlit(" * ");
        assert(x + ".rgb * "@ =~= x + "."@ + "rgb"@ + " * "@);
    }
    assert forall|x: Seq<char>| #[trigger] (x + ".rgb);\n"@) == x + "."@ + "rgb"@ + ")"@
        + ";\n"@ by {
        reveal_strlit(".rgb);\n");
        reveal_strlit(".");
        reveal_strlit("rgb");
        reveal_strlit(")");
        reveal_strlit(";\n");
        assert(x + ".rgb);\n"@ =~= x + "."@ + "rgb"@ + ")"@ + ";\n"@);
    }
}

proof fn highlight_is_written(specular: Seq<char>, material: Seq<char>)
    ensures
        is_program(
            "        float ndoth = max(dot(n, normalize(L + V)), 0.0);\n"@
                + "        float specFactor = ndotl > 0.0 ? pow(ndoth, mat_power) : 0.0;\n"@
                + "        specAccum += atten * specFactor * ("@ + specular + ".rgb * "@ + material
                + ".rgb);\n"@,
            highlight_program(specular, material),
            Seq::empty(),
            "        "@,
        ),
{
    reveal_with_fuel(lines, 4);
    let p3 = highlight_program(specular, material);
    let p2 = seq![p3[0], p3[1]];
    assert(p3.drop_last() =~= p2);
    let p1 = seq![p3[0]];
    assert(p2.drop_last() =~= p1);
    assert(p1.drop_last() =~= Seq::empty());
    let a0 = Seq::<char>::empty();
    assert(a0 + "        float ndoth = max(dot(n, normalize(L + V)), 0.0);\n"@
        =~= "        float ndoth = max(dot(n, normalize(L + V)), 0.0);\n"@);
    highlight_line_0(specular, material, a0);
    let a1 = a0 + "        float ndoth = max(dot(n, normalize(L + V)), 0.0);\n"@;
    assert(lines(p1, a0, "        "@) == a1);
    highlight_line_1(specular, material, a1);
    let a2 = a1 + "        float specFactor = ndotl > 0.0 ? pow(ndoth, mat_power) : 0.0;\n"@;
    assert(lines(p2, a0, "        "@) == a2);
    highlight_line_2(specular, material, a2);
    let a3 = a2 + "        specAccum += atten * specFactor * ("@ + specular + ".rgb * "@ + material
        + ".rgb);\n"@;
    assert(lines(p3, a0, "        "@) == a3);
}

proof fn along_direction_runs(dir: Seq<char>, env: Env)
    requires
        is_vector(env, dir),
        is_input(dir),
    ensures
        named(after(along_direction_program(dir), env), "L"@)
            == seq![-named(env, dir)[0], -named(env, dir)[1], -named(env, dir)[2]],
{
    reveal_with_fuel(after, 2);
    reveal_with_fuel(Expr::value, 4);
    reveal_with_fuel(inner, 5);
    reveal_strlit("xyz");
    reveal_strlit("L");
    reveal_strlit("V");
    reveal_strlit("atten");
    reveal_strlit("atten_k");
    reveal_strlit("diffuseAccum");
    reveal_strlit("dist");
    reveal_strlit("mat_power");
    reveal_strlit("n");
    reveal_strlit("ndoth");
    reveal_strlit("ndotl");
    reveal_strlit("posEye");
    reveal_strlit("rho");
    reveal_strlit("specAccum");
    reveal_strlit("specFactor");
    reveal_strlit("toL");
    assert("L"@[0] != "V"@[0]);
    assert("L"@.len() != "atten"@.len());
    assert("L"@.len() != "atten_k"@.len());
    assert("L"@.len() != "diffuseAccum"@.len());
    assert("L"@.len() != "dist"@.len());
    assert("L"@.len() != "mat_power"@.len());
    assert("L"@[0] != "n"@[0]);
    assert("L"@.len() != "ndoth"@.len());
    assert("L"@.len() != "ndotl"@.len());
    assert("L"@.len() != "posEye"@.len());
    assert("L"@.len() != "rho"@.len());
    assert("L"@.len() != "specAccum"@.len());
    assert("L"@.len() != "specFactor"@.len());
    assert("L"@.len() != "toL"@.len());
    inputs_are_no_locals(dir);
    let p1 = along_direction_program(dir);
    assert(p1.drop_last() =~= Seq::empty());
    let e0 = env;
    let e1 = p1[0].run(e0);
    assert(named(e1, "L"@) =~= seq![-named(env, dir)[0], -named(env, dir)[1], -named(env, dir)[2]]);
    assert(after(p1, env) == e1);
}

proof fn full_light_runs(env: Env)
    requires
        true,
    ensures
        named(after(full_light_program(), env), "atten"@) == seq![whole(1)],
{
    reveal_with_fuel(after, 2);
    reveal_with_fuel(Expr::value, 2);
    reveal_with_fuel(inner, 5);
    numerals();
    reveal_strlit("L");
    reveal_strlit("V");
    reveal_strlit("atten");
    reveal_strlit("atten_k");
    reveal_strlit("diffuseAccum");
    reveal_strlit("dist");
    reveal_strlit("mat_power");
    reveal_strlit("n");
    reveal_strlit("ndoth");
    reveal_strlit("ndotl");
    reveal_strlit("posEye");
    reveal_strlit("rho");
    reveal_strlit("specAccum");
    reveal_strlit("specFactor");
    reveal_strlit("toL");
    assert("atten"@.len() != "L"@.len());
    assert("atten"@.len() != "V"@.len());
    assert("atten"@.len() != "atten_k"@.len());
    assert("atten"@.len() != "diffuseAccum"@.len());
    assert("atten"@.len() != "dist"@.len());
    assert("atten"@.len() != "mat_power"@.len());
    assert("atten"@.len() != "n"@.len());
    assert("atten"@[0] != "ndoth"@[0]);
    assert("atten"@[0] != "ndotl"@[0]);
    assert("atten"@.len() != "posEye"@.len());
    assert("atten"@.len() != "rho"@.len());
    assert("atten"@.len() != "specAccum"@.len());
    assert("atten"@.len() != "specFactor"@.len());
    assert("atten"@.len() != "toL"@.len());
    let p1 = full_light_program();
    assert(p1.drop_last() =~= Seq::empty());
    let e0 = env;
    let e1 = p1[0].run(e0);
    assert(named(e1, "atten"@) =~= seq![whole(1)]);
    assert(after(p1, env) == e1);
}

proof fn to_the_light_runs(at: Seq<char>, env: Env)
    requires
        is_vector(env, at),
        is_input(at),
        named(env, "posEye"@).len() == 3,
    ensures
        named(after(to_the_light_program(at), env), "toL"@)
            == towards(named(env, at), named(env, "posEye"@)),
        named(after(to_the_light_program(at), env), "dist"@) == seq![
            length_3(towards(named(env, at), named(env, "posEye"@)), env.library),
        ],
{
    reveal_with_fuel(after, 3);
    reveal_with_fuel(Expr::value, 4);
    reveal_with_fuel(inner, 5);
    reveal_strlit("xyz");
    reveal_strlit("L");
    reveal_strlit("V");
    reveal_strlit("atten");
    reveal_strlit("atten_k");
    reveal_strlit("diffuseAccum");
    reveal_strlit("dist");
    reveal_strlit("mat_power");
    reveal_strlit("n");
    reveal_strlit("ndoth");
    reveal_strlit("ndotl");
    reveal_strlit("posEye");
    reveal_strlit("rho");
    reveal_strlit("specAccum");
    reveal_strlit("specFactor");
    reveal_strlit("toL");
    assert("toL"@.len() != "L"@.len());
    assert("toL"@.len() != "V"@.len());
    assert("toL"@.len() != "atten"@.len());
    assert("toL"@.len() != "atten_k"@.len());
    assert("toL"@.len() != "diffuseAccum"@.len());
    assert("toL"@.len() != "dist"@.len());
    assert("toL"@.len() != "mat_power"@.len());
    assert("toL"@.len() != "n"@.len());
    assert("toL"@.len() != "ndoth"@.len());
    assert("toL"@.len() != "ndotl"@.len());
    assert("toL"@.len() != "posEye"@.len());
    assert("toL"@[0] != "rho"@[0]);
    assert("toL"@.len() != "specAccum"@.len());
    assert("toL"@.len() != "specFactor"@.len());
    assert("dist"@.len() != "L"@.len());
    assert("dist"@.len() != "V"@.len());
    assert("dist"@.len() != "atten"@.len());
    assert("dist"@.len() != "atten_k"@.len());
    assert("dist"@.len() != "diffuseAccum"@.len());
    assert("dist"@.len() != "mat_power"@.len());
    assert("dist"@.len() != "n"@.len());
    assert("dist"@.len() != "ndoth"@.len());
    assert("dist"@.len() != "ndotl"@.len());
    assert("dist"@.len() != "posEye"@.len());
    assert("dist"@.len() != "rho"@.len());
    assert("dist"@.len() != "specAccum"@.len());
    assert("dist"@.len() != "specFactor"@.len());
    inputs_are_no_locals(at);
    let p2 = to_the_light_program(at);
    let p1 = seq![p2[0]];
    assert(p2.drop_last() =~= p1);
    assert(p1.drop_last() =~= Seq::empty());
    let e0 = env;
    let e1 = p2[0].run(e0);
    assert(named(e1, "toL"@) =~= towards(named(env, at), named(env, "posEye"@)));
    let e2 = p2[1].run(e1);
    assert(named(e2, "dist"@) =~= seq![
        length_3(towards(named(env, at), named(env, "posEye"@)), env.library),
    ]);
    assert(named(e2, "toL"@) == named(e1, "toL"@));
    assert(after(p2, env) == e2);
}

proof fn unit_vector_runs(env: Env)
    requires
        named(env, "toL"@).len() == 3,
    ensures
        named(after(unit_vector_program(), env), "L"@) == unit_3(named(env, "toL"@), env.library),
{
    reveal_with_fuel(after, 2);
    reveal_with_fuel(Expr::value, 3);
    reveal_with_fuel(inner, 5);
    reveal_strlit("L");
    reveal_strlit("V");
    reveal_strlit("atten");
    reveal_strlit("atten_k");
    reveal_strlit("diffuseAccum");
    reveal_strlit("dist");
    reveal_strlit("mat_power");
    reveal_strlit("n");
    reveal_strlit("ndoth");
    reveal_strlit("ndotl");
    reveal_strlit("posEye");
    reveal_strlit("rho");
    reveal_strlit("specAccum");
    reveal_strlit("specFactor");
    reveal_strlit("toL");
    assert("L"@[0] != "V"@[0]);
    assert("L"@.len() != "atten"@.len());
    assert("L"@.len() != "atten_k"@.len());
    assert("L"@.len() != "diffuseAccum"@.len());
    assert("L"@.len() != "dist"@.len());
    assert("L"@.len() != "mat_power"@.len());
    assert("L"@[0] != "n"@[0]);
    assert("L"@.len() != "ndoth"@.len());
    assert("L"@.len() != "ndotl"@.len());
    assert("L"@.len() != "posEye"@.len());
    assert("L"@.len() != "rho"@.len());
    assert("L"@.len() != "specAccum"@.len());
    assert("L"@.len() != "specFactor"@.len());
    assert("L"@.len() != "toL"@.len());
    let p1 = unit_vector_program();
    assert(p1.drop_last() =~= Seq::empty());
    let e0 = env;
    let e1 = p1[0].run(e0);
    assert(named(e1, "L"@) =~= unit_3(named(env, "toL"@), env.library));
    assert(after(p1, env) == e1);
}

proof fn distance_falloff_runs(falloff: Seq<char>, env: Env)
    requires
        is_vector(env, falloff),
        is_input(falloff),
        named(env, "dist"@).len() == 1,
    ensures
        named(after(distance_falloff_program(falloff), env), "atten"@)
            == seq![fades(named(env, falloff), named(env, "dist"@)[0])],
{
    reveal_with_fuel(after, 4);
    reveal_with_fuel(Expr::value, 10);
    reveal_with_fuel(inner, 5);
    numerals();
    reveal_strlit("w");
    reveal_strlit("x");
    reveal_strlit("y");
    reveal_strlit("z");
    reveal_strlit("L");
    reveal_strlit("V");
    reveal_strlit("atten");
    reveal_strlit("atten_k");
    reveal_strlit("diffuseAccum");
    reveal_strlit("dist");
    reveal_strlit("mat_power");
    reveal_strlit("n");
    reveal_strlit("ndoth");
    reveal_strlit("ndotl");
    reveal_strlit("posEye");
    reveal_strlit("rho");
    reveal_strlit("specAccum");
    reveal_strlit("specFactor");
    reveal_strlit("toL");
    assert("atten_k"@.len() != "L"@.len());
    assert("atten_k"@.len() != "V"@.len());
    assert("atten_k"@.len() != "atten"@.len());
    assert("atten_k"@.len() != "diffuseAccum"@.len());
    assert("atten_k"@.len() != "dist"@.len());
    assert("atten_k"@.len() != "mat_power"@.len());
    assert("atten_k"@.len() != "n"@.len());
    assert("atten_k"@.len() != "ndoth"@.len());
    assert("atten_k"@.len() != "ndotl"@.len());
    assert("atten_k"@.len() != "posEye"@.len());
    assert("atten_k"@.len() != "rho"@.len());
    assert("atten_k"@.len() != "specAccum"@.len());
    assert("atten_k"@.len() != "specFactor"@.len());
    assert("atten_k"@.len() != "toL"@.len());
    assert("atten"@.len() != "L"@.len());
    assert("atten"@.len() != "V"@.len());
    assert("atten"@.len() != "diffuseAccum"@.len());
    assert("atten"@.len() != "dist"@.len());
    assert("atten"@.len() != "mat_power"@.len());
    assert("atten"@.len() != "n"@.len());
    assert("atten"@[0] != "ndoth"@[0]);
    assert("atten"@[0] != "ndotl"@[0]);
    assert("atten"@.len() != "posEye"@.len());
    assert("atten"@.len() != "rho"@.len());
    assert("atten"@.len() != "specAccum"@.len());
    assert("atten"@.len() != "specFactor"@.len());
    assert("atten"@.len() != "toL"@.len());
    inputs_are_no_locals(falloff);
    let k = named(env, falloff);
    let d = named(env, "dist"@)[0];
    let f = whole(1) / (k[0] + d * (k[1] + d * k[2]));
    assert(f * whole(1) == f && f * whole(0) == whole(0)) by (nonlinear_arith);
    let p3 = distance_falloff_program(falloff);
    let p2 = seq![p3[0], p3[1]];
    assert(p3.drop_last() =~= p2);
    let p1 = seq![p3[0]];
    assert(p2.drop_last() =~= p1);
    assert(p1.drop_last() =~= Seq::empty());
    let e0 = env;
    let e1 = p3[0].run(e0);
    assert(named(e1, "atten_k"@) == named(env, falloff));
    assert(named(e1, "dist"@) == named(env, "dist"@));
    let e2 = p3[1].run(e1);
    assert(named(e2, "atten"@) =~= seq![whole(1) / (k[0] + d * (k[1] + d * k[2]))]);
    assert(named(e2, "atten_k"@) == k);
    assert(named(e2, "dist"@) == named(env, "dist"@));
    let e3 = p3[2].run(e2);
    assert(named(e3, "atten"@) =~= seq![fades(k, d)]);
    assert(after(p3, env) == e3);
}

#[verifier::rlimit(60)]
proof fn cone_runs(dir: Seq<char>, specular: Seq<char>, ambient: Seq<char>, env: Env)
    requires
        is_vector(env, dir),
        is_input(dir),
        is_vector(env, specular),
        is_input(specular),
        is_vector(env, ambient),
        is_input(ambient),
        named(env, "L"@).len() == 3,
        named(env, "atten"@).len() == 1,
    ensures
        named(after(cone_program(dir, specular, ambient), env), "atten"@) == seq![
            named(env, "atten"@)[0] * cone_part(
                named(env, "L"@),
                named(env, dir),
                named(env, specular),
                named(env, ambient),
                env.library,
            ),
        ],
{
    reveal_with_fuel(after, 3);
    reveal_with_fuel(Expr::value, 7);
    reveal_with_fuel(inner, 5);
    reveal_strlit("w");
    reveal_strlit("xyz");
    reveal_strlit("L");
    reveal_strlit("V");
    reveal_strlit("atten");
    reveal_strlit("atten_k");
    reveal_strlit("diffuseAccum");
    reveal_strlit("dist");
    reveal_strlit("mat_power");
    reveal_strlit("n");
    reveal_strlit("ndoth");
    reveal_strlit("ndotl");
    reveal_strlit("posEye");
    reveal_strlit("rho");
    reveal_strlit("specAccum");
    reveal_strlit("specFactor");
    reveal_strlit("toL");
    assert("rho"@.len() != "L"@.len());
    assert("rho"@.len() != "V"@.len());
    assert("rho"@.len() != "atten"@.len());
    assert("rho"@.len() != "atten_k"@.len());
    assert("rho"@.len() != "diffuseAccum"@.len());
    assert("rho"@.len() != "dist"@.len());
    assert("rho"@.len() != "mat_power"@.len());
    assert("rho"@.len() != "n"@.len());
    assert("rho"@.len() != "ndoth"@.len());
    assert("rho"@.len() != "ndotl"@.len());
    assert("rho"@.len() != "posEye"@.len());
    assert("rho"@.len() != "specAccum"@.len());
    assert("rho"@.len() != "specFactor"@.len());
    assert("rho"@[0] != "toL"@[0]);
    assert("atten"@.len() != "L"@.len());
    assert("atten"@.len() != "V"@.len());
    assert("atten"@.len() != "atten_k"@.len());
    assert("atten"@.len() != "diffuseAccum"@.len());
    assert("atten"@.len() != "dist"@.len());
    assert("atten"@.len() != "mat_power"@.len());
    assert("atten"@.len() != "n"@.len());
    assert("atten"@[0] != "ndoth"@[0]);
    assert("atten"@[0] != "ndotl"@[0]);
    assert("atten"@.len() != "posEye"@.len());
    assert("atten"@.len() != "specAccum"@.len());
    assert("atten"@.len() != "specFactor"@.len());
    assert("atten"@.len() != "toL"@.len());
    inputs_are_no_locals(dir);
    inputs_are_no_locals(specular);
    inputs_are_no_locals(ambient);
    let l = named(env, "L"@);
    let p2 = cone_program(dir, specular, ambient);
    let p1 = seq![p2[0]];
    assert(p2.drop_last() =~= p1);
    assert(p1.drop_last() =~= Seq::empty());
    let e0 = env;
    let e1 = p2[0].run(e0);
    assert(named(e1, "rho"@) =~= seq![
        (-l[0]) * named(env, dir)[0] + (-l[1]) * named(env, dir)[1] + (-l[2]) * named(env, dir)[2],
    ]);
    assert(named(e1, "atten"@) == named(env, "atten"@));
    assert(named(e1, dir) == named(env, dir));
    assert(named(e1, specular) == named(env, specular));
    assert(named(e1, ambient) == named(env, ambient));
    let e2 = p2[1].run(e1);
    assert(named(e2, "atten"@) =~= seq![
        named(env, "atten"@)[0] * cone_part(
            l,
            named(env, dir),
            named(env, specular),
            named(env, ambient),
            env.library,
        ),
    ]);
    assert(after(p2, env) == e2);
}

/// How much a surface faces a light.
pub open spec fn lambert_part(env: Env) -> real {
    greater(dot_3(named(env, "n"@), named(env, "L"@)), whole(0))
}

/// How much a surface mirrors a light to the viewer: the power of how much it
/// faces the direction half way between them.
pub open spec fn mirror_part(env: Env) -> real {
    let (l, v) = (named(env, "L"@), named(env, "V"@));
    let h = unit_3(seq![l[0] + v[0], l[1] + v[1], l[2] + v[2]], env.library);
    if named(env, "ndotl"@)[0] > whole(0) {
        (env.library.pow)(
            greater(dot_3(named(env, "n"@), h), whole(0)),
            named(env, "mat_power"@)[0],
        )
    } else {
        whole(0)
    }
}

#[verifier::rlimit(60)]
proof fn lambert_runs(diffuse: Seq<char>, material: Seq<char>, env: Env)
    requires
        is_vector(env, diffuse),
        is_input(diffuse),
        is_vector(env, material),
        is_input(material),
        named(env, "n"@).len() == 3,
        named(env, "L"@).len() == 3,
        named(env, "atten"@).len() == 1,
        is_vector(env, "diffuseAccum"@),
    ensures
        named(after(lambert_program(diffuse, material), env), "ndotl"@) == seq![lambert_part(env)],
        named(after(lambert_program(diffuse, material), env), "diffuseAccum"@) == Seq::new(
            4,
            |i: int|
                named(env, "diffuseAccum"@)[i]
                    + named(env, "atten"@)[0] * lambert_part(env) * named(
                    env,
                    diffuse,
                )[i] * named(env, material)[i],
        ),
{
    reveal_with_fuel(after, 3);
    reveal_with_fuel(Expr::value, 5);
    reveal_with_fuel(inner, 5);
    numerals();
    reveal_strlit("L");
    reveal_strlit("V");
    reveal_strlit("atten");
    reveal_strlit("atten_k");
    reveal_strlit("diffuseAccum");
    reveal_strlit("dist");
    reveal_strlit("mat_power");
    reveal_strlit("n");
    reveal_strlit("ndoth");
    reveal_strlit("ndotl");
    reveal_strlit("posEye");
    reveal_strlit("rho");
    reveal_strlit("specAccum");
    reveal_strlit("specFactor");
    reveal_strlit("toL");
    assert("ndotl"@.len() != "L"@.len());
    assert("ndotl"@.len() != "V"@.len());
    assert("ndotl"@[0] != "atten"@[0]);
    assert("ndotl"@.len() != "atten_k"@.len());
    assert("ndotl"@.len() != "diffuseAccum"@.len());
    assert("ndotl"@.len() != "dist"@.len());
    assert("ndotl"@.len() != "mat_power"@.len());
    assert("ndotl"@.len() != "n"@.len());
    assert("ndotl"@[4] != "ndoth"@[4]);
    assert("ndotl"@.len() != "posEye"@.len());
    assert("ndotl"@.len() != "rho"@.len());
    assert("ndotl"@.len() != "specAccum"@.len());
    assert("ndotl"@.len() != "specFactor"@.len());
    assert("ndotl"@.len() != "toL"@.len());
    assert("diffuseAccum"@.len() != "L"@.len());
    assert("diffuseAccum"@.len() != "V"@.len());
    assert("diffuseAccum"@.len() != "atten"@.len());
    assert("diffuseAccum"@.len() != "atten_k"@.len());
    assert("diffuseAccum"@.len() != "dist"@.len());
    assert("diffuseAccum"@.len() != "mat_power"@.len());
    assert("diffuseAccum"@.len() != "n"@.len());
    assert("diffuseAccum"@.len() != "ndoth"@.len());
    assert("diffuseAccum"@.len() != "posEye"@.len());
    assert("diffuseAccum"@.len() != "rho"@.len());
    assert("diffuseAccum"@.len() != "specAccum"@.len());
    assert("diffuseAccum"@.len() != "specFactor"@.len());
    assert("diffuseAccum"@.len() != "toL"@.len());
    inputs_are_no_locals(diffuse);
    inputs_are_no_locals(material);
    let p2 = lambert_program(diffuse, material);
    let p1 = seq![p2[0]];
    assert(p2.drop_last() =~= p1);
    assert(p1.drop_last() =~= Seq::empty());
    let e0 = env;
    let e1 = p2[0].run(e0);
    assert(named(e1, "ndotl"@) =~= seq![lambert_part(env)]);
    assert(named(e1, "atten"@) == named(env, "atten"@));
    assert(named(e1, "diffuseAccum"@) == named(env, "diffuseAccum"@));
    assert(named(e1, diffuse) == named(env, diffuse));
    assert(named(e1, material) == named(env, material));
    let e2 = p2[1].run(e1);
    assert(named(e2, "diffuseAccum"@) =~= Seq::new(
            4,
            |i: int|
                named(env, "diffuseAccum"@)[i]
                    + named(env, "atten"@)[0] * lambert_part(env) * named(
                    env,
                    diffuse,
                )[i] * named(env, material)[i],
        ));
    assert(named(e2, "ndotl"@) == named(e1, "ndotl"@));
    assert(after(p2, env) == e2);
}

#[verifier::rlimit(60)]
proof fn ambient_light_runs(ambient: Seq<char>, material: Seq<char>, env: Env)
    requires
        is_vector(env, ambient),
        is_input(ambient),
        is_vector(env, material),
        is_input(material),
        named(env, "atten"@).len() == 1,
        is_vector(env, "diffuseAccum"@),
    ensures
        named(after(ambient_light_program(ambient, material), env), "diffuseAccum"@) == Seq::new(
            4,
            |i: int|
                named(env, "diffuseAccum"@)[i] + named(env, "atten"@)[0] * (named(env, ambient)[i]
                    * named(env, material)[i]),
        ),
{
    reveal_with_fuel(after, 2);
    reveal_with_fuel(Expr::value, 5);
    reveal_with_fuel(inner, 5);
    reveal_strlit("L");
    reveal_strlit("V");
    reveal_strlit("atten");
    reveal_strlit("atten_k");
    reveal_strlit("diffuseAccum");
    reveal_strlit("dist");
    reveal_strlit("mat_power");
    reveal_strlit("n");
    reveal_strlit("ndoth");
    reveal_strlit("ndotl");
    reveal_strlit("posEye");
    reveal_strlit("rho");
    reveal_strlit("specAccum");
    reveal_strlit("specFactor");
    reveal_strlit("toL");
    assert("diffuseAccum"@.len() != "L"@.len());
    assert("diffuseAccum"@.len() != "V"@.len());
    assert("diffuseAccum"@.len() != "atten"@.len());
    assert("diffuseAccum"@.len() != "atten_k"@.len());
    assert("diffuseAccum"@.len() != "dist"@.len());
    assert("diffuseAccum"@.len() != "mat_power"@.len());
    assert("diffuseAccum"@.len() != "n"@.len());
    assert("diffuseAccum"@.len() != "ndoth"@.len());
    assert("diffuseAccum"@.len() != "ndotl"@.len());
    assert("diffuseAccum"@.len() != "posEye"@.len());
    assert("diffuseAccum"@.len() != "rho"@.len());
    assert("diffuseAccum"@.len() != "specAccum"@.len());
    assert("diffuseAccum"@.len() != "specFactor"@.len());
    assert("diffuseAccum"@.len() != "toL"@.len());
    inputs_are_no_locals(ambient);
    inputs_are_no_locals(material);
    let p1 = ambient_light_program(ambient, material);
    assert(p1.drop_last() =~= Seq::empty());
    let e0 = env;
    let e1 = p1[0].run(e0);
    assert(named(e1, "diffuseAccum"@) =~= Seq::new(
            4,
            |i: int|
                named(env, "diffuseAccum"@)[i] + named(env, "atten"@)[0] * (named(env, ambient)[i]
                    * named(env, material)[i]),
        ));
    assert(after(p1, env) == e1);
}

#[verifier::rlimit(60)]
proof fn highlight_runs(specular: Seq<char>, material: Seq<char>, env: Env)
    requires
        is_vector(env, specular),
        is_input(specular),
        is_vector(env, material),
        is_input(material),
        named(env, "n"@).len() == 3,
        named(env, "L"@).len() == 3,
        named(env, "atten"@).len() == 1,
        named(env, "V"@).len() == 3,
        named(env, "ndotl"@).len() == 1,
        named(env, "mat_power"@).len() == 1,
        named(env, "specAccum"@).len() == 3,
    ensures
        named(after(highlight_program(specular, material), env), "specAccum"@) == Seq::new(
            3,
            |i: int|
                named(env, "specAccum"@)[i] + named(env, "atten"@)[0] * mirror_part(env) * (named(
                    env,
                    specular,
                )[i] * named(env, material)[i]),
        ),
{
    reveal_with_fuel(after, 4);
    reveal_with_fuel(Expr::value, 6);
    reveal_with_fuel(inner, 5);
    numerals();
    reveal_strlit("rgb");
    reveal_strlit("L");
    reveal_strlit("V");
    reveal_strlit("atten");
    reveal_strlit("atten_k");
    reveal_strlit("diffuseAccum");
    reveal_strlit("dist");
    reveal_strlit("mat_power");
    reveal_strlit("n");
    reveal_strlit("ndoth");
    reveal_strlit("ndotl");
    reveal_strlit("posEye");
    reveal_strlit("rho");
    reveal_strlit("specAccum");
    reveal_strlit("specFactor");
    reveal_strlit("toL");
    assert("ndoth"@.len() != "L"@.len());
    assert("ndoth"@.len() != "V"@.len());
    assert("ndoth"@[0] != "atten"@[0]);
    assert("ndoth"@.len() != "atten_k"@.len());
    assert("ndoth"@.len() != "diffuseAccum"@.len());
    assert("ndoth"@.len() != "dist"@.len());
    assert("ndoth"@.len() != "mat_power"@.len());
    assert("ndoth"@.len() != "n"@.len());
    assert("ndoth"@[4] != "ndotl"@[4]);
    assert("ndoth"@.len() != "posEye"@.len());
    assert("ndoth"@.len() != "rho"@.len());
    assert("ndoth"@.len() != "specAccum"@.len());
    assert("ndoth"@.len() != "specFactor"@.len());
    assert("ndoth"@.len() != "toL"@.len());
    assert("specFactor"@.len() != "L"@.len());
    assert("specFactor"@.len() != "V"@.len());
    assert("specFactor"@.len() != "atten"@.len());
    assert("specFactor"@.len() != "atten_k"@.len());
    assert("specFactor"@.len() != "diffuseAccum"@.len());
    assert("specFactor"@.len() != "dist"@.len());
    assert("specFactor"@.len() != "mat_power"@.len());
    assert("specFactor"@.len() != "n"@.len());
    assert("specFactor"@.len() != "ndotl"@.len());
    assert("specFactor"@.len() != "posEye"@.len());
    assert("specFactor"@.len() != "rho"@.len());
    assert("specFactor"@.len() != "specAccum"@.len());
    assert("specFactor"@.len() != "toL"@.len());
    assert("specAccum"@.len() != "L"@.len());
    assert("specAccum"@.len() != "V"@.len());
    assert("specAccum"@.len() != "atten"@.len());
    assert("specAccum"@.len() != "atten_k"@.len());
    assert("specAccum"@.len() != "diffuseAccum"@.len());
    assert("specAccum"@.len() != "dist"@.len());
    assert("specAccum"@[0] != "mat_power"@[0]);
    assert("specAccum"@.len() != "n"@.len());
    assert("specAccum"@.len() != "ndotl"@.len());
    assert("specAccum"@.len() != "posEye"@.len());
    assert("specAccum"@.len() != "rho"@.len());
    assert("specAccum"@.len() != "toL"@.len());
    inputs_are_no_locals(specular);
    inputs_are_no_locals(material);
    let (l, v) = (named(env, "L"@), named(env, "V"@));
    let h = unit_3(seq![l[0] + v[0], l[1] + v[1], l[2] + v[2]], env.library);
    let nh = call_1(
        Function::Normalize,
        infix(Operator::Plus, name("L"@), name("V"@)),
    ).value(env);
    assert(infix(Operator::Plus, name("L"@), name("V"@)).value(env) =~= seq![
        l[0] + v[0],
        l[1] + v[1],
        l[2] + v[2],
    ]);
    let p3 = highlight_program(specular, material);
    let p2 = seq![p3[0], p3[1]];
    assert(p3.drop_last() =~= p2);
    let p1 = seq![p3[0]];
    assert(p2.drop_last() =~= p1);
    assert(p1.drop_last() =~= Seq::empty());
    let e0 = env;
    let e1 = p3[0].run(e0);
    assert(nh =~= h);
    assert(named(e1, "ndoth"@) =~= seq![greater(dot_3(named(env, "n"@), h), whole(0))]);
    assert(named(e1, "ndotl"@) == named(env, "ndotl"@));
    assert(named(e1, "mat_power"@) == named(env, "mat_power"@));
    assert(named(e1, "atten"@) == named(env, "atten"@));
    assert(named(e1, "specAccum"@) == named(env, "specAccum"@));
    assert(named(e1, specular) == named(env, specular));
    assert(named(e1, material) == named(env, material));
    let e2 = p3[1].run(e1);
    assert(named(e2, "specFactor"@) =~= seq![mirror_part(env)]);
    assert(named(e2, "atten"@) == named(env, "atten"@));
    assert(named(e2, "specAccum"@) == named(env, "specAccum"@));
    assert(named(e2, specular) == named(env, specular));
    assert(named(e2, material) == named(env, material));
    let e3 = p3[2].run(e2);
    assert(named(e3, "specAccum"@) =~= Seq::new(
            3,
            |i: int|
                named(env, "specAccum"@)[i] + named(env, "atten"@)[0] * mirror_part(env) * (named(
                    env,
                    specular,
                )[i] * named(env, material)[i]),
        ));
    assert(after(p3, env) == e3);
}

/// Whether each statement can be read in one way only.
pub open spec fn are_plain(p: Seq<Statement>) -> bool {
    forall|i: int| 0 <= i < p.len() ==> (#[trigger] p[i]).is_plain()
}

/// The statements of `p` where `b` holds, none otherwise.
spec fn optional(b: bool, p: Seq<Statement>) -> Seq<Statement> {
    if b {
        p
    } else {
        Seq::empty()
    }
}

proof fn statements_append(b: bool, text: Seq<char>, p: Seq<Statement>, acc: Seq<char>)
    requires
        is_program(text, p, Seq::empty(), "        "@),
    ensures
        lines(optional(b, p), acc, "        "@) == acc + text_if(b, text),
{
    lines_append(p, acc, "        "@);
    if !b {
        reveal_strlit("");
        assert(acc + ""@ =~= acc);
    }
}

proof fn along_direction_keeps(dir: Seq<char>, env: Env)
    ensures
        forall|m: Seq<char>|
            m != "L"@ ==> #[trigger] named(
                after(along_direction_program(dir), env),
                m,
            ) == named(env, m),
        after(along_direction_program(dir), env).library == env.library,
{
    let p = along_direction_program(dir);
    assert forall|m: Seq<char>| m != "L"@ implies #[trigger] named(
        after(p, env),
        m,
    ) == named(env, m) by {
        other_names_are_kept(p, env, m);
    }
    let other = "none"@;
    reveal_strlit("none");
    reveal_strlit("L");
    assert("L"@[0] != "none"@[0]);
    other_names_are_kept(p, env, other);
}

proof fn full_light_keeps(env: Env)
    ensures
        forall|m: Seq<char>|
            m != "atten"@ ==> #[trigger] named(
                after(full_light_program(), env),
                m,
            ) == named(env, m),
        after(full_light_program(), env).library == env.library,
{
    let p = full_light_program();
    assert forall|m: Seq<char>| m != "atten"@ implies #[trigger] named(
        after(p, env),
        m,
    ) == named(env, m) by {
        other_names_are_kept(p, env, m);
    }
    let other = "none"@;
    reveal_strlit("none");
    reveal_strlit("atten");
    assert("atten"@[0] != "none"@[0]);
    other_names_are_kept(p, env, other);
}

proof fn to_the_light_keeps(at: Seq<char>, env: Env)
    ensures
        forall|m: Seq<char>|
            m != "toL"@ && m != "dist"@ ==> #[trigger] named(
                after(to_the_light_program(at), env),
                m,
            ) == named(env, m),
        after(to_the_light_program(at), env).library == env.library,
{
    let p = to_the_light_program(at);
    assert forall|m: Seq<char>| m != "toL"@ && m != "dist"@ implies #[trigger] named(
        after(p, env),
        m,
    ) == named(env, m) by {
        other_names_are_kept(p, env, m);
    }
    let other = "none"@;
    reveal_strlit("none");
    reveal_strlit("toL");
    assert("toL"@[0] != "none"@[0]);
    reveal_strlit("dist");
    assert("dist"@[0] != "none"@[0]);
    other_names_are_kept(p, env, other);
}

proof fn unit_vector_keeps(env: Env)
    ensures
        forall|m: Seq<char>|
            m != "L"@ ==> #[trigger] named(
                after(unit_vector_program(), env),
                m,
            ) == named(env, m),
        after(unit_vector_program(), env).library == env.library,
{
    let p = unit_vector_program();
    assert forall|m: Seq<char>| m != "L"@ implies #[trigger] named(
        after(p, env),
        m,
    ) == named(env, m) by {
        other_names_are_kept(p, env, m);
    }
    let other = "none"@;
    reveal_strlit("none");
    reveal_strlit("L");
    assert("L"@[0] != "none"@[0]);
    other_names_are_kept(p, env, other);
}

proof fn distance_falloff_keeps(falloff: Seq<char>, env: Env)
    ensures
        forall|m: Seq<char>|
            m != "atten_k"@ && m != "atten"@ ==> #[trigger] named(
                after(distance_falloff_program(falloff), env),
                m,
            ) == named(env, m),
        after(distance_falloff_program(falloff), env).library == env.library,
{
    let p = distance_falloff_program(falloff);
    assert forall|m: Seq<char>| m != "atten_k"@ && m != "atten"@ implies #[trigger] named(
        after(p, env),
        m,
    ) == named(env, m) by {
        other_names_are_kept(p, env, m);
    }
    let other = "none"@;
    reveal_strlit("none");
    reveal_strlit("atten_k");
    assert("atten_k"@[0] != "none"@[0]);
    reveal_strlit("atten");
    assert("atten"@[0] != "none"@[0]);
    other_names_are_kept(p, env, other);
}

proof fn cone_keeps(dir: Seq<char>, specular: Seq<char>, ambient: Seq<char>, env: Env)
    ensures
        forall|m: Seq<char>|
            m != "rho"@ && m != "atten"@ ==> #[trigger] named(
                after(cone_program(dir, specular, ambient), env),
                m,
            ) == named(env, m),
        after(cone_program(dir, specular, ambient), env).library == env.library,
{
    let p = cone_program(dir, specular, ambient);
    assert forall|m: Seq<char>| m != "rho"@ && m != "atten"@ implies #[trigger] named(
        after(p, env),
        m,
    ) == named(env, m) by {
        other_names_are_kept(p, env, m);
    }
    let other = "none"@;
    reveal_strlit("none");
    reveal_strlit("rho");
    assert("rho"@[0] != "none"@[0]);
    reveal_strlit("atten");
    assert("atten"@[0] != "none"@[0]);
    other_names_are_kept(p, env, other);
}

proof fn lambert_keeps(diffuse: Seq<char>, material: Seq<char>, env: Env)
    ensures
        forall|m: Seq<char>|
            m != "ndotl"@ && m != "diffuseAccum"@ ==> #[trigger] named(
                after(lambert_program(diffuse, material), env),
                m,
            ) == named(env, m),
        after(lambert_program(diffuse, material), env).library == env.library,
{
    let p = lambert_program(diffuse, material);
    assert forall|m: Seq<char>| m != "ndotl"@ && m != "diffuseAccum"@ implies #[trigger] named(
        after(p, env),
        m,
    ) == named(env, m) by {
        other_names_are_kept(p, env, m);
    }
    let other = "none"@;
    reveal_strlit("none");
    reveal_strlit("ndotl");
    assert("ndotl"@[0] != "none"@[0] || "ndotl"@.len() != "none"@.len());
    reveal_strlit("diffuseAccum");
    assert("diffuseAccum"@[0] != "none"@[0]);
    other_names_are_kept(p, env, other);
}

proof fn ambient_light_keeps(ambient: Seq<char>, material: Seq<char>, env: Env)
    ensures
        forall|m: Seq<char>|
            m != "diffuseAccum"@ ==> #[trigger] named(
                after(ambient_light_program(ambient, material), env),
                m,
            ) == named(env, m),
        after(ambient_light_program(ambient, material), env).library == env.library,
{
    let p = ambient_light_program(ambient, material);
    assert forall|m: Seq<char>| m != "diffuseAccum"@ implies #[trigger] named(
        after(p, env),
        m,
    ) == named(env, m) by {
        other_names_are_kept(p, env, m);
    }
    let other = "none"@;
    reveal_strlit("none");
    reveal_strlit("diffuseAccum");
    assert("diffuseAccum"@[0] != "none"@[0]);
    other_names_are_kept(p, env, other);
}

proof fn highlight_keeps(specular: Seq<char>, material: Seq<char>, env: Env)
    ensures
        forall|m: Seq<char>|
            m != "ndoth"@ && m != "specFactor"@ && m != "specAccum"@ ==> #[trigger] named(
                after(highlight_program(specular, material), env),
                m,
            ) == named(env, m),
        after(highlight_program(specular, material), env).library == env.library,
{
    let p = highlight_program(specular, material);
    assert forall|m: Seq<char>| m != "ndoth"@ && m != "specFactor"@ && m != "specAccum"@
        implies #[trigger] named(
        after(p, env),
        m,
    ) == named(env, m) by {
        other_names_are_kept(p, env, m);
    }
    let other = "none"@;
    reveal_strlit("none");
    reveal_strlit("ndoth");
    assert("ndoth"@[0] != "none"@[0] || "ndoth"@.len() != "none"@.len());
    reveal_strlit("specFactor");
    assert("specFactor"@[0] != "none"@[0]);
    reveal_strlit("specAccum");
    assert("specAccum"@[0] != "none"@[0]);
    other_names_are_kept(p, env, other);
}

/// The constants of light `slot`: its position, direction, colours and falloff.
pub open spec fn light_row(slot: nat, i: nat) -> Seq<char> {
    row(LIGHT_ROW as nat + 6 * slot + i)
}

/// The text of the diffuse material.
pub open spec fn diffuse_material(key: FfVsKey) -> Seq<char> {
    material_text(key, key.diffuse_source, 10)
}

/// The text of the ambient material.
pub open spec fn ambient_material(key: FfVsKey) -> Seq<char> {
    material_text(key, key.ambient_source, 11)
}

/// The text of the specular material.
pub open spec fn specular_material(key: FfVsKey) -> Seq<char> {
    material_text(key, key.specular_source, 12)
}

proof fn rows_are_inputs(r: nat)
    ensures
        is_input(row(r)),
{
    reveal_strlit("vs_c[");
    reveal_strlit("]");
    assert(row(r)[0] == 'v' && row(r)[1] == 's');
}

proof fn materials_are_inputs(key: FfVsKey, source: u8, r: nat)
    ensures
        is_input(material_text(key, source, r)),
{
    rows_are_inputs(r);
    reveal_strlit("in.v2");
    reveal_strlit("in.v3");
}

spec fn vector_program(key: FfVsKey, slot: nat) -> Seq<Statement> {
    if key.directional(slot) {
        optional(key.normals(), along_direction_program(light_row(slot, 1))) + full_light_program()
    } else {
        to_the_light_program(light_row(slot, 0)) + optional(
            key.normals() || key.spot(slot),
            unit_vector_program(),
        ) + distance_falloff_program(light_row(slot, 4)) + optional(
            key.spot(slot),
            cone_program(light_row(slot, 1), light_row(slot, 5), light_row(slot, 3)),
        )
    }
}

spec fn light_program(key: FfVsKey, slot: nat) -> Seq<Statement> {
    vector_program(key, slot) + optional(
        key.normals(),
        lambert_program(light_row(slot, 2), diffuse_material(key)),
    ) + ambient_light_program(light_row(slot, 3), ambient_material(key)) + optional(
        key.highlights(),
        highlight_program(light_row(slot, 5), specular_material(key)),
    )
}

proof fn vectors_are_written(key: FfVsKey, slot: nat)
    ensures
        lines(vector_program(key, slot), Seq::empty(), "        "@) == light_vector(key, slot),
        are_plain(vector_program(key, slot)),
{
    let ind = "        "@;
    let none = Seq::<char>::empty();
    let (at, dir) = (light_row(slot, 0), light_row(slot, 1));
    let (ambient, falloff, specular) = (
        light_row(slot, 3),
        light_row(slot, 4),
        light_row(slot, 5),
    );
    assert(at == row(LIGHT_ROW as nat + 6 * slot));
    if key.directional(slot) {
        let p = optional(key.normals(), along_direction_program(dir));
        along_direction_is_written(dir);
        full_light_is_written();
        let text = "        float3 L = -"@ + dir + ".xyz;\n"@;
        statements_append(key.normals(), text, along_direction_program(dir), none);
        let a = text_if(key.normals(), text);
        assert(none + a =~= a);
        programs_compose(p, full_light_program(), none, ind);
        lines_append(full_light_program(), a, ind);
    } else {
        to_the_light_is_written(at);
        unit_vector_is_written();
        distance_falloff_is_written(falloff);
        cone_is_written(dir, specular, ambient);
        let p = to_the_light_program(at);
        let q = optional(key.normals() || key.spot(slot), unit_vector_program());
        let r = distance_falloff_program(falloff);
        let t = optional(key.spot(slot), cone_program(dir, specular, ambient));
        programs_compose(p, q, none, ind);
        programs_compose(p + q, r, none, ind);
        programs_compose(p + q + r, t, none, ind);
        let x = "        float3 toL = "@ + at;
        assert(x + ".xyz - posEye;\n        float dist = length(toL);\n"@ == x
            + ".xyz - posEye;\n"@ + "        float dist = length(toL);\n"@) by {
            reveal_strlit(".xyz - posEye;\n        float dist = length(toL);\n");
            reveal_strlit(".xyz - posEye;\n");
            reveal_strlit("        float dist = length(toL);\n");
            assert(x + ".xyz - posEye;\n        float dist = length(toL);\n"@ =~= x
                + ".xyz - posEye;\n"@ + "        float dist = length(toL);\n"@);
        }
        let a = lines(p, none, ind);
        statements_append(
            key.normals() || key.spot(slot),
            "        float3 L = normalize(toL);\n"@,
            unit_vector_program(),
            a,
        );
        let b = lines(q, a, ind);
        lines_append(r, b, ind);
        let c = lines(r, b, ind);
        assert(c =~= b + "        float4 atten_k = "@ + falloff + ";\n"@
            + "        float atten = 1.0 / (atten_k.x + dist * (atten_k.y + dist * atten_k.z));\n"@
            + "        atten *= step(dist, atten_k.w);\n"@);
        let y = "        float rho = dot(-L, "@ + dir;
        assert(y + ".xyz);\n        atten *= pow(saturate(rho * "@ == y + ".xyz);\n"@
            + "        atten *= pow(saturate(rho * "@) by {
            reveal_strlit(".xyz);\n        atten *= pow(saturate(rho * ");
            reveal_strlit(".xyz);\n");
            reveal_strlit("        atten *= pow(saturate(rho * ");
            assert(y + ".xyz);\n        atten *= pow(saturate(rho * "@ =~= y + ".xyz);\n"@
                + "        atten *= pow(saturate(rho * "@);
        }
        let cone = "        float rho = dot(-L, "@ + dir
            + ".xyz);\n        atten *= pow(saturate(rho * "@ + specular + ".w + "@ + ambient
            + ".w), "@ + dir + ".w);\n"@;
        statements_append(key.spot(slot), cone, cone_program(dir, specular, ambient), c);
    }
}

proof fn lights_are_written(key: FfVsKey, slot: nat)
    ensures
        light_text(key, slot) == lines(light_program(key, slot), "    {\n"@, "        "@)
            + "    }\n"@,
{
    let ind = "        "@;
    let (diffuse, ambient, specular) = (
        light_row(slot, 2),
        light_row(slot, 3),
        light_row(slot, 5),
    );
    let (md, ma, ms) = (diffuse_material(key), ambient_material(key), specular_material(key));
    let head = "    {\n"@;
    let p = vector_program(key, slot);
    let q = optional(key.normals(), lambert_program(diffuse, md));
    let r = ambient_light_program(ambient, ma);
    let t = optional(key.highlights(), highlight_program(specular, ms));
    vectors_are_written(key, slot);
    lambert_is_written(diffuse, md);
    ambient_light_is_written(ambient, ma);
    highlight_is_written(specular, ms);
    programs_compose(p, q, head, ind);
    programs_compose(p + q, r, head, ind);
    programs_compose(p + q + r, t, head, ind);
    lines_append(p, head, ind);
    let a = lines(p, head, ind);
    assert("        float ndotl = max(dot(n, L), 0.0);\n        diffuseAccum += atten * ndotl * "@
        == "        float ndotl = max(dot(n, L), 0.0);\n"@
        + "        diffuseAccum += atten * ndotl * "@) by {
        reveal_strlit(
            "        float ndotl = max(dot(n, L), 0.0);\n        diffuseAccum += atten * ndotl * ",
        );
        reveal_strlit("        float ndotl = max(dot(n, L), 0.0);\n");
        reveal_strlit("        diffuseAccum += atten * ndotl * ");
    }
    let lambert = "        float ndotl = max(dot(n, L), 0.0);\n        diffuseAccum += atten * ndotl * "@
        + diffuse + " * "@ + md + ";\n"@;
    statements_append(key.normals(), lambert, lambert_program(diffuse, md), a);
    let b = lines(q, a, ind);
    lines_append(r, b, ind);
    let c = lines(r, b, ind);
    assert(c =~= b + "        diffuseAccum += atten * ("@ + ambient + " * "@ + ma + ");\n"@);
    let mirrored = "        float ndoth = max(dot(n, normalize(L + V)), 0.0);\n"@
        + "        float specFactor = ndotl > 0.0 ? pow(ndoth, mat_power) : 0.0;\n"@
        + "        specAccum += atten * specFactor * ("@ + specular + ".rgb * "@ + ms
        + ".rgb);\n"@;
    statements_append(key.highlights(), mirrored, highlight_program(specular, ms), c);
}

proof fn lights_are_plain(key: FfVsKey, slot: nat)
    ensures
        are_plain(light_program(key, slot)),
{
    let (diffuse, ambient, specular) = (
        light_row(slot, 2),
        light_row(slot, 3),
        light_row(slot, 5),
    );
    let (md, ma, ms) = (diffuse_material(key), ambient_material(key), specular_material(key));
    vectors_are_written(key, slot);
    lambert_is_written(diffuse, md);
    ambient_light_is_written(ambient, ma);
    highlight_is_written(specular, ms);
    assert(are_plain(optional(key.normals(), lambert_program(diffuse, md))));
    assert(are_plain(optional(key.highlights(), highlight_program(specular, ms))));
}

/// Whether what a light reads has the lanes that it is declared with.
pub open spec fn holds_light(key: FfVsKey, slot: nat, env: Env) -> bool {
    &&& forall|i: nat| i < 6 ==> is_vector(env, #[trigger] light_row(slot, i))
    &&& is_vector(env, diffuse_material(key))
    &&& is_vector(env, ambient_material(key))
    &&& is_vector(env, specular_material(key))
    &&& named(env, "n"@).len() == 3
    &&& named(env, "V"@).len() == 3
    &&& named(env, "posEye"@).len() == 3
    &&& named(env, "mat_power"@).len() == 1
    &&& named(env, "diffuseAccum"@).len() == 4
    &&& named(env, "specAccum"@).len() == 3
}

/// The unit vector from the vertex to a light.
pub open spec fn light_direction(key: FfVsKey, slot: nat, env: Env) -> Value {
    if key.directional(slot) {
        let d = named(env, light_row(slot, 1));
        seq![-d[0], -d[1], -d[2]]
    } else {
        unit_3(towards(named(env, light_row(slot, 0)), named(env, "posEye"@)), env.library)
    }
}

/// What reaches the vertex of a light. A directional light reaches it in full,
/// another one fades with the distance, and a spot light towards the edge of its
/// cone.
pub open spec fn attenuation(key: FfVsKey, slot: nat, env: Env) -> real {
    let to = towards(named(env, light_row(slot, 0)), named(env, "posEye"@));
    let faded = fades(named(env, light_row(slot, 4)), length_3(to, env.library));
    if key.directional(slot) {
        whole(1)
    } else if key.spot(slot) {
        faded * cone_part(
            light_direction(key, slot, env),
            named(env, light_row(slot, 1)),
            named(env, light_row(slot, 5)),
            named(env, light_row(slot, 3)),
            env.library,
        )
    } else {
        faded
    }
}

/// Lane `i` of the diffuse colour that a light adds: the light that the surface
/// faces, if it has a normal, and the ambient part, each times its material.
pub open spec fn diffuse_part(key: FfVsKey, slot: nat, env: Env, i: int) -> real {
    let a = attenuation(key, slot, env);
    let faced = greater(dot_3(named(env, "n"@), light_direction(key, slot, env)), whole(0));
    let ambient = a * (named(env, light_row(slot, 3))[i] * named(env, ambient_material(key))[i]);
    if key.normals() {
        a * faced * named(env, light_row(slot, 2))[i] * named(env, diffuse_material(key))[i]
            + ambient
    } else {
        ambient
    }
}

/// Lane `i` of the highlight that a light adds: the power of how much the surface
/// faces the direction half way between the light and the viewer, where it faces
/// the light at all.
pub open spec fn specular_part(key: FfVsKey, slot: nat, env: Env, i: int) -> real {
    let (l, v) = (light_direction(key, slot, env), named(env, "V"@));
    let h = unit_3(seq![l[0] + v[0], l[1] + v[1], l[2] + v[2]], env.library);
    let faced = greater(dot_3(named(env, "n"@), l), whole(0));
    let shine = if faced > whole(0) {
        (env.library.pow)(
            greater(dot_3(named(env, "n"@), h), whole(0)),
            named(env, "mat_power"@)[0],
        )
    } else {
        whole(0)
    };
    if key.highlights() {
        attenuation(key, slot, env) * shine * (named(env, light_row(slot, 5))[i] * named(
            env,
            specular_material(key),
        )[i])
    } else {
        whole(0)
    }
}

proof fn light_names_are_told_apart()
    ensures
        "toL"@ != "dist"@,
        "toL"@ != "L"@,
        "toL"@ != "atten_k"@,
        "toL"@ != "atten"@,
        "toL"@ != "rho"@,
        "toL"@ != "ndotl"@,
        "toL"@ != "ndoth"@,
        "toL"@ != "specFactor"@,
        "toL"@ != "diffuseAccum"@,
        "toL"@ != "specAccum"@,
        "toL"@ != "n"@,
        "toL"@ != "V"@,
        "toL"@ != "posEye"@,
        "toL"@ != "mat_power"@,
        "dist"@ != "L"@,
        "dist"@ != "atten_k"@,
        "dist"@ != "atten"@,
        "dist"@ != "rho"@,
        "dist"@ != "ndotl"@,
        "dist"@ != "ndoth"@,
        "dist"@ != "specFactor"@,
        "dist"@ != "diffuseAccum"@,
        "dist"@ != "specAccum"@,
        "dist"@ != "n"@,
        "dist"@ != "V"@,
        "dist"@ != "posEye"@,
        "dist"@ != "mat_power"@,
        "L"@ != "atten_k"@,
        "L"@ != "atten"@,
        "L"@ != "rho"@,
        "L"@ != "ndotl"@,
        "L"@ != "ndoth"@,
        "L"@ != "specFactor"@,
        "L"@ != "diffuseAccum"@,
        "L"@ != "specAccum"@,
        "L"@ != "n"@,
        "L"@ != "V"@,
        "L"@ != "posEye"@,
        "L"@ != "mat_power"@,
        "atten_k"@ != "atten"@,
        "atten_k"@ != "rho"@,
        "atten_k"@ != "ndotl"@,
        "atten_k"@ != "ndoth"@,
        "atten_k"@ != "specFactor"@,
        "atten_k"@ != "diffuseAccum"@,
        "atten_k"@ != "specAccum"@,
        "atten_k"@ != "n"@,
        "atten_k"@ != "V"@,
        "atten_k"@ != "posEye"@,
        "atten_k"@ != "mat_power"@,
        "atten"@ != "rho"@,
        "atten"@ != "ndotl"@,
        "atten"@ != "ndoth"@,
        "atten"@ != "specFactor"@,
        "atten"@ != "diffuseAccum"@,
        "atten"@ != "specAccum"@,
        "atten"@ != "n"@,
        "atten"@ != "V"@,
        "atten"@ != "posEye"@,
        "atten"@ != "mat_power"@,
        "rho"@ != "ndotl"@,
        "rho"@ != "ndoth"@,
        "rho"@ != "specFactor"@,
        "rho"@ != "diffuseAccum"@,
        "rho"@ != "specAccum"@,
        "rho"@ != "n"@,
        "rho"@ != "V"@,
        "rho"@ != "posEye"@,
        "rho"@ != "mat_power"@,
        "ndotl"@ != "ndoth"@,
        "ndotl"@ != "specFactor"@,
        "ndotl"@ != "diffuseAccum"@,
        "ndotl"@ != "specAccum"@,
        "ndotl"@ != "n"@,
        "ndotl"@ != "V"@,
        "ndotl"@ != "posEye"@,
        "ndotl"@ != "mat_power"@,
        "ndoth"@ != "specFactor"@,
        "ndoth"@ != "diffuseAccum"@,
        "ndoth"@ != "specAccum"@,
        "ndoth"@ != "n"@,
        "ndoth"@ != "V"@,
        "ndoth"@ != "posEye"@,
        "ndoth"@ != "mat_power"@,
        "specFactor"@ != "diffuseAccum"@,
        "specFactor"@ != "specAccum"@,
        "specFactor"@ != "n"@,
        "specFactor"@ != "V"@,
        "specFactor"@ != "posEye"@,
        "specFactor"@ != "mat_power"@,
        "diffuseAccum"@ != "specAccum"@,
        "diffuseAccum"@ != "n"@,
        "diffuseAccum"@ != "V"@,
        "diffuseAccum"@ != "posEye"@,
        "diffuseAccum"@ != "mat_power"@,
        "specAccum"@ != "n"@,
        "specAccum"@ != "V"@,
        "specAccum"@ != "posEye"@,
        "specAccum"@ != "mat_power"@,
        "n"@ != "V"@,
        "n"@ != "posEye"@,
        "n"@ != "mat_power"@,
        "V"@ != "posEye"@,
        "V"@ != "mat_power"@,
        "posEye"@ != "mat_power"@,
{
    reveal_strlit("toL");
    reveal_strlit("dist");
    reveal_strlit("L");
    reveal_strlit("atten_k");
    reveal_strlit("atten");
    reveal_strlit("rho");
    reveal_strlit("ndotl");
    reveal_strlit("ndoth");
    reveal_strlit("specFactor");
    reveal_strlit("diffuseAccum");
    reveal_strlit("specAccum");
    reveal_strlit("n");
    reveal_strlit("V");
    reveal_strlit("posEye");
    reveal_strlit("mat_power");
    assert("toL"@.len() != "dist"@.len());
    assert("toL"@.len() != "L"@.len());
    assert("toL"@.len() != "atten_k"@.len());
    assert("toL"@.len() != "atten"@.len());
    assert("toL"@[0] != "rho"@[0]);
    assert("toL"@.len() != "ndotl"@.len());
    assert("toL"@.len() != "ndoth"@.len());
    assert("toL"@.len() != "specFactor"@.len());
    assert("toL"@.len() != "diffuseAccum"@.len());
    assert("toL"@.len() != "specAccum"@.len());
    assert("toL"@.len() != "n"@.len());
    assert("toL"@.len() != "V"@.len());
    assert("toL"@.len() != "posEye"@.len());
    assert("toL"@.len() != "mat_power"@.len());
    assert("dist"@.len() != "L"@.len());
    assert("dist"@.len() != "atten_k"@.len());
    assert("dist"@.len() != "atten"@.len());
    assert("dist"@.len() != "rho"@.len());
    assert("dist"@.len() != "ndotl"@.len());
    assert("dist"@.len() != "ndoth"@.len());
    assert("dist"@.len() != "specFactor"@.len());
    assert("dist"@.len() != "diffuseAccum"@.len());
    assert("dist"@.len() != "specAccum"@.len());
    assert("dist"@.len() != "n"@.len());
    assert("dist"@.len() != "V"@.len());
    assert("dist"@.len() != "posEye"@.len());
    assert("dist"@.len() != "mat_power"@.len());
    assert("L"@.len() != "atten_k"@.len());
    assert("L"@.len() != "atten"@.len());
    assert("L"@.len() != "rho"@.len());
    assert("L"@.len() != "ndotl"@.len());
    assert("L"@.len() != "ndoth"@.len());
    assert("L"@.len() != "specFactor"@.len());
    assert("L"@.len() != "diffuseAccum"@.len());
    assert("L"@.len() != "specAccum"@.len());
    assert("L"@[0] != "n"@[0]);
    assert("L"@[0] != "V"@[0]);
    assert("L"@.len() != "posEye"@.len());
    assert("L"@.len() != "mat_power"@.len());
    assert("atten_k"@.len() != "atten"@.len());
    assert("atten_k"@.len() != "rho"@.len());
    assert("atten_k"@.len() != "ndotl"@.len());
    assert("atten_k"@.len() != "ndoth"@.len());
    assert("atten_k"@.len() != "specFactor"@.len());
    assert("atten_k"@.len() != "diffuseAccum"@.len());
    assert("atten_k"@.len() != "specAccum"@.len());
    assert("atten_k"@.len() != "n"@.len());
    assert("atten_k"@.len() != "V"@.len());
    assert("atten_k"@.len() != "posEye"@.len());
    assert("atten_k"@.len() != "mat_power"@.len());
    assert("atten"@.len() != "rho"@.len());
    assert("atten"@[0] != "ndotl"@[0]);
    assert("atten"@[0] != "ndoth"@[0]);
    assert("atten"@.len() != "specFactor"@.len());
    assert("atten"@.len() != "diffuseAccum"@.len());
    assert("atten"@.len() != "specAccum"@.len());
    assert("atten"@.len() != "n"@.len());
    assert("atten"@.len() != "V"@.len());
    assert("atten"@.len() != "posEye"@.len());
    assert("atten"@.len() != "mat_power"@.len());
    assert("rho"@.len() != "ndotl"@.len());
    assert("rho"@.len() != "ndoth"@.len());
    assert("rho"@.len() != "specFactor"@.len());
    assert("rho"@.len() != "diffuseAccum"@.len());
    assert("rho"@.len() != "specAccum"@.len());
    assert("rho"@.len() != "n"@.len());
    assert("rho"@.len() != "V"@.len());
    assert("rho"@.len() != "posEye"@.len());
    assert("rho"@.len() != "mat_power"@.len());
    assert("ndotl"@[4] != "ndoth"@[4]);
    assert("ndotl"@.len() != "specFactor"@.len());
    assert("ndotl"@.len() != "diffuseAccum"@.len());
    assert("ndotl"@.len() != "specAccum"@.len());
    assert("ndotl"@.len() != "n"@.len());
    assert("ndotl"@.len() != "V"@.len());
    assert("ndotl"@.len() != "posEye"@.len());
    assert("ndotl"@.len() != "mat_power"@.len());
    assert("ndoth"@.len() != "specFactor"@.len());
    assert("ndoth"@.len() != "diffuseAccum"@.len());
    assert("ndoth"@.len() != "specAccum"@.len());
    assert("ndoth"@.len() != "n"@.len());
    assert("ndoth"@.len() != "V"@.len());
    assert("ndoth"@.len() != "posEye"@.len());
    assert("ndoth"@.len() != "mat_power"@.len());
    assert("specFactor"@.len() != "diffuseAccum"@.len());
    assert("specFactor"@.len() != "specAccum"@.len());
    assert("specFactor"@.len() != "n"@.len());
    assert("specFactor"@.len() != "V"@.len());
    assert("specFactor"@.len() != "posEye"@.len());
    assert("specFactor"@.len() != "mat_power"@.len());
    assert("diffuseAccum"@.len() != "specAccum"@.len());
    assert("diffuseAccum"@.len() != "n"@.len());
    assert("diffuseAccum"@.len() != "V"@.len());
    assert("diffuseAccum"@.len() != "posEye"@.len());
    assert("diffuseAccum"@.len() != "mat_power"@.len());
    assert("specAccum"@.len() != "n"@.len());
    assert("specAccum"@.len() != "V"@.len());
    assert("specAccum"@.len() != "posEye"@.len());
    assert("specAccum"@[0] != "mat_power"@[0]);
    assert("n"@[0] != "V"@[0]);
    assert("n"@.len() != "posEye"@.len());
    assert("n"@.len() != "mat_power"@.len());
    assert("V"@.len() != "posEye"@.len());
    assert("V"@.len() != "mat_power"@.len());
    assert("posEye"@.len() != "mat_power"@.len());
}

#[verifier::rlimit(80)]
proof fn vectors_run(key: FfVsKey, slot: nat, env: Env)
    requires
        holds_light(key, slot, env),
    ensures
        named(after(vector_program(key, slot), env), "atten"@) == seq![
            attenuation(key, slot, env),
        ],
        key.normals() ==> named(after(vector_program(key, slot), env), "L"@) == light_direction(
            key,
            slot,
            env,
        ),
        forall|m: Seq<char>|
            is_input(m) || m == "n"@ || m == "V"@ || m == "mat_power"@ || m == "diffuseAccum"@ || m
                == "specAccum"@ ==> #[trigger] named(after(vector_program(key, slot), env), m)
                == named(env, m),
        after(vector_program(key, slot), env).library == env.library,
{
    light_names_are_told_apart();
    assert forall|m: Seq<char>| #[trigger] is_input(m) implies m != "toL"@ && m != "dist"@
        && m != "L"@ && m != "atten_k"@ && m != "atten"@ && m != "rho"@ by {
        inputs_are_no_locals(m);
    }
    let (at, dir) = (light_row(slot, 0), light_row(slot, 1));
    let (ambient, falloff, specular) = (
        light_row(slot, 3),
        light_row(slot, 4),
        light_row(slot, 5),
    );
    rows_are_inputs(LIGHT_ROW as nat + 6 * slot + 0);
    rows_are_inputs(LIGHT_ROW as nat + 6 * slot + 1);
    rows_are_inputs(LIGHT_ROW as nat + 6 * slot + 3);
    rows_are_inputs(LIGHT_ROW as nat + 6 * slot + 4);
    rows_are_inputs(LIGHT_ROW as nat + 6 * slot + 5);
    let none = Seq::<char>::empty();
    if key.directional(slot) {
        let p = optional(key.normals(), along_direction_program(dir));
        let q = full_light_program();
        programs_compose(p, q, none, none);
        assert(after(p + q, env) == after(q, after(p, env)));
        let e1 = after(p, env);
        along_direction_runs(dir, env);
        along_direction_keeps(dir, env);
        full_light_runs(e1);
        full_light_keeps(e1);
        let e2 = after(q, e1);
        assert(named(e2, "L"@) == named(e1, "L"@));
    } else {
        let near = key.normals() || key.spot(slot);
        let p = to_the_light_program(at);
        let q = optional(near, unit_vector_program());
        let r = distance_falloff_program(falloff);
        let t = optional(key.spot(slot), cone_program(dir, specular, ambient));
        programs_compose(p, q, none, none);
        programs_compose(p + q, r, none, none);
        programs_compose(p + q + r, t, none, none);
        let e1 = after(p, env);
        let e2 = after(q, e1);
        let e3 = after(r, e2);
        let e4 = after(t, e3);
        assert(after(p + q, env) == e2);
        assert(after(p + q + r, env) == e3);
        assert(after(p + q + r + t, env) == e4);
        to_the_light_runs(at, env);
        to_the_light_keeps(at, env);
        unit_vector_runs(e1);
        unit_vector_keeps(e1);
        assert(named(e2, "dist"@) == named(e1, "dist"@));
        assert(named(e2, falloff) == named(env, falloff));
        if near {
            assert(named(e2, "L"@) == light_direction(key, slot, env));
        }
        distance_falloff_runs(falloff, e2);
        distance_falloff_keeps(falloff, e2);
        assert(named(e3, "L"@) == named(e2, "L"@));
        assert(named(e3, dir) == named(env, dir));
        assert(named(e3, specular) == named(env, specular));
        assert(named(e3, ambient) == named(env, ambient));
        if key.spot(slot) {
            cone_runs(dir, specular, ambient, e3);
            cone_keeps(dir, specular, ambient, e3);
            assert(named(e4, "L"@) == named(e3, "L"@));
        }
        assert forall|m: Seq<char>|
            is_input(m) || m == "n"@ || m == "V"@ || m == "mat_power"@ || m == "diffuseAccum"@ || m
                == "specAccum"@ implies #[trigger] named(e4, m) == named(env, m) by {
            assert(named(e1, m) == named(env, m));
            assert(named(e2, m) == named(e1, m));
            assert(named(e3, m) == named(e2, m));
        }
    }
}

#[verifier::rlimit(80)]
proof fn lights_run(key: FfVsKey, slot: nat, env: Env)
    requires
        holds_light(key, slot, env),
    ensures
        named(after(light_program(key, slot), env), "diffuseAccum"@) == Seq::new(
            4,
            |i: int| named(env, "diffuseAccum"@)[i] + diffuse_part(key, slot, env, i),
        ),
        named(after(light_program(key, slot), env), "specAccum"@) == Seq::new(
            3,
            |i: int| named(env, "specAccum"@)[i] + specular_part(key, slot, env, i),
        ),
{
    light_names_are_told_apart();
    assert forall|m: Seq<char>| #[trigger] is_input(m) implies m != "toL"@ && m != "dist"@
        && m != "L"@ && m != "atten_k"@ && m != "atten"@ && m != "rho"@ && m != "ndotl"@
        && m != "ndoth"@ && m != "specFactor"@ && m != "diffuseAccum"@ && m != "specAccum"@ by {
        inputs_are_no_locals(m);
    }
    let (diffuse, ambient, specular) = (
        light_row(slot, 2),
        light_row(slot, 3),
        light_row(slot, 5),
    );
    let (md, ma, ms) = (diffuse_material(key), ambient_material(key), specular_material(key));
    rows_are_inputs(LIGHT_ROW as nat + 6 * slot + 2);
    rows_are_inputs(LIGHT_ROW as nat + 6 * slot + 3);
    rows_are_inputs(LIGHT_ROW as nat + 6 * slot + 5);
    materials_are_inputs(key, key.diffuse_source, 10);
    materials_are_inputs(key, key.ambient_source, 11);
    materials_are_inputs(key, key.specular_source, 12);
    let none = Seq::<char>::empty();
    let p = vector_program(key, slot);
    let q = optional(key.normals(), lambert_program(diffuse, md));
    let r = ambient_light_program(ambient, ma);
    let t = optional(key.highlights(), highlight_program(specular, ms));
    programs_compose(p, q, none, none);
    programs_compose(p + q, r, none, none);
    programs_compose(p + q + r, t, none, none);
    let e1 = after(p, env);
    let e2 = after(q, e1);
    let e3 = after(r, e2);
    let e4 = after(t, e3);
    assert(after(p + q, env) == e2);
    assert(after(p + q + r, env) == e3);
    assert(after(p + q + r + t, env) == e4);
    vectors_run(key, slot, env);
    assert(named(e1, diffuse) == named(env, diffuse) && named(e1, md) == named(env, md));
    assert(named(e1, ambient) == named(env, ambient) && named(e1, ma) == named(env, ma));
    assert(named(e1, specular) == named(env, specular) && named(e1, ms) == named(env, ms));
    assert(named(e1, "diffuseAccum"@) == named(env, "diffuseAccum"@));
    assert(named(e1, "specAccum"@) == named(env, "specAccum"@));
    assert(named(e1, "n"@) == named(env, "n"@) && named(e1, "V"@) == named(env, "V"@));
    assert(named(e1, "mat_power"@) == named(env, "mat_power"@));
    if key.normals() {
        lambert_runs(diffuse, md, e1);
        lambert_keeps(diffuse, md, e1);
    }
    assert(named(e2, "atten"@) == named(e1, "atten"@));
    assert(named(e2, ambient) == named(env, ambient) && named(e2, ma) == named(env, ma));
    ambient_light_runs(ambient, ma, e2);
    ambient_light_keeps(ambient, ma, e2);
    let added = Seq::new(
        4,
        |i: int| named(env, "diffuseAccum"@)[i] + diffuse_part(key, slot, env, i),
    );
    assert(named(e3, "diffuseAccum"@) =~= added);
    assert(named(e3, "specAccum"@) == named(env, "specAccum"@));
    let shone = Seq::new(
        3,
        |i: int| named(env, "specAccum"@)[i] + specular_part(key, slot, env, i),
    );
    if key.highlights() {
        assert(named(e3, "L"@) == named(e1, "L"@) && named(e3, "ndotl"@) == named(e2, "ndotl"@));
        assert(named(e3, "atten"@) == named(e1, "atten"@));
        assert(named(e3, specular) == named(env, specular) && named(e3, ms) == named(env, ms));
        assert(named(e3, "n"@) == named(env, "n"@) && named(e3, "V"@) == named(env, "V"@));
        assert(named(e3, "mat_power"@) == named(env, "mat_power"@));
        highlight_runs(specular, ms, e3);
        highlight_keeps(specular, ms, e3);
        assert(named(e4, "diffuseAccum"@) == named(e3, "diffuseAccum"@));
    }
    assert(named(e4, "specAccum"@) =~= shone);
}

/// The statements of a light add its diffuse, ambient and specular parts to the
/// colours.
pub proof fn lights_add_their_colors(key: FfVsKey, slot: nat)
    ensures
        exists|p: Seq<Statement>|
            light_text(key, slot) == #[trigger] lines(p, "    {\n"@, "        "@) + "    }\n"@
                && are_plain(p) && forall|env: Env| #[trigger] holds_light(key, slot, env)
                    ==> named(
                after(p, env),
                "diffuseAccum"@,
            ) == Seq::new(
                4,
                |i: int| named(env, "diffuseAccum"@)[i] + diffuse_part(key, slot, env, i),
            ) && named(after(p, env), "specAccum"@) == Seq::new(
                3,
                |i: int| named(env, "specAccum"@)[i] + specular_part(key, slot, env, i),
            ),
{
    let p = light_program(key, slot);
    lights_are_written(key, slot);
    lights_are_plain(key, slot);
    assert forall|env: Env| #[trigger] holds_light(key, slot, env) implies named(
        after(p, env),
        "diffuseAccum"@,
    ) == Seq::new(
        4,
        |i: int| named(env, "diffuseAccum"@)[i] + diffuse_part(key, slot, env, i),
    ) && named(after(p, env), "specAccum"@) == Seq::new(
        3,
        |i: int| named(env, "specAccum"@)[i] + specular_part(key, slot, env, i),
    ) by {
        lights_run(key, slot, env);
    }
}

// ---------------------------------------------------------------------------
// Lit colours
// ---------------------------------------------------------------------------

spec fn unlit_start_0(emissive: Seq<char>, ambient: Seq<char>) -> Statement {
    Statement::Declare(
        "float4"@,
        "diffuseAccum"@,
        infix(
            Operator::Plus,
            name(emissive),
            infix(Operator::Times, name("vs_c[9]"@), name(ambient)),
        ),
    )
}

spec fn unlit_start_1(emissive: Seq<char>, ambient: Seq<char>) -> Statement {
    Statement::Declare("float3"@, "specAccum"@, call_1(Function::Float3, number("0.0"@)))
}

spec fn unlit_start_program(emissive: Seq<char>, ambient: Seq<char>) -> Seq<Statement> {
    seq![
        unlit_start_0(emissive, ambient),
        unlit_start_1(emissive, ambient),
    ]
}

proof fn unlit_start_line_0(emissive: Seq<char>, ambient: Seq<char>, acc: Seq<char>)
    ensures
        acc + "    float4 diffuseAccum = "@ + emissive + " + vs_c[9] * "@ + ambient + ";\n"@
            == unlit_start_0(emissive, ambient).behind(acc, "    "@),
        unlit_start_0(emissive, ambient).is_plain(),
{
    reveal_with_fuel(Expr::behind, 4);
    reveal_with_fuel(Expr::is_plain, 4);
    assert forall|x: Seq<char>| #[trigger] (x + "    float4 diffuseAccum = "@) == x + "    "@
        + "float4"@ + " "@ + "diffuseAccum"@ + " = "@ by {
        reveal_strlit("    float4 diffuseAccum = ");
        reveal_strlit("    ");
        reveal_strlit("float4");
        reveal_strlit(" ");
        reveal_strlit("diffuseAccum");
        reveal_strlit(" = ");
        assert(x + "    float4 diffuseAccum = "@ =~= x + "    "@ + "float4"@ + " "@
            + "diffuseAccum"@ + " = "@);
    }
    assert forall|x: Seq<char>| #[trigger] (x + " + vs_c[9] * "@) == x + " + "@ + "vs_c[9]"@
        + " * "@ by {
        reveal_strlit(" + vs_c[9] * ");
        reveal_strlit(" + ");
        reveal_strlit("vs_c[9]");
        reveal_strlit(" * ");
        assert(x + " + vs_c[9] * "@ =~= x + " + "@ + "vs_c[9]"@ + " * "@);
    }
}

proof fn unlit_start_line_1(emissive: Seq<char>, ambient: Seq<char>, acc: Seq<char>)
    ensures
        acc + "    float3 specAccum = float3(0.0);\n"@
            == unlit_start_1(emissive, ambient).behind(acc, "    "@),
        unlit_start_1(emissive, ambient).is_plain(),
{
    reveal_with_fuel(Expr::behind, 3);
    reveal_with_fuel(Expr::is_plain, 3);
    assert forall|x: Seq<char>| #[trigger] (x + "    float3 specAccum = float3(0.0);\n"@) == x
        + "    "@ + "float3"@ + " "@ + "specAccum"@ + " = "@ + "float3("@ + "0.0"@ + ")"@
        + ";\n"@ by {
        reveal_strlit("    float3 specAccum = float3(0.0);\n");
        reveal_strlit("    ");
        reveal_strlit("float3");
        reveal_strlit(" ");
        reveal_strlit("specAccum");
        reveal_strlit(" = ");
        reveal_strlit("float3(");
        reveal_strlit("0.0");
        reveal_strlit(")");
        reveal_strlit(";\n");
        assert(x + "    float3 specAccum = float3(0.0);\n"@ =~= x + "    "@ + "float3"@ + " "@
            + "specAccum"@ + " = "@ + "float3("@ + "0.0"@ + ")"@ + ";\n"@);
    }
}

proof fn unlit_start_is_written(emissive: Seq<char>, ambient: Seq<char>)
    ensures
        is_program(
            "    float4 diffuseAccum = "@ + emissive + " + vs_c[9] * "@ + ambient + ";\n"@
                + "    float3 specAccum = float3(0.0);\n"@,
            unlit_start_program(emissive, ambient),
            Seq::empty(),
            "    "@,
        ),
{
    reveal_with_fuel(lines, 3);
    let p2 = unlit_start_program(emissive, ambient);
    let p1 = seq![p2[0]];
    assert(p2.drop_last() =~= p1);
    assert(p1.drop_last() =~= Seq::empty());
    let a0 = Seq::<char>::empty();
    assert(a0 + "    float4 diffuseAccum = "@ =~= "    float4 diffuseAccum = "@);
    unlit_start_line_0(emissive, ambient, a0);
    let a1 = a0 + "    float4 diffuseAccum = "@ + emissive + " + vs_c[9] * "@ + ambient + ";\n"@;
    assert(lines(p1, a0, "    "@) == a1);
    unlit_start_line_1(emissive, ambient, a1);
    let a2 = a1 + "    float3 specAccum = float3(0.0);\n"@;
    assert(lines(p2, a0, "    "@) == a2);
}

spec fn local_viewer_0() -> Statement {
    Statement::Declare("float3"@, "V"@, call_1(Function::Normalize, negated(name("posEye"@))))
}

spec fn local_viewer_1() -> Statement {
    Statement::Declare("float"@, "mat_power"@, lanes(name("vs_c[14]"@), "x"@))
}

spec fn local_viewer_program() -> Seq<Statement> {
    seq![
        local_viewer_0(),
        local_viewer_1(),
    ]
}

proof fn local_viewer_line_0(acc: Seq<char>)
    ensures
        acc + "    float3 V = normalize(-posEye);\n"@ == local_viewer_0().behind(acc, "    "@),
        local_viewer_0().is_plain(),
{
    reveal_with_fuel(Expr::behind, 4);
    reveal_with_fuel(Expr::is_plain, 4);
    assert forall|x: Seq<char>| #[trigger] (x + "    float3 V = normalize(-posEye);\n"@) == x
        + "    "@ + "float3"@ + " "@ + "V"@ + " = "@ + "normalize("@ + "-"@ + "posEye"@ + ")"@
        + ";\n"@ by {
        reveal_strlit("    float3 V = normalize(-posEye);\n");
        reveal_strlit("    ");
        reveal_strlit("float3");
        reveal_strlit(" ");
        reveal_strlit("V");
        reveal_strlit(" = ");
        reveal_strlit("normalize(");
        reveal_strlit("-");
        reveal_strlit("posEye");
        reveal_strlit(")");
        reveal_strlit(";\n");
        assert(x + "    float3 V = normalize(-posEye);\n"@ =~= x + "    "@ + "float3"@ + " "@ + "V"@
            + " = "@ + "normalize("@ + "-"@ + "posEye"@ + ")"@ + ";\n"@);
    }
}

proof fn local_viewer_line_1(acc: Seq<char>)
    ensures
        acc + "    float mat_power = vs_c[14].x;\n"@ == local_viewer_1().behind(acc, "    "@),
        local_viewer_1().is_plain(),
{
    reveal_with_fuel(Expr::behind, 3);
    reveal_with_fuel(Expr::is_plain, 3);
    assert forall|x: Seq<char>| #[trigger] (x + "    float mat_power = vs_c[14].x;\n"@) == x
        + "    "@ + "float"@ + " "@ + "mat_power"@ + " = "@ + "vs_c[14]"@ + "."@ + "x"@
        + ";\n"@ by {
        reveal_strlit("    float mat_power = vs_c[14].x;\n");
        reveal_strlit("    ");
        reveal_strlit("float");
        reveal_strlit(" ");
        reveal_strlit("mat_power");
        reveal_strlit(" = ");
        reveal_strlit("vs_c[14]");
        reveal_strlit(".");
        reveal_strlit("x");
        reveal_strlit(";\n");
        assert(x + "    float mat_power = vs_c[14].x;\n"@ =~= x + "    "@ + "float"@ + " "@
            + "mat_power"@ + " = "@ + "vs_c[14]"@ + "."@ + "x"@ + ";\n"@);
    }
}

proof fn local_viewer_is_written()
    ensures
        is_program(
            "    float3 V = normalize(-posEye);\n"@ + "    float mat_power = vs_c[14].x;\n"@,
            local_viewer_program(),
            Seq::empty(),
            "    "@,
        ),
{
    reveal_with_fuel(lines, 3);
    let p2 = local_viewer_program();
    let p1 = seq![p2[0]];
    assert(p2.drop_last() =~= p1);
    assert(p1.drop_last() =~= Seq::empty());
    let a0 = Seq::<char>::empty();
    assert(a0 + "    float3 V = normalize(-posEye);\n"@
        =~= "    float3 V = normalize(-posEye);\n"@);
    local_viewer_line_0(a0);
    let a1 = a0 + "    float3 V = normalize(-posEye);\n"@;
    assert(lines(p1, a0, "    "@) == a1);
    local_viewer_line_1(a1);
    let a2 = a1 + "    float mat_power = vs_c[14].x;\n"@;
    assert(lines(p2, a0, "    "@) == a2);
}

spec fn far_viewer_0() -> Statement {
    Statement::Declare(
        "float3"@,
        "V"@,
        call_3(Function::Float3, number("0.0"@), number("0.0"@), negated(number("1.0"@))),
    )
}

spec fn far_viewer_1() -> Statement {
    Statement::Declare("float"@, "mat_power"@, lanes(name("vs_c[14]"@), "x"@))
}

spec fn far_viewer_program() -> Seq<Statement> {
    seq![
        far_viewer_0(),
        far_viewer_1(),
    ]
}

proof fn far_viewer_line_0(acc: Seq<char>)
    ensures
        acc + "    float3 V = float3(0.0, 0.0, -1.0);\n"@ == far_viewer_0().behind(acc, "    "@),
        far_viewer_0().is_plain(),
{
    reveal_with_fuel(Expr::behind, 4);
    reveal_with_fuel(Expr::is_plain, 4);
    assert forall|x: Seq<char>| #[trigger] (x + "    float3 V = float3(0.0, 0.0, -1.0);\n"@) == x
        + "    float3 V = float3(0.0, "@ + "0.0, -1.0);\n"@ by {
        reveal_strlit("    float3 V = float3(0.0, 0.0, -1.0);\n");
        reveal_strlit("    float3 V = float3(0.0, ");
        reveal_strlit("0.0, -1.0);\n");
        assert(x + "    float3 V = float3(0.0, 0.0, -1.0);\n"@ =~= x
            + "    float3 V = float3(0.0, "@ + "0.0, -1.0);\n"@);
    }
    assert forall|x: Seq<char>| #[trigger] (x + "    float3 V = float3(0.0, "@) == x + "    "@
        + "float3"@ + " "@ + "V"@ + " = "@ + "float3("@ + "0.0"@ + ", "@ by {
        reveal_strlit("    float3 V = float3(0.0, ");
        reveal_strlit("    ");
        reveal_strlit("float3");
        reveal_strlit(" ");
        reveal_strlit("V");
        reveal_strlit(" = ");
        reveal_strlit("float3(");
        reveal_strlit("0.0");
        reveal_strlit(", ");
        assert(x + "    float3 V = float3(0.0, "@ =~= x + "    "@ + "float3"@ + " "@ + "V"@ + " = "@
            + "float3("@ + "0.0"@ + ", "@);
    }
    assert forall|x: Seq<char>| #[trigger] (x + "0.0, -1.0);\n"@) == x + "0.0"@ + ", "@ + "-"@
        + "1.0"@ + ")"@ + ";\n"@ by {
        reveal_strlit("0.0, -1.0);\n");
        reveal_strlit("0.0");
        reveal_strlit(", ");
        reveal_strlit("-");
        reveal_strlit("1.0");
        reveal_strlit(")");
        reveal_strlit(";\n");
        assert(x + "0.0, -1.0);\n"@ =~= x + "0.0"@ + ", "@ + "-"@ + "1.0"@ + ")"@ + ";\n"@);
    }
}

proof fn far_viewer_line_1(acc: Seq<char>)
    ensures
        acc + "    float mat_power = vs_c[14].x;\n"@ == far_viewer_1().behind(acc, "    "@),
        far_viewer_1().is_plain(),
{
    reveal_with_fuel(Expr::behind, 3);
    reveal_with_fuel(Expr::is_plain, 3);
    assert forall|x: Seq<char>| #[trigger] (x + "    float mat_power = vs_c[14].x;\n"@) == x
        + "    "@ + "float"@ + " "@ + "mat_power"@ + " = "@ + "vs_c[14]"@ + "."@ + "x"@
        + ";\n"@ by {
        reveal_strlit("    float mat_power = vs_c[14].x;\n");
        reveal_strlit("    ");
        reveal_strlit("float");
        reveal_strlit(" ");
        reveal_strlit("mat_power");
        reveal_strlit(" = ");
        reveal_strlit("vs_c[14]");
        reveal_strlit(".");
        reveal_strlit("x");
        reveal_strlit(";\n");
        assert(x + "    float mat_power = vs_c[14].x;\n"@ =~= x + "    "@ + "float"@ + " "@
            + "mat_power"@ + " = "@ + "vs_c[14]"@ + "."@ + "x"@ + ";\n"@);
    }
}

proof fn far_viewer_is_written()
    ensures
        is_program(
            "    float3 V = float3(0.0, 0.0, -1.0);\n"@ + "    float mat_power = vs_c[14].x;\n"@,
            far_viewer_program(),
            Seq::empty(),
            "    "@,
        ),
{
    reveal_with_fuel(lines, 3);
    let p2 = far_viewer_program();
    let p1 = seq![p2[0]];
    assert(p2.drop_last() =~= p1);
    assert(p1.drop_last() =~= Seq::empty());
    let a0 = Seq::<char>::empty();
    assert(a0 + "    float3 V = float3(0.0, 0.0, -1.0);\n"@
        =~= "    float3 V = float3(0.0, 0.0, -1.0);\n"@);
    far_viewer_line_0(a0);
    let a1 = a0 + "    float3 V = float3(0.0, 0.0, -1.0);\n"@;
    assert(lines(p1, a0, "    "@) == a1);
    far_viewer_line_1(a1);
    let a2 = a1 + "    float mat_power = vs_c[14].x;\n"@;
    assert(lines(p2, a0, "    "@) == a2);
}

spec fn lit_end_0(diffuse: Seq<char>) -> Statement {
    Statement::Declare("float4"@, "lit"@, call_1(Function::Saturate, name("diffuseAccum"@)))
}

spec fn lit_end_1(diffuse: Seq<char>) -> Statement {
    Statement::AssignLanes("lit"@, "a"@, lanes(name(diffuse), "a"@))
}

spec fn lit_end_2(diffuse: Seq<char>) -> Statement {
    Statement::Assign("out.color0"@, name("lit"@))
}

spec fn lit_end_3(diffuse: Seq<char>) -> Statement {
    Statement::Assign(
        "out.color1"@,
        call_2(Function::Float4, call_1(Function::Saturate, name("specAccum"@)), number("0.0"@)),
    )
}

spec fn lit_end_program(diffuse: Seq<char>) -> Seq<Statement> {
    seq![
        lit_end_0(diffuse),
        lit_end_1(diffuse),
        lit_end_2(diffuse),
        lit_end_3(diffuse),
    ]
}

proof fn lit_end_line_0(diffuse: Seq<char>, acc: Seq<char>)
    ensures
        acc + "    float4 lit = saturate(diffuseAccum);\n"@
            == lit_end_0(diffuse).behind(acc, "    "@),
        lit_end_0(diffuse).is_plain(),
{
    reveal_with_fuel(Expr::behind, 3);
    reveal_with_fuel(Expr::is_plain, 3);
    assert forall|x: Seq<char>| #[trigger] (x + "    float4 lit = saturate(diffuseAccum);\n"@) == x
        + "    "@ + "float4"@ + " "@ + "lit"@ + " = "@ + "saturate("@ + "diffuseAccum"@ + ")"@
        + ";\n"@ by {
        reveal_strlit("    float4 lit = saturate(diffuseAccum);\n");
        reveal_strlit("    ");
        reveal_strlit("float4");
        reveal_strlit(" ");
        reveal_strlit("lit");
        reveal_strlit(" = ");
        reveal_strlit("saturate(");
        reveal_strlit("diffuseAccum");
        reveal_strlit(")");
        reveal_strlit(";\n");
        assert(x + "    float4 lit = saturate(diffuseAccum);\n"@ =~= x + "    "@ + "float4"@ + " "@
            + "lit"@ + " = "@ + "saturate("@ + "diffuseAccum"@ + ")"@ + ";\n"@);
    }
}

proof fn lit_end_line_1(diffuse: Seq<char>, acc: Seq<char>)
    ensures
        acc + "    lit.a = "@ + diffuse + ".a;\n"@ == lit_end_1(diffuse).behind(acc, "    "@),
        lit_end_1(diffuse).is_plain(),
{
    reveal_with_fuel(Expr::behind, 3);
    reveal_with_fuel(Expr::is_plain, 3);
    assert forall|x: Seq<char>| #[trigger] (x + "    lit.a = "@) == x + "    "@ + "lit"@ + "."@
        + "a"@ + " = "@ by {
        reveal_strlit("    lit.a = ");
        reveal_strlit("    ");
        reveal_strlit("lit");
        reveal_strlit(".");
        reveal_strlit("a");
        reveal_strlit(" = ");
        assert(x + "    lit.a = "@ =~= x + "    "@ + "lit"@ + "."@ + "a"@ + " = "@);
    }
    assert forall|x: Seq<char>| #[trigger] (x + ".a;\n"@) == x + "."@ + "a"@ + ";\n"@ by {
        reveal_strlit(".a;\n");
        reveal_strlit(".");
        reveal_strlit("a");
        reveal_strlit(";\n");
        assert(x + ".a;\n"@ =~= x + "."@ + "a"@ + ";\n"@);
    }
}

proof fn lit_end_line_2(diffuse: Seq<char>, acc: Seq<char>)
    ensures
        acc + "    out.color0 = lit;\n"@ == lit_end_2(diffuse).behind(acc, "    "@),
        lit_end_2(diffuse).is_plain(),
{
    reveal_with_fuel(Expr::behind, 2);
    reveal_with_fuel(Expr::is_plain, 2);
    assert forall|x: Seq<char>| #[trigger] (x + "    out.color0 = lit;\n"@) == x + "    "@
        + "out.color0"@ + " = "@ + "lit"@ + ";\n"@ by {
        reveal_strlit("    out.color0 = lit;\n");
        reveal_strlit("    ");
        reveal_strlit("out.color0");
        reveal_strlit(" = ");
        reveal_strlit("lit");
        reveal_strlit(";\n");
        assert(x + "    out.color0 = lit;\n"@ =~= x + "    "@ + "out.color0"@ + " = "@ + "lit"@
            + ";\n"@);
    }
}

proof fn lit_end_line_3(diffuse: Seq<char>, acc: Seq<char>)
    ensures
        acc + "    out.color1 = float4(saturate(specAccum), 0.0);\n"@
            == lit_end_3(diffuse).behind(acc, "    "@),
        lit_end_3(diffuse).is_plain(),
{
    reveal_with_fuel(Expr::behind, 4);
    reveal_with_fuel(Expr::is_plain, 4);
    assert forall|x: Seq<char>| #[trigger] (x
        + "    out.color1 = float4(saturate(specAccum), 0.0);\n"@) == x
        + "    out.color1 = float4(saturate(specAccum), "@ + "0.0);\n"@ by {
        reveal_strlit("    out.color1 = float4(saturate(specAccum), 0.0);\n");
        reveal_strlit("    out.color1 = float4(saturate(specAccum), ");
        reveal_strlit("0.0);\n");
        assert(x + "    out.color1 = float4(saturate(specAccum), 0.0);\n"@ =~= x
            + "    out.color1 = float4(saturate(specAccum), "@ + "0.0);\n"@);
    }
    assert forall|x: Seq<char>| #[trigger] (x + "    out.color1 = float4(saturate(specAccum), "@)
        == x + "    "@ + "out.color1"@ + " = "@ + "float4("@ + "saturate("@ + "specAccum"@ + ")"@
        + ", "@ by {
        reveal_strlit("    out.color1 = float4(saturate(specAccum), ");
        reveal_strlit("    ");
        reveal_strlit("out.color1");
        reveal_strlit(" = ");
        reveal_strlit("float4(");
        reveal_strlit("saturate(");
        reveal_strlit("specAccum");
        reveal_strlit(")");
        reveal_strlit(", ");
        assert(x + "    out.color1 = float4(saturate(specAccum), "@ =~= x + "    "@ + "out.color1"@
            + " = "@ + "float4("@ + "saturate("@ + "specAccum"@ + ")"@ + ", "@);
    }
    assert forall|x: Seq<char>| #[trigger] (x + "0.0);\n"@) == x + "0.0"@ + ")"@ + ";\n"@ by {
        reveal_strlit("0.0);\n");
        reveal_strlit("0.0");
        reveal_strlit(")");
        reveal_strlit(";\n");
        assert(x + "0.0);\n"@ =~= x + "0.0"@ + ")"@ + ";\n"@);
    }
}

proof fn lit_end_is_written(diffuse: Seq<char>)
    ensures
        is_program(
            "    float4 lit = saturate(diffuseAccum);\n"@ + "    lit.a = "@ + diffuse + ".a;\n"@
                + "    out.color0 = lit;\n"@
                + "    out.color1 = float4(saturate(specAccum), 0.0);\n"@,
            lit_end_program(diffuse),
            Seq::empty(),
            "    "@,
        ),
{
    reveal_with_fuel(lines, 5);
    let p4 = lit_end_program(diffuse);
    let p3 = seq![p4[0], p4[1], p4[2]];
    assert(p4.drop_last() =~= p3);
    let p2 = seq![p4[0], p4[1]];
    assert(p3.drop_last() =~= p2);
    let p1 = seq![p4[0]];
    assert(p2.drop_last() =~= p1);
    assert(p1.drop_last() =~= Seq::empty());
    let a0 = Seq::<char>::empty();
    assert(a0 + "    float4 lit = saturate(diffuseAccum);\n"@
        =~= "    float4 lit = saturate(diffuseAccum);\n"@);
    lit_end_line_0(diffuse, a0);
    let a1 = a0 + "    float4 lit = saturate(diffuseAccum);\n"@;
    assert(lines(p1, a0, "    "@) == a1);
    lit_end_line_1(diffuse, a1);
    let a2 = a1 + "    lit.a = "@ + diffuse + ".a;\n"@;
    assert(lines(p2, a0, "    "@) == a2);
    lit_end_line_2(diffuse, a2);
    let a3 = a2 + "    out.color0 = lit;\n"@;
    assert(lines(p3, a0, "    "@) == a3);
    lit_end_line_3(diffuse, a3);
    let a4 = a3 + "    out.color1 = float4(saturate(specAccum), 0.0);\n"@;
    assert(lines(p4, a0, "    "@) == a4);
}

/// The colour of an unlit vertex: what its material emits, and the ambient light
/// of the scene times its ambient material.
pub open spec fn base_color(env: Env, emissive: Seq<char>, ambient: Seq<char>) -> Value {
    Seq::new(
        4,
        |i: int|
            named(env, emissive)[i] + named(env, "vs_c[9]"@)[i] * named(env, ambient)[i],
    )
}

proof fn inputs_are_no_outputs(n: Seq<char>)
    requires
        is_input(n),
    ensures
        n != "lit"@,
        n != "out.color0"@,
        n != "diffuseAccum"@,
        n != "specAccum"@,
{
    reveal_strlit("lit");
    reveal_strlit("out.color0");
    reveal_strlit("diffuseAccum");
    reveal_strlit("specAccum");
}

proof fn unlit_start_runs(emissive: Seq<char>, ambient: Seq<char>, env: Env)
    requires
        is_vector(env, emissive),
        is_vector(env, ambient),
        is_vector(env, "vs_c[9]"@),
    ensures
        named(after(unlit_start_program(emissive, ambient), env), "diffuseAccum"@) == base_color(
            env,
            emissive,
            ambient,
        ),
        named(after(unlit_start_program(emissive, ambient), env), "specAccum"@) == seq![
            whole(0),
            whole(0),
            whole(0),
        ],
{
    reveal_with_fuel(after, 3);
    reveal_with_fuel(Expr::value, 4);
    numerals();
    reveal_strlit("diffuseAccum");
    reveal_strlit("specAccum");
    reveal_strlit("vs_c[9]");
    assert("diffuseAccum"@.len() != "specAccum"@.len());
    assert("diffuseAccum"@.len() != "vs_c[9]"@.len());
    assert("specAccum"@.len() != "vs_c[9]"@.len());
    let p2 = unlit_start_program(emissive, ambient);
    let p1 = seq![p2[0]];
    assert(p2.drop_last() =~= p1);
    assert(p1.drop_last() =~= Seq::empty());
    let e0 = env;
    let e1 = p2[0].run(e0);
    assert(named(e1, "diffuseAccum"@) =~= base_color(env, emissive, ambient));
    let e2 = p2[1].run(e1);
    assert(named(e2, "specAccum"@) =~= seq![whole(0), whole(0), whole(0)]);
    assert(named(e2, "diffuseAccum"@) == named(e1, "diffuseAccum"@));
    assert(after(p2, env) == e2);
}

proof fn local_viewer_runs(env: Env)
    requires
        is_vector(env, "vs_c[14]"@),
        named(env, "posEye"@).len() == 3,
    ensures
        named(after(local_viewer_program(), env), "V"@)
            == unit_3(seq![-named(env, "posEye"@)[0], -named(env, "posEye"@)[1], -named(env, "posEye"@)[2]], env.library),
        named(after(local_viewer_program(), env), "mat_power"@) == seq![named(env, "vs_c[14]"@)[0]],
{
    reveal_with_fuel(after, 3);
    reveal_with_fuel(Expr::value, 4);
    reveal_with_fuel(inner, 5);
    reveal_strlit("x");
    reveal_strlit("V");
    reveal_strlit("mat_power");
    reveal_strlit("posEye");
    reveal_strlit("vs_c[14]");
    assert("V"@.len() != "mat_power"@.len());
    assert("V"@.len() != "posEye"@.len());
    assert("V"@.len() != "vs_c[14]"@.len());
    assert("mat_power"@.len() != "posEye"@.len());
    assert("mat_power"@.len() != "vs_c[14]"@.len());
    let p2 = local_viewer_program();
    let p1 = seq![p2[0]];
    assert(p2.drop_last() =~= p1);
    assert(p1.drop_last() =~= Seq::empty());
    let e0 = env;
    let e1 = p2[0].run(e0);
    assert(negated(name("posEye"@)).value(env)
        =~= seq![-named(env, "posEye"@)[0], -named(env, "posEye"@)[1], -named(env, "posEye"@)[2]]);
    assert(named(e1, "V"@)
        =~= unit_3(seq![-named(env, "posEye"@)[0], -named(env, "posEye"@)[1], -named(env, "posEye"@)[2]], env.library));
    assert(named(e1, "vs_c[14]"@) == named(env, "vs_c[14]"@));
    let e2 = p2[1].run(e1);
    assert(named(e2, "mat_power"@) =~= seq![named(env, "vs_c[14]"@)[0]]);
    assert(named(e2, "V"@) == named(e1, "V"@));
    assert(after(p2, env) == e2);
}

proof fn far_viewer_runs(env: Env)
    requires
        is_vector(env, "vs_c[14]"@),
        named(env, "posEye"@).len() == 3,
    ensures
        named(after(far_viewer_program(), env), "V"@) == seq![whole(0), whole(0), -whole(1)],
        named(after(far_viewer_program(), env), "mat_power"@) == seq![named(env, "vs_c[14]"@)[0]],
{
    reveal_with_fuel(after, 3);
    reveal_with_fuel(Expr::value, 4);
    reveal_with_fuel(inner, 5);
    numerals();
    reveal_strlit("x");
    reveal_strlit("V");
    reveal_strlit("mat_power");
    reveal_strlit("posEye");
    reveal_strlit("vs_c[14]");
    assert("V"@.len() != "mat_power"@.len());
    assert("V"@.len() != "posEye"@.len());
    assert("V"@.len() != "vs_c[14]"@.len());
    assert("mat_power"@.len() != "posEye"@.len());
    assert("mat_power"@.len() != "vs_c[14]"@.len());
    let p2 = far_viewer_program();
    let p1 = seq![p2[0]];
    assert(p2.drop_last() =~= p1);
    assert(p1.drop_last() =~= Seq::empty());
    let e0 = env;
    let e1 = p2[0].run(e0);
    assert(named(e1, "V"@) =~= seq![whole(0), whole(0), -whole(1)]);
    assert(named(e1, "vs_c[14]"@) == named(env, "vs_c[14]"@));
    let e2 = p2[1].run(e1);
    assert(named(e2, "mat_power"@) =~= seq![named(env, "vs_c[14]"@)[0]]);
    assert(named(e2, "V"@) == named(e1, "V"@));
    assert(after(p2, env) == e2);
}

proof fn lit_end_runs(diffuse: Seq<char>, env: Env)
    requires
        is_vector(env, diffuse),
        is_input(diffuse),
        is_vector(env, "diffuseAccum"@),
        named(env, "specAccum"@).len() == 3,
    ensures
        named(after(lit_end_program(diffuse), env), "out.color0"@) == seq![
            clamped(named(env, "diffuseAccum"@)[0]),
            clamped(named(env, "diffuseAccum"@)[1]),
            clamped(named(env, "diffuseAccum"@)[2]),
            named(env, diffuse)[3],
        ],
        named(after(lit_end_program(diffuse), env), "out.color1"@)
            == seq![clamped(named(env, "specAccum"@)[0]), clamped(named(env, "specAccum"@)[1]), clamped(named(env, "specAccum"@)[2]), whole(0)],
{
    reveal_with_fuel(after, 5);
    reveal_with_fuel(Expr::value, 4);
    reveal_with_fuel(assigned, 5);
    numerals();
    reveal_strlit("a");
    reveal_strlit("diffuseAccum");
    reveal_strlit("lit");
    reveal_strlit("out.color0");
    reveal_strlit("out.color1");
    reveal_strlit("specAccum");
    assert("lit"@.len() != "diffuseAccum"@.len());
    assert("lit"@.len() != "out.color0"@.len());
    assert("lit"@.len() != "out.color1"@.len());
    assert("lit"@.len() != "specAccum"@.len());
    assert("out.color0"@.len() != "diffuseAccum"@.len());
    assert("out.color0"@[9] != "out.color1"@[9]);
    assert("out.color0"@.len() != "specAccum"@.len());
    assert("out.color1"@.len() != "diffuseAccum"@.len());
    assert("out.color1"@.len() != "specAccum"@.len());
    inputs_are_no_outputs(diffuse);
    let p4 = lit_end_program(diffuse);
    let p3 = seq![p4[0], p4[1], p4[2]];
    assert(p4.drop_last() =~= p3);
    let p2 = seq![p4[0], p4[1]];
    assert(p3.drop_last() =~= p2);
    let p1 = seq![p4[0]];
    assert(p2.drop_last() =~= p1);
    assert(p1.drop_last() =~= Seq::empty());
    let e0 = env;
    let e1 = p4[0].run(e0);
    assert(named(e1, "lit"@)
        =~= seq![clamped(named(env, "diffuseAccum"@)[0]), clamped(named(env, "diffuseAccum"@)[1]), clamped(named(env, "diffuseAccum"@)[2]), clamped(named(env, "diffuseAccum"@)[3])]);
    assert(named(e1, "specAccum"@) == named(env, "specAccum"@));
    assert(named(e1, diffuse) == named(env, diffuse));
    let e2 = p4[1].run(e1);
    assert(named(e2, "lit"@) =~= seq![
            clamped(named(env, "diffuseAccum"@)[0]),
            clamped(named(env, "diffuseAccum"@)[1]),
            clamped(named(env, "diffuseAccum"@)[2]),
            named(env, diffuse)[3],
        ]);
    assert(named(e2, "specAccum"@) == named(env, "specAccum"@));
    let e3 = p4[2].run(e2);
    assert(named(e3, "out.color0"@) == named(e2, "lit"@));
    assert(named(e3, "specAccum"@) == named(env, "specAccum"@));
    let e4 = p4[3].run(e3);
    assert(named(e4, "out.color1"@)
        =~= seq![clamped(named(env, "specAccum"@)[0]), clamped(named(env, "specAccum"@)[1]), clamped(named(env, "specAccum"@)[2]), whole(0)]);
    assert(named(e4, "out.color0"@) == named(e3, "out.color0"@));
    assert(after(p4, env) == e4);
}

/// The text of the emissive material.
pub open spec fn emissive_material(key: FfVsKey) -> Seq<char> {
    material_text(key, key.emissive_source, 13)
}

/// Whether the constants and the materials of a lit vertex have the lanes that
/// they are declared with.
pub open spec fn holds_material(key: FfVsKey, env: Env) -> bool {
    &&& is_vector(env, emissive_material(key))
    &&& is_vector(env, ambient_material(key))
    &&& is_vector(env, diffuse_material(key))
    &&& is_vector(env, "vs_c[9]"@)
    &&& is_vector(env, "vs_c[14]"@)
    &&& named(env, "posEye"@).len() == 3
    &&& is_vector(env, "diffuseAccum"@)
    &&& named(env, "specAccum"@).len() == 3
}

spec fn viewer_program(key: FfVsKey) -> Seq<Statement> {
    if key.flags.has(FfVsFlags::LOCAL_VIEWER) {
        local_viewer_program()
    } else {
        far_viewer_program()
    }
}

/// The texts around those of the lights.
pub open spec fn around_the_lights(
    key: FfVsKey,
    start: Seq<Statement>,
    viewer: Seq<Statement>,
    end: Seq<Statement>,
) -> bool {
    let ind = "    "@;
    let none = Seq::<char>::empty();
    are_plain(start) && are_plain(viewer) && are_plain(end) && lit_colors(key) == lines(
        start,
        none,
        ind,
    ) + text_if(key.highlights(), lines(viewer, none, ind)) + lights_from(key, 0, ""@) + lines(
        end,
        none,
        ind,
    )
}

proof fn lit_colors_are_written(key: FfVsKey)
    ensures
        around_the_lights(
            key,
            unlit_start_program(emissive_material(key), ambient_material(key)),
            viewer_program(key),
            lit_end_program(diffuse_material(key)),
        ),
{
    let (me, ma, md) = (emissive_material(key), ambient_material(key), diffuse_material(key));
    unlit_start_is_written(me, ma);
    local_viewer_is_written();
    far_viewer_is_written();
    lit_end_is_written(md);
    let x = "    float4 diffuseAccum = "@ + me + " + vs_c[9] * "@ + ma;
    assert(x + ";\n    float3 specAccum = float3(0.0);\n"@ == x + ";\n"@
        + "    float3 specAccum = float3(0.0);\n"@) by {
        reveal_strlit(";\n    float3 specAccum = float3(0.0);\n");
        reveal_strlit(";\n");
        reveal_strlit("    float3 specAccum = float3(0.0);\n");
        assert(x + ";\n    float3 specAccum = float3(0.0);\n"@ =~= x + ";\n"@
            + "    float3 specAccum = float3(0.0);\n"@);
    }
    assert("    float4 lit = saturate(diffuseAccum);\n    lit.a = "@
        == "    float4 lit = saturate(diffuseAccum);\n"@ + "    lit.a = "@) by {
        reveal_strlit("    float4 lit = saturate(diffuseAccum);\n    lit.a = ");
        reveal_strlit("    float4 lit = saturate(diffuseAccum);\n");
        reveal_strlit("    lit.a = ");
    }
    let a = lines(unlit_start_program(me, ma), Seq::empty(), "    "@);
    let b = text_if(key.highlights(), lines(viewer_program(key), Seq::empty(), "    "@));
    let y = a + b + lights_from(key, 0, ""@);
    let (p, q) = ("    float4 lit = saturate(diffuseAccum);\n"@, "    lit.a = "@);
    let (t, u) = ("    out.color0 = lit;\n"@, "    out.color1 = float4(saturate(specAccum), 0.0);\n"@);
    assert(y + (p + q) + md + ".a;\n"@ + t + u =~= y + (p + q + md + ".a;\n"@ + t + u));
}

/// A lit vertex starts from what its material emits and the ambient light. The
/// lights are seen from the eye or from far away. Both colours are brought into
/// the unit range, and the alpha is that of the diffuse material.
pub proof fn lit_vertices_are_colored(key: FfVsKey)
    ensures
        exists|start: Seq<Statement>, viewer: Seq<Statement>, end: Seq<Statement>| #[trigger]
            around_the_lights(key, start, viewer, end) && forall|env: Env| #[trigger]
                holds_material(key, env) ==> {
                let a = after(start, env);
                let b = after(viewer, env);
                let c = after(end, env);
                let p = named(env, "posEye"@);
                let d = named(env, "diffuseAccum"@);
                let s = named(env, "specAccum"@);
                &&& named(a, "diffuseAccum"@) == base_color(
                    env,
                    emissive_material(key),
                    ambient_material(key),
                )
                &&& named(a, "specAccum"@) == seq![whole(0), whole(0), whole(0)]
                &&& named(b, "V"@) == (if key.flags.has(FfVsFlags::LOCAL_VIEWER) {
                    unit_3(seq![-p[0], -p[1], -p[2]], env.library)
                } else {
                    seq![whole(0), whole(0), -whole(1)]
                })
                &&& named(b, "mat_power"@) == seq![named(env, "vs_c[14]"@)[0]]
                &&& named(c, "out.color0"@) == seq![
                    clamped(d[0]),
                    clamped(d[1]),
                    clamped(d[2]),
                    named(env, diffuse_material(key))[3],
                ]
                &&& named(c, "out.color1"@) == seq![
                    clamped(s[0]),
                    clamped(s[1]),
                    clamped(s[2]),
                    whole(0),
                ]
            },
{
    let (me, ma, md) = (emissive_material(key), ambient_material(key), diffuse_material(key));
    lit_colors_are_written(key);
    materials_are_inputs(key, key.diffuse_source, 10);
    assert forall|env: Env| #[trigger] holds_material(key, env) implies {
        let a = after(unlit_start_program(me, ma), env);
        let b = after(viewer_program(key), env);
        let c = after(lit_end_program(md), env);
        let p = named(env, "posEye"@);
        let d = named(env, "diffuseAccum"@);
        let s = named(env, "specAccum"@);
        &&& named(a, "diffuseAccum"@) == base_color(env, me, ma)
        &&& named(a, "specAccum"@) == seq![whole(0), whole(0), whole(0)]
        &&& named(b, "V"@) == (if key.flags.has(FfVsFlags::LOCAL_VIEWER) {
            unit_3(seq![-p[0], -p[1], -p[2]], env.library)
        } else {
            seq![whole(0), whole(0), -whole(1)]
        })
        &&& named(b, "mat_power"@) == seq![named(env, "vs_c[14]"@)[0]]
        &&& named(c, "out.color0"@) == seq![
            clamped(d[0]),
            clamped(d[1]),
            clamped(d[2]),
            named(env, md)[3],
        ]
        &&& named(c, "out.color1"@) == seq![clamped(s[0]), clamped(s[1]), clamped(s[2]), whole(0)]
    } by {
        unlit_start_runs(me, ma, env);
        if key.flags.has(FfVsFlags::LOCAL_VIEWER) {
            local_viewer_runs(env);
        } else {
            far_viewer_runs(env);
        }
        lit_end_runs(md, env);
    }
}

} // verus!
