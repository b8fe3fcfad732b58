//! What the tests and blends at the end of a pixel shader do.
//!
//! Direct3D says which fragments pass the alpha test and how fog mixes into a
//! colour. The laws say that the statements do that, for all colours.

use crate::d3d::{
    D3DCMP_EQUAL, D3DCMP_GREATER, D3DCMP_GREATEREQUAL, D3DCMP_LESS, D3DCMP_LESSEQUAL, D3DCMP_NEVER,
    D3DCMP_NOTEQUAL, D3DFOG_EXP, D3DFOG_EXP2,
};
use crate::dxso::emit::common::{
    alpha_condition, alpha_text, fog_distance, fog_factor, fog_text, srgb_helper_text,
};
use crate::dxso::emit::metal::{
    after, call_1, call_2, call_3, choice, clamped, digits_value, greater, group, infix, is_program,
    lanes, lines, name, named, negated, number, numeral_value, numerals, point_scale, truth, whole,
    Env, Expr, Function, Library, Operator, Statement, Value,
};
use crate::dxso::emit::variant::{VariantFlags, VariantKey};
use vstd::prelude::*;

verus! {

// ---------------------------------------------------------------------------
// Alpha test
// ---------------------------------------------------------------------------

/// Whether a fragment with the alpha `a` passes the comparison `func` with the
/// reference `r`. A function that Direct3D does not have passes everything.
pub open spec fn passes(func: int, a: real, r: real) -> bool {
    if func == D3DCMP_NEVER {
        false
    } else if func == D3DCMP_LESS {
        a < r
    } else if func == D3DCMP_EQUAL {
        a == r
    } else if func == D3DCMP_LESSEQUAL {
        a <= r
    } else if func == D3DCMP_GREATER {
        a > r
    } else if func == D3DCMP_NOTEQUAL {
        a != r
    } else if func == D3DCMP_GREATEREQUAL {
        a >= r
    } else {
        true
    }
}

/// The alpha of the colour that the shader writes.
pub open spec fn written_alpha(env: Env) -> real {
    (env.names)("oC0"@)[3]
}

/// The reference of the alpha test.
pub open spec fn alpha_reference(env: Env) -> real {
    (env.names)("alpha_ref"@)[0]
}

/// Whether the colour is a vector of four lanes and the reference a scalar.
pub open spec fn holds_alpha(env: Env) -> bool {
    (env.names)("oC0"@).len() == 4 && (env.names)("alpha_ref"@).len() == 1
}

/// Whether `text` discards a fragment unless `e` holds.
pub open spec fn discards_unless(text: Seq<char>, e: Expr) -> bool {
    e.is_plain(7) && text == e.behind("    if (!("@, Seq::empty())
        + ")) discard_fragment();\n"@
}

/// Whether the condition `e` holds.
pub open spec fn holds(e: Expr, env: Env) -> bool {
    e.value(env) == seq![whole(1)]
}

/// Whether the condition `e` does not hold.
pub open spec fn fails(e: Expr, env: Env) -> bool {
    e.value(env) == seq![whole(0)]
}

/// Whether `e` is the comparison `func` of the written alpha with the reference.
pub open spec fn compares_alpha(e: Expr, func: int) -> bool {
    forall|env: Env| #[trigger] holds_alpha(env) ==> if passes(
        func,
        written_alpha(env),
        alpha_reference(env),
    ) {
        holds(e, env)
    } else {
        fails(e, env)
    }
}

/// The operator of a comparison.
spec fn alpha_operator(func: u8) -> Operator {
    match func {
        2 => Operator::Less,
        3 => Operator::Same,
        4 => Operator::AtMost,
        5 => Operator::More,
        6 => Operator::Other,
        _ => Operator::AtLeast,
    }
}

/// The condition of the alpha test.
spec fn alpha_expr(func: u8) -> Expr {
    if func == 1 {
        Expr::Truth(false)
    } else if 2 <= func <= 7 {
        infix(alpha_operator(func), lanes(name("oC0"@), "a"@), name("alpha_ref"@))
    } else {
        Expr::Truth(true)
    }
}

proof fn alpha_is_compared(func: u8)
    ensures
        compares_alpha(alpha_expr(func), func as int),
{
    reveal_with_fuel(Expr::value, 4);
    reveal_strlit("a");
    let e = alpha_expr(func);
    assert forall|env: Env| #[trigger] holds_alpha(env) implies if passes(
        func as int,
        written_alpha(env),
        alpha_reference(env),
    ) {
        holds(e, env)
    } else {
        fails(e, env)
    } by {
        assert(lanes(name("oC0"@), "a"@).value(env) =~= seq![written_alpha(env)]);
        assert(e.value(env) =~= seq![
            truth(passes(func as int, written_alpha(env), alpha_reference(env))),
        ]);
    }
}

proof fn alpha_discards(variant: VariantKey)
    requires
        variant.tests_alpha(),
    ensures
        discards_unless(alpha_text(variant), alpha_expr(variant.alpha_func)),
{
    reveal_with_fuel(Expr::behind, 4);
    reveal_with_fuel(Expr::is_plain, 4);
    let x = "    if (!("@;
    let e = alpha_expr(variant.alpha_func);
    assert(x + alpha_condition(variant.alpha_func) == e.behind(x, Seq::empty())) by {
        reveal_strlit("oC0");
        reveal_strlit(".");
        reveal_strlit("a");
        reveal_strlit("alpha_ref");
        if variant.alpha_func == 2 {
            reveal_strlit("oC0.a < alpha_ref");
            reveal_strlit(" < ");
            assert(x + "oC0.a < alpha_ref"@ =~= x + "oC0"@ + "."@ + "a"@ + " < "@ + "alpha_ref"@);
        }
        if variant.alpha_func == 3 {
            reveal_strlit("oC0.a == alpha_ref");
            reveal_strlit(" == ");
            assert(x + "oC0.a == alpha_ref"@ =~= x + "oC0"@ + "."@ + "a"@ + " == "@ + "alpha_ref"@);
        }
        if variant.alpha_func == 4 {
            reveal_strlit("oC0.a <= alpha_ref");
            reveal_strlit(" <= ");
            assert(x + "oC0.a <= alpha_ref"@ =~= x + "oC0"@ + "."@ + "a"@ + " <= "@ + "alpha_ref"@);
        }
        if variant.alpha_func == 5 {
            reveal_strlit("oC0.a > alpha_ref");
            reveal_strlit(" > ");
            assert(x + "oC0.a > alpha_ref"@ =~= x + "oC0"@ + "."@ + "a"@ + " > "@ + "alpha_ref"@);
        }
        if variant.alpha_func == 6 {
            reveal_strlit("oC0.a != alpha_ref");
            reveal_strlit(" != ");
            assert(x + "oC0.a != alpha_ref"@ =~= x + "oC0"@ + "."@ + "a"@ + " != "@ + "alpha_ref"@);
        }
        if variant.alpha_func == 7 {
            reveal_strlit("oC0.a >= alpha_ref");
            reveal_strlit(" >= ");
            assert(x + "oC0.a >= alpha_ref"@ =~= x + "oC0"@ + "."@ + "a"@ + " >= "@ + "alpha_ref"@);
        }
    }
}

/// The alpha test discards the fragments that fail the comparison which the
/// variant names, and no others. It is left out where every fragment passes.
pub proof fn alpha_test_compares(variant: VariantKey)
    ensures
        variant.tests_alpha() ==> exists|e: Expr| #[trigger]
            discards_unless(alpha_text(variant), e) && compares_alpha(
                e,
                variant.alpha_func as int,
            ),
        !variant.tests_alpha() ==> alpha_text(variant) == ""@ && forall|a: real, r: real|
            passes(variant.alpha_func as int, a, r),
{
    if variant.tests_alpha() {
        alpha_is_compared(variant.alpha_func);
        alpha_discards(variant);
    }
}

/// The comparison that passes the fragments which `func` discards.
pub open spec fn opposite(func: int) -> int {
    if func == D3DCMP_LESS {
        D3DCMP_GREATEREQUAL as int
    } else if func == D3DCMP_GREATEREQUAL {
        D3DCMP_LESS as int
    } else if func == D3DCMP_EQUAL {
        D3DCMP_NOTEQUAL as int
    } else if func == D3DCMP_NOTEQUAL {
        D3DCMP_EQUAL as int
    } else if func == D3DCMP_LESSEQUAL {
        D3DCMP_GREATER as int
    } else {
        D3DCMP_LESSEQUAL as int
    }
}

/// Of two variants with opposite comparisons, each keeps the fragments that the
/// other discards.
pub proof fn opposite_alpha_tests_split_the_fragments(v: VariantKey, w: VariantKey)
    requires
        D3DCMP_LESS <= v.alpha_func <= D3DCMP_GREATEREQUAL,
        w.alpha_func == opposite(v.alpha_func as int),
    ensures
        exists|e: Expr, f: Expr| #[trigger]
            discards_unless(alpha_text(v), e) && #[trigger] discards_unless(alpha_text(w), f)
                && forall|env: Env| #[trigger] holds_alpha(env)
                    ==> (holds(e, env) <==> fails(f, env))
                && (fails(e, env) <==> holds(f, env)),
{
    let (e, f) = (alpha_expr(v.alpha_func), alpha_expr(w.alpha_func));
    alpha_is_compared(v.alpha_func);
    alpha_is_compared(w.alpha_func);
    alpha_discards(v);
    alpha_discards(w);
    assert(seq![whole(0)][0] != seq![whole(1)][0]);
    assert(discards_unless(alpha_text(v), e) && discards_unless(alpha_text(w), f));
}

// ---------------------------------------------------------------------------
// Fog
// ---------------------------------------------------------------------------

/// Whether `text` declares `n` to be `e`.
pub open spec fn declares(text: Seq<char>, ty: Seq<char>, n: Seq<char>, e: Expr) -> bool {
    e.is_plain(7) && text == e.behind("    "@ + ty + " "@ + n + " = "@, Seq::empty()) + ";\n"@
}

/// Whether the names that fog reads have the lanes that they are declared with.
pub open spec fn holds_fog(env: Env) -> bool {
    &&& named(env, "in.position"@).len() == 4
    &&& named(env, "in.fog_z"@).len() == 1
    &&& named(env, "in.fog"@).len() == 4
    &&& named(env, "fog_data[0]"@).len() == 4
    &&& named(env, "fog_data[1]"@).len() == 4
    &&& named(env, "fog_c"@).len() == 1
    &&& named(env, "fog_dz"@).len() == 1
    &&& named(env, "fog_range"@).len() == 1
    &&& named(env, "fog_f"@).len() == 1
}

/// Where fog begins.
pub open spec fn fog_start(env: Env) -> real {
    named(env, "fog_data[1]"@)[0]
}

/// Where fog is full.
pub open spec fn fog_end(env: Env) -> real {
    named(env, "fog_data[1]"@)[1]
}

/// How dense fog is.
pub open spec fn fog_density(env: Env) -> real {
    named(env, "fog_data[1]"@)[2]
}

/// The depth bias.
pub open spec fn depth_bias(env: Env) -> real {
    named(env, "fog_data[1]"@)[3]
}

spec fn eye_distance_expr() -> Expr {
    infix(Operator::Over, number("1.0"@), lanes(name("in.position"@), "w"@))
}

proof fn eye_distance(variant: VariantKey)
    requires
        variant.flags.has(VariantFlags::FOG_SOURCE_W),
    ensures
        declares(fog_distance(variant), "float"@, "fog_c"@, eye_distance_expr()),
        forall|env: Env| #[trigger] holds_fog(env) ==> eye_distance_expr().value(env)
            == seq![whole(1) / named(env, "in.position"@)[3]],
{
    reveal_with_fuel(Expr::behind, 4);
    reveal_with_fuel(Expr::value, 4);
    reveal_with_fuel(Expr::is_plain, 4);
    numerals();
    let e = eye_distance_expr();
    assert("    float fog_c = 1.0 / in.position.w;\n"@ == "    "@ + "float"@ + " "@ + "fog_c"@
        + " = "@ + "1.0"@ + " / "@ + "in.position"@ + "."@ + "w"@ + ";\n"@) by {
        reveal_strlit("    float fog_c = 1.0 / in.position.w;\n");
        reveal_strlit("    ");
        reveal_strlit("float");
        reveal_strlit(" ");
        reveal_strlit("fog_c");
        reveal_strlit(" = ");
        reveal_strlit("1.0");
        reveal_strlit(" / ");
        reveal_strlit("in.position");
        reveal_strlit(".");
        reveal_strlit("w");
        reveal_strlit(";\n");
    }
    reveal_strlit("w");
    assert forall|env: Env| #[trigger] holds_fog(env) implies e.value(env)
        == seq![whole(1) / named(env, "in.position"@)[3]] by {
        assert(e.value(env) =~= seq![whole(1) / named(env, "in.position"@)[3]]);
    }
}

spec fn depth_distance_expr() -> Expr {
    infix(Operator::Plus, name("in.fog_z"@), lanes(name("fog_data[1]"@), "w"@))
}

proof fn depth_distance(variant: VariantKey)
    requires
        !variant.flags.has(VariantFlags::FOG_SOURCE_W),
    ensures
        declares(fog_distance(variant), "float"@, "fog_c"@, depth_distance_expr()),
        forall|env: Env| #[trigger] holds_fog(env) ==> depth_distance_expr().value(env)
            == seq![named(env, "in.fog_z"@)[0] + depth_bias(env)],
{
    reveal_with_fuel(Expr::behind, 4);
    reveal_with_fuel(Expr::value, 4);
    reveal_with_fuel(Expr::is_plain, 4);
    let e = depth_distance_expr();
    assert("    float fog_c = in.fog_z + fog_data[1].w;\n"@ == "    "@ + "float"@ + " "@ + "fog_c"@
        + " = "@ + "in.fog_z"@ + " + "@ + "fog_data[1]"@ + "."@ + "w"@ + ";\n"@) by {
        reveal_strlit("    float fog_c = in.fog_z + fog_data[1].w;\n");
        reveal_strlit("    ");
        reveal_strlit("float");
        reveal_strlit(" ");
        reveal_strlit("fog_c");
        reveal_strlit(" = ");
        reveal_strlit("in.fog_z");
        reveal_strlit(" + ");
        reveal_strlit("fog_data[1]");
        reveal_strlit(".");
        reveal_strlit("w");
        reveal_strlit(";\n");
    }
    reveal_strlit("w");
    assert forall|env: Env| #[trigger] holds_fog(env) implies e.value(env)
        == seq![named(env, "in.fog_z"@)[0] + depth_bias(env)] by {
        assert(e.value(env) =~= seq![named(env, "in.fog_z"@)[0] + depth_bias(env)]);
    }
}

/// Table fog measures the distance from the eye, which is the reciprocal of the
/// fourth lane of the position, or takes the depth with its bias.
pub proof fn fog_measures_the_distance(variant: VariantKey)
    ensures
        exists|e: Expr| #[trigger]
            declares(fog_distance(variant), "float"@, "fog_c"@, e) && forall|env: Env| #[trigger]
                holds_fog(env) ==> e.value(env) == (if variant.flags.has(
                VariantFlags::FOG_SOURCE_W,
            ) {
                seq![whole(1) / named(env, "in.position"@)[3]]
            } else {
                seq![named(env, "in.fog_z"@)[0] + depth_bias(env)]
            }),
{
    if variant.flags.has(VariantFlags::FOG_SOURCE_W) {
        eye_distance(variant);
        assert(declares(fog_distance(variant), "float"@, "fog_c"@, eye_distance_expr()));
    } else {
        depth_distance(variant);
        assert(declares(fog_distance(variant), "float"@, "fog_c"@, depth_distance_expr()));
    }
}

spec fn exponential_factor_expr() -> Expr {
    call_1(
        Function::Saturate,
        call_1(
            Function::PreciseExp,
            infix(Operator::Times, negated(lanes(name("fog_data[1]"@), "z"@)), name("fog_c"@)),
        ),
    )
}

proof fn exponential_factor()
    ensures
        declares(
            "    float fog_f = saturate(precise::exp(-fog_data[1].z * fog_c));\n"@,
            "float"@,
            "fog_f"@,
            exponential_factor_expr(),
        ),
        forall|env: Env| #[trigger] holds_fog(env) ==> exponential_factor_expr().value(env) == seq![
            clamped((env.library.exp)(-(fog_density(env) * named(env, "fog_c"@)[0]))),
        ],
{
    reveal_with_fuel(Expr::behind, 7);
    reveal_with_fuel(Expr::value, 7);
    reveal_with_fuel(Expr::is_plain, 7);
    let e = exponential_factor_expr();
    assert("    float fog_f = saturate(precise::exp(-fog_data[1].z * fog_c));\n"@ == "    "@
        + "float"@ + " "@ + "fog_f"@ + " = "@ + "saturate("@ + "precise::exp("@ + "-"@
        + "fog_data[1]"@ + "."@ + "z"@ + " * "@ + "fog_c"@ + ")"@ + ")"@ + ";\n"@) by {
        reveal_strlit("    float fog_f = saturate(precise::exp(-fog_data[1].z * fog_c));\n");
        reveal_strlit("    ");
        reveal_strlit("float");
        reveal_strlit(" ");
        reveal_strlit("fog_f");
        reveal_strlit(" = ");
        reveal_strlit("saturate(");
        reveal_strlit("precise::exp(");
        reveal_strlit("-");
        reveal_strlit("fog_data[1]");
        reveal_strlit(".");
        reveal_strlit("z");
        reveal_strlit(" * ");
        reveal_strlit("fog_c");
        reveal_strlit(")");
        reveal_strlit(";\n");
    }
    reveal_strlit("z");
    assert forall|env: Env| #[trigger] holds_fog(env) implies e.value(env) == seq![
            clamped((env.library.exp)(-(fog_density(env) * named(env, "fog_c"@)[0]))),
        ] by {
        let (x, y) = (fog_density(env), named(env, "fog_c"@)[0]);
        assert((-x) * y == -(x * y)) by (nonlinear_arith);
        assert(e.value(env) =~= seq![
            clamped((env.library.exp)(-(fog_density(env) * named(env, "fog_c"@)[0]))),
        ]);
    }
}

spec fn scaled_distance_expr() -> Expr {
    infix(Operator::Times, lanes(name("fog_data[1]"@), "z"@), name("fog_c"@))
}

proof fn scaled_distance()
    ensures
        declares(
            "    float fog_dz = fog_data[1].z * fog_c;\n"@,
            "float"@,
            "fog_dz"@,
            scaled_distance_expr(),
        ),
        forall|env: Env| #[trigger] holds_fog(env) ==> scaled_distance_expr().value(env)
            == seq![fog_density(env) * named(env, "fog_c"@)[0]],
{
    reveal_with_fuel(Expr::behind, 4);
    reveal_with_fuel(Expr::value, 4);
    reveal_with_fuel(Expr::is_plain, 4);
    let e = scaled_distance_expr();
    assert("    float fog_dz = fog_data[1].z * fog_c;\n"@ == "    "@ + "float"@ + " "@ + "fog_dz"@
        + " = "@ + "fog_data[1]"@ + "."@ + "z"@ + " * "@ + "fog_c"@ + ";\n"@) by {
        reveal_strlit("    float fog_dz = fog_data[1].z * fog_c;\n");
        reveal_strlit("    ");
        reveal_strlit("float");
        reveal_strlit(" ");
        reveal_strlit("fog_dz");
        reveal_strlit(" = ");
        reveal_strlit("fog_data[1]");
        reveal_strlit(".");
        reveal_strlit("z");
        reveal_strlit(" * ");
        reveal_strlit("fog_c");
        reveal_strlit(";\n");
    }
    reveal_strlit("z");
    assert forall|env: Env| #[trigger] holds_fog(env) implies e.value(env)
        == seq![fog_density(env) * named(env, "fog_c"@)[0]] by {
        assert(e.value(env) =~= seq![fog_density(env) * named(env, "fog_c"@)[0]]);
    }
}

spec fn squared_factor_expr() -> Expr {
    call_1(
        Function::Saturate,
        call_1(
            Function::PreciseExp,
            infix(Operator::Times, negated(name("fog_dz"@)), name("fog_dz"@)),
        ),
    )
}

proof fn squared_factor()
    ensures
        declares(
            "    float fog_f = saturate(precise::exp(-fog_dz * fog_dz));\n"@,
            "float"@,
            "fog_f"@,
            squared_factor_expr(),
        ),
        forall|env: Env| #[trigger] holds_fog(env) ==> squared_factor_expr().value(env) == seq![
            clamped((env.library.exp)(-(named(env, "fog_dz"@)[0] * named(env, "fog_dz"@)[0]))),
        ],
{
    reveal_with_fuel(Expr::behind, 6);
    reveal_with_fuel(Expr::value, 6);
    reveal_with_fuel(Expr::is_plain, 6);
    let e = squared_factor_expr();
    assert("    float fog_f = saturate(precise::exp(-fog_dz * fog_dz));\n"@ == "    "@ + "float"@
        + " "@ + "fog_f"@ + " = "@ + "saturate("@ + "precise::exp("@ + "-"@ + "fog_dz"@ + " * "@
        + "fog_dz"@ + ")"@ + ")"@ + ";\n"@) by {
        reveal_strlit("    float fog_f = saturate(precise::exp(-fog_dz * fog_dz));\n");
        reveal_strlit("    ");
        reveal_strlit("float");
        reveal_strlit(" ");
        reveal_strlit("fog_f");
        reveal_strlit(" = ");
        reveal_strlit("saturate(");
        reveal_strlit("precise::exp(");
        reveal_strlit("-");
        reveal_strlit("fog_dz");
        reveal_strlit(" * ");
        reveal_strlit(")");
        reveal_strlit(";\n");
    }
    assert forall|env: Env| #[trigger] holds_fog(env) implies e.value(env) == seq![
            clamped((env.library.exp)(-(named(env, "fog_dz"@)[0] * named(env, "fog_dz"@)[0]))),
        ] by {
        let x = named(env, "fog_dz"@)[0];
        assert((-x) * x == -(x * x)) by (nonlinear_arith);
        assert(e.value(env) =~= seq![
            clamped((env.library.exp)(-(named(env, "fog_dz"@)[0] * named(env, "fog_dz"@)[0]))),
        ]);
    }
}

spec fn fog_span_expr() -> Expr {
    infix(Operator::Minus, lanes(name("fog_data[1]"@), "y"@), lanes(name("fog_data[1]"@), "x"@))
}

proof fn fog_span()
    ensures
        declares(
            "    float fog_range = fog_data[1].y - fog_data[1].x;\n"@,
            "float"@,
            "fog_range"@,
            fog_span_expr(),
        ),
        forall|env: Env| #[trigger] holds_fog(env) ==> fog_span_expr().value(env)
            == seq![fog_end(env) - fog_start(env)],
{
    reveal_with_fuel(Expr::behind, 4);
    reveal_with_fuel(Expr::value, 4);
    reveal_with_fuel(Expr::is_plain, 4);
    let e = fog_span_expr();
    assert("    float fog_range = fog_data[1].y - fog_data[1].x;\n"@ == "    "@ + "float"@ + " "@
        + "fog_range"@ + " = "@ + "fog_data[1]"@ + "."@ + "y"@ + " - "@ + "fog_data[1]"@ + "."@
        + "x"@ + ";\n"@) by {
        reveal_strlit("    float fog_range = fog_data[1].y - fog_data[1].x;\n");
        reveal_strlit("    ");
        reveal_strlit("float");
        reveal_strlit(" ");
        reveal_strlit("fog_range");
        reveal_strlit(" = ");
        reveal_strlit("fog_data[1]");
        reveal_strlit(".");
        reveal_strlit("y");
        reveal_strlit(" - ");
        reveal_strlit("x");
        reveal_strlit(";\n");
    }
    reveal_strlit("x");
    reveal_strlit("y");
    assert forall|env: Env| #[trigger] holds_fog(env) implies e.value(env)
        == seq![fog_end(env) - fog_start(env)] by {
        assert(e.value(env) =~= seq![fog_end(env) - fog_start(env)]);
    }
}

spec fn linear_factor_expr() -> Expr {
    choice(
        infix(Operator::Same, name("fog_range"@), number("0.0"@)),
        number("0.0"@),
        call_1(
            Function::Saturate,
            infix(
                Operator::Over,
                group(infix(Operator::Minus, lanes(name("fog_data[1]"@), "y"@), name("fog_c"@))),
                name("fog_range"@),
            ),
        ),
    )
}

proof fn linear_factor()
    ensures
        declares(
            "    float fog_f = fog_range == 0.0 ? 0.0 : saturate((fog_data[1].y - fog_c) / fog_range);\n"@,
            "float"@,
            "fog_f"@,
            linear_factor_expr(),
        ),
        forall|env: Env| #[trigger] holds_fog(env) ==> linear_factor_expr().value(env) == seq![
            if named(env, "fog_range"@)[0] == whole(0) {
                whole(0)
            } else {
                clamped(
                    (fog_end(env) - named(env, "fog_c"@)[0]) / named(env, "fog_range"@)[0],
                )
            },
        ],
{
    reveal_with_fuel(Expr::behind, 8);
    reveal_with_fuel(Expr::value, 8);
    reveal_with_fuel(Expr::is_plain, 8);
    numerals();
    let e = linear_factor_expr();
    assert("    float fog_f = fog_range == 0.0 ? 0.0 : saturate((fog_data[1].y - fog_c) / fog_range);\n"@
        == "    "@ + "float"@ + " "@ + "fog_f"@ + " = "@ + "fog_range"@ + " == "@ + "0.0"@ + " ? "@
        + "0.0"@ + " : "@ + "saturate("@ + "("@ + "fog_data[1]"@ + "."@ + "y"@ + " - "@ + "fog_c"@
        + ")"@ + " / "@ + "fog_range"@ + ")"@ + ";\n"@) by {
        reveal_strlit("    float fog_f = fog_range == 0.0 ? 0.0 : saturate((fog_data[1].y - fog_c) / fog_range);\n");
        reveal_strlit("    ");
        reveal_strlit("float");
        reveal_strlit(" ");
        reveal_strlit("fog_f");
        reveal_strlit(" = ");
        reveal_strlit("fog_range");
        reveal_strlit(" == ");
        reveal_strlit("0.0");
        reveal_strlit(" ? ");
        reveal_strlit(" : ");
        reveal_strlit("saturate(");
        reveal_strlit("(");
        reveal_strlit("fog_data[1]");
        reveal_strlit(".");
        reveal_strlit("y");
        reveal_strlit(" - ");
        reveal_strlit("fog_c");
        reveal_strlit(")");
        reveal_strlit(" / ");
        reveal_strlit(";\n");
    }
    reveal_strlit("y");
    assert forall|env: Env| #[trigger] holds_fog(env) implies e.value(env) == seq![
            if named(env, "fog_range"@)[0] == whole(0) {
                whole(0)
            } else {
                clamped(
                    (fog_end(env) - named(env, "fog_c"@)[0]) / named(env, "fog_range"@)[0],
                )
            },
        ] by {
        assert(e.value(env) =~= seq![
            if named(env, "fog_range"@)[0] == whole(0) {
                whole(0)
            } else {
                clamped(
                    (fog_end(env) - named(env, "fog_c"@)[0]) / named(env, "fog_range"@)[0],
                )
            },
        ]);
    }
}

/// The factor of exponential fog is the exponential of minus the density times
/// the distance, in the unit range.
pub proof fn exponential_fog_decays()
    ensures
        exists|e: Expr| #[trigger]
            declares(fog_factor(D3DFOG_EXP as u8), "float"@, "fog_f"@, e) && forall|env: Env|
                #[trigger] holds_fog(env) ==> e.value(env) == seq![
                clamped((env.library.exp)(-(fog_density(env) * named(env, "fog_c"@)[0]))),
            ],
{
    exponential_factor();
    assert(declares(fog_factor(D3DFOG_EXP as u8), "float"@, "fog_f"@, exponential_factor_expr()));
}

/// The factor of squared exponential fog is the exponential of minus the square
/// of the density times the distance.
pub proof fn squared_fog_decays()
    ensures
        exists|t: Seq<char>, u: Seq<char>, d: Expr, e: Expr|
            fog_factor(D3DFOG_EXP2 as u8) == t + u && #[trigger] declares(
                t,
                "float"@,
                "fog_dz"@,
                d,
            ) && #[trigger] declares(u, "float"@, "fog_f"@, e) && forall|env: Env| #[trigger]
                holds_fog(env) ==> d.value(env) == seq![
                fog_density(env) * named(env, "fog_c"@)[0],
            ] && e.value(env) == seq![
                clamped((env.library.exp)(-(named(env, "fog_dz"@)[0] * named(env, "fog_dz"@)[0]))),
            ],
{
    scaled_distance();
    squared_factor();
    assert(declares(
        "    float fog_dz = fog_data[1].z * fog_c;\n"@,
        "float"@,
        "fog_dz"@,
        scaled_distance_expr(),
    ));
    assert(declares(
        "    float fog_f = saturate(precise::exp(-fog_dz * fog_dz));\n"@,
        "float"@,
        "fog_f"@,
        squared_factor_expr(),
    ));
}

/// The factor of linear fog falls from one at the start to zero at the end. Over
/// an empty range it is zero.
pub proof fn linear_fog_falls(mode: u8)
    requires
        mode != D3DFOG_EXP,
        mode != D3DFOG_EXP2,
    ensures
        exists|t: Seq<char>, u: Seq<char>, d: Expr, e: Expr|
            fog_factor(mode) == t + u && #[trigger] declares(t, "float"@, "fog_range"@, d)
                && #[trigger] declares(u, "float"@, "fog_f"@, e) && forall|env: Env| #[trigger]
                holds_fog(env) ==> d.value(env) == seq![fog_end(env) - fog_start(env)]
                && e.value(env) == seq![
                if named(env, "fog_range"@)[0] == whole(0) {
                    whole(0)
                } else {
                    clamped(
                        (fog_end(env) - named(env, "fog_c"@)[0]) / named(env, "fog_range"@)[0],
                    )
                },
            ],
{
    fog_span();
    linear_factor();
    assert(declares(
        "    float fog_range = fog_data[1].y - fog_data[1].x;\n"@,
        "float"@,
        "fog_range"@,
        fog_span_expr(),
    ));
    assert(declares(
        "    float fog_f = fog_range == 0.0 ? 0.0 : saturate((fog_data[1].y - fog_c) / fog_range);\n"@,
        "float"@,
        "fog_f"@,
        linear_factor_expr(),
    ));
}

/// The statements that stand before the blend: those of the factor of table fog.
pub open spec fn before_the_blend(variant: VariantKey) -> Seq<char> {
    if variant.fog_table_mode != 0 {
        fog_distance(variant) + fog_factor(variant.fog_table_mode)
    } else {
        ""@
    }
}

/// The factor that blends fog in: that of table fog, else that of the vertices
/// in the unit range.
pub open spec fn blend_factor(variant: VariantKey, env: Env) -> real {
    if variant.fog_table_mode != 0 {
        named(env, "fog_f"@)[0]
    } else {
        clamped(named(env, "in.fog"@)[0])
    }
}

/// Whether the colour that fog is blended into has four lanes.
pub open spec fn holds_target(env: Env, target: Seq<char>) -> bool {
    holds_fog(env) && named(env, target).len() == 4
}

/// The blend of table fog.
spec fn table_blend(target: Seq<char>) -> Expr {
    call_2(
        Function::Float4,
        call_3(
            Function::Mix,
            lanes(name("fog_data[0]"@), "rgb"@),
            lanes(name(target), "rgb"@),
            name("fog_f"@),
        ),
        lanes(name(target), "a"@),
    )
}

/// The blend of vertex fog.
spec fn vertex_blend(target: Seq<char>) -> Expr {
    call_2(
        Function::Float4,
        call_3(
            Function::Mix,
            lanes(name("fog_data[0]"@), "rgb"@),
            lanes(name(target), "rgb"@),
            call_1(Function::Saturate, lanes(name("in.fog"@), "x"@)),
        ),
        lanes(name(target), "a"@),
    )
}

proof fn table_blend_is_written(start: Seq<char>, target: Seq<char>)
    ensures
        table_blend(target).is_plain(7),
        start + "    "@ + target + " = float4(mix(fog_data[0].rgb, "@ + target + ".rgb, fog_f), "@
            + target + ".a);\n"@ == table_blend(target).behind(
            start + "    "@ + target + " = "@,
            Seq::empty(),
        ) + ";\n"@,
{
    reveal_with_fuel(Expr::behind, 6);
    reveal_with_fuel(Expr::is_plain, 6);
    assert forall|x: Seq<char>| #[trigger] (x + " = float4(mix(fog_data[0].rgb, "@) == x + " = "@
        + "float4("@ + "mix("@ + "fog_data[0]"@ + "."@ + "rgb"@ + ", "@ by {
        reveal_strlit(" = float4(mix(fog_data[0].rgb, ");
        reveal_strlit(" = ");
        reveal_strlit("float4(");
        reveal_strlit("mix(");
        reveal_strlit("fog_data[0]");
        reveal_strlit(".");
        reveal_strlit("rgb");
        reveal_strlit(", ");
        assert(x + " = float4(mix(fog_data[0].rgb, "@ =~= x + " = "@ + "float4("@ + "mix("@
            + "fog_data[0]"@ + "."@ + "rgb"@ + ", "@);
    }
    assert forall|x: Seq<char>| #[trigger] (x + ".rgb, fog_f), "@) == x + "."@ + "rgb"@ + ", "@
        + "fog_f"@ + ")"@ + ", "@ by {
        reveal_strlit(".rgb, fog_f), ");
        reveal_strlit(".");
        reveal_strlit("rgb");
        reveal_strlit(", ");
        reveal_strlit("fog_f");
        reveal_strlit(")");
        assert(x + ".rgb, fog_f), "@ =~= x + "."@ + "rgb"@ + ", "@ + "fog_f"@ + ")"@ + ", "@);
    }
    assert forall|x: Seq<char>| #[trigger] (x + ".a);\n"@) == x + "."@ + "a"@ + ")"@ + ";\n"@ by {
        reveal_strlit(".a);\n");
        reveal_strlit(".");
        reveal_strlit("a");
        reveal_strlit(")");
        reveal_strlit(";\n");
        assert(x + ".a);\n"@ =~= x + "."@ + "a"@ + ")"@ + ";\n"@);
    }
}

proof fn vertex_blend_is_written(start: Seq<char>, target: Seq<char>)
    ensures
        vertex_blend(target).is_plain(7),
        start + "    "@ + target + " = float4(mix(fog_data[0].rgb, "@ + target
            + ".rgb, saturate(in.fog.x)), "@ + target + ".a);\n"@ == vertex_blend(target).behind(
            start + "    "@ + target + " = "@,
            Seq::empty(),
        ) + ";\n"@,
{
    reveal_with_fuel(Expr::behind, 6);
    reveal_with_fuel(Expr::is_plain, 6);
    assert forall|x: Seq<char>| #[trigger] (x + " = float4(mix(fog_data[0].rgb, "@) == x + " = "@
        + "float4("@ + "mix("@ + "fog_data[0]"@ + "."@ + "rgb"@ + ", "@ by {
        reveal_strlit(" = float4(mix(fog_data[0].rgb, ");
        reveal_strlit(" = ");
        reveal_strlit("float4(");
        reveal_strlit("mix(");
        reveal_strlit("fog_data[0]");
        reveal_strlit(".");
        reveal_strlit("rgb");
        reveal_strlit(", ");
        assert(x + " = float4(mix(fog_data[0].rgb, "@ =~= x + " = "@ + "float4("@ + "mix("@
            + "fog_data[0]"@ + "."@ + "rgb"@ + ", "@);
    }
    assert forall|x: Seq<char>| #[trigger] (x + ".rgb, saturate(in.fog.x)), "@) == x + "."@ + "rgb"@
        + ", "@ + "saturate("@ + "in.fog"@ + "."@ + "x"@ + ")"@ + ")"@ + ", "@ by {
        reveal_strlit(".rgb, saturate(in.fog.x)), ");
        reveal_strlit(".");
        reveal_strlit("rgb");
        reveal_strlit(", ");
        reveal_strlit("saturate(");
        reveal_strlit("in.fog");
        reveal_strlit("x");
        reveal_strlit(")");
        assert(x + ".rgb, saturate(in.fog.x)), "@ =~= x + "."@ + "rgb"@ + ", "@ + "saturate("@
            + "in.fog"@ + "."@ + "x"@ + ")"@ + ")"@ + ", "@);
    }
    assert forall|x: Seq<char>| #[trigger] (x + ".a);\n"@) == x + "."@ + "a"@ + ")"@ + ";\n"@ by {
        reveal_strlit(".a);\n");
        reveal_strlit(".");
        reveal_strlit("a");
        reveal_strlit(")");
        reveal_strlit(";\n");
        assert(x + ".a);\n"@ =~= x + "."@ + "a"@ + ")"@ + ";\n"@);
    }
}

/// What fog makes of a colour: the colour weighed by the factor, the fog colour by
/// what is left, and the alpha as it is.
pub open spec fn fogged(variant: VariantKey, target: Seq<char>, env: Env) -> Value {
    let c = named(env, target);
    let fog = named(env, "fog_data[0]"@);
    let f = blend_factor(variant, env);
    seq![
        c[0] * f + fog[0] * (whole(1) - f),
        c[1] * f + fog[1] * (whole(1) - f),
        c[2] * f + fog[2] * (whole(1) - f),
        c[3],
    ]
}

/// Fog is blended into a colour by its factor. Without fog nothing is done.
pub proof fn fog_is_blended(variant: VariantKey, target: Seq<char>)
    ensures
        !variant.blends_fog() ==> fog_text(variant, target) == ""@,
        variant.blends_fog() ==> exists|e: Expr|
            e.is_plain(7) && fog_text(variant, target) == #[trigger] e.behind(
                before_the_blend(variant) + "    "@ + target + " = "@,
                Seq::empty(),
            ) + ";\n"@ && forall|env: Env| #[trigger] holds_target(env, target) ==> e.value(env)
                == fogged(variant, target, env),
{
    reveal_with_fuel(Expr::value, 6);
    reveal_strlit("rgb");
    reveal_strlit("a");
    reveal_strlit("x");
    let start = before_the_blend(variant);
    table_blend_is_written(start, target);
    vertex_blend_is_written(start, target);
    let e = if variant.fog_table_mode != 0 {
        table_blend(target)
    } else {
        vertex_blend(target)
    };
    if variant.fog_table_mode == 0 {
        reveal_strlit("");
        assert(""@ + "    "@ =~= "    "@);
    }
    assert forall|env: Env| #[trigger] holds_target(env, target) implies e.value(env) == fogged(
        variant,
        target,
        env,
    ) by {
        assert(e.value(env) =~= fogged(variant, target, env));
    }
}

// ---------------------------------------------------------------------------
// sRGB
// ---------------------------------------------------------------------------

proof fn slope_numeral()
    ensures
        numeral_value("12.92"@) == whole(1292) / whole(100),
{
    reveal_strlit("12.92");
    let t5 = "12.92"@;
    let t4 = t5.drop_last();
    assert(t5.last() == '2' && t4.len() == 4);
    let t3 = t4.drop_last();
    assert(t4.last() == '9' && t3.len() == 3);
    let t2 = t3.drop_last();
    assert(t3.last() == '.' && t2.len() == 2);
    let t1 = t2.drop_last();
    assert(t2.last() == '2' && t1.len() == 1);
    let t0 = t1.drop_last();
    assert(t1.last() == '1' && t0.len() == 0);
    assert(digits_value(t0) == 0);
    assert(digits_value(t1) == 1);
    assert(digits_value(t2) == 12);
    assert(digits_value(t3) == 12);
    assert(digits_value(t4) == 129);
    assert(digits_value(t5) == 1292);
    assert(point_scale(t3) == 1);
    assert(point_scale(t4) == 10);
    assert(point_scale(t5) == 100);
}

proof fn scale_numeral()
    ensures
        numeral_value("1.055"@) == whole(1055) / whole(1000),
{
    reveal_strlit("1.055");
    let t5 = "1.055"@;
    let t4 = t5.drop_last();
    assert(t5.last() == '5' && t4.len() == 4);
    let t3 = t4.drop_last();
    assert(t4.last() == '5' && t3.len() == 3);
    let t2 = t3.drop_last();
    assert(t3.last() == '0' && t2.len() == 2);
    let t1 = t2.drop_last();
    assert(t2.last() == '.' && t1.len() == 1);
    let t0 = t1.drop_last();
    assert(t1.last() == '1' && t0.len() == 0);
    assert(digits_value(t0) == 0);
    assert(digits_value(t1) == 1);
    assert(digits_value(t2) == 1);
    assert(digits_value(t3) == 10);
    assert(digits_value(t4) == 105);
    assert(digits_value(t5) == 1055);
    assert(point_scale(t2) == 1);
    assert(point_scale(t3) == 10);
    assert(point_scale(t4) == 100);
    assert(point_scale(t5) == 1000);
}

proof fn exponent_numeral()
    ensures
        numeral_value("2.4"@) == whole(24) / whole(10),
{
    reveal_strlit("2.4");
    let t3 = "2.4"@;
    let t2 = t3.drop_last();
    assert(t3.last() == '4' && t2.len() == 2);
    let t1 = t2.drop_last();
    assert(t2.last() == '.' && t1.len() == 1);
    let t0 = t1.drop_last();
    assert(t1.last() == '2' && t0.len() == 0);
    assert(digits_value(t0) == 0);
    assert(digits_value(t1) == 2);
    assert(digits_value(t2) == 2);
    assert(digits_value(t3) == 24);
    assert(point_scale(t2) == 1);
    assert(point_scale(t3) == 10);
}

proof fn offset_numeral()
    ensures
        numeral_value("0.055"@) == whole(55) / whole(1000),
{
    reveal_strlit("0.055");
    let t5 = "0.055"@;
    let t4 = t5.drop_last();
    assert(t5.last() == '5' && t4.len() == 4);
    let t3 = t4.drop_last();
    assert(t4.last() == '5' && t3.len() == 3);
    let t2 = t3.drop_last();
    assert(t3.last() == '0' && t2.len() == 2);
    let t1 = t2.drop_last();
    assert(t2.last() == '.' && t1.len() == 1);
    let t0 = t1.drop_last();
    assert(t1.last() == '0' && t0.len() == 0);
    assert(digits_value(t0) == 0);
    assert(digits_value(t1) == 0);
    assert(digits_value(t2) == 0);
    assert(digits_value(t3) == 0);
    assert(digits_value(t4) == 5);
    assert(digits_value(t5) == 55);
    assert(point_scale(t2) == 1);
    assert(point_scale(t3) == 10);
    assert(point_scale(t4) == 100);
    assert(point_scale(t5) == 1000);
}

proof fn threshold_numeral()
    ensures
        numeral_value("0.0031308"@) == whole(31308) / whole(10000000),
{
    reveal_strlit("0.0031308");
    let t9 = "0.0031308"@;
    let t8 = t9.drop_last();
    assert(t9.last() == '8' && t8.len() == 8);
    let t7 = t8.drop_last();
    assert(t8.last() == '0' && t7.len() == 7);
    let t6 = t7.drop_last();
    assert(t7.last() == '3' && t6.len() == 6);
    let t5 = t6.drop_last();
    assert(t6.last() == '1' && t5.len() == 5);
    let t4 = t5.drop_last();
    assert(t5.last() == '3' && t4.len() == 4);
    let t3 = t4.drop_last();
    assert(t4.last() == '0' && t3.len() == 3);
    let t2 = t3.drop_last();
    assert(t3.last() == '0' && t2.len() == 2);
    let t1 = t2.drop_last();
    assert(t2.last() == '.' && t1.len() == 1);
    let t0 = t1.drop_last();
    assert(t1.last() == '0' && t0.len() == 0);
    assert(digits_value(t0) == 0);
    assert(digits_value(t1) == 0);
    assert(digits_value(t2) == 0);
    assert(digits_value(t3) == 0);
    assert(digits_value(t4) == 0);
    assert(digits_value(t5) == 3);
    assert(digits_value(t6) == 31);
    assert(digits_value(t7) == 313);
    assert(digits_value(t8) == 3130);
    assert(digits_value(t9) == 31308);
    assert(point_scale(t2) == 1);
    assert(point_scale(t3) == 10);
    assert(point_scale(t4) == 100);
    assert(point_scale(t5) == 1000);
    assert(point_scale(t6) == 10000);
    assert(point_scale(t7) == 100000);
    assert(point_scale(t8) == 1000000);
    assert(point_scale(t9) == 10000000);
}

/// The level that sRGB encodes the linear level `x` as: linear near black, a power
/// elsewhere.
pub open spec fn srgb_level(x: real, l: Library) -> real {
    if x <= whole(31308) / whole(10000000) {
        whole(1292) / whole(100) * x
    } else {
        whole(1055) / whole(1000) * (l.pow)(
            greater(x, whole(0)),
            whole(1) / (whole(24) / whole(10)),
        ) - whole(55) / whole(1000)
    }
}

/// What the function of the encoder returns.
spec fn srgb_result() -> Expr {
    call_3(
        Function::Select,
        name("hi"@),
        name("lo"@),
        infix(Operator::AtMost, name("c"@), number("0.0031308"@)),
    )
}

spec fn srgb_levels_0() -> Statement {
    Statement::Declare("float3"@, "lo"@, infix(Operator::Times, number("12.92"@), name("c"@)))
}

spec fn srgb_levels_1() -> Statement {
    Statement::Declare(
        "float3"@,
        "hi"@,
        infix(
            Operator::Minus,
            infix(
                Operator::Times,
                number("1.055"@),
                call_2(
                    Function::Pow,
                    call_2(Function::Max, name("c"@), call_1(Function::Float3, number("0.0"@))),
                    infix(Operator::Over, number("1.0"@), number("2.4"@)),
                ),
            ),
            number("0.055"@),
        ),
    )
}

spec fn srgb_levels_program() -> Seq<Statement> {
    seq![
        srgb_levels_0(),
        srgb_levels_1(),
    ]
}

proof fn srgb_levels_line_0(acc: Seq<char>)
    ensures
        acc + "    float3 lo = 12.92 * c;\n"@ == srgb_levels_0().behind(acc, "    "@),
        srgb_levels_0().is_plain(),
{
    reveal_with_fuel(Expr::behind, 3);
    reveal_with_fuel(Expr::is_plain, 3);
    assert forall|x: Seq<char>| #[trigger] (x + "    float3 lo = 12.92 * c;\n"@) == x + "    "@
        + "float3"@ + " "@ + "lo"@ + " = "@ + "12.92"@ + " * "@ + "c"@ + ";\n"@ by {
        reveal_strlit("    float3 lo = 12.92 * c;\n");
        reveal_strlit("    ");
        reveal_strlit("float3");
        reveal_strlit(" ");
        reveal_strlit("lo");
        reveal_strlit(" = ");
        reveal_strlit("12.92");
        reveal_strlit(" * ");
        reveal_strlit("c");
        reveal_strlit(";\n");
        assert(x + "    float3 lo = 12.92 * c;\n"@ =~= x + "    "@ + "float3"@ + " "@ + "lo"@
            + " = "@ + "12.92"@ + " * "@ + "c"@ + ";\n"@);
    }
}

proof fn srgb_levels_line_1(acc: Seq<char>)
    ensures
        acc + "    float3 hi = 1.055 * pow(max(c, float3(0.0)), 1.0 / 2.4) - 0.055;\n"@
            == srgb_levels_1().behind(acc, "    "@),
        srgb_levels_1().is_plain(),
{
    reveal_with_fuel(Expr::behind, 7);
    reveal_with_fuel(Expr::is_plain, 7);
    assert forall|x: Seq<char>| #[trigger] (x
        + "    float3 hi = 1.055 * pow(max(c, float3(0.0)), 1.0 / 2.4) - 0.055;\n"@) == x
        + "    float3 hi = 1.055 * pow("@ + "max(c, float3(0.0)), "@ + "1.0 / 2.4) - 0.055;\n"@ by {
        reveal_strlit("    float3 hi = 1.055 * pow(max(c, float3(0.0)), 1.0 / 2.4) - 0.055;\n");
        reveal_strlit("    float3 hi = 1.055 * pow(");
        reveal_strlit("max(c, float3(0.0)), ");
        reveal_strlit("1.0 / 2.4) - 0.055;\n");
        assert(x + "    float3 hi = 1.055 * pow(max(c, float3(0.0)), 1.0 / 2.4) - 0.055;\n"@ =~= x
            + "    float3 hi = 1.055 * pow("@ + "max(c, float3(0.0)), "@
            + "1.0 / 2.4) - 0.055;\n"@);
    }
    assert forall|x: Seq<char>| #[trigger] (x + "    float3 hi = 1.055 * pow("@) == x + "    "@
        + "float3"@ + " "@ + "hi"@ + " = "@ + "1.055"@ + " * "@ + "pow("@ by {
        reveal_strlit("    float3 hi = 1.055 * pow(");
        reveal_strlit("    ");
        reveal_strlit("float3");
        reveal_strlit(" ");
        reveal_strlit("hi");
        reveal_strlit(" = ");
        reveal_strlit("1.055");
        reveal_strlit(" * ");
        reveal_strlit("pow(");
        assert(x + "    float3 hi = 1.055 * pow("@ =~= x + "    "@ + "float3"@ + " "@ + "hi"@
            + " = "@ + "1.055"@ + " * "@ + "pow("@);
    }
    assert forall|x: Seq<char>| #[trigger] (x + "max(c, float3(0.0)), "@) == x + "max("@ + "c"@
        + ", "@ + "float3("@ + "0.0"@ + ")"@ + ")"@ + ", "@ by {
        reveal_strlit("max(c, float3(0.0)), ");
        reveal_strlit("max(");
        reveal_strlit("c");
        reveal_strlit(", ");
        reveal_strlit("float3(");
        reveal_strlit("0.0");
        reveal_strlit(")");
        assert(x + "max(c, float3(0.0)), "@ =~= x + "max("@ + "c"@ + ", "@ + "float3("@ + "0.0"@
            + ")"@ + ")"@ + ", "@);
    }
    assert forall|x: Seq<char>| #[trigger] (x + "1.0 / 2.4) - 0.055;\n"@) == x + "1.0"@ + " / "@
        + "2.4"@ + ")"@ + " - "@ + "0.055"@ + ";\n"@ by {
        reveal_strlit("1.0 / 2.4) - 0.055;\n");
        reveal_strlit("1.0");
        reveal_strlit(" / ");
        reveal_strlit("2.4");
        reveal_strlit(")");
        reveal_strlit(" - ");
        reveal_strlit("0.055");
        reveal_strlit(";\n");
        assert(x + "1.0 / 2.4) - 0.055;\n"@ =~= x + "1.0"@ + " / "@ + "2.4"@ + ")"@ + " - "@
            + "0.055"@ + ";\n"@);
    }
}

proof fn srgb_levels_is_written(start: Seq<char>)
    ensures
        is_program(
            start + "    float3 lo = 12.92 * c;\n"@
                + "    float3 hi = 1.055 * pow(max(c, float3(0.0)), 1.0 / 2.4) - 0.055;\n"@,
            srgb_levels_program(),
            start,
            "    "@,
        ),
{
    reveal_with_fuel(lines, 3);
    let p2 = srgb_levels_program();
    let p1 = seq![p2[0]];
    assert(p2.drop_last() =~= p1);
    assert(p1.drop_last() =~= Seq::empty());
    let a0 = start;
    srgb_levels_line_0(a0);
    let a1 = a0 + "    float3 lo = 12.92 * c;\n"@;
    assert(lines(p1, a0, "    "@) == a1);
    srgb_levels_line_1(a1);
    let a2 = a1 + "    float3 hi = 1.055 * pow(max(c, float3(0.0)), 1.0 / 2.4) - 0.055;\n"@;
    assert(lines(p2, a0, "    "@) == a2);
}

#[verifier::rlimit(50)]
proof fn srgb_levels_runs(env: Env)
    requires
        named(env, "c"@).len() == 3,
    ensures
        srgb_result().value(after(srgb_levels_program(), env)) == Seq::new(
            3,
            |i: int| srgb_level(named(env, "c"@)[i], env.library),
        ),
{
    reveal_with_fuel(after, 3);
    reveal_with_fuel(Expr::value, 7);
    numerals();
    reveal_strlit("c");
    reveal_strlit("hi");
    reveal_strlit("lo");
    assert("lo"@.len() != "c"@.len());
    assert("lo"@[0] != "hi"@[0]);
    assert("hi"@.len() != "c"@.len());
    slope_numeral();
    scale_numeral();
    exponent_numeral();
    offset_numeral();
    threshold_numeral();
    let c = named(env, "c"@);
    let p2 = srgb_levels_program();
    let p1 = seq![p2[0]];
    assert(p2.drop_last() =~= p1);
    assert(p1.drop_last() =~= Seq::empty());
    let e0 = env;
    let e1 = p2[0].run(e0);
    assert(named(e1, "lo"@) =~= Seq::new(3, |i: int| whole(1292) / whole(100) * c[i]));
    assert(named(e1, "c"@) == c);
    let e2 = p2[1].run(e1);
    assert(named(e2, "hi"@) =~= Seq::new(
        3,
        |i: int|
            whole(1055) / whole(1000) * (env.library.pow)(
                greater(c[i], whole(0)),
                whole(1) / (whole(24) / whole(10)),
            ) - whole(55) / whole(1000),
    ));
    assert(named(e2, "lo"@) == named(e1, "lo"@));
    assert(named(e2, "c"@) == c);
    assert(after(p2, env) == e2);
    assert(srgb_result().value(e2) =~= Seq::new(3, |i: int| srgb_level(c[i], env.library)));
}

proof fn srgb_result_is_written(x: Seq<char>)
    ensures
        srgb_result().is_plain(7),
        x + "    return select(hi, lo, c <= 0.0031308);\n"@ == srgb_result().behind(
            x + "    return "@,
            Seq::empty(),
        ) + ";\n"@,
{
    reveal_with_fuel(Expr::behind, 5);
    reveal_with_fuel(Expr::is_plain, 5);
    assert(x + "    return select(hi, lo, c <= 0.0031308);\n"@ == x + "    return "@ + "select("@
        + "hi"@ + ", "@ + "lo"@ + ", "@ + "c"@ + " <= "@ + "0.0031308"@ + ")"@ + ";\n"@) by {
        reveal_strlit("    return select(hi, lo, c <= 0.0031308);\n");
        reveal_strlit("    return ");
        reveal_strlit("select(");
        reveal_strlit("hi");
        reveal_strlit(", ");
        reveal_strlit("lo");
        reveal_strlit("c");
        reveal_strlit(" <= ");
        reveal_strlit("0.0031308");
        reveal_strlit(")");
        reveal_strlit(";\n");
        assert(x + "    return select(hi, lo, c <= 0.0031308);\n"@ =~= x + "    return "@
            + "select("@ + "hi"@ + ", "@ + "lo"@ + ", "@ + "c"@ + " <= "@ + "0.0031308"@ + ")"@
            + ";\n"@);
    }
}

/// Whether the colour to encode has three lanes.
pub open spec fn holds_color(env: Env) -> bool {
    named(env, "c"@).len() == 3
}

/// The function that encodes a linear colour returns the sRGB level of each lane.
pub proof fn linear_colors_are_encoded()
    ensures
        exists|p: Seq<Statement>, e: Expr|
            srgb_helper_text() == e.behind(
                #[trigger] lines(
                    p,
                    "static inline float3 mtld3d_linear_to_srgb(float3 c) {\n"@,
                    "    "@,
                ) + "    return "@,
                Seq::empty(),
            ) + ";\n"@ + "}\n\n"@ && #[trigger] e.is_plain(7) && forall|env: Env| #[trigger]
                holds_color(env) ==> e.value(after(p, env)) == Seq::new(
                3,
                |i: int| srgb_level(named(env, "c"@)[i], env.library),
            ),
{
    let start = "static inline float3 mtld3d_linear_to_srgb(float3 c) {\n"@;
    let p = srgb_levels_program();
    let e = srgb_result();
    srgb_levels_is_written(start);
    let x = lines(p, start, "    "@);
    srgb_result_is_written(x);
    assert forall|env: Env| #[trigger] holds_color(env) implies e.value(after(p, env)) == Seq::new(
        3,
        |i: int| srgb_level(named(env, "c"@)[i], env.library),
    ) by {
        srgb_levels_runs(env);
    }
    assert(srgb_helper_text() == e.behind(x + "    return "@, Seq::empty()) + ";\n"@ + "}\n\n"@);
    assert(e.is_plain(7));
}

} // verus!
