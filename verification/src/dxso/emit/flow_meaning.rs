//! What conditions and predicates decide.
//!
//! Direct3D says when a branch is taken and what a predicate holds. The laws say
//! that the statements decide so, for all operands.

use crate::d3d::{D3DSPC_EQ, D3DSPC_GE, D3DSPC_GT, D3DSPC_LE, D3DSPC_LT, D3DSPC_NE};
use crate::dxso::emit::error::EmitFailure;
use crate::dxso::emit::lower::{comparison_text, flow_text, loop_text};
use crate::dxso::emit::metal::{
    call_1, group, infix, inverted, lanes, name, number, numerals, operand, truth, vectors, whole,
    Env, Expr, Function, Operator, Value,
};
use crate::dxso::emit::operands::gate_text;
use crate::dxso::ir::{CmpFunc, Instruction, SrcModifier, SrcOperand};
use crate::dxso::opcode::Opcode;
use crate::text::{dec, lane};
use vstd::prelude::*;

verus! {

/// The number of the comparison that an instruction carries; that of equality
/// where it carries none.
pub open spec fn comparison_number(inst: Instruction) -> u8 {
    match inst.cmp_func {
        Some(f) => f.code(),
        None => D3DSPC_EQ,
    }
}

/// Whether the comparison with a number holds of `a` and `b`.
pub open spec fn relates(number: u8, a: real, b: real) -> bool {
    if number == D3DSPC_GT {
        a > b
    } else if number == D3DSPC_EQ {
        a == b
    } else if number == D3DSPC_GE {
        a >= b
    } else if number == D3DSPC_LT {
        a < b
    } else if number == D3DSPC_NE {
        a != b
    } else {
        number == D3DSPC_LE && a <= b
    }
}

/// Whether the text of `inst` is `head`, the expression `e` of the first `n`
/// operands, and `tail`.
pub open spec fn is_statement(
    inst: Instruction,
    n: nat,
    head: Seq<char>,
    e: Expr,
    tail: Seq<char>,
) -> bool {
    e.is_plain(6) && forall|s: Seq<Seq<char>>|
        s.len() >= n ==> #[trigger] flow_text(inst, s) == Ok::<Seq<char>, EmitFailure>(
            e.behind(head, s) + tail,
        )
}

spec fn relation_operator(inst: Instruction) -> Operator {
    match inst.cmp_func {
        Some(CmpFunc::Gt) => Operator::More,
        Some(CmpFunc::Ge) => Operator::AtLeast,
        Some(CmpFunc::Lt) => Operator::Less,
        Some(CmpFunc::Ne) => Operator::Other,
        Some(CmpFunc::Le) => Operator::AtMost,
        _ => Operator::Same,
    }
}

proof fn operators_stand_between_blanks(inst: Instruction)
    ensures
        " "@ + comparison_text(inst) + " "@ == relation_operator(inst).text(),
{
    reveal_strlit(" ");
    reveal_strlit(">");
    reveal_strlit(" > ");
    reveal_strlit("==");
    reveal_strlit(" == ");
    reveal_strlit(">=");
    reveal_strlit(" >= ");
    reveal_strlit("<");
    reveal_strlit(" < ");
    reveal_strlit("!=");
    reveal_strlit(" != ");
    reveal_strlit("<=");
    reveal_strlit(" <= ");
    assert(" "@ + comparison_text(inst) + " "@ =~= relation_operator(inst).text());
}

/// The condition that compares the first lanes of two operands.
spec fn first_lanes_compared(inst: Instruction) -> Expr {
    infix(
        relation_operator(inst),
        lanes(group(operand(0)), "x"@),
        lanes(group(operand(1)), "x"@),
    )
}

proof fn first_lanes_are_written(inst: Instruction, s: Seq<Seq<char>>, tail: Seq<char>)
    requires
        s.len() >= 2,
    ensures
        first_lanes_compared(inst).is_plain(6),
        "    if (("@ + s[0] + ").x "@ + comparison_text(inst) + " ("@ + s[1] + (").x"@ + tail)
            == first_lanes_compared(inst).behind("    if ("@, s) + tail,
{
    reveal_with_fuel(Expr::behind, 5);
    reveal_with_fuel(Expr::is_plain, 5);
    operators_stand_between_blanks(inst);
    let t = comparison_text(inst);
    let o = relation_operator(inst).text();
    assert("    if (("@ == "    if ("@ + "("@) by {
        reveal_strlit("    if ((");
        reveal_strlit("    if (");
        reveal_strlit("(");
    }
    let x = "    if ("@ + "("@ + s[0];
    assert(x + ").x "@ + t + " ("@ == x + ")"@ + "."@ + "x"@ + o + "("@) by {
        reveal_strlit(").x ");
        reveal_strlit(" (");
        reveal_strlit(")");
        reveal_strlit(".");
        reveal_strlit("x");
        reveal_strlit("(");
        reveal_strlit(" ");
        assert(x + ").x "@ + t + " ("@ =~= x + ")"@ + "."@ + "x"@ + (" "@ + t + " "@) + "("@);
    }
    let y = x + ")"@ + "."@ + "x"@ + o + "("@ + s[1];
    assert(y + (").x"@ + tail) == y + ")"@ + "."@ + "x"@ + tail) by {
        reveal_strlit(").x");
        reveal_strlit(")");
        reveal_strlit(".");
        reveal_strlit("x");
        assert(y + (").x"@ + tail) =~= y + ")"@ + "."@ + "x"@ + tail);
    }
}

proof fn first_lanes_relate(inst: Instruction, env: Env)
    requires
        vectors(env.operands, 2),
    ensures
        first_lanes_compared(inst).value(env) == seq![
            truth(relates(comparison_number(inst), env.operands[0][0], env.operands[1][0])),
        ],
{
    reveal_with_fuel(Expr::value, 5);
    reveal_strlit("x");
    assert(first_lanes_compared(inst).value(env) =~= seq![
        truth(relates(comparison_number(inst), env.operands[0][0], env.operands[1][0])),
    ]);
}

/// What follows the condition of `inst`.
pub open spec fn consequence(inst: Instruction) -> Seq<char> {
    if inst.opcode == Opcode::Ifc {
        ") {\n"@
    } else {
        ") break;\n"@
    }
}

/// `ifc` opens a block, and `breakc` leaves the loop, where the comparison holds
/// of the first lanes of the operands.
pub proof fn conditions_compare(inst: Instruction)
    requires
        inst.opcode == Opcode::Ifc || inst.opcode == Opcode::BreakC,
    ensures
        exists|e: Expr| #[trigger]
            is_statement(inst, 2, "    if ("@, e, consequence(inst))
                && forall|env: Env| #[trigger] vectors(env.operands, 2) ==> e.value(env) == seq![
                truth(relates(comparison_number(inst), env.operands[0][0], env.operands[1][0])),
            ],
{
    let e = first_lanes_compared(inst);
    let tail = consequence(inst);
    assert forall|s: Seq<Seq<char>>| s.len() >= 2 implies #[trigger] flow_text(inst, s) == Ok::<
        Seq<char>,
        EmitFailure,
    >(e.behind("    if ("@, s) + tail) by {
        first_lanes_are_written(inst, s, tail);
        assert(").x) {\n"@ == ").x"@ + ") {\n"@ && ").x) break;\n"@ == ").x"@ + ") break;\n"@) by {
            reveal_strlit(").x) {\n");
            reveal_strlit(").x) break;\n");
            reveal_strlit(").x");
            reveal_strlit(") {\n");
            reveal_strlit(") break;\n");
        }
    }
    first_lanes_are_written(inst, seq![Seq::empty(), Seq::empty()], tail);
    assert(is_statement(inst, 2, "    if ("@, e, tail));
    assert forall|env: Env| #[trigger] vectors(env.operands, 2) implies e.value(env) == seq![
        truth(relates(comparison_number(inst), env.operands[0][0], env.operands[1][0])),
    ] by {
        first_lanes_relate(inst, env);
    }
}

/// `if` opens a block where the first lane of its operand is not zero.
pub proof fn branches_test_their_operand(inst: Instruction)
    requires
        inst.opcode == Opcode::If,
    ensures
        exists|e: Expr| #[trigger]
            is_statement(inst, 1, "    if ("@, e, ") {\n"@) && forall|env: Env| #[trigger]
                vectors(env.operands, 1) ==> e.value(env) == seq![
                truth(env.operands[0][0] != whole(0)),
            ],
{
    reveal_with_fuel(Expr::behind, 5);
    reveal_with_fuel(Expr::value, 5);
    reveal_with_fuel(Expr::is_plain, 5);
    numerals();
    let e = infix(Operator::Other, lanes(group(operand(0)), "x"@), number("0.0"@));
    assert("    if (("@ == "    if ("@ + "("@) by {
        reveal_strlit("    if ((");
        reveal_strlit("    if (");
        reveal_strlit("(");
    }
    assert forall|x: Seq<char>| #[trigger] (x + ").x != 0.0) {\n"@) == x + ")"@ + "."@ + "x"@
        + " != "@ + "0.0"@ + ") {\n"@ by {
        reveal_strlit(").x != 0.0) {\n");
        reveal_strlit(")");
        reveal_strlit(".");
        reveal_strlit("x");
        reveal_strlit(" != ");
        reveal_strlit("0.0");
        reveal_strlit(") {\n");
        assert(x + ").x != 0.0) {\n"@ =~= x + ")"@ + "."@ + "x"@ + " != "@ + "0.0"@ + ") {\n"@);
    }
    assert(is_statement(inst, 1, "    if ("@, e, ") {\n"@));
    reveal_strlit("x");
    assert forall|env: Env| #[trigger] vectors(env.operands, 1) implies e.value(env) == seq![
        truth(env.operands[0][0] != whole(0)),
    ] by {
        assert(e.value(env) =~= seq![truth(env.operands[0][0] != whole(0))]);
    }
}

proof fn predicates_are_written(inst: Instruction, s: Seq<Seq<char>>)
    requires
        inst.opcode == Opcode::SetP,
        s.len() >= 2,
    ensures
        flow_text(inst, s) == Ok::<Seq<char>, EmitFailure>(
            group(infix(relation_operator(inst), operand(0), operand(1))).behind("    p0 = "@, s)
                + ";\n"@,
        ),
{
    reveal_with_fuel(Expr::behind, 4);
    let t = comparison_text(inst);
    let o = relation_operator(inst).text();
    operators_stand_between_blanks(inst);
    assert("    p0 = ("@ == "    p0 = "@ + "("@) by {
        reveal_strlit("    p0 = (");
        reveal_strlit("    p0 = ");
        reveal_strlit("(");
    }
    let x = "    p0 = ("@ + s[0];
    assert(x + " "@ + t + " "@ == x + o) by {
        assert(x + " "@ + t + " "@ =~= x + (" "@ + t + " "@));
    }
    let y = x + o + s[1];
    assert(y + ");\n"@ == y + ")"@ + ";\n"@) by {
        reveal_strlit(");\n");
        reveal_strlit(")");
        reveal_strlit(";\n");
        assert(y + ");\n"@ =~= y + ")"@ + ";\n"@);
    }
}

/// `setp` sets each lane of the predicate to whether the comparison holds of that
/// lane of the operands.
pub proof fn predicates_compare(inst: Instruction)
    requires
        inst.opcode == Opcode::SetP,
    ensures
        exists|e: Expr| #[trigger]
            is_statement(inst, 2, "    p0 = "@, e, ";\n"@) && forall|env: Env| #[trigger]
                vectors(env.operands, 2) ==> e.value(env) == Seq::new(
                4,
                |i: int|
                    truth(
                        relates(comparison_number(inst), env.operands[0][i], env.operands[1][i]),
                    ),
            ),
{
    reveal_with_fuel(Expr::value, 4);
    reveal_with_fuel(Expr::is_plain, 4);
    let e = group(infix(relation_operator(inst), operand(0), operand(1)));
    assert forall|s: Seq<Seq<char>>| s.len() >= 2 implies #[trigger] flow_text(inst, s) == Ok::<
        Seq<char>,
        EmitFailure,
    >(e.behind("    p0 = "@, s) + ";\n"@) by {
        predicates_are_written(inst, s);
    }
    assert(is_statement(inst, 2, "    p0 = "@, e, ";\n"@));
    assert forall|env: Env| #[trigger] vectors(env.operands, 2) implies e.value(env) == Seq::new(
        4,
        |i: int| truth(relates(comparison_number(inst), env.operands[0][i], env.operands[1][i])),
    ) by {
        assert(e.value(env) =~= Seq::new(
            4,
            |i: int|
                truth(relates(comparison_number(inst), env.operands[0][i], env.operands[1][i])),
        ));
    }
}

/// Whether the predicate lets an instruction run: by the lane that all lanes of
/// the swizzle name, or by any lane where they name different ones. The modifier
/// for it turns the answer round.
pub open spec fn gate_is_open(pred: SrcOperand, p: Value) -> bool {
    let w = pred.swizzle.0;
    let set = if forall|i: int| 0 <= i < 4 ==> #[trigger] w[i] == w[0] {
        p[w[0] as int] != whole(0)
    } else {
        exists|i: int| 0 <= i < 4 && #[trigger] p[i] != whole(0)
    };
    if pred.modifier == SrcModifier::Not {
        !set
    } else {
        set
    }
}

/// Whether every lane of `p` is a truth value.
pub open spec fn are_truths(p: Value) -> bool {
    p.len() == 4 && forall|i: int| 0 <= i < 4 ==> #[trigger] p[i] == whole(0) || p[i] == whole(1)
}

/// The condition before a predicated instruction holds where the predicate lets it run.
pub proof fn gates_test_the_predicate(pred: SrcOperand)
    requires
        pred.swizzle.in_range(),
    ensures
        exists|e: Expr| #[trigger]
            e.is_plain(7) && gate_text(pred) == Ok::<Seq<char>, EmitFailure>(e.text(Seq::empty()))
                && forall|env: Env| #[trigger] are_truths((env.names)("p0"@)) ==> e.value(env)
                == seq![truth(gate_is_open(pred, (env.names)("p0"@)))],
{
    reveal_with_fuel(Expr::behind, 5);
    reveal_with_fuel(Expr::value, 5);
    reveal_with_fuel(Expr::is_plain, 5);
    reveal_strlit("x");
    reveal_strlit("y");
    reveal_strlit("z");
    reveal_strlit("w");
    let w = pred.swizzle.0;
    let one = w[1] == w[0] && w[2] == w[0] && w[3] == w[0];
    let base = if one {
        lanes(name("p0"@), lane(w[0]))
    } else {
        call_1(Function::Any, name("p0"@))
    };
    let e = if pred.modifier == SrcModifier::Not {
        inverted(group(base))
    } else {
        base
    };
    assert("p0."@ == Seq::empty() + "p0"@ + "."@ && "any(p0)"@ == Seq::empty() + "any("@ + "p0"@
        + ")"@ && "!("@ == Seq::empty() + "!"@ + "("@) by {
        reveal_strlit("p0.");
        reveal_strlit("p0");
        reveal_strlit(".");
        reveal_strlit("any(p0)");
        reveal_strlit("any(");
        reveal_strlit(")");
        reveal_strlit("!(");
        reveal_strlit("!");
        reveal_strlit("(");
    }
    let x = Seq::empty() + "!"@ + "("@;
    assert(x + ("p0."@ + lane(w[0])) =~= x + "p0"@ + "."@ + lane(w[0]));
    assert(x + "any(p0)"@ =~= x + "any("@ + "p0"@ + ")"@);
    assert(gate_text(pred) == Ok::<Seq<char>, EmitFailure>(e.text(Seq::empty())));
    assert(one <==> forall|i: int| 0 <= i < 4 ==> #[trigger] w[i] == w[0]) by {
        assert(w[1] == w[0] || w[1] != w[0]);
        if forall|i: int| 0 <= i < 4 ==> #[trigger] w[i] == w[0] {
            assert(w[1] == w[0] && w[2] == w[0] && w[3] == w[0]);
        }
    }
    assert forall|env: Env| #[trigger] are_truths((env.names)("p0"@)) implies e.value(env)
        == seq![truth(gate_is_open(pred, (env.names)("p0"@)))] by {
        let p = (env.names)("p0"@);
        assert(p[w[0] as int] == whole(0) || p[w[0] as int] == whole(1));
        assert(e.value(env) =~= seq![truth(gate_is_open(pred, p))]);
    }
    assert(e.is_plain(7));
}

// ---------------------------------------------------------------------------
// Loops
// ---------------------------------------------------------------------------

/// The head of a loop that runs as often as `count` says. Its counter starts at
/// `start` and grows by `step` each time.
pub open spec fn counted_loop(
    n: Seq<char>,
    start: Expr,
    step: Expr,
    count: Expr,
    s: Seq<Seq<char>>,
) -> Seq<char> {
    let counter = "aL_"@ + n;
    let by = "_aL_step_"@ + n;
    let left = "_aL_end_"@ + n;
    let a = start.behind("    for (int "@ + counter + " = "@, s);
    let b = step.behind(a + ", "@ + by + " = "@, s);
    let c = count.behind(b + ", "@ + left + " = "@, s);
    c + "; "@ + left + "-- > 0; "@ + counter + " += "@ + by + ") {\n"@
}

/// A `loop` starts its counter at the second lane of its constant, adds the third
/// one each time, and runs as often as the first one says.
pub proof fn loops_count(i: u64, c: Seq<char>)
    ensures
        exists|start: Expr, step: Expr, count: Expr, s: Seq<Seq<char>>|
            loop_text(i, c) == #[trigger] counted_loop(dec(i as nat), start, step, count, s)
                && s.len() == 1 && s[0] == c && forall|env: Env| #[trigger]
                vectors(env.operands, 1) ==> start.value(env) == seq![env.operands[0][1]]
                && step.value(env) == seq![env.operands[0][2]] && count.value(env) == seq![
                env.operands[0][0],
            ],
{
    reveal_with_fuel(Expr::behind, 4);
    reveal_with_fuel(Expr::value, 4);
    let n = dec(i as nat);
    let s = seq![c];
    let start = lanes(group(operand(0)), "y"@);
    let step = lanes(group(operand(0)), "z"@);
    let count = lanes(group(operand(0)), "x"@);
    assert("    for (int aL_"@ == "    for (int "@ + "aL_"@) by {
        reveal_strlit("    for (int aL_");
        reveal_strlit("    for (int ");
        reveal_strlit("aL_");
    }
    let h = "    for (int "@;
    assert(h + ("aL_"@ + n) =~= h + "aL_"@ + n);
    let a = h + ("aL_"@ + n);
    assert(a + " = ("@ =~= a + " = "@ + "("@) by {
        reveal_strlit(" = (");
        reveal_strlit(" = ");
        reveal_strlit("(");
    }
    let b = a + " = "@ + "("@ + c;
    assert(b + ").y, _aL_step_"@ + n =~= b + ")"@ + "."@ + "y"@ + ", "@ + ("_aL_step_"@ + n)) by {
        reveal_strlit(").y, _aL_step_");
        reveal_strlit(")");
        reveal_strlit(".");
        reveal_strlit("y");
        reveal_strlit(", ");
        reveal_strlit("_aL_step_");
    }
    let d = b + ").y, _aL_step_"@ + n;
    assert(d + " = ("@ =~= d + " = "@ + "("@) by {
        reveal_strlit(" = (");
        reveal_strlit(" = ");
        reveal_strlit("(");
    }
    let e = d + " = "@ + "("@ + c;
    assert(e + ").z, _aL_end_"@ + n =~= e + ")"@ + "."@ + "z"@ + ", "@ + ("_aL_end_"@ + n)) by {
        reveal_strlit(").z, _aL_end_");
        reveal_strlit(")");
        reveal_strlit(".");
        reveal_strlit("z");
        reveal_strlit(", ");
        reveal_strlit("_aL_end_");
    }
    let f = e + ").z, _aL_end_"@ + n;
    assert(f + " = ("@ =~= f + " = "@ + "("@) by {
        reveal_strlit(" = (");
        reveal_strlit(" = ");
        reveal_strlit("(");
    }
    let g = f + " = "@ + "("@ + c;
    assert(g + ").x; _aL_end_"@ + n =~= g + ")"@ + "."@ + "x"@ + "; "@ + ("_aL_end_"@ + n)) by {
        reveal_strlit(").x; _aL_end_");
        reveal_strlit(")");
        reveal_strlit(".");
        reveal_strlit("x");
        reveal_strlit("; ");
        reveal_strlit("_aL_end_");
    }
    let k = g + ").x; _aL_end_"@ + n;
    assert(k + "-- > 0; aL_"@ + n =~= k + "-- > 0; "@ + ("aL_"@ + n)) by {
        reveal_strlit("-- > 0; aL_");
        reveal_strlit("-- > 0; ");
        reveal_strlit("aL_");
    }
    let l = k + "-- > 0; aL_"@ + n;
    assert(l + " += _aL_step_"@ + n =~= l + " += "@ + ("_aL_step_"@ + n)) by {
        reveal_strlit(" += _aL_step_");
        reveal_strlit(" += ");
        reveal_strlit("_aL_step_");
    }
    assert(loop_text(i, c) == counted_loop(n, start, step, count, s));
    reveal_strlit("x");
    reveal_strlit("y");
    reveal_strlit("z");
    assert forall|env: Env| #[trigger] vectors(env.operands, 1) implies start.value(env) == seq![
        env.operands[0][1],
    ] && step.value(env) == seq![env.operands[0][2]] && count.value(env) == seq![
        env.operands[0][0],
    ] by {
        assert(start.value(env) =~= seq![env.operands[0][1]]);
        assert(step.value(env) =~= seq![env.operands[0][2]]);
        assert(count.value(env) =~= seq![env.operands[0][0]]);
    }
}

} // verus!
