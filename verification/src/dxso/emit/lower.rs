//! Lowering of instructions to statements.

use crate::dxso::emit::arith::{
    arith_expr, arith_text, arity, cnd_expr, cnd_text, emit_matmul, matmul_text, matrix_shape,
    operand_arity,
};
use crate::dxso::emit::context::EmitContext;
use crate::dxso::emit::error::{emits, EmitError, EmitFailure, Emitted};
use crate::dxso::emit::operands::{
    address_text, gate_text, load_src, predicate_gate_expr, src_text, store_dst, store_text,
    write_address_register,
};
use crate::dxso::emit::texture::{
    is_texture_statement, is_texture_value, missing, texture_statement, texture_statement_text,
    texture_value_expr, texture_value_text, undefined,
};
use crate::dxso::ir::{DxsoProgram, Instruction, RegKind, SrcOperand};
use crate::dxso::opcode::Opcode;
use crate::text::{
    appending_keeps_the_start, dec, decimal, every_text_starts_with_itself, starts_compose,
    starts_with, views,
};
use vstd::prelude::*;

verus! {

broadcast use vstd::std_specs::btree::group_btree_axioms;

// ---------------------------------------------------------------------------
// Operands
// ---------------------------------------------------------------------------

/// The texts of the operands from `i` on, after `acc`. A sampler operand has
/// none: only its register number is used.
pub open spec fn operands_from(
    srcs: Seq<SrcOperand>,
    i: nat,
    ctx: EmitContext,
    loops: Seq<Option<u64>>,
    acc: Seq<Seq<char>>,
) -> Result<Seq<Seq<char>>, EmitFailure>
    decreases srcs.len() - i,
{
    if i >= srcs.len() {
        Ok(acc)
    } else if srcs[i as int].reg.kind == RegKind::Sampler {
        operands_from(srcs, i + 1, ctx, loops, acc.push(Seq::empty()))
    } else {
        match src_text(srcs[i as int], ctx, loops) {
            Err(e) => Err(e),
            Ok(t) => operands_from(srcs, i + 1, ctx, loops, acc.push(t)),
        }
    }
}

/// The texts of the operands of `inst`.
pub open spec fn operand_texts(
    inst: Instruction,
    ctx: EmitContext,
    loops: Seq<Option<u64>>,
) -> Result<Seq<Seq<char>>, EmitFailure> {
    operands_from(inst.srcs@, 0, ctx, loops, Seq::empty())
}

fn load_operands(inst: &Instruction, ctx: &EmitContext, loops: &Vec<Option<u64>>) -> (r: Result<
    Vec<String>,
    EmitError,
>)
    ensures
        match r {
            Ok(v) => {
                &&& v.len() == inst.srcs.len()
                &&& operand_texts(*inst, *ctx, loops@) == Ok::<Seq<Seq<char>>, EmitFailure>(
                    views(v@),
                )
            },
            Err(e) => operand_texts(*inst, *ctx, loops@) == Err::<Seq<Seq<char>>, EmitFailure>(e@),
        },
{
    let mut v: Vec<String> = Vec::new();
    let mut i: usize = 0;
    assert(views(v@) =~= Seq::empty());
    while i < inst.srcs.len()
        invariant
            i == v.len(),
            i <= inst.srcs.len(),
            operand_texts(*inst, *ctx, loops@) == operands_from(
                inst.srcs@,
                i as nat,
                *ctx,
                loops@,
                views(v@),
            ),
        decreases inst.srcs.len() - i,
    {
        let ghost before = views(v@);
        let text: String = if inst.srcs[i].reg.kind == RegKind::Sampler {
            String::new()
        } else {
            load_src(&inst.srcs[i], ctx, loops)?
        };
        v.push(text);
        assert(views(v@) =~= before.push(text@));
        i = i + 1;
    }
    Ok(v)
}

// ---------------------------------------------------------------------------
// Values
// ---------------------------------------------------------------------------

/// The value that `inst` computes for its destination.
pub open spec fn value_text(
    inst: Instruction,
    s: Seq<Seq<char>>,
    ctx: EmitContext,
    loops: Seq<Option<u64>>,
) -> Emitted {
    match inst.opcode {
        Opcode::Cnd => if s.len() < 3 {
            undefined()
        } else {
            Ok(cnd_text(inst, s, ctx.prog.major, ctx.prog.minor))
        },
        Opcode::M4x4 | Opcode::M4x3 | Opcode::M3x4 | Opcode::M3x3 | Opcode::M3x2 => if s.len()
            < 2 {
            undefined()
        } else {
            matmul_text(s[0], inst.srcs@[1], matrix_shape(inst.opcode), ctx, loops)
        },
        _ => if is_texture_value(inst.opcode) {
            texture_value_text(inst, s, ctx, loops)
        } else if s.len() < arity(inst.opcode) {
            undefined()
        } else {
            Ok(arith_text(inst.opcode, s))
        },
    }
}

/// Whether `inst` computes a value for its destination.
pub open spec fn is_value_op(op: Opcode) -> bool {
    match op {
        Opcode::Cnd
        | Opcode::M4x4
        | Opcode::M4x3
        | Opcode::M3x4
        | Opcode::M3x3
        | Opcode::M3x2 => true,
        _ => is_texture_value(op) || arity(op) > 0,
    }
}

/// The number of operands without which `op` has no value, whatever else it
/// reads. The texture ops look at their operands themselves.
fn value_arity(op: Opcode) -> (r: usize)
    ensures
        r == match op {
            Opcode::Cnd => 3,
            Opcode::M4x4 | Opcode::M4x3 | Opcode::M3x4 | Opcode::M3x3 | Opcode::M3x2 => 2,
            _ => arity(op),
        },
{
    match op {
        Opcode::Cnd => 3,
        Opcode::M4x4 | Opcode::M4x3 | Opcode::M3x4 | Opcode::M3x3 | Opcode::M3x2 => 2,
        _ => operand_arity(op),
    }
}

fn value_expr(
    inst: &Instruction,
    s: &Vec<String>,
    ctx: &EmitContext,
    loops: &Vec<Option<u64>>,
) -> (r: Result<String, EmitError>)
    requires
        is_value_op(inst.opcode),
        s.len() == inst.srcs.len(),
    ensures
        emits(r, value_text(*inst, views(s@), *ctx, loops@)),
{
    if s.len() < value_arity(inst.opcode) {
        return Err(EmitError::Incomplete);
    }
    match inst.opcode {
        Opcode::Cnd => Ok(cnd_expr(inst, s, ctx.prog.major, ctx.prog.minor)),
        Opcode::M4x4 => emit_matmul(s[0].as_str(), &inst.srcs[1], 4, 4, ctx, loops),
        Opcode::M4x3 => emit_matmul(s[0].as_str(), &inst.srcs[1], 4, 3, ctx, loops),
        Opcode::M3x4 => emit_matmul(s[0].as_str(), &inst.srcs[1], 3, 4, ctx, loops),
        Opcode::M3x3 => emit_matmul(s[0].as_str(), &inst.srcs[1], 3, 3, ctx, loops),
        Opcode::M3x2 => emit_matmul(s[0].as_str(), &inst.srcs[1], 3, 2, ctx, loops),
        Opcode::TexCoord
        | Opcode::TexLd
        | Opcode::TexLdL
        | Opcode::TexLdD
        | Opcode::Bem
        | Opcode::TexReg2Ar
        | Opcode::TexReg2Gb
        | Opcode::TexReg2Rgb
        | Opcode::TexM3x2Pad
        | Opcode::TexM3x3Pad
        | Opcode::TexM3x2Tex
        | Opcode::TexM3x3
        | Opcode::TexM3x3Tex
        | Opcode::TexM3x3Spec
        | Opcode::TexM3x3VSpec
        | Opcode::TexDp3
        | Opcode::TexDp3Tex => texture_value_expr(inst, s, ctx, loops),
        _ => Ok(arith_expr(inst.opcode, s)),
    }
}

/// The statement that writes `value` to the destination of `inst`.
///
/// A vertex shader's plain write to the address register floors the value. A
/// predicated write is guarded by its predicate.
pub open spec fn finish_text(inst: Instruction, value: Seq<char>, ctx: EmitContext) -> Emitted {
    match inst.dst {
        None => Ok(""@),
        Some(dst) => if dst.reg.kind == RegKind::Addr && ctx.is_vertex {
            Ok(address_text(dst, value, true))
        } else {
            match inst.predicate {
                None => store_text(dst, value, ctx),
                Some(pred) => match gate_text(pred) {
                    Err(e) => Err(e),
                    Ok(gate) => match store_text(dst, value, ctx) {
                        Err(e) => Err(e),
                        Ok(store) => Ok("    if ("@ + gate + ") {\n"@ + store + "    }\n"@),
                    },
                },
            }
        },
    }
}

fn finish_stmt(inst: &Instruction, value: &str, ctx: &EmitContext) -> (r: Result<String, EmitError>)
    ensures
        emits(r, finish_text(*inst, value@, *ctx)),
{
    match inst.dst {
        None => Ok("".to_owned()),
        Some(dst) => {
            if dst.reg.kind == RegKind::Addr && ctx.is_vertex {
                return Ok(write_address_register(dst, value, true));
            }
            match &inst.predicate {
                None => store_dst(dst, value, ctx),
                Some(pred) => {
                    if pred.swizzle.0[0] >= 4 {
                        return Err(EmitError::Incomplete);
                    }
                    let gate = predicate_gate_expr(pred);
                    let store = store_dst(dst, value, ctx)?;
                    Ok("    if (".to_owned()
                        .concat(gate.as_str())
                        .concat(") {\n")
                        .concat(store.as_str())
                        .concat("    }\n"))
                },
            }
        },
    }
}

// ---------------------------------------------------------------------------
// Statements
// ---------------------------------------------------------------------------

/// The operator of the comparison that `inst` carries; equality where it
/// carries none.
pub open spec fn comparison_text(inst: Instruction) -> Seq<char> {
    match inst.cmp_func {
        Some(f) => f.operator(),
        None => "=="@,
    }
}

fn comparison_str(inst: &Instruction) -> (r: &'static str)
    ensures
        r@ == comparison_text(*inst),
{
    match inst.cmp_func {
        Some(f) => f.op(),
        None => "==",
    }
}

/// Whether `op` is flow control without a scope of its own, or sets the
/// predicate.
pub open spec fn is_flow_op(op: Opcode) -> bool {
    match op {
        Opcode::Nop
        | Opcode::Ret
        | Opcode::If
        | Opcode::Ifc
        | Opcode::Else
        | Opcode::EndIf
        | Opcode::Break
        | Opcode::BreakC
        | Opcode::BreakP
        | Opcode::SetP => true,
        _ => false,
    }
}

/// The statement of a flow-control instruction.
pub open spec fn flow_text(inst: Instruction, s: Seq<Seq<char>>) -> Emitted {
    match inst.opcode {
        Opcode::Nop | Opcode::Ret => Ok(""@),
        Opcode::If => if s.len() < 1 {
            undefined()
        } else {
            Ok("    if (("@ + s[0] + ").x != 0.0) {\n"@)
        },
        Opcode::Ifc => if s.len() < 2 {
            undefined()
        } else {
            Ok("    if (("@ + s[0] + ").x "@ + comparison_text(inst) + " ("@ + s[1] + ").x) {\n"@)
        },
        Opcode::Else => Ok("    } else {\n"@),
        Opcode::EndIf => Ok("    }\n"@),
        Opcode::Break => Ok("    break;\n"@),
        Opcode::BreakC => if s.len() < 2 {
            undefined()
        } else {
            Ok("    if (("@ + s[0] + ").x "@ + comparison_text(inst) + " ("@ + s[1]
                + ").x) break;\n"@)
        },
        Opcode::BreakP => match inst.predicate {
            None => missing("breakp without predicate operand"@),
            Some(pred) => match gate_text(pred) {
                Err(e) => Err(e),
                Ok(gate) => Ok("    if ("@ + gate + ") break;\n"@),
            },
        },
        _ => if s.len() < 2 {
            undefined()
        } else {
            Ok("    p0 = ("@ + s[0] + " "@ + comparison_text(inst) + " "@ + s[1] + ");\n"@)
        },
    }
}

fn flow_stmt(inst: &Instruction, s: &Vec<String>) -> (r: Result<String, EmitError>)
    ensures
        emits(r, flow_text(*inst, views(s@))),
{
    let op = comparison_str(inst);
    let needed: usize = match inst.opcode {
        Opcode::Nop
        | Opcode::Ret
        | Opcode::Else
        | Opcode::EndIf
        | Opcode::Break
        | Opcode::BreakP => 0,
        Opcode::If => 1,
        _ => 2,
    };
    if s.len() < needed {
        return Err(EmitError::Incomplete);
    }
    match inst.opcode {
        Opcode::Nop | Opcode::Ret => Ok("".to_owned()),
        Opcode::If => Ok("    if ((".to_owned().concat(s[0].as_str()).concat(").x != 0.0) {\n")),
        Opcode::Ifc => Ok("    if ((".to_owned()
            .concat(s[0].as_str())
            .concat(").x ")
            .concat(op)
            .concat(" (")
            .concat(s[1].as_str())
            .concat(").x) {\n")),
        Opcode::Else => Ok("    } else {\n".to_owned()),
        Opcode::EndIf => Ok("    }\n".to_owned()),
        Opcode::Break => Ok("    break;\n".to_owned()),
        Opcode::BreakC => Ok("    if ((".to_owned()
            .concat(s[0].as_str())
            .concat(").x ")
            .concat(op)
            .concat(" (")
            .concat(s[1].as_str())
            .concat(").x) break;\n")),
        Opcode::BreakP => match &inst.predicate {
            None => Err(
                EmitError::UnsupportedInstruction("breakp without predicate operand".to_owned()),
            ),
            Some(pred) => {
                if pred.swizzle.0[0] >= 4 {
                    return Err(EmitError::Incomplete);
                }
                let gate = predicate_gate_expr(pred);
                Ok("    if (".to_owned().concat(gate.as_str()).concat(") break;\n"))
            },
        },
        _ => Ok("    p0 = (".to_owned()
            .concat(s[0].as_str())
            .concat(" ")
            .concat(op)
            .concat(" ")
            .concat(s[1].as_str())
            .concat(");\n")),
    }
}

/// The statement of `mova`.
pub open spec fn mova_text(inst: Instruction, s: Seq<Seq<char>>) -> Emitted {
    match inst.dst {
        None => missing("MovA without dst"@),
        Some(dst) => if s.len() < 1 {
            undefined()
        } else {
            Ok(address_text(dst, s[0], false))
        },
    }
}

/// The name of an opcode that has no lowering.
pub open spec fn unlowered_name(op: Opcode) -> Option<Seq<char>> {
    match op {
        Opcode::Label => Some("Label"@),
        Opcode::Dcl => Some("Dcl"@),
        Opcode::DefB => Some("DefB"@),
        Opcode::DefI => Some("DefI"@),
        Opcode::Def => Some("Def"@),
        Opcode::Phase => Some("Phase"@),
        Opcode::End => Some("End"@),
        Opcode::Comment => Some("Comment"@),
        _ => None,
    }
}

fn unlowered_str(op: Opcode) -> (r: Option<&'static str>)
    ensures
        match (r, unlowered_name(op)) {
            (Some(s), Some(t)) => s@ == t,
            (None, None) => true,
            _ => false,
        },
{
    match op {
        Opcode::Label => Some("Label"),
        Opcode::Dcl => Some("Dcl"),
        Opcode::DefB => Some("DefB"),
        Opcode::DefI => Some("DefI"),
        Opcode::Def => Some("Def"),
        Opcode::Phase => Some("Phase"),
        Opcode::End => Some("End"),
        Opcode::Comment => Some("Comment"),
        _ => None,
    }
}

/// The statements of an instruction that neither opens nor closes a loop and
/// calls no subroutine.
pub open spec fn plain_text(
    inst: Instruction,
    s: Seq<Seq<char>>,
    ctx: EmitContext,
    loops: Seq<Option<u64>>,
) -> Emitted {
    if is_flow_op(inst.opcode) {
        flow_text(inst, s)
    } else if is_texture_statement(inst.opcode) {
        texture_statement_text(inst, s, ctx, loops)
    } else if inst.opcode == Opcode::MovA {
        mova_text(inst, s)
    } else {
        match unlowered_name(inst.opcode) {
            Some(name) => missing(name),
            None => match value_text(inst, s, ctx, loops) {
                Err(e) => Err(e),
                Ok(value) => finish_text(inst, value, ctx),
            },
        }
    }
}

/// Whether `op` opens or closes a loop or calls a subroutine.
pub open spec fn is_scope_op(op: Opcode) -> bool {
    match op {
        Opcode::Loop
        | Opcode::Rep
        | Opcode::EndLoop
        | Opcode::EndRep
        | Opcode::Call
        | Opcode::CallNz => true,
        _ => false,
    }
}

fn plain_stmt(
    inst: &Instruction,
    s: &Vec<String>,
    ctx: &EmitContext,
    loops: &Vec<Option<u64>>,
) -> (r: Result<String, EmitError>)
    requires
        !is_scope_op(inst.opcode),
        s.len() == inst.srcs.len(),
    ensures
        emits(r, plain_text(*inst, views(s@), *ctx, loops@)),
{
    match inst.opcode {
        Opcode::Nop
        | Opcode::Ret
        | Opcode::If
        | Opcode::Ifc
        | Opcode::Else
        | Opcode::EndIf
        | Opcode::Break
        | Opcode::BreakC
        | Opcode::BreakP
        | Opcode::SetP => flow_stmt(inst, s),
        Opcode::TexKill
        | Opcode::TexBem
        | Opcode::TexBemL
        | Opcode::TexM3x2Depth
        | Opcode::TexDepth => texture_statement(inst, s, ctx, loops),
        Opcode::MovA => match inst.dst {
            None => Err(EmitError::UnsupportedInstruction("MovA without dst".to_owned())),
            Some(dst) => {
                if s.len() < 1 {
                    return Err(EmitError::Incomplete);
                }
                Ok(write_address_register(dst, s[0].as_str(), false))
            },
        },
        _ => {
            if let Some(name) = unlowered_str(inst.opcode) {
                return Err(EmitError::UnsupportedInstruction(name.to_owned()));
            }
            let value = value_expr(inst, s, ctx, loops)?;
            finish_stmt(inst, value.as_str(), ctx)
        },
    }
}

// ---------------------------------------------------------------------------
// Bodies
// ---------------------------------------------------------------------------

/// The translation so far.
pub struct LowerState {
    pub out: Seq<char>,
    /// The open loops, outermost first: the counter of a `loop`, `None` for a
    /// `rep`.
    pub loops: Seq<Option<u64>>,
    /// The counter that the next `loop` takes.
    pub next_al: u64,
}

impl LowerState {
    /// The state with `text` appended.
    pub open spec fn append(self, text: Seq<char>) -> LowerState {
        LowerState { out: self.out + text, ..self }
    }
}

/// The counter after `i`.
pub open spec fn counter_after(i: u64) -> u64 {
    if i == u64::MAX {
        0
    } else {
        (i + 1) as u64
    }
}

/// The head of a `loop` with counter `i` and limits `c`.
pub open spec fn loop_text(i: u64, c: Seq<char>) -> Seq<char> {
    let n = dec(i as nat);
    "    for (int aL_"@ + n + " = ("@ + c + ").y, _aL_step_"@ + n + " = ("@ + c
        + ").z, _aL_end_"@ + n + " = ("@ + c + ").x; _aL_end_"@ + n + "-- > 0; aL_"@ + n
        + " += _aL_step_"@ + n + ") {\n"@
}

/// The head of a `rep` inside `depth` open loops with limits `c`.
pub open spec fn rep_text(depth: nat, c: Seq<char>) -> Seq<char> {
    let n = dec(depth);
    "    for (int _rep_"@ + n + " = 0; _rep_"@ + n + " < ("@ + c + ").x; ++_rep_"@ + n + ") {\n"@
}

fn loop_head(i: u64, c: &str) -> (r: String)
    ensures
        r@ == loop_text(i, c@),
{
    let d = decimal(i);
    let n = d.as_str();
    "    for (int aL_".to_owned()
        .concat(n)
        .concat(" = (")
        .concat(c)
        .concat(").y, _aL_step_")
        .concat(n)
        .concat(" = (")
        .concat(c)
        .concat(").z, _aL_end_")
        .concat(n)
        .concat(" = (")
        .concat(c)
        .concat(").x; _aL_end_")
        .concat(n)
        .concat("-- > 0; aL_")
        .concat(n)
        .concat(" += _aL_step_")
        .concat(n)
        .concat(") {\n")
}

fn rep_head(depth: u64, c: &str) -> (r: String)
    ensures
        r@ == rep_text(depth as nat, c@),
{
    let d = decimal(depth);
    let n = d.as_str();
    "    for (int _rep_".to_owned()
        .concat(n)
        .concat(" = 0; _rep_")
        .concat(n)
        .concat(" < (")
        .concat(c)
        .concat(").x; ++_rep_")
        .concat(n)
        .concat(") {\n")
}

/// The labels that are not being expanded.
pub open spec fn free_labels(prog: DxsoProgram, expanding: Seq<u32>) -> Set<u32> {
    prog.subroutines@.dom().difference(expanding.to_set())
}

/// Expanding a further label leaves fewer labels free.
pub proof fn free_labels_shrink(prog: DxsoProgram, expanding: Seq<u32>, label: u32)
    requires
        prog.subroutines@.contains_key(label),
        !expanding.contains(label),
    ensures
        free_labels(prog, expanding.push(label)).len() < free_labels(prog, expanding).len(),
{
    let before = free_labels(prog, expanding);
    let after = free_labels(prog, expanding.push(label));
    assert(before.contains(label));
    assert forall|l: u32| expanding.push(label).contains(l) <==> expanding.contains(l) || l
        == label by {
        if expanding.contains(l) {
            let k = choose|k: int| 0 <= k < expanding.len() && expanding[k] == l;
            assert(expanding.push(label)[k] == l);
        }
        assert(expanding.push(label)[expanding.len() as int] == label);
    }
    assert(after =~= before.remove(label));
    assert(before.finite());
}

/// The state after `inst`.
///
/// A `call` is replaced by the body of its subroutine; a call of a label that
/// does not exist, or that is being expanded already, is dropped.
pub open spec fn lowered(
    inst: Instruction,
    ctx: EmitContext,
    expanding: Seq<u32>,
    st: LowerState,
) -> Result<LowerState, EmitFailure>
    decreases free_labels(*ctx.prog, expanding).len(), 0nat, 1nat,
{
    match operand_texts(inst, ctx, st.loops) {
        Err(e) => Err(e),
        Ok(s) => match inst.opcode {
            Opcode::Call => if s.len() < 1 {
                Err(EmitFailure::Undefined)
            } else {
                expanded(inst.srcs@[0].reg.index as u32, ctx, expanding, st)
            },
            Opcode::CallNz => if s.len() < 2 {
                Err(EmitFailure::Undefined)
            } else {
                let head = "    if (("@ + s[1] + ").x != 0.0) {\n"@;
                match expanded(inst.srcs@[0].reg.index as u32, ctx, expanding, st.append(head)) {
                    Err(e) => Err(e),
                    Ok(t) => Ok(t.append("    }\n"@)),
                }
            },
            Opcode::Loop => if s.len() < 2 {
                Err(EmitFailure::Undefined)
            } else {
                Ok(
                    LowerState {
                        out: st.out + loop_text(st.next_al, s[1]),
                        loops: st.loops.push(Some(st.next_al)),
                        next_al: counter_after(st.next_al),
                    },
                )
            },
            Opcode::Rep => if s.len() < 1 {
                Err(EmitFailure::Undefined)
            } else {
                Ok(
                    LowerState {
                        out: st.out + rep_text(st.loops.len(), s[0]),
                        loops: st.loops.push(None),
                        ..st
                    },
                )
            },
            Opcode::EndLoop | Opcode::EndRep => Ok(
                LowerState {
                    out: st.out + "    }\n"@,
                    loops: if st.loops.len() > 0 {
                        st.loops.drop_last()
                    } else {
                        st.loops
                    },
                    ..st
                },
            ),
            _ => match plain_text(inst, s, ctx, st.loops) {
                Err(e) => Err(e),
                Ok(text) => Ok(st.append(text)),
            },
        },
    }
}

/// The state after the instructions of `body` from `i` on.
pub open spec fn lowered_from(
    body: Seq<Instruction>,
    i: nat,
    ctx: EmitContext,
    expanding: Seq<u32>,
    st: LowerState,
) -> Result<LowerState, EmitFailure>
    decreases free_labels(*ctx.prog, expanding).len(), (body.len() - i) as nat, 0nat,
{
    if i >= body.len() {
        Ok(st)
    } else {
        match lowered(body[i as int], ctx, expanding, st) {
            Err(e) => Err(e),
            Ok(next) => lowered_from(body, i + 1, ctx, expanding, next),
        }
    }
}

/// The state after a call of `label`.
pub open spec fn expanded(
    label: u32,
    ctx: EmitContext,
    expanding: Seq<u32>,
    st: LowerState,
) -> Result<LowerState, EmitFailure>
    decreases free_labels(*ctx.prog, expanding).len(), 0nat, 0nat,
{
    if !ctx.prog.subroutines@.contains_key(label) || expanding.contains(label) {
        Ok(st)
    } else {
        proof {
            free_labels_shrink(*ctx.prog, expanding, label);
        }
        lowered_from(ctx.prog.subroutines@[label]@, 0, ctx, expanding.push(label), st)
    }
}

/// A translation under construction.
pub struct Lowering {
    pub out: String,
    pub loops: Vec<Option<u64>>,
    pub next_al: u64,
}

impl View for Lowering {
    type V = LowerState;

    open spec fn view(&self) -> LowerState {
        LowerState { out: self.out@, loops: self.loops@, next_al: self.next_al }
    }
}

/// Whether `op` is replaced by the body of a subroutine.
pub open spec fn expands(op: Opcode) -> bool {
    op == Opcode::Call || op == Opcode::CallNz
}

/// Whether a lowering step ended as `e` says.
pub open spec fn steps(
    r: Result<(), EmitError>,
    after: LowerState,
    e: Result<LowerState, EmitFailure>,
) -> bool {
    match r {
        Ok(_) => e == Ok::<LowerState, EmitFailure>(after),
        Err(f) => e == Err::<LowerState, EmitFailure>(f@),
    }
}

pub(crate) fn is_expanding(expanding: &Vec<u32>, label: u32) -> (r: bool)
    ensures
        r == expanding@.contains(label),
{
    let mut i: usize = 0;
    while i < expanding.len()
        invariant
            i <= expanding.len(),
            forall|k: int| 0 <= k < i ==> expanding@[k] != label,
        decreases expanding.len() - i,
    {
        if expanding[i] == label {
            return true;
        }
        i = i + 1;
    }
    false
}

impl Lowering {
    /// Appends the statements of `inst`. What is there stays, and an instruction
    /// that fails appends nothing, unless it is a call.
    pub fn translate_instruction(
        &mut self,
        inst: &Instruction,
        ctx: &EmitContext,
        expanding: &mut Vec<u32>,
    ) -> (r: Result<(), EmitError>)
        ensures
            steps(r, final(self)@, lowered(*inst, *ctx, old(expanding)@, old(self)@)),
            starts_with(final(self)@.out, old(self)@.out),
            r is Err && !expands(inst.opcode) ==> final(self)@ == old(self)@,
            r is Ok ==> final(expanding)@ == old(expanding)@,
        decreases free_labels(*ctx.prog, old(expanding)@).len(), 0nat, 1nat,
    {
        let ghost before = self@.out;
        proof {
            every_text_starts_with_itself(before);
        }
        let s = load_operands(inst, ctx, &self.loops)?;
        let needed: usize = match inst.opcode {
            Opcode::Call | Opcode::Rep => 1,
            Opcode::CallNz | Opcode::Loop => 2,
            _ => 0,
        };
        if s.len() < needed {
            return Err(EmitError::Incomplete);
        }
        match inst.opcode {
            Opcode::Call => self.expand_subroutine(
                inst.srcs[0].reg.index as u32,
                ctx,
                expanding,
            ),
            Opcode::CallNz => {
                let head = "    if ((".to_owned().concat(s[1].as_str()).concat(").x != 0.0) {\n");
                self.out.append(head.as_str());
                let ghost opened = self@.out;
                let r = self.expand_subroutine(inst.srcs[0].reg.index as u32, ctx, expanding);
                proof {
                    appending_keeps_the_start(before, head@, before);
                    starts_compose(before, opened, self@.out);
                    appending_keeps_the_start(self@.out, "    }\n"@, before);
                }
                r?;
                self.out.append("    }\n");
                Ok(())
            },
            Opcode::Loop => {
                let counter: u64 = self.next_al;
                let head = loop_head(counter, s[1].as_str());
                self.out.append(head.as_str());
                proof {
                    appending_keeps_the_start(before, head@, before);
                }
                self.loops.push(Some(counter));
                self.next_al = if counter == u64::MAX { 0 } else { counter + 1 };
                Ok(())
            },
            Opcode::Rep => {
                let head = rep_head(self.loops.len() as u64, s[0].as_str());
                self.out.append(head.as_str());
                proof {
                    appending_keeps_the_start(before, head@, before);
                }
                self.loops.push(None);
                Ok(())
            },
            Opcode::EndLoop | Opcode::EndRep => {
                if self.loops.len() > 0 {
                    self.loops.pop();
                }
                self.out.append("    }\n");
                proof {
                    appending_keeps_the_start(before, "    }\n"@, before);
                }
                Ok(())
            },
            _ => {
                let text = plain_stmt(inst, &s, ctx, &self.loops)?;
                self.out.append(text.as_str());
                proof {
                    appending_keeps_the_start(before, text@, before);
                }
                Ok(())
            },
        }
    }

    /// Appends the statements of `body`. Where one of them fails, those before
    /// it have been appended.
    pub fn translate_body(
        &mut self,
        body: &Vec<Instruction>,
        ctx: &EmitContext,
        expanding: &mut Vec<u32>,
    ) -> (r: Result<(), EmitError>)
        ensures
            steps(r, final(self)@, lowered_from(body@, 0, *ctx, old(expanding)@, old(self)@)),
            starts_with(final(self)@.out, old(self)@.out),
            r is Ok ==> final(expanding)@ == old(expanding)@,
        decreases free_labels(*ctx.prog, old(expanding)@).len(), (body.len() + 1) as nat, 0nat,
    {
        let ghost start = self@;
        let ghost labels = expanding@;
        proof {
            every_text_starts_with_itself(start.out);
        }
        let mut i: usize = 0;
        while i < body.len()
            invariant
                i <= body.len(),
                expanding@ == labels,
                labels == old(expanding)@,
                starts_with(self@.out, start.out),
                start == old(self)@,
                lowered_from(body@, 0, *ctx, labels, start) == lowered_from(
                    body@,
                    i as nat,
                    *ctx,
                    labels,
                    self@,
                ),
            decreases body.len() - i,
        {
            let ghost before = self@.out;
            let r = self.translate_instruction(&body[i], ctx, expanding);
            proof {
                starts_compose(start.out, before, self@.out);
            }
            r?;
            i = i + 1;
        }
        Ok(())
    }

    /// Appends the body of subroutine `label`. A label without a body, or one
    /// that is being expanded, appends nothing.
    fn expand_subroutine(
        &mut self,
        label: u32,
        ctx: &EmitContext,
        expanding: &mut Vec<u32>,
    ) -> (r: Result<(), EmitError>)
        ensures
            steps(r, final(self)@, expanded(label, *ctx, old(expanding)@, old(self)@)),
            starts_with(final(self)@.out, old(self)@.out),
            r is Ok ==> final(expanding)@ == old(expanding)@,
        decreases free_labels(*ctx.prog, old(expanding)@).len(), 0nat, 0nat,
    {
        proof {
            every_text_starts_with_itself(self@.out);
        }
        match ctx.prog.subroutines.get(&label) {
            None => Ok(()),
            Some(body) => {
                if is_expanding(expanding, label) {
                    return Ok(());
                }
                proof {
                    free_labels_shrink(*ctx.prog, expanding@, label);
                }
                expanding.push(label);
                self.translate_body(body, ctx, expanding)?;
                expanding.pop();
                assert(expanding@ =~= old(expanding)@);
                Ok(())
            },
        }
    }
}

} // verus!
