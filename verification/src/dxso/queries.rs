//! Questions that the device asks of a parsed program.

use crate::dxso::ir::{
    DeclUsage, Declaration, DefIntConstant, Definition, DxsoProgram, Instruction, RegKind,
    ShaderType, SrcOperand,
};
use crate::dxso::opcode::Opcode;
use vstd::prelude::*;

verus! {

broadcast use vstd::std_specs::btree::group_btree_axioms;

/// The rows of the constant matrix that an opcode reads from its second
/// source on; 1 for an opcode that reads no matrix.
pub open spec fn matrix_rows(op: Opcode) -> u16 {
    match op {
        Opcode::M4x4 | Opcode::M3x4 => 4,
        Opcode::M4x3 | Opcode::M3x3 => 3,
        Opcode::M3x2 => 2,
        _ => 1,
    }
}

/// The number of consecutive constants that source `j` of `inst` reads.
pub open spec fn const_span(inst: Instruction, j: int) -> int {
    if j == 1 {
        matrix_rows(inst.opcode) as int
    } else {
        1
    }
}

/// Whether no constant that a source of `body` reads lies past the end of the
/// 16-bit index range.
pub open spec fn const_spans_fit(body: Seq<Instruction>) -> bool {
    forall|i: int, j: int|
        0 <= i < body.len() && 0 <= j < body[i].srcs.len() && (#[trigger] body[i].srcs@[j]).reg.kind
            == RegKind::Const ==> body[i].srcs@[j].reg.index + const_span(body[i], j) <= u16::MAX
}

/// `m` is the greatest number with property `p`, or `None` where none has it.
pub open spec fn is_greatest(m: Option<u16>, p: spec_fn(int) -> bool) -> bool {
    match m {
        None => forall|x: int| !(#[trigger] p(x)),
        Some(m) => p(m as int) && forall|x: int| #[trigger] p(x) ==> x <= m,
    }
}

/// A source position of a body that comes before `(i, j)`.
pub open spec fn source_before(body: Seq<Instruction>, a: int, b: int, i: int, j: int) -> bool {
    &&& 0 <= a < body.len()
    &&& 0 <= b < body[a].srcs.len()
    &&& a < i || (a == i && b < j)
}

fn matrix_row_count(op: Opcode) -> (r: u16)
    ensures
        r == matrix_rows(op),
{
    match op {
        Opcode::M4x4 | Opcode::M3x4 => 4,
        Opcode::M4x3 | Opcode::M3x3 => 3,
        Opcode::M3x2 => 2,
        _ => 1,
    }
}

fn greater(a: Option<u16>, b: u16) -> (r: u16)
    ensures
        r >= b,
        a is Some ==> r >= a->0,
        r == b || a == Some(r),
{
    match a {
        Some(m) => if m >= b { m } else { b },
        None => b,
    }
}

/// The last register that source `j` of `inst` reads, of consecutive ones where
/// `spans` says so.
pub open spec fn last_read(inst: Instruction, j: int, spans: bool) -> int {
    inst.srcs@[j].reg.index + if spans {
        const_span(inst, j) - 1
    } else {
        0
    }
}

/// Whether `x` is the last register of file `kind` that some source of `body`
/// reads.
pub open spec fn reads_last(body: Seq<Instruction>, kind: RegKind, spans: bool, x: int) -> bool {
    exists|i: int, j: int|
        0 <= i < body.len() && 0 <= j < body[i].srcs.len() && (#[trigger] body[i].srcs@[j]).reg.kind
            == kind && last_read(body[i], j, spans) == x
}

fn greatest_read(body: &Vec<Instruction>, kind: RegKind, spans: bool) -> (max: Option<u16>)
    requires
        spans ==> kind == RegKind::Const && const_spans_fit(body@),
    ensures
        is_greatest(max, |x: int| reads_last(body@, kind, spans, x)),
{
    let mut max: Option<u16> = None;
    let mut i: usize = 0;
    while i < body.len()
        invariant
            i <= body.len(),
            spans ==> kind == RegKind::Const && const_spans_fit(body@),
            match max {
                None => forall|a: int, b: int| #[trigger]
                    source_before(body@, a, b, i as int, 0) ==> body@[a].srcs@[b].reg.kind != kind,
                Some(m) => reads_last(body@, kind, spans, m as int) && forall|a: int, b: int|
                    #[trigger]
                    source_before(body@, a, b, i as int, 0) && body@[a].srcs@[b].reg.kind == kind
                        ==> last_read(body@[a], b, spans) <= m,
            },
        decreases body.len() - i,
    {
        let rows: u16 = matrix_row_count(body[i].opcode);
        let mut j: usize = 0;
        while j < body[i].srcs.len()
            invariant
                i < body.len(),
                j <= body@[i as int].srcs.len(),
                rows == matrix_rows(body@[i as int].opcode),
                spans ==> kind == RegKind::Const && const_spans_fit(body@),
                match max {
                    None => forall|a: int, b: int| #[trigger]
                        source_before(body@, a, b, i as int, j as int)
                            ==> body@[a].srcs@[b].reg.kind != kind,
                    Some(m) => reads_last(body@, kind, spans, m as int) && forall|a: int, b: int|
                        #[trigger]
                        source_before(body@, a, b, i as int, j as int)
                            && body@[a].srcs@[b].reg.kind == kind ==> last_read(
                            body@[a],
                            b,
                            spans,
                        ) <= m,
                },
            decreases body@[i as int].srcs.len() - j,
        {
            let src = body[i].srcs[j];
            assert(body@[i as int].srcs@[j as int] == src);
            assert forall|a: int, b: int| #[trigger]
                source_before(body@, a, b, i as int, j + 1) implies source_before(
                body@,
                a,
                b,
                i as int,
                j as int,
            ) || (a == i && b == j) by {}
            if src.reg.kind == kind {
                let span: u16 = if spans && j == 1 { rows } else { 1 };
                let top: u16 = src.reg.index + (span - 1);
                assert(reads_last(body@, kind, spans, top as int));
                max = Some(greater(max, top));
            }
            j = j + 1;
        }
        assert forall|a: int, b: int| #[trigger]
            source_before(body@, a, b, i + 1, 0) implies source_before(
            body@,
            a,
            b,
            i as int,
            body@[i as int].srcs.len() as int,
        ) by {}
        i = i + 1;
    }
    proof {
        let p = |x: int| reads_last(body@, kind, spans, x);
        assert forall|x: int| #[trigger] p(x) implies max is Some && x <= max->0 by {
            let (a, b) = choose|a: int, b: int|
                0 <= a < body@.len() && 0 <= b < body@[a].srcs.len() && (
                #[trigger] body@[a].srcs@[b]).reg.kind == kind && last_read(body@[a], b, spans)
                    == x;
            assert(source_before(body@, a, b, i as int, 0));
        }
    }
    max
}

/// Whether one of `defs` defines register `x`.
pub open spec fn defines<D: Definition>(defs: Seq<D>, x: int) -> bool {
    exists|i: int| 0 <= i < defs.len() && (#[trigger] defs[i]).defined().index == x
}

fn greatest_def<D: Definition>(defs: &Vec<D>) -> (max: Option<u16>)
    ensures
        is_greatest(max, |x: int| defines(defs@, x)),
{
    let mut max: Option<u16> = None;
    let mut i: usize = 0;
    while i < defs.len()
        invariant
            i <= defs.len(),
            match max {
                None => i == 0,
                Some(m) => defines(defs@, m as int) && forall|a: int|
                    0 <= a < i ==> (#[trigger] defs@[a]).defined().index <= m,
            },
        decreases defs.len() - i,
    {
        let index: u16 = defs[i].register().index;
        assert(defs@[i as int].defined().index == index);
        max = Some(greater(max, index));
        i = i + 1;
    }
    max
}

/// The greater of two optional numbers.
fn greater_of(a: Option<u16>, b: Option<u16>) -> (r: Option<u16>)
    ensures
        r is None <==> a is None && b is None,
        r is Some ==> (r == a || r == b) && (a is Some ==> a->0 <= r->0) && (b is Some ==> b->0
            <= r->0),
{
    match b {
        Some(m) => Some(greater(a, m)),
        None => a,
    }
}

fn reaches(max: Option<u16>, limit: u16) -> (r: bool)
    ensures
        r == (max is Some && max->0 >= limit),
{
    match max {
        Some(m) => m >= limit,
        None => false,
    }
}

/// Whether `src` reads a float constant by relative address.
pub open spec fn is_relative_read(src: SrcOperand) -> bool {
    src.reg.kind == RegKind::Const && src.rel_addr is Some
}

/// Whether some source of `body` reads a float constant by relative address.
pub open spec fn body_reads_relative(body: Seq<Instruction>) -> bool {
    some_source(body, |inst: Instruction, j: int| is_relative_read(inst.srcs@[j]))
}

/// Whether some source of `body`, given by its instruction and its place there,
/// has property `p`.
pub open spec fn some_source(body: Seq<Instruction>, p: spec_fn(Instruction, int) -> bool) -> bool {
    exists|i: int, j: int| #[trigger] source_before(body, i, j, body.len() as int, 0) && p(body[i], j)
}

/// Whether some source of `body` reads up to a float constant past `limit`
/// registers.
pub open spec fn body_reads_past(body: Seq<Instruction>, limit: u16) -> bool {
    some_source(body, |inst: Instruction, j: int| reads_past(inst, j, limit))
}

/// Whether source `j` of `inst` reads up to a float constant past `limit`
/// registers.
pub open spec fn reads_past(inst: Instruction, j: int, limit: u16) -> bool {
    inst.srcs@[j].reg.kind == RegKind::Const && last_read(inst, j, true) >= limit
}

/// Whether register `index` is defined by one of `defs`.
pub fn is_defined_int(defs: &Vec<DefIntConstant>, index: u16) -> (r: bool)
    ensures
        r == defines(defs@, index as int),
{
    let mut i: usize = 0;
    while i < defs.len()
        invariant
            i <= defs.len(),
            forall|a: int| 0 <= a < i ==> (#[trigger] defs@[a]).defined().index != index,
        decreases defs.len() - i,
    {
        if defs[i].reg.index == index {
            assert(defs@[i as int].defined().index == index);
            return true;
        }
        i = i + 1;
    }
    false
}

/// Whether `src` reads an integer constant that none of `defs` defines.
pub open spec fn reads_dynamic_int(src: SrcOperand, defs: Seq<DefIntConstant>) -> bool {
    src.reg.kind == RegKind::ConstInt && !defines(defs, src.reg.index as int)
}

/// Whether some source of `body` reads an integer constant that none of `defs`
/// defines.
pub open spec fn body_reads_dynamic_int(
    body: Seq<Instruction>,
    defs: Seq<DefIntConstant>,
) -> bool {
    some_source(body, |inst: Instruction, j: int| reads_dynamic_int(inst.srcs@[j], defs))
}

/// Whether some instruction of `body` reads the bump-environment matrix.
pub open spec fn body_bumps(body: Seq<Instruction>) -> bool {
    exists|i: int| 0 <= i < body.len() && is_bump_op((#[trigger] body[i]).opcode)
}

/// Whether `op` reads the bump-environment matrix.
pub open spec fn is_bump_op(op: Opcode) -> bool {
    op == Opcode::TexBem || op == Opcode::TexBemL || op == Opcode::Bem
}

/// Whether `test` accepts a source of `body`, where it accepts those with
/// property `p`.
fn has_source(
    body: &Vec<Instruction>,
    test: impl Fn(&Instruction, usize) -> bool,
    Ghost(p): Ghost<spec_fn(Instruction, int) -> bool>,
) -> (r: bool)
    requires
        forall|inst: &Instruction, j: usize|
            j < inst.srcs.len() ==> #[trigger] call_requires(test, (inst, j)),
        forall|inst: &Instruction, j: usize, t: bool| #[trigger]
            call_ensures(test, (inst, j), t) ==> t == p(*inst, j as int),
    ensures
        r == some_source(body@, p),
{
    let mut i: usize = 0;
    while i < body.len()
        invariant
            i <= body.len(),
            forall|inst: &Instruction, j: usize|
                j < inst.srcs.len() ==> #[trigger] call_requires(test, (inst, j)),
            forall|inst: &Instruction, j: usize, t: bool| #[trigger]
                call_ensures(test, (inst, j), t) ==> t == p(*inst, j as int),
            forall|a: int, b: int| #[trigger]
                source_before(body@, a, b, i as int, 0) ==> !p(body@[a], b),
        decreases body.len() - i,
    {
        let mut j: usize = 0;
        while j < body[i].srcs.len()
            invariant
                i < body.len(),
                j <= body@[i as int].srcs.len(),
                forall|inst: &Instruction, j: usize|
                    j < inst.srcs.len() ==> #[trigger] call_requires(test, (inst, j)),
                forall|inst: &Instruction, j: usize, t: bool| #[trigger]
                    call_ensures(test, (inst, j), t) ==> t == p(*inst, j as int),
                forall|a: int, b: int| #[trigger]
                    source_before(body@, a, b, i as int, j as int) ==> !p(body@[a], b),
            decreases body@[i as int].srcs.len() - j,
        {
            if test(&body[i], j) {
                assert(source_before(body@, i as int, j as int, body@.len() as int, 0));
                return true;
            }
            assert forall|a: int, b: int| #[trigger]
                source_before(body@, a, b, i as int, j + 1) implies source_before(
                body@,
                a,
                b,
                i as int,
                j as int,
            ) || (a == i && b == j) by {}
            j = j + 1;
        }
        assert forall|a: int, b: int| #[trigger]
            source_before(body@, a, b, i + 1, 0) implies source_before(
            body@,
            a,
            b,
            i as int,
            body@[i as int].srcs.len() as int,
        ) by {}
        i = i + 1;
    }
    false
}

fn body_has_relative(body: &Vec<Instruction>) -> (r: bool)
    ensures
        r == body_reads_relative(body@),
{
    let test = |inst: &Instruction, j: usize| -> (t: bool)
        requires
            j < inst.srcs.len(),
        ensures
            t == is_relative_read(inst.srcs@[j as int]),
    {
        let src = inst.srcs[j];
        src.reg.kind == RegKind::Const && src.rel_addr.is_some()
    };
    has_source(
        body,
        test,
        Ghost(|inst: Instruction, j: int| is_relative_read(inst.srcs@[j])),
    )
}

fn body_has_dynamic_int(body: &Vec<Instruction>, defs: &Vec<DefIntConstant>) -> (r: bool)
    ensures
        r == body_reads_dynamic_int(body@, defs@),
{
    let test = |inst: &Instruction, j: usize| -> (t: bool)
        requires
            j < inst.srcs.len(),
        ensures
            t == reads_dynamic_int(inst.srcs@[j as int], defs@),
    {
        let src = inst.srcs[j];
        src.reg.kind == RegKind::ConstInt && !is_defined_int(defs, src.reg.index)
    };
    has_source(
        body,
        test,
        Ghost(|inst: Instruction, j: int| reads_dynamic_int(inst.srcs@[j], defs@)),
    )
}

fn body_has_read_past(body: &Vec<Instruction>, limit: u16) -> (r: bool)
    ensures
        r == body_reads_past(body@, limit),
{
    let test = |inst: &Instruction, j: usize| -> (t: bool)
        requires
            j < inst.srcs.len(),
        ensures
            t == reads_past(*inst, j as int, limit),
    {
        let src = inst.srcs[j];
        let rows: u16 = if j == 1 { matrix_row_count(inst.opcode) } else { 1 };
        src.reg.kind == RegKind::Const && src.reg.index as u32 + (rows as u32 - 1) >= limit as u32
    };
    has_source(
        body,
        test,
        Ghost(|inst: Instruction, j: int| reads_past(inst, j, limit)),
    )
}

fn body_has_bump(body: &Vec<Instruction>) -> (r: bool)
    ensures
        r == body_bumps(body@),
{
    let mut i: usize = 0;
    while i < body.len()
        invariant
            i <= body.len(),
            forall|a: int| 0 <= a < i ==> !is_bump_op((#[trigger] body@[a]).opcode),
        decreases body.len() - i,
    {
        let op = body[i].opcode;
        assert(body@[i as int].opcode == op);
        if matches!(op, Opcode::TexBem | Opcode::TexBemL | Opcode::Bem) {
            return true;
        }
        i = i + 1;
    }
    false
}

impl DxsoProgram {
    /// Whether `body` is the main body or the body of a subroutine.
    pub open spec fn has_body(&self, body: Seq<Instruction>) -> bool {
        ||| body == self.instructions@
        ||| exists|l: u32| #[trigger]
            self.subroutines@.contains_key(l) && self.subroutines@[l]@ == body
    }

    /// Whether `x` is the last register of file `kind` that some source of the
    /// main body or of a subroutine reads.
    pub open spec fn some_body_reads_last(&self, kind: RegKind, spans: bool, x: int) -> bool {
        exists|b: Seq<Instruction>| #[trigger] self.has_body(b) && reads_last(b, kind, spans, x)
    }

    /// Whether the program touches register `x` of the integer or boolean file
    /// `kind`: as a source of the main body or of a subroutine, or by `defi`.
    pub open spec fn touches(&self, kind: RegKind, x: int) -> bool {
        ||| self.some_body_reads_last(kind, false, x)
        ||| kind == RegKind::ConstInt && defines(self.def_int_constants@, x)
    }

    /// Whether the main body or a subroutine reads boolean constant `x`, or
    /// `defb` defines it.
    pub open spec fn touches_bool(&self, x: int) -> bool {
        ||| self.touches(RegKind::ConstBool, x)
        ||| defines(self.def_bool_constants@, x)
    }

    /// Whether the main body or a subroutine reads up to float constant `x`, or
    /// `def` defines it.
    pub open spec fn touches_float(&self, x: int) -> bool {
        ||| self.some_body_reads_last(RegKind::Const, true, x)
        ||| defines(self.def_constants@, x)
    }

    /// Whether the main body or a subroutine reads a float constant by relative
    /// address.
    pub open spec fn reads_relative(&self) -> bool {
        exists|b: Seq<Instruction>| #[trigger] self.has_body(b) && body_reads_relative(b)
    }

    /// Whether the main body or a subroutine reads an integer constant that the
    /// program does not define.
    pub open spec fn reads_bound_ints(&self) -> bool {
        exists|b: Seq<Instruction>| #[trigger]
            self.has_body(b) && body_reads_dynamic_int(b, self.def_int_constants@)
    }

    /// Whether the main body or a subroutine reads the bump-environment matrix.
    pub open spec fn bumps(&self) -> bool {
        exists|b: Seq<Instruction>| #[trigger] self.has_body(b) && body_bumps(b)
    }

    /// The size of the float constant file of the program's shader model.
    pub open spec fn float_limit(&self) -> u16 {
        if self.shader_type == ShaderType::Vertex {
            256
        } else if self.major <= 1 {
            8
        } else if self.major == 2 {
            32
        } else {
            224
        }
    }

    /// The size of the integer and boolean constant files, which exist from
    /// `vs_2_0` and `ps_3_0` on.
    pub open spec fn int_bool_limit(&self) -> u16 {
        if self.shader_type == ShaderType::Vertex && self.major >= 2 || self.shader_type
            == ShaderType::Pixel && self.major >= 3 {
            16
        } else {
            0
        }
    }

    /// Whether declaration `d` puts the rasterizer position on a `v#` input.
    pub open spec fn is_position_input(d: Declaration) -> bool {
        d matches Declaration::Semantic { usage, usage_index, reg } && usage == DeclUsage::Position
            && usage_index == 0 && reg.kind == RegKind::Input
    }

    /// Whether a pixel shader declares an input that the validator forbids.
    ///
    /// The rasterizer position arrives in the special `vPos` register, so a
    /// third-model pixel shader may not declare `POSITION` with index 0 on a
    /// `v#` input. Earlier models encode the meaning of an input in its
    /// register file and leave the usage bits zero.
    pub fn has_invalid_pixel_input_decl(&self) -> (r: bool)
        ensures
            r <==> self.shader_type == ShaderType::Pixel && self.major >= 3 && exists|i: int|
                0 <= i < self.declarations.len() && #[trigger] DxsoProgram::is_position_input(
                    self.declarations@[i],
                ),
    {
        if self.shader_type != ShaderType::Pixel || self.major < 3 {
            return false;
        }
        let mut i: usize = 0;
        while i < self.declarations.len()
            invariant
                i <= self.declarations.len(),
                self.shader_type == ShaderType::Pixel,
                self.major >= 3,
                forall|a: int|
                    0 <= a < i ==> !#[trigger] DxsoProgram::is_position_input(
                        self.declarations@[a],
                    ),
            decreases self.declarations.len() - i,
        {
            if let Declaration::Semantic { usage, usage_index, reg } = self.declarations[i] {
                if usage == DeclUsage::Position && usage_index == 0 && reg.kind == RegKind::Input {
                    assert(DxsoProgram::is_position_input(self.declarations@[i as int]));
                    return true;
                }
            }
            i = i + 1;
        }
        false
    }

    /// The labels of the program's subroutines.
    pub fn labels(&self) -> (r: Vec<u32>)
        ensures
            forall|l: u32| self.subroutines@.contains_key(l) <==> #[trigger] r@.contains(l),
    {
        let mut r: Vec<u32> = Vec::new();
        for label in it: self.subroutines.keys()
            invariant
                it.seq().unref().to_set() == self.subroutines@.dom(),
                r@ == it.seq().unref().take(it.index()),
                it.index() == it.seq().len() ==> r@.to_set() == self.subroutines@.dom(),
        {
            r.push(*label);
            assert(r@.len() == it.seq().len() ==> r@ =~= it.seq().unref());
        }
        proof {
            assert forall|l: u32| self.subroutines@.contains_key(l) <==> #[trigger] r@.contains(l) by {
                assert(r@.to_set().contains(l) <==> r@.contains(l));
            }
        }
        r
    }

    /// The main body, then the bodies of the subroutines.
    pub fn bodies(&self) -> (r: Vec<&Vec<Instruction>>)
        ensures
            forall|k: int| 0 <= k < r.len() ==> self.has_body((#[trigger] r@[k])@),
            forall|b: Seq<Instruction>| #[trigger]
                self.has_body(b) ==> exists|k: int| 0 <= k < r.len() && (#[trigger] r@[k])@ == b,
    {
        let mut r: Vec<&Vec<Instruction>> = Vec::new();
        r.push(&self.instructions);
        let labels = self.labels();
        let mut i: usize = 0;
        while i < labels.len()
            invariant
                i <= labels.len(),
                r.len() == i + 1,
                r@[0]@ == self.instructions@,
                forall|l: u32| self.subroutines@.contains_key(l) <==> #[trigger] labels@.contains(l),
                forall|k: int|
                    1 <= k < r.len() ==> (#[trigger] r@[k])@ == self.subroutines@[labels@[k - 1]]@,
            decreases labels.len() - i,
        {
            let label: u32 = labels[i];
            assert(labels@.contains(label));
            if let Some(body) = self.subroutines.get(&label) {
                r.push(body);
            }
            i = i + 1;
        }
        proof {
            assert forall|k: int| 0 <= k < r.len() implies self.has_body((#[trigger] r@[k])@) by {
                if k > 0 {
                    assert(labels@.contains(labels@[k - 1]));
                }
            }
            assert forall|b: Seq<Instruction>| #[trigger] self.has_body(b) implies exists|k: int|
                0 <= k < r.len() && (#[trigger] r@[k])@ == b by {
                if b == self.instructions@ {
                    assert(r@[0]@ == b);
                } else {
                    let l = choose|l: u32| #[trigger]
                        self.subroutines@.contains_key(l) && self.subroutines@[l]@ == b;
                    assert(labels@.contains(l));
                    let a = choose|a: int| 0 <= a < labels@.len() && labels@[a] == l;
                    assert(r@[a + 1]@ == b);
                }
            }
        }
        r
    }

    /// The highest float constant that the main body reads.
    ///
    /// A matrix instruction reads consecutive constants from its second source
    /// on. Subroutine bodies are not counted.
    pub fn max_const_reg(&self) -> (r: Option<u16>)
        requires
            const_spans_fit(self.instructions@),
        ensures
            is_greatest(r, |x: int| reads_last(self.instructions@, RegKind::Const, true, x)),
    {
        greatest_read(&self.instructions, RegKind::Const, true)
    }

    /// The highest register of file `kind` that a body reads.
    fn greatest_read_of_bodies(&self, kind: RegKind) -> (max: Option<u16>)
        ensures
            is_greatest(max, |x: int| self.some_body_reads_last(kind, false, x)),
    {
        let bodies = self.bodies();
        let mut max: Option<u16> = None;
        let mut k: usize = 0;
        while k < bodies.len()
            invariant
                k <= bodies.len(),
                forall|i: int| 0 <= i < bodies.len() ==> self.has_body((#[trigger] bodies@[i])@),
                max is Some ==> self.some_body_reads_last(kind, false, max->0 as int),
                forall|i: int, x: int|
                    0 <= i < k && #[trigger] reads_last(bodies@[i]@, kind, false, x) ==> max is Some
                        && x <= max->0,
            decreases bodies.len() - k,
        {
            let body = bodies[k];
            assert(self.has_body(bodies@[k as int]@));
            let m = greatest_read(body, kind, false);
            proof {
                let p = |x: int| reads_last(body@, kind, false, x);
                assert(forall|x: int| p(x) == #[trigger] reads_last(body@, kind, false, x));
            }
            max = greater_of(max, m);
            k = k + 1;
        }
        max
    }

    /// The highest register of the integer or boolean file that the program
    /// reads, or defines by `defi`. A `defb` alone is not counted.
    pub fn max_const_index(&self, kind: RegKind) -> (r: Option<u16>)
        ensures
            is_greatest(r, |x: int| self.touches(kind, x)),
    {
        let read = self.greatest_read_of_bodies(kind);
        let defined: Option<u16> = match kind {
            RegKind::ConstInt => greatest_def(&self.def_int_constants),
            _ => None,
        };
        proof {
            let reads = |x: int| self.some_body_reads_last(kind, false, x);
            let ints = |x: int| defines(self.def_int_constants@, x);
            assert(forall|x: int|
                reads(x) == #[trigger] self.some_body_reads_last(kind, false, x));
            assert(forall|x: int| ints(x) == #[trigger] defines(self.def_int_constants@, x));
        }
        greater_of(read, defined)
    }

    /// Whether the program touches a constant past the end of a constant file
    /// of its shader model.
    ///
    /// The float file holds 256 registers for a vertex shader, and 8, 32 or
    /// 224 for a pixel shader of the first, second or third model. The integer
    /// and boolean files hold 16 registers each where they exist, and none
    /// where they do not, so that a `defi` or `defb` alone is too much there.
    pub fn violates_constant_register_limits(&self) -> (r: bool)
        requires
            const_spans_fit(self.instructions@),
        ensures
            r <==> {
                ||| exists|x: int| #[trigger] self.touches_float(x) && x >= self.float_limit()
                ||| exists|x: int| #[trigger]
                    self.touches(RegKind::ConstInt, x) && x >= self.int_bool_limit()
                ||| exists|x: int| #[trigger] self.touches_bool(x) && x >= self.int_bool_limit()
            },
    {
        let is_vertex: bool = self.shader_type == ShaderType::Vertex;
        let float_limit: u16 = if is_vertex {
            256
        } else {
            match self.major {
                0 | 1 => 8,
                2 => 32,
                _ => 224,
            }
        };
        let int_bool_limit: u16 = if (is_vertex && self.major >= 2) || (!is_vertex && self.major
            >= 3) {
            16
        } else {
            0
        };
        let test = |b: &Vec<Instruction>| -> (t: bool)
            ensures
                t == body_reads_past(b@, float_limit),
        {
            body_has_read_past(b, float_limit)
        };
        let reads_past: bool = self.some_body(
            test,
            Ghost(|b: Seq<Instruction>| body_reads_past(b, float_limit)),
        );
        let float_max = greatest_def(&self.def_constants);
        let int_max = self.max_const_index(RegKind::ConstInt);
        let bool_read_max = self.max_const_index(RegKind::ConstBool);
        let bool_def_max = greatest_def(&self.def_bool_constants);
        let bool_max = greater_of(bool_read_max, bool_def_max);
        proof {
            self.reads_past_the_limit(float_limit);
            let d = |x: int| defines(self.def_constants@, x);
            let qi = |x: int| self.touches(RegKind::ConstInt, x);
            let qb = |x: int| self.touches(RegKind::ConstBool, x);
            let db = |x: int| defines(self.def_bool_constants@, x);
            assert(forall|x: int| #[trigger]
                self.touches_float(x) == (self.some_body_reads_last(RegKind::Const, true, x) || d(
                    x,
                )));
            assert(forall|x: int| #[trigger] self.touches(RegKind::ConstInt, x) == qi(x));
            assert(forall|x: int| #[trigger] self.touches_bool(x) == (qb(x) || db(x)));
            if float_max is Some {
                assert(self.touches_float(float_max->0 as int));
            }
            if int_max is Some {
                assert(self.touches(RegKind::ConstInt, int_max->0 as int));
            }
            if bool_max is Some {
                assert(self.touches_bool(bool_max->0 as int));
            }
            if reads_past {
                let x = choose|x: int| #[trigger]
                    self.some_body_reads_last(RegKind::Const, true, x) && x >= float_limit;
                assert(self.touches_float(x));
            }
        }
        reads_past || reaches(float_max, float_limit) || reaches(int_max, int_bool_limit)
            || reaches(bool_max, int_bool_limit)
    }

    proof fn reads_past_the_limit(&self, limit: u16)
        ensures
            (exists|b: Seq<Instruction>| #[trigger] self.has_body(b) && body_reads_past(b, limit))
                <==> exists|x: int| #[trigger]
                self.some_body_reads_last(RegKind::Const, true, x) && x >= limit,
    {
        let p = |inst: Instruction, j: int| reads_past(inst, j, limit);
        if exists|b: Seq<Instruction>| #[trigger] self.has_body(b) && body_reads_past(b, limit) {
            let b = choose|b: Seq<Instruction>| #[trigger]
                self.has_body(b) && body_reads_past(b, limit);
            let (i, j) = choose|i: int, j: int| #[trigger]
                source_before(b, i, j, b.len() as int, 0) && p(b[i], j);
            let x = last_read(b[i], j, true);
            assert(b[i].srcs@[j].reg.kind == RegKind::Const);
            assert(reads_last(b, RegKind::Const, true, x));
            assert(self.some_body_reads_last(RegKind::Const, true, x));
        }
        if exists|x: int| #[trigger]
            self.some_body_reads_last(RegKind::Const, true, x) && x >= limit {
            let x = choose|x: int| #[trigger]
                self.some_body_reads_last(RegKind::Const, true, x) && x >= limit;
            let b = choose|b: Seq<Instruction>| #[trigger]
                self.has_body(b) && reads_last(b, RegKind::Const, true, x);
            let (i, j) = choose|i: int, j: int|
                0 <= i < b.len() && 0 <= j < b[i].srcs.len() && (
                #[trigger] b[i].srcs@[j]).reg.kind == RegKind::Const && last_read(b[i], j, true)
                    == x;
            assert(source_before(b, i, j, b.len() as int, 0) && p(b[i], j));
            assert(body_reads_past(b, limit));
        }
    }

    /// Whether `test` accepts one of the bodies, where it accepts those with
    /// property `p`.
    pub(crate) fn some_body(
        &self,
        test: impl Fn(&Vec<Instruction>) -> bool,
        Ghost(p): Ghost<spec_fn(Seq<Instruction>) -> bool>,
    ) -> (r: bool)
        requires
            forall|b: &Vec<Instruction>| call_requires(test, (b,)),
            forall|b: &Vec<Instruction>, t: bool|
                call_ensures(test, (b,), t) ==> t == p(b@),
        ensures
            r == exists|b: Seq<Instruction>| #[trigger] self.has_body(b) && p(b),
    {
        let bodies = self.bodies();
        let mut k: usize = 0;
        while k < bodies.len()
            invariant
                k <= bodies.len(),
                forall|i: int| 0 <= i < bodies.len() ==> self.has_body((#[trigger] bodies@[i])@),
                forall|i: int| 0 <= i < k ==> !p((#[trigger] bodies@[i])@),
                forall|b: &Vec<Instruction>| call_requires(test, (b,)),
                forall|b: &Vec<Instruction>, t: bool|
                    call_ensures(test, (b,), t) ==> t == p(b@),
            decreases bodies.len() - k,
        {
            assert(self.has_body(bodies@[k as int]@));
            if test(bodies[k]) {
                return true;
            }
            k = k + 1;
        }
        false
    }

    /// Whether any instruction reads a constant by relative address
    /// (`c[a0.x + N]`).
    ///
    /// Such a program reads constants that [`DxsoProgram::max_const_reg`]
    /// cannot see, so its draws need the whole constant file.
    pub fn uses_relative_const_addressing(&self) -> (r: bool)
        ensures
            r == self.reads_relative(),
    {
        self.some_body(body_has_relative, Ghost(|b: Seq<Instruction>| body_reads_relative(b)))
    }

    /// Whether any instruction reads an integer constant that no `defi` defines.
    ///
    /// Such a constant comes from the application at run time, so draws with
    /// the program bind the integer-constant buffer.
    pub fn uses_dynamic_int_constants(&self) -> (r: bool)
        ensures
            r == self.reads_bound_ints(),
    {
        let defs = &self.def_int_constants;
        let test = |b: &Vec<Instruction>| -> (t: bool)
            ensures
                t == body_reads_dynamic_int(b@, defs@),
        {
            body_has_dynamic_int(b, defs)
        };
        self.some_body(test, Ghost(|b: Seq<Instruction>| body_reads_dynamic_int(b, defs@)))
    }

    /// Whether any instruction maps a bump environment (`texbem`, `texbeml`,
    /// `bem`), so that draws with the program upload the bump matrices.
    pub fn uses_bump_env(&self) -> (r: bool)
        ensures
            r == self.bumps(),
    {
        self.some_body(body_has_bump, Ghost(|b: Seq<Instruction>| body_bumps(b)))
    }
}

} // verus!
