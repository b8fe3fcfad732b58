//! What the lowering of an instruction depends on besides the instruction.

use crate::dxso::emit::floats::FloatTexts;
use crate::dxso::emit::variant::VariantKey;
use crate::dxso::ir::{
    DeclUsage, Declaration, DefConstant, DxsoProgram, Instruction, RegKind, Register, TextureType,
};
use crate::dxso::opcode::Opcode;
use crate::text::{dec, decimal};
use vstd::prelude::*;

verus! {

/// The program being translated, its stage, and the specialization.
#[derive(Clone, Copy)]
pub struct EmitContext<'a> {
    pub prog: &'a DxsoProgram,
    pub texts: &'a FloatTexts,
    /// The stage: vertex where set, pixel otherwise.
    pub is_vertex: bool,
    /// The pixel shader declares `vPos`.
    pub has_vpos: bool,
    /// The pixel shader declares `vFace`.
    pub has_vface: bool,
    /// The pixel shader writes fragment depth.
    pub has_depth_out: bool,
    pub depth_sampler_mask: u16,
    pub depth_fetch_mask: u16,
    pub tt_projected_mask: u8,
    /// The inputs that the vertex declaration provides, one bit each.
    pub provided_mask: u16,
}

/// Whether bit `i` of `mask` is set, for an `i` below 16.
pub open spec fn mask_bit(mask: u16, i: u16) -> bool {
    mask & (1u16 << i) != 0
}

/// Whether bit `i` of `mask` is set.
pub fn test_mask_bit(mask: u16, i: u16) -> (r: bool)
    requires
        i < 16,
    ensures
        r == mask_bit(mask, i),
{
    mask & (1u16 << i) != 0
}

/// Whether float constant `index` is one of `defs`.
pub open spec fn defines_const(defs: Seq<DefConstant>, index: u16) -> bool {
    exists|i: int| 0 <= i < defs.len() && (#[trigger] defs[i]).reg.index == index
}

fn is_defined_const(defs: &Vec<DefConstant>, index: u16) -> (r: bool)
    ensures
        r == defines_const(defs@, index),
{
    let mut i: usize = 0;
    while i < defs.len()
        invariant
            i <= defs.len(),
            forall|a: int| 0 <= a < i ==> (#[trigger] defs@[a]).reg.index != index,
        decreases defs.len() - i,
    {
        if defs[i].reg.index == index {
            assert(defs@[i as int].reg.index == index);
            return true;
        }
        i = i + 1;
    }
    false
}

/// Whether a texture op of the first shader model samples: those bind the
/// sampler of their destination register's number.
pub open spec fn samples_implicitly(op: Opcode) -> bool {
    match op {
        Opcode::TexLd
        | Opcode::TexBem
        | Opcode::TexBemL
        | Opcode::TexM3x2Tex
        | Opcode::TexM3x3Tex
        | Opcode::TexM3x3Spec
        | Opcode::TexM3x3VSpec
        | Opcode::TexReg2Ar
        | Opcode::TexReg2Gb
        | Opcode::TexReg2Rgb
        | Opcode::TexDp3Tex => true,
        _ => false,
    }
}

pub fn sm1_op_samples(op: Opcode) -> (r: bool)
    ensures
        r == samples_implicitly(op),
{
    matches!(
        op,
        Opcode::TexLd
            | Opcode::TexBem
            | Opcode::TexBemL
            | Opcode::TexM3x2Tex
            | Opcode::TexM3x3Tex
            | Opcode::TexM3x3Spec
            | Opcode::TexM3x3VSpec
            | Opcode::TexReg2Ar
            | Opcode::TexReg2Gb
            | Opcode::TexReg2Rgb
            | Opcode::TexDp3Tex
    )
}

/// The texture type of the last declaration of sampler `slot`.
pub open spec fn declared_sampler(decls: Seq<Declaration>, slot: u16) -> Option<TextureType>
    decreases decls.len(),
{
    if decls.len() == 0 {
        None
    } else {
        match decls.last() {
            Declaration::Sampler { texture_type, reg } => if reg.index == slot {
                Some(texture_type)
            } else {
                declared_sampler(decls.drop_last(), slot)
            },
            _ => declared_sampler(decls.drop_last(), slot),
        }
    }
}

/// Whether some instruction of `body` samples `slot` implicitly.
pub open spec fn samples_slot(body: Seq<Instruction>, slot: u16) -> bool {
    exists|i: int| 0 <= i < body.len() && #[trigger] binds_slot(body[i], slot)
}

/// Whether the main body or a subroutine samples `slot` implicitly.
pub open spec fn program_samples_slot(prog: DxsoProgram, slot: u16) -> bool {
    exists|b: Seq<Instruction>| #[trigger] prog.has_body(b) && samples_slot(b, slot)
}

/// Whether `inst` samples `slot` implicitly.
pub open spec fn binds_slot(inst: Instruction, slot: u16) -> bool {
    samples_implicitly(inst.opcode) && inst.dst is Some && inst.dst->0.reg.index == slot
}

/// The texture type that a pixel program binds at sampler `slot`: the declared
/// one, or a 2D texture for a slot that the first shader model samples
/// without a declaration.
pub open spec fn sampler_at(prog: DxsoProgram, slot: u16) -> Option<TextureType> {
    match declared_sampler(prog.declarations@, slot) {
        Some(t) => Some(t),
        None => if prog.major == 1 && program_samples_slot(prog, slot) {
            Some(TextureType::Texture2D)
        } else {
            None
        },
    }
}

fn body_samples_slot(body: &Vec<Instruction>, slot: u16) -> (r: bool)
    ensures
        r == samples_slot(body@, slot),
{
    let mut i: usize = 0;
    while i < body.len()
        invariant
            i <= body.len(),
            forall|a: int| 0 <= a < i ==> !#[trigger] binds_slot(body@[a], slot),
        decreases body.len() - i,
    {
        if sm1_op_samples(body[i].opcode) {
            if let Some(d) = body[i].dst {
                if d.reg.index == slot {
                    assert(binds_slot(body@[i as int], slot));
                    return true;
                }
            }
        }
        i = i + 1;
    }
    false
}

/// The texture type that a pixel program binds at sampler `slot`.
pub fn find_sampler(prog: &DxsoProgram, slot: u16) -> (r: Option<TextureType>)
    ensures
        r == sampler_at(*prog, slot),
{
    let mut n: usize = prog.declarations.len();
    assert(prog.declarations@.take(n as int) =~= prog.declarations@);
    while n > 0
        invariant
            n <= prog.declarations.len(),
            declared_sampler(prog.declarations@, slot) == declared_sampler(
                prog.declarations@.take(n as int),
                slot,
            ),
        decreases n,
    {
        n = n - 1;
        assert(prog.declarations@.take(n + 1).drop_last() =~= prog.declarations@.take(n as int));
        if let Declaration::Sampler { texture_type, reg } = prog.declarations[n] {
            if reg.index == slot {
                return Some(texture_type);
            }
        }
    }
    let test = |b: &Vec<Instruction>| -> (t: bool)
        ensures
            t == samples_slot(b@, slot),
    {
        body_samples_slot(b, slot)
    };
    if prog.major == 1 && prog.some_body(test, Ghost(|b: Seq<Instruction>| samples_slot(b, slot))) {
        Some(TextureType::Texture2D)
    } else {
        None
    }
}

/// Whether every sampler that a pixel program declares, or that its main body
/// samples implicitly, has a slot below 16.
pub open spec fn sampler_slots_fit(prog: DxsoProgram) -> bool {
    &&& forall|slot: u16|
        slot >= 16 ==> (#[trigger] declared_sampler(prog.declarations@, slot)) is None
    &&& prog.major == 1 ==> forall|slot: u16|
        slot >= 16 ==> !#[trigger] samples_slot(prog.instructions@, slot)
}

/// The varying that a pixel input with this declaration reads.
pub open spec fn input_varying(
    major: u8,
    usage: DeclUsage,
    usage_index: u32,
    reg: Register,
) -> Seq<char> {
    if major != 3 {
        "color"@ + dec(reg.index as nat)
    } else {
        match usage {
            DeclUsage::Texcoord => "texcoord"@ + dec(usage_index as nat),
            DeclUsage::Fog => "fog"@,
            DeclUsage::Position => if usage_index == 0 {
                "position"@
            } else {
                "position"@ + dec(usage_index as nat)
            },
            _ => "color"@ + dec(usage_index as nat),
        }
    }
}

/// The varying that pixel input `v{index}` reads: that of its last
/// declaration, or the colour of its own number where it has none.
pub open spec fn input_name(decls: Seq<Declaration>, major: u8, index: u16) -> Seq<char>
    decreases decls.len(),
{
    if decls.len() == 0 {
        "color"@ + dec(index as nat)
    } else {
        match decls.last() {
            Declaration::Semantic { usage, usage_index, reg } => if reg.kind == RegKind::Input
                && reg.index == index {
                input_varying(major, usage, usage_index, reg)
            } else {
                input_name(decls.drop_last(), major, index)
            },
            _ => input_name(decls.drop_last(), major, index),
        }
    }
}

fn varying_of_input(major: u8, usage: DeclUsage, usage_index: u32, reg: Register) -> (r: String)
    ensures
        r@ == input_varying(major, usage, usage_index, reg),
{
    if major != 3 {
        return "color".to_owned().concat(decimal(reg.index as u64).as_str());
    }
    let index = decimal(usage_index as u64);
    match usage {
        DeclUsage::Texcoord => "texcoord".to_owned().concat(index.as_str()),
        DeclUsage::Fog => "fog".to_owned(),
        DeclUsage::Position => if usage_index == 0 {
            "position".to_owned()
        } else {
            "position".to_owned().concat(index.as_str())
        },
        _ => "color".to_owned().concat(index.as_str()),
    }
}

/// Whether a register file holds vertex outputs.
pub open spec fn is_output_kind(kind: RegKind) -> bool {
    match kind {
        RegKind::RastOut | RegKind::AttrOut | RegKind::TexcoordOut | RegKind::Output => true,
        _ => false,
    }
}

/// Whether a register file holds vertex outputs.
pub fn is_output_reg_kind(kind: RegKind) -> (r: bool)
    ensures
        r == is_output_kind(kind),
{
    matches!(
        kind,
        RegKind::RastOut | RegKind::AttrOut | RegKind::TexcoordOut | RegKind::Output
    )
}

/// What a third-model vertex output with this declaration writes.
///
/// The point size goes through a vector of its own, and a usage without a
/// varying is written to a scratch vector.
pub open spec fn output_target(usage: DeclUsage, usage_index: u32) -> Seq<char> {
    match usage {
        DeclUsage::Position => if usage_index == 0 {
            "out.position"@
        } else {
            "out.position"@ + dec(usage_index as nat)
        },
        DeclUsage::Fog => "out.fog"@,
        DeclUsage::Color => "out.color"@ + dec(usage_index as nat),
        DeclUsage::Texcoord => "out.texcoord"@ + dec(usage_index as nat),
        DeclUsage::PSize => "_psize_storage"@,
        _ => "_rastout_discard"@,
    }
}

/// Usage and usage index of the last declaration of vertex output `reg`.
pub open spec fn output_usage(decls: Seq<Declaration>, reg: Register) -> Option<(DeclUsage, u32)>
    decreases decls.len(),
{
    if decls.len() == 0 {
        None
    } else {
        match decls.last() {
            Declaration::Semantic { usage, usage_index, reg: r } => if r == reg && is_output_kind(
                r.kind,
            ) {
                Some((usage, usage_index))
            } else {
                output_usage(decls.drop_last(), reg)
            },
            _ => output_usage(decls.drop_last(), reg),
        }
    }
}

fn target_of_output(usage: DeclUsage, usage_index: u32) -> (r: String)
    ensures
        r@ == output_target(usage, usage_index),
{
    let index = decimal(usage_index as u64);
    match usage {
        DeclUsage::Position => if usage_index == 0 {
            "out.position".to_owned()
        } else {
            "out.position".to_owned().concat(index.as_str())
        },
        DeclUsage::Fog => "out.fog".to_owned(),
        DeclUsage::Color => "out.color".to_owned().concat(index.as_str()),
        DeclUsage::Texcoord => "out.texcoord".to_owned().concat(index.as_str()),
        DeclUsage::PSize => "_psize_storage".to_owned(),
        _ => "_rastout_discard".to_owned(),
    }
}

/// Usage and usage index of the last declaration of vertex output `reg`.
pub fn find_output_usage(decls: &Vec<Declaration>, reg: Register) -> (r: Option<(DeclUsage, u32)>)
    ensures
        r == output_usage(decls@, reg),
{
    let mut n: usize = decls.len();
    assert(decls@.take(n as int) =~= decls@);
    while n > 0
        invariant
            n <= decls.len(),
            output_usage(decls@, reg) == output_usage(decls@.take(n as int), reg),
        decreases n,
    {
        n = n - 1;
        assert(decls@.take(n + 1).drop_last() =~= decls@.take(n as int));
        if let Declaration::Semantic { usage, usage_index, reg: r } = decls[n] {
            if r == reg && is_output_reg_kind(r.kind) {
                return Some((usage, usage_index));
            }
        }
    }
    None
}

impl<'a> EmitContext<'a> {
    /// The context of a vertex shader.
    pub open spec fn spec_vs(
        prog: DxsoProgram,
        texts: FloatTexts,
        provided_mask: u16,
    ) -> EmitContext<'a> {
        EmitContext {
            prog: &prog,
            texts: &texts,
            is_vertex: true,
            has_vpos: false,
            has_vface: false,
            has_depth_out: false,
            depth_sampler_mask: 0,
            depth_fetch_mask: 0,
            tt_projected_mask: 0,
            provided_mask,
        }
    }

    /// The context of a pixel shader.
    pub open spec fn spec_ps(
        prog: DxsoProgram,
        texts: FloatTexts,
        variant: VariantKey,
        has_vpos: bool,
        has_vface: bool,
        has_depth_out: bool,
    ) -> EmitContext<'a> {
        EmitContext {
            prog: &prog,
            texts: &texts,
            is_vertex: false,
            has_vpos,
            has_vface,
            has_depth_out,
            depth_sampler_mask: variant.depth_sampler_mask,
            depth_fetch_mask: variant.depth_fetch_mask,
            tt_projected_mask: variant.tt_projected_mask,
            provided_mask: 0xFFFF,
        }
    }

    /// The context of a vertex shader.
    pub fn vs(prog: &'a DxsoProgram, texts: &'a FloatTexts, provided_mask: u16) -> (r: Self)
        ensures
            r == EmitContext::spec_vs(*prog, *texts, provided_mask),
    {
        EmitContext {
            prog,
            texts,
            is_vertex: true,
            has_vpos: false,
            has_vface: false,
            has_depth_out: false,
            depth_sampler_mask: 0,
            depth_fetch_mask: 0,
            tt_projected_mask: 0,
            provided_mask,
        }
    }

    /// The context of a pixel shader.
    pub fn ps(
        prog: &'a DxsoProgram,
        texts: &'a FloatTexts,
        variant: VariantKey,
        has_vpos: bool,
        has_vface: bool,
        has_depth_out: bool,
    ) -> (r: Self)
        ensures
            r == EmitContext::spec_ps(*prog, *texts, variant, has_vpos, has_vface, has_depth_out),
    {
        EmitContext {
            prog,
            texts,
            is_vertex: false,
            has_vpos,
            has_vface,
            has_depth_out,
            depth_sampler_mask: variant.depth_sampler_mask,
            depth_fetch_mask: variant.depth_fetch_mask,
            tt_projected_mask: variant.tt_projected_mask,
            provided_mask: 0xFFFF,
        }
    }

    /// Whether the program is of the first shader model.
    pub open spec fn sm1(self) -> bool {
        self.prog.major == 1
    }

    /// Whether the vertex declaration provides input `index`. Inputs from 16
    /// on lie outside the mask and count as provided.
    pub open spec fn provides(self, index: u16) -> bool {
        index >= 16 || mask_bit(self.provided_mask, index)
    }

    /// The texture type bound at `slot`; a vertex shader binds none.
    pub open spec fn sampler(self, slot: u16) -> Option<TextureType> {
        if self.is_vertex {
            None
        } else {
            sampler_at(*self.prog, slot)
        }
    }

    /// Whether sampler `slot` is bound to a depth texture.
    pub open spec fn depth_bound(self, slot: u16) -> bool {
        slot < 16 && mask_bit(self.depth_sampler_mask, slot)
    }

    /// Whether sampler `slot` is bound to a depth texture that is read raw.
    pub open spec fn raw_depth_bound(self, slot: u16) -> bool {
        slot < 16 && mask_bit(self.depth_fetch_mask, slot)
    }

    /// Whether stage `slot` has an implicit projective divide; a cube map has
    /// none.
    pub open spec fn projects(self, slot: u16) -> bool {
        &&& slot < 8
        &&& self.tt_projected_mask & (1u8 << slot) != 0
        &&& self.sampler(slot) != Some(TextureType::TextureCube)
    }

    /// Whether the program is of the first shader model.
    pub fn is_sm1(&self) -> (r: bool)
        ensures
            r == self.sm1(),
    {
        self.prog.major == 1
    }

    /// Whether the vertex declaration provides input `index`.
    pub fn vs_input_provided(&self, index: u16) -> (r: bool)
        ensures
            r == self.provides(index),
    {
        index >= 16 || test_mask_bit(self.provided_mask, index)
    }

    /// The texture type bound at `slot`.
    pub fn sampler_type(&self, slot: u16) -> (r: Option<TextureType>)
        ensures
            r == self.sampler(slot),
    {
        if self.is_vertex {
            None
        } else {
            find_sampler(self.prog, slot)
        }
    }

    /// Whether sampler `slot` is bound to a depth texture.
    pub fn is_depth_sampler(&self, slot: u16) -> (r: bool)
        ensures
            r == self.depth_bound(slot),
    {
        slot < 16 && test_mask_bit(self.depth_sampler_mask, slot)
    }

    /// Whether sampler `slot` is bound to a depth texture that is read raw.
    pub fn is_raw_depth_sampler(&self, slot: u16) -> (r: bool)
        ensures
            r == self.raw_depth_bound(slot),
    {
        slot < 16 && test_mask_bit(self.depth_fetch_mask, slot)
    }

    /// Whether stage `slot` has an implicit projective divide.
    pub fn is_tt_projected(&self, slot: u16) -> (r: bool)
        ensures
            r == self.projects(slot),
    {
        slot < 8 && (self.tt_projected_mask & (1u8 << slot)) != 0 && !matches!(
            self.sampler_type(slot),
            Some(TextureType::TextureCube)
        )
    }

    /// Whether float constant `index` is defined in the program.
    pub fn is_def_const(&self, index: u16) -> (r: bool)
        ensures
            r == defines_const(self.prog.def_constants@, index),
    {
        is_defined_const(&self.prog.def_constants, index)
    }

    /// The varying that pixel input `index` reads.
    pub fn input_varying_name(&self, index: u16) -> (r: String)
        ensures
            r@ == input_name(self.prog.declarations@, self.prog.major, index),
    {
        let ghost decls = self.prog.declarations@;
        let mut n: usize = self.prog.declarations.len();
        assert(decls.take(n as int) =~= decls);
        while n > 0
            invariant
                decls == self.prog.declarations@,
                n <= decls.len(),
                input_name(decls, self.prog.major, index) == input_name(
                    decls.take(n as int),
                    self.prog.major,
                    index,
                ),
            decreases n,
        {
            n = n - 1;
            assert(decls.take(n + 1).drop_last() =~= decls.take(n as int));
            if let Declaration::Semantic { usage, usage_index, reg } = self.prog.declarations[n] {
                if reg.kind == RegKind::Input && reg.index == index {
                    return varying_of_input(self.prog.major, usage, usage_index, reg);
                }
            }
        }
        "color".to_owned().concat(decimal(index as u64).as_str())
    }

    /// Where a write to vertex output `reg` of the third model goes.
    pub fn declared_output(&self, reg: Register) -> (r: Option<String>)
        ensures
            match (r, output_usage(self.prog.declarations@, reg)) {
                (Some(s), Some((usage, usage_index))) => s@ == output_target(usage, usage_index),
                (None, None) => true,
                _ => false,
            },
    {
        match find_output_usage(&self.prog.declarations, reg) {
            Some((usage, usage_index)) => Some(target_of_output(usage, usage_index)),
            None => None,
        }
    }
}

} // verus!
