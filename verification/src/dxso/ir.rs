//! The intermediate representation between the bytecode parser and the
//! Metal-text emitter.

use crate::dxso::opcode::Opcode;
use std::collections::BTreeMap;
use vstd::prelude::*;

verus! {

broadcast use vstd::std_specs::btree::group_btree_axioms;

/// The pipeline stage that a program runs in.
#[derive(Clone, Copy, Debug, PartialEq, Eq, Structural)]
pub enum ShaderType {
    Vertex,
    Pixel,
}

/// A register file.
#[derive(Clone, Copy, Debug, PartialEq, Eq, PartialOrd, Ord, Structural)]
pub enum RegKind {
    Temp,
    Input,
    Const,
    Addr,
    RastOut,
    AttrOut,
    TexcoordOut,
    ConstInt,
    ColorOut,
    DepthOut,
    Sampler,
    /// Unified vertex output of the third shader model (`o0..o11`), whose
    /// meaning comes from the matching `dcl_<usage> oN` declaration.
    Output,
    ConstBool,
    Loop,
    TempFloat16,
    MiscType,
    Label,
    Predicate,
}

/// One register of a register file.
#[derive(Clone, Copy, Debug, PartialEq, Eq, Structural)]
pub struct Register {
    pub kind: RegKind,
    pub index: u16,
}

/// What a declared input or output carries.
#[derive(Clone, Copy, Debug, PartialEq, Eq, Structural)]
pub enum DeclUsage {
    Position,
    BlendWeight,
    BlendIndices,
    Normal,
    PSize,
    Texcoord,
    Tangent,
    Binormal,
    TessFactor,
    PositionT,
    Color,
    Fog,
    Depth,
    Sample,
}

/// Dimensionality of a declared sampler.
#[derive(Clone, Copy, Debug, PartialEq, Eq, Structural)]
pub enum TextureType {
    Unknown,
    Texture2D,
    TextureCube,
    Texture3D,
}

/// A `dcl` instruction.
#[derive(Clone, Copy, Debug, PartialEq, Eq, Structural)]
pub enum Declaration {
    /// An input or output with a usage.
    Semantic { usage: DeclUsage, usage_index: u32, reg: Register },
    /// A sampler with the texture type it expects.
    Sampler { texture_type: TextureType, reg: Register },
}

/// A float constant declared by `def cN, x, y, z, w`.
///
/// The four lanes are kept as IEEE-754 single-precision bit patterns.
#[derive(Clone, Copy, Debug, PartialEq, Eq)]
pub struct DefConstant {
    pub reg: Register,
    pub value: [u32; 4],
}

/// An integer constant declared by `defi iN, x, y, z, w`.
///
/// Holds loop limits: `loop aL, iN` reads the iteration count from `x`, the
/// first value of `aL` from `y` and its step from `z`; `rep iN` reads `x`.
#[derive(Clone, Copy, Debug, PartialEq, Eq)]
pub struct DefIntConstant {
    pub reg: Register,
    pub value: [i32; 4],
}

/// A boolean constant declared by `defb bN, value`.
#[derive(Clone, Copy, Debug, PartialEq, Eq)]
pub struct DefBoolConstant {
    pub reg: Register,
    pub value: bool,
}

/// A declaration that gives a constant register its value.
pub trait Definition {
    /// The register that gets the value.
    spec fn defined(&self) -> Register;

    /// The register that gets the value.
    fn register(&self) -> (r: Register)
        ensures
            r == self.defined(),
    ;
}

impl Definition for DefConstant {
    open spec fn defined(&self) -> Register {
        self.reg
    }

    fn register(&self) -> (r: Register) {
        self.reg
    }
}

impl Definition for DefIntConstant {
    open spec fn defined(&self) -> Register {
        self.reg
    }

    fn register(&self) -> (r: Register) {
        self.reg
    }
}

impl Definition for DefBoolConstant {
    open spec fn defined(&self) -> Register {
        self.reg
    }

    fn register(&self) -> (r: Register) {
        self.reg
    }
}

/// What is done to a source operand before the instruction reads it.
#[derive(Clone, Copy, Debug, PartialEq, Eq, Structural)]
pub enum SrcModifier {
    Unmodified,
    Neg,
    Bias,
    BiasNeg,
    Sign,
    SignNeg,
    Comp,
    X2,
    X2Neg,
    Dz,
    Dw,
    Abs,
    AbsNeg,
    Not,
}

/// Lane selection of a source operand: lane `i` reads component `self.0[i]`.
#[derive(Clone, Copy, Debug, PartialEq, Eq)]
pub struct Swizzle(pub [u8; 4]);

impl Swizzle {
    /// The swizzle `.xyzw`.
    pub open spec fn spec_identity() -> Swizzle {
        Swizzle([0u8, 1u8, 2u8, 3u8])
    }

    /// The swizzle `.xyzw`.
    pub fn identity() -> (r: Swizzle)
        ensures
            r == Swizzle::spec_identity(),
    {
        Swizzle([0, 1, 2, 3])
    }

    /// Whether every lane reads its own component.
    pub open spec fn keeps_lanes(self) -> bool {
        self.0[0] == 0 && self.0[1] == 1 && self.0[2] == 2 && self.0[3] == 3
    }

    /// Whether every lane selects one of the four components.
    pub open spec fn in_range(self) -> bool {
        self.0[0] < 4 && self.0[1] < 4 && self.0[2] < 4 && self.0[3] < 4
    }
}

/// The components that a destination operand writes, one bit each.
#[derive(Clone, Copy, Debug, PartialEq, Eq, Structural)]
pub struct WriteMask(pub u8);

impl WriteMask {
    /// The mask `.xyzw`.
    pub open spec fn spec_all() -> WriteMask {
        WriteMask(0b1111)
    }

    /// The mask `.xyzw`.
    pub fn all() -> (r: WriteMask)
        ensures
            r == WriteMask::spec_all(),
    {
        WriteMask(0b1111)
    }

    /// Whether bit `component` of the mask is set.
    pub open spec fn has(self, component: u8) -> bool {
        self.0 & (1u8 << component) != 0
    }

    /// Whether the mask writes `component`.
    pub fn covers(self, component: u8) -> (r: bool)
        requires
            component < 8,
        ensures
            r == self.has(component),
    {
        self.0 & (1u8 << component) != 0
    }
}

/// The index register of a relative source read.
#[derive(Clone, Copy, Debug, PartialEq, Eq)]
pub struct RelativeAddr {
    pub reg: Register,
    pub swizzle: Swizzle,
}

/// Destination result modifiers.
#[derive(Clone, Copy, Debug, PartialEq, Eq, Structural)]
pub struct DstMods {
    pub bits: u8,
}

impl DstMods {
    /// `_sat`: clamp the result to `[0, 1]`.
    pub const SATURATE: u8 = 1;

    /// `_pp`: partial-precision hint.
    pub const PARTIAL_PRECISION: u8 = 2;

    /// `_centroid`: centroid interpolation hint.
    pub const CENTROID: u8 = 4;

    /// No modifier.
    pub fn empty() -> (r: DstMods)
        ensures
            r.bits == 0,
    {
        DstMods { bits: 0 }
    }

    /// Whether all bits of `flag` are set.
    pub open spec fn has(self, flag: u8) -> bool {
        self.bits & flag == flag
    }

    /// Whether all bits of `flag` are set.
    pub fn contains(self, flag: u8) -> (r: bool)
        ensures
            r == self.has(flag),
    {
        self.bits & flag == flag
    }
}

/// A destination operand.
#[derive(Clone, Copy, Debug, PartialEq, Eq, Structural)]
pub struct DstOperand {
    pub reg: Register,
    pub write_mask: WriteMask,
    pub mods: DstMods,
    /// The result is multiplied by two to this power.
    pub shift_scale: i8,
}

/// A source operand.
#[derive(Clone, Copy, Debug, PartialEq, Eq)]
pub struct SrcOperand {
    pub reg: Register,
    pub swizzle: Swizzle,
    pub modifier: SrcModifier,
    pub rel_addr: Option<RelativeAddr>,
}

/// The comparison of an `ifc`, `breakc` or `setp` instruction.
#[derive(Clone, Copy, Debug, PartialEq, Eq, Structural)]
pub enum CmpFunc {
    Gt,
    Eq,
    Ge,
    Lt,
    Ne,
    Le,
}

impl CmpFunc {
    /// The number that encodes this comparison (`D3DSPC_*`).
    pub open spec fn code(self) -> u8 {
        match self {
            CmpFunc::Gt => 1,
            CmpFunc::Eq => 2,
            CmpFunc::Ge => 3,
            CmpFunc::Lt => 4,
            CmpFunc::Ne => 5,
            CmpFunc::Le => 6,
        }
    }

    /// The comparison encoded by `raw`; `None` where there is none.
    pub open spec fn decoded(raw: u8) -> Option<CmpFunc> {
        match raw {
            1 => Some(CmpFunc::Gt),
            2 => Some(CmpFunc::Eq),
            3 => Some(CmpFunc::Ge),
            4 => Some(CmpFunc::Lt),
            5 => Some(CmpFunc::Ne),
            6 => Some(CmpFunc::Le),
            _ => None,
        }
    }

    /// The Metal operator of this comparison.
    pub open spec fn operator(self) -> Seq<char> {
        match self {
            CmpFunc::Gt => ">"@,
            CmpFunc::Eq => "=="@,
            CmpFunc::Ge => ">="@,
            CmpFunc::Lt => "<"@,
            CmpFunc::Ne => "!="@,
            CmpFunc::Le => "<="@,
        }
    }

    /// Decodes a comparison number.
    pub fn from_raw(raw: u8) -> (r: Option<CmpFunc>)
        ensures
            r == CmpFunc::decoded(raw),
            match r {
                Some(f) => f.code() == raw,
                None => forall|f: CmpFunc| (#[trigger] f.code()) != raw,
            },
    {
        Some(
            match raw {
                1 => CmpFunc::Gt,
                2 => CmpFunc::Eq,
                3 => CmpFunc::Ge,
                4 => CmpFunc::Lt,
                5 => CmpFunc::Ne,
                6 => CmpFunc::Le,
                _ => return None,
            },
        )
    }

    /// The Metal operator of this comparison.
    pub fn op(self) -> (r: &'static str)
        ensures
            r@ == self.operator(),
    {
        match self {
            CmpFunc::Gt => ">",
            CmpFunc::Eq => "==",
            CmpFunc::Ge => ">=",
            CmpFunc::Lt => "<",
            CmpFunc::Ne => "!=",
            CmpFunc::Le => "<=",
        }
    }
}

/// Control flags of an instruction.
#[derive(Clone, Copy, Debug, PartialEq, Eq, Structural)]
pub struct InstrFlags {
    pub bits: u8,
}

impl InstrFlags {
    /// Execution is gated by `Instruction::predicate`.
    pub const PREDICATED: u8 = 1;

    /// `texldp`: the coordinate is divided by its `.w` before sampling.
    pub const TEX_PROJECTED: u8 = 2;

    /// Co-issued with the preceding instruction. Only `cnd` honours it.
    pub const COISSUE: u8 = 4;

    /// No flag.
    pub fn empty() -> (r: InstrFlags)
        ensures
            r.bits == 0,
    {
        InstrFlags { bits: 0 }
    }

    /// The flags with exactly the given ones set.
    pub open spec fn of(predicated: bool, tex_projected: bool, coissue: bool) -> InstrFlags {
        InstrFlags {
            bits: (if predicated { InstrFlags::PREDICATED } else { 0 })
                | (if tex_projected { InstrFlags::TEX_PROJECTED } else { 0 })
                | (if coissue { InstrFlags::COISSUE } else { 0 }),
        }
    }

    /// Whether all bits of `flag` are set.
    pub open spec fn has(self, flag: u8) -> bool {
        self.bits & flag == flag
    }

    /// Whether all bits of `flag` are set.
    pub fn contains(self, flag: u8) -> (r: bool)
        ensures
            r == self.has(flag),
    {
        self.bits & flag == flag
    }

    /// Builds the flags from one condition each.
    pub fn from_conditions(predicated: bool, tex_projected: bool, coissue: bool) -> (r: InstrFlags)
        ensures
            r == InstrFlags::of(predicated, tex_projected, coissue),
            r.has(InstrFlags::PREDICATED) == predicated,
            r.has(InstrFlags::TEX_PROJECTED) == tex_projected,
            r.has(InstrFlags::COISSUE) == coissue,
    {
        let p: u8 = if predicated { InstrFlags::PREDICATED } else { 0 };
        let t: u8 = if tex_projected { InstrFlags::TEX_PROJECTED } else { 0 };
        let c: u8 = if coissue { InstrFlags::COISSUE } else { 0 };
        assert(((p | t | c) & 1 == 1) == (p == 1) && ((p | t | c) & 2 == 2) == (t == 2) && ((p | t
            | c) & 4 == 4) == (c == 4)) by (bit_vector)
            requires
                p == 0 || p == 1,
                t == 0 || t == 2,
                c == 0 || c == 4,
        ;
        InstrFlags { bits: p | t | c }
    }
}

/// One instruction.
#[derive(Debug)]
pub struct Instruction {
    pub opcode: Opcode,
    pub dst: Option<DstOperand>,
    pub srcs: Vec<SrcOperand>,
    pub flags: InstrFlags,
    /// The gating operand of a predicated instruction.
    pub predicate: Option<SrcOperand>,
    /// The comparison of `ifc`, `breakc` and `setp`; `None` for the others.
    pub cmp_func: Option<CmpFunc>,
}

/// The mathematical content of an [`Instruction`].
pub struct InstructionView {
    pub opcode: Opcode,
    pub dst: Option<DstOperand>,
    pub srcs: Seq<SrcOperand>,
    pub flags: InstrFlags,
    pub predicate: Option<SrcOperand>,
    pub cmp_func: Option<CmpFunc>,
}

impl View for Instruction {
    type V = InstructionView;

    open spec fn view(&self) -> InstructionView {
        InstructionView {
            opcode: self.opcode,
            dst: self.dst,
            srcs: self.srcs@,
            flags: self.flags,
            predicate: self.predicate,
            cmp_func: self.cmp_func,
        }
    }
}

impl Instruction {
    /// An instruction of the given parts.
    pub fn new(
        opcode: Opcode,
        dst: Option<DstOperand>,
        srcs: Vec<SrcOperand>,
        flags: InstrFlags,
        predicate: Option<SrcOperand>,
        comparison: Option<CmpFunc>,
    ) -> (r: Instruction)
        ensures
            r@ == (InstructionView {
                opcode,
                dst,
                srcs: srcs@,
                flags,
                predicate,
                cmp_func: comparison,
            }),
    {
        Instruction { opcode, dst, srcs, flags, predicate, cmp_func: comparison }
    }
}

/// The instructions of a body.
pub open spec fn body_view(body: Seq<Instruction>) -> Seq<InstructionView> {
    body.map_values(|i: Instruction| i@)
}

/// A parsed program.
#[derive(Debug)]
pub struct DxsoProgram {
    pub shader_type: ShaderType,
    pub major: u8,
    pub minor: u8,
    pub declarations: Vec<Declaration>,
    pub def_constants: Vec<DefConstant>,
    pub def_int_constants: Vec<DefIntConstant>,
    pub def_bool_constants: Vec<DefBoolConstant>,
    pub instructions: Vec<Instruction>,
    /// The bodies between `label sN` and `ret`, by label.
    pub subroutines: BTreeMap<u32, Vec<Instruction>>,
}

/// The mathematical content of a [`DxsoProgram`].
#[verifier::ext_equal]
pub struct ProgramView {
    pub shader_type: ShaderType,
    pub major: u8,
    pub minor: u8,
    pub declarations: Seq<Declaration>,
    pub def_constants: Seq<DefConstant>,
    pub def_int_constants: Seq<DefIntConstant>,
    pub def_bool_constants: Seq<DefBoolConstant>,
    pub instructions: Seq<InstructionView>,
    pub subroutines: Map<u32, Seq<InstructionView>>,
}

impl View for DxsoProgram {
    type V = ProgramView;

    open spec fn view(&self) -> ProgramView {
        ProgramView {
            shader_type: self.shader_type,
            major: self.major,
            minor: self.minor,
            declarations: self.declarations@,
            def_constants: self.def_constants@,
            def_int_constants: self.def_int_constants@,
            def_bool_constants: self.def_bool_constants@,
            instructions: body_view(self.instructions@),
            subroutines: self.subroutines@.map_values(|b: Vec<Instruction>| body_view(b@)),
        }
    }
}

/// Why a token stream is not a program.
#[derive(Clone, Copy, Debug, PartialEq, Eq, Structural)]
pub enum DxsoError {
    /// The stream ended before the program was complete.
    Truncated,
    /// The first token is no shader header.
    InvalidHeader,
    /// A shader model outside the modelled range.
    UnsupportedShaderModel { major: u8, minor: u8 },
    /// A control-flow instruction that is not modelled.
    UnsupportedControlFlow,
    /// No opcode has this number.
    UnknownOpcode(u16),
    /// No register file has this type number.
    UnknownRegisterType(u32),
    /// A relative-addressed destination operand.
    UnsupportedRelativeAddressing,
    /// No declaration usage has this number.
    UnknownDeclUsage(u8),
}

} // verus!
