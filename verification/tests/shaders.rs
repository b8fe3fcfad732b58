//! Errors, limits and laws of parsing and translation on concrete programs.

use mtld3d_core::dxso::emit::context::EmitContext;
use mtld3d_core::dxso::emit::error::EmitError;
use mtld3d_core::dxso::emit::floats::{clamp_to_unit, fmt_float, power_of_two_bits, FloatTexts};
use mtld3d_core::dxso::emit::lower::Lowering;
use mtld3d_core::dxso::emit::pixel::{
    emit_ps_checked, emit_ps_programmable, emit_ps_programmable_named, DEFAULT_PS_ENTRY,
};
use mtld3d_core::dxso::emit::variant::{VariantFlags, VariantKey};
use mtld3d_core::dxso::emit::vertex::{
    emit_vs_checked, emit_vs_programmable, emit_vs_programmable_named, DEFAULT_VS_ENTRY,
};
use mtld3d_core::dxso::ff::key::{
    FfPsKey, FfStage, FfStageFlags, FfStageResult, FfVsFlags, FfVsKey, TT_PROJECTED,
};
use mtld3d_core::dxso::ff::pixel::{emit_ps_ff, emit_ps_ff_named};
use mtld3d_core::dxso::ff::vertex::{emit_vs_ff, emit_vs_ff_named};
use mtld3d_core::dxso::ir::{
    Declaration, DefBoolConstant, DefConstant, DefIntConstant, DstMods, DstOperand, DxsoError,
    DxsoProgram, InstrFlags, Instruction, RegKind, Register, RelativeAddr, ShaderType, SrcModifier,
    SrcOperand, Swizzle, TextureType, WriteMask,
};
use mtld3d_core::dxso::opcode::Opcode;
use mtld3d_core::dxso::parser::{decode_reg_type, parse};
use std::collections::BTreeMap;

const VS2: u32 = 0xFFFE_0200;
const PS1: u32 = 0xFFFF_0101;
const PS2: u32 = 0xFFFF_0200;
const END: u32 = 0x0000_FFFF;

/// The token of an instruction with `count` operand tokens.
fn op(number: u32, count: u32) -> u32 {
    number | (count << 24)
}

/// The token of a register of file `kind`, all components.
fn dst(kind: u32, index: u32) -> u32 {
    0x800F_0000 | ((kind & 7) << 28) | ((kind >> 3) << 11) | index
}

/// The token of a register of file `kind`, in its own order.
fn src(kind: u32, index: u32) -> u32 {
    0x80E4_0000 | ((kind & 7) << 28) | ((kind >> 3) << 11) | index
}

fn reg(kind: RegKind, index: u16) -> Register {
    Register { kind, index }
}

fn read(kind: RegKind, index: u16) -> SrcOperand {
    SrcOperand {
        reg: reg(kind, index),
        swizzle: Swizzle::identity(),
        modifier: SrcModifier::Unmodified,
        rel_addr: None,
    }
}

fn write(kind: RegKind, index: u16) -> DstOperand {
    DstOperand {
        reg: reg(kind, index),
        write_mask: WriteMask::all(),
        mods: DstMods::empty(),
        shift_scale: 0,
    }
}

fn program(shader_type: ShaderType, instructions: Vec<Instruction>) -> DxsoProgram {
    DxsoProgram {
        shader_type,
        major: 2,
        minor: 0,
        declarations: vec![],
        def_constants: vec![],
        def_int_constants: vec![],
        def_bool_constants: vec![],
        instructions,
        subroutines: BTreeMap::new(),
    }
}

fn instruction(opcode: Opcode, to: Option<DstOperand>, from: Vec<SrcOperand>) -> Instruction {
    Instruction::new(opcode, to, from, InstrFlags::empty(), None, None)
}

fn texts_of(prog: &DxsoProgram) -> FloatTexts {
    let mut texts = FloatTexts::new();
    for bits in prog.float_bits() {
        texts.insert(bits, format!("{}", f32::from_bits(bits)));
    }
    texts
}

fn vs_text(bytecode: &[u32]) -> String {
    let prog = parse(bytecode).expect("the program parses");
    assert!(prog.is_translatable());
    emit_vs_programmable(&prog, &texts_of(&prog)).expect("the program translates")
}

fn ps_text(bytecode: &[u32], variant: VariantKey) -> String {
    let prog = parse(bytecode).expect("the program parses");
    assert!(prog.is_translatable());
    emit_ps_programmable(&prog, variant, &texts_of(&prog)).expect("the program translates")
}

#[test]
fn each_parse_error_has_its_input() {
    assert_eq!(parse(&[]).unwrap_err(), DxsoError::Truncated);
    assert_eq!(parse(&[VS2]).unwrap_err(), DxsoError::Truncated);
    assert_eq!(parse(&[0x1234_0200, END]).unwrap_err(), DxsoError::InvalidHeader);
    assert_eq!(
        parse(&[0xFFFE_0100, END]).unwrap_err(),
        DxsoError::UnsupportedShaderModel { major: 1, minor: 0 }
    );
    assert_eq!(
        parse(&[0xFFFF_0105, END]).unwrap_err(),
        DxsoError::UnsupportedShaderModel { major: 1, minor: 5 }
    );
    assert_eq!(
        parse(&[VS2, op(0x1234, 0), END]).unwrap_err(),
        DxsoError::UnknownOpcode(0x1234)
    );
    assert_eq!(
        parse(&[VS2, op(1, 2), dst(0, 0), src(12, 0), END]).unwrap_err(),
        DxsoError::UnknownRegisterType(12)
    );
    assert_eq!(
        parse(&[VS2, op(1, 2), dst(0, 0) | 0x2000, src(0, 0), END]).unwrap_err(),
        DxsoError::UnsupportedRelativeAddressing
    );
    assert_eq!(
        parse(&[VS2, op(31, 2), 0x8000_001F, dst(1, 0), END]).unwrap_err(),
        DxsoError::UnknownDeclUsage(31)
    );
}

#[test]
fn what_follows_the_end_is_not_read() {
    let bare = [VS2, op(1, 2), dst(4, 0), src(1, 0), END];
    let mut longer = bare.to_vec();
    longer.extend([0x1234_5678, op(0x1234, 3), 0xFFFF_FFFF]);
    assert_eq!(vs_text(&bare), vs_text(&longer));
}

#[test]
fn the_other_shader_type_is_refused() {
    let vs = parse(&[VS2, END]).expect("an empty program parses");
    let ps = parse(&[PS2, END]).expect("an empty program parses");
    let texts = FloatTexts::new();
    assert!(matches!(
        emit_vs_programmable(&ps, &texts),
        Err(EmitError::WrongShaderType)
    ));
    assert!(matches!(
        emit_ps_programmable(&vs, VariantKey::default(), &texts),
        Err(EmitError::WrongShaderType)
    ));
}

#[test]
fn an_opcode_without_a_lowering_is_refused() {
    let prog = program(
        ShaderType::Vertex,
        vec![instruction(Opcode::Phase, None, vec![])],
    );
    assert!(prog.is_translatable());
    match emit_vs_programmable(&prog, &FloatTexts::new()) {
        Err(EmitError::UnsupportedInstruction(name)) => assert_eq!(name, "Phase"),
        other => panic!("{other:?}"),
    }
}

#[test]
fn an_instruction_without_its_destination_is_refused() {
    let prog = program(
        ShaderType::Pixel,
        vec![instruction(Opcode::TexKill, None, vec![])],
    );
    assert!(prog.is_translatable());
    match emit_ps_programmable(&prog, VariantKey::default(), &FloatTexts::new()) {
        Err(EmitError::UnsupportedInstruction(name)) => {
            assert_eq!(name, "texkill missing dst operand")
        }
        other => panic!("{other:?}"),
    }
}

#[test]
fn a_register_file_that_cannot_be_read_is_refused() {
    let prog = program(
        ShaderType::Vertex,
        vec![instruction(
            Opcode::Mov,
            Some(write(RegKind::Temp, 0)),
            vec![read(RegKind::ConstBool, 0)],
        )],
    );
    assert!(prog.is_translatable());
    match emit_vs_programmable(&prog, &FloatTexts::new()) {
        Err(EmitError::UnsupportedRegisterKind(name)) => assert_eq!(name, "ConstBool"),
        other => panic!("{other:?}"),
    }
}

#[test]
fn a_float_without_a_text_is_reported() {
    // def c0, 0.5, 0.5, 0.5, 0.5; mov r0, c0
    let half: u32 = 0x3F00_0000;
    let bytecode = [
        VS2,
        op(81, 5),
        dst(2, 0),
        half,
        half,
        half,
        half,
        op(1, 2),
        dst(0, 0),
        src(2, 0),
        END,
    ];
    let prog = parse(&bytecode).expect("the program parses");
    assert!(prog.float_bits().contains(&half));
    assert!(prog.float_bits().iter().all(|bits| *bits == half));
    match emit_vs_programmable(&prog, &FloatTexts::new()) {
        Err(EmitError::MissingFloatText(bits)) => assert_eq!(bits, half),
        other => panic!("{other:?}"),
    }
    let text = vs_text(&bytecode);
    assert!(
        text.contains("    float4 c0 = float4(0.5, 0.5, 0.5, 0.5);\n"),
        "{text}"
    );
}

#[test]
fn a_program_that_lacks_operands_is_not_translatable() {
    let lacking = program(
        ShaderType::Vertex,
        vec![instruction(
            Opcode::Add,
            Some(write(RegKind::Temp, 0)),
            vec![read(RegKind::Temp, 1)],
        )],
    );
    assert!(!lacking.is_translatable());
    let whole = program(
        ShaderType::Vertex,
        vec![instruction(
            Opcode::Add,
            Some(write(RegKind::Temp, 0)),
            vec![read(RegKind::Temp, 1), read(RegKind::Temp, 2)],
        )],
    );
    assert!(whole.is_translatable());
    let text = emit_vs_programmable(&whole, &FloatTexts::new()).expect("it translates");
    assert!(text.contains("    r[0] = (r[1] + r[2]);\n"), "{text}");
}

#[test]
fn float_literals_are_exact() {
    let mut texts = FloatTexts::new();
    for value in [1.0f32, -0.5, 0.0, 1.0e20, 0.1] {
        texts.insert(value.to_bits(), format!("{value}"));
    }
    assert_eq!(fmt_float(1.0f32.to_bits(), &texts).unwrap(), "1.0");
    assert_eq!(fmt_float((-0.5f32).to_bits(), &texts).unwrap(), "-0.5");
    assert_eq!(fmt_float(0, &texts).unwrap(), "0.0");
    assert_eq!(fmt_float(0.1f32.to_bits(), &texts).unwrap(), "0.1");
    assert_eq!(
        fmt_float(1.0e20f32.to_bits(), &texts).unwrap(),
        "100000000000000000000.0"
    );
    assert_eq!(fmt_float(f32::NAN.to_bits(), &texts).unwrap(), "NAN");
    assert_eq!(
        fmt_float(f32::INFINITY.to_bits(), &texts).unwrap(),
        "INFINITY"
    );
    assert_eq!(
        fmt_float(f32::NEG_INFINITY.to_bits(), &texts).unwrap(),
        "-INFINITY"
    );
    assert!(matches!(
        fmt_float(2.0f32.to_bits(), &texts),
        Err(EmitError::MissingFloatText(0x4000_0000))
    ));
}

#[test]
fn float_patterns_follow_the_arithmetic() {
    for value in [
        0.0f32,
        -0.0,
        0.25,
        1.0,
        -1.0,
        1.0000001,
        -3.5,
        f32::MAX,
        f32::MIN,
        f32::INFINITY,
        f32::NEG_INFINITY,
        f32::MIN_POSITIVE,
    ] {
        let clamped = clamp_to_unit(value.to_bits());
        assert_eq!(clamped, value.clamp(-1.0, 1.0).to_bits(), "{value}");
        assert_eq!(clamp_to_unit(clamped), clamped);
    }
    assert!(f32::from_bits(clamp_to_unit(f32::NAN.to_bits())).is_nan());
    for e in -8..8i8 {
        assert_eq!(power_of_two_bits(e), 2.0f32.powi(i32::from(e)).to_bits());
    }
}

#[test]
fn every_stage_has_the_same_varyings() {
    let vs = vs_text(&[VS2, END]);
    let start = vs.find("struct Varyings {").expect("a vertex shader has varyings");
    let end = start + vs[start..].find("};").expect("the structure ends");
    let varyings = &vs[start..end];
    assert!(ps_text(&[PS2, END], VariantKey::default()).contains(varyings));
    assert!(emit_vs_ff(&fixed_vs()).contains(varyings));
    assert!(emit_ps_ff(&fixed_ps(), VariantKey::default()).contains(varyings));
    let flat = VariantKey {
        flags: VariantFlags::from_bits(VariantFlags::FLAT_SHADE),
        ..VariantKey::default()
    };
    assert!(!ps_text(&[PS2, END], flat).contains(varyings));
}

#[test]
fn bound_buffers_are_declared() {
    let plain = ps_text(&[PS2, END], VariantKey::default());
    for argument in ["alpha_ref", "fog_data", "bump_env"] {
        assert!(!plain.contains(argument), "{plain}");
    }
    let variant = VariantKey {
        alpha_func: 5,
        fog_mode: 1,
        ..VariantKey::default()
    };
    // tex t0; texbem t1, t0
    let bumped = ps_text(
        &[PS1, op(66, 0), dst(3, 0), op(67, 0), dst(3, 1), src(3, 0), END],
        variant,
    );
    assert!(bumped.contains(",\n    constant float &alpha_ref [[buffer(14)]]"));
    assert!(bumped.contains(",\n    constant float4 *fog_data [[buffer(13)]]"));
    assert!(bumped.contains(",\n    constant float4 *bump_env [[buffer(12)]]"));
    // rep i0; endrep
    let counted = vs_text(&[VS2, op(38, 1), src(7, 0), op(39, 0), END]);
    assert!(counted.contains(",\n    constant int4 *vs_i [[buffer(14)]]"));
    assert!(!vs_text(&[VS2, END]).contains("vs_i"));
}

#[test]
fn nested_loops_have_counters_of_their_own() {
    // loop aL, i0; loop aL, i1; endloop; endloop; loop aL, i0; endloop
    let text = vs_text(&[
        VS2,
        op(27, 2),
        src(15, 0),
        src(7, 0),
        op(27, 2),
        src(15, 0),
        src(7, 1),
        op(29, 0),
        op(29, 0),
        op(27, 2),
        src(15, 0),
        src(7, 0),
        op(29, 0),
        END,
    ]);
    for head in ["for (int aL_0 = ", "for (int aL_1 = ", "for (int aL_2 = "] {
        assert_eq!(text.matches(head).count(), 1, "{text}");
    }
}

#[test]
fn a_call_of_a_missing_label_is_dropped() {
    let bare = vs_text(&[VS2, op(1, 2), dst(4, 0), src(1, 0), END]);
    let calling = vs_text(&[
        VS2,
        op(1, 2),
        dst(4, 0),
        src(1, 0),
        op(25, 1),
        src(18, 9),
        END,
    ]);
    assert_eq!(bare, calling);
}

#[test]
fn a_recursive_call_ends() {
    // call l0; label l0; mov r0, v0; call l0; ret
    let text = vs_text(&[
        VS2,
        op(25, 1),
        src(18, 0),
        op(30, 1),
        src(18, 0),
        op(1, 2),
        dst(0, 0),
        src(1, 0),
        op(25, 1),
        src(18, 0),
        op(28, 0),
        END,
    ]);
    assert_eq!(text.matches("    r[0] = in.v0;\n").count(), 1, "{text}");
}

#[test]
fn entry_points_can_be_named() {
    let vs = parse(&[VS2, END]).expect("an empty program parses");
    let ps = parse(&[PS2, END]).expect("an empty program parses");
    let texts = FloatTexts::new();
    let named = emit_vs_programmable_named(&vs, "vertex_7", u16::MAX, &texts).unwrap();
    assert!(named.contains("vertex Varyings vertex_7("));
    let plain = emit_vs_programmable(&vs, &texts).unwrap();
    assert_eq!(plain, named.replace("vertex_7", DEFAULT_VS_ENTRY));
    let variant = VariantKey::default();
    let named = emit_ps_programmable_named(&ps, variant, "pixel_7", &texts).unwrap();
    assert!(named.contains("fragment float4 pixel_7("));
    let plain = emit_ps_programmable(&ps, variant, &texts).unwrap();
    assert_eq!(plain, named.replace("pixel_7", DEFAULT_PS_ENTRY));
    assert!(emit_vs_ff_named(&fixed_vs(), "vertex_7").contains("vertex_7("));
    assert!(emit_ps_ff_named(&fixed_ps(), variant, "pixel_7").contains("pixel_7("));
}

#[test]
fn stages_after_a_disabled_one_do_not_matter() {
    let mut a = fixed_ps();
    a.stages[0] = FfStage {
        color_op: 4,
        color_arg1: 2,
        color_arg2: 1,
        alpha_op: 2,
        alpha_arg1: 2,
        flags: FfStageFlags::from_bits(FfStageFlags::HAS_TEXTURE),
        ..FfStage::default()
    };
    let mut b = a;
    b.stages[2] = a.stages[0];
    b.stages[2].set_result(FfStageResult::Temp);
    let variant = VariantKey::default();
    assert_eq!(emit_ps_ff(&a, variant), emit_ps_ff(&b, variant));
    assert_eq!(b.sampled_stage_mask(), 1);
    b.stages[1] = a.stages[0];
    assert_eq!(b.sampled_stage_mask(), 0b111);
    assert_ne!(emit_ps_ff(&a, variant), emit_ps_ff(&b, variant));
}

#[test]
fn a_projected_stage_divides_its_coordinate() {
    let mut ps = fixed_ps();
    ps.stages[0] = FfStage {
        color_op: 2,
        color_arg1: 2,
        alpha_op: 2,
        alpha_arg1: 2,
        flags: FfStageFlags::from_bits(FfStageFlags::HAS_TEXTURE),
        ..FfStage::default()
    };
    ps.tt_projected_mask = 1;
    let flat = emit_ps_ff(&ps, VariantKey::default());
    assert!(flat.contains(
        "(in.texcoord0.w != 0.0 ? in.texcoord0.xy / in.texcoord0.w : float2(0.0))"
    ));
    let cube = VariantKey {
        cube_sampler_mask: 1,
        ..VariantKey::default()
    };
    assert!(emit_ps_ff(&ps, cube).contains("s0.sample(samp0, in.texcoord0.xyz)"));
}

#[test]
fn a_projected_transform_keeps_the_divisor() {
    let mut vs = fixed_vs();
    vs.tt_flags[0] = 3 | TT_PROJECTED;
    let text = emit_vs_ff(&vs);
    assert!(text.contains("    out.texcoord0 = float4(r0.x, r0.y, 0.0, r0.z);\n"), "{text}");
    assert!(text.contains("    raw0[2] = 1.0;\n"), "{text}");
}

fn fixed_vs() -> FfVsKey {
    FfVsKey {
        flags: FfVsFlags::from_bits(FfVsFlags::HAS_COLOR0 | FfVsFlags::COLOR_VERTEX),
        input_tex_coord_count: 1,
        tex_coord_count: 1,
        light_active_mask: 0,
        light_directional_mask: 0,
        light_spot_mask: 0,
        diffuse_source: 1,
        ambient_source: 0,
        specular_source: 2,
        emissive_source: 0,
        fog_mode: 0,
        tci_modes: [0; 8],
        tci_coord_indices: [0; 8],
        tex_coord_dims: [2; 8],
        tt_flags: [0; 8],
        vertex_blend_count: 0,
        declared_weights_count: 0,
    }
}

fn fixed_ps() -> FfPsKey {
    FfPsKey {
        stages: [FfStage {
            color_op: 1,
            ..FfStage::default()
        }; 8],
        specular_add: false,
        tt_projected_mask: 0,
    }
}

/// A program whose main body calls `label`, which runs `body`.
fn calling(shader_type: ShaderType, label: u16, body: Vec<Instruction>) -> DxsoProgram {
    let mut prog = program(
        shader_type,
        vec![instruction(
            Opcode::Call,
            None,
            vec![read(RegKind::Label, label)],
        )],
    );
    prog.subroutines.insert(u32::from(label), body);
    prog
}

fn read_relative(index: u16) -> SrcOperand {
    SrcOperand {
        rel_addr: Some(RelativeAddr {
            reg: reg(RegKind::Addr, 0),
            swizzle: Swizzle([0, 0, 0, 0]),
        }),
        ..read(RegKind::Const, index)
    }
}

#[test]
fn boolean_definitions_count_for_the_limit() {
    // defb b0, true
    let defb = |header: u32, index: u32| [header, op(0x2F, 2), 0xE00F_0800 | index, 1, END];
    let ps2 = parse(&defb(PS2, 0)).expect("the program parses");
    assert_eq!(
        ps2.def_bool_constants,
        vec![DefBoolConstant {
            reg: reg(RegKind::ConstBool, 0),
            value: true
        }]
    );
    assert_eq!(ps2.max_const_index(RegKind::ConstBool), None);
    assert!(ps2.violates_constant_register_limits());
    let vs2 = parse(&defb(VS2, 15)).expect("the program parses");
    assert!(!vs2.violates_constant_register_limits());
    let past = parse(&defb(VS2, 16)).expect("the program parses");
    assert!(past.violates_constant_register_limits());
    let vs1 = parse(&defb(0xFFFE_0101, 0)).expect("the program parses");
    assert!(vs1.violates_constant_register_limits());
}

#[test]
fn a_boolean_definition_that_is_cut_off_is_truncated() {
    assert_eq!(
        parse(&[PS2, op(0x2F, 2), 0xE00F_0800]).unwrap_err(),
        DxsoError::Truncated
    );
}

#[test]
fn a_relative_read_in_a_subroutine_has_its_helper() {
    let one = 1.0f32.to_bits();
    let body = vec![instruction(
        Opcode::Mov,
        Some(write(RegKind::Temp, 0)),
        vec![read_relative(3)],
    )];
    let mut prog = calling(ShaderType::Vertex, 2, body);
    prog.def_constants = vec![
        DefConstant {
            reg: reg(RegKind::Const, 7),
            value: [one; 4],
        },
        DefConstant {
            reg: reg(RegKind::Const, 9),
            value: [0; 4],
        },
    ];
    assert!(prog.uses_relative_const_addressing());
    assert!(prog.is_translatable());
    let vs = emit_vs_programmable(&prog, &texts_of(&prog)).expect("the program translates");
    prog.shader_type = ShaderType::Pixel;
    let ps = emit_ps_programmable(&prog, VariantKey::default(), &texts_of(&prog))
        .expect("the program translates");
    for (text, function, buffer) in [(&vs, "vertex Varyings ", "vs_c"), (&ps, "fragment ", "ps_c")]
    {
        let helper = text
            .find("inline float4 mtld3d_const_rel(int idx, constant float4 *cb) {\n")
            .expect("the helper is defined");
        let head = text.find(function).expect("there is a function");
        let call = text
            .find(&format!("mtld3d_const_rel(a.x + 3, {buffer})"))
            .expect("the helper is called");
        assert!(helper < head && head < call, "{text}");
        assert!(
            text.contains("        case 7: return float4(1.0, 1.0, 1.0, 1.0);\n"),
            "{text}"
        );
        assert!(
            text.contains("        case 9: return float4(0.0, 0.0, 0.0, 0.0);\n"),
            "{text}"
        );
    }
}

#[test]
fn a_program_without_relative_reads_has_no_helper() {
    let body = vec![instruction(
        Opcode::Mov,
        Some(write(RegKind::Temp, 0)),
        vec![read(RegKind::Const, 3)],
    )];
    let mut prog = calling(ShaderType::Vertex, 2, body);
    prog.def_constants = vec![DefConstant {
        reg: reg(RegKind::Const, 7),
        value: [0; 4],
    }];
    assert!(!prog.uses_relative_const_addressing());
    let text = emit_vs_programmable(&prog, &texts_of(&prog)).expect("the program translates");
    assert!(!text.contains("mtld3d_const_rel"), "{text}");
}

#[test]
fn an_integer_read_in_a_subroutine_needs_its_buffer() {
    let body = vec![
        instruction(Opcode::Rep, None, vec![read(RegKind::ConstInt, 1)]),
        instruction(Opcode::EndRep, None, vec![]),
    ];
    let mut prog = calling(ShaderType::Vertex, 0, body);
    assert!(prog.uses_dynamic_int_constants());
    let text = emit_vs_programmable(&prog, &texts_of(&prog)).expect("the program translates");
    assert!(
        text.contains(",\n    constant int4 *vs_i [[buffer(14)]]"),
        "{text}"
    );
    prog.def_int_constants = vec![DefIntConstant {
        reg: reg(RegKind::ConstInt, 1),
        value: [4, 0, 1, 0],
    }];
    assert!(!prog.uses_dynamic_int_constants());
    let text = emit_vs_programmable(&prog, &texts_of(&prog)).expect("the program translates");
    assert!(!text.contains("vs_i"), "{text}");
}

#[test]
fn a_bump_in_a_subroutine_needs_the_matrices() {
    let body = vec![instruction(
        Opcode::Bem,
        Some(write(RegKind::Temp, 0)),
        vec![read(RegKind::Temp, 1), read(RegKind::Temp, 2)],
    )];
    let prog = calling(ShaderType::Pixel, 0, body);
    assert!(prog.uses_bump_env());
    assert!(prog.is_translatable());
    let text = emit_ps_programmable(&prog, VariantKey::default(), &texts_of(&prog))
        .expect("the program translates");
    assert!(
        text.contains(",\n    constant float4 *bump_env [[buffer(12)]]"),
        "{text}"
    );
}

#[test]
fn a_depth_write_in_a_subroutine_is_returned() {
    let body = vec![instruction(
        Opcode::Mov,
        Some(write(RegKind::DepthOut, 0)),
        vec![read(RegKind::Temp, 1)],
    )];
    let prog = calling(ShaderType::Pixel, 0, body);
    let text = emit_ps_programmable(&prog, VariantKey::default(), &texts_of(&prog))
        .expect("the program translates");
    assert!(text.contains("fragment PsOut "), "{text}");
    assert!(text.contains("    _ps_out.oDepth = _depth_storage.x;\n"), "{text}");
}

#[test]
fn an_implicit_sampler_of_a_subroutine_is_bound() {
    let body = vec![instruction(
        Opcode::TexLd,
        Some(write(RegKind::Addr, 2)),
        vec![],
    )];
    let mut prog = calling(ShaderType::Pixel, 0, body);
    prog.major = 1;
    prog.minor = 1;
    assert!(prog.is_translatable());
    let text = emit_ps_programmable(&prog, VariantKey::default(), &texts_of(&prog))
        .expect("the program translates");
    assert!(
        text.contains(",\n    texture2d<float> s2 [[texture(2)]],\n    sampler samp2 [[sampler(2)]]"),
        "{text}"
    );
}

#[test]
fn a_constant_read_in_a_subroutine_counts_for_the_limit() {
    let body = |index: u16| {
        vec![instruction(
            Opcode::Mov,
            Some(write(RegKind::Temp, 0)),
            vec![read(RegKind::Const, index)],
        )]
    };
    let within = calling(ShaderType::Pixel, 0, body(31));
    assert!(!within.violates_constant_register_limits());
    let past = calling(ShaderType::Pixel, 0, body(32));
    assert!(past.violates_constant_register_limits());
    assert_eq!(past.max_const_reg(), None);
    let matrix = |index: u16| {
        vec![instruction(
            Opcode::M4x4,
            Some(write(RegKind::Temp, 0)),
            vec![read(RegKind::Temp, 1), read(RegKind::Const, index)],
        )]
    };
    assert!(!calling(ShaderType::Pixel, 0, matrix(28)).violates_constant_register_limits());
    assert!(calling(ShaderType::Pixel, 0, matrix(29)).violates_constant_register_limits());
    assert!(calling(ShaderType::Pixel, 0, matrix(u16::MAX)).violates_constant_register_limits());
}

#[test]
fn a_subroutine_that_nothing_calls_may_lack_operands() {
    let lacking = || vec![instruction(Opcode::Add, Some(write(RegKind::Temp, 0)), vec![])];
    let mut prog = calling(ShaderType::Vertex, 0, vec![]);
    prog.subroutines.insert(5, lacking());
    assert!(prog.is_translatable());
    emit_vs_programmable(&prog, &texts_of(&prog)).expect("the program translates");
    assert!(!calling(ShaderType::Vertex, 0, lacking()).is_translatable());
}

#[test]
fn a_failed_instruction_leaves_the_translation() {
    let prog = program(ShaderType::Vertex, vec![]);
    let texts = FloatTexts::new();
    let ctx = EmitContext::vs(&prog, &texts, u16::MAX);
    let opcodes = [
        Opcode::Dcl,
        Opcode::Def,
        Opcode::DefI,
        Opcode::DefB,
        Opcode::Label,
        Opcode::Phase,
        Opcode::End,
        Opcode::Comment,
        Opcode::BreakP,
    ];
    for opcode in opcodes {
        let mut lowering = Lowering {
            out: String::from("before\n"),
            loops: vec![Some(3)],
            next_al: 4,
        };
        let refused = lowering.translate_instruction(
            &instruction(opcode, None, vec![]),
            &ctx,
            &mut vec![],
        );
        assert!(
            matches!(refused, Err(EmitError::UnsupportedInstruction(_))),
            "{opcode:?}"
        );
        assert_eq!(lowering.out, "before\n");
        assert_eq!(lowering.loops, vec![Some(3)]);
        assert_eq!(lowering.next_al, 4);
    }
}

#[test]
fn a_failed_body_keeps_what_came_before() {
    let prog = program(ShaderType::Vertex, vec![]);
    let texts = FloatTexts::new();
    let ctx = EmitContext::vs(&prog, &texts, u16::MAX);
    let mut lowering = Lowering {
        out: String::from("before\n"),
        loops: vec![],
        next_al: 0,
    };
    let body = vec![
        instruction(
            Opcode::Mov,
            Some(write(RegKind::Temp, 0)),
            vec![read(RegKind::Temp, 1)],
        ),
        instruction(Opcode::Phase, None, vec![]),
    ];
    assert!(lowering.translate_body(&body, &ctx, &mut vec![]).is_err());
    assert_eq!(lowering.out, "before\n    r[0] = r[1];\n");
}

#[test]
fn every_cut_is_truncated() {
    // def c0; loop-free bodies of both length encodings, a comment and a label.
    let second = [
        VS2,
        op(81, 5),
        dst(2, 0),
        0,
        0,
        0,
        0,
        op(1, 2),
        dst(0, 0),
        src(2, 0),
        0x0002_FFFE,
        0xDEAD_BEEF,
        END,
        op(1, 3),
        dst(0, 0),
        src(2, 1) | 0x2000,
        src(3, 0),
        op(0x2F, 2),
        0xE00F_0800,
        1,
        op(30, 1),
        src(18, 4),
        op(2, 3),
        dst(0, 0),
        src(0, 1),
        src(0, 2),
        28,
        END,
    ];
    let first = [
        0xFFFE_0101,
        0x0000_001F,
        0x8000_0000,
        dst(1, 0),
        2,
        dst(0, 0),
        src(1, 0),
        src(2, 5) | 0x2000,
        1,
        dst(4, 0),
        src(0, 0),
        END,
    ];
    for bytecode in [&second[..], &first[..]] {
        parse(bytecode).expect("the whole program parses");
        for k in 0..bytecode.len() {
            assert_eq!(
                parse(&bytecode[..k]).unwrap_err(),
                DxsoError::Truncated,
                "{k}"
            );
        }
    }
}

#[test]
fn comments_between_items_change_nothing() {
    // dcl v0; mov r0, v0; mov oPos, r0, in the first model.
    let bytecode = [
        0xFFFE_0101,
        0x0000_001F,
        0x8000_0000,
        dst(1, 0),
        1,
        dst(0, 0),
        src(1, 0),
        1,
        dst(4, 0),
        src(0, 0),
        END,
    ];
    let bare = parse(&bytecode).expect("the program parses");
    for place in [1, 4, 7, 10] {
        for payload in [vec![], vec![END], vec![0xFFFF_FFFF, 0x8000_0000, END]] {
            let mut longer = bytecode[..place].to_vec();
            longer.push(0xFFFE | ((payload.len() as u32) << 16));
            longer.extend(&payload);
            longer.extend(&bytecode[place..]);
            let prog = parse(&longer).expect("the program parses");
            assert_eq!(format!("{prog:?}"), format!("{bare:?}"));
        }
    }
}

#[test]
fn register_types_without_a_file_are_refused() {
    for full in 0..32u32 {
        let parsed = parse(&[VS2, op(1, 2), dst(0, 0), src(full, 0), END]);
        if full == 12 || full == 13 || full >= 20 {
            assert_eq!(
                parsed.unwrap_err(),
                DxsoError::UnknownRegisterType(full)
            );
        } else {
            assert!(parsed.is_ok(), "{full}");
        }
    }
}

/// The outcome of the checked translation of `body` as a vertex shader.
fn checked_vs(body: Vec<Instruction>) -> Result<String, EmitError> {
    let prog = program(ShaderType::Vertex, body);
    emit_vs_checked(&prog, DEFAULT_VS_ENTRY, u16::MAX, &texts_of(&prog))
}

/// The outcome of the checked translation of `body` as a pixel shader.
fn checked_ps(body: Vec<Instruction>) -> Result<String, EmitError> {
    let prog = program(ShaderType::Pixel, body);
    let texts = texts_of(&prog);
    emit_ps_checked(&prog, VariantKey::default(), DEFAULT_PS_ENTRY, &texts)
}

#[test]
fn the_first_instruction_that_fails_decides() {
    let lacking = || instruction(Opcode::Add, Some(write(RegKind::Temp, 0)), vec![]);
    let refused = || instruction(Opcode::Phase, None, vec![]);
    assert!(matches!(
        checked_vs(vec![refused(), lacking()]),
        Err(EmitError::UnsupportedInstruction(_))
    ));
    assert!(matches!(
        checked_vs(vec![lacking(), refused()]),
        Err(EmitError::Incomplete)
    ));
    // The incomplete instruction is never reached, though
    // the program as a whole lacks an operand.
    let prog = program(ShaderType::Vertex, vec![refused(), lacking()]);
    assert!(!prog.is_translatable());
    assert!(matches!(
        emit_vs_programmable(&prog, &FloatTexts::new()),
        Err(EmitError::UnsupportedInstruction(_))
    ));
    // An operand that cannot be read comes before one that is not there.
    let unreadable = instruction(
        Opcode::Add,
        Some(write(RegKind::Temp, 0)),
        vec![read(RegKind::ConstBool, 0)],
    );
    assert!(matches!(
        checked_vs(vec![unreadable]),
        Err(EmitError::UnsupportedRegisterKind(_))
    ));
}

#[test]
fn every_kind_of_incomplete_instruction_is_told() {
    let incomplete = |r: Result<String, EmitError>| matches!(r, Err(EmitError::Incomplete));
    let to = || Some(write(RegKind::Temp, 0));
    let temp = || read(RegKind::Temp, 1);
    let wide = SrcOperand {
        swizzle: Swizzle([0, 1, 2, 4]),
        ..temp()
    };
    assert!(incomplete(checked_vs(vec![instruction(Opcode::Mov, to(), vec![wide])])));
    let far = SrcOperand {
        rel_addr: Some(RelativeAddr {
            reg: reg(RegKind::Addr, 0),
            swizzle: Swizzle([7, 0, 0, 0]),
        }),
        ..read(RegKind::Const, 0)
    };
    assert!(incomplete(checked_vs(vec![instruction(Opcode::Mov, to(), vec![far])])));
    let matrix = |index: u16| {
        vec![instruction(
            Opcode::M4x4,
            to(),
            vec![temp(), read(RegKind::Const, index)],
        )]
    };
    assert!(incomplete(checked_vs(matrix(u16::MAX - 2))));
    assert!(checked_vs(matrix(u16::MAX - 3)).is_ok());
    let gate = SrcOperand {
        swizzle: Swizzle([4, 0, 0, 0]),
        ..read(RegKind::Predicate, 0)
    };
    for (opcode, dst, srcs) in [
        (Opcode::Mov, to(), vec![temp()]),
        (Opcode::BreakP, None, vec![]),
    ] {
        let gated = Instruction::new(opcode, dst, srcs, InstrFlags::empty(), Some(gate), None);
        assert!(incomplete(checked_vs(vec![gated])));
    }
    for opcode in [
        Opcode::Call,
        Opcode::CallNz,
        Opcode::Loop,
        Opcode::Rep,
        Opcode::If,
        Opcode::Ifc,
        Opcode::BreakC,
        Opcode::SetP,
        Opcode::MovA,
        Opcode::Cnd,
        Opcode::M3x2,
        Opcode::Mad,
    ] {
        assert!(
            incomplete(checked_vs(vec![instruction(opcode, to(), vec![])])),
            "{opcode:?}"
        );
    }
    for opcode in [
        Opcode::TexLd,
        Opcode::TexLdL,
        Opcode::TexLdD,
        Opcode::Bem,
        Opcode::TexReg2Ar,
        Opcode::TexM3x3Spec,
        Opcode::TexDp3,
        Opcode::TexBem,
        Opcode::TexM3x2Depth,
    ] {
        assert!(
            incomplete(checked_ps(vec![instruction(opcode, to(), vec![])])),
            "{opcode:?}"
        );
    }
    let bump = |index: u16| {
        vec![instruction(
            Opcode::Bem,
            Some(write(RegKind::Temp, index)),
            vec![temp(), temp()],
        )]
    };
    assert!(incomplete(checked_ps(bump(0x8000))));
    assert!(checked_ps(bump(0x7FFF)).is_ok());
    let sampler = |index: u16| {
        let mut prog = program(ShaderType::Pixel, vec![]);
        prog.declarations = vec![Declaration::Sampler {
            texture_type: TextureType::Texture2D,
            reg: reg(RegKind::Sampler, index),
        }];
        let texts = FloatTexts::new();
        emit_ps_checked(&prog, VariantKey::default(), DEFAULT_PS_ENTRY, &texts)
    };
    assert!(incomplete(sampler(16)));
    assert!(sampler(15).is_ok());
}

#[test]
fn a_checked_translation_is_the_plain_one() {
    let bytecode = [VS2, op(1, 2), dst(4, 0), src(1, 0), END];
    let prog = parse(&bytecode).expect("the program parses");
    let checked = emit_vs_checked(&prog, DEFAULT_VS_ENTRY, u16::MAX, &texts_of(&prog));
    assert_eq!(checked.expect("the program translates"), vs_text(&bytecode));
    assert!(matches!(
        emit_ps_checked(
            &prog,
            VariantKey::default(),
            DEFAULT_PS_ENTRY,
            &FloatTexts::new()
        ),
        Err(EmitError::WrongShaderType)
    ));
}

#[test]
fn register_types_are_told_apart() {
    for full in 0..32u32 {
        let kind = decode_reg_type(src(full, 5));
        if full == 12 || full == 13 || full >= 20 {
            assert_eq!(kind, Err(DxsoError::UnknownRegisterType(full)));
        } else {
            for other in 0..full {
                assert_ne!(kind, decode_reg_type(src(other, 5)));
            }
            assert_eq!(kind, decode_reg_type(dst(full, 9)));
        }
    }
    assert_eq!(decode_reg_type(src(14, 0)), Ok(RegKind::ConstBool));
}
