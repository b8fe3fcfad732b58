//! Direct3D 9 constants and plain structures.

use vstd::prelude::*;

verus! {

// Declaration usages.
pub const D3DDECLUSAGE_POSITION: u8 = 0;
pub const D3DDECLUSAGE_BLENDWEIGHT: u8 = 1;
pub const D3DDECLUSAGE_BLENDINDICES: u8 = 2;
pub const D3DDECLUSAGE_NORMAL: u8 = 3;
pub const D3DDECLUSAGE_PSIZE: u8 = 4;
pub const D3DDECLUSAGE_TEXCOORD: u8 = 5;
pub const D3DDECLUSAGE_TANGENT: u8 = 6;
pub const D3DDECLUSAGE_BINORMAL: u8 = 7;
pub const D3DDECLUSAGE_TESSFACTOR: u8 = 8;
pub const D3DDECLUSAGE_POSITIONT: u8 = 9;
pub const D3DDECLUSAGE_COLOR: u8 = 10;
pub const D3DDECLUSAGE_FOG: u8 = 11;
pub const D3DDECLUSAGE_DEPTH: u8 = 12;
pub const D3DDECLUSAGE_SAMPLE: u8 = 13;

// Operations of a shader instruction.
pub const D3DSIO_NOP: u16 = 0;
pub const D3DSIO_MOV: u16 = 1;
pub const D3DSIO_ADD: u16 = 2;
pub const D3DSIO_SUB: u16 = 3;
pub const D3DSIO_MAD: u16 = 4;
pub const D3DSIO_MUL: u16 = 5;
pub const D3DSIO_RCP: u16 = 6;
pub const D3DSIO_RSQ: u16 = 7;
pub const D3DSIO_DP3: u16 = 8;
pub const D3DSIO_DP4: u16 = 9;
pub const D3DSIO_MIN: u16 = 10;
pub const D3DSIO_MAX: u16 = 11;
pub const D3DSIO_SLT: u16 = 12;
pub const D3DSIO_SGE: u16 = 13;
pub const D3DSIO_EXP: u16 = 14;
pub const D3DSIO_LOG: u16 = 15;
pub const D3DSIO_LIT: u16 = 16;
pub const D3DSIO_DST: u16 = 17;
pub const D3DSIO_LRP: u16 = 18;
pub const D3DSIO_FRC: u16 = 19;
pub const D3DSIO_M4X4: u16 = 20;
pub const D3DSIO_M4X3: u16 = 21;
pub const D3DSIO_M3X4: u16 = 22;
pub const D3DSIO_M3X3: u16 = 23;
pub const D3DSIO_M3X2: u16 = 24;
pub const D3DSIO_CALL: u16 = 25;
pub const D3DSIO_CALLNZ: u16 = 26;
pub const D3DSIO_LOOP: u16 = 27;
pub const D3DSIO_RET: u16 = 28;
pub const D3DSIO_ENDLOOP: u16 = 29;
pub const D3DSIO_LABEL: u16 = 30;
pub const D3DSIO_DCL: u16 = 31;
pub const D3DSIO_POW: u16 = 32;
pub const D3DSIO_CRS: u16 = 33;
pub const D3DSIO_SGN: u16 = 34;
pub const D3DSIO_ABS: u16 = 35;
pub const D3DSIO_NRM: u16 = 36;
pub const D3DSIO_SINCOS: u16 = 37;
pub const D3DSIO_REP: u16 = 38;
pub const D3DSIO_ENDREP: u16 = 39;
pub const D3DSIO_IF: u16 = 40;
pub const D3DSIO_IFC: u16 = 41;
pub const D3DSIO_ELSE: u16 = 42;
pub const D3DSIO_ENDIF: u16 = 43;
pub const D3DSIO_BREAK: u16 = 44;
pub const D3DSIO_BREAKC: u16 = 45;
pub const D3DSIO_MOVA: u16 = 46;
pub const D3DSIO_DEFB: u16 = 47;
pub const D3DSIO_DEFI: u16 = 48;
pub const D3DSIO_TEXCOORD: u16 = 64;
pub const D3DSIO_TEXKILL: u16 = 65;
pub const D3DSIO_TEX: u16 = 66;
pub const D3DSIO_TEXBEM: u16 = 67;
pub const D3DSIO_TEXBEML: u16 = 68;
pub const D3DSIO_TEXREG2AR: u16 = 69;
pub const D3DSIO_TEXREG2GB: u16 = 70;
pub const D3DSIO_TEXM3X2PAD: u16 = 71;
pub const D3DSIO_TEXM3X2TEX: u16 = 72;
pub const D3DSIO_TEXM3X3PAD: u16 = 73;
pub const D3DSIO_TEXM3X3TEX: u16 = 74;
pub const D3DSIO_TEXM3X3SPEC: u16 = 76;
pub const D3DSIO_TEXM3X3VSPEC: u16 = 77;
pub const D3DSIO_EXPP: u16 = 78;
pub const D3DSIO_LOGP: u16 = 79;
pub const D3DSIO_CND: u16 = 80;
pub const D3DSIO_DEF: u16 = 81;
pub const D3DSIO_TEXREG2RGB: u16 = 82;
pub const D3DSIO_TEXDP3TEX: u16 = 83;
pub const D3DSIO_TEXM3X2DEPTH: u16 = 84;
pub const D3DSIO_TEXDP3: u16 = 85;
pub const D3DSIO_TEXM3X3: u16 = 86;
pub const D3DSIO_TEXDEPTH: u16 = 87;
pub const D3DSIO_CMP: u16 = 88;
pub const D3DSIO_BEM: u16 = 89;
pub const D3DSIO_DP2ADD: u16 = 90;
pub const D3DSIO_DSX: u16 = 91;
pub const D3DSIO_DSY: u16 = 92;
pub const D3DSIO_TEXLDD: u16 = 93;
pub const D3DSIO_SETP: u16 = 94;
pub const D3DSIO_TEXLDL: u16 = 95;
pub const D3DSIO_BREAKP: u16 = 96;
pub const D3DSIO_PHASE: u16 = 0xFFFD;
pub const D3DSIO_COMMENT: u16 = 0xFFFE;
pub const D3DSIO_END: u16 = 0xFFFF;

// Register files of a shader operand.
pub const D3DSPR_TEMP: u32 = 0;
pub const D3DSPR_INPUT: u32 = 1;
pub const D3DSPR_CONST: u32 = 2;
pub const D3DSPR_ADDR: u32 = 3;
pub const D3DSPR_RASTOUT: u32 = 4;
pub const D3DSPR_ATTROUT: u32 = 5;
pub const D3DSPR_TEXCRDOUT: u32 = 6;
pub const D3DSPR_CONSTINT: u32 = 7;
pub const D3DSPR_COLOROUT: u32 = 8;
pub const D3DSPR_DEPTHOUT: u32 = 9;
pub const D3DSPR_SAMPLER: u32 = 10;
pub const D3DSPR_OUTPUT: u32 = 11;
pub const D3DSPR_CONSTBOOL: u32 = 14;
pub const D3DSPR_LOOP: u32 = 15;
pub const D3DSPR_TEMPFLOAT16: u32 = 16;
pub const D3DSPR_MISCTYPE: u32 = 17;
pub const D3DSPR_LABEL: u32 = 18;
pub const D3DSPR_PREDICATE: u32 = 19;

// Modifiers of a shader source operand.
pub const D3DSPSM_NONE: u8 = 0;
pub const D3DSPSM_NEG: u8 = 1;
pub const D3DSPSM_BIAS: u8 = 2;
pub const D3DSPSM_BIASNEG: u8 = 3;
pub const D3DSPSM_SIGN: u8 = 4;
pub const D3DSPSM_SIGNNEG: u8 = 5;
pub const D3DSPSM_COMP: u8 = 6;
pub const D3DSPSM_X2: u8 = 7;
pub const D3DSPSM_X2NEG: u8 = 8;
pub const D3DSPSM_DZ: u8 = 9;
pub const D3DSPSM_DW: u8 = 10;
pub const D3DSPSM_ABS: u8 = 11;
pub const D3DSPSM_ABSNEG: u8 = 12;
pub const D3DSPSM_NOT: u8 = 13;

// Comparisons of a shader instruction.
pub const D3DSPC_GT: u8 = 1;
pub const D3DSPC_EQ: u8 = 2;
pub const D3DSPC_GE: u8 = 3;
pub const D3DSPC_LT: u8 = 4;
pub const D3DSPC_NE: u8 = 5;
pub const D3DSPC_LE: u8 = 6;

// Textures of a declared sampler.
pub const D3DSTT_2D: u32 = 2;
pub const D3DSTT_CUBE: u32 = 3;
pub const D3DSTT_VOLUME: u32 = 4;

// Fields of shader tokens.
pub const D3DSP_PARAMETER: u32 = 0x8000_0000;
pub const D3DSP_REGNUM_MASK: u32 = 0x0000_07FF;
pub const D3DSP_REGTYPE_SHIFT: u32 = 28;
pub const D3DSP_REGTYPE_MASK: u32 = 0x7000_0000;
pub const D3DSP_REGTYPE_SHIFT2: u32 = 8;
pub const D3DSP_REGTYPE_MASK2: u32 = 0x0000_1800;
pub const D3DSP_WRITEMASK_SHIFT: u32 = 16;
pub const D3DSP_DSTMOD_SHIFT: u32 = 20;
pub const D3DSP_DSTSHIFT_SHIFT: u32 = 24;
pub const D3DVS_ADDRMODE_RELATIVE: u32 = 0x0000_2000;
pub const D3DVS_SWIZZLE_SHIFT: u32 = 16;
pub const D3DSP_SRCMOD_SHIFT: u32 = 24;
pub const D3DSI_INSTLENGTH_SHIFT: u32 = 24;
pub const D3DSI_COISSUE: u32 = 0x4000_0000;
pub const D3DSI_TEXLD_PROJECT: u32 = 0x0001_0000;
pub const D3DSHADER_COMPARISON_SHIFT: u32 = 16;
pub const D3DSHADER_INSTRUCTION_PREDICATED: u32 = 0x1000_0000;
pub const D3DSI_COMMENTSIZE_SHIFT: u32 = 16;
pub const D3DSP_DCL_USAGEINDEX_SHIFT: u32 = 16;
pub const D3DSP_TEXTURETYPE_SHIFT: u32 = 27;
pub const D3DVS_VERSION: u32 = 0xFFFE_0000;
pub const D3DPS_VERSION: u32 = 0xFFFF_0000;

// Surface formats.
pub const D3DFMT_R8G8B8: u32 = 20;
pub const D3DFMT_A8R8G8B8: u32 = 21;
pub const D3DFMT_X8R8G8B8: u32 = 22;
pub const D3DFMT_R5G6B5: u32 = 23;
pub const D3DFMT_X1R5G5B5: u32 = 24;
pub const D3DFMT_A1R5G5B5: u32 = 25;
pub const D3DFMT_A4R4G4B4: u32 = 26;
pub const D3DFMT_A8: u32 = 28;
pub const D3DFMT_A8B8G8R8: u32 = 32;
pub const D3DFMT_X8B8G8R8: u32 = 33;
pub const D3DFMT_G16R16: u32 = 34;
pub const D3DFMT_A16B16G16R16: u32 = 36;
pub const D3DFMT_L8: u32 = 50;
pub const D3DFMT_A8L8: u32 = 51;
pub const D3DFMT_V8U8: u32 = 60;
pub const D3DFMT_D16_LOCKABLE: u32 = 70;
pub const D3DFMT_D32: u32 = 71;
pub const D3DFMT_D15S1: u32 = 73;
pub const D3DFMT_D24S8: u32 = 75;
pub const D3DFMT_D24X8: u32 = 77;
pub const D3DFMT_D24X4S4: u32 = 79;
pub const D3DFMT_D16: u32 = 80;
pub const D3DFMT_L16: u32 = 81;
pub const D3DFMT_D32F_LOCKABLE: u32 = 82;
pub const D3DFMT_D24FS8: u32 = 83;
pub const D3DFMT_R16F: u32 = 111;
pub const D3DFMT_G16R16F: u32 = 112;
pub const D3DFMT_A16B16G16R16F: u32 = 113;
pub const D3DFMT_R32F: u32 = 114;
pub const D3DFMT_G32R32F: u32 = 115;
pub const D3DFMT_A32B32G32R32F: u32 = 116;

// Surface formats named by four characters.
pub const D3DFMT_UYVY: u32 = 0x5956_5955;
pub const D3DFMT_YUY2: u32 = 0x3259_5559;
pub const D3DFMT_DXT1: u32 = 0x3154_5844;
pub const D3DFMT_DXT2: u32 = 0x3254_5844;
pub const D3DFMT_DXT3: u32 = 0x3354_5844;
pub const D3DFMT_DXT4: u32 = 0x3454_5844;
pub const D3DFMT_DXT5: u32 = 0x3554_5844;
pub const D3DFMT_ATI1: u32 = 0x3149_5441;
pub const D3DFMT_INTZ: u32 = 0x5A54_4E49;
pub const D3DFMT_DF24: u32 = 0x3432_4644;
pub const D3DFMT_DF16: u32 = 0x3631_4644;

// Resource types.
pub const D3DRTYPE_SURFACE: u32 = 1;
pub const D3DRTYPE_VOLUME: u32 = 2;
pub const D3DRTYPE_TEXTURE: u32 = 3;
pub const D3DRTYPE_VOLUMETEXTURE: u32 = 4;
pub const D3DRTYPE_CUBETEXTURE: u32 = 5;
pub const D3DRTYPE_VERTEXBUFFER: u32 = 6;
pub const D3DRTYPE_INDEXBUFFER: u32 = 7;

// Resource usages.
pub const D3DUSAGE_RENDERTARGET: u32 = 0x1;
pub const D3DUSAGE_DEPTHSTENCIL: u32 = 0x2;
pub const D3DUSAGE_WRITEONLY: u32 = 0x8;
pub const D3DUSAGE_SOFTWAREPROCESSING: u32 = 0x10;
pub const D3DUSAGE_DONOTCLIP: u32 = 0x20;
pub const D3DUSAGE_POINTS: u32 = 0x40;
pub const D3DUSAGE_RTPATCHES: u32 = 0x80;
pub const D3DUSAGE_NPATCHES: u32 = 0x100;
pub const D3DUSAGE_DYNAMIC: u32 = 0x200;
pub const D3DUSAGE_AUTOGENMIPMAP: u32 = 0x400;
pub const D3DUSAGE_DMAP: u32 = 0x4000;
pub const D3DUSAGE_QUERY_LEGACYBUMPMAP: u32 = 0x8000;
pub const D3DUSAGE_QUERY_SRGBREAD: u32 = 0x10000;
pub const D3DUSAGE_QUERY_FILTER: u32 = 0x20000;
pub const D3DUSAGE_QUERY_SRGBWRITE: u32 = 0x40000;
pub const D3DUSAGE_QUERY_POSTPIXELSHADER_BLENDING: u32 = 0x80000;
pub const D3DUSAGE_QUERY_VERTEXTEXTURE: u32 = 0x100000;
pub const D3DUSAGE_QUERY_WRAPANDMIP: u32 = 0x200000;
pub const D3DUSAGE_NONSECURE: u32 = 0x800000;

// Sampler states and the values that the library tells apart.
pub const D3DSAMP_MAGFILTER: u32 = 5;
pub const D3DSAMP_MIPMAPLODBIAS: u32 = 8;
pub const D3DTEXF_POINT: u32 = 1;
pub const D3DTEXF_LINEAR: u32 = 2;

// Operations of a texture stage.
pub const D3DTOP_DISABLE: u32 = 1;
pub const D3DTOP_SELECTARG1: u32 = 2;
pub const D3DTOP_SELECTARG2: u32 = 3;
pub const D3DTOP_MODULATE: u32 = 4;
pub const D3DTOP_MODULATE2X: u32 = 5;
pub const D3DTOP_MODULATE4X: u32 = 6;
pub const D3DTOP_ADD: u32 = 7;
pub const D3DTOP_ADDSIGNED: u32 = 8;
pub const D3DTOP_ADDSIGNED2X: u32 = 9;
pub const D3DTOP_SUBTRACT: u32 = 10;
pub const D3DTOP_ADDSMOOTH: u32 = 11;
pub const D3DTOP_BLENDDIFFUSEALPHA: u32 = 12;
pub const D3DTOP_BLENDTEXTUREALPHA: u32 = 13;
pub const D3DTOP_BLENDFACTORALPHA: u32 = 14;
pub const D3DTOP_BLENDTEXTUREALPHAPM: u32 = 15;
pub const D3DTOP_BLENDCURRENTALPHA: u32 = 16;
pub const D3DTOP_MODULATEALPHA_ADDCOLOR: u32 = 18;
pub const D3DTOP_MODULATECOLOR_ADDALPHA: u32 = 19;
pub const D3DTOP_MODULATEINVALPHA_ADDCOLOR: u32 = 20;
pub const D3DTOP_MODULATEINVCOLOR_ADDALPHA: u32 = 21;
pub const D3DTOP_DOTPRODUCT3: u32 = 24;

// Arguments of a texture stage: a register in the low bits, and modifiers.
pub const D3DTA_SELECTMASK: u32 = 0x0F;
pub const D3DTA_DIFFUSE: u32 = 0;
pub const D3DTA_CURRENT: u32 = 1;
pub const D3DTA_TEXTURE: u32 = 2;
pub const D3DTA_TFACTOR: u32 = 3;
pub const D3DTA_SPECULAR: u32 = 4;
pub const D3DTA_TEMP: u32 = 5;
pub const D3DTA_CONSTANT: u32 = 6;
pub const D3DTA_COMPLEMENT: u32 = 0x10;
pub const D3DTA_ALPHAREPLICATE: u32 = 0x20;

// Where a material colour comes from.
pub const D3DMCS_MATERIAL: u32 = 0;
pub const D3DMCS_COLOR1: u32 = 1;
pub const D3DMCS_COLOR2: u32 = 2;

// Comparisons and fog modes.
pub const D3DCMP_NEVER: u32 = 1;
pub const D3DCMP_LESS: u32 = 2;
pub const D3DCMP_EQUAL: u32 = 3;
pub const D3DCMP_LESSEQUAL: u32 = 4;
pub const D3DCMP_GREATER: u32 = 5;
pub const D3DCMP_NOTEQUAL: u32 = 6;
pub const D3DCMP_GREATEREQUAL: u32 = 7;
pub const D3DCMP_ALWAYS: u32 = 8;
pub const D3DFOG_EXP: u32 = 1;
pub const D3DFOG_EXP2: u32 = 2;
pub const D3DFOG_LINEAR: u32 = 3;

/// The value of the LOD-bias state that switches Fetch4 on (`GET4`).
pub const FETCH4_ENABLE: u32 = 0x3454_4547;

/// The value of the LOD-bias state that switches Fetch4 off (`GET1`).
pub const FETCH4_DISABLE: u32 = 0x3154_4547;

/// The number of levels in a channel of a gamma ramp, one per 8-bit code.
pub const GAMMA_RAMP_ENTRIES: usize = 256;

/// A gamma ramp: the 16-bit level of each 8-bit code, for each channel.
#[derive(Clone, Copy, Debug, PartialEq, Eq)]
pub struct D3DGAMMARAMP {
    pub red: [u16; GAMMA_RAMP_ENTRIES],
    pub green: [u16; GAMMA_RAMP_ENTRIES],
    pub blue: [u16; GAMMA_RAMP_ENTRIES],
}

} // verus!
