//! Fixed-function vertex shaders.

use crate::dxso::emit::common::{emit_varyings, preamble, varyings_text};
use crate::dxso::emit::context::{mask_bit, test_mask_bit};
use crate::dxso::emit::pixel::text_if;
use crate::dxso::emit::vertex::DEFAULT_VS_ENTRY;
use crate::dxso::ff::key::{FfVsFlags, FfVsKey, TT_COUNT_MASK, TT_PROJECTED};
use crate::text::{dec, decimal};
use vstd::prelude::*;

verus! {

/// The row of the first light; each takes six: position, direction, diffuse,
/// ambient, attenuation, specular.
pub const LIGHT_ROW: u64 = 15;

/// The row of the first texture matrix; each takes four.
pub const TEXTURE_ROW: u64 = 63;

impl FfVsKey {
    /// Whether the key asks for no more coordinates than there are.
    pub open spec fn in_range(self) -> bool {
        self.input_tex_coord_count <= 8 && self.tex_coord_count <= 8
    }

    /// Whether vertices are lit.
    pub open spec fn lit(self) -> bool {
        self.flags.has(FfVsFlags::LIGHTING_ENABLED) && !self.flags.has(FfVsFlags::HAS_RHW)
    }

    /// Whether the vertices have normals.
    pub open spec fn normals(self) -> bool {
        self.flags.has(FfVsFlags::HAS_NORMAL)
    }

    /// Whether lights have highlights.
    pub open spec fn highlights(self) -> bool {
        self.normals() && self.flags.has(FfVsFlags::SPECULAR_ENABLE)
    }

    /// Whether light `slot` is on.
    pub open spec fn light_on(self, slot: nat) -> bool {
        mask_bit(self.light_active_mask as u16, slot as u16)
    }

    /// Whether light `slot` shines along a direction.
    pub open spec fn directional(self, slot: nat) -> bool {
        mask_bit(self.light_directional_mask as u16, slot as u16)
    }

    /// Whether light `slot` shines in a cone.
    pub open spec fn spot(self, slot: nat) -> bool {
        !self.directional(slot) && mask_bit(self.light_spot_mask as u16, slot as u16)
    }

    /// Whether coordinate `i` is made from the normal.
    pub open spec fn generates_from_normal(self, i: int) -> bool {
        self.normals() && (self.tci_modes[i] == 1 || self.tci_modes[i] == 3 || self.tci_modes[i]
            == 4)
    }

    /// Whether coordinate `i` is made from the position.
    pub open spec fn generates_from_position(self, i: int) -> bool {
        self.tci_modes[i] == 2 || self.tci_modes[i] == 4 || (self.tci_modes[i] == 3
            && self.normals())
    }

    /// Whether the shader needs the normal in eye space.
    pub open spec fn needs_normal(self) -> bool {
        self.normals() && (self.lit() || exists|i: int|
            0 <= i < self.tex_coord_count && #[trigger] self.generates_from_normal(i))
    }

    /// Whether coordinate `i` is the unit normal.
    pub open spec fn generates_normal(self, i: int) -> bool {
        self.normals() && self.tci_modes[i] == 1
    }

    /// Whether the shader needs the unit normal in eye space.
    pub open spec fn needs_unit_normal(self) -> bool {
        exists|i: int| 0 <= i < self.tex_coord_count && #[trigger] self.generates_normal(i)
    }

    /// Whether the shader needs the normal matrix: a blended vertex has it in
    /// its palette.
    pub open spec fn needs_normal_matrix(self) -> bool {
        self.needs_normal() && self.vertex_blend_count == 0 && !self.flags.has(FfVsFlags::HAS_RHW)
    }

    /// Whether the shader needs the position in eye space: for a light with a
    /// position, for highlights that are seen from the eye, or for a coordinate.
    pub open spec fn needs_position(self) -> bool {
        ||| self.lit() && exists|s: nat| s < 8 && #[trigger] self.light_on(s) && !self.directional(s)
        ||| self.lit() && self.highlights() && self.flags.has(FfVsFlags::LOCAL_VIEWER)
        ||| exists|i: int|
            0 <= i < self.tex_coord_count && #[trigger] self.generates_from_position(i)
    }
}

// ---------------------------------------------------------------------------
// Inputs
// ---------------------------------------------------------------------------

/// A row of the constant buffer.
pub open spec fn row(n: nat) -> Seq<char> {
    "vs_c["@ + dec(n) + "]"@
}

/// An attribute of the input structure.
pub open spec fn attribute(n: nat) -> Seq<char> {
    "    float4 v"@ + dec(n) + " [[attribute("@ + dec(n) + ")]];\n"@
}

/// The attributes of the coordinates from `i` up to `n`, after `acc`.
pub open spec fn coord_attributes_from(i: nat, n: nat, acc: Seq<char>) -> Seq<char>
    decreases n - i,
{
    if i >= n {
        acc
    } else {
        coord_attributes_from(i + 1, n, acc + attribute(4 + i))
    }
}

/// The input structure.
pub open spec fn ff_inputs(key: FfVsKey) -> Seq<char> {
    let normal = text_if(key.flags.has(FfVsFlags::HAS_NORMAL), attribute(1));
    let diffuse = text_if(key.flags.has(FfVsFlags::HAS_COLOR0), attribute(2));
    let specular = text_if(key.flags.has(FfVsFlags::HAS_COLOR1), attribute(3));
    let coords = coord_attributes_from(0, key.input_tex_coord_count as nat, ""@);
    let weights = text_if(
        key.declared_weights_count > 0,
        "    float4 blend_weight [[attribute(12)]];\n"@,
    );
    let indices = text_if(
        key.flags.has(FfVsFlags::DECLARED_INDICES),
        "    uint4 blend_indices [[attribute(13)]];\n"@,
    );
    let size = text_if(
        key.flags.has(FfVsFlags::HAS_PSIZE),
        "    float psize [[attribute(14)]];\n"@,
    );
    "struct VertexIn {\n"@ + attribute(0) + normal + diffuse + specular + coords + weights
        + indices + size + "};\n\n"@
}

// ---------------------------------------------------------------------------
// Position
// ---------------------------------------------------------------------------

/// The position of a vertex that is transformed already, from window
/// coordinates: half a pixel right and down, since Metal samples elsewhere.
pub open spec fn window_position() -> Seq<char> {
    "    float2 vp = vs_c[0].xy;\n"@ + "    float2 vp_origin = vs_c[0].zw;\n"@
        + "    float w = in.v0.w != 0.0 ? 1.0 / in.v0.w : 1.0;\n"@
        + "    float ndc_x = ((in.v0.x - vp_origin.x) / vp.x) * 2.0 - 1.0 + 1.0 / vp.x;\n"@
        + "    float ndc_y = 1.0 - ((in.v0.y - vp_origin.y) / vp.y) * 2.0 - 1.0 / vp.y;\n"@
        + "    out.position = float4(ndc_x * w, ndc_y * w, in.v0.z * w, w);\n"@
}

/// The matrix of blend step `i`: the vertex selects it, or the steps go through
/// the palette in order.
pub open spec fn palette_index(key: FfVsKey, i: nat) -> Seq<char> {
    if key.flags.has(FfVsFlags::VERTEX_BLEND_INDEXED) {
        "in.blend_indices["@ + dec(i) + "]"@
    } else {
        dec(i) + "u"@
    }
}

/// One step of vertex blending, with a weight that was declared before.
pub open spec fn blend_step(key: FfVsKey, i: nat, weight: Seq<char>) -> Seq<char> {
    let normal = text_if(
        key.normals(),
        "        n_blend += weight * float3(dot(in.v1.xyz, m[0].xyz), dot(in.v1.xyz, m[1].xyz), dot(in.v1.xyz, m[2].xyz));\n"@,
    );
    "    {\n"@ + weight + "        uint idx = "@ + palette_index(key, i) + ";\n"@
        + "        constant float4 *m = vs_c + 95 + idx * 4u;\n"@
        + "        pos_view += weight * float4(dot(pos, m[0]), dot(pos, m[1]), dot(pos, m[2]), dot(pos, m[3]));\n"@
        + normal + "    }\n"@
}

/// The weight of step `i`, which the vertex holds.
pub open spec fn explicit_weight(i: nat) -> Seq<char> {
    "        float weight = in.blend_weight["@ + dec(i) + "];\n        weight_sum += weight;\n"@
}

/// The steps with explicit weights from `i` up to `n`, after `acc`.
pub open spec fn blend_from(key: FfVsKey, i: nat, n: nat, acc: Seq<char>) -> Seq<char>
    decreases n - i,
{
    if i >= n {
        acc
    } else {
        blend_from(key, i + 1, n, acc + blend_step(key, i, explicit_weight(i)))
    }
}

/// The position in eye space of a blended vertex. The last weight is what is
/// left of one.
pub open spec fn blended_position(key: FfVsKey) -> Seq<char> {
    let last = (key.vertex_blend_count - 1) as nat;
    let normal = text_if(key.normals(), "    float3 n_blend = float3(0.0);\n"@);
    let sum = text_if(last > 0, "    float weight_sum = 0.0;\n"@);
    let rest = if last > 0 {
        "        float weight = 1.0 - weight_sum;\n"@
    } else {
        "        float weight = 1.0;\n"@
    };
    "    float4 pos_view = float4(0.0);\n"@ + normal + sum + blend_from(key, 0, last, ""@)
        + blend_step(key, last, rest)
}

/// The position, first in eye space and then projected, with the half-pixel
/// shift.
pub open spec fn transformed_position(key: FfVsKey) -> Seq<char> {
    let view = if key.vertex_blend_count > 0 {
        blended_position(key)
    } else {
        "    float4 pos_view = float4(dot(pos, vs_c[0]), dot(pos, vs_c[1]), dot(pos, vs_c[2]), dot(pos, vs_c[3]));\n"@
    };
    "    float4 pos = float4(in.v0.xyz, 1.0);\n"@ + view
        + "    out.position = float4(dot(pos_view, vs_c[4]), dot(pos_view, vs_c[5]), dot(pos_view, vs_c[6]), dot(pos_view, vs_c[7]));\n"@
        + "    out.position.x += pos_fixup.x * out.position.w;\n"@
        + "    out.position.y += pos_fixup.y * out.position.w;\n"@
}

/// The vector that is orthogonal to three others and completes them to a
/// determinant.
pub open spec fn cross4_text() -> Seq<char> {
    "static inline float4 mtld3d_cross4(float4 a, float4 b, float4 c) {\n"@
        + "    return float4(\n"@ + "        -dot(a.yzw, cross(b.yzw, c.yzw)),\n"@
        + "        dot(a.xzw, cross(b.xzw, c.xzw)),\n"@
        + "        -dot(a.xyw, cross(b.xyw, c.xyw)),\n"@
        + "        dot(a.xyz, cross(b.xyz, c.xyz)));\n"@ + "}\n\n"@
}

/// The normal times the normal matrix.
///
/// That is the upper block of the inverse of the world-view matrix, whose rows
/// are orthogonal to all columns but one. A singular matrix has no inverse, and
/// its transpose stands in.
pub open spec fn matrix_normal() -> Seq<char> {
    "    float4 nadj0 = -mtld3d_cross4(vs_c[1], vs_c[2], vs_c[3]);\n"@
        + "    float4 nadj1 = mtld3d_cross4(vs_c[2], vs_c[3], vs_c[0]);\n"@
        + "    float4 nadj2 = -mtld3d_cross4(vs_c[3], vs_c[0], vs_c[1]);\n"@
        + "    float nwvdet = dot(nadj0, vs_c[0]);\n"@ + "    float3 n_eye = nwvdet != 0.0\n"@
        + "        ? float3(dot(nadj0.xyz, in.v1.xyz), dot(nadj1.xyz, in.v1.xyz), dot(nadj2.xyz, in.v1.xyz)) / nwvdet\n"@
        + "        : float3(dot(float3(vs_c[0].x, vs_c[1].x, vs_c[2].x), in.v1.xyz), dot(float3(vs_c[0].y, vs_c[1].y, vs_c[2].y), in.v1.xyz), dot(float3(vs_c[0].z, vs_c[1].z, vs_c[2].z), in.v1.xyz));\n"@
}

/// The normal in eye space.
///
/// Lighting keeps its length unless it is to be a unit vector; a generated
/// coordinate takes a unit normal.
pub open spec fn normal_decl(key: FfVsKey) -> Seq<char> {
    let unit = text_if(
        key.flags.has(FfVsFlags::NORMALIZE_NORMALS),
        "    n = normalize(n);\n"@,
    );
    let texgen = text_if(key.needs_unit_normal(), "    float3 n_texgen = normalize(n);\n"@);
    if key.vertex_blend_count > 0 {
        if key.lit() {
            "    float3 n = n_blend;\n"@ + unit + texgen
        } else {
            "    float3 n = normalize(n_blend);\n"@ + texgen
        }
    } else if key.lit() {
        matrix_normal() + "    float3 n = n_eye;\n"@ + unit + texgen
    } else {
        matrix_normal() + "    float3 n = normalize(n_eye);\n"@ + texgen
    }
}

// ---------------------------------------------------------------------------
// Colours
// ---------------------------------------------------------------------------

/// A material colour: that of the vertex where the state says so and the vertex
/// has one, that of the material otherwise.
pub open spec fn material_text(key: FfVsKey, source: u8, r: nat) -> Seq<char> {
    if key.flags.has(FfVsFlags::COLOR_VERTEX) && source == 1 && key.flags.has(
        FfVsFlags::HAS_COLOR0,
    ) {
        "in.v2"@
    } else if key.flags.has(FfVsFlags::COLOR_VERTEX) && source == 2 && key.flags.has(
        FfVsFlags::HAS_COLOR1,
    ) {
        "in.v3"@
    } else {
        row(r)
    }
}

/// The direction and the strength of light `slot` at the vertex.
pub open spec fn light_vector(key: FfVsKey, slot: nat) -> Seq<char> {
    let at = row(LIGHT_ROW as nat + 6 * slot);
    let dir = row(LIGHT_ROW as nat + 6 * slot + 1);
    let ambient = row(LIGHT_ROW as nat + 6 * slot + 3);
    let falloff = row(LIGHT_ROW as nat + 6 * slot + 4);
    let specular = row(LIGHT_ROW as nat + 6 * slot + 5);
    if key.directional(slot) {
        let vector = "        float3 L = -"@ + dir + ".xyz;\n"@;
        text_if(key.normals(), vector) + "        float atten = 1.0;\n"@
    } else {
        let vector = text_if(
            key.normals() || key.spot(slot),
            "        float3 L = normalize(toL);\n"@,
        );
        let cone = "        float rho = dot(-L, "@ + dir
            + ".xyz);\n        atten *= pow(saturate(rho * "@ + specular + ".w + "@ + ambient
            + ".w), "@ + dir + ".w);\n"@;
        "        float3 toL = "@ + at + ".xyz - posEye;\n        float dist = length(toL);\n"@
            + vector + "        float4 atten_k = "@ + falloff + ";\n"@
            + "        float atten = 1.0 / (atten_k.x + dist * (atten_k.y + dist * atten_k.z));\n"@
            + "        atten *= step(dist, atten_k.w);\n"@ + text_if(key.spot(slot), cone)
    }
}

/// The contribution of light `slot`.
pub open spec fn light_text(key: FfVsKey, slot: nat) -> Seq<char> {
    let diffuse = row(LIGHT_ROW as nat + 6 * slot + 2);
    let ambient = row(LIGHT_ROW as nat + 6 * slot + 3);
    let specular = row(LIGHT_ROW as nat + 6 * slot + 5);
    let lambert = "        float ndotl = max(dot(n, L), 0.0);\n        diffuseAccum += atten * ndotl * "@
        + diffuse + " * "@ + material_text(key, key.diffuse_source, 10) + ";\n"@;
    let highlight = "        float ndoth = max(dot(n, normalize(L + V)), 0.0);\n"@
        + "        float specFactor = ndotl > 0.0 ? pow(ndoth, mat_power) : 0.0;\n"@
        + "        specAccum += atten * specFactor * ("@ + specular + ".rgb * "@
        + material_text(key, key.specular_source, 12) + ".rgb);\n"@;
    "    {\n"@ + light_vector(key, slot) + text_if(key.normals(), lambert)
        + "        diffuseAccum += atten * ("@ + ambient + " * "@
        + material_text(key, key.ambient_source, 11) + ");\n"@
        + text_if(key.highlights(), highlight) + "    }\n"@
}

/// The contributions of the lights from `slot` on, after `acc`.
pub open spec fn lights_from(key: FfVsKey, slot: nat, acc: Seq<char>) -> Seq<char>
    decreases 8 - slot,
{
    if slot >= 8 {
        acc
    } else {
        lights_from(key, slot + 1, acc + text_if(key.light_on(slot), light_text(key, slot)))
    }
}

/// The colours of a lit vertex: the sum over the lights, with the alpha of the
/// diffuse material.
pub open spec fn lit_colors(key: FfVsKey) -> Seq<char> {
    let viewer = if key.flags.has(FfVsFlags::LOCAL_VIEWER) {
        "    float3 V = normalize(-posEye);\n"@
    } else {
        "    float3 V = float3(0.0, 0.0, -1.0);\n"@
    };
    let highlight = viewer + "    float mat_power = vs_c[14].x;\n"@;
    "    float4 diffuseAccum = "@ + material_text(key, key.emissive_source, 13)
        + " + vs_c[9] * "@ + material_text(key, key.ambient_source, 11)
        + ";\n    float3 specAccum = float3(0.0);\n"@ + text_if(key.highlights(), highlight)
        + lights_from(key, 0, ""@) + "    float4 lit = saturate(diffuseAccum);\n    lit.a = "@
        + material_text(key, key.diffuse_source, 10) + ".a;\n"@ + "    out.color0 = lit;\n"@
        + "    out.color1 = float4(saturate(specAccum), 0.0);\n"@
}

/// The colours of a vertex that is not lit: its own, or opaque white and black.
pub open spec fn plain_colors(key: FfVsKey) -> Seq<char> {
    let diffuse = if key.flags.has(FfVsFlags::HAS_COLOR0) {
        "    out.color0 = in.v2;\n"@
    } else {
        "    out.color0 = float4(1.0);\n"@
    };
    let specular = if key.flags.has(FfVsFlags::HAS_COLOR1) {
        "    out.color1 = in.v3;\n"@
    } else {
        "    out.color1 = float4(0.0);\n"@
    };
    diffuse + specular
}

/// The distance that fog grows with: the depth, or the way to the eye.
pub open spec fn fog_distance(key: FfVsKey) -> Seq<char> {
    if key.flags.has(FfVsFlags::RANGE_FOG) {
        "    float eyeZ = length(pos_view.xyz);\n"@
    } else {
        "    float eyeZ = abs(dot(pos, vs_c[2]));\n"@
    }
}

/// The fog factor. Without a mode, and for a transformed vertex whose factor is
/// not in its specular alpha, there is no fog.
pub open spec fn ff_fog(key: FfVsKey) -> Seq<char> {
    if key.fog_mode == 4 {
        if key.flags.has(FfVsFlags::HAS_COLOR1) {
            "    out.fog = float4(in.v3.w, 0.0, 0.0, 0.0);\n"@
        } else {
            "    out.fog = float4(1.0);\n"@
        }
    } else if key.flags.has(FfVsFlags::HAS_RHW) || key.fog_mode == 0 || key.fog_mode > 4 {
        "    out.fog = float4(1.0);\n"@
    } else if key.fog_mode == 1 {
        fog_distance(key)
            + "    out.fog = float4(saturate(exp(-vs_c[8].z * eyeZ)), 0.0, 0.0, 0.0);\n"@
    } else if key.fog_mode == 2 {
        fog_distance(key) + "    float fog_dz = vs_c[8].z * eyeZ;\n"@
            + "    out.fog = float4(saturate(exp(-fog_dz * fog_dz)), 0.0, 0.0, 0.0);\n"@
    } else {
        fog_distance(key) + "    float fog_range = vs_c[8].y - vs_c[8].x;\n"@
            + "    out.fog = float4(fog_range == 0.0 ? 0.0 : saturate((vs_c[8].y - eyeZ) / fog_range), 0.0, 0.0, 0.0);\n"@
    }
}

// ---------------------------------------------------------------------------
// Texture coordinates
// ---------------------------------------------------------------------------

/// A vector of the components that a coordinate register has.
pub open spec fn padded(v: Seq<char>, dims: u8) -> Seq<char> {
    if dims == 1 {
        "float4("@ + v + ".x, 0.0, 0.0, 0.0)"@
    } else if dims == 2 {
        "float4("@ + v + ".xy, 0.0, 0.0)"@
    } else if dims == 3 {
        "float4("@ + v + ".xyz, 0.0)"@
    } else {
        v
    }
}

/// The vertex coordinate that output coordinate `i` takes; the origin where the
/// vertex has none.
pub open spec fn input_coord(key: FfVsKey, i: nat) -> Seq<char> {
    let c = key.tci_coord_indices[i as int];
    if c >= key.input_tex_coord_count {
        "float4(0.0)"@
    } else if key.flags.has(FfVsFlags::HAS_RHW) {
        padded("(in.v"@ + dec((4 + c) as nat) + ")"@, key.tex_coord_dims[c as int])
    } else {
        padded("in.v"@ + dec((4 + c) as nat), key.tex_coord_dims[c as int])
    }
}

/// The direction from the eye, and its reflection about the normal. A vertex
/// without a normal has a zero one, which reflects nothing.
pub open spec fn reflection_text(key: FfVsKey) -> Seq<char> {
    if key.normals() {
        "        float3 E_tci = normalize(posEye);\n"@
            + "        float3 R_tci = reflect(E_tci, n);\n"@
    } else {
        "        float3 E_tci = normalize(posEye);\n"@ + "        float3 R_tci = E_tci;\n"@
    }
}

/// Whether coordinate `i` is generated.
pub open spec fn is_generated(key: FfVsKey, i: nat) -> bool {
    !key.flags.has(FfVsFlags::HAS_RHW) && (key.tci_modes[i as int] == 2 || key.tci_modes[i as int]
        == 4 || (key.normals() && (key.tci_modes[i as int] == 1 || key.tci_modes[i as int] == 3)))
}

/// Coordinate `i` before its transform.
pub open spec fn raw_coord(key: FfVsKey, i: nat) -> Seq<char> {
    let n = dec(i);
    let mode = key.tci_modes[i as int];
    if !is_generated(key, i) {
        "    float4 raw"@ + n + " = "@ + input_coord(key, i) + ";\n"@
    } else if mode == 1 {
        "    float4 raw"@ + n + " = float4(n_texgen, 0.0);\n"@
    } else if mode == 2 {
        "    float4 raw"@ + n + " = float4(posEye, 0.0);\n"@
    } else if mode == 3 {
        "    float4 raw"@ + n + ";\n    {\n"@ + reflection_text(key) + "        raw"@ + n
            + " = float4(R_tci, 0.0);\n    }\n"@
    } else {
        "    float4 raw"@ + n + ";\n    {\n"@ + reflection_text(key)
            + "        float m_tci = 2.0 * length(R_tci + float3(0.0, 0.0, 1.0));\n        raw"@
            + n + " = float4(R_tci.xy / m_tci + 0.5, 0.0, 0.0);\n    }\n"@
    }
}

/// The components that coordinate `i` has before its transform.
pub open spec fn coord_dims(key: FfVsKey, i: nat) -> u8 {
    let c = key.tci_coord_indices[i as int];
    if is_generated(key, i) {
        3
    } else if c >= key.input_tex_coord_count {
        4
    } else {
        key.tex_coord_dims[c as int]
    }
}

/// The components of a transformed coordinate that are kept. A projected one
/// keeps its divisor in the last place.
pub open spec fn kept_components(count: u8, projected: bool, r: Seq<char>) -> Seq<char> {
    if count == 1 {
        if projected {
            "float4(0.0, 0.0, 0.0, "@ + r + ".x)"@
        } else {
            "float4("@ + r + ".x, 0.0, 0.0, 0.0)"@
        }
    } else if count == 2 {
        if projected {
            "float4("@ + r + ".x, 0.0, 0.0, "@ + r + ".y)"@
        } else {
            "float4("@ + r + ".x, "@ + r + ".y, 0.0, 0.0)"@
        }
    } else if count == 3 {
        if projected {
            "float4("@ + r + ".x, "@ + r + ".y, 0.0, "@ + r + ".z)"@
        } else {
            "float4("@ + r + ".x, "@ + r + ".y, "@ + r + ".z, 0.0)"@
        }
    } else {
        r
    }
}

/// The statements that output coordinate `i`. A transformed vertex passes its
/// own coordinate on. A transform pads the first
/// component that is missing with one.
pub open spec fn coord_output(key: FfVsKey, i: nat) -> Seq<char> {
    let n = dec(i);
    let tt = key.tt_flags[i as int];
    let dims = coord_dims(key, i);
    if key.flags.has(FfVsFlags::HAS_RHW) {
        "    out.texcoord"@ + n + " = "@ + input_coord(key, i) + ";\n"@
    } else if tt & TT_COUNT_MASK == 0 {
        raw_coord(key, i) + "    out.texcoord"@ + n + " = raw"@ + n + ";\n"@
    } else {
        let first = TEXTURE_ROW as nat + 4 * i;
        let r = "r"@ + n;
        let pad = "    raw"@ + n + "["@ + dec(dims as nat) + "] = 1.0;\n"@;
        let kept = kept_components(tt & TT_COUNT_MASK, tt & TT_PROJECTED != 0, r);
        raw_coord(key, i) + text_if(1 <= dims <= 3, pad) + "    float4 "@ + r
            + " = float4(dot(raw"@ + n + ", "@ + row(first) + "), dot(raw"@ + n + ", "@
            + row(first + 1) + "), dot(raw"@ + n + ", "@ + row(first + 2) + "), dot(raw"@ + n
            + ", "@ + row(first + 3) + "));\n    out.texcoord"@ + n + " = "@ + kept + ";\n"@
    }
}

/// The coordinates from `i` up to `n`, after `acc`.
pub open spec fn coords_from(key: FfVsKey, i: nat, n: nat, acc: Seq<char>) -> Seq<char>
    decreases n - i,
{
    if i >= n {
        acc
    } else {
        coords_from(key, i + 1, n, acc + coord_output(key, i))
    }
}

// ---------------------------------------------------------------------------
// The shader
// ---------------------------------------------------------------------------

/// The position in eye space.
pub open spec fn eye_position(key: FfVsKey) -> Seq<char> {
    if key.vertex_blend_count > 0 {
        "    float3 posEye = pos_view.xyz;\n"@
    } else {
        "    float3 posEye = float3(dot(pos, vs_c[0]), dot(pos, vs_c[1]), dot(pos, vs_c[2]));\n"@
    }
}

/// The position and the colours.
pub open spec fn ff_geometry(key: FfVsKey) -> Seq<char> {
    if key.flags.has(FfVsFlags::HAS_RHW) {
        window_position() + plain_colors(key)
    } else {
        let eye = text_if(key.needs_position(), eye_position(key));
        let normal = text_if(key.needs_normal(), normal_decl(key));
        let colors = if key.lit() {
            lit_colors(key)
        } else {
            plain_colors(key)
        };
        transformed_position(key) + eye + normal + colors
    }
}

/// The size of a point: that of the vertex or of the draw, smaller with the
/// distance where points are scaled, within the limits of the draw. Its unit is
/// a pixel of the reported resolution until the end, where it becomes one of the
/// rendered image.
pub open spec fn point_size(key: FfVsKey) -> Seq<char> {
    let size = if key.flags.has(FfVsFlags::HAS_PSIZE) {
        "    float psize = in.psize;\n"@
    } else {
        "    float psize = vs_draw.point.x;\n"@
    };
    let scale = text_if(
        key.flags.has(FfVsFlags::POINT_SCALE) && !key.flags.has(FfVsFlags::HAS_RHW),
        "    float psize_d = length(pos_view.xyz);\n"@
            + "    psize *= ((-1.0 / pos_fixup.y) / pos_fixup.w) / sqrt(max(vs_draw.point_scale.x + vs_draw.point_scale.y * psize_d + vs_draw.point_scale.z * psize_d * psize_d, 0.000001));\n"@,
    );
    size + scale
        + "    out.point_size = clamp(psize, vs_draw.point.y, vs_draw.point.z) * pos_fixup.w;\n"@
}

/// The depth for table fog, and then the position that is kept: a transformed
/// vertex may be clamped to the depth range.
pub open spec fn final_depth(key: FfVsKey) -> Seq<char> {
    let clamp = text_if(
        key.flags.has(FfVsFlags::HAS_RHW),
        "    if (pos_fixup.z != 0.0) { out.position.z = clamp(out.position.z, 0.0, out.position.w); }\n"@,
    );
    "    out.fog_z = out.position.z / out.position.w;\n"@ + clamp
}

/// Everything before the function.
pub open spec fn ff_vs_declarations(key: FfVsKey) -> Seq<char> {
    let helper = text_if(key.needs_normal_matrix(), cross4_text());
    let draw = "struct VsDraw {\n"@ + "    float4 point;\n"@ + "    float4 point_scale;\n"@
        + "};\n\n"@;
    preamble() + ff_inputs(key) + varyings_text(false) + draw + helper
}

/// The function.
pub open spec fn ff_vs_function(key: FfVsKey, entry: Seq<char>) -> Seq<char> {
    let coords = coords_from(key, 0, key.tex_coord_count as nat, ""@);
    "vertex Varyings "@ + entry + "(\n"@ + "    VertexIn in [[stage_in]],\n"@
        + "    constant float4 *vs_c [[buffer(15)]],\n"@
        + "    constant float4 &pos_fixup [[buffer(13)]],\n"@
        + "    constant VsDraw &vs_draw [[buffer(12)]]\n"@ + ") {\n"@ + "    Varyings out;\n"@
        + "    out.position1 = float4(0.0);\n"@ + ff_geometry(key) + ff_fog(key) + coords
        + final_depth(key) + point_size(key) + "    return out;\n}\n"@
}

/// The source of a fixed-function vertex shader.
pub open spec fn ff_vs_source(key: FfVsKey, entry: Seq<char>) -> Seq<char> {
    ff_vs_declarations(key) + ff_vs_function(key, entry)
}

fn str_if(condition: bool, text: &'static str) -> (r: &'static str)
    ensures
        r@ == text_if(condition, text@),
{
    if condition {
        text
    } else {
        ""
    }
}

fn string_if(condition: bool, text: String) -> (r: String)
    ensures
        r@ == text_if(condition, text@),
{
    if condition {
        text
    } else {
        "".to_owned()
    }
}

fn row_name(n: u64) -> (r: String)
    ensures
        r@ == row(n as nat),
{
    let d = decimal(n);
    "vs_c[".to_owned().concat(d.as_str()).concat("]")
}

fn attribute_line(n: u64) -> (r: String)
    ensures
        r@ == attribute(n as nat),
{
    let d = decimal(n);
    "    float4 v".to_owned()
        .concat(d.as_str())
        .concat(" [[attribute(")
        .concat(d.as_str())
        .concat(")]];\n")
}

fn input_struct(key: &FfVsKey) -> (r: String)
    ensures
        r@ == ff_inputs(*key),
{
    let n: u64 = key.input_tex_coord_count as u64;
    let mut coords: String = "".to_owned();
    let mut i: u64 = 0;
    while i < n
        invariant
            i <= n <= 255,
            coord_attributes_from(0, n as nat, ""@) == coord_attributes_from(
                i as nat,
                n as nat,
                coords@,
            ),
        decreases n - i,
    {
        coords = coords.concat(attribute_line(4 + i).as_str());
        i = i + 1;
    }
    let position = attribute_line(0);
    let normal = string_if(key.flags.contains(FfVsFlags::HAS_NORMAL), attribute_line(1));
    let diffuse = string_if(key.flags.contains(FfVsFlags::HAS_COLOR0), attribute_line(2));
    let specular = string_if(key.flags.contains(FfVsFlags::HAS_COLOR1), attribute_line(3));
    let weights = str_if(
        key.declared_weights_count > 0,
        "    float4 blend_weight [[attribute(12)]];\n",
    );
    let indices = str_if(
        key.flags.contains(FfVsFlags::DECLARED_INDICES),
        "    uint4 blend_indices [[attribute(13)]];\n",
    );
    let size = str_if(
        key.flags.contains(FfVsFlags::HAS_PSIZE),
        "    float psize [[attribute(14)]];\n",
    );
    "struct VertexIn {\n".to_owned()
        .concat(position.as_str())
        .concat(normal.as_str())
        .concat(diffuse.as_str())
        .concat(specular.as_str())
        .concat(coords.as_str())
        .concat(weights)
        .concat(indices)
        .concat(size)
        .concat("};\n\n")
}

fn blend_step_stmts(key: &FfVsKey, i: u64, weight: &str) -> (r: String)
    ensures
        r@ == blend_step(*key, i as nat, weight@),
{
    let d = decimal(i);
    let index: String = if key.flags.contains(FfVsFlags::VERTEX_BLEND_INDEXED) {
        "in.blend_indices[".to_owned().concat(d.as_str()).concat("]")
    } else {
        d.as_str().to_owned().concat("u")
    };
    let normal = str_if(
        key.flags.contains(FfVsFlags::HAS_NORMAL),
        "        n_blend += weight * float3(dot(in.v1.xyz, m[0].xyz), dot(in.v1.xyz, m[1].xyz), dot(in.v1.xyz, m[2].xyz));\n",
    );
    "    {\n".to_owned()
        .concat(weight)
        .concat("        uint idx = ")
        .concat(index.as_str())
        .concat(";\n")
        .concat("        constant float4 *m = vs_c + 95 + idx * 4u;\n")
        .concat("        pos_view += weight * float4(dot(pos, m[0]), dot(pos, m[1]), dot(pos, m[2]), dot(pos, m[3]));\n")
        .concat(normal)
        .concat("    }\n")
}

fn blend_stmts(key: &FfVsKey) -> (r: String)
    requires
        key.vertex_blend_count > 0,
    ensures
        r@ == blended_position(*key),
{
    let last: u64 = key.vertex_blend_count as u64 - 1;
    let mut steps: String = "".to_owned();
    let mut i: u64 = 0;
    while i < last
        invariant
            i <= last,
            blend_from(*key, 0, last as nat, ""@) == blend_from(
                *key,
                i as nat,
                last as nat,
                steps@,
            ),
        decreases last - i,
    {
        let d = decimal(i);
        let weight = "        float weight = in.blend_weight[".to_owned()
            .concat(d.as_str())
            .concat("];\n        weight_sum += weight;\n");
        steps = steps.concat(blend_step_stmts(key, i, weight.as_str()).as_str());
        i = i + 1;
    }
    let normal = str_if(
        key.flags.contains(FfVsFlags::HAS_NORMAL),
        "    float3 n_blend = float3(0.0);\n",
    );
    let sum = str_if(last > 0, "    float weight_sum = 0.0;\n");
    let rest: &str = if last > 0 {
        "        float weight = 1.0 - weight_sum;\n"
    } else {
        "        float weight = 1.0;\n"
    };
    let step = blend_step_stmts(key, last, rest);
    "    float4 pos_view = float4(0.0);\n".to_owned()
        .concat(normal)
        .concat(sum)
        .concat(steps.as_str())
        .concat(step.as_str())
}

fn position_stmts(key: &FfVsKey) -> (r: String)
    ensures
        r@ == transformed_position(*key),
{
    let view: String = if key.vertex_blend_count > 0 {
        blend_stmts(key)
    } else {
        "    float4 pos_view = float4(dot(pos, vs_c[0]), dot(pos, vs_c[1]), dot(pos, vs_c[2]), dot(pos, vs_c[3]));\n".to_owned()
    };
    "    float4 pos = float4(in.v0.xyz, 1.0);\n".to_owned()
        .concat(view.as_str())
        .concat("    out.position = float4(dot(pos_view, vs_c[4]), dot(pos_view, vs_c[5]), dot(pos_view, vs_c[6]), dot(pos_view, vs_c[7]));\n")
        .concat("    out.position.x += pos_fixup.x * out.position.w;\n")
        .concat("    out.position.y += pos_fixup.y * out.position.w;\n")
}

fn is_lit(key: &FfVsKey) -> (r: bool)
    ensures
        r == key.lit(),
{
    key.flags.contains(FfVsFlags::LIGHTING_ENABLED) && !key.flags.contains(FfVsFlags::HAS_RHW)
}

fn wants_unit_normal(key: &FfVsKey) -> (r: bool)
    requires
        key.in_range(),
    ensures
        r == key.needs_unit_normal(),
{
    if !key.flags.contains(FfVsFlags::HAS_NORMAL) {
        return false;
    }
    let mut i: usize = 0;
    while i < key.tex_coord_count as usize
        invariant
            i <= key.tex_coord_count <= 8,
            key.normals(),
            forall|k: int| 0 <= k < i ==> !#[trigger] key.generates_normal(k),
        decreases key.tex_coord_count - i,
    {
        if key.tci_modes[i] == 1 {
            assert(key.generates_normal(i as int));
            return true;
        }
        i = i + 1;
    }
    false
}

fn cross4_helper() -> (r: String)
    ensures
        r@ == cross4_text(),
{
    "static inline float4 mtld3d_cross4(float4 a, float4 b, float4 c) {\n".to_owned()
        .concat("    return float4(\n")
        .concat("        -dot(a.yzw, cross(b.yzw, c.yzw)),\n")
        .concat("        dot(a.xzw, cross(b.xzw, c.xzw)),\n")
        .concat("        -dot(a.xyw, cross(b.xyw, c.xyw)),\n")
        .concat("        dot(a.xyz, cross(b.xyz, c.xyz)));\n")
        .concat("}\n\n")
}

fn matrix_normal_stmts() -> (r: String)
    ensures
        r@ == matrix_normal(),
{
    "    float4 nadj0 = -mtld3d_cross4(vs_c[1], vs_c[2], vs_c[3]);\n".to_owned()
        .concat("    float4 nadj1 = mtld3d_cross4(vs_c[2], vs_c[3], vs_c[0]);\n")
        .concat("    float4 nadj2 = -mtld3d_cross4(vs_c[3], vs_c[0], vs_c[1]);\n")
        .concat("    float nwvdet = dot(nadj0, vs_c[0]);\n")
        .concat("    float3 n_eye = nwvdet != 0.0\n")
        .concat("        ? float3(dot(nadj0.xyz, in.v1.xyz), dot(nadj1.xyz, in.v1.xyz), dot(nadj2.xyz, in.v1.xyz)) / nwvdet\n")
        .concat("        : float3(dot(float3(vs_c[0].x, vs_c[1].x, vs_c[2].x), in.v1.xyz), dot(float3(vs_c[0].y, vs_c[1].y, vs_c[2].y), in.v1.xyz), dot(float3(vs_c[0].z, vs_c[1].z, vs_c[2].z), in.v1.xyz));\n")
}

fn normal_stmts(key: &FfVsKey) -> (r: String)
    requires
        key.in_range(),
    ensures
        r@ == normal_decl(*key),
{
    let unit = str_if(
        key.flags.contains(FfVsFlags::NORMALIZE_NORMALS),
        "    n = normalize(n);\n",
    );
    let texgen = str_if(wants_unit_normal(key), "    float3 n_texgen = normalize(n);\n");
    if key.vertex_blend_count > 0 {
        if is_lit(key) {
            "    float3 n = n_blend;\n".to_owned().concat(unit).concat(texgen)
        } else {
            "    float3 n = normalize(n_blend);\n".to_owned().concat(texgen)
        }
    } else {
        let product = matrix_normal_stmts();
        if is_lit(key) {
            product.as_str().to_owned()
                .concat("    float3 n = n_eye;\n")
                .concat(unit)
                .concat(texgen)
        } else {
            product.as_str().to_owned()
                .concat("    float3 n = normalize(n_eye);\n")
                .concat(texgen)
        }
    }
}

fn material_expr(key: &FfVsKey, source: u8, r: u64) -> (t: String)
    ensures
        t@ == material_text(*key, source, r as nat),
{
    if key.flags.contains(FfVsFlags::COLOR_VERTEX) && source == 1 && key.flags.contains(
        FfVsFlags::HAS_COLOR0,
    ) {
        "in.v2".to_owned()
    } else if key.flags.contains(FfVsFlags::COLOR_VERTEX) && source == 2 && key.flags.contains(
        FfVsFlags::HAS_COLOR1,
    ) {
        "in.v3".to_owned()
    } else {
        row_name(r)
    }
}

fn light_vector_stmts(key: &FfVsKey, slot: u64) -> (r: String)
    requires
        slot < 8,
    ensures
        r@ == light_vector(*key, slot as nat),
{
    let first: u64 = LIGHT_ROW + 6 * slot;
    let dir = row_name(first + 1);
    let directional: bool = test_mask_bit(key.light_directional_mask as u16, slot as u16);
    let normals: bool = key.flags.contains(FfVsFlags::HAS_NORMAL);
    if directional {
        let vector = string_if(normals, "        float3 L = -".to_owned()
            .concat(dir.as_str())
            .concat(".xyz;\n"));
        vector.as_str().to_owned().concat("        float atten = 1.0;\n")
    } else {
        let at = row_name(first);
        let ambient = row_name(first + 3);
        let falloff = row_name(first + 4);
        let specular = row_name(first + 5);
        let spot: bool = test_mask_bit(key.light_spot_mask as u16, slot as u16);
        let vector = str_if(normals || spot, "        float3 L = normalize(toL);\n");
        let cone = string_if(
            spot,
            "        float rho = dot(-L, ".to_owned()
                .concat(dir.as_str())
                .concat(".xyz);\n        atten *= pow(saturate(rho * ")
                .concat(specular.as_str())
                .concat(".w + ")
                .concat(ambient.as_str())
                .concat(".w), ")
                .concat(dir.as_str())
                .concat(".w);\n"),
        );
        "        float3 toL = ".to_owned()
            .concat(at.as_str())
            .concat(".xyz - posEye;\n        float dist = length(toL);\n")
            .concat(vector)
            .concat("        float4 atten_k = ")
            .concat(falloff.as_str())
            .concat(";\n")
            .concat("        float atten = 1.0 / (atten_k.x + dist * (atten_k.y + dist * atten_k.z));\n")
            .concat("        atten *= step(dist, atten_k.w);\n")
            .concat(cone.as_str())
    }
}

fn light_stmts(key: &FfVsKey, slot: u64) -> (r: String)
    requires
        slot < 8,
    ensures
        r@ == light_text(*key, slot as nat),
{
    let first: u64 = LIGHT_ROW + 6 * slot;
    let diffuse = row_name(first + 2);
    let ambient = row_name(first + 3);
    let specular = row_name(first + 5);
    let normals: bool = key.flags.contains(FfVsFlags::HAS_NORMAL);
    let highlights: bool = normals && key.flags.contains(FfVsFlags::SPECULAR_ENABLE);
    let mat_diffuse = material_expr(key, key.diffuse_source, 10);
    let mat_ambient = material_expr(key, key.ambient_source, 11);
    let mat_specular = material_expr(key, key.specular_source, 12);
    let vector = light_vector_stmts(key, slot);
    let lambert = string_if(
        normals,
        "        float ndotl = max(dot(n, L), 0.0);\n        diffuseAccum += atten * ndotl * ".to_owned()
            .concat(diffuse.as_str())
            .concat(" * ")
            .concat(mat_diffuse.as_str())
            .concat(";\n"),
    );
    let highlight = string_if(
        highlights,
        "        float ndoth = max(dot(n, normalize(L + V)), 0.0);\n".to_owned()
            .concat("        float specFactor = ndotl > 0.0 ? pow(ndoth, mat_power) : 0.0;\n")
            .concat("        specAccum += atten * specFactor * (")
            .concat(specular.as_str())
            .concat(".rgb * ")
            .concat(mat_specular.as_str())
            .concat(".rgb);\n"),
    );
    "    {\n".to_owned()
        .concat(vector.as_str())
        .concat(lambert.as_str())
        .concat("        diffuseAccum += atten * (")
        .concat(ambient.as_str())
        .concat(" * ")
        .concat(mat_ambient.as_str())
        .concat(");\n")
        .concat(highlight.as_str())
        .concat("    }\n")
}

fn lit_color_stmts(key: &FfVsKey) -> (r: String)
    ensures
        r@ == lit_colors(*key),
{
    let mut lights: String = "".to_owned();
    let mut slot: u64 = 0;
    while slot < 8
        invariant
            slot <= 8,
            lights_from(*key, 0, ""@) == lights_from(*key, slot as nat, lights@),
        decreases 8 - slot,
    {
        let on: bool = test_mask_bit(key.light_active_mask as u16, slot as u16);
        let light = string_if(on, light_stmts(key, slot));
        lights = lights.concat(light.as_str());
        slot = slot + 1;
    }
    let viewer: &str = if key.flags.contains(FfVsFlags::LOCAL_VIEWER) {
        "    float3 V = normalize(-posEye);\n"
    } else {
        "    float3 V = float3(0.0, 0.0, -1.0);\n"
    };
    let highlights: bool = key.flags.contains(FfVsFlags::HAS_NORMAL) && key.flags.contains(
        FfVsFlags::SPECULAR_ENABLE,
    );
    let highlight = string_if(highlights, viewer.to_owned()
        .concat("    float mat_power = vs_c[14].x;\n"));
    let emissive = material_expr(key, key.emissive_source, 13);
    let ambient = material_expr(key, key.ambient_source, 11);
    let diffuse = material_expr(key, key.diffuse_source, 10);
    "    float4 diffuseAccum = ".to_owned()
        .concat(emissive.as_str())
        .concat(" + vs_c[9] * ")
        .concat(ambient.as_str())
        .concat(";\n    float3 specAccum = float3(0.0);\n")
        .concat(highlight.as_str())
        .concat(lights.as_str())
        .concat("    float4 lit = saturate(diffuseAccum);\n    lit.a = ")
        .concat(diffuse.as_str())
        .concat(".a;\n")
        .concat("    out.color0 = lit;\n")
        .concat("    out.color1 = float4(saturate(specAccum), 0.0);\n")
}

fn plain_color_stmts(key: &FfVsKey) -> (r: String)
    ensures
        r@ == plain_colors(*key),
{
    let diffuse: &str = if key.flags.contains(FfVsFlags::HAS_COLOR0) {
        "    out.color0 = in.v2;\n"
    } else {
        "    out.color0 = float4(1.0);\n"
    };
    let specular: &str = if key.flags.contains(FfVsFlags::HAS_COLOR1) {
        "    out.color1 = in.v3;\n"
    } else {
        "    out.color1 = float4(0.0);\n"
    };
    diffuse.to_owned().concat(specular)
}

fn fog_stmts(key: &FfVsKey) -> (r: String)
    ensures
        r@ == ff_fog(*key),
{
    if key.fog_mode == 4 {
        return if key.flags.contains(FfVsFlags::HAS_COLOR1) {
            "    out.fog = float4(in.v3.w, 0.0, 0.0, 0.0);\n".to_owned()
        } else {
            "    out.fog = float4(1.0);\n".to_owned()
        };
    }
    if key.flags.contains(FfVsFlags::HAS_RHW) || key.fog_mode == 0 || key.fog_mode > 4 {
        return "    out.fog = float4(1.0);\n".to_owned();
    }
    let distance: &str = if key.flags.contains(FfVsFlags::RANGE_FOG) {
        "    float eyeZ = length(pos_view.xyz);\n"
    } else {
        "    float eyeZ = abs(dot(pos, vs_c[2]));\n"
    };
    if key.fog_mode == 1 {
        distance.to_owned()
            .concat("    out.fog = float4(saturate(exp(-vs_c[8].z * eyeZ)), 0.0, 0.0, 0.0);\n")
    } else if key.fog_mode == 2 {
        distance.to_owned()
            .concat("    float fog_dz = vs_c[8].z * eyeZ;\n")
            .concat("    out.fog = float4(saturate(exp(-fog_dz * fog_dz)), 0.0, 0.0, 0.0);\n")
    } else {
        distance.to_owned()
            .concat("    float fog_range = vs_c[8].y - vs_c[8].x;\n")
            .concat("    out.fog = float4(fog_range == 0.0 ? 0.0 : saturate((vs_c[8].y - eyeZ) / fog_range), 0.0, 0.0, 0.0);\n")
    }
}

fn generated(key: &FfVsKey, i: usize) -> (r: bool)
    requires
        i < 8,
    ensures
        r == is_generated(*key, i as nat),
{
    let mode: u8 = key.tci_modes[i];
    !key.flags.contains(FfVsFlags::HAS_RHW) && (mode == 2 || mode == 4 || (key.flags.contains(
        FfVsFlags::HAS_NORMAL,
    ) && (mode == 1 || mode == 3)))
}

fn padded_expr(v: &str, dims: u8) -> (r: String)
    ensures
        r@ == padded(v@, dims),
{
    if dims == 1 {
        "float4(".to_owned().concat(v).concat(".x, 0.0, 0.0, 0.0)")
    } else if dims == 2 {
        "float4(".to_owned().concat(v).concat(".xy, 0.0, 0.0)")
    } else if dims == 3 {
        "float4(".to_owned().concat(v).concat(".xyz, 0.0)")
    } else {
        v.to_owned()
    }
}

fn input_coord_expr(key: &FfVsKey, i: usize) -> (r: String)
    requires
        i < 8,
        key.in_range(),
    ensures
        r@ == input_coord(*key, i as nat),
{
    let c: u8 = key.tci_coord_indices[i];
    if c >= key.input_tex_coord_count {
        return "float4(0.0)".to_owned();
    }
    let n = decimal(4 + c as u64);
    let v: String = if key.flags.contains(FfVsFlags::HAS_RHW) {
        "(in.v".to_owned().concat(n.as_str()).concat(")")
    } else {
        "in.v".to_owned().concat(n.as_str())
    };
    padded_expr(v.as_str(), key.tex_coord_dims[c as usize])
}

fn reflection_stmts(key: &FfVsKey) -> (r: String)
    ensures
        r@ == reflection_text(*key),
{
    if key.flags.contains(FfVsFlags::HAS_NORMAL) {
        "        float3 E_tci = normalize(posEye);\n".to_owned()
            .concat("        float3 R_tci = reflect(E_tci, n);\n")
    } else {
        "        float3 E_tci = normalize(posEye);\n".to_owned()
            .concat("        float3 R_tci = E_tci;\n")
    }
}

fn raw_coord_stmts(key: &FfVsKey, i: usize) -> (r: String)
    requires
        i < 8,
        key.in_range(),
    ensures
        r@ == raw_coord(*key, i as nat),
{
    let d = decimal(i as u64);
    let n = d.as_str();
    let mode: u8 = key.tci_modes[i];
    if !generated(key, i) {
        let c = input_coord_expr(key, i);
        "    float4 raw".to_owned().concat(n).concat(" = ").concat(c.as_str()).concat(";\n")
    } else if mode == 1 {
        "    float4 raw".to_owned().concat(n).concat(" = float4(n_texgen, 0.0);\n")
    } else if mode == 2 {
        "    float4 raw".to_owned().concat(n).concat(" = float4(posEye, 0.0);\n")
    } else {
        let reflected = reflection_stmts(key);
        if mode == 3 {
            "    float4 raw".to_owned()
                .concat(n)
                .concat(";\n    {\n")
                .concat(reflected.as_str())
                .concat("        raw")
                .concat(n)
                .concat(" = float4(R_tci, 0.0);\n    }\n")
        } else {
            "    float4 raw".to_owned()
                .concat(n)
                .concat(";\n    {\n")
                .concat(reflected.as_str())
                .concat("        float m_tci = 2.0 * length(R_tci + float3(0.0, 0.0, 1.0));\n        raw")
                .concat(n)
                .concat(" = float4(R_tci.xy / m_tci + 0.5, 0.0, 0.0);\n    }\n")
        }
    }
}

fn kept_expr(count: u8, projected: bool, r: &str) -> (t: String)
    ensures
        t@ == kept_components(count, projected, r@),
{
    if count == 1 {
        if projected {
            "float4(0.0, 0.0, 0.0, ".to_owned().concat(r).concat(".x)")
        } else {
            "float4(".to_owned().concat(r).concat(".x, 0.0, 0.0, 0.0)")
        }
    } else if count == 2 {
        if projected {
            "float4(".to_owned().concat(r).concat(".x, 0.0, 0.0, ").concat(r).concat(".y)")
        } else {
            "float4(".to_owned().concat(r).concat(".x, ").concat(r).concat(".y, 0.0, 0.0)")
        }
    } else if count == 3 {
        if projected {
            "float4(".to_owned()
                .concat(r)
                .concat(".x, ")
                .concat(r)
                .concat(".y, 0.0, ")
                .concat(r)
                .concat(".z)")
        } else {
            "float4(".to_owned()
                .concat(r)
                .concat(".x, ")
                .concat(r)
                .concat(".y, ")
                .concat(r)
                .concat(".z, 0.0)")
        }
    } else {
        r.to_owned()
    }
}

fn coord_stmts(key: &FfVsKey, i: usize) -> (r: String)
    requires
        i < 8,
        key.in_range(),
    ensures
        r@ == coord_output(*key, i as nat),
{
    let d = decimal(i as u64);
    let n = d.as_str();
    let tt: u8 = key.tt_flags[i];
    if key.flags.contains(FfVsFlags::HAS_RHW) {
        let c = input_coord_expr(key, i);
        return "    out.texcoord".to_owned()
            .concat(n)
            .concat(" = ")
            .concat(c.as_str())
            .concat(";\n");
    }
    let raw = raw_coord_stmts(key, i);
    if tt & TT_COUNT_MASK == 0 {
        raw.as_str().to_owned()
            .concat("    out.texcoord")
            .concat(n)
            .concat(" = raw")
            .concat(n)
            .concat(";\n")
    } else {
        let c: u8 = key.tci_coord_indices[i];
        let dims: u8 = if generated(key, i) {
            3
        } else if c >= key.input_tex_coord_count {
            4
        } else {
            key.tex_coord_dims[c as usize]
        };
        let first: u64 = TEXTURE_ROW + 4 * i as u64;
        let row0 = row_name(first);
        let row1 = row_name(first + 1);
        let row2 = row_name(first + 2);
        let row3 = row_name(first + 3);
        let name = "r".to_owned().concat(n);
        let t = name.as_str();
        let missing = decimal(dims as u64);
        let pad = string_if(
            1 <= dims && dims <= 3,
            "    raw".to_owned()
                .concat(n)
                .concat("[")
                .concat(missing.as_str())
                .concat("] = 1.0;\n"),
        );
        let kept = kept_expr(tt & TT_COUNT_MASK, tt & TT_PROJECTED != 0, t);
        raw.as_str().to_owned()
            .concat(pad.as_str())
            .concat("    float4 ")
            .concat(t)
            .concat(" = float4(dot(raw")
            .concat(n)
            .concat(", ")
            .concat(row0.as_str())
            .concat("), dot(raw")
            .concat(n)
            .concat(", ")
            .concat(row1.as_str())
            .concat("), dot(raw")
            .concat(n)
            .concat(", ")
            .concat(row2.as_str())
            .concat("), dot(raw")
            .concat(n)
            .concat(", ")
            .concat(row3.as_str())
            .concat("));\n    out.texcoord")
            .concat(n)
            .concat(" = ")
            .concat(kept.as_str())
            .concat(";\n")
    }
}

fn wants_normal(key: &FfVsKey) -> (r: bool)
    requires
        key.in_range(),
    ensures
        r == key.needs_normal(),
{
    if !key.flags.contains(FfVsFlags::HAS_NORMAL) {
        return false;
    }
    if is_lit(key) {
        return true;
    }
    let mut i: usize = 0;
    while i < key.tex_coord_count as usize
        invariant
            i <= key.tex_coord_count <= 8,
            key.normals(),
            !key.lit(),
            forall|k: int| 0 <= k < i ==> !#[trigger] key.generates_from_normal(k),
        decreases key.tex_coord_count - i,
    {
        let mode: u8 = key.tci_modes[i];
        if mode == 1 || mode == 3 || mode == 4 {
            assert(key.generates_from_normal(i as int));
            return true;
        }
        i = i + 1;
    }
    false
}

fn wants_position(key: &FfVsKey) -> (r: bool)
    requires
        key.in_range(),
    ensures
        r == key.needs_position(),
{
    let normals: bool = key.flags.contains(FfVsFlags::HAS_NORMAL);
    let lit: bool = is_lit(key);
    if lit && normals && key.flags.contains(FfVsFlags::SPECULAR_ENABLE) && key.flags.contains(
        FfVsFlags::LOCAL_VIEWER,
    ) {
        return true;
    }
    if lit {
        let mut slot: u16 = 0;
        while slot < 8
            invariant
                slot <= 8,
                lit == key.lit(),
                lit,
                forall|s: nat| s < slot && #[trigger] key.light_on(s) ==> key.directional(s),
            decreases 8 - slot,
        {
            if test_mask_bit(key.light_active_mask as u16, slot) && !test_mask_bit(
                key.light_directional_mask as u16,
                slot,
            ) {
                assert(key.light_on(slot as nat) && !key.directional(slot as nat));
                return true;
            }
            slot = slot + 1;
        }
    }
    let mut i: usize = 0;
    while i < key.tex_coord_count as usize
        invariant
            i <= key.tex_coord_count <= 8,
            normals == key.normals(),
            !(key.lit() && key.highlights() && key.flags.has(FfVsFlags::LOCAL_VIEWER)),
            key.lit() ==> forall|s: nat|
                s < 8 && #[trigger] key.light_on(s) ==> key.directional(s),
            forall|k: int| 0 <= k < i ==> !#[trigger] key.generates_from_position(k),
        decreases key.tex_coord_count - i,
    {
        let mode: u8 = key.tci_modes[i];
        if mode == 2 || mode == 4 || (mode == 3 && normals) {
            assert(key.generates_from_position(i as int));
            return true;
        }
        i = i + 1;
    }
    false
}

fn geometry_stmts(key: &FfVsKey) -> (r: String)
    requires
        key.in_range(),
    ensures
        r@ == ff_geometry(*key),
{
    if key.flags.contains(FfVsFlags::HAS_RHW) {
        let position = "    float2 vp = vs_c[0].xy;\n".to_owned()
            .concat("    float2 vp_origin = vs_c[0].zw;\n")
            .concat("    float w = in.v0.w != 0.0 ? 1.0 / in.v0.w : 1.0;\n")
            .concat("    float ndc_x = ((in.v0.x - vp_origin.x) / vp.x) * 2.0 - 1.0 + 1.0 / vp.x;\n")
            .concat("    float ndc_y = 1.0 - ((in.v0.y - vp_origin.y) / vp.y) * 2.0 - 1.0 / vp.y;\n")
            .concat("    out.position = float4(ndc_x * w, ndc_y * w, in.v0.z * w, w);\n");
        let colors = plain_color_stmts(key);
        position.concat(colors.as_str())
    } else {
        let position = position_stmts(key);
        let eye: &str = if !wants_position(key) {
            ""
        } else if key.vertex_blend_count > 0 {
            "    float3 posEye = pos_view.xyz;\n"
        } else {
            "    float3 posEye = float3(dot(pos, vs_c[0]), dot(pos, vs_c[1]), dot(pos, vs_c[2]));\n"
        };
        let normal = string_if(wants_normal(key), normal_stmts(key));
        let colors: String = if is_lit(key) {
            lit_color_stmts(key)
        } else {
            plain_color_stmts(key)
        };
        position.concat(eye).concat(normal.as_str()).concat(colors.as_str())
    }
}

fn point_size_stmts(key: &FfVsKey) -> (r: String)
    ensures
        r@ == point_size(*key),
{
    let size: &str = if key.flags.contains(FfVsFlags::HAS_PSIZE) {
        "    float psize = in.psize;\n"
    } else {
        "    float psize = vs_draw.point.x;\n"
    };
    let scale = string_if(
        key.flags.contains(FfVsFlags::POINT_SCALE) && !key.flags.contains(FfVsFlags::HAS_RHW),
        "    float psize_d = length(pos_view.xyz);\n".to_owned()
            .concat("    psize *= ((-1.0 / pos_fixup.y) / pos_fixup.w) / sqrt(max(vs_draw.point_scale.x + vs_draw.point_scale.y * psize_d + vs_draw.point_scale.z * psize_d * psize_d, 0.000001));\n"),
    );
    size.to_owned()
        .concat(scale.as_str())
        .concat("    out.point_size = clamp(psize, vs_draw.point.y, vs_draw.point.z) * pos_fixup.w;\n")
}

fn final_depth_stmts(key: &FfVsKey) -> (r: String)
    ensures
        r@ == final_depth(*key),
{
    let clamp = str_if(
        key.flags.contains(FfVsFlags::HAS_RHW),
        "    if (pos_fixup.z != 0.0) { out.position.z = clamp(out.position.z, 0.0, out.position.w); }\n",
    );
    "    out.fog_z = out.position.z / out.position.w;\n".to_owned().concat(clamp)
}

/// The source of a fixed-function vertex shader, with the default entry point.
pub fn emit_vs_ff(key: &FfVsKey) -> (r: String)
    requires
        key.in_range(),
    ensures
        r@ == ff_vs_source(*key, DEFAULT_VS_ENTRY@),
{
    emit_vs_ff_named(key, DEFAULT_VS_ENTRY)
}

/// The source of a fixed-function vertex shader.
pub fn emit_vs_ff_named(key: &FfVsKey, entry: &str) -> (r: String)
    requires
        key.in_range(),
    ensures
        r@ == ff_vs_source(*key, entry@),
{
    let n: usize = key.tex_coord_count as usize;
    let mut coords: String = "".to_owned();
    let mut i: usize = 0;
    while i < n
        invariant
            i <= n <= 8,
            key.in_range(),
            coords_from(*key, 0, n as nat, ""@) == coords_from(*key, i as nat, n as nat, coords@),
        decreases n - i,
    {
        coords = coords.concat(coord_stmts(key, i).as_str());
        i = i + 1;
    }
    let preamble: &str = "#include <metal_stdlib>\nusing namespace metal;\n\n";
    let inputs = input_struct(key);
    let varyings = emit_varyings(false);
    let geometry = geometry_stmts(key);
    let fog = fog_stmts(key);
    let depth = final_depth_stmts(key);
    let size = point_size_stmts(key);
    let matrix: bool = wants_normal(key) && key.vertex_blend_count == 0 && !key.flags.contains(
        FfVsFlags::HAS_RHW,
    );
    let helper = string_if(matrix, cross4_helper());
    let draw = "struct VsDraw {\n".to_owned()
        .concat("    float4 point;\n")
        .concat("    float4 point_scale;\n")
        .concat("};\n\n");
    let declarations = preamble.to_owned()
        .concat(inputs.as_str())
        .concat(varyings.as_str())
        .concat(draw.as_str())
        .concat(helper.as_str());
    let function = "vertex Varyings ".to_owned()
        .concat(entry)
        .concat("(\n")
        .concat("    VertexIn in [[stage_in]],\n")
        .concat("    constant float4 *vs_c [[buffer(15)]],\n")
        .concat("    constant float4 &pos_fixup [[buffer(13)]],\n")
        .concat("    constant VsDraw &vs_draw [[buffer(12)]]\n")
        .concat(") {\n")
        .concat("    Varyings out;\n")
        .concat("    out.position1 = float4(0.0);\n")
        .concat(geometry.as_str())
        .concat(fog.as_str())
        .concat(coords.as_str())
        .concat(depth.as_str())
        .concat(size.as_str())
        .concat("    return out;\n}\n");
    declarations.concat(function.as_str())
}

} // verus!
