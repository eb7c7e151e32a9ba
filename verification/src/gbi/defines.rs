//! Shared definitions of the graphics binary interface: the two-word command
//! record, decoded vertex records, lights, matrix-command flags and the
//! geometry-mode bits.
use vstd::prelude::*;

verus! {

/// One command record: two 32-bit machine words. The opcode is the top byte
/// of `w0`; the remaining bits and all of `w1` are operand fields.
#[derive(Clone, Copy, Debug, PartialEq, Eq, Structural)]
pub struct GWords {
    pub w0: u32,
    pub w1: u32,
}

/// A vertex record interpreted as an unlit, colored vertex.
#[derive(Clone, Copy)]
pub struct VertexColor {
    /// x, y, z (signed 16-bit integers)
    pub position: [i16; 3],
    /// currently has no meaning
    pub flag: u16,
    /// texture coordinates (s10.5)
    pub texture_coordinates: [i16; 2],
    /// color and alpha (0..255)
    pub color: [u8; 4],
}

/// The same record interpreted as a lit vertex carrying a normal.
#[derive(Clone, Copy)]
pub struct VertexNormal {
    /// x, y, z (signed 16-bit integers)
    pub position: [i16; 3],
    /// currently has no meaning
    pub flag: u16,
    /// texture coordinates (s10.5)
    pub texture_coordinates: [i16; 2],
    /// normal vector (x, y, z)
    pub normal: [u8; 3],
    /// alpha (0..255)
    pub alpha: u8,
}

/// One light: a diffuse color, a copy of it, and a direction.
#[derive(Clone, Copy)]
pub struct Light {
    /// diffuse light value (rgb)
    pub col: [u8; 3],
    /// copy of the diffuse light value (rgb)
    pub colc: [u8; 3],
    /// direction of the light (normalized by convention)
    pub dir: [i8; 3],
}

impl Light {
    pub fn new(col: [u8; 3], colc: [u8; 3], dir: [i8; 3]) -> (r: Light)
        ensures
            r.col == col,
            r.colc == colc,
            r.dir == dir,
    {
        Light { col, colc, dir }
    }
}

/// Flag bits of the matrix command's parameter byte.
pub const G_MTX_PUSH: u32 = 0x01;

pub const G_MTX_LOAD: u32 = 0x02;

pub const G_MTX_PROJECTION: u32 = 0x04;

/// Flags selecting target, operation and push behavior of a matrix command.
#[derive(Clone, Copy, Debug)]
pub enum G_MTX {
    NOPUSH_MUL_MODELVIEW,
    PUSH,
    LOAD,
    PROJECTION,
}

impl G_MTX {
    /// The operand mask of this flag.
    pub fn mask(self) -> (r: u32)
        ensures
            r == match self {
                G_MTX::NOPUSH_MUL_MODELVIEW => 0u32,
                G_MTX::PUSH => G_MTX_PUSH,
                G_MTX::LOAD => G_MTX_LOAD,
                G_MTX::PROJECTION => G_MTX_PROJECTION,
            },
    {
        match self {
            G_MTX::NOPUSH_MUL_MODELVIEW => 0,
            G_MTX::PUSH => G_MTX_PUSH,
            G_MTX::LOAD => G_MTX_LOAD,
            G_MTX::PROJECTION => G_MTX_PROJECTION,
        }
    }
}

/// The named bits of the geometry-mode register.
pub const G_ZBUFFER: u32 = 0x1;

pub const G_SHADE: u32 = 0x4;

pub const G_CULL_FRONT: u32 = 0x200;

pub const G_CULL_BACK: u32 = 0x400;

pub const G_CULL_BOTH: u32 = 0x600;

pub const G_FOG: u32 = 0x1_0000;

pub const G_LIGHTING: u32 = 0x2_0000;

pub const G_TEXTURE_GEN: u32 = 0x4_0000;

pub const G_TEXTURE_GEN_LINEAR: u32 = 0x8_0000;

pub const G_SHADING_SMOOTH: u32 = 0x20_0000;

pub const G_CLIPPING: u32 = 0x80_0000;

/// The geometry-mode bits, as named flags.
#[derive(Clone, Copy, Debug)]
pub enum RSPGeometry {
    G_ZBUFFER,
    G_SHADE,
    G_CULL_FRONT,
    G_CULL_BACK,
    G_CULL_BOTH,
    G_FOG,
    G_LIGHTING,
    G_TEXTURE_GEN,
    G_TEXTURE_GEN_LINEAR,
    G_SHADING_SMOOTH,
    G_CLIPPING,
}

impl RSPGeometry {
    /// The register bit (or bits) of this flag.
    pub fn bits(self) -> (r: u32)
        ensures
            r == match self {
                RSPGeometry::G_ZBUFFER => G_ZBUFFER,
                RSPGeometry::G_SHADE => G_SHADE,
                RSPGeometry::G_CULL_FRONT => G_CULL_FRONT,
                RSPGeometry::G_CULL_BACK => G_CULL_BACK,
                RSPGeometry::G_CULL_BOTH => G_CULL_BOTH,
                RSPGeometry::G_FOG => G_FOG,
                RSPGeometry::G_LIGHTING => G_LIGHTING,
                RSPGeometry::G_TEXTURE_GEN => G_TEXTURE_GEN,
                RSPGeometry::G_TEXTURE_GEN_LINEAR => G_TEXTURE_GEN_LINEAR,
                RSPGeometry::G_SHADING_SMOOTH => G_SHADING_SMOOTH,
                RSPGeometry::G_CLIPPING => G_CLIPPING,
            },
    {
        match self {
            RSPGeometry::G_ZBUFFER => G_ZBUFFER,
            RSPGeometry::G_SHADE => G_SHADE,
            RSPGeometry::G_CULL_FRONT => G_CULL_FRONT,
            RSPGeometry::G_CULL_BACK => G_CULL_BACK,
            RSPGeometry::G_CULL_BOTH => G_CULL_BOTH,
            RSPGeometry::G_FOG => G_FOG,
            RSPGeometry::G_LIGHTING => G_LIGHTING,
            RSPGeometry::G_TEXTURE_GEN => G_TEXTURE_GEN,
            RSPGeometry::G_TEXTURE_GEN_LINEAR => G_TEXTURE_GEN_LINEAR,
            RSPGeometry::G_SHADING_SMOOTH => G_SHADING_SMOOTH,
            RSPGeometry::G_CLIPPING => G_CLIPPING,
        }
    }
}

} // verus!
