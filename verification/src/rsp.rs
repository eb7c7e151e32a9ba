//! The geometry processor: matrix stack, vertex transform, lighting, fog,
//! clip-mask computation and the triangle accept/reject decision.
//!
//! Matrix cells are s15.16 fixed-point (see [`crate::fixed`]); clip-space
//! positions are kept as exact integer numerators in units of 1/65536, so all
//! clip and cull comparisons are exact.
use vstd::prelude::*;

use crate::fixed::{
    div_trunc, div_trunc_i128, lemma_abs_mul_le, lemma_div_trunc_bound, lemma_sqrt_floor_dominates,
    spec_i32_of_bits, sqrt_floor, i32_of_bits, isqrt,
};
use crate::gbi::defines::{Light, G_CULL_BACK, G_CULL_BOTH, G_CULL_FRONT, G_FOG, G_LIGHTING,
    G_MTX_LOAD, G_MTX_PROJECTION, G_MTX_PUSH, G_TEXTURE_GEN};
use crate::mem::{read_i16_be, read_u16_be, read_u32_be, spec_i16_be, spec_u16_be, spec_u32_be};
use crate::GfxError;

verus! {

/// Slots of the modelview matrix stack; the index never exceeds 31.
pub const NUM_MODELVIEW_MATRICES: usize = 32;

/// Directional lights; one more slot holds the ambient light.
pub const MAX_LIGHTS: usize = 2;

/// Slots of the staging vertex cache.
pub const VERTEX_TABLE_SIZE: usize = 64;

/// Every clip-space coordinate produced by the transform stays within this
/// bound (three cell-by-coordinate products plus the translation cell).
pub const POS_LIMIT: i64 = 0x1_0000_0000_0000;

/// A 4x4 matrix of s15.16 cells, row-major.
#[derive(Clone, Copy)]
pub struct Mtx {
    pub m: [[i32; 4]; 4],
}

impl Mtx {
    /// The mathematical value of one cell, in 1/65536 units.
    pub open spec fn cell(self, r: int, c: int) -> int {
        self.m[r][c] as int
    }

    pub fn zero() -> (r: Mtx)
        ensures
            forall|i: int, j: int| 0 <= i < 4 && 0 <= j < 4 ==> r.cell(i, j) == 0,
    {
        Mtx { m: [[0, 0, 0, 0], [0, 0, 0, 0], [0, 0, 0, 0], [0, 0, 0, 0]] }
    }
}

/// A fully transformed vertex awaiting triangle assembly. Positions are clip
/// space in 1/65536 units; texture coordinates are in texture-scale units.
#[derive(Clone, Copy)]
pub struct StagingVertex {
    pub pos: [i64; 4],
    pub tex_coord: [u16; 2],
    pub color: [u8; 4],
    pub clip_rejection: u8,
}

impl StagingVertex {
    /// Positions stay within the transform's output bound.
    pub open spec fn wf(self) -> bool {
        forall|i: int|
            0 <= i < 4 ==> -(POS_LIMIT as int) <= #[trigger] self.pos[i] <= POS_LIMIT as int
    }

    pub open spec fn is_zero(self) -> bool {
        &&& forall|i: int| 0 <= i < 4 ==> #[trigger] self.pos[i] == 0
        &&& self.tex_coord[0] == 0 && self.tex_coord[1] == 0
        &&& forall|i: int| 0 <= i < 4 ==> #[trigger] self.color[i] == 0
        &&& self.clip_rejection == 0
    }

    pub fn zero() -> (r: StagingVertex)
        ensures
            r.is_zero(),
            r.wf(),
    {
        StagingVertex { pos: [0, 0, 0, 0], tex_coord: [0, 0], color: [0, 0, 0, 0], clip_rejection: 0 }
    }
}

/// The geometry processor's state, owned by one rendering session.
pub struct RSP {
    // Matrices
    pub modelview_index: u8,
    pub modelview_matrix: Vec<Mtx>,
    pub model_projection_matrix: Mtx,
    pub projection_matrix: Mtx,
    // Vertices
    pub vertex_table: Vec<StagingVertex>,
    /// includes the ambient light
    pub current_num_lights: u8,
    pub current_lights: Vec<Light>,
    pub current_lights_coeffs: Vec<[i32; 3]>,
    /// lookat_x, lookat_y
    pub current_lookat_coeffs: Vec<[i32; 3]>,
    // Geometry Mode
    pub geometry_mode: u32,
    // State
    pub state_changed: bool,
    pub texture_scaling_factor: [u16; 2],
    // Fog
    pub fog_multiplier: i16,
    pub fog_offset: i16,
}

impl RSP {
    /// Structural invariant: fixed collection sizes, a stack index within the
    /// stack, a light count within the light slots, and normalized lighting
    /// coefficients (each within one fixed-point unit).
    pub open spec fn wf(self) -> bool {
        &&& self.modelview_matrix@.len() == NUM_MODELVIEW_MATRICES
        &&& (self.modelview_index as int) < NUM_MODELVIEW_MATRICES
        &&& self.vertex_table@.len() == VERTEX_TABLE_SIZE
        &&& (forall|i: int| 0 <= i < VERTEX_TABLE_SIZE ==> (#[trigger] self.vertex_table@[i]).wf())
        &&& self.current_num_lights as int <= MAX_LIGHTS + 1
        &&& self.current_lights@.len() == MAX_LIGHTS + 1
        &&& self.current_lights_coeffs@.len() == MAX_LIGHTS
        &&& self.current_lookat_coeffs@.len() == 2
        &&& (forall|i: int, j: int|
            0 <= i < MAX_LIGHTS && 0 <= j < 3 ==> -0x1_0000
                <= (#[trigger] self.current_lights_coeffs@[i][j]) <= 0x1_0000)
        &&& (forall|i: int, j: int|
            0 <= i < 2 && 0 <= j < 3 ==> -0x1_0000 <= (#[trigger] self.current_lookat_coeffs@[i][j])
                <= 0x1_0000)
    }

    pub fn new() -> (r: RSP)
        ensures
            r.wf(),
            r.modelview_index == 0,
            forall|s: int, i: int, j: int|
                0 <= s < NUM_MODELVIEW_MATRICES && 0 <= i < 4 && 0 <= j < 4 ==> (
                #[trigger] r.modelview_matrix@[s].cell(i, j)) == 0,
            forall|i: int, j: int|
                0 <= i < 4 && 0 <= j < 4 ==> r.model_projection_matrix.cell(i, j) == 0,
            forall|i: int, j: int|
                0 <= i < 4 && 0 <= j < 4 ==> r.projection_matrix.cell(i, j) == 0,
            forall|i: int| 0 <= i < VERTEX_TABLE_SIZE ==> (#[trigger] r.vertex_table@[i]).is_zero(),
            r.current_num_lights == 0,
            r.geometry_mode == 0,
            r.state_changed == false,
            r.texture_scaling_factor[0] == 1 && r.texture_scaling_factor[1] == 1,
            r.fog_multiplier == 0 && r.fog_offset == 0,
    {
        let mut modelview_matrix: Vec<Mtx> = Vec::new();
        let mut k: usize = 0;
        while k < NUM_MODELVIEW_MATRICES
            invariant
                modelview_matrix@.len() == k,
                k <= NUM_MODELVIEW_MATRICES,
                forall|s: int, i: int, j: int|
                    0 <= s < k && 0 <= i < 4 && 0 <= j < 4 ==> (
                    #[trigger] modelview_matrix@[s].cell(i, j)) == 0,
            decreases NUM_MODELVIEW_MATRICES - k,
        {
            modelview_matrix.push(Mtx::zero());
            k += 1;
        }
        let mut vertex_table: Vec<StagingVertex> = Vec::new();
        let mut k: usize = 0;
        while k < VERTEX_TABLE_SIZE
            invariant
                vertex_table@.len() == k,
                k <= VERTEX_TABLE_SIZE,
                forall|i: int| 0 <= i < k ==> (#[trigger] vertex_table@[i]).is_zero(),
            decreases VERTEX_TABLE_SIZE - k,
        {
            vertex_table.push(StagingVertex::zero());
            k += 1;
        }
        let mut current_lights: Vec<Light> = Vec::new();
        let mut k: usize = 0;
        while k < MAX_LIGHTS + 1
            invariant
                current_lights@.len() == k,
                k <= MAX_LIGHTS + 1,
            decreases MAX_LIGHTS + 1 - k,
        {
            current_lights.push(Light::new([0, 0, 0], [0, 0, 0], [0, 0, 0]));
            k += 1;
        }
        let mut current_lights_coeffs: Vec<[i32; 3]> = Vec::new();
        current_lights_coeffs.push([0, 0, 0]);
        current_lights_coeffs.push([0, 0, 0]);
        let mut current_lookat_coeffs: Vec<[i32; 3]> = Vec::new();
        current_lookat_coeffs.push([0, 0, 0]);
        current_lookat_coeffs.push([0, 0, 0]);
        RSP {
            modelview_index: 0,
            modelview_matrix,
            model_projection_matrix: Mtx::zero(),
            projection_matrix: Mtx::zero(),
            vertex_table,
            current_num_lights: 0,
            current_lights,
            current_lights_coeffs,
            current_lookat_coeffs,
            geometry_mode: 0,
            state_changed: false,
            texture_scaling_factor: [1, 1],
            fog_multiplier: 0,
            fog_offset: 0,
        }
    }
}

/// The clip-space coordinate of row `r`: the matrix row applied to the
/// homogeneous position `(x, y, z, 1)`, in 1/65536 units.
pub open spec fn spec_row_dot(m: Mtx, r: int, x: int, y: int, z: int) -> int {
    m.cell(r, 0) * x + m.cell(r, 1) * y + m.cell(r, 2) * z + m.cell(r, 3)
}

/// One matrix row applied to a homogeneous vertex position.
pub fn transform_row(m: &Mtx, r: usize, x: i16, y: i16, z: i16) -> (res: i64)
    requires
        r < 4,
    ensures
        res == spec_row_dot(*m, r as int, x as int, y as int, z as int),
        -(POS_LIMIT as int) <= res <= POS_LIMIT as int,
{
    proof {
        lemma_abs_mul_le(m.cell(r as int, 0), x as int, 0x8000_0000, 0x8000);
        lemma_abs_mul_le(m.cell(r as int, 1), y as int, 0x8000_0000, 0x8000);
        lemma_abs_mul_le(m.cell(r as int, 2), z as int, 0x8000_0000, 0x8000);
    }
    let row = &m.m[r];
    (row[0] as i64) * (x as i64) + (row[1] as i64) * (y as i64) + (row[2] as i64) * (z as i64)
        + (row[3] as i64)
}

/// The 6-bit clip-rejection mask: one bit per frustum plane, set when the
/// vertex lies outside that plane (-x, +x, -y, +y, -z, +z).
pub open spec fn spec_clip_mask(x: int, y: int, z: int, w: int) -> u8 {
    ((if x < -w { 1int } else { 0 }) + (if x > w { 2int } else { 0 }) + (if y < -w {
        4int
    } else {
        0
    }) + (if y > w { 8int } else { 0 }) + (if z < -w { 16int } else { 0 }) + (if z > w {
        32int
    } else {
        0
    })) as u8
}

pub fn clip_mask(x: i64, y: i64, z: i64, w: i64) -> (r: u8)
    requires
        w > i64::MIN,
    ensures
        r == spec_clip_mask(x as int, y as int, z as int, w as int),
{
    let mut r: u8 = 0;
    if x < -w {
        r += 1;
    }
    if x > w {
        r += 2;
    }
    if y < -w {
        r += 4;
    }
    if y > w {
        r += 8;
    }
    if z < -w {
        r += 16;
    }
    if z > w {
        r += 32;
    }
    r
}

/// The fog alpha: `z/w` (with `1/w` floored at 1/1000 in magnitude and a
/// negative reciprocal replaced by 32767) scaled by the fog multiplier, plus
/// the fog offset, truncated and clamped to 0..255. Exact over the fixed-point
/// numerators: `z` and `w` are in 1/65536 units.
pub open spec fn spec_fog_alpha(z: int, w: int, mult: int, off: int) -> int {
    let t = if -65 <= w <= 65 {
        div_trunc(z * 1000 * mult + off * 0x1_0000, 0x1_0000)
    } else if w > 65 {
        div_trunc(z * mult + off * w, w)
    } else {
        div_trunc(z * 32767 * mult + off * 0x1_0000, 0x1_0000)
    };
    if t < 0 {
        0
    } else if t > 255 {
        255
    } else {
        t
    }
}

pub fn fog_alpha(z: i64, w: i64, mult: i16, off: i16) -> (r: u8)
    requires
        -(POS_LIMIT as int) <= z <= POS_LIMIT as int,
        -(POS_LIMIT as int) <= w <= POS_LIMIT as int,
    ensures
        r as int == spec_fog_alpha(z as int, w as int, mult as int, off as int),
{
    let t: i128 = if -65 <= w && w <= 65 {
        proof {
            lemma_abs_mul_le((z as int) * 1000, mult as int, 0x3E8_0000_0000_0000, 0x8000);
        }
        let num: i128 = (z as i128) * 1000 * (mult as i128) + (off as i128) * 0x1_0000;
        div_trunc_i128(num, 0x1_0000)
    } else if w > 65 {
        proof {
            lemma_abs_mul_le(z as int, mult as int, POS_LIMIT as int, 0x8000);
            lemma_abs_mul_le(off as int, w as int, 0x8000, POS_LIMIT as int);
        }
        let num: i128 = (z as i128) * (mult as i128) + (off as i128) * (w as i128);
        div_trunc_i128(num, w as i128)
    } else {
        proof {
            lemma_abs_mul_le((z as int) * 32767, mult as int, 0x7FFF_0000_0000_0000, 0x8000);
        }
        let num: i128 = (z as i128) * 32767 * (mult as i128) + (off as i128) * 0x1_0000;
        div_trunc_i128(num, 0x1_0000)
    };
    if t < 0 {
        0
    } else if t > 255 {
        255
    } else {
        t as u8
    }
}


/// Saturation of a wide fixed-point result to an s15.16 cell.
pub open spec fn sat32(v: int) -> int {
    if v > i32::MAX as int {
        i32::MAX as int
    } else if v < i32::MIN as int {
        i32::MIN as int
    } else {
        v
    }
}

/// One cell of the matrix encoded at `a`: 8 words of packed 16-bit integer
/// halves (two cells per word, row-major) followed by 8 words of fractional
/// halves in the same layout. Even and odd columns take complementary
/// high/low halves of their shared words; the recombined 32 bits are one
/// signed s15.16 cell.
pub open spec fn spec_mtx_cell(mem: Seq<u8>, a: int, r: int, c: int) -> int {
    let iw = spec_u32_be(mem, a + 4 * (r * 2 + c / 2));
    let fw = spec_u32_be(mem, a + 4 * (8 + r * 2 + c / 2));
    if c % 2 == 0 {
        spec_i32_of_bits((iw & 0xFFFF_0000) | (fw >> 16))
    } else {
        spec_i32_of_bits((iw << 16) | (fw & 0xFFFF))
    }
}

/// One cell of the fixed-point product `a * b` (row into column, rescaled by
/// 1/65536 with truncation, saturated to the cell range).
pub open spec fn spec_mm_cell(a: Mtx, b: Mtx, r: int, c: int) -> int {
    sat32(
        div_trunc(
            a.cell(r, 0) * b.cell(0, c) + a.cell(r, 1) * b.cell(1, c) + a.cell(r, 2) * b.cell(2, c)
                + a.cell(r, 3) * b.cell(3, c),
            0x1_0000,
        ),
    )
}

/// [`spec_mm_cell`] with the right operand still in its encoded form at `ma`.
pub open spec fn spec_mm_cell_mem(a: Mtx, mem: Seq<u8>, ma: int, r: int, c: int) -> int {
    sat32(
        div_trunc(
            a.cell(r, 0) * spec_mtx_cell(mem, ma, 0, c) + a.cell(r, 1) * spec_mtx_cell(mem, ma, 1, c)
                + a.cell(r, 2) * spec_mtx_cell(mem, ma, 2, c) + a.cell(r, 3) * spec_mtx_cell(
                mem,
                ma,
                3,
                c,
            ),
            0x1_0000,
        ),
    )
}

fn decode_cell(mem: &Vec<u8>, a: usize, r: usize, c: usize) -> (res: i32)
    requires
        r < 4,
        c < 4,
        a + 64 <= mem.len(),
    ensures
        res as int == spec_mtx_cell(mem@, a as int, r as int, c as int),
{
    let iw = read_u32_be(mem, a + 4 * (r * 2 + c / 2));
    let fw = read_u32_be(mem, a + 4 * (8 + r * 2 + c / 2));
    if c % 2 == 0 {
        i32_of_bits((iw & 0xFFFF_0000) | (fw >> 16))
    } else {
        i32_of_bits((iw << 16) | (fw & 0xFFFF))
    }
}

/// Decode the split fixed-point matrix at `a` (64 bytes).
pub fn decode_mtx(mem: &Vec<u8>, a: usize) -> (res: Mtx)
    requires
        a + 64 <= mem.len(),
    ensures
        forall|r: int, c: int|
            0 <= r < 4 && 0 <= c < 4 ==> #[trigger] res.cell(r, c) == spec_mtx_cell(
                mem@,
                a as int,
                r,
                c,
            ),
{
    let res = Mtx {
        m: [
            [
                decode_cell(mem, a, 0, 0),
                decode_cell(mem, a, 0, 1),
                decode_cell(mem, a, 0, 2),
                decode_cell(mem, a, 0, 3),
            ],
            [
                decode_cell(mem, a, 1, 0),
                decode_cell(mem, a, 1, 1),
                decode_cell(mem, a, 1, 2),
                decode_cell(mem, a, 1, 3),
            ],
            [
                decode_cell(mem, a, 2, 0),
                decode_cell(mem, a, 2, 1),
                decode_cell(mem, a, 2, 2),
                decode_cell(mem, a, 2, 3),
            ],
            [
                decode_cell(mem, a, 3, 0),
                decode_cell(mem, a, 3, 1),
                decode_cell(mem, a, 3, 2),
                decode_cell(mem, a, 3, 3),
            ],
        ],
    };
    res
}

fn mm_entry(a: &Mtx, b: &Mtx, r: usize, c: usize) -> (res: i32)
    requires
        r < 4,
        c < 4,
    ensures
        res as int == spec_mm_cell(*a, *b, r as int, c as int),
{
    proof {
        lemma_abs_mul_le(a.cell(r as int, 0), b.cell(0, c as int), 0x8000_0000, 0x8000_0000);
        lemma_abs_mul_le(a.cell(r as int, 1), b.cell(1, c as int), 0x8000_0000, 0x8000_0000);
        lemma_abs_mul_le(a.cell(r as int, 2), b.cell(2, c as int), 0x8000_0000, 0x8000_0000);
        lemma_abs_mul_le(a.cell(r as int, 3), b.cell(3, c as int), 0x8000_0000, 0x8000_0000);
    }
    let sum: i128 = (a.m[r][0] as i128) * (b.m[0][c] as i128) + (a.m[r][1] as i128) * (b.m[1][c]
        as i128) + (a.m[r][2] as i128) * (b.m[2][c] as i128) + (a.m[r][3] as i128) * (b.m[3][c]
        as i128);
    let q: i128 = div_trunc_i128(sum, 0x1_0000);
    if q > i32::MAX as i128 {
        i32::MAX
    } else if q < i32::MIN as i128 {
        i32::MIN
    } else {
        q as i32
    }
}

/// Fixed-point matrix product `a * b`.
pub fn mtx_mul(a: &Mtx, b: &Mtx) -> (res: Mtx)
    ensures
        forall|r: int, c: int|
            0 <= r < 4 && 0 <= c < 4 ==> #[trigger] res.cell(r, c) == spec_mm_cell(*a, *b, r, c),
{
    Mtx {
        m: [
            [mm_entry(a, b, 0, 0), mm_entry(a, b, 0, 1), mm_entry(a, b, 0, 2), mm_entry(a, b, 0, 3)],
            [mm_entry(a, b, 1, 0), mm_entry(a, b, 1, 1), mm_entry(a, b, 1, 2), mm_entry(a, b, 1, 3)],
            [mm_entry(a, b, 2, 0), mm_entry(a, b, 2, 1), mm_entry(a, b, 2, 2), mm_entry(a, b, 2, 3)],
            [mm_entry(a, b, 3, 0), mm_entry(a, b, 3, 1), mm_entry(a, b, 3, 2), mm_entry(a, b, 3, 3)],
        ],
    }
}

/// What the matrix operation does: decode the matrix at `a`, then either
/// replace or right-multiply the selected target, duplicating the modelview
/// top first when a push is requested and room remains (a push at the last
/// slot is silently dropped, by design). The lighting state becomes dirty.
pub open spec fn gsp_matrix_ok(pre: RSP, post: RSP, mem: Seq<u8>, a: int, params: u32) -> bool {
    let push = params & G_MTX_PUSH != 0;
    let load = params & G_MTX_LOAD != 0;
    let pushed = push && pre.modelview_index < NUM_MODELVIEW_MATRICES - 1;
    let idx = if pushed {
        pre.modelview_index + 1
    } else {
        pre.modelview_index as int
    };
    let top = pre.modelview_matrix@[pre.modelview_index as int];
    &&& post.state_changed == true
    &&& post.vertex_table == pre.vertex_table
    &&& post.current_num_lights == pre.current_num_lights
    &&& post.current_lights == pre.current_lights
    &&& post.current_lights_coeffs == pre.current_lights_coeffs
    &&& post.current_lookat_coeffs == pre.current_lookat_coeffs
    &&& post.geometry_mode == pre.geometry_mode
    &&& post.texture_scaling_factor == pre.texture_scaling_factor
    &&& post.fog_multiplier == pre.fog_multiplier
    &&& post.fog_offset == pre.fog_offset
    &&& post.model_projection_matrix == pre.model_projection_matrix
    &&& if params & G_MTX_PROJECTION != 0 {
        &&& post.modelview_index == pre.modelview_index
        &&& post.modelview_matrix == pre.modelview_matrix
        &&& (forall|i: int, j: int|
            0 <= i < 4 && 0 <= j < 4 ==> #[trigger] post.projection_matrix.cell(i, j) == (if load {
                spec_mtx_cell(mem, a, i, j)
            } else {
                spec_mm_cell_mem(pre.projection_matrix, mem, a, i, j)
            }))
    } else {
        &&& post.projection_matrix == pre.projection_matrix
        &&& post.modelview_index as int == idx
        &&& post.modelview_matrix@.len() == pre.modelview_matrix@.len()
        &&& (forall|s: int|
            0 <= s < NUM_MODELVIEW_MATRICES && s != idx ==> #[trigger] post.modelview_matrix@[s]
                == pre.modelview_matrix@[s])
        &&& (forall|i: int, j: int|
            0 <= i < 4 && 0 <= j < 4 ==> #[trigger] post.modelview_matrix@[idx].cell(i, j) == (
            if load {
                spec_mtx_cell(mem, a, i, j)
            } else {
                spec_mm_cell_mem(top, mem, a, i, j)
            }))
    }
}


/// The whole contract of a matrix command over pre and post state.
pub open spec fn gsp_matrix_rel(
    pre: RSP,
    post: RSP,
    mem: Seq<u8>,
    mtx_address: u64,
    params: u32,
    r: Result<(), GfxError>,
) -> bool {
    &&& post.wf()
    &&& (mtx_address + 64 > mem.len() ==> r == Err::<(), GfxError>(
        GfxError::AddressOutOfBounds(mtx_address),
    ) && post == pre)
    &&& (mtx_address + 64 <= mem.len() ==> r == Ok::<(), GfxError>(()) && gsp_matrix_ok(
        pre,
        post,
        mem,
        mtx_address as int,
        params,
    ))
}

impl RSP {
    /// Apply a matrix command: read the 64-byte encoded matrix at
    /// `mtx_address` (already segment-resolved) and load or multiply it into
    /// the target selected by `params`.
    pub fn gsp_matrix(&mut self, mem: &Vec<u8>, mtx_address: u64, params: u32) -> (r: Result<
        (),
        GfxError,
    >)
        requires
            old(self).wf(),
        ensures
            gsp_matrix_rel(*old(self), *final(self), mem@, mtx_address, params, r),
    {
        let len = mem.len();
        if (mtx_address as u128) + 64 > (len as u128) {
            return Err(GfxError::AddressOutOfBounds(mtx_address));
        }
        let a = mtx_address as usize;
        let matrix = decode_mtx(mem, a);
        if params & G_MTX_PROJECTION != 0 {
            if params & G_MTX_LOAD != 0 {
                self.projection_matrix = matrix;
            } else {
                self.projection_matrix = mtx_mul(&self.projection_matrix, &matrix);
            }
        } else {
            if params & G_MTX_PUSH != 0 && (self.modelview_index as usize) < NUM_MODELVIEW_MATRICES
                - 1 {
                let top = self.modelview_matrix[self.modelview_index as usize];
                self.modelview_index += 1;
                self.modelview_matrix[self.modelview_index as usize] = top;
            }
            let idx = self.modelview_index as usize;
            if params & G_MTX_LOAD != 0 {
                self.modelview_matrix[idx] = matrix;
            } else {
                let product = mtx_mul(&self.modelview_matrix[idx], &matrix);
                self.modelview_matrix[idx] = product;
            }
        }
        self.state_changed = true;
        Ok(())
    }
}


/// The light direction rotated into model space: one column of the modelview
/// matrix dotted with the direction (a transpose-multiply), before
/// normalization. Uniform scaling of the direction does not change the
/// normalized result, so the direction is used in its raw signed-byte units.
pub open spec fn spec_col_dot(m: Mtx, c: int, d0: int, d1: int, d2: int) -> int {
    m.cell(0, c) * d0 + m.cell(1, c) * d1 + m.cell(2, c) * d2
}

/// Component `j` of the normalized vector `(r0, r1, r2)`, in 1/65536 units:
/// the component scaled by 65536 and divided (truncating) by the floor square
/// root of the squared magnitude. The zero vector normalizes to zero.
pub open spec fn spec_normalized(r0: int, r1: int, r2: int, j: int) -> int {
    let mag = sqrt_floor((r0 * r0 + r1 * r1 + r2 * r2) as nat);
    if mag == 0 {
        0
    } else {
        div_trunc((if j == 0 { r0 } else if j == 1 { r1 } else { r2 }) * 0x1_0000, mag as int)
    }
}

/// Component `j` of a light's cached direction coefficient: the direction
/// rotated by the matrix transpose, normalized.
pub open spec fn spec_light_coeff(m: Mtx, d0: int, d1: int, d2: int, j: int) -> int {
    spec_normalized(
        spec_col_dot(m, 0, d0, d1, d2),
        spec_col_dot(m, 1, d0, d1, d2),
        spec_col_dot(m, 2, d0, d1, d2),
        j,
    )
}

/// Normalize a vector of bounded integer components into 1/65536 units.
pub fn normalize_vector(v: [i64; 3]) -> (r: [i32; 3])
    requires
        forall|j: int| 0 <= j < 3 ==> -0x100_0000_0000 <= #[trigger] v[j] <= 0x100_0000_0000,
    ensures
        forall|j: int|
            0 <= j < 3 ==> #[trigger] r[j] as int == spec_normalized(
                v[0] as int,
                v[1] as int,
                v[2] as int,
                j,
            ),
        forall|j: int| 0 <= j < 3 ==> -0x1_0000 <= #[trigger] r[j] <= 0x1_0000,
{
    proof {
        lemma_abs_mul_le(v[0] as int, v[0] as int, 0x100_0000_0000, 0x100_0000_0000);
        lemma_abs_mul_le(v[1] as int, v[1] as int, 0x100_0000_0000, 0x100_0000_0000);
        lemma_abs_mul_le(v[2] as int, v[2] as int, 0x100_0000_0000, 0x100_0000_0000);
        assert((v[0] as int) * (v[0] as int) >= 0 && (v[1] as int) * (v[1] as int) >= 0 && (v[2]
            as int) * (v[2] as int) >= 0) by (nonlinear_arith);
    }
    let s0: i128 = (v[0] as i128) * (v[0] as i128);
    let s1: i128 = (v[1] as i128) * (v[1] as i128);
    let s2: i128 = (v[2] as i128) * (v[2] as i128);
    let sumsq: u128 = (s0 + s1 + s2) as u128;
    let mag: u128 = isqrt(sumsq);
    if mag == 0 {
        [0, 0, 0]
    } else {
        let c0 = normalize_component(v[0], mag, Ghost(sumsq));
        let c1 = normalize_component(v[1], mag, Ghost(sumsq));
        let c2 = normalize_component(v[2], mag, Ghost(sumsq));
        [c0, c1, c2]
    }
}

/// One component of the normalization: `x * 65536 / mag`, truncating.
fn normalize_component(x: i64, mag: u128, magsq: Ghost<u128>) -> (r: i32)
    requires
        0 < mag < 0x1_0000_0000_0000_0000,
        mag == sqrt_floor(magsq@ as nat),
        x * x <= magsq@,
        -0x100_0000_0000 <= x <= 0x100_0000_0000,
    ensures
        r as int == div_trunc(x * 0x1_0000, mag as int),
        -0x1_0000 <= r <= 0x1_0000,
{
    proof {
        lemma_sqrt_floor_dominates(magsq@ as nat, x as int);
        lemma_abs_mul_le(x as int, 0x1_0000, mag as int, 0x1_0000);
        lemma_div_trunc_bound((x as int) * 0x1_0000, mag as int, 0x1_0000);
    }
    let q: i128 = div_trunc_i128((x as i128) * 0x1_0000, mag as i128);
    q as i32
}

/// Relies only on the light's direction and the matrix: the rotated,
/// normalized direction coefficient vector for one light.
pub fn calculate_normal_dir(light: &Light, matrix: &Mtx) -> (coeffs: [i32; 3])
    ensures
        forall|j: int|
            0 <= j < 3 ==> #[trigger] coeffs[j] as int == spec_light_coeff(
                *matrix,
                light.dir[0] as int,
                light.dir[1] as int,
                light.dir[2] as int,
                j,
            ),
        forall|j: int| 0 <= j < 3 ==> -0x1_0000 <= #[trigger] coeffs[j] <= 0x1_0000,
{
    let r0 = col_dot(matrix, 0, light.dir);
    let r1 = col_dot(matrix, 1, light.dir);
    let r2 = col_dot(matrix, 2, light.dir);
    normalize_vector([r0, r1, r2])
}

/// One column of the matrix dotted with a signed-byte direction.
fn col_dot(m: &Mtx, c: usize, d: [i8; 3]) -> (r: i64)
    requires
        c < 4,
    ensures
        r == spec_col_dot(*m, c as int, d[0] as int, d[1] as int, d[2] as int),
        -0x100_0000_0000 <= r <= 0x100_0000_0000,
{
    proof {
        lemma_abs_mul_le(m.cell(0, c as int), d[0] as int, 0x8000_0000, 0x80);
        lemma_abs_mul_le(m.cell(1, c as int), d[1] as int, 0x8000_0000, 0x80);
        lemma_abs_mul_le(m.cell(2, c as int), d[2] as int, 0x8000_0000, 0x80);
    }
    (m.m[0][c] as i64) * (d[0] as i64) + (m.m[1][c] as i64) * (d[1] as i64) + (m.m[2][c] as i64)
        * (d[2] as i64)
}

/// The lazy recomputation of the lighting caches: every configured
/// directional light's coefficient vector, and the two fixed look-at
/// coefficient vectors (synthetic lights along +X and +Y used by the
/// spherical texture-coordinate mode), all rotated by the matrix one below
/// the modelview top.
pub open spec fn lights_recomputed(pre: RSP, post: RSP) -> bool {
    let mv = pre.modelview_matrix@[pre.modelview_index - 1];
    &&& post.current_lights_coeffs@.len() == pre.current_lights_coeffs@.len()
    &&& post.current_lookat_coeffs@.len() == 2
    &&& (forall|i: int, j: int|
        0 <= i < pre.current_num_lights - 1 && i < MAX_LIGHTS && 0 <= j < 3 ==> (
        #[trigger] post.current_lights_coeffs@[i][j]) as int == spec_light_coeff(
            mv,
            pre.current_lights@[i].dir[0] as int,
            pre.current_lights@[i].dir[1] as int,
            pre.current_lights@[i].dir[2] as int,
            j,
        ))
    &&& (forall|i: int|
        pre.current_num_lights - 1 <= i < MAX_LIGHTS ==> #[trigger] post.current_lights_coeffs@[i]
            == pre.current_lights_coeffs@[i])
    &&& (forall|j: int|
        0 <= j < 3 ==> (#[trigger] post.current_lookat_coeffs@[0][j]) as int == spec_light_coeff(
            mv,
            127,
            0,
            0,
            j,
        ))
    &&& (forall|j: int|
        0 <= j < 3 ==> (#[trigger] post.current_lookat_coeffs@[1][j]) as int == spec_light_coeff(
            mv,
            0,
            127,
            0,
            j,
        ))
}

impl RSP {
    /// Recompute the cached lighting coefficients and clear the dirty flag.
    fn recompute_lighting(&mut self)
        requires
            old(self).wf(),
            old(self).modelview_index >= 1,
            old(self).current_num_lights >= 1,
        ensures
            final(self).wf(),
            lights_recomputed(*old(self), *final(self)),
            final(self).state_changed == false,
            final(self).modelview_index == old(self).modelview_index,
            final(self).modelview_matrix == old(self).modelview_matrix,
            final(self).model_projection_matrix == old(self).model_projection_matrix,
            final(self).projection_matrix == old(self).projection_matrix,
            final(self).vertex_table == old(self).vertex_table,
            final(self).current_num_lights == old(self).current_num_lights,
            final(self).current_lights == old(self).current_lights,
            final(self).geometry_mode == old(self).geometry_mode,
            final(self).texture_scaling_factor == old(self).texture_scaling_factor,
            final(self).fog_multiplier == old(self).fog_multiplier,
            final(self).fog_offset == old(self).fog_offset,
    {
        let below = self.modelview_index as usize - 1;
        if self.current_num_lights >= 2 {
            let c = calculate_normal_dir(&self.current_lights[0], &self.modelview_matrix[below]);
            self.current_lights_coeffs[0] = c;
        }
        if self.current_num_lights >= 3 {
            let c = calculate_normal_dir(&self.current_lights[1], &self.modelview_matrix[below]);
            self.current_lights_coeffs[1] = c;
        }
        let lookat_x = Light::new([0, 0, 0], [0, 0, 0], [127, 0, 0]);
        let lookat_y = Light::new([0, 0, 0], [0, 0, 0], [0, 127, 0]);
        let cx = calculate_normal_dir(&lookat_x, &self.modelview_matrix[below]);
        self.current_lookat_coeffs[0] = cx;
        let cy = calculate_normal_dir(&lookat_y, &self.modelview_matrix[below]);
        self.current_lookat_coeffs[1] = cy;
        self.state_changed = false;
    }
}


/// A lighting-coefficient vector dotted with a raw vertex normal.
pub open spec fn spec_dot3(c: [i32; 3], n0: int, n1: int, n2: int) -> int {
    c[0] * n0 + c[1] * n1 + c[2] * n2
}

fn dot3(c: &[i32; 3], n0: u8, n1: u8, n2: u8) -> (r: i64)
    requires
        forall|j: int| 0 <= j < 3 ==> -0x1_0000 <= #[trigger] c[j] <= 0x1_0000,
    ensures
        r == spec_dot3(*c, n0 as int, n1 as int, n2 as int),
        -0x2FD_0000 <= r <= 0x2FD_0000,
{
    proof {
        lemma_abs_mul_le(c[0] as int, n0 as int, 0x1_0000, 0xFF);
        lemma_abs_mul_le(c[1] as int, n1 as int, 0x1_0000, 0xFF);
        lemma_abs_mul_le(c[2] as int, n2 as int, 0x1_0000, 0xFF);
    }
    (c[0] as i64) * (n0 as i64) + (c[1] as i64) * (n1 as i64) + (c[2] as i64) * (n2 as i64)
}

/// One color channel under lighting: the ambient channel plus, for each
/// applicable directional light with a positive incidence, the incidence
/// (the coefficient-normal dot over 127) times the light's channel; the sum
/// is truncated and clamped to 255. Exact over a common denominator of
/// 127 * 65536.
pub open spec fn spec_light_sum(
    base: int,
    use0: bool,
    dot0: int,
    col0: int,
    use1: bool,
    dot1: int,
    col1: int,
) -> int {
    let num = base * 0x7F_0000 + (if use0 && dot0 > 0 {
        dot0 * col0
    } else {
        0
    }) + (if use1 && dot1 > 0 {
        dot1 * col1
    } else {
        0
    });
    if num > 255 * 0x7F_0000 {
        255
    } else {
        num / 0x7F_0000
    }
}

fn light_channel(base: u8, use0: bool, dot0: i64, col0: u8, use1: bool, dot1: i64, col1: u8) -> (r:
    u8)
    requires
        -0x2FD_0000 <= dot0 <= 0x2FD_0000,
        -0x2FD_0000 <= dot1 <= 0x2FD_0000,
    ensures
        r as int == spec_light_sum(
            base as int,
            use0,
            dot0 as int,
            col0 as int,
            use1,
            dot1 as int,
            col1 as int,
        ),
{
    proof {
        lemma_abs_mul_le(dot0 as int, col0 as int, 0x2FD_0000, 0xFF);
        lemma_abs_mul_le(dot1 as int, col1 as int, 0x2FD_0000, 0xFF);
    }
    let mut num: i64 = (base as i64) * 0x7F_0000;
    if use0 && dot0 > 0 {
        num += dot0 * (col0 as i64);
    }
    if use1 && dot1 > 0 {
        num += dot1 * (col1 as i64);
    }
    if num > 255 * 0x7F_0000 {
        255
    } else {
        proof {
            vstd::arithmetic::div_mod::lemma_div_pos_is_pos(num as int, 0x7F_0000);
            vstd::arithmetic::div_mod::lemma_div_is_ordered(num as int, 255int * 0x7F_0000, 0x7F_0000);
            vstd::arithmetic::div_mod::lemma_div_by_multiple(255, 0x7F_0000);
        }
        ((num as u64) / 0x7F_0000) as u8
    }
}

/// A generated texture coordinate: `(incidence/127 + 1) / 4` truncated toward
/// zero (negative values truncate to zero), scaled by the texture scaling
/// factor. Exact over the common denominator 4 * 127 * 65536.
pub open spec fn spec_texgen(dot: int, tsf: int) -> int {
    let num = dot + 0x7F_0000;
    if num <= 0 {
        0
    } else {
        (num / 0x1FC_0000) * tsf
    }
}

fn texgen_coord(dot: i64, tsf: u16) -> (r: u16)
    requires
        -0x2FD_0000 <= dot <= 0x2FD_0000,
    ensures
        r as int == spec_texgen(dot as int, tsf as int),
{
    let num: i64 = dot + 0x7F_0000;
    if num <= 0 {
        0
    } else {
        let q: u64 = (num as u64) / 0x1FC_0000;
        proof {
            vstd::arithmetic::div_mod::lemma_div_is_ordered(num as int, 0x37C_0000, 0x1FC_0000);
            assert(0x37C_0000int / 0x1FC_0000int == 1) by (nonlinear_arith);
        }
        if q == 0 {
            0
        } else {
            assert(q == 1);
            assert(1 * (tsf as int) == tsf as int) by (nonlinear_arith);
            tsf
        }
    }
}

/// A raw texture coordinate scaled by the texture scaling factor:
/// `bits * tsf / 65536`.
pub open spec fn spec_uv_scale(bits: int, tsf: int) -> int {
    (bits * tsf) / 0x1_0000
}

fn uv_scale(bits: u16, tsf: u16) -> (r: u16)
    ensures
        r as int == spec_uv_scale(bits as int, tsf as int),
{
    proof {
        lemma_abs_mul_le(bits as int, tsf as int, 0xFFFF, 0xFFFF);
        vstd::arithmetic::div_mod::lemma_div_pos_is_pos((bits as int) * (tsf as int), 0x1_0000);
        vstd::arithmetic::div_mod::lemma_div_is_ordered(
            (bits as int) * (tsf as int),
            0xFFFFint * 0xFFFF,
            0x1_0000,
        );
        assert(0xFFFFint * 0xFFFF / 0x1_0000 == 0xFFFE) by (nonlinear_arith);
    }
    (((bits as u32) * (tsf as u32)) / 0x1_0000) as u16
}

/// What one staging vertex must hold after the transform of the source
/// record at `a`: the clip-space position from the composite matrix, the
/// clip-rejection mask, lit or raw colors, generated or scaled texture
/// coordinates, and a fog or raw alpha. `rsp` is the processor state after
/// any lighting recomputation.
pub open spec fn staged_ok(v: StagingVertex, rsp: RSP, mem: Seq<u8>, a: int) -> bool {
    let px = spec_i16_be(mem, a);
    let py = spec_i16_be(mem, a + 2);
    let pz = spec_i16_be(mem, a + 4);
    let x = spec_row_dot(rsp.model_projection_matrix, 0, px, py, pz);
    let y = spec_row_dot(rsp.model_projection_matrix, 1, px, py, pz);
    let z = spec_row_dot(rsp.model_projection_matrix, 2, px, py, pz);
    let w = spec_row_dot(rsp.model_projection_matrix, 3, px, py, pz);
    let lit = rsp.geometry_mode & G_LIGHTING != 0;
    let texgen = rsp.geometry_mode & G_TEXTURE_GEN != 0;
    let fogged = rsp.geometry_mode & G_FOG != 0;
    let n0 = mem[a + 12] as int;
    let n1 = mem[a + 13] as int;
    let n2 = mem[a + 14] as int;
    let nl = rsp.current_num_lights as int;
    &&& v.pos[0] == x && v.pos[1] == y && v.pos[2] == z && v.pos[3] == w
    &&& v.clip_rejection == spec_clip_mask(x, y, z, w)
    &&& (if lit {
        forall|ch: int|
            0 <= ch < 3 ==> (#[trigger] v.color[ch]) as int == spec_light_sum(
                rsp.current_lights@[nl - 1].col[ch] as int,
                nl >= 2,
                spec_dot3(rsp.current_lights_coeffs@[0], n0, n1, n2),
                rsp.current_lights@[0].col[ch] as int,
                nl >= 3,
                spec_dot3(rsp.current_lights_coeffs@[1], n0, n1, n2),
                rsp.current_lights@[1].col[ch] as int,
            )
    } else {
        v.color[0] == mem[a + 12] && v.color[1] == mem[a + 13] && v.color[2] == mem[a + 14]
    })
    &&& (if lit && texgen {
        &&& v.tex_coord[0] as int == spec_texgen(
            spec_dot3(rsp.current_lookat_coeffs@[0], n0, n1, n2),
            rsp.texture_scaling_factor[0] as int,
        )
        &&& v.tex_coord[1] as int == spec_texgen(
            spec_dot3(rsp.current_lookat_coeffs@[1], n0, n1, n2),
            rsp.texture_scaling_factor[1] as int,
        )
    } else {
        &&& v.tex_coord[0] as int == spec_uv_scale(
            spec_u16_be(mem, a + 8) as int,
            rsp.texture_scaling_factor[0] as int,
        )
        &&& v.tex_coord[1] as int == spec_uv_scale(
            spec_u16_be(mem, a + 10) as int,
            rsp.texture_scaling_factor[1] as int,
        )
    })
    &&& v.color[3] as int == (if fogged {
        spec_fog_alpha(z, w, rsp.fog_multiplier as int, rsp.fog_offset as int)
    } else {
        mem[a + 15] as int
    })
}

/// The conditions under which a vertex command is refused, checked before any
/// state changes: the destination slots must fit the staging cache, every
/// source record must lie inside the host buffer, and lighting (when enabled)
/// needs at least one light and a pushed modelview matrix.
pub open spec fn spec_gsp_vertex_check(
    rsp: RSP,
    mem: Seq<u8>,
    address: u64,
    count: usize,
    dest: usize,
) -> Result<(), GfxError> {
    let lit = rsp.geometry_mode & G_LIGHTING != 0;
    if count == 0 {
        Ok(())
    } else if dest + count > VERTEX_TABLE_SIZE {
        Err(GfxError::VertexIndexOutOfRange)
    } else if address + 16 * count > mem.len() {
        Err(GfxError::AddressOutOfBounds(address))
    } else if lit && rsp.current_num_lights == 0 {
        Err(GfxError::NoLights)
    } else if lit && rsp.modelview_index == 0 {
        Err(GfxError::MatrixStackEmpty)
    } else {
        Ok(())
    }
}

/// All fields a vertex command never touches.
pub open spec fn gsp_vertex_frame(pre: RSP, post: RSP) -> bool {
    &&& post.modelview_index == pre.modelview_index
    &&& post.modelview_matrix == pre.modelview_matrix
    &&& post.model_projection_matrix == pre.model_projection_matrix
    &&& post.projection_matrix == pre.projection_matrix
    &&& post.current_num_lights == pre.current_num_lights
    &&& post.current_lights == pre.current_lights
    &&& post.geometry_mode == pre.geometry_mode
    &&& post.texture_scaling_factor == pre.texture_scaling_factor
    &&& post.fog_multiplier == pre.fog_multiplier
    &&& post.fog_offset == pre.fog_offset
}


/// The whole contract of a vertex command over pre and post state.
pub open spec fn gsp_vertex_rel(
    pre: RSP,
    post: RSP,
    mem: Seq<u8>,
    address: u64,
    vertex_count: usize,
    dest_index: usize,
    r: Result<(), GfxError>,
) -> bool {
    &&& post.wf()
    &&& r == spec_gsp_vertex_check(pre, mem, address, vertex_count, dest_index)
    &&& (r is Err ==> post == pre)
    &&& (vertex_count == 0 ==> post == pre)
    &&& (r is Ok && vertex_count > 0 ==> {
        let lit = pre.geometry_mode & G_LIGHTING != 0;
        &&& gsp_vertex_frame(pre, post)
        &&& (if lit && pre.state_changed {
            &&& lights_recomputed(pre, post)
            &&& post.state_changed == false
        } else {
            &&& post.current_lights_coeffs == pre.current_lights_coeffs
            &&& post.current_lookat_coeffs == pre.current_lookat_coeffs
            &&& post.state_changed == pre.state_changed
        })
        &&& post.vertex_table@.len() == VERTEX_TABLE_SIZE
        &&& (forall|k: int|
            0 <= k < vertex_count ==> staged_ok(
                #[trigger] post.vertex_table@[dest_index + k],
                post,
                mem,
                address + 16 * k,
            ))
        &&& (forall|j: int|
            0 <= j < VERTEX_TABLE_SIZE && !(dest_index <= j < dest_index + vertex_count)
                ==> #[trigger] post.vertex_table@[j] == pre.vertex_table@[j])
    })
}

impl RSP {
    /// Transform `vertex_count` source vertex records starting at `address`
    /// (already segment-resolved) into staging vertices at `dest_index`
    /// onward. Lighting coefficients are recomputed first when the state is
    /// dirty and lighting is enabled; the dirty flag is then cleared.
    pub fn gsp_vertex(
        &mut self,
        mem: &Vec<u8>,
        address: u64,
        vertex_count: usize,
        dest_index: usize,
    ) -> (r: Result<(), GfxError>)
        requires
            old(self).wf(),
        ensures
            gsp_vertex_rel(*old(self), *final(self), mem@, address, vertex_count, dest_index, r),
    {
        let lit = self.geometry_mode & G_LIGHTING != 0;
        if vertex_count == 0 {
            return Ok(());
        }
        if dest_index >= VERTEX_TABLE_SIZE || vertex_count > VERTEX_TABLE_SIZE - dest_index {
            return Err(GfxError::VertexIndexOutOfRange);
        }
        if (address as u128) + 16 * (vertex_count as u128) > mem.len() as u128 {
            return Err(GfxError::AddressOutOfBounds(address));
        }
        if lit && self.current_num_lights == 0 {
            return Err(GfxError::NoLights);
        }
        if lit && self.modelview_index == 0 {
            return Err(GfxError::MatrixStackEmpty);
        }
        if lit && self.state_changed {
            self.recompute_lighting();
        }
        let base = address as usize;
        let ghost pre_loop: RSP = *self;
        let mut k: usize = 0;
        while k < vertex_count
            invariant
                self.wf(),
                k <= vertex_count,
                0 < vertex_count,
                dest_index + vertex_count <= VERTEX_TABLE_SIZE,
                base + 16 * vertex_count <= mem@.len(),
                mem@.len() <= usize::MAX,
                lit == (pre_loop.geometry_mode & G_LIGHTING != 0),
                lit ==> 1 <= pre_loop.current_num_lights,
                self.modelview_index == pre_loop.modelview_index,
                self.modelview_matrix == pre_loop.modelview_matrix,
                self.model_projection_matrix == pre_loop.model_projection_matrix,
                self.projection_matrix == pre_loop.projection_matrix,
                self.current_num_lights == pre_loop.current_num_lights,
                self.current_lights == pre_loop.current_lights,
                self.current_lights_coeffs == pre_loop.current_lights_coeffs,
                self.current_lookat_coeffs == pre_loop.current_lookat_coeffs,
                self.geometry_mode == pre_loop.geometry_mode,
                self.state_changed == pre_loop.state_changed,
                self.texture_scaling_factor == pre_loop.texture_scaling_factor,
                self.fog_multiplier == pre_loop.fog_multiplier,
                self.fog_offset == pre_loop.fog_offset,
                self.vertex_table@.len() == VERTEX_TABLE_SIZE,
                forall|i: int|
                    0 <= i < k ==> staged_ok(
                        #[trigger] self.vertex_table@[dest_index + i],
                        *self,
                        mem@,
                        base + 16 * i,
                    ),
                forall|j: int|
                    0 <= j < VERTEX_TABLE_SIZE && !(dest_index <= j < dest_index + k)
                        ==> #[trigger] self.vertex_table@[j] == pre_loop.vertex_table@[j],
            decreases vertex_count - k,
        {
            let a = base + 16 * k;
            assert(a + 16 <= mem@.len());
            let px = read_i16_be(mem, a);
            let py = read_i16_be(mem, a + 2);
            let pz = read_i16_be(mem, a + 4);
            let x = transform_row(&self.model_projection_matrix, 0, px, py, pz);
            let y = transform_row(&self.model_projection_matrix, 1, px, py, pz);
            let z = transform_row(&self.model_projection_matrix, 2, px, py, pz);
            let w = transform_row(&self.model_projection_matrix, 3, px, py, pz);
            let b12 = mem[a + 12];
            let b13 = mem[a + 13];
            let b14 = mem[a + 14];
            let b15 = mem[a + 15];
            let tsf0 = self.texture_scaling_factor[0];
            let tsf1 = self.texture_scaling_factor[1];
            let mut color: [u8; 4] = [0, 0, 0, 0];
            let mut uv: [u16; 2] = [0, 0];
            if lit {
                let nl = self.current_num_lights as usize;
                let dot0 = dot3(&self.current_lights_coeffs[0], b12, b13, b14);
                let dot1 = dot3(&self.current_lights_coeffs[1], b12, b13, b14);
                let ambient = self.current_lights[nl - 1];
                color[0] = light_channel(
                    ambient.col[0],
                    nl >= 2,
                    dot0,
                    self.current_lights[0].col[0],
                    nl >= 3,
                    dot1,
                    self.current_lights[1].col[0],
                );
                color[1] = light_channel(
                    ambient.col[1],
                    nl >= 2,
                    dot0,
                    self.current_lights[0].col[1],
                    nl >= 3,
                    dot1,
                    self.current_lights[1].col[1],
                );
                color[2] = light_channel(
                    ambient.col[2],
                    nl >= 2,
                    dot0,
                    self.current_lights[0].col[2],
                    nl >= 3,
                    dot1,
                    self.current_lights[1].col[2],
                );
                if self.geometry_mode & G_TEXTURE_GEN != 0 {
                    let dotx = dot3(&self.current_lookat_coeffs[0], b12, b13, b14);
                    let doty = dot3(&self.current_lookat_coeffs[1], b12, b13, b14);
                    uv[0] = texgen_coord(dotx, tsf0);
                    uv[1] = texgen_coord(doty, tsf1);
                } else {
                    uv[0] = uv_scale(read_u16_be(mem, a + 8), tsf0);
                    uv[1] = uv_scale(read_u16_be(mem, a + 10), tsf1);
                }
            } else {
                color[0] = b12;
                color[1] = b13;
                color[2] = b14;
                uv[0] = uv_scale(read_u16_be(mem, a + 8), tsf0);
                uv[1] = uv_scale(read_u16_be(mem, a + 10), tsf1);
            }
            if self.geometry_mode & G_FOG != 0 {
                color[3] = fog_alpha(z, w, self.fog_multiplier, self.fog_offset);
            } else {
                color[3] = b15;
            }
            let sv = StagingVertex {
                pos: [x, y, z, w],
                tex_coord: uv,
                color,
                clip_rejection: clip_mask(x, y, z, w),
            };
            self.vertex_table[dest_index + k] = sv;
            assert(staged_ok(sv, *self, mem@, a as int));
            k += 1;
        }
        Ok(())
    }
}


/// A perspective-divided screen coordinate on a 1/4096 grid: `x/w` truncated
/// toward zero in 1/4096 units. (Positions are exact in 1/65536 units, so
/// this is `x * 4096 / w` over the numerators.)
pub open spec fn spec_screen(x: int, w: int) -> int
    recommends
        w != 0,
{
    if w > 0 {
        div_trunc(x * 4096, w)
    } else {
        div_trunc(-(x * 4096), -w)
    }
}

/// The signed area term of the screen-space triangle: the 2D cross product
/// of the edges `(v1 - v2)` and `(v3 - v2)` after perspective division,
/// negated when an odd number of the vertices lie behind the eye (negative
/// `w`). A vertex with `w == 0` has no screen position; such a triangle gets
/// no orientation (cross 0, so single-bit cull modes keep it).
pub open spec fn spec_tri_cross(v1: StagingVertex, v2: StagingVertex, v3: StagingVertex) -> int {
    if v1.pos[3] == 0 || v2.pos[3] == 0 || v3.pos[3] == 0 {
        0
    } else {
        let sx1 = spec_screen(v1.pos[0] as int, v1.pos[3] as int);
        let sy1 = spec_screen(v1.pos[1] as int, v1.pos[3] as int);
        let sx2 = spec_screen(v2.pos[0] as int, v2.pos[3] as int);
        let sy2 = spec_screen(v2.pos[1] as int, v2.pos[3] as int);
        let sx3 = spec_screen(v3.pos[0] as int, v3.pos[3] as int);
        let sy3 = spec_screen(v3.pos[1] as int, v3.pos[3] as int);
        let raw = (sx1 - sx2) * (sy3 - sy2) - (sy1 - sy2) * (sx3 - sx2);
        if ((v1.pos[3] < 0) != (v2.pos[3] < 0)) != (v3.pos[3] < 0) {
            -raw
        } else {
            raw
        }
    }
}

/// The triangle accept/reject decision: rejected when the three vertices
/// share an "outside" plane; otherwise, when culling is active, rejected by
/// the cross product's sign (both cull bits together reject everything).
pub open spec fn spec_triangle_kept(rsp: RSP, i1: int, i2: int, i3: int) -> bool {
    let v1 = rsp.vertex_table@[i1];
    let v2 = rsp.vertex_table@[i2];
    let v3 = rsp.vertex_table@[i3];
    if v1.clip_rejection & v2.clip_rejection & v3.clip_rejection != 0 {
        false
    } else if rsp.geometry_mode & G_CULL_BOTH == 0 {
        true
    } else if rsp.geometry_mode & G_CULL_BOTH == G_CULL_FRONT {
        spec_tri_cross(v1, v2, v3) >= 0
    } else if rsp.geometry_mode & G_CULL_BOTH == G_CULL_BACK {
        spec_tri_cross(v1, v2, v3) <= 0
    } else {
        false
    }
}

fn screen(x: i64, w: i64) -> (r: i128)
    requires
        w != 0,
        -(POS_LIMIT as int) <= x <= POS_LIMIT as int,
        -(POS_LIMIT as int) <= w <= POS_LIMIT as int,
    ensures
        r == spec_screen(x as int, w as int),
        -0x1000_0000_0000_0000 <= r <= 0x1000_0000_0000_0000,
{
    let num: i128 = (x as i128) * 4096;
    if w > 0 {
        div_trunc_i128(num, w as i128)
    } else {
        div_trunc_i128(-num, -(w as i128))
    }
}

impl RSP {
    /// Decide whether the triangle over three staging slots survives clip
    /// rejection and culling; a surviving triangle is forwarded to
    /// rasterization by the caller.
    pub fn gsp_triangles(&self, vertex_id1: u8, vertex_id2: u8, vertex_id3: u8) -> (kept: bool)
        requires
            self.wf(),
            vertex_id1 < VERTEX_TABLE_SIZE,
            vertex_id2 < VERTEX_TABLE_SIZE,
            vertex_id3 < VERTEX_TABLE_SIZE,
        ensures
            kept == spec_triangle_kept(
                *self,
                vertex_id1 as int,
                vertex_id2 as int,
                vertex_id3 as int,
            ),
    {
        let v1 = self.vertex_table[vertex_id1 as usize];
        let v2 = self.vertex_table[vertex_id2 as usize];
        let v3 = self.vertex_table[vertex_id3 as usize];
        if v1.clip_rejection & v2.clip_rejection & v3.clip_rejection != 0 {
            // the whole triangle is outside one plane
            return false;
        }
        let cull = self.geometry_mode & G_CULL_BOTH;
        if cull == 0 {
            return true;
        }
        if cull != G_CULL_FRONT && cull != G_CULL_BACK {
            // both cull bits: reject every triangle
            return false;
        }
        let cross: i128 = if v1.pos[3] == 0 || v2.pos[3] == 0 || v3.pos[3] == 0 {
            0
        } else {
            let sx1 = screen(v1.pos[0], v1.pos[3]);
            let sy1 = screen(v1.pos[1], v1.pos[3]);
            let sx2 = screen(v2.pos[0], v2.pos[3]);
            let sy2 = screen(v2.pos[1], v2.pos[3]);
            let sx3 = screen(v3.pos[0], v3.pos[3]);
            let sy3 = screen(v3.pos[1], v3.pos[3]);
            proof {
                lemma_abs_mul_le(
                    sx1 - sx2,
                    sy3 - sy2,
                    0x2000_0000_0000_0000,
                    0x2000_0000_0000_0000,
                );
                lemma_abs_mul_le(
                    sy1 - sy2,
                    sx3 - sx2,
                    0x2000_0000_0000_0000,
                    0x2000_0000_0000_0000,
                );
            }
            let raw: i128 = (sx1 - sx2) * (sy3 - sy2) - (sy1 - sy2) * (sx3 - sx2);
            if ((v1.pos[3] < 0) != (v2.pos[3] < 0)) != (v3.pos[3] < 0) {
                // one vertex behind the eye flips the apparent winding
                -raw
            } else {
                raw
            }
        };
        if cull == G_CULL_FRONT {
            cross >= 0
        } else {
            cross <= 0
        }
    }
}


/// Each clip-rejection bit is set exactly by its own plane violation: a
/// vertex outside only one plane sets only that plane's bit, and violating
/// several planes at once sets the union of their bits.
pub proof fn lemma_clip_mask_planes(x: int, y: int, z: int, w: int)
    ensures
        (x > w && !(x < -w) && !(y < -w) && !(y > w) && !(z < -w) && !(z > w)) ==> spec_clip_mask(
            x,
            y,
            z,
            w,
        ) == 2,
        (x > w && y > w && z > w && !(x < -w) && !(y < -w) && !(z < -w)) ==> spec_clip_mask(
            x,
            y,
            z,
            w,
        ) == 2 + 8 + 32,
        (!(x < -w) && !(x > w) && !(y < -w) && !(y > w) && !(z < -w) && !(z > w))
            ==> spec_clip_mask(x, y, z, w) == 0,
{
}

/// The fog alpha always lands in a byte: clamping bounds it by 0 and 255 for
/// every input.
pub proof fn lemma_fog_alpha_clamped(z: int, w: int, mult: int, off: int)
    ensures
        0 <= spec_fog_alpha(z, w, mult, off) <= 255,
{
}

} // verus!
