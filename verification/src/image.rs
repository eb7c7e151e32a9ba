//! Pixel-format decoding: unpacking of tiled, big-endian texture data
//! (indexed, intensity/alpha and 16/32-bit color formats) into linear RGBA
//! bytes, plus the row-padding formula shared with the rasterizer boundary.
use vstd::prelude::*;

use crate::fixed::lemma_abs_mul_le;
use crate::mem::{read_u16_be, spec_u16_be};

verus! {

#[derive(Clone, Copy, Debug)]
pub enum ImageFormat {
    G_IM_FMT_RGBA,
    G_IM_FMT_YUV,
    G_IM_FMT_CI,
    G_IM_FMT_IA,
    G_IM_FMT_I,
}

impl ImageFormat {
    pub fn get_name(&self) -> (r: &'static str)
        ensures
            r@ == match self {
                ImageFormat::G_IM_FMT_RGBA => "RGBA"@,
                ImageFormat::G_IM_FMT_YUV => "YUV"@,
                ImageFormat::G_IM_FMT_CI => "CI"@,
                ImageFormat::G_IM_FMT_IA => "IA"@,
                ImageFormat::G_IM_FMT_I => "I"@,
            },
    {
        match self {
            ImageFormat::G_IM_FMT_RGBA => "RGBA",
            ImageFormat::G_IM_FMT_YUV => "YUV",
            ImageFormat::G_IM_FMT_CI => "CI",
            ImageFormat::G_IM_FMT_IA => "IA",
            ImageFormat::G_IM_FMT_I => "I",
        }
    }
}

#[derive(Clone, Copy, Debug)]
pub enum ImageSize {
    G_IM_SIZ_4b,
    G_IM_SIZ_8b,
    G_IM_SIZ_16b,
    G_IM_SIZ_32b,
}

impl ImageSize {
    /// The wire encoding of this size (log2 of the bits per pixel, minus 2).
    pub open spec fn spec_code(self) -> int {
        match self {
            ImageSize::G_IM_SIZ_4b => 0,
            ImageSize::G_IM_SIZ_8b => 1,
            ImageSize::G_IM_SIZ_16b => 2,
            ImageSize::G_IM_SIZ_32b => 3,
        }
    }

    pub fn code(self) -> (r: u32)
        ensures
            r == self.spec_code(),
    {
        match self {
            ImageSize::G_IM_SIZ_4b => 0,
            ImageSize::G_IM_SIZ_8b => 1,
            ImageSize::G_IM_SIZ_16b => 2,
            ImageSize::G_IM_SIZ_32b => 3,
        }
    }

    pub fn get_bits_per_pixel(&self) -> (r: u32)
        ensures
            r == match self {
                ImageSize::G_IM_SIZ_4b => 4int,
                ImageSize::G_IM_SIZ_8b => 8int,
                ImageSize::G_IM_SIZ_16b => 16int,
                ImageSize::G_IM_SIZ_32b => 32int,
            },
    {
        match self {
            ImageSize::G_IM_SIZ_4b => 4,
            ImageSize::G_IM_SIZ_8b => 8,
            ImageSize::G_IM_SIZ_16b => 16,
            ImageSize::G_IM_SIZ_32b => 32,
        }
    }

    pub fn get_tlut_size(&self) -> (r: u32)
        ensures
            r == match self {
                ImageSize::G_IM_SIZ_4b => 0x10int,
                ImageSize::G_IM_SIZ_8b => 0x100int,
                ImageSize::G_IM_SIZ_16b => 0x1000int,
                ImageSize::G_IM_SIZ_32b => 0x10000int,
            },
    {
        match self {
            ImageSize::G_IM_SIZ_4b => 0x10,
            ImageSize::G_IM_SIZ_8b => 0x100,
            ImageSize::G_IM_SIZ_16b => 0x1000,
            ImageSize::G_IM_SIZ_32b => 0x10000,
        }
    }

    pub fn get_name(&self) -> (r: &'static str)
        ensures
            r@ == match self {
                ImageSize::G_IM_SIZ_4b => "4"@,
                ImageSize::G_IM_SIZ_8b => "8"@,
                ImageSize::G_IM_SIZ_16b => "16"@,
                ImageSize::G_IM_SIZ_32b => "32"@,
            },
    {
        match self {
            ImageSize::G_IM_SIZ_4b => "4",
            ImageSize::G_IM_SIZ_8b => "8",
            ImageSize::G_IM_SIZ_16b => "16",
            ImageSize::G_IM_SIZ_32b => "32",
        }
    }
}

#[derive(Clone, Copy, Debug)]
pub enum TextureLUT {
    G_TT_NONE,
    G_TT_RGBA16,
    G_TT_IA16,
}

/// Expand a 3-bit intensity to 8 bits.
pub fn scale3to8(n: u8) -> (r: u8)
    requires
        n <= 7,
    ensures
        r == n * 0x24,
{
    n * 0x24
}

/// Expand a 4-bit intensity to 8 bits.
pub fn scale4to8(n: u8) -> (r: u8)
    requires
        n <= 15,
    ensures
        r == n * 0x11,
{
    n * 0x11
}

/// The 8-bit expansion of a 5-bit channel.
pub open spec fn spec_scale5to8(n: int) -> int {
    (n * 0xFF) / 0x1F
}

pub fn scale5to8(n: u16) -> (r: u8)
    requires
        n <= 0x1F,
    ensures
        r == spec_scale5to8(n as int),
{
    proof {
        vstd::arithmetic::div_mod::lemma_div_pos_is_pos((n as int) * 0xFF, 0x1F);
        vstd::arithmetic::div_mod::lemma_div_is_ordered((n as int) * 0xFF, 0x1Fint * 0xFF, 0x1F);
        vstd::arithmetic::div_mod::lemma_div_by_multiple(0xFF, 0x1F);
    }
    ((n * 0xFF) / 0x1F) as u8
}

/// Byte `i` of the RGBA expansion of a 5/5/5/1 pixel: each 5-bit channel
/// scaled to 8 bits, and the low bit as a 0-or-255 alpha.
pub open spec fn spec_r5g5b5a1(pixel: u16, i: int) -> u8 {
    if i == 0 {
        spec_scale5to8(((pixel & 0xF800) >> 11) as int) as u8
    } else if i == 1 {
        spec_scale5to8(((pixel & 0x7C0) >> 6) as int) as u8
    } else if i == 2 {
        spec_scale5to8(((pixel & 0x3E) >> 1) as int) as u8
    } else {
        if pixel & 1 == 1 {
            0xFF
        } else {
            0
        }
    }
}

/// Write the RGBA expansion of a 5/5/5/1 pixel at `dest_offset`.
pub fn r5g5b5a1(dest: &mut Vec<u8>, dest_offset: usize, pixel: u16)
    requires
        dest_offset + 4 <= old(dest).len(),
    ensures
        final(dest)@.len() == old(dest)@.len(),
        forall|i: int| 0 <= i < 4 ==> final(dest)@[dest_offset + i] == spec_r5g5b5a1(pixel, i),
        forall|i: int|
            0 <= i < old(dest)@.len() && !(dest_offset <= i < dest_offset + 4)
                ==> final(dest)@[i] == old(dest)@[i],
{
    let a = pixel & 1;
    let r = (pixel & 0xF800) >> 11;
    let g = (pixel & 0x7C0) >> 6;
    let b = (pixel & 0x3E) >> 1;
    proof {
        assert((pixel & 0xF800) >> 11 <= 0x1F && (pixel & 0x7C0) >> 6 <= 0x1F && (pixel & 0x3E)
            >> 1 <= 0x1F && (pixel & 1) <= 1) by (bit_vector);
    }
    dest[dest_offset + 0] = scale5to8(r);
    dest[dest_offset + 1] = scale5to8(g);
    dest[dest_offset + 2] = scale5to8(b);
    dest[dest_offset + 3] = if a > 0 {
        0xFF
    } else {
        0
    };
}

/// Copy palette entry `index` (4 bytes) to `dest_offset`.
pub fn copy_tlut_color(dest: &mut Vec<u8>, dest_offset: usize, color_table: &Vec<u8>, index: usize)
    requires
        dest_offset + 4 <= old(dest).len(),
        index * 4 + 4 <= color_table.len(),
    ensures
        final(dest)@.len() == old(dest)@.len(),
        forall|i: int|
            0 <= i < 4 ==> #[trigger] final(dest)@[dest_offset + i] == color_table@[index * 4 + i],
        forall|i: int|
            0 <= i < old(dest)@.len() && !(dest_offset <= i < dest_offset + 4)
                ==> final(dest)@[i] == old(dest)@[i],
{
    dest[dest_offset + 0] = color_table[(index * 4) + 0];
    dest[dest_offset + 1] = color_table[(index * 4) + 1];
    dest[dest_offset + 2] = color_table[(index * 4) + 2];
    dest[dest_offset + 3] = color_table[(index * 4) + 3];
}

/// The byte distance from the end of one tile row to the start of the next:
/// the texels a line of words holds beyond the tile width, in the format's
/// byte units. For the 4-bit size the value is the logical (zero-fill) right
/// shift of the 32-bit two's-complement difference, as the texel pair count.
pub open spec fn spec_padding(code: int, line: int, width: int) -> int {
    if line == 0 {
        0
    } else {
        let factor = if code == 0 {
            16int
        } else if code == 1 {
            8int
        } else if code == 2 {
            4int
        } else {
            2int
        };
        let pad_texels = line * factor - width;
        if code == 0 {
            if pad_texels >= 0 {
                pad_texels / 2
            } else {
                (pad_texels + 0x1_0000_0000) / 2
            }
        } else {
            pad_texels * (if code == 1 {
                1int
            } else if code == 2 {
                2int
            } else {
                4int
            })
        }
    }
}

/// Row padding for a tile of the given width. The caps keep the 32-bit
/// arithmetic of the formula exact (tile dimensions are 12-bit on the wire).
pub fn padding_for_texture(size: ImageSize, line: u32, width: u32) -> (r: i32)
    requires
        line <= 0x7_FFFF,
        width <= 0x1000_0000,
    ensures
        r as int == spec_padding(size.spec_code(), line as int, width as int),
{
    if line == 0 {
        return 0;
    }
    let code = size.code();
    let factor: i64 = if code == 0 {
        16
    } else if code == 1 {
        8
    } else if code == 2 {
        4
    } else {
        2
    };
    let pad_texels: i64 = (line as i64) * factor - (width as i64);
    if code == 0 {
        if pad_texels >= 0 {
            ((pad_texels as u64) / 2) as i32
        } else {
            (((pad_texels + 0x1_0000_0000) as u64) / 2) as i32
        }
    } else {
        let scaled: i64 = pad_texels * (if code == 1 {
            1
        } else if code == 2 {
            2
        } else {
            4
        });
        scaled as i32
    }
}

/// The texel formats the tile decoder understands.
#[derive(Clone, Copy, Debug)]
pub enum TexelKind {
    Rgba16,
    Ci4,
    Ci8,
    Ia4,
    Ia8,
    Ia16,
    I4,
    I8,
}

impl TexelKind {
    /// The wire size code used for this format's row padding.
    pub open spec fn spec_size_code(self) -> int {
        match self {
            TexelKind::Rgba16 => 2,
            TexelKind::Ci4 => 0,
            TexelKind::Ci8 => 1,
            TexelKind::Ia4 => 0,
            TexelKind::Ia8 => 1,
            TexelKind::Ia16 => 2,
            TexelKind::I4 => 0,
            TexelKind::I8 => 1,
        }
    }

    /// Source bytes read per texel group.
    pub open spec fn spec_src_size(self) -> int {
        match self {
            TexelKind::Rgba16 => 2,
            TexelKind::Ia16 => 2,
            _ => 1,
        }
    }

    /// RGBA bytes written per texel group (two texels per group for the
    /// 4-bit formats, one otherwise).
    pub open spec fn spec_out_size(self) -> int {
        match self {
            TexelKind::Ci4 => 8,
            TexelKind::Ia4 => 8,
            TexelKind::I4 => 8,
            _ => 4,
        }
    }

    /// Texel groups per tile row.
    pub open spec fn spec_groups(self, tile_width: int) -> int {
        if self.spec_out_size() == 8 {
            (tile_width + 1) / 2
        } else {
            tile_width
        }
    }
}

/// Byte `j` of the RGBA output of the texel group read at `pos`.
pub open spec fn spec_texel_byte(
    kind: TexelKind,
    source: Seq<u8>,
    pos: int,
    tlut: Seq<u8>,
    j: int,
) -> u8 {
    match kind {
        TexelKind::Rgba16 => spec_r5g5b5a1(spec_u16_be(source, pos), j),
        TexelKind::Ci4 => {
            let b = source[pos];
            if j < 4 {
                tlut[(b >> 4) * 4 + j]
            } else {
                tlut[(b & 0x0F) * 4 + (j - 4)]
            }
        },
        TexelKind::Ci8 => tlut[source[pos] * 4 + j],
        TexelKind::Ia4 => {
            let b = source[pos];
            if j < 3 {
                (((b >> 5) & 0x07) * 0x24) as u8
            } else if j == 3 {
                if (b >> 4) & 0x01 == 1 {
                    0xFF
                } else {
                    0
                }
            } else if j < 7 {
                (((b >> 1) & 0x07) * 0x24) as u8
            } else {
                if b & 0x01 == 1 {
                    0xFF
                } else {
                    0
                }
            }
        },
        TexelKind::Ia8 => {
            let b = source[pos];
            if j < 3 {
                ((b >> 4) * 0x11) as u8
            } else {
                ((b & 0x0F) * 0x11) as u8
            }
        },
        TexelKind::Ia16 => {
            if j < 3 {
                source[pos]
            } else {
                source[pos + 1]
            }
        },
        TexelKind::I4 => {
            let b = source[pos];
            if j < 4 {
                ((b >> 4) * 0x11) as u8
            } else {
                ((b & 0x0F) * 0x11) as u8
            }
        },
        TexelKind::I8 => source[pos],
    }
}

/// The source position of group `g` in row `y`: the running source index
/// (group steps plus row padding), de-interleaved on odd rows by flipping
/// bit 2, offset by the tile's start. A negative running index (possible
/// with negative padding) has no position; the group is skipped.
pub open spec fn spec_group_pos(
    kind: TexelKind,
    source_offset: int,
    line: int,
    tile_width: int,
    deinterleave: bool,
    y: int,
    g: int,
) -> int {
    let row_delta = kind.spec_groups(tile_width) * kind.spec_src_size() + spec_padding(
        kind.spec_size_code(),
        line,
        tile_width,
    );
    let si = y * row_delta + g * kind.spec_src_size();
    if si < 0 {
        -1
    } else if deinterleave && y % 2 == 1 {
        if si % 8 < 4 {
            source_offset + si + 4
        } else {
            source_offset + si - 4
        }
    } else {
        source_offset + si
    }
}

/// Whether the group at `pos` can be read from `source`.
pub open spec fn spec_group_readable(kind: TexelKind, source: Seq<u8>, pos: int) -> bool {
    0 <= pos && pos + kind.spec_src_size() <= source.len()
}


/// Decode one texel group read at `pos` into `out_size` RGBA bytes at `di`.
fn write_group(
    kind: TexelKind,
    dest: &mut Vec<u8>,
    di: usize,
    source: &Vec<u8>,
    pos: usize,
    tlut: &Vec<u8>,
)
    requires
        di + kind.spec_out_size() <= old(dest).len(),
        pos + kind.spec_src_size() <= source.len(),
        kind is Ci4 ==> tlut.len() >= 0x40,
        kind is Ci8 ==> tlut.len() >= 0x400,
    ensures
        final(dest)@.len() == old(dest)@.len(),
        forall|j: int|
            0 <= j < kind.spec_out_size() ==> #[trigger] final(dest)@[di + j] == spec_texel_byte(
                kind,
                source@,
                pos as int,
                tlut@,
                j,
            ),
        forall|i: int|
            0 <= i < old(dest)@.len() && !(di <= i < di + kind.spec_out_size())
                ==> #[trigger] final(dest)@[i] == old(dest)@[i],
{
    match kind {
        TexelKind::Rgba16 => {
            let px = read_u16_be(source, pos);
            r5g5b5a1(dest, di, px);
        },
        TexelKind::Ci4 => {
            let b = source[pos];
            proof {
                assert(b >> 4 <= 15 && (b & 0x0F) <= 15) by (bit_vector);
            }
            copy_tlut_color(dest, di, tlut, (b >> 4) as usize);
            let ghost mid = dest@;
            copy_tlut_color(dest, di + 4, tlut, (b & 0x0F) as usize);
            proof {
                assert forall|j: int| 4 <= j < 8 implies #[trigger] dest@[di + j] == tlut@[
                    (b & 0x0F) * 4 + (j - 4)
                ] by {
                    assert(dest@[(di + 4) + (j - 4)] == tlut@[((b & 0x0F) as usize) * 4 + (j - 4)]);
                }
                assert forall|j: int| 0 <= j < 4 implies #[trigger] dest@[di + j] == tlut@[
                    (b >> 4) * 4 + j
                ] by {
                    assert(dest@[di + j] == mid[di + j]);
                }
            }
        },
        TexelKind::Ci8 => {
            let b = source[pos];
            copy_tlut_color(dest, di, tlut, b as usize);
        },
        TexelKind::Ia4 => {
            let b = source[pos];
            proof {
                assert((b >> 5) & 0x07 <= 7 && (b >> 1) & 0x07 <= 7) by (bit_vector);
            }
            let i0 = scale3to8((b >> 5) & 0x07);
            let a0: u8 = if (b >> 4) & 0x01 == 1 {
                0xFF
            } else {
                0
            };
            dest[di + 0] = i0;
            dest[di + 1] = i0;
            dest[di + 2] = i0;
            dest[di + 3] = a0;
            let i1 = scale3to8((b >> 1) & 0x07);
            let a1: u8 = if b & 0x01 == 1 {
                0xFF
            } else {
                0
            };
            dest[di + 4] = i1;
            dest[di + 5] = i1;
            dest[di + 6] = i1;
            dest[di + 7] = a1;
        },
        TexelKind::Ia8 => {
            let b = source[pos];
            proof {
                assert(b >> 4 <= 15 && (b & 0x0F) <= 15) by (bit_vector);
            }
            let i = scale4to8(b >> 4);
            let a = scale4to8(b & 0x0F);
            dest[di + 0] = i;
            dest[di + 1] = i;
            dest[di + 2] = i;
            dest[di + 3] = a;
        },
        TexelKind::Ia16 => {
            let i = source[pos];
            let a = source[pos + 1];
            dest[di + 0] = i;
            dest[di + 1] = i;
            dest[di + 2] = i;
            dest[di + 3] = a;
        },
        TexelKind::I4 => {
            let b = source[pos];
            proof {
                assert(b >> 4 <= 15 && (b & 0x0F) <= 15) by (bit_vector);
            }
            let i0 = scale4to8(b >> 4);
            dest[di + 0] = i0;
            dest[di + 1] = i0;
            dest[di + 2] = i0;
            dest[di + 3] = i0;
            let i1 = scale4to8(b & 0x0F);
            dest[di + 4] = i1;
            dest[di + 5] = i1;
            dest[di + 6] = i1;
            dest[di + 7] = i1;
        },
        TexelKind::I8 => {
            let b = source[pos];
            dest[di + 0] = b;
            dest[di + 1] = b;
            dest[di + 2] = b;
            dest[di + 3] = b;
        },
    }
}

/// The decoded state of one texel group: its output bytes hold the decoded
/// source bytes when the group's source position is readable, and are
/// untouched otherwise.
pub open spec fn group_ok(
    kind: TexelKind,
    dest: Seq<u8>,
    old_dest: Seq<u8>,
    source: Seq<u8>,
    tlut: Seq<u8>,
    source_offset: int,
    line: int,
    tile_width: int,
    deinterleave: bool,
    y: int,
    g: int,
) -> bool {
    let pos = spec_group_pos(kind, source_offset, line, tile_width, deinterleave, y, g);
    let di = (y * kind.spec_groups(tile_width) + g) * kind.spec_out_size();
    if spec_group_readable(kind, source, pos) {
        forall|j: int|
            0 <= j < kind.spec_out_size() ==> #[trigger] dest[di + j] == spec_texel_byte(
                kind,
                source,
                pos,
                tlut,
                j,
            )
    } else {
        forall|j: int| 0 <= j < kind.spec_out_size() ==> #[trigger] dest[di + j] == old_dest[di + j]
    }
}

/// Decode a tile of texel groups: row by row, each group's source bytes are
/// read at the running (padded, optionally de-interleaved) source position
/// and expanded to RGBA; a group whose source bytes fall outside the buffer
/// leaves its output bytes untouched. The size caps keep the position
/// arithmetic exact (tile dimensions are 12-bit on the wire).
pub fn decode_tiles(
    kind: TexelKind,
    dest: &mut Vec<u8>,
    source: &Vec<u8>,
    source_offset: u32,
    tile_width: u32,
    tile_height: u32,
    tlut: &Vec<u8>,
    line: u32,
    deinterleave: bool,
)
    requires
        tile_width <= 0xFFFF,
        tile_height <= 0xFFFF,
        line <= 0x7_FFFF,
        old(dest).len() >= kind.spec_out_size() * kind.spec_groups(tile_width as int) * (
        tile_height as int),
        kind is Ci4 ==> tlut.len() >= 0x40,
        kind is Ci8 ==> tlut.len() >= 0x400,
    ensures
        final(dest)@.len() == old(dest)@.len(),
        forall|y: int, g: int|
            0 <= y < tile_height && 0 <= g < kind.spec_groups(tile_width as int) ==> group_ok(
                kind,
                final(dest)@,
                old(dest)@,
                source@,
                tlut@,
                source_offset as int,
                line as int,
                tile_width as int,
                deinterleave,
                y,
                g,
            ),
        forall|i: int|
            kind.spec_out_size() * kind.spec_groups(tile_width as int) * (tile_height as int) <= i
                < old(dest)@.len() ==> #[trigger] final(dest)@[i] == old(dest)@[i],
{
    let out: usize = match kind {
        TexelKind::Ci4 => 8,
        TexelKind::Ia4 => 8,
        TexelKind::I4 => 8,
        _ => 4,
    };
    let ssz: usize = match kind {
        TexelKind::Rgba16 => 2,
        TexelKind::Ia16 => 2,
        _ => 1,
    };
    let groups: usize = if out == 8 {
        (tile_width as usize + 1) / 2
    } else {
        tile_width as usize
    };
    let size = match kind {
        TexelKind::Rgba16 => ImageSize::G_IM_SIZ_16b,
        TexelKind::Ci4 => ImageSize::G_IM_SIZ_4b,
        TexelKind::Ci8 => ImageSize::G_IM_SIZ_8b,
        TexelKind::Ia4 => ImageSize::G_IM_SIZ_4b,
        TexelKind::Ia8 => ImageSize::G_IM_SIZ_8b,
        TexelKind::Ia16 => ImageSize::G_IM_SIZ_16b,
        TexelKind::I4 => ImageSize::G_IM_SIZ_4b,
        TexelKind::I8 => ImageSize::G_IM_SIZ_8b,
    };
    let pad: i64 = padding_for_texture(size, line, tile_width) as i64;
    let row_delta: i64 = (groups * ssz) as i64 + pad;
    assert(size.spec_code() == kind.spec_size_code());
    assert(groups == kind.spec_groups(tile_width as int));
    let ghost th = tile_height as int;
    let mut y: usize = 0;
    while y < tile_height as usize
        invariant
            y <= th,
            out == kind.spec_out_size(),
            ssz == kind.spec_src_size(),
            groups == kind.spec_groups(tile_width as int),
            tile_width <= 0xFFFF,
            tile_height as int == th,
            th <= 0xFFFF,
            line <= 0x7_FFFF,
            pad == spec_padding(kind.spec_size_code(), line as int, tile_width as int),
            -0x1_0000_0000 <= pad <= 0x1_0000_0000,
            row_delta == groups * ssz + pad,
            dest.len() == old(dest).len(),
            dest.len() >= out * groups * th,
            kind is Ci4 ==> tlut.len() >= 0x40,
            kind is Ci8 ==> tlut.len() >= 0x400,
            forall|y2: int, g2: int|
                0 <= y2 < y && 0 <= g2 < groups ==> group_ok(
                    kind,
                    dest@,
                    old(dest)@,
                    source@,
                    tlut@,
                    source_offset as int,
                    line as int,
                    tile_width as int,
                    deinterleave,
                    y2,
                    g2,
                ),
            forall|i: int|
                (y * groups) * out <= i < dest@.len() ==> #[trigger] dest@[i] == old(dest)@[i],
        decreases th - y,
    {
        let mut g: usize = 0;
        while g < groups
            invariant
                y < th,
                g <= groups,
                out == kind.spec_out_size(),
                ssz == kind.spec_src_size(),
                groups == kind.spec_groups(tile_width as int),
                tile_width <= 0xFFFF,
                tile_height as int == th,
                th <= 0xFFFF,
                line <= 0x7_FFFF,
                pad == spec_padding(kind.spec_size_code(), line as int, tile_width as int),
                -0x1_0000_0000 <= pad <= 0x1_0000_0000,
                row_delta == groups * ssz + pad,
                dest.len() == old(dest).len(),
                dest.len() >= out * groups * th,
                kind is Ci4 ==> tlut.len() >= 0x40,
                kind is Ci8 ==> tlut.len() >= 0x400,
                forall|y2: int, g2: int|
                    0 <= y2 < y && 0 <= g2 < groups ==> group_ok(
                        kind,
                        dest@,
                        old(dest)@,
                        source@,
                        tlut@,
                        source_offset as int,
                        line as int,
                        tile_width as int,
                        deinterleave,
                        y2,
                        g2,
                    ),
                forall|g2: int|
                    0 <= g2 < g ==> group_ok(
                        kind,
                        dest@,
                        old(dest)@,
                        source@,
                        tlut@,
                        source_offset as int,
                        line as int,
                        tile_width as int,
                        deinterleave,
                        y as int,
                        g2,
                    ),
                forall|i: int|
                    (y * groups + g) * out <= i < dest@.len() ==> #[trigger] dest@[i] == old(
                        dest,
                    )@[i],
            decreases groups - g,
        {
            proof {
                lemma_abs_mul_le(y as int, row_delta as int, 0xFFFF, 0x1_0004_0000);
                lemma_abs_mul_le(g as int, ssz as int, 0xFFFF, 2);
                assert((y as int) * groups + g < groups * th) by (nonlinear_arith)
                    requires
                        (y as int) < th,
                        (g as int) < (groups as int),
                        0 <= y as int,
                        0 <= g as int,
                ;
                assert(groups * th <= out * (groups * th)) by (nonlinear_arith)
                    requires
                        1 <= out,
                        0 <= groups * th,
                ;
                assert(out * (groups * th) == out * groups * th) by (nonlinear_arith);
                assert(((y as int) * groups + g) * out + out <= out * groups * th)
                    by (nonlinear_arith)
                    requires
                        (y as int) < th,
                        (g as int) < (groups as int),
                        0 <= y as int,
                        0 <= g as int,
                        1 <= out,
                ;
            }
            let si: i128 = (y as i128) * (row_delta as i128) + (g as i128) * (ssz as i128);
            let di: usize = (y * groups + g) * out;
            let pos: i128 = if si < 0 {
                -1
            } else if deinterleave && y % 2 == 1 {
                let siu = si as u128;
                if siu % 8 < 4 {
                    (source_offset as i128) + si + 4
                } else {
                    (source_offset as i128) + si - 4
                }
            } else {
                (source_offset as i128) + si
            };
            proof {
                assert(pos == spec_group_pos(
                    kind,
                    source_offset as int,
                    line as int,
                    tile_width as int,
                    deinterleave,
                    y as int,
                    g as int,
                ));
            }
            if 0 <= pos && pos + (ssz as i128) <= source.len() as i128 {
                let ghost prev = dest@;
                write_group(kind, dest, di, source, pos as usize, tlut);
                proof {
                    let gi = (y as int) * groups + g;
                    assert((gi + 1) * out == gi * out + out) by (nonlinear_arith);
                    assert forall|y2: int, g2: int|
                        (0 <= y2 < y as int && 0 <= g2 < groups) || (y2 == y as int && 0 <= g2
                            < g as int) implies group_ok(
                        kind,
                        dest@,
                        old(dest)@,
                        source@,
                        tlut@,
                        source_offset as int,
                        line as int,
                        tile_width as int,
                        deinterleave,
                        y2,
                        g2,
                    ) by {
                        let gi2 = y2 * groups + g2;
                        let di2 = gi2 * out;
                        assert(0 <= gi2 && gi2 < gi) by (nonlinear_arith)
                            requires
                                0 <= y2,
                                0 <= g2,
                                g2 < groups as int,
                                gi == (y as int) * groups + g,
                                gi2 == y2 * groups + g2,
                                y2 < y as int || (y2 == y as int && g2 < g as int),
                        ;
                        assert(0 <= di2 && di2 + out <= gi * out) by (nonlinear_arith)
                            requires
                                0 <= gi2,
                                gi2 < gi,
                                di2 == gi2 * out,
                                1 <= out,
                        ;
                        assert forall|j: int| 0 <= j < out implies #[trigger] dest@[di2 + j]
                            == prev[di2 + j] by {}
                        assert(group_ok(
                            kind,
                            prev,
                            old(dest)@,
                            source@,
                            tlut@,
                            source_offset as int,
                            line as int,
                            tile_width as int,
                            deinterleave,
                            y2,
                            g2,
                        ));
                        let pos2 = spec_group_pos(
                            kind,
                            source_offset as int,
                            line as int,
                            tile_width as int,
                            deinterleave,
                            y2,
                            g2,
                        );
                        if spec_group_readable(kind, source@, pos2) {
                            assert forall|j: int| 0 <= j < out implies #[trigger] dest@[di2 + j]
                                == spec_texel_byte(kind, source@, pos2, tlut@, j) by {
                                assert(prev[di2 + j] == spec_texel_byte(
                                    kind,
                                    source@,
                                    pos2,
                                    tlut@,
                                    j,
                                ));
                            }
                        } else {
                            assert forall|j: int| 0 <= j < out implies #[trigger] dest@[di2 + j]
                                == old(dest)@[di2 + j] by {
                                assert(prev[di2 + j] == old(dest)@[di2 + j]);
                            }
                        }
                    }
                }
            }
            g += 1;
        }
        proof {
            assert((((y + 1) as int) * groups) * out == ((y as int) * groups + groups) * out)
                by (nonlinear_arith);
        }
        y += 1;
    }
    proof {
        assert(((th * groups) * out) == out * groups * th) by (nonlinear_arith);
    }
}


/// Decode a 16-bit 5/5/5/1 color tile.
pub fn decode_tex_rgba16(
    dest: &mut Vec<u8>,
    source: &Vec<u8>,
    source_offset: u32,
    tile_width: u32,
    tile_height: u32,
    line: u32,
    deinterleave: bool,
)
    requires
        tile_width <= 0xFFFF,
        tile_height <= 0xFFFF,
        line <= 0x7_FFFF,
        old(dest).len() >= TexelKind::Rgba16.spec_out_size() * TexelKind::Rgba16.spec_groups(
            tile_width as int,
        ) * (tile_height as int),
    ensures
        final(dest)@.len() == old(dest)@.len(),
        forall|y: int, g: int|
            0 <= y < tile_height && 0 <= g < TexelKind::Rgba16.spec_groups(tile_width as int)
                ==> group_ok(
                TexelKind::Rgba16,
                final(dest)@,
                old(dest)@,
                source@,
                Seq::<u8>::empty(),
                source_offset as int,
                line as int,
                tile_width as int,
                deinterleave,
                y,
                g,
            ),
        forall|i: int|
            TexelKind::Rgba16.spec_out_size() * TexelKind::Rgba16.spec_groups(tile_width as int) * (
            tile_height as int) <= i < old(dest)@.len() ==> #[trigger] final(dest)@[i] == old(
                dest,
            )@[i],
{
    let tlut: Vec<u8> = Vec::new();
    decode_tiles(
        TexelKind::Rgba16,
        dest,
        source,
        source_offset,
        tile_width,
        tile_height,
        &tlut,
        line,
        deinterleave,
    );
}

/// Decode a 4-bit color-indexed (palette) tile.
pub fn decode_tex_ci4(
    dest: &mut Vec<u8>,
    source: &Vec<u8>,
    source_offset: u32,
    tile_width: u32,
    tile_height: u32,
    tlut_color_table: &Vec<u8>,
    line: u32,
    deinterleave: bool,
)
    requires
        tile_width <= 0xFFFF,
        tile_height <= 0xFFFF,
        line <= 0x7_FFFF,
        old(dest).len() >= TexelKind::Ci4.spec_out_size() * TexelKind::Ci4.spec_groups(
            tile_width as int,
        ) * (tile_height as int),
        tlut_color_table.len() >= 0x40,
    ensures
        final(dest)@.len() == old(dest)@.len(),
        forall|y: int, g: int|
            0 <= y < tile_height && 0 <= g < TexelKind::Ci4.spec_groups(tile_width as int)
                ==> group_ok(
                TexelKind::Ci4,
                final(dest)@,
                old(dest)@,
                source@,
                tlut_color_table@,
                source_offset as int,
                line as int,
                tile_width as int,
                deinterleave,
                y,
                g,
            ),
        forall|i: int|
            TexelKind::Ci4.spec_out_size() * TexelKind::Ci4.spec_groups(tile_width as int) * (
            tile_height as int) <= i < old(dest)@.len() ==> #[trigger] final(dest)@[i] == old(
                dest,
            )@[i],
{
    decode_tiles(
        TexelKind::Ci4,
        dest,
        source,
        source_offset,
        tile_width,
        tile_height,
        tlut_color_table,
        line,
        deinterleave,
    );
}

/// Decode a 8-bit color-indexed (palette) tile.
pub fn decode_tex_ci8(
    dest: &mut Vec<u8>,
    source: &Vec<u8>,
    source_offset: u32,
    tile_width: u32,
    tile_height: u32,
    tlut_color_table: &Vec<u8>,
    line: u32,
    deinterleave: bool,
)
    requires
        tile_width <= 0xFFFF,
        tile_height <= 0xFFFF,
        line <= 0x7_FFFF,
        old(dest).len() >= TexelKind::Ci8.spec_out_size() * TexelKind::Ci8.spec_groups(
            tile_width as int,
        ) * (tile_height as int),
        tlut_color_table.len() >= 0x400,
    ensures
        final(dest)@.len() == old(dest)@.len(),
        forall|y: int, g: int|
            0 <= y < tile_height && 0 <= g < TexelKind::Ci8.spec_groups(tile_width as int)
                ==> group_ok(
                TexelKind::Ci8,
                final(dest)@,
                old(dest)@,
                source@,
                tlut_color_table@,
                source_offset as int,
                line as int,
                tile_width as int,
                deinterleave,
                y,
                g,
            ),
        forall|i: int|
            TexelKind::Ci8.spec_out_size() * TexelKind::Ci8.spec_groups(tile_width as int) * (
            tile_height as int) <= i < old(dest)@.len() ==> #[trigger] final(dest)@[i] == old(
                dest,
            )@[i],
{
    decode_tiles(
        TexelKind::Ci8,
        dest,
        source,
        source_offset,
        tile_width,
        tile_height,
        tlut_color_table,
        line,
        deinterleave,
    );
}

/// Decode a 3-bit intensity, 1-bit alpha tile.
pub fn decode_tex_ia4(
    dest: &mut Vec<u8>,
    source: &Vec<u8>,
    source_offset: u32,
    tile_width: u32,
    tile_height: u32,
    line: u32,
    deinterleave: bool,
)
    requires
        tile_width <= 0xFFFF,
        tile_height <= 0xFFFF,
        line <= 0x7_FFFF,
        old(dest).len() >= TexelKind::Ia4.spec_out_size() * TexelKind::Ia4.spec_groups(
            tile_width as int,
        ) * (tile_height as int),
    ensures
        final(dest)@.len() == old(dest)@.len(),
        forall|y: int, g: int|
            0 <= y < tile_height && 0 <= g < TexelKind::Ia4.spec_groups(tile_width as int)
                ==> group_ok(
                TexelKind::Ia4,
                final(dest)@,
                old(dest)@,
                source@,
                Seq::<u8>::empty(),
                source_offset as int,
                line as int,
                tile_width as int,
                deinterleave,
                y,
                g,
            ),
        forall|i: int|
            TexelKind::Ia4.spec_out_size() * TexelKind::Ia4.spec_groups(tile_width as int) * (
            tile_height as int) <= i < old(dest)@.len() ==> #[trigger] final(dest)@[i] == old(
                dest,
            )@[i],
{
    let tlut: Vec<u8> = Vec::new();
    decode_tiles(
        TexelKind::Ia4,
        dest,
        source,
        source_offset,
        tile_width,
        tile_height,
        &tlut,
        line,
        deinterleave,
    );
}

/// Decode a 4-bit intensity, 4-bit alpha tile.
pub fn decode_tex_ia8(
    dest: &mut Vec<u8>,
    source: &Vec<u8>,
    source_offset: u32,
    tile_width: u32,
    tile_height: u32,
    line: u32,
    deinterleave: bool,
)
    requires
        tile_width <= 0xFFFF,
        tile_height <= 0xFFFF,
        line <= 0x7_FFFF,
        old(dest).len() >= TexelKind::Ia8.spec_out_size() * TexelKind::Ia8.spec_groups(
            tile_width as int,
        ) * (tile_height as int),
    ensures
        final(dest)@.len() == old(dest)@.len(),
        forall|y: int, g: int|
            0 <= y < tile_height && 0 <= g < TexelKind::Ia8.spec_groups(tile_width as int)
                ==> group_ok(
                TexelKind::Ia8,
                final(dest)@,
                old(dest)@,
                source@,
                Seq::<u8>::empty(),
                source_offset as int,
                line as int,
                tile_width as int,
                deinterleave,
                y,
                g,
            ),
        forall|i: int|
            TexelKind::Ia8.spec_out_size() * TexelKind::Ia8.spec_groups(tile_width as int) * (
            tile_height as int) <= i < old(dest)@.len() ==> #[trigger] final(dest)@[i] == old(
                dest,
            )@[i],
{
    let tlut: Vec<u8> = Vec::new();
    decode_tiles(
        TexelKind::Ia8,
        dest,
        source,
        source_offset,
        tile_width,
        tile_height,
        &tlut,
        line,
        deinterleave,
    );
}

/// Decode a 8-bit intensity, 8-bit alpha tile.
pub fn decode_tex_ia16(
    dest: &mut Vec<u8>,
    source: &Vec<u8>,
    source_offset: u32,
    tile_width: u32,
    tile_height: u32,
    line: u32,
    deinterleave: bool,
)
    requires
        tile_width <= 0xFFFF,
        tile_height <= 0xFFFF,
        line <= 0x7_FFFF,
        old(dest).len() >= TexelKind::Ia16.spec_out_size() * TexelKind::Ia16.spec_groups(
            tile_width as int,
        ) * (tile_height as int),
    ensures
        final(dest)@.len() == old(dest)@.len(),
        forall|y: int, g: int|
            0 <= y < tile_height && 0 <= g < TexelKind::Ia16.spec_groups(tile_width as int)
                ==> group_ok(
                TexelKind::Ia16,
                final(dest)@,
                old(dest)@,
                source@,
                Seq::<u8>::empty(),
                source_offset as int,
                line as int,
                tile_width as int,
                deinterleave,
                y,
                g,
            ),
        forall|i: int|
            TexelKind::Ia16.spec_out_size() * TexelKind::Ia16.spec_groups(tile_width as int) * (
            tile_height as int) <= i < old(dest)@.len() ==> #[trigger] final(dest)@[i] == old(
                dest,
            )@[i],
{
    let tlut: Vec<u8> = Vec::new();
    decode_tiles(
        TexelKind::Ia16,
        dest,
        source,
        source_offset,
        tile_width,
        tile_height,
        &tlut,
        line,
        deinterleave,
    );
}

/// Decode a 4-bit intensity tile.
pub fn decode_tex_i4(
    dest: &mut Vec<u8>,
    source: &Vec<u8>,
    source_offset: u32,
    tile_width: u32,
    tile_height: u32,
    line: u32,
    deinterleave: bool,
)
    requires
        tile_width <= 0xFFFF,
        tile_height <= 0xFFFF,
        line <= 0x7_FFFF,
        old(dest).len() >= TexelKind::I4.spec_out_size() * TexelKind::I4.spec_groups(
            tile_width as int,
        ) * (tile_height as int),
    ensures
        final(dest)@.len() == old(dest)@.len(),
        forall|y: int, g: int|
            0 <= y < tile_height && 0 <= g < TexelKind::I4.spec_groups(tile_width as int)
                ==> group_ok(
                TexelKind::I4,
                final(dest)@,
                old(dest)@,
                source@,
                Seq::<u8>::empty(),
                source_offset as int,
                line as int,
                tile_width as int,
                deinterleave,
                y,
                g,
            ),
        forall|i: int|
            TexelKind::I4.spec_out_size() * TexelKind::I4.spec_groups(tile_width as int) * (
            tile_height as int) <= i < old(dest)@.len() ==> #[trigger] final(dest)@[i] == old(
                dest,
            )@[i],
{
    let tlut: Vec<u8> = Vec::new();
    decode_tiles(
        TexelKind::I4,
        dest,
        source,
        source_offset,
        tile_width,
        tile_height,
        &tlut,
        line,
        deinterleave,
    );
}

/// Decode a 8-bit intensity tile.
pub fn decode_tex_i8(
    dest: &mut Vec<u8>,
    source: &Vec<u8>,
    source_offset: u32,
    tile_width: u32,
    tile_height: u32,
    line: u32,
    deinterleave: bool,
)
    requires
        tile_width <= 0xFFFF,
        tile_height <= 0xFFFF,
        line <= 0x7_FFFF,
        old(dest).len() >= TexelKind::I8.spec_out_size() * TexelKind::I8.spec_groups(
            tile_width as int,
        ) * (tile_height as int),
    ensures
        final(dest)@.len() == old(dest)@.len(),
        forall|y: int, g: int|
            0 <= y < tile_height && 0 <= g < TexelKind::I8.spec_groups(tile_width as int)
                ==> group_ok(
                TexelKind::I8,
                final(dest)@,
                old(dest)@,
                source@,
                Seq::<u8>::empty(),
                source_offset as int,
                line as int,
                tile_width as int,
                deinterleave,
                y,
                g,
            ),
        forall|i: int|
            TexelKind::I8.spec_out_size() * TexelKind::I8.spec_groups(tile_width as int) * (
            tile_height as int) <= i < old(dest)@.len() ==> #[trigger] final(dest)@[i] == old(
                dest,
            )@[i],
{
    let tlut: Vec<u8> = Vec::new();
    decode_tiles(
        TexelKind::I8,
        dest,
        source,
        source_offset,
        tile_width,
        tile_height,
        &tlut,
        line,
        deinterleave,
    );
}

/// Decode a 32-bit RGBA tile: a straight copy of the tile's bytes.
pub fn decode_tex_rgba32(
    dest: &mut Vec<u8>,
    source: &Vec<u8>,
    source_index: u32,
    tile_width: u32,
    tile_height: u32,
)
    requires
        tile_width <= 0xFFFF,
        tile_height <= 0xFFFF,
        old(dest).len() == 4 * (tile_width as int) * (tile_height as int),
        source_index + 4 * (tile_width as int) * (tile_height as int) <= source.len(),
    ensures
        final(dest)@.len() == old(dest)@.len(),
        forall|i: int|
            0 <= i < old(dest)@.len() ==> #[trigger] final(dest)@[i] == source@[source_index + i],
{
    let n: usize = 4 * (tile_width as usize) * (tile_height as usize);
    proof {
        assert(4 * (tile_width as int) * (tile_height as int) <= 0x4_0000_0000)
            by (nonlinear_arith)
            requires
                tile_width <= 0xFFFF,
                tile_height <= 0xFFFF,
        ;
    }
    let base = source_index as usize;
    let mut i: usize = 0;
    while i < n
        invariant
            i <= n,
            n == old(dest)@.len(),
            dest@.len() == n,
            base + n <= source.len(),
            forall|k: int| 0 <= k < i ==> #[trigger] dest@[k] == source@[base + k],
        decreases n - i,
    {
        let b = source[base + i];
        dest[i] = b;
        i += 1;
    }
}

/// Expand a 16-bit 5/5/5/1 palette from `source` into RGBA bytes; returns the
/// number of palette bytes consumed. Only the RGBA16 palette mode is
/// supported.
pub fn parse_tlut(
    dest: &mut Vec<u8>,
    source: &Vec<u8>,
    index: u32,
    size: ImageSize,
    mode: TextureLUT,
) -> (r: u32)
    requires
        mode is G_TT_RGBA16,
        index + 2 * spec_tlut_entries(size) <= source.len(),
        old(dest).len() >= 4 * spec_tlut_entries(size),
    ensures
        final(dest)@.len() == old(dest)@.len(),
        r == 2 * spec_tlut_entries(size),
        forall|i: int, j: int|
            0 <= i < spec_tlut_entries(size) && 0 <= j < 4 ==> #[trigger] final(dest)@[i * 4 + j]
                == spec_r5g5b5a1(spec_u16_be(source@, index + 2 * i), j),
        forall|k: int|
            4 * spec_tlut_entries(size) <= k < old(dest)@.len() ==> #[trigger] final(dest)@[k]
                == old(dest)@[k],
{
    let tlut_size = size.get_tlut_size();
    let base = index as usize;
    let mut i: usize = 0;
    while i < tlut_size as usize
        invariant
            i <= spec_tlut_entries(size),
            tlut_size == spec_tlut_entries(size),
            dest@.len() == old(dest)@.len(),
            base + 2 * spec_tlut_entries(size) <= source.len(),
            dest@.len() >= 4 * spec_tlut_entries(size),
            forall|i2: int, j: int|
                0 <= i2 < i && 0 <= j < 4 ==> #[trigger] dest@[i2 * 4 + j] == spec_r5g5b5a1(
                    spec_u16_be(source@, base + 2 * i2),
                    j,
                ),
            forall|k: int| i * 4 <= k < dest@.len() ==> #[trigger] dest@[k] == old(dest)@[k],
        decreases spec_tlut_entries(size) - i,
    {
        let pixel = read_u16_be(source, base + 2 * i);
        r5g5b5a1(dest, i * 4, pixel);
        i += 1;
    }
    tlut_size * 2
}

/// The palette entry count of a size, as used by [`parse_tlut`].
pub open spec fn spec_tlut_entries(size: ImageSize) -> int {
    match size {
        ImageSize::G_IM_SIZ_4b => 0x10,
        ImageSize::G_IM_SIZ_8b => 0x100,
        ImageSize::G_IM_SIZ_16b => 0x1000,
        ImageSize::G_IM_SIZ_32b => 0x10000,
    }
}

} // verus!
