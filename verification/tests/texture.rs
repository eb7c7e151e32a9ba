use rcp_core::image::{
    decode_tex_ci4, decode_tex_ci8, decode_tex_i4, decode_tex_i8, decode_tex_ia16, decode_tex_ia4,
    decode_tex_ia8, decode_tex_rgba16, decode_tex_rgba32, padding_for_texture, parse_tlut,
    ImageFormat, ImageSize, TextureLUT,
};
use rcp_core::rdp::tex_pad_width;
use rcp_core::utils::{ursi16, ursi32, ursi8};

#[test]
fn test_unsigned_right_shift() {
    let a: i32 = 5;
    let b: u32 = 2;
    let c: i32 = -5;

    assert_eq!(ursi32(a, b), 1);
    assert_eq!(ursi32(c, b), 1073741822);
    assert_eq!(ursi32(9, 2), 2);
    assert_eq!(ursi32(-9, 2), 1073741821);
}

#[test]
fn test_unsigned_right_shift_narrow() {
    assert_eq!(ursi16(-2, 1), 0x7FFF);
    assert_eq!(ursi8(-2, 1), 0x7F);
}

#[test]
fn test_padding_for_texture() {
    let a = padding_for_texture(ImageSize::G_IM_SIZ_8b, 8, 32);
    assert_eq!(a, 32);

    let b = padding_for_texture(ImageSize::G_IM_SIZ_8b, 4, 64);
    assert_eq!(b, -32);
}

#[test]
fn test_tex_pad_width() {
    let a = tex_pad_width(ImageSize::G_IM_SIZ_8b, 8, 32);
    assert_eq!(a, 32);

    let b = tex_pad_width(ImageSize::G_IM_SIZ_8b, 4, 64);
    assert_eq!(b, -32);
}

#[test]
fn test_padding_zero_line() {
    assert_eq!(padding_for_texture(ImageSize::G_IM_SIZ_16b, 0, 99), 0);
}

#[test]
fn test_padding_4bit_uses_logical_shift() {
    // 4-bit: a negative texel difference shifts as an unsigned 32-bit value
    assert_eq!(padding_for_texture(ImageSize::G_IM_SIZ_4b, 1, 18), 0x7FFF_FFFF);
}

#[test]
fn test_image_names() {
    assert_eq!(ImageFormat::G_IM_FMT_RGBA.get_name(), "RGBA");
    assert_eq!(ImageFormat::G_IM_FMT_I.get_name(), "I");
    assert_eq!(ImageSize::G_IM_SIZ_4b.get_name(), "4");
    assert_eq!(ImageSize::G_IM_SIZ_32b.get_name(), "32");
}

#[test]
fn test_image_sizes() {
    assert_eq!(ImageSize::G_IM_SIZ_4b.get_bits_per_pixel(), 4);
    assert_eq!(ImageSize::G_IM_SIZ_32b.get_bits_per_pixel(), 32);
    assert_eq!(ImageSize::G_IM_SIZ_4b.get_tlut_size(), 0x10);
    assert_eq!(ImageSize::G_IM_SIZ_16b.get_tlut_size(), 0x1000);
}

#[test]
fn test_decode_i8() {
    let mut dest = vec![0u8; 4];
    decode_tex_i8(&mut dest, &vec![0xAB], 0, 1, 1, 0, false);
    assert_eq!(dest, vec![0xAB, 0xAB, 0xAB, 0xAB]);
}

#[test]
fn test_decode_i4() {
    let mut dest = vec![0u8; 8];
    decode_tex_i4(&mut dest, &vec![0x12], 0, 2, 1, 0, false);
    assert_eq!(dest, vec![0x11, 0x11, 0x11, 0x11, 0x22, 0x22, 0x22, 0x22]);
}

#[test]
fn test_decode_ia8() {
    let mut dest = vec![0u8; 4];
    decode_tex_ia8(&mut dest, &vec![0x5A], 0, 1, 1, 0, false);
    assert_eq!(dest, vec![0x55, 0x55, 0x55, 0xAA]);
}

#[test]
fn test_decode_ia16() {
    let mut dest = vec![0u8; 4];
    decode_tex_ia16(&mut dest, &vec![0x12, 0x34], 0, 1, 1, 0, false);
    assert_eq!(dest, vec![0x12, 0x12, 0x12, 0x34]);
}

#[test]
fn test_decode_ia4() {
    let mut dest = vec![0u8; 8];
    decode_tex_ia4(&mut dest, &vec![0xFF], 0, 2, 1, 0, false);
    assert_eq!(dest, vec![0xFC, 0xFC, 0xFC, 0xFF, 0xFC, 0xFC, 0xFC, 0xFF]);
}

#[test]
fn test_decode_rgba16() {
    let mut dest = vec![0u8; 8];
    decode_tex_rgba16(&mut dest, &vec![0xFF, 0xFF, 0x00, 0x00], 0, 2, 1, 0, false);
    assert_eq!(dest, vec![255, 255, 255, 255, 0, 0, 0, 0]);
}

#[test]
fn test_decode_rgba32() {
    let mut dest = vec![0u8; 4];
    decode_tex_rgba32(&mut dest, &vec![9, 8, 7, 6, 5], 1, 1, 1);
    assert_eq!(dest, vec![8, 7, 6, 5]);
}

#[test]
fn test_decode_ci8() {
    let mut tlut = vec![0u8; 0x400];
    tlut[12..16].copy_from_slice(&[1, 2, 3, 4]);
    let mut dest = vec![0u8; 4];
    decode_tex_ci8(&mut dest, &vec![3], 0, 1, 1, &tlut, 0, false);
    assert_eq!(dest, vec![1, 2, 3, 4]);
}

#[test]
fn test_decode_ci4() {
    let mut tlut = vec![0u8; 0x40];
    tlut[4..8].copy_from_slice(&[1, 2, 3, 4]);
    tlut[8..12].copy_from_slice(&[5, 6, 7, 8]);
    let mut dest = vec![0u8; 8];
    decode_tex_ci4(&mut dest, &vec![0x12], 0, 2, 1, &tlut, 0, false);
    assert_eq!(dest, vec![1, 2, 3, 4, 5, 6, 7, 8]);
}

#[test]
fn test_decode_deinterleave_odd_rows() {
    // odd rows flip bit 2 of the running source index
    let source: Vec<u8> = (0..8).collect();
    let mut dest = vec![0u8; 16];
    decode_tex_i8(&mut dest, &source, 0, 2, 2, 0, true);
    // row 0 reads bytes 0,1; row 1 reads bytes 6,7 (2^4=6, 3^4=7)
    assert_eq!(&dest[0..8], &[0, 0, 0, 0, 1, 1, 1, 1]);
    assert_eq!(&dest[8..16], &[6, 6, 6, 6, 7, 7, 7, 7]);
}

#[test]
fn test_decode_skips_out_of_range_reads() {
    let mut dest = vec![9u8; 8];
    // the second row's source byte does not exist: its texel stays untouched
    decode_tex_i8(&mut dest, &vec![0x55], 0, 1, 2, 0, false);
    assert_eq!(dest, vec![0x55, 0x55, 0x55, 0x55, 9, 9, 9, 9]);
}

#[test]
fn test_decode_row_padding() {
    // line 1 of 8-bit texels = 8 bytes per row; a 2-wide tile skips 6
    let source: Vec<u8> = (0..16).collect();
    let mut dest = vec![0u8; 16];
    decode_tex_i8(&mut dest, &source, 0, 2, 2, 1, false);
    assert_eq!(&dest[0..8], &[0, 0, 0, 0, 1, 1, 1, 1]);
    assert_eq!(&dest[8..16], &[8, 8, 8, 8, 9, 9, 9, 9]);
}

#[test]
fn test_parse_tlut() {
    let source = vec![0xFF; 32];
    let mut dest = vec![0u8; 64];
    let consumed = parse_tlut(&mut dest, &source, 0, ImageSize::G_IM_SIZ_4b, TextureLUT::G_TT_RGBA16);
    assert_eq!(consumed, 32);
    assert_eq!(dest, vec![255u8; 64]);
}
