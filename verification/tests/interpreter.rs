use rcp_core::gbi::defines::{GWords, RSPGeometry, G_CULL_BACK, G_FOG, G_LIGHTING, G_MTX, G_SHADE, G_ZBUFFER};
use rcp_core::gbi::f3dex2::F3DEX2;
use rcp_core::rcp::RCP;
use rcp_core::GfxError;

fn push_cmd(mem: &mut Vec<u8>, w0: u32, w1: u32) {
    let cmd = GWords { w0, w1 };
    mem.extend_from_slice(&cmd.w0.to_be_bytes());
    mem.extend_from_slice(&cmd.w1.to_be_bytes());
}

fn write_cmd(mem: &mut Vec<u8>, at: usize, w0: u32, w1: u32) {
    let cmd = GWords { w0, w1 };
    mem[at..at + 4].copy_from_slice(&cmd.w0.to_be_bytes());
    mem[at + 4..at + 8].copy_from_slice(&cmd.w1.to_be_bytes());
}

#[test]
fn test_dispatch_routes_to_registered_handler() {
    // a geometry-mode command must reach the geometry-mode handler
    let mut rcp = RCP::new();
    rcp.initialize();
    let mut mem = Vec::new();
    // clear nothing, set Z-buffer | shade
    push_cmd(&mut mem, 0xD900_0000, G_ZBUFFER | G_SHADE);
    push_cmd(&mut mem, 0xDF00_0000, 0);
    assert_eq!(rcp.process_displaylist(&mem, 0), Ok(()));
    assert_eq!(rcp.rsp.geometry_mode, G_ZBUFFER | G_SHADE);
    assert!(rcp.rsp.state_changed);
}

#[test]
fn test_dispatch_unknown_opcode_is_fatal() {
    let mut rcp = RCP::new();
    rcp.initialize();
    let mut mem = Vec::new();
    push_cmd(&mut mem, 0x4200_0000, 0);
    assert_eq!(rcp.process_displaylist(&mem, 0), Err(GfxError::UnknownOpcode(0x42)));
}

#[test]
fn test_resolve_even_address_unchanged() {
    let rcp = RCP::new();
    assert_eq!(rcp.segmented_address(0x0002_0000), Ok(0x0002_0000));
}

#[test]
fn test_resolve_mapped_segment() {
    let mut rcp = RCP::new();
    rcp.segments.set_segment(1, 0x100);
    // bit0 = 1, segment 1, offset 0x20
    assert_eq!(rcp.segmented_address(0x0100_0021), Ok(0x100 + 0x20));
}

#[test]
fn test_resolve_unmapped_segment_unchanged() {
    let rcp = RCP::new();
    assert_eq!(rcp.segmented_address(0x0100_0021), Ok(0x0100_0021));
}

#[test]
fn test_resolve_segment_out_of_range() {
    let rcp = RCP::new();
    assert_eq!(rcp.segmented_address(0x1000_0001), Err(GfxError::SegmentOutOfRange(0x10)));
}

#[test]
fn test_call_display_list_brackets_nested_stream() {
    // operand 0: the nested list runs to completion before the next
    // instruction of the calling frame
    let mut rcp = RCP::new();
    rcp.initialize();
    let mut mem = vec![0u8; 80];
    write_cmd(&mut mem, 0, 0xDE00_0000, 64); // call into 64
    write_cmd(&mut mem, 8, 0xD900_0000, G_FOG); // then set fog
    write_cmd(&mut mem, 16, 0xDF00_0000, 0); // end
    write_cmd(&mut mem, 64, 0xD900_0000, G_LIGHTING); // nested: set lighting
    write_cmd(&mut mem, 72, 0xDF00_0000, 0); // nested end
    assert_eq!(rcp.process_displaylist(&mem, 0), Ok(()));
    // the trace shows the nested block fully bracketed inside the caller
    assert_eq!(rcp.trace, vec![0, 64, 72, 8, 16]);
    assert_eq!(rcp.rsp.geometry_mode, G_LIGHTING | G_FOG);
}

#[test]
fn test_branch_display_list_does_not_recurse() {
    // nonzero operand: control transfers without growing recursion depth, so
    // it succeeds even with no call depth left
    let mut rcp = RCP::new();
    rcp.initialize();
    rcp.max_depth = 0;
    let mut mem = vec![0u8; 72];
    write_cmd(&mut mem, 0, 0xDE01_0000, 64); // branch to 64
    write_cmd(&mut mem, 64, 0xDF00_0000, 0); // end
    assert_eq!(rcp.process_displaylist(&mem, 0), Ok(()));
    // a single frame: straight from the branch to its target
    assert_eq!(rcp.trace, vec![0, 64]);
}

#[test]
fn test_call_display_list_depth_ceiling() {
    let mut rcp = RCP::new();
    rcp.initialize();
    rcp.max_depth = 0;
    let mut mem = vec![0u8; 72];
    write_cmd(&mut mem, 0, 0xDE00_0000, 64); // a true call
    write_cmd(&mut mem, 64, 0xDF00_0000, 0);
    assert_eq!(rcp.process_displaylist(&mem, 0), Err(GfxError::RecursionDepthExceeded));
}

#[test]
fn test_step_limit() {
    let mut rcp = RCP::new();
    rcp.initialize();
    rcp.max_steps = 1;
    let mut mem = Vec::new();
    push_cmd(&mut mem, 0xD900_0000, 0);
    push_cmd(&mut mem, 0xDF00_0000, 0);
    assert_eq!(rcp.process_displaylist(&mem, 0), Err(GfxError::StepLimitExceeded));
    rcp.max_steps = 2;
    rcp.trace.clear();
    assert_eq!(rcp.process_displaylist(&mem, 0), Ok(()));
}

#[test]
fn test_command_read_out_of_bounds() {
    let mut rcp = RCP::new();
    rcp.initialize();
    let mem = vec![0u8; 4];
    assert_eq!(rcp.process_displaylist(&mem, 0), Err(GfxError::AddressOutOfBounds(0)));
}

#[test]
fn test_vertex_command_through_interpreter() {
    let mut rcp = RCP::new();
    rcp.initialize();
    // identity composite matrix
    for i in 0..4 {
        rcp.rsp.model_projection_matrix.m[i][i] = 0x1_0000;
    }
    let mut mem = vec![0u8; 80];
    // one vertex, destination slot 0: count in bits 12.., end slot in bits 1..
    let w0 = 0x0100_0000 | (1 << 12) | (1 << 1);
    write_cmd(&mut mem, 0, w0, 64); // vertex record at 64
    write_cmd(&mut mem, 8, 0xDF00_0000, 0);
    mem[64] = 0x00;
    mem[65] = 0x02; // x = 2
    assert_eq!(rcp.process_displaylist(&mem, 0), Ok(()));
    assert_eq!(rcp.rsp.vertex_table[0].pos, [2 * 0x1_0000, 0, 0, 0x1_0000]);
    // x > w: exactly the +x bit
    assert_eq!(rcp.rsp.vertex_table[0].clip_rejection, 2);
}

#[test]
fn test_triangle_command_forwards_to_rasterizer() {
    let mut rcp = RCP::new();
    rcp.initialize();
    for i in 0..4 {
        rcp.rsp.model_projection_matrix.m[i][i] = 0x1_0000;
    }
    let mut mem = vec![0u8; 120];
    // three vertices at slots 0..2, then one triangle over them
    let w0 = 0x0100_0000 | (3 << 12) | (3 << 1);
    write_cmd(&mut mem, 0, w0, 64);
    write_cmd(&mut mem, 8, 0x0500_0000 | (0 << 16) | (2 << 8) | 4, 0); // slots 0,1,2
    write_cmd(&mut mem, 16, 0xDF00_0000, 0);
    // vertex records at 64, 80, 96: origin, +x, +y
    mem[64 + 1] = 0; // (0,0,0)
    mem[80 + 1] = 1; // (1,0,0)
    mem[96 + 3] = 1; // (0,1,0)
    assert_eq!(rcp.process_displaylist(&mem, 0), Ok(()));
    assert_eq!(rcp.rdp.accepted_triangles.len(), 1);
    assert_eq!(rcp.rdp.accepted_triangles[0][1].pos[0], 0x1_0000);
}

#[test]
fn test_load_ucode_resets_fog() {
    let mut rcp = RCP::new();
    rcp.initialize();
    rcp.rsp.fog_multiplier = 100;
    rcp.rsp.fog_offset = -3;
    rcp.rsp.geometry_mode = G_CULL_BACK;
    let mut mem = Vec::new();
    push_cmd(&mut mem, 0xDD00_0000, 0);
    push_cmd(&mut mem, 0xDF00_0000, 0);
    assert_eq!(rcp.process_displaylist(&mem, 0), Ok(()));
    assert_eq!(rcp.rsp.fog_multiplier, 0);
    assert_eq!(rcp.rsp.fog_offset, 0);
    // only the documented partial reset
    assert_eq!(rcp.rsp.geometry_mode, G_CULL_BACK);
}

#[test]
fn test_opcode_values() {
    assert_eq!(F3DEX2::G_VTX.opcode(), 0x01);
    assert_eq!(F3DEX2::G_DL.opcode(), 0xDE);
    assert_eq!(F3DEX2::G_ENDDL.opcode(), 0xDF);
    assert_eq!(F3DEX2::G_SETCIMG.opcode(), 0xFF);
}

#[test]
fn test_mode_bits() {
    assert_eq!(RSPGeometry::G_CULL_FRONT.bits(), 0x200);
    assert_eq!(RSPGeometry::G_CULL_BOTH.bits(), 0x600);
    assert_eq!(RSPGeometry::G_LIGHTING.bits(), 1 << 17);
    assert_eq!(G_MTX::PUSH.mask(), 0x01);
    assert_eq!(G_MTX::LOAD.mask(), 0x02);
    assert_eq!(G_MTX::PROJECTION.mask(), 0x04);
}
