use rcp_core::gbi::defines::{
    Light, VertexColor, VertexNormal, G_CULL_BACK, G_CULL_BOTH, G_CULL_FRONT, G_FOG, G_LIGHTING,
    G_MTX_LOAD, G_MTX_PROJECTION, G_MTX_PUSH, G_TEXTURE_GEN,
};
use rcp_core::rsp::{calculate_normal_dir, fog_alpha, Mtx, RSP};
use rcp_core::GfxError;

fn identity() -> Mtx {
    let mut m = Mtx { m: [[0; 4]; 4] };
    for i in 0..4 {
        m.m[i][i] = 0x1_0000;
    }
    m
}

/// Encode a matrix of s15.16 cells in the coprocessor's split layout.
fn encode_mtx(cells: &Mtx) -> Vec<u8> {
    let mut words = [0u32; 16];
    for r in 0..4 {
        for cp in 0..2 {
            let v0 = cells.m[r][2 * cp] as u32;
            let v1 = cells.m[r][2 * cp + 1] as u32;
            words[r * 2 + cp] = (v0 & 0xFFFF_0000) | (v1 >> 16);
            words[8 + r * 2 + cp] = (v0 << 16) | (v1 & 0xFFFF);
        }
    }
    let mut out = Vec::new();
    for w in words.iter() {
        out.extend_from_slice(&w.to_be_bytes());
    }
    out
}

/// The 16-byte wire form of an unlit, colored vertex record.
fn encode_vertex_color(v: &VertexColor) -> Vec<u8> {
    let mut out = Vec::new();
    for p in v.position.iter() {
        out.extend_from_slice(&p.to_be_bytes());
    }
    out.extend_from_slice(&v.flag.to_be_bytes());
    for t in v.texture_coordinates.iter() {
        out.extend_from_slice(&t.to_be_bytes());
    }
    out.extend_from_slice(&v.color);
    out
}

/// The 16-byte wire form of a lit vertex record (same bytes, read as a
/// normal plus alpha).
fn encode_vertex_normal(v: &VertexNormal) -> Vec<u8> {
    let mut out = Vec::new();
    for p in v.position.iter() {
        out.extend_from_slice(&p.to_be_bytes());
    }
    out.extend_from_slice(&v.flag.to_be_bytes());
    for t in v.texture_coordinates.iter() {
        out.extend_from_slice(&t.to_be_bytes());
    }
    out.extend_from_slice(&v.normal);
    out.push(v.alpha);
    out
}

fn vertex_record(pos: [i16; 3], tc: [i16; 2], last: [u8; 4]) -> Vec<u8> {
    encode_vertex_color(&VertexColor { position: pos, flag: 0, texture_coordinates: tc, color: last })
}

#[test]
fn test_identity_transform_origin() {
    // identity composite matrix: (0,0,0) maps to clip (0,0,0,1), mask 0
    let mut rsp = RSP::new();
    rsp.model_projection_matrix = identity();
    let mem = vertex_record([0, 0, 0], [0, 0], [0, 0, 0, 0]);
    assert_eq!(rsp.gsp_vertex(&mem, 0, 1, 0), Ok(()));
    assert_eq!(rsp.vertex_table[0].pos, [0, 0, 0, 0x1_0000]);
    assert_eq!(rsp.vertex_table[0].clip_rejection, 0);
}

#[test]
fn test_clip_mask_positive_x_only() {
    let mut rsp = RSP::new();
    rsp.model_projection_matrix = identity();
    let mem = vertex_record([2, 0, 0], [0, 0], [0, 0, 0, 0]);
    assert_eq!(rsp.gsp_vertex(&mem, 0, 1, 0), Ok(()));
    // x > w sets exactly the "+x outside" bit
    assert_eq!(rsp.vertex_table[0].clip_rejection, 2);
}

#[test]
fn test_clip_mask_all_positive_planes() {
    let mut rsp = RSP::new();
    rsp.model_projection_matrix = identity();
    let mem = vertex_record([2, 2, 2], [0, 0], [0, 0, 0, 0]);
    assert_eq!(rsp.gsp_vertex(&mem, 0, 1, 0), Ok(()));
    // x, y and z all beyond +w: the OR of the three bits
    assert_eq!(rsp.vertex_table[0].clip_rejection, 2 + 8 + 32);
}

fn rsp_with_screen_triangle() -> RSP {
    let mut rsp = RSP::new();
    rsp.model_projection_matrix = identity();
    let mut mem = vertex_record([0, 0, 0], [0, 0], [0, 0, 0, 0]);
    mem.extend(vertex_record([1, 0, 0], [0, 0], [0, 0, 0, 0]));
    mem.extend(vertex_record([0, 1, 0], [0, 0], [0, 0, 0, 0]));
    assert_eq!(rsp.gsp_vertex(&mem, 0, 3, 0), Ok(()));
    rsp
}

#[test]
fn test_cull_back_keeps_counter_clockwise() {
    let mut rsp = rsp_with_screen_triangle();
    rsp.geometry_mode = G_CULL_BACK;
    assert!(rsp.gsp_triangles(0, 1, 2));
}

#[test]
fn test_cull_front_rejects_counter_clockwise() {
    let mut rsp = rsp_with_screen_triangle();
    rsp.geometry_mode = G_CULL_FRONT;
    assert!(!rsp.gsp_triangles(0, 1, 2));
}

#[test]
fn test_cull_both_rejects_everything() {
    let mut rsp = rsp_with_screen_triangle();
    rsp.geometry_mode = G_CULL_BOTH;
    assert!(!rsp.gsp_triangles(0, 1, 2));
    // either winding
    assert!(!rsp.gsp_triangles(0, 2, 1));
}

#[test]
fn test_shared_plane_rejects_triangle() {
    let mut rsp = RSP::new();
    rsp.model_projection_matrix = identity();
    let mut mem = vertex_record([2, 0, 0], [0, 0], [0, 0, 0, 0]);
    mem.extend(vertex_record([3, 0, 0], [0, 0], [0, 0, 0, 0]));
    mem.extend(vertex_record([2, 1, 0], [0, 0], [0, 0, 0, 0]));
    assert_eq!(rsp.gsp_vertex(&mem, 0, 3, 0), Ok(()));
    // no culling active, but all three share the +x plane
    assert!(!rsp.gsp_triangles(0, 1, 2));
}

#[test]
fn test_apply_matrix_load_replaces() {
    let mut rsp = RSP::new();
    rsp.projection_matrix = identity();
    let mut two = Mtx { m: [[0; 4]; 4] };
    for i in 0..4 {
        two.m[i][i] = 2 * 0x1_0000;
    }
    let mem = encode_mtx(&two);
    assert_eq!(rsp.gsp_matrix(&mem, 0, G_MTX_PROJECTION | G_MTX_LOAD), Ok(()));
    // prior content fully replaced by the decoded matrix
    assert_eq!(rsp.projection_matrix.m, two.m);
    assert!(rsp.state_changed);
}

#[test]
fn test_apply_matrix_multiply_composes() {
    let mut rsp = RSP::new();
    let mut three = Mtx { m: [[0; 4]; 4] };
    for i in 0..4 {
        three.m[i][i] = 3 * 0x1_0000;
    }
    rsp.projection_matrix = three;
    let mut two = Mtx { m: [[0; 4]; 4] };
    for i in 0..4 {
        two.m[i][i] = 2 * 0x1_0000;
    }
    let mem = encode_mtx(&two);
    assert_eq!(rsp.gsp_matrix(&mem, 0, G_MTX_PROJECTION), Ok(()));
    // previous * decoded
    for i in 0..4 {
        assert_eq!(rsp.projection_matrix.m[i][i], 6 * 0x1_0000);
    }
}

#[test]
fn test_matrix_stack_push_copies_top() {
    let mut rsp = RSP::new();
    rsp.modelview_matrix[0] = identity();
    let mut two = Mtx { m: [[0; 4]; 4] };
    for i in 0..4 {
        two.m[i][i] = 2 * 0x1_0000;
    }
    let mem = encode_mtx(&two);
    // push, then multiply the duplicate by the decoded matrix
    assert_eq!(rsp.gsp_matrix(&mem, 0, G_MTX_PUSH), Ok(()));
    assert_eq!(rsp.modelview_index, 1);
    assert_eq!(rsp.modelview_matrix[1].m, two.m);
    assert_eq!(rsp.modelview_matrix[0].m, identity().m);
}

#[test]
fn test_matrix_stack_overflow_is_silent() {
    let mut rsp = RSP::new();
    let mem = encode_mtx(&identity());
    for _ in 0..33 {
        assert_eq!(rsp.gsp_matrix(&mem, 0, G_MTX_PUSH | G_MTX_LOAD), Ok(()));
    }
    // 33 pushes: the index stops at 31, the extra pushes are dropped
    assert_eq!(rsp.modelview_index, 31);
}

#[test]
fn test_matrix_read_out_of_bounds() {
    let mut rsp = RSP::new();
    let mem = vec![0u8; 32];
    assert_eq!(
        rsp.gsp_matrix(&mem, 0, G_MTX_LOAD),
        Err(GfxError::AddressOutOfBounds(0))
    );
}

#[test]
fn test_fog_alpha_clamps_high() {
    // multiplier 32767, offset 32767, z/w = 1: clamps to 255
    assert_eq!(fog_alpha(0x1_0000, 0x1_0000, 32767, 32767), 255);
}

#[test]
fn test_fog_alpha_clamps_low() {
    // a large negative multiplier with offset 0: clamps to 0
    assert_eq!(fog_alpha(0x1_0000, 0x1_0000, -32768, 0), 0);
}

#[test]
fn test_fog_alpha_through_vertex() {
    let mut rsp = RSP::new();
    rsp.model_projection_matrix = identity();
    rsp.geometry_mode = G_FOG;
    rsp.fog_multiplier = 100;
    rsp.fog_offset = 7;
    // z = w = 1.0, so alpha = 1 * 100 + 7
    let mem = vertex_record([0, 0, 1], [0, 0], [0, 0, 0, 0]);
    assert_eq!(rsp.gsp_vertex(&mem, 0, 1, 0), Ok(()));
    assert_eq!(rsp.vertex_table[0].color[3], 107);
}

#[test]
fn test_unlit_vertex_takes_raw_color() {
    let mut rsp = RSP::new();
    rsp.model_projection_matrix = identity();
    let mem = vertex_record([0, 0, 0], [0, 0], [10, 20, 30, 40]);
    assert_eq!(rsp.gsp_vertex(&mem, 0, 1, 0), Ok(()));
    assert_eq!(rsp.vertex_table[0].color, [10, 20, 30, 40]);
}

#[test]
fn test_lit_vertex_accumulates_light() {
    let mut rsp = RSP::new();
    rsp.model_projection_matrix = identity();
    rsp.modelview_matrix[0] = identity();
    rsp.modelview_index = 1;
    rsp.geometry_mode = G_LIGHTING;
    rsp.state_changed = true;
    rsp.current_num_lights = 2;
    rsp.current_lights[0] = Light::new([100, 100, 100], [0, 0, 0], [0, 0, 127]);
    rsp.current_lights[1] = Light::new([10, 20, 30], [0, 0, 0], [0, 0, 0]); // ambient
    // normal along +z, fully lit by light 0; alpha comes through raw
    let mem = encode_vertex_normal(&VertexNormal {
        position: [0, 0, 0],
        flag: 0,
        texture_coordinates: [0, 0],
        normal: [0, 0, 127],
        alpha: 99,
    });
    assert_eq!(rsp.gsp_vertex(&mem, 0, 1, 0), Ok(()));
    assert_eq!(rsp.vertex_table[0].color, [110, 120, 130, 99]);
    // the dirty flag cleared itself after the recomputation
    assert!(!rsp.state_changed);
}

#[test]
fn test_lighting_needs_a_light() {
    let mut rsp = RSP::new();
    rsp.geometry_mode = G_LIGHTING;
    rsp.modelview_index = 1;
    let mem = vertex_record([0, 0, 0], [0, 0], [0, 0, 0, 0]);
    assert_eq!(rsp.gsp_vertex(&mem, 0, 1, 0), Err(GfxError::NoLights));
}

#[test]
fn test_lighting_needs_pushed_matrix() {
    let mut rsp = RSP::new();
    rsp.geometry_mode = G_LIGHTING;
    rsp.current_num_lights = 1;
    let mem = vertex_record([0, 0, 0], [0, 0], [0, 0, 0, 0]);
    assert_eq!(rsp.gsp_vertex(&mem, 0, 1, 0), Err(GfxError::MatrixStackEmpty));
}

#[test]
fn test_vertex_destination_out_of_range() {
    let mut rsp = RSP::new();
    let mem = vertex_record([0, 0, 0], [0, 0], [0, 0, 0, 0]);
    assert_eq!(rsp.gsp_vertex(&mem, 0, 1, 64), Err(GfxError::VertexIndexOutOfRange));
}

#[test]
fn test_vertex_source_out_of_bounds() {
    let mut rsp = RSP::new();
    let mem = vec![0u8; 8];
    assert_eq!(rsp.gsp_vertex(&mem, 0, 1, 0), Err(GfxError::AddressOutOfBounds(0)));
}

#[test]
fn test_calculate_normal_dir_axis() {
    let m = identity();
    let light = Light::new([0, 0, 0], [0, 0, 0], [127, 0, 0]);
    let coeffs = calculate_normal_dir(&light, &m);
    // a +x light through the identity normalizes to the +x unit vector
    assert_eq!(coeffs, [0x1_0000, 0, 0]);
}

#[test]
fn test_texture_gen_coordinates() {
    let mut rsp = RSP::new();
    rsp.model_projection_matrix = identity();
    let mut mv = identity();
    // a row of ones: the +x look-at rotates to (1,1,1)/sqrt(3)
    mv.m[0] = [0x1_0000, 0x1_0000, 0x1_0000, 0];
    rsp.modelview_matrix[0] = mv;
    rsp.modelview_index = 1;
    rsp.geometry_mode = G_LIGHTING | G_TEXTURE_GEN;
    rsp.state_changed = true;
    rsp.current_num_lights = 1;
    rsp.current_lights[0] = Light::new([5, 5, 5], [0, 0, 0], [0, 0, 0]); // ambient only
    rsp.texture_scaling_factor = [9, 11];
    let mem = vertex_record([0, 0, 0], [0, 0], [255, 255, 255, 0]);
    assert_eq!(rsp.gsp_vertex(&mem, 0, 1, 0), Ok(()));
    // (incidence/127 + 1)/4 reaches 1 for the diagonal look-at, 0 for +y
    assert_eq!(rsp.vertex_table[0].tex_coord, [9, 0]);
}

#[test]
fn test_raw_texture_coordinates_scaled() {
    let mut rsp = RSP::new();
    rsp.model_projection_matrix = identity();
    rsp.texture_scaling_factor = [0x8000, 0x4000];
    // s10.5 raw coordinates scale by tsf/65536
    let mem = vertex_record([0, 0, 0], [64, 128], [0, 0, 0, 0]);
    assert_eq!(rsp.gsp_vertex(&mem, 0, 1, 0), Ok(()));
    assert_eq!(rsp.vertex_table[0].tex_coord, [32, 32]);
}
