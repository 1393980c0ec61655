use compute_image::color::{Channel, Color, channel_eq_frac};
use compute_image::compute::{ComputeState, workgroup_count};
use compute_image::gpu::{GpuState, PresentMode, select_format};
use compute_image::render::{QuadVertex, quad_vertices};

#[test]
fn kernel_corner_pixels() {
    let mut state = ComputeState::new(512, 512);
    let grid = state.dispatch(512, 512);
    assert_eq!(grid, (64, 64));
    // pixel (0, 0) is (0, 0, 0.5, 1.0)
    let top_left = state.rows[0][0];
    assert!(channel_eq_frac(&top_left.r, 0, 1));
    assert!(channel_eq_frac(&top_left.g, 0, 1));
    assert!(channel_eq_frac(&top_left.b, 1, 2));
    assert!(channel_eq_frac(&top_left.a, 1, 1));
    // pixel (511, 511) is (511/512, 511/512, 0.5, 1.0)
    let bottom_right = state.rows[511][511];
    assert_eq!(bottom_right.r, Channel { num: 511, den: 512 });
    assert_eq!(bottom_right.g, Channel { num: 511, den: 512 });
    assert!(channel_eq_frac(&bottom_right.b, 2, 4));
    assert_eq!(bottom_right.a, Channel { num: 1, den: 1 });
}

#[test]
fn kernel_every_pixel_matches_formula() {
    let mut state = ComputeState::new(16, 8);
    state.dispatch(16, 8);
    assert_eq!(state.rows.len(), 8);
    let mut y: usize = 0;
    while y < 8 {
        assert_eq!(state.rows[y].len(), 16);
        let mut x: usize = 0;
        while x < 16 {
            let expected = Color {
                r: Channel { num: x as u32, den: 16 },
                g: Channel { num: y as u32, den: 8 },
                b: Channel { num: 1, den: 2 },
                a: Channel { num: 1, den: 1 },
            };
            assert_eq!(state.rows[y][x], expected);
            x += 1;
        }
        y += 1;
    }
}

#[test]
fn dispatch_twice_is_bit_identical() {
    let mut state = ComputeState::new(512, 512);
    state.dispatch(512, 512);
    let first = state.rows.clone();
    state.dispatch(512, 512);
    assert_eq!(state.rows, first);
}

#[test]
fn workgroup_counts_cover_the_image() {
    assert_eq!(workgroup_count(512), 64);
    assert_eq!(workgroup_count(513), 65);
    assert_eq!(workgroup_count(8), 1);
    assert_eq!(workgroup_count(9), 2);
    assert_eq!(workgroup_count(1), 1);
    assert_eq!(workgroup_count(0), 0);
    assert_eq!(workgroup_count(u32::MAX), 536870912);
}

#[test]
fn surface_resize_stores_new_dimensions() {
    let mut gpu = GpuState::new(512, 512);
    assert_eq!(gpu.surface_config.width, 512);
    assert_eq!(gpu.surface_config.height, 512);
    assert_eq!(gpu.surface_config.present_mode, PresentMode::Fifo);
    assert_eq!(gpu.surface_config.frame_latency, 2);
    assert_eq!(gpu.configure_count, 1);
    gpu.resize(1024, 768);
    assert_eq!(gpu.surface_config.width, 1024);
    assert_eq!(gpu.surface_config.height, 768);
    assert_eq!(gpu.surface_config.present_mode, PresentMode::Fifo);
    assert_eq!(gpu.configure_count, 2);
}

#[test]
fn reconfigure_keeps_configuration() {
    let mut gpu = GpuState::new(640, 480);
    let before = gpu.surface_config;
    gpu.reconfigure_surface();
    assert_eq!(gpu.surface_config, before);
    assert_eq!(gpu.configure_count, 2);
}

#[test]
fn format_negotiation_picks_first_supported() {
    let formats: Vec<u32> = vec![7, 3, 9];
    assert_eq!(select_format(&formats), Some(7));
    let none: Vec<u32> = Vec::new();
    assert_eq!(select_format(&none), None);
}

#[test]
fn quad_covers_screen_with_vertical_flip() {
    let vs = quad_vertices();
    assert_eq!(vs.len(), 4);
    assert_eq!(vs[0], QuadVertex { pos_x: -1, pos_y: -1, tex_u: 0, tex_v: 1 });
    assert_eq!(vs[1], QuadVertex { pos_x: 1, pos_y: -1, tex_u: 1, tex_v: 1 });
    assert_eq!(vs[2], QuadVertex { pos_x: -1, pos_y: 1, tex_u: 0, tex_v: 0 });
    assert_eq!(vs[3], QuadVertex { pos_x: 1, pos_y: 1, tex_u: 1, tex_v: 0 });
    for v in &vs {
        // uv covers (0,0)..(1,1); v = 1 exactly where device y = -1
        assert_eq!(v.tex_u, (v.pos_x + 1) / 2);
        assert_eq!(v.tex_v, (1 - v.pos_y) / 2);
    }
}
