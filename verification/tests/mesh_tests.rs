use bracket_grid::mesh::SOLID_BLOCK_GLYPH;
use bracket_grid::{
    MeshNormal, MeshPosition, Ratio, Rgba, ScreenScaler, SimpleBackendWithBackground,
    TerminalGlyph, TerminalScalingMode,
};

fn color(n: u32) -> Rgba {
    Rgba { red: n, green: n + 1, blue: n + 2, alpha: n + 3 }
}

fn grid(cells: usize) -> Vec<TerminalGlyph> {
    (0..cells)
        .map(|i| TerminalGlyph {
            glyph: 65 + i as u16,
            foreground: color(100 * i as u32),
            background: color(100 * i as u32 + 50),
        })
        .collect()
}

fn pixel_perfect(screen: (u32, u32), content: (u32, u32)) -> ScreenScaler {
    let mut scaler = ScreenScaler::new(0);
    scaler.set_screen_size(screen.0, screen.1);
    scaler.recalculate(content, (8, 8), TerminalScalingMode::PixelPerfect);
    scaler
}

#[test]
fn default_glyph_is_a_white_space_on_black() {
    let glyph = TerminalGlyph::default();
    let one = 1.0f32.to_bits();
    assert_eq!(glyph.glyph, 32);
    assert_eq!(glyph.foreground, Rgba { red: one, green: one, blue: one, alpha: one });
    assert_eq!(glyph.background, Rgba { red: 0, green: 0, blue: 0, alpha: one });
    assert_eq!(f32::from_bits(glyph.background.red), 0.0);
}

#[test]
fn mesh_has_eight_vertices_and_twelve_indices_for_every_cell() {
    for (width, height) in [(1i32, 1i32), (3, 2), (80, 50), (1, 7)] {
        let back_end = SimpleBackendWithBackground::new(16, 16, (8, 8), width, height);
        let cells = (width * height) as usize;
        let scaler = pixel_perfect((1920, 1080), (width as u32 * 8, height as u32 * 8));
        let mesh = back_end.build_mesh(&grid(cells), &scaler);
        assert_eq!(mesh.positions.len(), cells * 8);
        assert_eq!(mesh.normals.len(), cells * 8);
        assert_eq!(mesh.uv.len(), cells * 8);
        assert_eq!(mesh.colors.len(), cells * 8);
        assert_eq!(mesh.indices.len(), cells * 12);
        assert!(mesh.indices.iter().all(|i| (*i as usize) < mesh.positions.len()));
    }
}

#[test]
fn mesh_of_a_single_cell() {
    let back_end = SimpleBackendWithBackground::new(16, 16, (8, 8), 1, 1);
    let scaler = pixel_perfect((100, 100), (8, 8));
    assert_eq!(scaler.scale_factor, 12);
    let cell = TerminalGlyph { glyph: 1, foreground: color(7), background: color(9) };
    let mesh = back_end.build_mesh(&vec![cell], &scaler);
    let back = Ratio { num: 0, den: 1 };
    let front = Ratio { num: 1, den: 2 };
    assert_eq!(
        mesh.positions,
        vec![
            MeshPosition { x: -48, y: -48, depth: back },
            MeshPosition { x: 48, y: -48, depth: back },
            MeshPosition { x: -48, y: 48, depth: back },
            MeshPosition { x: 48, y: 48, depth: back },
            MeshPosition { x: -48, y: -48, depth: front },
            MeshPosition { x: 48, y: -48, depth: front },
            MeshPosition { x: -48, y: 48, depth: front },
            MeshPosition { x: 48, y: 48, depth: front },
        ]
    );
    assert_eq!(mesh.normals, vec![MeshNormal { x: 0, y: 1, z: 0 }; 8]);
    assert_eq!(mesh.indices, vec![0, 1, 2, 3, 2, 1, 4, 5, 6, 7, 6, 5]);
    assert_eq!(
        mesh.colors,
        vec![color(9), color(9), color(9), color(9), color(7), color(7), color(7), color(7)]
    );
    let block = back_end.scaler.texture_coords(SOLID_BLOCK_GLYPH);
    let glyph = back_end.scaler.texture_coords(1);
    assert_eq!(
        mesh.uv,
        vec![
            (block[0], block[3]),
            (block[2], block[3]),
            (block[0], block[1]),
            (block[2], block[1]),
            (glyph[0], glyph[3]),
            (glyph[2], glyph[3]),
            (glyph[0], glyph[1]),
            (glyph[2], glyph[1]),
        ]
    );
    assert_eq!(glyph[0], Ratio { num: 161, den: 2560 });
}

#[test]
fn mesh_lays_out_the_background_before_the_foreground_row_by_row() {
    let back_end = SimpleBackendWithBackground::new(16, 16, (8, 8), 3, 2);
    let scaler = pixel_perfect((48, 32), (24, 16));
    assert_eq!(scaler.scale_factor, 2);
    let cells = grid(6);
    let mesh = back_end.build_mesh(&cells, &scaler);
    for layer in 0..2usize {
        for row in 0..2usize {
            for col in 0..3usize {
                let cell = row * 3 + col;
                let quad = layer * 6 + cell;
                let left = -24 + 16 * col as i128;
                let top = -16 + 16 * row as i128;
                let depth = if layer == 0 {
                    Ratio { num: 0, den: 1 }
                } else {
                    Ratio { num: 1, den: 2 }
                };
                assert_eq!(mesh.positions[4 * quad], MeshPosition { x: left, y: top, depth });
                assert_eq!(
                    mesh.positions[4 * quad + 3],
                    MeshPosition { x: left + 16, y: top + 16, depth }
                );
                let expected = if layer == 0 {
                    cells[cell].background
                } else {
                    cells[cell].foreground
                };
                assert_eq!(mesh.colors[4 * quad + 2], expected);
                let glyph = if layer == 0 { 219 } else { cells[cell].glyph };
                let tex = back_end.scaler.texture_coords(glyph);
                assert_eq!(mesh.uv[4 * quad + 1], (tex[2], tex[3]));
                let first = 4 * quad as u32;
                assert_eq!(
                    mesh.indices[6 * quad..6 * quad + 6],
                    [first, first + 1, first + 2, first + 3, first + 2, first + 1]
                );
            }
        }
    }
}

#[test]
fn mesh_in_stretch_mode_has_whole_positions_without_seams() {
    let back_end = SimpleBackendWithBackground::new(16, 16, (8, 8), 80, 50);
    let mut scaler = ScreenScaler::new(0);
    scaler.set_screen_size(1280, 720);
    scaler.recalculate((640, 400), (8, 8), TerminalScalingMode::Stretch);
    let mesh = back_end.build_mesh(&grid(4000), &scaler);
    // The second cell of the first row starts where the first one ends.
    assert_eq!(mesh.positions[0].x, -576);
    assert_eq!(mesh.positions[1].x, -562);
    assert_eq!(mesh.positions[4].x, -562);
    assert_eq!(mesh.positions[5].x, -547);
    assert_eq!(mesh.positions[0].y, -360);
    assert_eq!(mesh.positions[2].y, -346);
    // The last cell ends on the far edge of the available area.
    assert_eq!(mesh.positions[4 * 3999 + 3].x, 576);
    assert_eq!(mesh.positions[4 * 3999 + 3].y, 360);
}

#[test]
fn resize_counts_the_whole_cells_that_fit() {
    let mut back_end = SimpleBackendWithBackground::new(16, 16, (8, 16), 80, 50);
    let fit = back_end.resize(&(Ratio { num: 1279, den: 1 }, Ratio { num: 720, den: 1 }));
    assert_eq!(fit, (159, 45));
    assert_eq!((back_end.width, back_end.height), (159, 45));
    let fit = back_end.resize(&(Ratio { num: 2301, den: 2 }, Ratio { num: 15, den: 1 }));
    assert_eq!(fit, (143, 0));
    assert_eq!(back_end.get_pixel_size(), (8, 16));
    assert_eq!(back_end.mesh_handle, None);
}

#[test]
fn resize_rounds_down_below_zero_and_stays_within_the_type() {
    let mut back_end = SimpleBackendWithBackground::new(16, 16, (8, 8), 80, 50);
    let fit = back_end.resize(&(Ratio { num: -1, den: 1 }, Ratio { num: 1 << 64, den: 1 }));
    assert_eq!(fit, (-1, i32::MAX));
}
