use bracket_grid::ratio::{floor_div, floor_div_signed, round_div};
use bracket_grid::scaler::GUTTER_LIMIT;
use bracket_grid::{
    default_gutter_size, FontScaler, Platform, Ratio, ScreenScaler, TerminalScalingMode,
};

fn value(r: Ratio) -> f32 {
    r.num as f32 / r.den as f32
}

fn whole(n: i128) -> Ratio {
    Ratio { num: n, den: 1 }
}

#[test]
fn texture_coords_apply_nudge() {
    let scaler = FontScaler::new(16, 16, (8, 8));
    let coords = scaler.texture_coords(0);
    assert!(value(coords[0]) > 0.0);
    assert!(value(coords[2]) < 1.0);
    assert!(value(coords[2]) > value(coords[0]));
}

#[test]
fn pixel_perfect_scale_factor_creates_integer_steps() {
    let mut scaler = ScreenScaler::new(0);
    scaler.set_screen_size(1920, 1080);
    scaler.recalculate((640, 400), (8, 8), TerminalScalingMode::PixelPerfect);
    assert_eq!(scaler.scale_factor, 2);
    let step = scaler.calc_step(80, 50, (8, 8));
    assert_eq!((value(step.0), value(step.1)), (16.0, 16.0));
    assert_eq!(step, (whole(16), whole(16)));
}

#[test]
fn stretch_mode_preserves_aspect_ratio() {
    let mut scaler = ScreenScaler::new(0);
    scaler.set_screen_size(1280, 720);
    scaler.recalculate((640, 400), (8, 8), TerminalScalingMode::Stretch);
    let step = scaler.calc_step(80, 50, (8, 8));
    assert!((value(step.0) - value(step.1)).abs() < 0.01);
}

#[test]
fn stretch_letterboxes_left_and_right_when_the_viewport_is_wider() {
    let mut scaler = ScreenScaler::new(0);
    scaler.set_screen_size(1280, 720);
    scaler.recalculate((640, 400), (8, 8), TerminalScalingMode::Stretch);
    assert!(!scaler.is_pixel_perfect_mode());
    assert_eq!(scaler.get_scale_factor(), 1);
    // The width that keeps 8:5 at a height of 720 is 1152: 128 are gutter.
    assert_eq!(scaler.x_gutter, Ratio { num: 1280 * 400 - 720 * 640, den: 400 });
    assert_eq!(value(scaler.x_gutter), 128.0);
    assert_eq!(scaler.y_gutter, whole(0));
    let available = scaler.available_size();
    assert_eq!((value(available.0), value(available.1)), (1152.0, 720.0));
    let step = scaler.calc_step(80, 50, (8, 8));
    assert_eq!(step.0.num * step.1.den, step.1.num * step.0.den);
    assert!((value(step.0) - 14.4).abs() < 0.0001);
}

#[test]
fn stretch_letterboxes_top_and_bottom_when_the_viewport_is_taller() {
    let mut scaler = ScreenScaler::new(4);
    scaler.set_screen_size(640, 800);
    scaler.recalculate((640, 400), (8, 8), TerminalScalingMode::Stretch);
    assert_eq!(scaler.y_gutter, Ratio { num: 800 * 640 - 640 * 400, den: 640 });
    assert_eq!(value(scaler.y_gutter), 400.0);
    assert_eq!(scaler.x_gutter, whole(4));
}

#[test]
fn stretch_puts_the_gutter_on_the_height_when_the_ratios_agree() {
    let mut scaler = ScreenScaler::new(6);
    scaler.set_screen_size(1280, 800);
    scaler.recalculate((640, 400), (8, 8), TerminalScalingMode::Stretch);
    assert_eq!(scaler.y_gutter, Ratio { num: 0, den: 640 });
    assert_eq!(scaler.x_gutter, whole(6));
}

#[test]
fn resize_terminals_mode_is_computed_as_stretch() {
    let mut a = ScreenScaler::new(0);
    a.set_screen_size(1000, 300);
    a.recalculate((640, 400), (8, 8), TerminalScalingMode::ResizeTerminals);
    let mut b = ScreenScaler::new(0);
    b.set_screen_size(1000, 300);
    b.recalculate((640, 400), (8, 8), TerminalScalingMode::Stretch);
    assert_eq!((a.x_gutter, a.y_gutter, a.scale_factor), (b.x_gutter, b.y_gutter, b.scale_factor));
    assert!(!a.pixel_perfect_mode);
}

#[test]
fn new_scaler_has_half_the_desired_gutter() {
    let scaler = ScreenScaler::new(2);
    assert_eq!(scaler.screen, (0, 0));
    assert_eq!(scaler.desired_gutter, 2);
    assert_eq!(scaler.x_gutter, Ratio { num: 2, den: 2 });
    assert_eq!(scaler.y_gutter, Ratio { num: 2, den: 2 });
    assert_eq!(scaler.scale_factor, 1);
    assert!(!scaler.pixel_perfect_mode);
}

#[test]
fn set_screen_size_resets_the_gutters() {
    let mut scaler = ScreenScaler::new(3);
    scaler.set_screen_size(1920, 1080);
    scaler.recalculate((640, 400), (8, 8), TerminalScalingMode::PixelPerfect);
    assert_eq!(scaler.x_gutter, whole(640));
    scaler.set_screen_size(800, 600);
    assert_eq!(scaler.screen, (800, 600));
    assert_eq!(scaler.x_gutter, Ratio { num: 3, den: 2 });
    assert_eq!(scaler.y_gutter, Ratio { num: 3, den: 2 });
    assert_eq!(value(scaler.x_gutter), 1.5);
    // Scale and mode stay until the next recalculation.
    assert_eq!(scaler.scale_factor, 2);
    assert!(scaler.pixel_perfect_mode);
}

#[test]
fn pixel_perfect_gutters_letterbox_both_axes() {
    let mut scaler = ScreenScaler::new(0);
    scaler.set_screen_size(1920, 1080);
    scaler.recalculate((640, 400), (8, 8), TerminalScalingMode::PixelPerfect);
    assert!(scaler.is_pixel_perfect_mode());
    assert_eq!(scaler.x_gutter, whole(1920 - 1280));
    assert_eq!(scaler.y_gutter, whole(1080 - 800));
    assert_eq!(scaler.available_size(), (whole(1280), whole(800)));
    assert_eq!(scaler.top_left(), (whole(-640), whole(-400)));
}

#[test]
fn pixel_perfect_scale_is_at_least_one() {
    let mut scaler = ScreenScaler::new(0);
    scaler.set_screen_size(320, 200);
    scaler.recalculate((640, 400), (8, 8), TerminalScalingMode::PixelPerfect);
    assert_eq!(scaler.scale_factor, 1);
    // The content is larger than the viewport: the gutters are negative.
    assert_eq!(scaler.x_gutter, whole(-320));
    assert_eq!(scaler.y_gutter, whole(-200));
    assert_eq!(scaler.calc_step(80, 50, (8, 8)), (whole(8), whole(8)));
}

#[test]
fn pixel_perfect_scale_is_the_smaller_quotient() {
    let mut scaler = ScreenScaler::new(0);
    scaler.set_screen_size(2000, 1300);
    scaler.recalculate((640, 400), (8, 8), TerminalScalingMode::PixelPerfect);
    // 2000 / 640 is 3 and 1300 / 400 is 3; one pixel less in height gives 2.
    assert_eq!(scaler.scale_factor, 3);
    scaler.set_screen_size(2000, 1199);
    scaler.recalculate((640, 400), (8, 8), TerminalScalingMode::PixelPerfect);
    assert_eq!(scaler.scale_factor, 2);
}

#[test]
fn pixel_perfect_scale_stops_at_the_largest_scale() {
    let mut scaler = ScreenScaler::new(0);
    scaler.set_screen_size(u32::MAX, u32::MAX);
    scaler.recalculate((1, 1), (1, 1), TerminalScalingMode::PixelPerfect);
    assert_eq!(scaler.scale_factor, i32::MAX);
    assert!(scaler.x_gutter.num <= GUTTER_LIMIT);
}

#[test]
fn recalculate_twice_changes_nothing() {
    for mode in [
        TerminalScalingMode::Stretch,
        TerminalScalingMode::PixelPerfect,
        TerminalScalingMode::ResizeTerminals,
    ] {
        let mut scaler = ScreenScaler::new(2);
        scaler.set_screen_size(1366, 768);
        scaler.recalculate((640, 400), (8, 8), mode);
        let once = (
            scaler.screen,
            scaler.desired_gutter,
            scaler.x_gutter,
            scaler.y_gutter,
            scaler.scale_factor,
            scaler.pixel_perfect_mode,
        );
        scaler.recalculate((640, 400), (8, 8), mode);
        let twice = (
            scaler.screen,
            scaler.desired_gutter,
            scaler.x_gutter,
            scaler.y_gutter,
            scaler.scale_factor,
            scaler.pixel_perfect_mode,
        );
        assert_eq!(once, twice);
    }
}

#[test]
fn recalculate_does_not_depend_on_the_largest_font() {
    let mut a = ScreenScaler::new(0);
    a.set_screen_size(1283, 727);
    a.recalculate((640, 400), (8, 8), TerminalScalingMode::Stretch);
    let mut b = ScreenScaler::new(0);
    b.set_screen_size(1283, 727);
    b.recalculate((640, 400), (16, 16), TerminalScalingMode::Stretch);
    assert_eq!((a.x_gutter, a.y_gutter), (b.x_gutter, b.y_gutter));
}

#[test]
fn top_left_rounds_a_tie_away_from_zero_in_pixel_perfect_mode() {
    let mut scaler = ScreenScaler::new(0);
    scaler.set_screen_size(10, 10);
    // A grid of 3 by 1 cells of one pixel: the available width is 9, so the
    // unrounded origin is -4.5.
    scaler.recalculate((3, 1), (1, 1), TerminalScalingMode::PixelPerfect);
    assert_eq!(scaler.scale_factor, 3);
    assert_eq!(scaler.available_size(), (whole(9), whole(3)));
    assert_eq!(scaler.top_left(), (whole(-5), whole(-2)));
}

#[test]
fn top_left_is_exact_in_stretch_mode() {
    let mut scaler = ScreenScaler::new(0);
    scaler.set_screen_size(1280, 720);
    scaler.recalculate((640, 400), (8, 8), TerminalScalingMode::Stretch);
    let origin = scaler.top_left();
    assert_eq!(origin.0, Ratio { num: 51200 - 1280 * 400, den: 800 });
    assert_eq!((value(origin.0), value(origin.1)), (-576.0, -360.0));
}

#[test]
fn pixel_perfect_grid_fills_the_available_size() {
    for (screen, grid, font) in [
        ((1920u32, 1080u32), (80i32, 50i32), (8u32, 8u32)),
        ((1000, 700), (7, 3), (9, 16)),
        ((10, 10), (3, 1), (1, 1)),
        ((100, 100), (80, 50), (8, 8)),
    ] {
        let mut scaler = ScreenScaler::new(0);
        scaler.set_screen_size(screen.0, screen.1);
        let content = (grid.0 as u32 * font.0, grid.1 as u32 * font.1);
        scaler.recalculate(content, font, TerminalScalingMode::PixelPerfect);
        let step = scaler.calc_step(grid.0, grid.1, font);
        let available = scaler.available_size();
        let origin = scaler.top_left();
        assert_eq!((step.0.den, step.1.den, available.0.den, available.1.den), (1, 1, 1, 1));
        assert_eq!(grid.0 as i128 * step.0.num, available.0.num);
        assert_eq!(grid.1 as i128 * step.1.num, available.1.num);
        assert_eq!(scaler.edge_x(0, grid.0, font), origin.0.num);
        assert_eq!(scaler.edge_x(grid.0, grid.0, font), origin.0.num + available.0.num);
        assert_eq!(scaler.edge_y(grid.1, grid.1, font), origin.1.num + available.1.num);
    }
}

#[test]
fn the_middle_of_every_cell_maps_back_to_the_cell() {
    for (screen, grid, font) in [
        ((1920u32, 1080u32), (80i32, 50i32), (8u32, 8u32)),
        ((10, 10), (3, 1), (1, 1)),
        ((1000, 700), (7, 3), (9, 15)),
        ((50, 50), (80, 50), (8, 8)),
    ] {
        let mut scaler = ScreenScaler::new(0);
        scaler.set_screen_size(screen.0, screen.1);
        let content = (grid.0 as u32 * font.0, grid.1 as u32 * font.1);
        scaler.recalculate(content, font, TerminalScalingMode::PixelPerfect);
        for row in 0..grid.1 {
            for col in 0..grid.0 {
                let center = scaler.cell_center(col, row, grid.0, grid.1, font);
                assert_eq!(
                    scaler.calc_mouse_position(center, grid.0, grid.1, font),
                    (col, row)
                );
            }
        }
    }
}

#[test]
fn cell_center_is_half_a_step_past_the_edge() {
    let mut scaler = ScreenScaler::new(0);
    scaler.set_screen_size(1920, 1080);
    scaler.recalculate((640, 400), (8, 8), TerminalScalingMode::PixelPerfect);
    let center = scaler.cell_center(2, 1, 80, 50, (8, 8));
    assert_eq!(center.0, Ratio { num: 2 * (-640 + 2 * 16) + 16, den: 2 });
    assert_eq!((value(center.0), value(center.1)), (-600.0, -376.0));
}

#[test]
fn mouse_position_is_limited_to_the_grid() {
    let mut scaler = ScreenScaler::new(0);
    scaler.set_screen_size(1920, 1080);
    scaler.recalculate((640, 400), (8, 8), TerminalScalingMode::PixelPerfect);
    let far = whole(100_000);
    let near = whole(-100_000);
    assert_eq!(scaler.calc_mouse_position((far, far), 80, 50, (8, 8)), (79, 49));
    assert_eq!(scaler.calc_mouse_position((near, near), 80, 50, (8, 8)), (0, 0));
    assert_eq!(scaler.calc_mouse_position((near, far), 80, 50, (8, 8)), (0, 49));
}

#[test]
fn mouse_position_rounds_down_and_rows_grow_with_the_vertical_coordinate() {
    let mut scaler = ScreenScaler::new(0);
    scaler.set_screen_size(1920, 1080);
    scaler.recalculate((640, 400), (8, 8), TerminalScalingMode::PixelPerfect);
    // The pointer at the centre of the viewport is on the corner of four
    // cells and belongs to the one that starts there.
    assert_eq!(scaler.calc_mouse_position((whole(0), whole(0)), 80, 50, (8, 8)), (40, 25));
    let just_below = Ratio { num: -1, den: 256 };
    assert_eq!(
        scaler.calc_mouse_position((just_below, just_below), 80, 50, (8, 8)),
        (39, 24)
    );
    assert_eq!(scaler.calc_mouse_position((whole(15), whole(16)), 80, 50, (8, 8)), (40, 26));
    assert_eq!(scaler.calc_mouse_position((whole(-17), whole(-16)), 80, 50, (8, 8)), (38, 24));
}

#[test]
fn mouse_position_in_stretch_mode_uses_the_fractional_step() {
    let mut scaler = ScreenScaler::new(0);
    scaler.set_screen_size(1280, 720);
    scaler.recalculate((640, 400), (8, 8), TerminalScalingMode::Stretch);
    // The step is 14.4 both ways: 14.5 / 14.4 + 40 is just over 41.
    let p = Ratio { num: 29, den: 2 };
    assert_eq!(scaler.calc_mouse_position((p, p), 80, 50, (8, 8)), (41, 26));
    let q = Ratio { num: 143, den: 10 };
    assert_eq!(scaler.calc_mouse_position((q, q), 80, 50, (8, 8)), (40, 25));
}

#[test]
fn mouse_position_with_a_step_of_zero() {
    // A desired gutter as wide as the viewport leaves nothing available on
    // the axis that is not letterboxed.
    let mut scaler = ScreenScaler::new(100);
    scaler.set_screen_size(100, 1000);
    scaler.recalculate((640, 400), (8, 8), TerminalScalingMode::Stretch);
    assert_eq!(scaler.x_gutter, whole(100));
    let step = scaler.calc_step(80, 50, (8, 8));
    assert_eq!(step.0.num, 0);
    assert_eq!(scaler.calc_mouse_position((whole(5), whole(0)), 80, 50, (8, 8)).0, 79);
    assert_eq!(scaler.calc_mouse_position((whole(0), whole(0)), 80, 50, (8, 8)).0, 0);
    assert_eq!(scaler.calc_mouse_position((whole(-5), whole(0)), 80, 50, (8, 8)).0, 0);
}

#[test]
fn edges_are_rounded_to_whole_pixels_in_stretch_mode() {
    let mut scaler = ScreenScaler::new(0);
    scaler.set_screen_size(1280, 720);
    scaler.recalculate((640, 400), (8, 8), TerminalScalingMode::Stretch);
    // -576 + 14.4 * i, rounded to the nearest whole number.
    assert_eq!(scaler.edge_x(0, 80, (8, 8)), -576);
    assert_eq!(scaler.edge_x(1, 80, (8, 8)), -562);
    assert_eq!(scaler.edge_x(2, 80, (8, 8)), -547);
    assert_eq!(scaler.edge_x(80, 80, (8, 8)), 576);
    assert_eq!(scaler.edge_y(3, 50, (8, 8)), -317);
    assert_eq!(scaler.edge_y(50, 50, (8, 8)), 360);
}

#[test]
fn edges_round_a_tie_away_from_zero() {
    let mut scaler = ScreenScaler::new(0);
    scaler.set_screen_size(9, 3);
    scaler.recalculate((3, 1), (1, 1), TerminalScalingMode::Stretch);
    // The step is 4.5 wide from -4.5: the lines lie at -4.5, 0 and 4.5.
    assert_eq!(scaler.edge_x(0, 2, (1, 1)), -5);
    assert_eq!(scaler.edge_x(1, 2, (1, 1)), 0);
    assert_eq!(scaler.edge_x(2, 2, (1, 1)), 5);
}

#[test]
fn default_gutter_depends_on_the_platform() {
    assert_eq!(default_gutter_size(Platform::Windows), 2);
    assert_eq!(default_gutter_size(Platform::MacOs), 2);
    assert_eq!(default_gutter_size(Platform::Other), 0);
}

#[test]
fn floor_and_round_of_quotients() {
    assert_eq!(floor_div(7, 2), 3);
    assert_eq!(floor_div(-7, 2), -4);
    assert_eq!(floor_div(-8, 2), -4);
    assert_eq!(floor_div_signed(7, -2), -4);
    assert_eq!(floor_div_signed(-7, -2), 3);
    assert_eq!(round_div(7, 2), 4);
    assert_eq!(round_div(-7, 2), -4);
    assert_eq!(round_div(10, 4), 3);
    assert_eq!(round_div(9, 4), 2);
    assert_eq!(round_div(-9, 4), -2);
    assert_eq!(round_div(0, 5), 0);
}

#[test]
fn letterbox_places_the_render_target_in_the_middle() {
    let mut scaler = ScreenScaler::new(0);
    let placement = scaler.letterbox(Some((1920, 1080)), (8, 8));
    assert_eq!(scaler.screen, (1920, 1080));
    assert!(scaler.is_pixel_perfect_mode());
    assert_eq!(scaler.get_scale_factor(), 2);
    assert_eq!(placement.size, (1280, 800));
    assert_eq!(placement.center, (Ratio { num: 0, den: 2 }, Ratio { num: 0, den: 2 }));
    // Without a window the size stored before is used.
    scaler.set_screen_size(700, 1300);
    let placement = scaler.letterbox(None, (8, 8));
    assert_eq!(scaler.get_scale_factor(), 1);
    assert_eq!(placement.size, (640, 400));
    assert_eq!(scaler.top_left(), (whole(-320), whole(-200)));
    assert_eq!(value(placement.center.0), 0.0);
    assert_eq!(value(placement.center.1), 0.0);
    assert_eq!(scaler.y_gutter, whole(900));
}

#[test]
fn stretch_steps_fill_the_available_size() {
    for (screen, gutter) in [((1280u32, 720u32), 0u32), ((1000, 1000), 7), ((333, 777), 2)] {
        let mut scaler = ScreenScaler::new(gutter);
        scaler.set_screen_size(screen.0, screen.1);
        scaler.recalculate((640, 400), (8, 8), TerminalScalingMode::Stretch);
        let step = scaler.calc_step(80, 50, (8, 8));
        let available = scaler.available_size();
        assert_eq!(80 * step.0.num * available.0.den, available.0.num * step.0.den);
        assert_eq!(50 * step.1.num * available.1.den, available.1.num * step.1.den);
    }
}

#[test]
fn stretch_keeps_the_aspect_ratio_of_the_content() {
    for screen in [(1280u32, 720u32), (720, 1280), (641, 400), (640, 401), (1, 1), (5000, 17)] {
        let mut scaler = ScreenScaler::new(0);
        scaler.set_screen_size(screen.0, screen.1);
        scaler.recalculate((640, 400), (8, 8), TerminalScalingMode::Stretch);
        let available = scaler.available_size();
        assert_eq!(
            available.0.num * 400 * available.1.den,
            available.1.num * 640 * available.0.den
        );
        assert!(scaler.x_gutter.num >= 0 && scaler.y_gutter.num >= 0);
    }
}

#[test]
fn a_pointer_inside_the_quad_of_a_cell_maps_to_the_cell() {
    for (screen, grid, font) in [
        ((1920u32, 1080u32), (80i32, 50i32), (8u32, 8u32)),
        ((10, 10), (3, 1), (1, 1)),
        ((1000, 700), (7, 3), (9, 15)),
    ] {
        let mut scaler = ScreenScaler::new(0);
        scaler.set_screen_size(screen.0, screen.1);
        let content = (grid.0 as u32 * font.0, grid.1 as u32 * font.1);
        scaler.recalculate(content, font, TerminalScalingMode::PixelPerfect);
        for row in 0..grid.1 {
            for col in 0..grid.0 {
                let left = scaler.edge_x(col, grid.0, font);
                let right = scaler.edge_x(col + 1, grid.0, font);
                let top = scaler.edge_y(row, grid.1, font);
                let bottom = scaler.edge_y(row + 1, grid.1, font);
                let near = (
                    Ratio { num: 2 * left + 1, den: 2 },
                    Ratio { num: 2 * top + 1, den: 2 },
                );
                let far = (
                    Ratio { num: 256 * right - 1, den: 256 },
                    Ratio { num: 256 * bottom - 1, den: 256 },
                );
                assert_eq!(scaler.calc_mouse_position(near, grid.0, grid.1, font), (col, row));
                assert_eq!(scaler.calc_mouse_position(far, grid.0, grid.1, font), (col, row));
            }
        }
    }
}
