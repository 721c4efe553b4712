//! Viewport scaling: from a physical viewport and a content size to
//! gutters, an integer scale, the origin of the grid and the size of a cell,
//! and from a pointer position back to a cell.
//!
//! Sizes are whole pixels.  Gutters, steps and origins are exact fractions
//! of pixels.  Coordinates have their origin at the centre of the viewport,
//! and a row index grows with the vertical coordinate, as a column index
//! grows with the horizontal one: the mesh builder and the pointer mapping
//! share this one convention.

use vstd::prelude::*;
use crate::ratio::{
    clamp_index, floor_div_signed, floor_quotient, lemma_product_bound, lemma_round_scale,
    round_div, round_half_away, Ratio,
};

verus! {

/// How the content is fitted to the viewport.
#[derive(Clone, Copy, Debug, PartialEq, Eq, Structural)]
pub enum TerminalScalingMode {
    /// Fill the viewport, keeping the content's aspect ratio.
    Stretch,
    /// Scale by a whole factor only.
    PixelPerfect,
    /// Keep the cell size and change the number of cells; the gutters are
    /// computed as for `Stretch`.
    ResizeTerminals,
}

/// The platforms that differ in the margin their windows need.
#[derive(Clone, Copy, Debug, PartialEq, Eq, Structural)]
pub enum Platform {
    Windows,
    MacOs,
    Other,
}

/// The margin, in pixels, that a window of the platform is given by default.
pub fn default_gutter_size(platform: Platform) -> (r: u32)
    ensures
        r == match platform {
            Platform::Windows => 2u32,
            Platform::MacOs => 2u32,
            Platform::Other => 0u32,
        },
{
    match platform {
        Platform::Windows => 2,
        Platform::MacOs => 2,
        Platform::Other => 0,
    }
}

/// Largest magnitude of a gutter's numerator: two to the power 64.
pub const GUTTER_LIMIT: i128 = 0x1_0000_0000_0000_0000;

/// Largest denominator of a pointer coordinate: two to the power 24.
pub const POINTER_DEN_LIMIT: i128 = 0x100_0000;

/// Largest magnitude of the numerator of a pointer coordinate: two to the
/// power 56.
pub const POINTER_NUM_LIMIT: i128 = 0x100_0000_0000_0000;

/// Largest magnitude of a step's numerator: two to the power 66.
pub const STEP_NUM_LIMIT: i128 = 0x4_0000_0000_0000_0000;

/// Largest denominator of a step: two to the power 63.
pub const STEP_DEN_LIMIT: i128 = 0x8000_0000_0000_0000;

/// A gutter as the scaler stores it.
pub open spec fn gutter_wf(g: Ratio) -> bool {
    &&& 0 < g.den <= u32::MAX
    &&& -GUTTER_LIMIT <= g.num <= GUTTER_LIMIT
}

/// A pointer coordinate that `calc_mouse_position` accepts.
pub open spec fn pointer_wf(p: Ratio) -> bool {
    &&& 0 < p.den <= POINTER_DEN_LIMIT
    &&& -POINTER_NUM_LIMIT <= p.num <= POINTER_NUM_LIMIT
}

/// An origin or an available size as the scaler returns it.
pub open spec fn extent_wf(e: Ratio) -> bool {
    &&& 0 < e.den <= 2 * u32::MAX
    &&& -2 * GUTTER_LIMIT <= e.num <= 2 * GUTTER_LIMIT
}

/// A step as `calc_step` returns it.
pub open spec fn step_wf(s: Ratio) -> bool {
    &&& 0 < s.den <= STEP_DEN_LIMIT
    &&& -STEP_NUM_LIMIT <= s.num <= STEP_NUM_LIMIT
}

/// What is left of `screen` pixels beside the gutter.
pub open spec fn axis_available(screen: int, g: Ratio) -> Ratio {
    Ratio { num: (screen * g.den - g.num) as i128, den: g.den }
}

/// Where the grid starts on one axis: `-screen / 2 + gutter / 2`, rounded to
/// the nearest pixel in pixel-perfect mode.
pub open spec fn axis_origin(screen: int, g: Ratio, pixel_perfect: bool) -> Ratio {
    if pixel_perfect {
        Ratio { num: round_half_away(g.num - screen * g.den, 2 * g.den) as i128, den: 1 }
    } else {
        Ratio { num: (g.num - screen * g.den) as i128, den: (2 * g.den) as i128 }
    }
}

/// The size of one cell on one axis: the cell's own size times the scale in
/// pixel-perfect mode, else the available size shared among `count` cells.
pub open spec fn axis_step(
    screen: int,
    g: Ratio,
    scale: int,
    pixel_perfect: bool,
    count: int,
    font: int,
) -> Ratio {
    if pixel_perfect {
        Ratio { num: (font * scale) as i128, den: 1 }
    } else {
        Ratio { num: (screen * g.den - g.num) as i128, den: (g.den * count) as i128 }
    }
}

/// The grid line `i` on one axis: `origin + i * step`, taken as it is in
/// pixel-perfect mode, where it is whole, and rounded to the nearest pixel
/// otherwise.
pub open spec fn axis_edge(origin: Ratio, step: Ratio, pixel_perfect: bool, i: int) -> int {
    if pixel_perfect {
        origin.num + i * step.num
    } else {
        round_half_away(
            origin.num * step.den + i * step.num * origin.den,
            origin.den * step.den,
        )
    }
}

/// The middle of cell `i` on one axis: `origin + i * step + step / 2`, for a
/// whole origin and a whole step.
pub open spec fn axis_center(origin: Ratio, step: Ratio, i: int) -> Ratio {
    Ratio { num: (2 * origin.num + 2 * i * step.num + step.num) as i128, den: 2 }
}

/// The cell under a pointer on one axis: `floor(p / step + count / 2)`,
/// limited to the cells that exist.  Where the step is zero the quotient has
/// no value: a pointer on the positive side then gives the last cell and any
/// other the first.
pub open spec fn axis_cell(p: Ratio, step: Ratio, count: int) -> int {
    if step.num == 0 {
        if p.num > 0 {
            count - 1
        } else {
            0
        }
    } else {
        clamp_index(
            floor_quotient(
                2 * p.num * step.den + count * p.den * step.num,
                2 * p.den * step.num,
            ),
            count,
        )
    }
}

/// The whole factor by which content of size `content` fits a viewport of
/// size `screen`: the smaller of the two quotients, at least one, and no more
/// than the scale's type holds.
pub open spec fn pixel_scale(screen: (u32, u32), content: (u32, u32)) -> int {
    let qx = screen.0 as int / content.0 as int;
    let qy = screen.1 as int / content.1 as int;
    let m = if qx <= qy { qx } else { qy };
    if m < 1 {
        1
    } else if m > i32::MAX {
        i32::MAX as int
    } else {
        m
    }
}

/// The size in pixels of the texture that a terminal is drawn to before the
/// texture is fitted to the window.
pub const RENDER_TARGET_SIZE: (u32, u32) = (640, 400);

/// Where the texture of a terminal is shown in the window: its size on the
/// screen and the position of its middle.
#[derive(Clone, Copy, Debug)]
pub struct LetterboxPlacement {
    pub size: (u64, u64),
    pub center: (Ratio, Ratio),
}

/// The state of the scaler.
#[derive(Clone, Copy, Debug)]
pub struct ScreenScaler {
    /// Physical size of the viewport.
    pub screen: (u32, u32),
    /// Margin asked for where no letterbox is needed.
    pub desired_gutter: u32,
    /// Total horizontal margin: both sides together.
    pub x_gutter: Ratio,
    /// Total vertical margin.
    pub y_gutter: Ratio,
    pub scale_factor: i32,
    pub pixel_perfect_mode: bool,
}

impl ScreenScaler {
    pub open spec fn wf(self) -> bool {
        &&& self.scale_factor >= 1
        &&& gutter_wf(self.x_gutter)
        &&& gutter_wf(self.y_gutter)
    }

    /// Neither gutter is negative.
    pub open spec fn gutters_nonnegative(self) -> bool {
        self.x_gutter.num >= 0 && self.y_gutter.num >= 0
    }

    /// The state for a viewport of the given size before any recalculation:
    /// half the desired gutter on each axis.
    pub open spec fn spec_with_screen(self, width: u32, height: u32) -> ScreenScaler {
        ScreenScaler {
            screen: (width, height),
            desired_gutter: self.desired_gutter,
            x_gutter: Ratio { num: self.desired_gutter as i128, den: 2 },
            y_gutter: Ratio { num: self.desired_gutter as i128, den: 2 },
            scale_factor: self.scale_factor,
            pixel_perfect_mode: self.pixel_perfect_mode,
        }
    }

    /// The state after fitting content of size `content` in whole multiples.
    pub open spec fn spec_pixel_perfect(self, content: (u32, u32)) -> ScreenScaler {
        let scale = pixel_scale(self.screen, content);
        ScreenScaler {
            screen: self.screen,
            desired_gutter: self.desired_gutter,
            x_gutter: Ratio { num: (self.screen.0 - content.0 * scale) as i128, den: 1 },
            y_gutter: Ratio { num: (self.screen.1 - content.1 * scale) as i128, den: 1 },
            scale_factor: scale as i32,
            pixel_perfect_mode: true,
        }
    }

    /// The state after fitting content of size `content` at its own aspect
    /// ratio.  The height that keeps the ratio at full width is
    /// `screen.0 * content.1 / content.0`; where it fits, the rest of the
    /// height is gutter, else the rest of the width is.
    pub open spec fn spec_stretch(self, content: (u32, u32)) -> ScreenScaler {
        if self.screen.0 * content.1 <= self.screen.1 * content.0 {
            ScreenScaler {
                screen: self.screen,
                desired_gutter: self.desired_gutter,
                x_gutter: Ratio { num: self.desired_gutter as i128, den: 1 },
                y_gutter: Ratio {
                    num: (self.screen.1 * content.0 - self.screen.0 * content.1) as i128,
                    den: content.0 as i128,
                },
                scale_factor: 1,
                pixel_perfect_mode: false,
            }
        } else {
            ScreenScaler {
                screen: self.screen,
                desired_gutter: self.desired_gutter,
                x_gutter: Ratio {
                    num: (self.screen.0 * content.1 - self.screen.1 * content.0) as i128,
                    den: content.1 as i128,
                },
                y_gutter: Ratio { num: self.desired_gutter as i128, den: 1 },
                scale_factor: 1,
                pixel_perfect_mode: false,
            }
        }
    }

    /// The state after `recalculate`: it depends on the viewport size and the
    /// desired gutter alone, not on the gutters, scale or mode before.
    pub open spec fn spec_recalculated(
        self,
        content: (u32, u32),
        mode: TerminalScalingMode,
    ) -> ScreenScaler {
        match mode {
            TerminalScalingMode::PixelPerfect => self.spec_pixel_perfect(content),
            _ => self.spec_stretch(content),
        }
    }

    pub open spec fn spec_top_left(self) -> (Ratio, Ratio) {
        (
            axis_origin(self.screen.0 as int, self.x_gutter, self.pixel_perfect_mode),
            axis_origin(self.screen.1 as int, self.y_gutter, self.pixel_perfect_mode),
        )
    }

    pub open spec fn spec_step(self, width: i32, height: i32, font_size: (u32, u32)) -> (
        Ratio,
        Ratio,
    ) {
        (
            axis_step(
                self.screen.0 as int,
                self.x_gutter,
                self.scale_factor as int,
                self.pixel_perfect_mode,
                width as int,
                font_size.0 as int,
            ),
            axis_step(
                self.screen.1 as int,
                self.y_gutter,
                self.scale_factor as int,
                self.pixel_perfect_mode,
                height as int,
                font_size.1 as int,
            ),
        )
    }

    pub open spec fn spec_available_size(self) -> (Ratio, Ratio) {
        (
            axis_available(self.screen.0 as int, self.x_gutter),
            axis_available(self.screen.1 as int, self.y_gutter),
        )
    }

    /// The vertical grid line `i`, of `width + 1`.
    pub open spec fn spec_edge_x(self, i: int, width: i32, font_size: (u32, u32)) -> int {
        axis_edge(
            self.spec_top_left().0,
            self.spec_step(width, 1, font_size).0,
            self.pixel_perfect_mode,
            i,
        )
    }

    /// The horizontal grid line `i`, of `height + 1`.
    pub open spec fn spec_edge_y(self, i: int, height: i32, font_size: (u32, u32)) -> int {
        axis_edge(
            self.spec_top_left().1,
            self.spec_step(1, height, font_size).1,
            self.pixel_perfect_mode,
            i,
        )
    }

    /// The middle of the cell in column `col` and row `row`.
    pub open spec fn spec_cell_center(
        self,
        col: i32,
        row: i32,
        width: i32,
        height: i32,
        font_size: (u32, u32),
    ) -> (Ratio, Ratio) {
        (
            axis_center(self.spec_top_left().0, self.spec_step(width, height, font_size).0, col as int),
            axis_center(self.spec_top_left().1, self.spec_step(width, height, font_size).1, row as int),
        )
    }

    /// The cell under a pointer, as column and row.
    pub open spec fn spec_mouse_position(
        self,
        pos: (Ratio, Ratio),
        width: i32,
        height: i32,
        font_size: (u32, u32),
    ) -> (int, int) {
        (
            axis_cell(pos.0, self.spec_step(width, height, font_size).0, width as int),
            axis_cell(pos.1, self.spec_step(width, height, font_size).1, height as int),
        )
    }

    /// The placement of the render target under this state: the target
    /// scaled by the whole factor, its middle half its size past the origin.
    pub open spec fn spec_placement(self) -> LetterboxPlacement {
        let width = RENDER_TARGET_SIZE.0 * self.scale_factor;
        let height = RENDER_TARGET_SIZE.1 * self.scale_factor;
        LetterboxPlacement {
            size: (width as u64, height as u64),
            center: (
                Ratio { num: (2 * self.spec_top_left().0.num + width) as i128, den: 2 },
                Ratio { num: (2 * self.spec_top_left().1.num + height) as i128, den: 2 },
            ),
        }
    }

    /// A scaler for a viewport whose size is not known yet.
    pub fn new(desired_gutter: u32) -> (r: Self)
        ensures
            r.wf(),
            r.gutters_nonnegative(),
            r == (ScreenScaler {
                screen: (0u32, 0u32),
                desired_gutter,
                x_gutter: Ratio { num: desired_gutter as i128, den: 2 },
                y_gutter: Ratio { num: desired_gutter as i128, den: 2 },
                scale_factor: 1,
                pixel_perfect_mode: false,
            }),
    {
        Self {
            screen: (0, 0),
            desired_gutter,
            x_gutter: Ratio { num: desired_gutter as i128, den: 2 },
            y_gutter: Ratio { num: desired_gutter as i128, den: 2 },
            scale_factor: 1,
            pixel_perfect_mode: false,
        }
    }

    /// Stores the viewport size and resets both gutters to half the desired
    /// gutter, the neutral value until the next `recalculate`.
    pub fn set_screen_size(&mut self, width: u32, height: u32)
        requires
            old(self).wf(),
        ensures
            final(self).wf(),
            final(self).gutters_nonnegative(),
            *final(self) == old(self).spec_with_screen(width, height),
    {
        self.screen = (width, height);
        self.x_gutter = Ratio { num: self.desired_gutter as i128, den: 2 };
        self.y_gutter = Ratio { num: self.desired_gutter as i128, den: 2 };
    }

    /// Computes gutters, scale and mode anew for content of the given size.
    /// `PixelPerfect` scales by the largest whole factor that fits, at least
    /// one, and puts the rest into the gutters of both axes; every other mode
    /// keeps the content's aspect ratio at scale one and letterboxes one
    /// axis.  The result does not depend on `largest_font`, nor on the
    /// gutters before the call, so a second call with the same arguments
    /// changes nothing.  The gutters are not negative, unless the content is
    /// larger than the viewport in pixel-perfect mode.
    pub fn recalculate(
        &mut self,
        terminal_pixel_size: (u32, u32),
        largest_font: (u32, u32),
        scaling_mode: TerminalScalingMode,
    )
        requires
            old(self).wf(),
            terminal_pixel_size.0 >= 1,
            terminal_pixel_size.1 >= 1,
        ensures
            final(self).wf(),
            *final(self) == old(self).spec_recalculated(terminal_pixel_size, scaling_mode),
            scaling_mode != TerminalScalingMode::PixelPerfect ==> final(self).gutters_nonnegative(),
            scaling_mode == TerminalScalingMode::PixelPerfect ==> (final(self).gutters_nonnegative()
                <==> terminal_pixel_size.0 <= old(self).screen.0 && terminal_pixel_size.1 <= old(
                self,
            ).screen.1),
    {
        match scaling_mode {
            TerminalScalingMode::PixelPerfect => {
                self.pixel_perfect_mode = true;
                self.recalculate_pixel_perfect(terminal_pixel_size);
            },
            _ => {
                self.pixel_perfect_mode = false;
                self.scale_factor = 1;
                let sw: i128 = self.screen.0 as i128;
                let sh: i128 = self.screen.1 as i128;
                let cw: i128 = terminal_pixel_size.0 as i128;
                let ch: i128 = terminal_pixel_size.1 as i128;
                proof {
                    lemma_product_bound(sw as int, ch as int, u32::MAX as int, u32::MAX as int);
                    lemma_product_bound(sh as int, cw as int, u32::MAX as int, u32::MAX as int);
                }
                if sw * ch <= sh * cw {
                    self.y_gutter = Ratio { num: sh * cw - sw * ch, den: cw };
                    self.x_gutter = Ratio { num: self.desired_gutter as i128, den: 1 };
                } else {
                    self.x_gutter = Ratio { num: sw * ch - sh * cw, den: ch };
                    self.y_gutter = Ratio { num: self.desired_gutter as i128, den: 1 };
                }
            },
        }
    }

    /// The pixel-perfect part of `recalculate`: scale and gutters.
    pub fn recalculate_pixel_perfect(&mut self, terminal_pixel_size: (u32, u32))
        requires
            terminal_pixel_size.0 >= 1,
            terminal_pixel_size.1 >= 1,
        ensures
            final(self).wf(),
            final(self).screen == old(self).screen,
            final(self).desired_gutter == old(self).desired_gutter,
            final(self).pixel_perfect_mode == old(self).pixel_perfect_mode,
            final(self).scale_factor == pixel_scale(old(self).screen, terminal_pixel_size),
            final(self).x_gutter == old(self).spec_pixel_perfect(terminal_pixel_size).x_gutter,
            final(self).y_gutter == old(self).spec_pixel_perfect(terminal_pixel_size).y_gutter,
            final(self).gutters_nonnegative() <==> terminal_pixel_size.0 <= old(self).screen.0
                && terminal_pixel_size.1 <= old(self).screen.1,
    {
        let max_scale_x: u32 = self.screen.0 / terminal_pixel_size.0;
        let max_scale_y: u32 = self.screen.1 / terminal_pixel_size.1;
        let smaller: u32 = if max_scale_x <= max_scale_y {
            max_scale_x
        } else {
            max_scale_y
        };
        let scale: i32 = if smaller < 1 {
            1
        } else if smaller > 0x7fff_ffff {
            0x7fff_ffff
        } else {
            smaller as i32
        };
        self.scale_factor = scale;
        proof {
            let sw = self.screen.0 as int;
            let sh = self.screen.1 as int;
            let cw = terminal_pixel_size.0 as int;
            let ch = terminal_pixel_size.1 as int;
            let k = scale as int;
            lemma_product_bound(cw, k, u32::MAX as int, i32::MAX as int);
            lemma_product_bound(ch, k, u32::MAX as int, i32::MAX as int);
            assert(cw * k >= cw) by (nonlinear_arith)
                requires
                    cw >= 1,
                    k >= 1,
            ;
            assert(ch * k >= ch) by (nonlinear_arith)
                requires
                    ch >= 1,
                    k >= 1,
            ;
            if cw <= sw && ch <= sh {
                assert(sw / cw >= 1 && cw * (sw / cw) <= sw) by (nonlinear_arith)
                    requires
                        1 <= cw <= sw,
                ;
                assert(sh / ch >= 1 && ch * (sh / ch) <= sh) by (nonlinear_arith)
                    requires
                        1 <= ch <= sh,
                ;
                assert(cw * k <= cw * (sw / cw)) by (nonlinear_arith)
                    requires
                        cw >= 1,
                        k <= sw / cw,
                ;
                assert(ch * k <= ch * (sh / ch)) by (nonlinear_arith)
                    requires
                        ch >= 1,
                        k <= sh / ch,
                ;
            }
        }
        let scaled_terminal_width: i128 = terminal_pixel_size.0 as i128 * scale as i128;
        let scaled_terminal_height: i128 = terminal_pixel_size.1 as i128 * scale as i128;
        self.x_gutter = Ratio { num: self.screen.0 as i128 - scaled_terminal_width, den: 1 };
        self.y_gutter = Ratio { num: self.screen.1 as i128 - scaled_terminal_height, den: 1 };
    }

    /// Fits the render target to the window in whole multiples and says
    /// where to show it.  Where the size of the window is known it is stored
    /// first; then the state is recalculated in pixel-perfect mode for the
    /// render target, and the placement is taken from the new state.
    pub fn letterbox(&mut self, window_size: Option<(u32, u32)>, largest_font: (u32, u32)) -> (r:
        LetterboxPlacement)
        requires
            old(self).wf(),
        ensures
            final(self).wf(),
            *final(self) == (match window_size {
                Some(size) => old(self).spec_with_screen(size.0, size.1),
                None => *old(self),
            }).spec_recalculated(RENDER_TARGET_SIZE, TerminalScalingMode::PixelPerfect),
            r == final(self).spec_placement(),
    {
        match window_size {
            Some(size) => {
                self.set_screen_size(size.0, size.1);
            },
            None => {},
        }
        self.recalculate(RENDER_TARGET_SIZE, largest_font, TerminalScalingMode::PixelPerfect);
        let scale: u64 = self.scale_factor as u64;
        let width: u64 = RENDER_TARGET_SIZE.0 as u64 * scale;
        let height: u64 = RENDER_TARGET_SIZE.1 as u64 * scale;
        let origin = self.top_left();
        LetterboxPlacement {
            size: (width, height),
            center: (
                Ratio { num: 2 * origin.0.num + width as i128, den: 2 },
                Ratio { num: 2 * origin.1.num + height as i128, den: 2 },
            ),
        }
    }

    pub fn is_pixel_perfect_mode(&self) -> (r: bool)
        ensures
            r == self.pixel_perfect_mode,
    {
        self.pixel_perfect_mode
    }

    pub fn get_scale_factor(&self) -> (r: i32)
        ensures
            r == self.scale_factor,
    {
        self.scale_factor
    }

    /// Where the grid starts: `-screen / 2 + gutter / 2` on each axis, which
    /// centres the available area in the viewport.  In pixel-perfect mode
    /// both coordinates are rounded to the nearest pixel, a tie going away
    /// from zero, so that the grid lies on the pixel grid.
    pub fn top_left(&self) -> (r: (Ratio, Ratio))
        requires
            self.wf(),
        ensures
            r == self.spec_top_left(),
            extent_wf(r.0) && extent_wf(r.1),
            self.pixel_perfect_mode ==> r.0.is_whole() && r.1.is_whole(),
    {
        (
            origin_on(self.screen.0, self.x_gutter, self.pixel_perfect_mode),
            origin_on(self.screen.1, self.y_gutter, self.pixel_perfect_mode),
        )
    }

    /// The size of one cell of a `width` by `height` grid: in pixel-perfect
    /// mode the cell's own size times the scale, a whole number of pixels;
    /// otherwise the available size divided by the number of cells.
    pub fn calc_step(&self, width: i32, height: i32, font_size: (u32, u32)) -> (r: (Ratio, Ratio))
        requires
            self.wf(),
            width >= 1,
            height >= 1,
        ensures
            r == self.spec_step(width, height, font_size),
            step_wf(r.0) && step_wf(r.1),
            self.pixel_perfect_mode ==> r.0.is_whole() && r.1.is_whole(),
    {
        (
            step_on(
                self.screen.0,
                self.x_gutter,
                self.scale_factor,
                self.pixel_perfect_mode,
                width,
                font_size.0,
            ),
            step_on(
                self.screen.1,
                self.y_gutter,
                self.scale_factor,
                self.pixel_perfect_mode,
                height,
                font_size.1,
            ),
        )
    }

    /// The viewport less the gutters.
    pub fn available_size(&self) -> (r: (Ratio, Ratio))
        requires
            self.wf(),
        ensures
            r == self.spec_available_size(),
            extent_wf(r.0) && extent_wf(r.1),
    {
        (available_on(self.screen.0, self.x_gutter), available_on(self.screen.1, self.y_gutter))
    }

    /// Horizontal position of the grid line left of column `i`, which is
    /// also the one right of column `i - 1`.
    pub fn edge_x(&self, i: i32, width: i32, font_size: (u32, u32)) -> (r: i128)
        requires
            self.wf(),
            width >= 1,
            0 <= i <= width,
        ensures
            r == self.spec_edge_x(i as int, width, font_size),
    {
        edge_on(
            self.screen.0,
            self.x_gutter,
            self.scale_factor,
            self.pixel_perfect_mode,
            width,
            font_size.0,
            i,
        )
    }

    /// Vertical position of the grid line below row `i`, which is also the
    /// one above row `i - 1`.
    pub fn edge_y(&self, i: i32, height: i32, font_size: (u32, u32)) -> (r: i128)
        requires
            self.wf(),
            height >= 1,
            0 <= i <= height,
        ensures
            r == self.spec_edge_y(i as int, height, font_size),
    {
        edge_on(
            self.screen.1,
            self.y_gutter,
            self.scale_factor,
            self.pixel_perfect_mode,
            height,
            font_size.1,
            i,
        )
    }

    /// The middle of a cell in pixel-perfect mode, in the coordinates that
    /// `calc_mouse_position` takes.
    pub fn cell_center(
        &self,
        col: i32,
        row: i32,
        width: i32,
        height: i32,
        font_size: (u32, u32),
    ) -> (r: (Ratio, Ratio))
        requires
            self.wf(),
            self.pixel_perfect_mode,
            0 <= col < width,
            0 <= row < height,
        ensures
            r == self.spec_cell_center(col, row, width, height, font_size),
            r.0.wf() && r.1.wf(),
    {
        let origin = self.top_left();
        let step = self.calc_step(width, height, font_size);
        (center_on(origin.0, step.0, col), center_on(origin.1, step.1, row))
    }

    /// The cell under a pointer.  The pointer is given relative to the
    /// centre of the viewport, in the coordinates of `top_left`.  On each
    /// axis the position is divided by the step, moved by half the number of
    /// cells, rounded down and limited to the cells of the grid.
    pub fn calc_mouse_position(
        &self,
        pos: (Ratio, Ratio),
        width: i32,
        height: i32,
        font_size: (u32, u32),
    ) -> (r: (i32, i32))
        requires
            self.wf(),
            width >= 1,
            height >= 1,
            pointer_wf(pos.0),
            pointer_wf(pos.1),
        ensures
            r.0 == self.spec_mouse_position(pos, width, height, font_size).0,
            r.1 == self.spec_mouse_position(pos, width, height, font_size).1,
            0 <= r.0 < width,
            0 <= r.1 < height,
    {
        let step = self.calc_step(width, height, font_size);
        (cell_on(pos.0, step.0, width), cell_on(pos.1, step.1, height))
    }
}

fn available_on(screen: u32, g: Ratio) -> (r: Ratio)
    requires
        gutter_wf(g),
    ensures
        r == axis_available(screen as int, g),
        extent_wf(r),
{
    proof {
        lemma_product_bound(screen as int, g.den as int, u32::MAX as int, u32::MAX as int);
    }
    Ratio { num: screen as i128 * g.den - g.num, den: g.den }
}

fn origin_on(screen: u32, g: Ratio, pixel_perfect: bool) -> (r: Ratio)
    requires
        gutter_wf(g),
    ensures
        r == axis_origin(screen as int, g, pixel_perfect),
        extent_wf(r),
        pixel_perfect ==> r.den == 1,
        !pixel_perfect ==> r.den == 2 * g.den,
{
    proof {
        lemma_product_bound(screen as int, g.den as int, u32::MAX as int, u32::MAX as int);
    }
    let n: i128 = g.num - screen as i128 * g.den;
    let d: i128 = 2 * g.den;
    if pixel_perfect {
        let q = round_div(n, d);
        proof {
            lemma_round_bound(n as int, d as int, 2 * GUTTER_LIMIT as int);
        }
        Ratio { num: q, den: 1 }
    } else {
        Ratio { num: n, den: d }
    }
}

fn step_on(screen: u32, g: Ratio, scale: i32, pixel_perfect: bool, count: i32, font: u32) -> (r:
    Ratio)
    requires
        gutter_wf(g),
        scale >= 1,
        count >= 1,
    ensures
        r == axis_step(screen as int, g, scale as int, pixel_perfect, count as int, font as int),
        step_wf(r),
        pixel_perfect ==> r.den == 1,
{
    if pixel_perfect {
        proof {
            lemma_product_bound(font as int, scale as int, u32::MAX as int, i32::MAX as int);
        }
        Ratio { num: font as i128 * scale as i128, den: 1 }
    } else {
        proof {
            lemma_product_bound(screen as int, g.den as int, u32::MAX as int, u32::MAX as int);
            lemma_product_bound(g.den as int, count as int, u32::MAX as int, i32::MAX as int);
            assert(g.den * count >= 1) by (nonlinear_arith)
                requires
                    g.den >= 1,
                    count >= 1,
            ;
        }
        Ratio { num: screen as i128 * g.den - g.num, den: g.den * count as i128 }
    }
}

fn edge_on(
    screen: u32,
    g: Ratio,
    scale: i32,
    pixel_perfect: bool,
    count: i32,
    font: u32,
    i: i32,
) -> (r: i128)
    requires
        gutter_wf(g),
        scale >= 1,
        count >= 1,
        0 <= i <= count,
    ensures
        r == axis_edge(
            axis_origin(screen as int, g, pixel_perfect),
            axis_step(screen as int, g, scale as int, pixel_perfect, count as int, font as int),
            pixel_perfect,
            i as int,
        ),
{
    if pixel_perfect {
        let origin = origin_on(screen, g, true);
        let step = step_on(screen, g, scale, true, count, font);
        proof {
            lemma_product_bound(i as int, step.num as int, i32::MAX as int, STEP_NUM_LIMIT as int);
        }
        origin.num + i as i128 * step.num
    } else {
        let avail: i128 = available_on(screen, g).num;
        let span: i128 = 2 * i as i128 - count as i128;
        proof {
            let a = avail as int;
            let gd = g.den as int;
            let c = count as int;
            let k = i as int;
            lemma_product_bound(screen as int, gd, u32::MAX as int, u32::MAX as int);
            lemma_product_bound(a, span as int, 2 * GUTTER_LIMIT as int, i32::MAX as int);
            lemma_product_bound(gd, c, u32::MAX as int, i32::MAX as int);
            assert(gd * c >= 1) by (nonlinear_arith)
                requires
                    gd >= 1,
                    c >= 1,
            ;
            lemma_round_scale(a * (2 * k - c), 2 * (gd * c), gd);
            assert((-a) * (gd * c) + k * a * (2 * gd) == gd * (a * (2 * k - c)))
                by (nonlinear_arith);
            assert((2 * gd) * (gd * c) == gd * (2 * (gd * c))) by (nonlinear_arith);
        }
        round_div(avail * span, 2 * (g.den * count as i128))
    }
}

fn center_on(origin: Ratio, step: Ratio, i: i32) -> (r: Ratio)
    requires
        extent_wf(origin),
        step_wf(step),
        i >= 0,
    ensures
        r == axis_center(origin, step, i as int),
        r.wf(),
{
    proof {
        lemma_product_bound(i as int, step.num as int, i32::MAX as int, STEP_NUM_LIMIT as int);
        assert(2 * i * step.num == 2 * (i * step.num)) by (nonlinear_arith);
    }
    Ratio { num: 2 * origin.num + 2 * (i as i128 * step.num) + step.num, den: 2 }
}

fn cell_on(p: Ratio, step: Ratio, count: i32) -> (r: i32)
    requires
        pointer_wf(p),
        step_wf(step),
        count >= 1,
    ensures
        r == axis_cell(p, step, count as int),
        0 <= r < count,
{
    if step.num == 0 {
        if p.num > 0 {
            count - 1
        } else {
            0
        }
    } else {
        proof {
            lemma_product_bound(
                p.num as int,
                step.den as int,
                POINTER_NUM_LIMIT as int,
                STEP_DEN_LIMIT as int,
            );
            lemma_product_bound(
                p.den as int,
                step.num as int,
                POINTER_DEN_LIMIT as int,
                STEP_NUM_LIMIT as int,
            );
            lemma_product_bound(
                count as int,
                p.den as int * step.num as int,
                i32::MAX as int,
                POINTER_DEN_LIMIT as int * STEP_NUM_LIMIT as int,
            );
            assert(p.den * step.num != 0) by (nonlinear_arith)
                requires
                    p.den > 0,
                    step.num != 0,
            ;
            assert(2 * p.num * step.den == 2 * (p.num * step.den)) by (nonlinear_arith);
            assert(count * p.den * step.num == count * (p.den * step.num)) by (nonlinear_arith);
            assert(2 * p.den * step.num == 2 * (p.den * step.num)) by (nonlinear_arith);
        }
        let cross: i128 = p.den * step.num;
        let n: i128 = 2 * (p.num * step.den) + count as i128 * cross;
        let d: i128 = 2 * cross;
        let q: i128 = floor_div_signed(n, d);
        if q < 0 {
            0
        } else if q > (count - 1) as i128 {
            count - 1
        } else {
            q as i32
        }
    }
}

/// Rounding a fraction with a denominator of at least one does not leave
/// the bounds of its numerator.
proof fn lemma_round_bound(n: int, d: int, bound: int)
    requires
        d >= 1,
        -bound <= n <= bound,
    ensures
        -bound <= round_half_away(n, d) <= bound,
{
    if n >= 0 {
        assert(0 <= (2 * n + d) / (2 * d) <= n) by (nonlinear_arith)
            requires
                n >= 0,
                d >= 1,
        ;
    } else {
        assert(0 <= (2 * (-n) + d) / (2 * d) <= -n) by (nonlinear_arith)
            requires
                n < 0,
                d >= 1,
        ;
    }
}

/// The size in pixels of a grid of `width` by `height` cells of size
/// `font_size`.
pub open spec fn grid_pixel_size(width: i32, height: i32, font_size: (u32, u32)) -> (u32, u32) {
    ((width * font_size.0) as u32, (height * font_size.1) as u32)
}

/// A grid with at least one cell each way, cells of at least one pixel each
/// way, and a size in pixels that its type holds.
pub open spec fn grid_wf(width: i32, height: i32, font_size: (u32, u32)) -> bool {
    &&& width >= 1
    &&& height >= 1
    &&& font_size.0 >= 1
    &&& font_size.1 >= 1
    &&& width * font_size.0 <= u32::MAX
    &&& height * font_size.1 <= u32::MAX
}

/// A second `recalculate` with the same arguments changes nothing.
pub proof fn lemma_recalculate_idempotent(
    scaler: ScreenScaler,
    content: (u32, u32),
    mode: TerminalScalingMode,
)
    ensures
        scaler.spec_recalculated(content, mode).spec_recalculated(content, mode)
            == scaler.spec_recalculated(content, mode),
{
}

/// After a pixel-perfect recalculation for the pixel size of a grid, the
/// grid covers the available area with nothing left over: origin, step and
/// available size are whole, `width` steps are the available width and
/// `height` steps the available height, and the grid lines run from the
/// origin to the origin plus the available size.
pub proof fn lemma_pixel_perfect_fills_available(
    before: ScreenScaler,
    width: i32,
    height: i32,
    font_size: (u32, u32),
)
    requires
        grid_wf(width, height, font_size),
    ensures
        ({
            let scaler = before.spec_recalculated(
                grid_pixel_size(width, height, font_size),
                TerminalScalingMode::PixelPerfect,
            );
            let origin = scaler.spec_top_left();
            let step = scaler.spec_step(width, height, font_size);
            let available = scaler.spec_available_size();
            &&& scaler.wf()
            &&& origin.0.is_whole() && origin.1.is_whole()
            &&& step.0.is_whole() && step.1.is_whole()
            &&& available.0.is_whole() && available.1.is_whole()
            &&& width * step.0.num == available.0.num
            &&& height * step.1.num == available.1.num
            &&& scaler.spec_edge_x(0, width, font_size) == origin.0.num
            &&& scaler.spec_edge_y(0, height, font_size) == origin.1.num
            &&& scaler.spec_edge_x(width as int, width, font_size) == origin.0.num
                + available.0.num
            &&& scaler.spec_edge_y(height as int, height, font_size) == origin.1.num
                + available.1.num
        }),
{
    let content = grid_pixel_size(width, height, font_size);
    let scale = pixel_scale(before.screen, content);
    lemma_axis_fills(before.screen.0 as int, scale, width as int, font_size.0 as int);
    lemma_axis_fills(before.screen.1 as int, scale, height as int, font_size.1 as int);
}

/// Outside pixel-perfect mode the cells of a grid fill the available area
/// exactly as well: `width` steps have the value of the available width and
/// `height` steps that of the available height.
pub proof fn lemma_stretch_fills_available(
    scaler: ScreenScaler,
    width: i32,
    height: i32,
    font_size: (u32, u32),
)
    requires
        scaler.wf(),
        !scaler.pixel_perfect_mode,
        width >= 1,
        height >= 1,
    ensures
        ({
            let step = scaler.spec_step(width, height, font_size);
            let available = scaler.spec_available_size();
            &&& (Ratio { num: (width * step.0.num) as i128, den: step.0.den }).same_value(
                available.0,
            )
            &&& (Ratio { num: (height * step.1.num) as i128, den: step.1.den }).same_value(
                available.1,
            )
        }),
{
    lemma_axis_stretch_fills(scaler.screen.0 as int, scaler.x_gutter, width as int);
    lemma_axis_stretch_fills(scaler.screen.1 as int, scaler.y_gutter, height as int);
}

/// One axis of `lemma_stretch_fills_available`.
proof fn lemma_axis_stretch_fills(screen: int, g: Ratio, count: int)
    requires
        0 <= screen <= u32::MAX,
        gutter_wf(g),
        1 <= count <= i32::MAX,
    ensures
        ({
            let step = axis_step(screen, g, 1, false, count, 1);
            let available = axis_available(screen, g);
            (Ratio { num: (count * step.num) as i128, den: step.den }).same_value(available)
        }),
{
    let a = screen * g.den - g.num;
    let d = g.den as int;
    lemma_product_bound(screen, d, u32::MAX as int, u32::MAX as int);
    lemma_product_bound(d, count, u32::MAX as int, i32::MAX as int);
    lemma_product_bound(count, a, i32::MAX as int, 2 * GUTTER_LIMIT as int);
    assert(d * count >= 1) by (nonlinear_arith)
        requires
            d >= 1,
            count >= 1,
    ;
    assert((count * a) * d == a * (d * count)) by (nonlinear_arith);
}

/// With no desired gutter, every mode but pixel-perfect keeps the aspect
/// ratio of the content: the available width is to the available height as
/// the content's width is to its height.
pub proof fn lemma_stretch_keeps_aspect_ratio(
    before: ScreenScaler,
    content: (u32, u32),
    mode: TerminalScalingMode,
)
    requires
        before.desired_gutter == 0,
        mode != TerminalScalingMode::PixelPerfect,
        content.0 >= 1,
        content.1 >= 1,
    ensures
        ({
            let available = before.spec_recalculated(content, mode).spec_available_size();
            available.0.num * content.1 * available.1.den == available.1.num * content.0
                * available.0.den
        }),
{
    let sw = before.screen.0 as int;
    let sh = before.screen.1 as int;
    let cw = content.0 as int;
    let ch = content.1 as int;
    lemma_product_bound(sw, ch, u32::MAX as int, u32::MAX as int);
    lemma_product_bound(sh, cw, u32::MAX as int, u32::MAX as int);
    let available = before.spec_recalculated(content, mode).spec_available_size();
    if sw * ch <= sh * cw {
        assert(available.0 == Ratio { num: sw as i128, den: 1 });
        assert(available.1.num == sw * ch);
        assert(available.1.den == cw);
        assert(sw * ch * cw == (sw * ch) * cw * 1) by (nonlinear_arith);
    } else {
        assert(available.1 == Ratio { num: sh as i128, den: 1 });
        assert(available.0.num == sh * cw);
        assert(available.0.den == ch);
        assert((sh * cw) * ch * 1 == sh * cw * ch) by (nonlinear_arith);
    }
}

/// After a pixel-perfect recalculation for the pixel size of a grid, the
/// middle of every cell is mapped back to that cell.
pub proof fn lemma_pixel_perfect_round_trip(
    before: ScreenScaler,
    width: i32,
    height: i32,
    font_size: (u32, u32),
    col: i32,
    row: i32,
)
    requires
        grid_wf(width, height, font_size),
        0 <= col < width,
        0 <= row < height,
    ensures
        ({
            let scaler = before.spec_recalculated(
                grid_pixel_size(width, height, font_size),
                TerminalScalingMode::PixelPerfect,
            );
            let center = scaler.spec_cell_center(col, row, width, height, font_size);
            &&& scaler.wf()
            &&& pointer_wf(center.0) && pointer_wf(center.1)
            &&& scaler.spec_mouse_position(center, width, height, font_size) == (
                col as int,
                row as int,
            )
        }),
{
    let content = grid_pixel_size(width, height, font_size);
    let scale = pixel_scale(before.screen, content);
    lemma_axis_fills(before.screen.0 as int, scale, width as int, font_size.0 as int);
    lemma_axis_fills(before.screen.1 as int, scale, height as int, font_size.1 as int);
    assert(width * font_size.0 >= 1 && height * font_size.1 >= 1) by (nonlinear_arith)
        requires
            width >= 1,
            height >= 1,
            font_size.0 >= 1,
            font_size.1 >= 1,
    ;
    lemma_scaled_content_fits(before.screen, content);
    lemma_axis_round_trip(
        before.screen.0 as int,
        scale,
        width as int,
        font_size.0 as int,
        col as int,
    );
    lemma_axis_round_trip(
        before.screen.1 as int,
        scale,
        height as int,
        font_size.1 as int,
        row as int,
    );
}

/// After a pixel-perfect recalculation for the pixel size of a grid, a
/// pointer inside the quad of a cell is mapped to that cell: every position
/// from half a pixel past the near grid lines of the cell up to its far grid
/// lines, these excluded.  The half pixel is what rounding the origin may
/// move the grid by.
pub proof fn lemma_pixel_perfect_pointer_in_cell(
    before: ScreenScaler,
    width: i32,
    height: i32,
    font_size: (u32, u32),
    col: i32,
    row: i32,
    pos: (Ratio, Ratio),
)
    requires
        grid_wf(width, height, font_size),
        0 <= col < width,
        0 <= row < height,
        pos.0.den > 0,
        pos.1.den > 0,
        ({
            let scaler = before.spec_recalculated(
                grid_pixel_size(width, height, font_size),
                TerminalScalingMode::PixelPerfect,
            );
            &&& (2 * scaler.spec_edge_x(col as int, width, font_size) + 1) * pos.0.den <= 2
                * pos.0.num
            &&& pos.0.num < scaler.spec_edge_x(col + 1, width, font_size) * pos.0.den
            &&& (2 * scaler.spec_edge_y(row as int, height, font_size) + 1) * pos.1.den <= 2
                * pos.1.num
            &&& pos.1.num < scaler.spec_edge_y(row + 1, height, font_size) * pos.1.den
        }),
    ensures
        before.spec_recalculated(
            grid_pixel_size(width, height, font_size),
            TerminalScalingMode::PixelPerfect,
        ).spec_mouse_position(pos, width, height, font_size) == (col as int, row as int),
{
    let content = grid_pixel_size(width, height, font_size);
    let scale = pixel_scale(before.screen, content);
    assert(width * font_size.0 >= 1 && height * font_size.1 >= 1) by (nonlinear_arith)
        requires
            width >= 1,
            height >= 1,
            font_size.0 >= 1,
            font_size.1 >= 1,
    ;
    lemma_scaled_content_fits(before.screen, content);
    lemma_axis_pointer_in_cell(
        before.screen.0 as int,
        scale,
        width as int,
        font_size.0 as int,
        col as int,
        pos.0,
    );
    lemma_axis_pointer_in_cell(
        before.screen.1 as int,
        scale,
        height as int,
        font_size.1 as int,
        row as int,
        pos.1,
    );
}

/// One axis of `lemma_pixel_perfect_pointer_in_cell`.
proof fn lemma_axis_pointer_in_cell(
    screen: int,
    scale: int,
    count: int,
    font: int,
    i: int,
    p: Ratio,
)
    requires
        0 <= screen <= u32::MAX,
        1 <= scale <= i32::MAX,
        1 <= count <= i32::MAX,
        1 <= font <= u32::MAX,
        count * font <= u32::MAX,
        count * font * scale <= u32::MAX,
        0 <= i < count,
        p.den > 0,
        ({
            let g = Ratio { num: (screen - ((count * font) as u32) * scale) as i128, den: 1 };
            let origin = axis_origin(screen, g, true);
            let step = axis_step(screen, g, scale, true, count, font);
            &&& (2 * axis_edge(origin, step, true, i) + 1) * p.den <= 2 * p.num
            &&& p.num < axis_edge(origin, step, true, i + 1) * p.den
        }),
    ensures
        ({
            let g = Ratio { num: (screen - ((count * font) as u32) * scale) as i128, den: 1 };
            let step = axis_step(screen, g, scale, true, count, font);
            axis_cell(p, step, count) == i
        }),
{
    lemma_axis_fills(screen, scale, count, font);
    let g = Ratio { num: (screen - ((count * font) as u32) * scale) as i128, den: 1 };
    let origin = axis_origin(screen, g, true);
    let step = axis_step(screen, g, scale, true, count, font);
    let s = font * scale;
    let e = count * s;
    lemma_product_bound(count * font, scale, u32::MAX as int, i32::MAX as int);
    assert(e == count * font * scale) by (nonlinear_arith)
        requires
            e == count * s,
            s == font * scale,
    ;
    let t = origin.num as int;
    assert(g.num - screen * g.den == -e);
    assert(t == -((e + 1) / 2));
    let pn = p.num as int;
    let pd = p.den as int;
    let left = t + i * s;
    assert(axis_edge(origin, step, true, i) == left);
    assert(axis_edge(origin, step, true, i + 1) == left + s) by (nonlinear_arith)
        requires
            axis_edge(origin, step, true, i + 1) == t + (i + 1) * s,
            left == t + i * s,
    ;
    let n = 2 * pn * step.den + count * pd * step.num;
    let d = 2 * pd * step.num;
    assert(n == 2 * pn + e * pd) by (nonlinear_arith)
        requires
            n == 2 * pn * step.den + count * pd * step.num,
            step.den == 1,
            step.num == s,
            e == count * s,
    ;
    assert(d == 2 * pd * s);
    assert(d > 0) by (nonlinear_arith)
        requires
            d == 2 * pd * s,
            pd > 0,
            s >= 1,
    ;
    // From the near edge: 2 * pn >= (2 * left + 1) * pd, and 2 * t + 1 + e >= 0.
    assert(n >= i * d) by (nonlinear_arith)
        requires
            n == 2 * pn + e * pd,
            d == 2 * pd * s,
            (2 * left + 1) * pd <= 2 * pn,
            left == t + i * s,
            2 * t + 1 + e >= 0,
            pd > 0,
    ;
    // From the far edge: pn < (left + s) * pd, and 2 * t + e <= 0.
    assert(n < (i + 1) * d) by (nonlinear_arith)
        requires
            n == 2 * pn + e * pd,
            d == 2 * pd * s,
            pn < (left + s) * pd,
            left == t + i * s,
            2 * t + e <= 0,
            pd > 0,
    ;
    let r = n - i * d;
    assert((i + 1) * d == i * d + d) by (nonlinear_arith);
    vstd::arithmetic::div_mod::lemma_fundamental_div_mod_converse(n, d, i, r);
}

/// Content scaled by the pixel-perfect factor is no larger than the larger
/// of content and viewport.
proof fn lemma_scaled_content_fits(screen: (u32, u32), content: (u32, u32))
    requires
        content.0 >= 1,
        content.1 >= 1,
    ensures
        content.0 * pixel_scale(screen, content) <= u32::MAX,
        content.1 * pixel_scale(screen, content) <= u32::MAX,
{
    let k = pixel_scale(screen, content);
    let sw = screen.0 as int;
    let sh = screen.1 as int;
    let cw = content.0 as int;
    let ch = content.1 as int;
    assert(cw * (sw / cw) <= sw) by (nonlinear_arith)
        requires
            cw >= 1,
            sw >= 0,
    ;
    assert(ch * (sh / ch) <= sh) by (nonlinear_arith)
        requires
            ch >= 1,
            sh >= 0,
    ;
    if k > 1 {
        assert(cw * k <= cw * (sw / cw)) by (nonlinear_arith)
            requires
                cw >= 1,
                k <= sw / cw,
        ;
        assert(ch * k <= ch * (sh / ch)) by (nonlinear_arith)
            requires
                ch >= 1,
                k <= sh / ch,
        ;
    }
}

/// One axis of `lemma_pixel_perfect_fills_available`.
proof fn lemma_axis_fills(screen: int, scale: int, count: int, font: int)
    requires
        0 <= screen <= u32::MAX,
        1 <= scale <= i32::MAX,
        1 <= count <= i32::MAX,
        1 <= font <= u32::MAX,
        count * font <= u32::MAX,
    ensures
        ({
            let g = Ratio { num: (screen - ((count * font) as u32) * scale) as i128, den: 1 };
            let origin = axis_origin(screen, g, true);
            let step = axis_step(screen, g, scale, true, count, font);
            let available = axis_available(screen, g);
            &&& gutter_wf(g)
            &&& step.num == font * scale
            &&& step.num >= 1
            &&& available.num == count * step.num
            &&& available.num == count * font * scale
            &&& axis_edge(origin, step, true, 0) == origin.num
            &&& axis_edge(origin, step, true, count) == origin.num + available.num
        }),
{
    lemma_product_bound(count * font, scale, u32::MAX as int, i32::MAX as int);
    lemma_product_bound(font, scale, u32::MAX as int, i32::MAX as int);
    assert(font * scale >= 1) by (nonlinear_arith)
        requires
            font >= 1,
            scale >= 1,
    ;
    assert(count * font * scale == count * (font * scale)) by (nonlinear_arith);
    assert(count * font * scale >= 0) by (nonlinear_arith)
        requires
            font >= 1,
            scale >= 1,
            count >= 1,
    ;
}

/// One axis of `lemma_pixel_perfect_round_trip`.
proof fn lemma_axis_round_trip(screen: int, scale: int, count: int, font: int, i: int)
    requires
        0 <= screen <= u32::MAX,
        1 <= scale <= i32::MAX,
        1 <= count <= i32::MAX,
        1 <= font <= u32::MAX,
        count * font <= u32::MAX,
        count * font * scale <= u32::MAX,
        0 <= i < count,
    ensures
        ({
            let g = Ratio { num: (screen - ((count * font) as u32) * scale) as i128, den: 1 };
            let origin = axis_origin(screen, g, true);
            let step = axis_step(screen, g, scale, true, count, font);
            let center = axis_center(origin, step, i);
            &&& pointer_wf(center)
            &&& axis_cell(center, step, count) == i
        }),
{
    lemma_axis_fills(screen, scale, count, font);
    let g = Ratio { num: (screen - ((count * font) as u32) * scale) as i128, den: 1 };
    let origin = axis_origin(screen, g, true);
    let step = axis_step(screen, g, scale, true, count, font);
    let center = axis_center(origin, step, i);
    let s = font * scale;
    let e = count * s;
    lemma_product_bound(count * font, scale, u32::MAX as int, i32::MAX as int);
    assert(e == count * font * scale) by (nonlinear_arith)
        requires
            e == count * s,
            s == font * scale,
    ;
    assert(0 <= i * s && i * s + s <= e) by (nonlinear_arith)
        requires
            0 <= i < count,
            s >= 1,
            e == count * s,
    ;
    let t = origin.num as int;
    assert(g.num - screen * g.den == -e);
    assert(t == -((e + 1) / 2));
    assert(2 * i * s == 2 * (i * s)) by (nonlinear_arith);
    assert(center.num == 2 * t + 2 * (i * s) + s);
    let n = 2 * center.num * step.den + count * center.den * step.num;
    let d = 2 * center.den * step.num;
    assert(count * center.den * step.num == 2 * e) by (nonlinear_arith)
        requires
            center.den == 2,
            step.num == s,
            e == count * s,
    ;
    assert(d == 4 * s) by (nonlinear_arith)
        requires
            d == 2 * center.den * step.num,
            center.den == 2,
            step.num == s,
    ;
    assert(n == 4 * t + 4 * (i * s) + 2 * s + 2 * e);
    let r = n - i * (4 * s);
    assert(i * (4 * s) == 4 * (i * s)) by (nonlinear_arith);
    assert(0 <= r < 4 * s);
    vstd::arithmetic::div_mod::lemma_fundamental_div_mod_converse(n, d, i, r);
}

} // verus!
