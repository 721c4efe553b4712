//! The mesh of a grid: two quads for every cell, a background quad under a
//! foreground quad, with screen positions from the scaler and texture
//! rectangles from the font sheet.

use vstd::prelude::*;
use crate::atlas::FontScaler;
use crate::glyph::{Rgba, TerminalGlyph};
use crate::ratio::{floor_div, floor_quotient, lemma_product_bound, Ratio};
use crate::scaler::{extent_wf, ScreenScaler};

verus! {

/// The glyph drawn under every cell in its background colour: the solid
/// block.
pub const SOLID_BLOCK_GLYPH: u16 = 219;

/// A vertex position: whole pixels on the screen and the depth of its layer.
#[derive(Clone, Copy, Debug, PartialEq, Eq, Structural)]
pub struct MeshPosition {
    pub x: i128,
    pub y: i128,
    pub depth: Ratio,
}

/// A vertex normal.
#[derive(Clone, Copy, Debug, PartialEq, Eq, Structural)]
pub struct MeshNormal {
    pub x: i8,
    pub y: i8,
    pub z: i8,
}

/// A triangle list.  The four vertex attributes are parallel: entry `k` of
/// each belongs to vertex `k`.
#[derive(Debug)]
pub struct Mesh {
    pub positions: Vec<MeshPosition>,
    pub normals: Vec<MeshNormal>,
    pub uv: Vec<(Ratio, Ratio)>,
    pub colors: Vec<Rgba>,
    pub indices: Vec<u32>,
}

/// A console back end that draws every cell with a background.
#[derive(Clone, Copy, Debug)]
pub struct SimpleBackendWithBackground {
    /// The mesh now on display, once the renderer has one.
    pub mesh_handle: Option<u64>,
    pub font_height_pixels: (u32, u32),
    pub width: i32,
    pub height: i32,
    pub scaler: FontScaler,
}

/// The depth of a layer: the background at zero, the foreground at one half,
/// over it.
pub open spec fn layer_depth(layer: int) -> Ratio {
    if layer == 0 {
        Ratio { num: 0, den: 1 }
    } else {
        Ratio { num: 1, den: 2 }
    }
}

/// The normal of every vertex.
pub open spec fn flat_normal() -> MeshNormal {
    MeshNormal { x: 0, y: 1, z: 0 }
}

/// The corner of its quad that index `m` of a quad's six names: two
/// triangles, `(0, 1, 2)` and `(3, 2, 1)`, wound the same way.
pub open spec fn winding(m: int) -> int {
    if m == 0 {
        0
    } else if m == 1 {
        1
    } else if m == 2 {
        2
    } else if m == 3 {
        3
    } else if m == 4 {
        2
    } else {
        1
    }
}

/// `v` limited to what the type of a grid dimension holds.
pub open spec fn saturate(v: int) -> int {
    if v < i32::MIN {
        i32::MIN as int
    } else if v > i32::MAX {
        i32::MAX as int
    } else {
        v
    }
}

impl SimpleBackendWithBackground {
    pub open spec fn wf(self) -> bool {
        &&& self.width >= 1
        &&& self.height >= 1
        &&& self.scaler.wf()
    }

    pub open spec fn spec_cells(self) -> int {
        self.width as int * self.height as int
    }

    /// Quads come layer by layer, the whole background before the whole
    /// foreground, and row by row within a layer.  Vertex `k` is corner
    /// `k % 4` of quad `k / 4`.
    pub open spec fn spec_layer(self, k: int) -> int {
        (k / 4) / self.spec_cells()
    }

    /// The cell of vertex `k`, as an index into the row-major grid.
    pub open spec fn spec_cell(self, k: int) -> int {
        (k / 4) % self.spec_cells()
    }

    /// Position of vertex `k`.  The corners of a quad come in the order
    /// left top, right top, left bottom, right bottom, on the grid lines
    /// around the cell.
    pub open spec fn spec_position(self, screen_scaler: ScreenScaler, k: int) -> MeshPosition {
        let column = self.spec_cell(k) % self.width as int;
        let row = self.spec_cell(k) / self.width as int;
        let corner = k % 4;
        MeshPosition {
            x: screen_scaler.spec_edge_x(
                column + corner % 2,
                self.width,
                self.font_height_pixels,
            ) as i128,
            y: screen_scaler.spec_edge_y(
                row + corner / 2,
                self.height,
                self.font_height_pixels,
            ) as i128,
            depth: layer_depth(self.spec_layer(k)),
        }
    }

    /// The glyph that vertex `k` shows: the solid block in the background,
    /// the cell's own glyph in the foreground.
    pub open spec fn spec_glyph(self, terminal: Seq<TerminalGlyph>, k: int) -> u16 {
        if self.spec_layer(k) == 0 {
            SOLID_BLOCK_GLYPH
        } else {
            terminal[self.spec_cell(k)].glyph
        }
    }

    /// Texture coordinates of vertex `k`: the corner of the glyph's
    /// rectangle `[u0, v0, u1, v1]` that belongs to the corner of the quad,
    /// the top of the quad taking `v1`.
    pub open spec fn spec_uv(self, terminal: Seq<TerminalGlyph>, k: int) -> (Ratio, Ratio) {
        let tex = self.scaler.spec_texture_coords(self.spec_glyph(terminal, k));
        let corner = k % 4;
        (tex[2 * (corner % 2)], tex[3 - 2 * (corner / 2)])
    }

    /// Colour of vertex `k`: the cell's background or foreground, by layer.
    pub open spec fn spec_color(self, terminal: Seq<TerminalGlyph>, k: int) -> Rgba {
        if self.spec_layer(k) == 0 {
            terminal[self.spec_cell(k)].background
        } else {
            terminal[self.spec_cell(k)].foreground
        }
    }

    /// Entry `j` of the index list: quad `j / 6` contributes six.
    pub open spec fn spec_index(j: int) -> int {
        4 * (j / 6) + winding(j % 6)
    }

    /// The mesh is the one of the grid `terminal` under `screen_scaler`.
    pub open spec fn is_mesh_of(
        self,
        mesh: Mesh,
        terminal: Seq<TerminalGlyph>,
        screen_scaler: ScreenScaler,
    ) -> bool {
        &&& mesh.positions@.len() == 8 * self.spec_cells()
        &&& mesh.normals@.len() == 8 * self.spec_cells()
        &&& mesh.uv@.len() == 8 * self.spec_cells()
        &&& mesh.colors@.len() == 8 * self.spec_cells()
        &&& mesh.indices@.len() == 12 * self.spec_cells()
        &&& forall|k: int|
            0 <= k < 8 * self.spec_cells() ==> {
                &&& #[trigger] mesh.positions@[k] == self.spec_position(screen_scaler, k)
                &&& mesh.normals@[k] == flat_normal()
                &&& mesh.uv@[k] == self.spec_uv(terminal, k)
                &&& mesh.colors@[k] == self.spec_color(terminal, k)
            }
        &&& forall|j: int|
            0 <= j < 12 * self.spec_cells() ==> #[trigger] mesh.indices@[j] == Self::spec_index(j)
    }

    /// A back end for a grid of `width` by `height` cells and a font sheet of
    /// `chars_per_row` by `n_rows` glyphs, with no mesh on display yet.
    pub fn new(
        chars_per_row: u16,
        n_rows: u16,
        font_height_pixels: (u32, u32),
        width: i32,
        height: i32,
    ) -> (r: Self)
        ensures
            r == (SimpleBackendWithBackground {
                mesh_handle: None,
                font_height_pixels,
                width,
                height,
                scaler: FontScaler { chars_per_row, n_rows, font_height_pixels },
            }),
    {
        Self {
            mesh_handle: None,
            font_height_pixels,
            width,
            height,
            scaler: FontScaler::new(chars_per_row, n_rows, font_height_pixels),
        }
    }

    pub fn get_pixel_size(&self) -> (r: (u32, u32))
        ensures
            r == self.font_height_pixels,
    {
        self.font_height_pixels
    }

    /// Builds the whole mesh of the grid.  Every cell gives a background
    /// quad, textured with the solid block in the cell's background colour,
    /// and a foreground quad over it, textured with the cell's glyph in its
    /// foreground colour.  A quad is four vertices and two triangles, so the
    /// mesh has eight vertices and twelve indices for every cell, and every
    /// index names a vertex of the mesh.
    pub fn build_mesh(&self, terminal: &Vec<TerminalGlyph>, screen_scaler: &ScreenScaler) -> (mesh:
        Mesh)
        requires
            self.wf(),
            screen_scaler.wf(),
            terminal@.len() == self.spec_cells(),
            8 * self.spec_cells() <= u32::MAX,
            12 * self.spec_cells() <= usize::MAX,
        ensures
            self.is_mesh_of(mesh, terminal@, *screen_scaler),
            mesh.positions@.len() == self.width * self.height * 8,
            mesh.indices@.len() == self.width * self.height * 12,
            forall|j: int|
                0 <= j < mesh.indices@.len() ==> (#[trigger] mesh.indices@[j])
                    < mesh.positions@.len(),
    {
        proof {
            lemma_product_bound(
                self.width as int,
                self.height as int,
                i32::MAX as int,
                i32::MAX as int,
            );
            assert(self.spec_cells() >= 1) by (nonlinear_arith)
                requires
                    self.spec_cells() == self.width as int * self.height as int,
                    self.width >= 1,
                    self.height >= 1,
            ;
            assert(self.width as int <= self.spec_cells()) by (nonlinear_arith)
                requires
                    self.spec_cells() == self.width as int * self.height as int,
                    self.width >= 1,
                    self.height >= 1,
            ;
        }
        let columns: usize = self.width as usize;
        let cells: usize = columns * (self.height as usize);
        let mut mesh = Mesh {
            positions: Vec::with_capacity(cells * 8),
            normals: Vec::with_capacity(cells * 8),
            uv: Vec::with_capacity(cells * 8),
            colors: Vec::with_capacity(cells * 8),
            indices: Vec::with_capacity(cells * 12),
        };
        let mut quad: usize = 0;
        while quad < 2 * cells
            invariant
                self.wf(),
                screen_scaler.wf(),
                terminal@.len() == self.spec_cells(),
                8 * self.spec_cells() <= u32::MAX,
                12 * self.spec_cells() <= usize::MAX,
                cells == self.spec_cells(),
                columns == self.width,
                1 <= columns <= cells,
                0 <= quad <= 2 * cells,
                mesh.positions@.len() == 4 * quad,
                mesh.normals@.len() == 4 * quad,
                mesh.uv@.len() == 4 * quad,
                mesh.colors@.len() == 4 * quad,
                mesh.indices@.len() == 6 * quad,
                forall|k: int|
                    0 <= k < 4 * quad ==> {
                        &&& #[trigger] mesh.positions@[k] == self.spec_position(*screen_scaler, k)
                        &&& mesh.normals@[k] == flat_normal()
                        &&& mesh.uv@[k] == self.spec_uv(terminal@, k)
                        &&& mesh.colors@[k] == self.spec_color(terminal@, k)
                    },
                forall|j: int|
                    0 <= j < 6 * quad ==> #[trigger] mesh.indices@[j] == Self::spec_index(j),
            decreases 2 * cells - quad,
        {
            let foreground: bool = quad / cells != 0;
            let cell: usize = quad % cells;
            let column: usize = cell % columns;
            let row: usize = cell / columns;
            proof {
                assert(quad as int / cells as int <= 1) by (nonlinear_arith)
                    requires
                        0 <= quad < 2 * cells,
                        cells >= 1,
                ;
                assert(row < self.height) by (nonlinear_arith)
                    requires
                        row == cell as int / columns as int,
                        cell < cells,
                        cells == columns as int * self.height as int,
                        columns >= 1,
                ;
            }
            let left = screen_scaler.edge_x(column as i32, self.width, self.font_height_pixels);
            let right = screen_scaler.edge_x(
                column as i32 + 1,
                self.width,
                self.font_height_pixels,
            );
            let top = screen_scaler.edge_y(row as i32, self.height, self.font_height_pixels);
            let bottom = screen_scaler.edge_y(
                row as i32 + 1,
                self.height,
                self.font_height_pixels,
            );
            let depth = if foreground {
                Ratio { num: 1, den: 2 }
            } else {
                Ratio { num: 0, den: 1 }
            };
            let glyph: u16 = if foreground {
                terminal[cell].glyph
            } else {
                SOLID_BLOCK_GLYPH
            };
            let color = if foreground {
                terminal[cell].foreground
            } else {
                terminal[cell].background
            };
            let tex = self.scaler.texture_coords(glyph);
            let first: u32 = (4 * quad) as u32;
            let ghost before = mesh;

            mesh.positions.push(MeshPosition { x: left, y: top, depth });
            mesh.positions.push(MeshPosition { x: right, y: top, depth });
            mesh.positions.push(MeshPosition { x: left, y: bottom, depth });
            mesh.positions.push(MeshPosition { x: right, y: bottom, depth });
            let normal = MeshNormal { x: 0, y: 1, z: 0 };
            mesh.normals.push(normal);
            mesh.normals.push(normal);
            mesh.normals.push(normal);
            mesh.normals.push(normal);
            mesh.uv.push((tex[0], tex[3]));
            mesh.uv.push((tex[2], tex[3]));
            mesh.uv.push((tex[0], tex[1]));
            mesh.uv.push((tex[2], tex[1]));
            mesh.colors.push(color);
            mesh.colors.push(color);
            mesh.colors.push(color);
            mesh.colors.push(color);

            mesh.indices.push(first);
            mesh.indices.push(first + 1);
            mesh.indices.push(first + 2);

            mesh.indices.push(first + 3);
            mesh.indices.push(first + 2);
            mesh.indices.push(first + 1);

            proof {
                assert forall|k: int| 0 <= k < 4 * quad + 4 implies {
                    &&& #[trigger] mesh.positions@[k] == self.spec_position(*screen_scaler, k)
                    &&& mesh.normals@[k] == flat_normal()
                    &&& mesh.uv@[k] == self.spec_uv(terminal@, k)
                    &&& mesh.colors@[k] == self.spec_color(terminal@, k)
                } by {
                    if k < 4 * quad {
                        assert(mesh.positions@[k] == before.positions@[k]);
                        assert(mesh.normals@[k] == before.normals@[k]);
                        assert(mesh.uv@[k] == before.uv@[k]);
                        assert(mesh.colors@[k] == before.colors@[k]);
                    } else {
                        assert(k / 4 == quad);
                        assert(self.spec_layer(k) == quad as int / cells as int);
                        assert(self.spec_cell(k) == cell);
                    }
                }
                assert forall|j: int| 0 <= j < 6 * quad + 6 implies #[trigger] mesh.indices@[j]
                    == Self::spec_index(j) by {
                    if j < 6 * quad {
                        assert(mesh.indices@[j] == before.indices@[j]);
                    } else {
                        assert(j / 6 == quad);
                    }
                }
            }
            quad = quad + 1;
        }
        proof {
            assert(self.width * self.height * 8 == 8 * self.spec_cells()) by (nonlinear_arith)
                requires
                    self.spec_cells() == self.width as int * self.height as int,
            ;
            assert(self.width * self.height * 12 == 12 * self.spec_cells()) by (nonlinear_arith)
                requires
                    self.spec_cells() == self.width as int * self.height as int,
            ;
            assert forall|j: int| 0 <= j < mesh.indices@.len() implies (#[trigger] mesh.indices@[j])
                < mesh.positions@.len() by {
                assert(mesh.indices@[j] == Self::spec_index(j));
                assert(j / 6 < 2 * self.spec_cells());
            }
        }
        mesh
    }

    /// Sets the grid to as many whole cells as fit the available size, and
    /// returns the new width and height: the available size divided by the
    /// size of a cell, rounded down, on each axis.  A result that the type of
    /// a dimension does not hold is limited to it.
    pub fn resize(&mut self, available_size: &(Ratio, Ratio)) -> (r: (i32, i32))
        requires
            old(self).font_height_pixels.0 >= 1,
            old(self).font_height_pixels.1 >= 1,
            extent_wf(available_size.0),
            extent_wf(available_size.1),
        ensures
            r.0 == saturate(
                floor_quotient(
                    available_size.0.num as int,
                    available_size.0.den * old(self).font_height_pixels.0,
                ),
            ),
            r.1 == saturate(
                floor_quotient(
                    available_size.1.num as int,
                    available_size.1.den * old(self).font_height_pixels.1,
                ),
            ),
            *final(self) == (SimpleBackendWithBackground {
                width: r.0,
                height: r.1,
                ..*old(self)
            }),
    {
        self.width = cells_that_fit(available_size.0, self.font_height_pixels.0);
        self.height = cells_that_fit(available_size.1, self.font_height_pixels.1);
        (self.width, self.height)
    }
}

/// How many whole cells of `font` pixels fit `available`, within the type.
fn cells_that_fit(available: Ratio, font: u32) -> (r: i32)
    requires
        font >= 1,
        extent_wf(available),
    ensures
        r == saturate(floor_quotient(available.num as int, available.den * font)),
{
    proof {
        lemma_product_bound(
            available.den as int,
            font as int,
            2 * u32::MAX as int,
            u32::MAX as int,
        );
        assert(available.den * font >= 1) by (nonlinear_arith)
            requires
                available.den >= 1,
                font >= 1,
        ;
    }
    let q: i128 = floor_div(available.num, available.den * font as i128);
    if q < -0x8000_0000 {
        -0x8000_0000
    } else if q > 0x7fff_ffff {
        0x7fff_ffff
    } else {
        q as i32
    }
}

} // verus!
