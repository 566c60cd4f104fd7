//! Screen-space layout: moving world rectangles into the camera's view, and the
//! checkerboard background that covers the screen wherever the camera is.
use vstd::prelude::*;
use vstd::arithmetic::div_mod::{lemma_div_is_ordered, lemma_fundamental_div_mod_converse};

verus! {

/// Width of the rendered view in pixels.
pub const SCREEN_WIDTH: i32 = 1920;

/// Height of the rendered view in pixels.
pub const SCREEN_HEIGHT: i32 = 1080;

/// Side of one background tile in pixels.
pub const TILE_SIZE: u32 = 125;

/// Smallest coordinate the renderer keeps for a rectangle's corner.
pub const MIN_POSITION: i32 = -1073741824;

/// Largest coordinate the renderer keeps for a rectangle's corner.
pub const MAX_POSITION: i32 = 1073741823;

/// Largest width or height the renderer keeps for a rectangle.
pub const MAX_SIZE: u32 = 1073741823;

/// An axis-aligned rectangle in whole pixels: top-left corner and size.
#[derive(Clone, Copy, Debug, PartialEq, Eq, Structural)]
pub struct PixelRect {
    pub x: i32,
    pub y: i32,
    pub width: u32,
    pub height: u32,
}

/// Whether a coordinate lies in the range the renderer keeps.
pub open spec fn in_position_range(v: int) -> bool {
    MIN_POSITION <= v <= MAX_POSITION
}

impl PixelRect {
    /// Whether the renderer keeps this rectangle as it is: the corner within
    /// the position range, and a size of at least one pixel and at most
    /// `MAX_SIZE`.
    pub open spec fn wf(self) -> bool {
        &&& in_position_range(self.x as int)
        &&& in_position_range(self.y as int)
        &&& 1 <= self.width <= MAX_SIZE
        &&& 1 <= self.height <= MAX_SIZE
    }

    /// Whether the pixel `(px, py)` lies inside the rectangle.
    pub open spec fn contains(self, px: int, py: int) -> bool {
        &&& self.x <= px < self.x + self.width
        &&& self.y <= py < self.y + self.height
    }

    /// Tells whether the renderer keeps this rectangle as it is.
    pub fn is_valid(&self) -> (r: bool)
        ensures
            r == self.wf(),
    {
        MIN_POSITION <= self.x && self.x <= MAX_POSITION && MIN_POSITION <= self.y && self.y
            <= MAX_POSITION && 1 <= self.width && self.width <= MAX_SIZE && 1 <= self.height
            && self.height <= MAX_SIZE
    }
}

/// Screen coordinate of world coordinate `v` when the camera sits at `view`
/// on an axis whose screen extent is `extent`: the camera is the screen's
/// center.
pub open spec fn to_screen(v: int, view: int, extent: int) -> int {
    v - (view - extent / 2)
}

/// Whether `rect` seen from a camera at `(view_x, view_y)` keeps its corner
/// in the renderer's position range.
pub open spec fn view_fits(rect: PixelRect, view_x: int, view_y: int) -> bool {
    &&& in_position_range(to_screen(rect.x as int, view_x, SCREEN_WIDTH as int))
    &&& in_position_range(to_screen(rect.y as int, view_y, SCREEN_HEIGHT as int))
}

/// `rect` as seen from a camera at `(view_x, view_y)`.
pub open spec fn relative_rect_of(rect: PixelRect, view_x: int, view_y: int) -> PixelRect {
    PixelRect {
        x: to_screen(rect.x as int, view_x, SCREEN_WIDTH as int) as i32,
        y: to_screen(rect.y as int, view_y, SCREEN_HEIGHT as int) as i32,
        width: rect.width,
        height: rect.height,
    }
}

/// Screen coordinate of `v` as a wide integer.
fn screen_coord(v: i32, view: i32, extent: i32) -> (r: i64)
    requires
        extent >= 0,
    ensures
        r == to_screen(v as int, view as int, extent as int),
{
    v as i64 - (view as i64 - (extent / 2) as i64)
}

/// Tells whether `rect` is valid and, seen from a camera at
/// `(view_x, view_y)`, keeps its corner in the renderer's position range.
pub fn fits_view(rect: PixelRect, view_x: i32, view_y: i32) -> (r: bool)
    ensures
        r == (rect.wf() && view_fits(rect, view_x as int, view_y as int)),
{
    let x = screen_coord(rect.x, view_x, SCREEN_WIDTH);
    let y = screen_coord(rect.y, view_y, SCREEN_HEIGHT);
    rect.is_valid() && MIN_POSITION as i64 <= x && x <= MAX_POSITION as i64 && MIN_POSITION as i64
        <= y && y <= MAX_POSITION as i64
}

/// Maps a world rectangle into the screen, for a camera whose position in
/// whole pixels is `(view_x, view_y)`: the camera is the screen's center, and
/// the size is kept.
pub fn relative_rect(rect: PixelRect, view_x: i32, view_y: i32) -> (r: PixelRect)
    requires
        rect.wf(),
        view_fits(rect, view_x as int, view_y as int),
    ensures
        r == relative_rect_of(rect, view_x as int, view_y as int),
        r.x == to_screen(rect.x as int, view_x as int, SCREEN_WIDTH as int),
        r.y == to_screen(rect.y as int, view_y as int, SCREEN_HEIGHT as int),
        r.width == rect.width,
        r.height == rect.height,
        r.wf(),
{
    let x = screen_coord(rect.x, view_x, SCREEN_WIDTH);
    let y = screen_coord(rect.y, view_y, SCREEN_HEIGHT);
    PixelRect { x: x as i32, y: y as i32, width: rect.width, height: rect.height }
}

/// The two colors of the checkerboard background.
#[derive(Clone, Copy, Debug, PartialEq, Eq, Structural)]
pub enum TileShade {
    /// A tile whose column and row add up to an even number.
    Even,
    /// A tile whose column and row add up to an odd number.
    Odd,
}

/// One background tile as drawn on the screen.
#[derive(Clone, Copy, Debug, PartialEq, Eq, Structural)]
pub struct Tile {
    pub rect: PixelRect,
    pub shade: TileShade,
}

/// The shade of the world tile in column `col` and row `row`; negative
/// columns and rows alternate too.
pub open spec fn shade_of(col: int, row: int) -> TileShade {
    if (col + row) % 2 == 0 {
        TileShade::Even
    } else {
        TileShade::Odd
    }
}

impl TileShade {
    /// The fill color of this shade, as red, green and blue.
    pub fn rgb(&self) -> (r: (u8, u8, u8))
        ensures
            *self == TileShade::Even ==> r == (60u8, 180u8, 35u8),
            *self == TileShade::Odd ==> r == (60u8, 200u8, 35u8),
    {
        match self {
            TileShade::Even => (60, 180, 35),
            TileShade::Odd => (60, 200, 35),
        }
    }
}

/// World x of the screen's left edge for a camera at `view_x`.
pub open spec fn view_left(view_x: int) -> int {
    view_x - SCREEN_WIDTH / 2
}

/// World y of the screen's top edge for a camera at `view_y`.
pub open spec fn view_top(view_y: int) -> int {
    view_y - SCREEN_HEIGHT / 2
}

/// Index of the world tile that holds world coordinate `v` on one axis.
pub open spec fn tile_index(v: int) -> int {
    v / TILE_SIZE as int
}

/// Number of world tiles that the span `[start, start + extent)` meets on one
/// axis.
pub open spec fn tiles_over(start: int, extent: int) -> int {
    if extent <= 0 {
        0
    } else {
        tile_index(start + extent - 1) - tile_index(start) + 1
    }
}

/// Whether `t` is the world tile in column `col` and row `row`, drawn on a
/// screen whose top-left corner is the world point `(left, top)`.
pub open spec fn is_board_tile(t: Tile, col: int, row: int, left: int, top: int) -> bool {
    &&& t.rect.x == col * TILE_SIZE - left
    &&& t.rect.y == row * TILE_SIZE - top
    &&& t.rect.width == TILE_SIZE
    &&& t.rect.height == TILE_SIZE
    &&& t.shade == shade_of(col, row)
}

/// Whether the pixel `(px, py)` lies in one of `tiles`.
pub open spec fn covers(tiles: Seq<Tile>, px: int, py: int) -> bool {
    exists|i: int| 0 <= i < tiles.len() && (#[trigger] tiles[i]).rect.contains(px, py)
}

/// Whether a screen of `width` by `height` pixels can be tiled: every tile's
/// corner then lies between `1 - TILE_SIZE` and the screen's last pixel, in
/// the renderer's position range.
pub open spec fn board_fits(width: int, height: int) -> bool {
    width - 1 <= MAX_POSITION && height - 1 <= MAX_POSITION
}

/// Tells whether a screen of `width` by `height` pixels can be tiled.
pub fn fits_board(width: u32, height: u32) -> (r: bool)
    ensures
        r == board_fits(width as int, height as int),
{
    width as i64 - 1 <= MAX_POSITION as i64 && height as i64 - 1 <= MAX_POSITION as i64
}

/// Index of the world tile that holds `v`, computed.
fn tile_index_exec(v: i64) -> (r: i64)
    ensures
        r == tile_index(v as int),
{
    match v.checked_div_euclid(TILE_SIZE as i64) {
        Some(q) => q,
        None => 0,
    }
}

/// Number of world tiles that a span meets, computed.
fn tiles_over_exec(start: i64, extent: u32) -> (r: u64)
    requires
        -0x1_0000_0000 <= start <= 0x1_0000_0000,
    ensures
        r == tiles_over(start as int, extent as int),
{
    if extent == 0 {
        return 0;
    }
    let first = tile_index_exec(start);
    let last = tile_index_exec(start + extent as i64 - 1);
    proof {
        lemma_div_is_ordered(start as int, start + extent - 1, TILE_SIZE as int);
    }
    (last - first + 1) as u64
}

/// The corner of every tile that a span meets lies between `1 - TILE_SIZE`
/// and the span's last pixel, relative to the span's start.
proof fn lemma_tile_corner(col: int, start: int, extent: int)
    requires
        0 < extent,
        tile_index(start) <= col <= tile_index(start + extent - 1),
    ensures
        1 - TILE_SIZE <= col * TILE_SIZE - start <= extent - 1,
{
    let first = tile_index(start);
    let last = tile_index(start + extent - 1);
    assert(first * 125 <= start < first * 125 + 125);
    assert(last * 125 <= start + extent - 1);
    assert(first * 125 <= col * 125 <= last * 125) by (nonlinear_arith)
        requires
            first <= col <= last,
    ;
}

/// The pixel at offset `px` of a span lies in a tile that the span meets, and
/// inside that tile.
proof fn lemma_pixel_tile(
    px: int,
    extent: int,
    start: int,
)
    requires
        0 <= px < extent,
    ensures
        tile_index(start) <= tile_index(start + px) < tile_index(start) + tiles_over(start, extent),
        tile_index(start + px) * TILE_SIZE - start <= px < tile_index(start + px) * TILE_SIZE
            - start + TILE_SIZE,
{
    lemma_div_is_ordered(start, start + px, TILE_SIZE as int);
    lemma_div_is_ordered(start + px, start + extent - 1, TILE_SIZE as int);
}

/// Lays out the checkerboard background for a screen of `width` by `height`
/// pixels and a camera at `(view_x, view_y)`: every world tile that the
/// screen shows, at its place on the screen. Tiles come column by column,
/// each column from the top; tile `i` is the world tile in column
/// `first_col + i / rows` and row `first_row + i % rows`, and its shade is the
/// parity of the two. Every pixel of the screen lies in some tile.
pub fn checkerboard(width: u32, height: u32, view_x: i32, view_y: i32) -> (r: Vec<Tile>)
    requires
        board_fits(width as int, height as int),
    ensures
        r@.len() == tiles_over(view_left(view_x as int), width as int) * tiles_over(
            view_top(view_y as int),
            height as int,
        ),
        forall|i: int|
            0 <= i < r@.len() ==> {
                &&& is_board_tile(
                    #[trigger] r@[i],
                    tile_index(view_left(view_x as int)) + i / tiles_over(
                        view_top(view_y as int),
                        height as int,
                    ),
                    tile_index(view_top(view_y as int)) + i % tiles_over(
                        view_top(view_y as int),
                        height as int,
                    ),
                    view_left(view_x as int),
                    view_top(view_y as int),
                )
                &&& r@[i].rect.wf()
            },
        forall|px: int, py: int|
            0 <= px < width && 0 <= py < height ==> #[trigger] covers(r@, px, py),
{
    let left: i64 = view_x as i64 - (SCREEN_WIDTH / 2) as i64;
    let top: i64 = view_y as i64 - (SCREEN_HEIGHT / 2) as i64;
    let first_col = tile_index_exec(left);
    let first_row = tile_index_exec(top);
    let cols = tiles_over_exec(left, width);
    let rows = tiles_over_exec(top, height);
    let mut tiles: Vec<Tile> = Vec::new();
    let mut ci: u64 = 0;
    while ci < cols
        invariant
            left == view_left(view_x as int),
            top == view_top(view_y as int),
            first_col == tile_index(left as int),
            first_row == tile_index(top as int),
            cols == tiles_over(left as int, width as int),
            rows == tiles_over(top as int, height as int),
            board_fits(width as int, height as int),
            ci <= cols,
            tiles@.len() == ci * rows,
            forall|i: int|
                0 <= i < tiles@.len() ==> {
                    &&& is_board_tile(
                        #[trigger] tiles@[i],
                        first_col + i / rows as int,
                        first_row + i % rows as int,
                        left as int,
                        top as int,
                    )
                    &&& tiles@[i].rect.wf()
                },
        decreases cols - ci,
    {
        let mut ri: u64 = 0;
        while ri < rows
            invariant
                left == view_left(view_x as int),
                top == view_top(view_y as int),
                first_col == tile_index(left as int),
                first_row == tile_index(top as int),
                cols == tiles_over(left as int, width as int),
                rows == tiles_over(top as int, height as int),
                board_fits(width as int, height as int),
                ci < cols,
                ri <= rows,
                tiles@.len() == ci * rows + ri,
                forall|i: int|
                    0 <= i < tiles@.len() ==> {
                        &&& is_board_tile(
                            #[trigger] tiles@[i],
                            first_col + i / rows as int,
                            first_row + i % rows as int,
                            left as int,
                            top as int,
                        )
                        &&& tiles@[i].rect.wf()
                    },
            decreases rows - ri,
        {
            let col: i64 = first_col + ci as i64;
            let row: i64 = first_row + ri as i64;
            proof {
                lemma_tile_corner(col as int, left as int, width as int);
                lemma_tile_corner(row as int, top as int, height as int);
            }
            let x: i64 = col * TILE_SIZE as i64 - left;
            let y: i64 = row * TILE_SIZE as i64 - top;
            let shade = match (col + row).checked_rem_euclid(2) {
                Some(0) => TileShade::Even,
                _ => TileShade::Odd,
            };
            let tile = Tile {
                rect: PixelRect { x: x as i32, y: y as i32, width: TILE_SIZE, height: TILE_SIZE },
                shade,
            };
            proof {
                lemma_fundamental_div_mod_converse(
                    tiles@.len() as int,
                    rows as int,
                    ci as int,
                    ri as int,
                );
            }
            tiles.push(tile);
            ri += 1;
        }
        proof {
            assert((ci + 1) * rows == ci * rows + rows) by (nonlinear_arith);
        }
        ci += 1;
    }
    assert forall|px: int, py: int| 0 <= px < width && 0 <= py < height implies #[trigger] covers(
        tiles@,
        px,
        py,
    ) by {
        lemma_pixel_tile(px, width as int, left as int);
        lemma_pixel_tile(py, height as int, top as int);
        let c = tile_index(left + px) - first_col;
        let r = tile_index(top + py) - first_row;
        let i = c * rows + r;
        lemma_fundamental_div_mod_converse(i, rows as int, c, r);
        assert(i < cols * rows) by (nonlinear_arith)
            requires
                0 <= c < cols,
                0 <= r < rows,
                i == c * rows + r,
        ;
        assert(tiles@[i].rect.contains(px, py));
    }
    tiles
}

} // verus!
