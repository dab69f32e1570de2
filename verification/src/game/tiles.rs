//! The map format: rows of digits, one digit per tile, the top row first.
use vstd::prelude::*;
use vstd::string::StringSliceAdditionalSpecFns;
use crate::layout::{attribute, VertexAttribute, VertexBufferLayout, VertexFormat, VertexStepMode};

verus! {

/// The id of a tile.
pub type Tile = u8;

/// An empty tile.
pub const AIR: Tile = 0u8;

/// A solid tile the player runs on.
pub const GROUND: Tile = 1u8;

/// A tile that kills the player.
pub const SPIKE: Tile = 2u8;

/// The number of rows a map is drawn with.
pub const MAP_HEIGHT: usize = 10usize;

/// The tiles of a map, column after column, each column from the bottom row
/// up.
pub struct Tiles {
    pub width: usize,
    pub height: usize,
    pub data: Vec<Tile>,
}

/// The lines found in the first `n` bytes, and the line still open after
/// them. A line ends at a newline; a carriage return right before the
/// newline is not part of it.
pub open spec fn scan_lines(b: Seq<u8>, n: int) -> (Seq<Seq<u8>>, Seq<u8>)
    decreases n,
{
    if n <= 0 {
        (Seq::empty(), Seq::empty())
    } else {
        let (done, open) = scan_lines(b, n - 1);
        if b[n - 1] == 10u8 {
            (done.push(strip_cr(open)), Seq::empty())
        } else {
            (done, open.push(b[n - 1]))
        }
    }
}

/// A line without its trailing carriage return, if it has one.
pub open spec fn strip_cr(line: Seq<u8>) -> Seq<u8> {
    if line.len() > 0 && line.last() == 13u8 {
        line.drop_last()
    } else {
        line
    }
}

/// The lines of a text: split at newlines, each without a carriage return
/// before its newline; text after the last newline is a last line when it is
/// not empty.
pub open spec fn lines_of(b: Seq<u8>) -> Seq<Seq<u8>> {
    let (done, open) = scan_lines(b, b.len() as int);
    if open.len() > 0 {
        done.push(open)
    } else {
        done
    }
}

pub open spec fn is_digit(c: u8) -> bool {
    48u8 <= c <= 57u8
}

/// A map text the game can read: it has at least one line, every line is
/// made of decimal digits, and it does not end in a carriage return.
pub open spec fn valid_map_text(b: Seq<u8>) -> bool {
    &&& lines_of(b).len() >= 1
    &&& forall|i: int, j: int|
        0 <= i < lines_of(b).len() && 0 <= j < lines_of(b)[i].len() ==> #[trigger] is_digit(
            lines_of(b)[i][j],
        )
    &&& (b.len() > 0 ==> b.last() != 13u8)
}

/// The length of the longest of the first `n` lines.
pub open spec fn max_len(lines: Seq<Seq<u8>>, n: int) -> int
    decreases n,
{
    if n <= 0 {
        0
    } else {
        let m = max_len(lines, n - 1);
        if lines[n - 1].len() > m {
            lines[n - 1].len() as int
        } else {
            m
        }
    }
}

/// The tile of a line at column `x`: its digit, or air past its end.
pub open spec fn tile_at(line: Seq<u8>, x: int) -> Tile {
    if x < line.len() {
        (line[x] - 48) as u8
    } else {
        AIR
    }
}

/// The tiles read from a map text: as wide as its longest line; column `x`
/// holds, from the bottom line up, the tile of each line at `x`.
pub open spec fn spec_tiles(b: Seq<u8>, t: Tiles) -> bool {
    let lines = lines_of(b);
    let rows = lines.len() as int;
    &&& t.width == max_len(lines, rows)
    &&& t.height == MAP_HEIGHT
    &&& t.data@.len() == t.width * rows
    &&& forall|x: int, k: int|
        0 <= x < t.width && 0 <= k < rows ==> #[trigger] t.data@[x * rows + k] == tile_at(
            lines[rows - 1 - k],
            x,
        )
}

proof fn lemma_index_step(x: int, rows: int, k: int)
    requires
        0 <= k < rows,
        0 <= x,
    ensures
        x * rows + k < (x + 1) * rows,
        x * rows + k >= 0,
{
    assert(x * rows + k < (x + 1) * rows) by (nonlinear_arith)
        requires
            0 <= k < rows,
            0 <= x,
    ;
    assert(x * rows >= 0) by (nonlinear_arith)
        requires
            0 <= x,
            0 <= rows,
    ;
}

/// Splits `bytes` into its lines.
fn split_lines(bytes: &[u8]) -> (lines: Vec<Vec<u8>>)
    ensures
        lines@.len() == lines_of(bytes@).len(),
        forall|i: int| 0 <= i < lines@.len() ==> #[trigger] lines@[i]@ == lines_of(bytes@)[i],
{
    let mut done: Vec<Vec<u8>> = Vec::new();
    let mut open: Vec<u8> = Vec::new();
    let mut i: usize = 0;
    while i < bytes.len()
        invariant
            i <= bytes@.len(),
            done@.len() == scan_lines(bytes@, i as int).0.len(),
            forall|j: int| 0 <= j < done@.len() ==> #[trigger] done@[j]@ == scan_lines(bytes@, i as int).0[j],
            open@ == scan_lines(bytes@, i as int).1,
        decreases bytes@.len() - i,
    {
        let c = bytes[i];
        if c == 10u8 {
            let mut line = Vec::new();
            core::mem::swap(&mut line, &mut open);
            let n = line.len();
            if n > 0 && line[n - 1] == 13u8 {
                line.pop();
            }
            assert(line@ == strip_cr(scan_lines(bytes@, i as int).1));
            done.push(line);
        } else {
            open.push(c);
        }
        i = i + 1;
    }
    if open.len() > 0 {
        done.push(open);
    }
    done
}

impl Tiles {
    /// Reads the tiles of a map text.
    pub fn parse(text: &str) -> (t: Tiles)
        requires
            valid_map_text(text.spec_bytes()),
        ensures
            spec_tiles(text.spec_bytes(), t),
    {
        let bytes = text.as_bytes();
        let lines = split_lines(bytes);
        let ghost ls = lines_of(bytes@);
        let rows = lines.len();
        let mut width: usize = 0;
        let mut i: usize = 0;
        while i < rows
            invariant
                rows == lines@.len(),
                rows == ls.len(),
                i <= rows,
                forall|j: int| 0 <= j < rows ==> #[trigger] lines@[j]@ == ls[j],
                width == max_len(ls, i as int),
            decreases rows - i,
        {
            if lines[i].len() > width {
                width = lines[i].len();
            }
            i = i + 1;
        }
        let mut data: Vec<Tile> = Vec::new();
        let mut x: usize = 0;
        while x < width
            invariant
                rows == lines@.len(),
                rows == ls.len(),
                rows >= 1,
                forall|j: int| 0 <= j < rows ==> #[trigger] lines@[j]@ == ls[j],
                forall|a: int, b: int| 0 <= a < rows && 0 <= b < ls[a].len() ==> #[trigger] is_digit(ls[a][b]),
                x <= width,
                data@.len() == x * rows,
                forall|xx: int, k: int|
                    0 <= xx < x && 0 <= k < rows ==> #[trigger] data@[xx * rows + k] == tile_at(
                        ls[rows - 1 - k],
                        xx,
                    ),
            decreases width - x,
        {
            let mut k: usize = 0;
            while k < rows
                invariant
                    rows == lines@.len(),
                    rows == ls.len(),
                    rows >= 1,
                    forall|j: int| 0 <= j < rows ==> #[trigger] lines@[j]@ == ls[j],
                    forall|a: int, b: int| 0 <= a < rows && 0 <= b < ls[a].len() ==> #[trigger] is_digit(ls[a][b]),
                    x < width,
                    k <= rows,
                    data@.len() == x * rows + k,
                    forall|xx: int, kk: int|
                        0 <= xx < x && 0 <= kk < rows ==> #[trigger] data@[xx * rows + kk] == tile_at(
                            ls[rows - 1 - kk],
                            xx,
                        ),
                    forall|kk: int|
                        0 <= kk < k ==> #[trigger] data@[x * rows + kk] == tile_at(
                            ls[rows - 1 - kk],
                            x as int,
                        ),
                decreases rows - k,
            {
                let row = &lines[rows - 1 - k];
                let tile = if x < row.len() {
                    assert(is_digit(ls[rows - 1 - k][x as int]));
                    row[x] - 48u8
                } else {
                    AIR
                };
                let ghost before = data@;
                data.push(tile);
                proof {
                    assert forall|xx: int, kk: int|
                        0 <= xx < x && 0 <= kk < rows implies #[trigger] data@[xx * rows + kk] == tile_at(
                            ls[rows - 1 - kk],
                            xx,
                        ) by {
                        lemma_index_step(xx, rows as int, kk);
                        assert((xx + 1) * rows <= x * rows) by (nonlinear_arith)
                            requires
                                xx + 1 <= x,
                                rows >= 0,
                        ;
                        assert(data@[xx * rows + kk] == before[xx * rows + kk]);
                    }
                }
                k = k + 1;
            }
            proof {
                assert(data@.len() == (x + 1) * rows) by (nonlinear_arith)
                    requires
                        data@.len() == x * rows + rows,
                ;
                assert forall|xx: int, kk: int|
                    0 <= xx < x + 1 && 0 <= kk < rows implies #[trigger] data@[xx * rows + kk] == tile_at(
                        ls[rows - 1 - kk],
                        xx,
                    ) by {
                    if xx < x {
                    } else {
                        assert(xx == x);
                    }
                }
            }
            x = x + 1;
        }
        Tiles { width, height: MAP_HEIGHT, data }
    }
}

/// A tile as the GPU draws it: its position, each float carried as its bit
/// pattern, and its id.
#[derive(Clone, Copy, PartialEq, Eq, Debug)]
pub struct TileInstance {
    pub position: [u32; 2],
    pub id: u32,
}

impl TileInstance {
    /// The layout of a tile instance: a position of two floats and a tile
    /// id, twelve bytes per instance.
    pub fn desc() -> (layout: VertexBufferLayout)
        ensures
            layout.array_stride == 12,
            layout.step_mode == VertexStepMode::Instance,
            layout.attributes@ == seq![
                attribute(VertexFormat::Float32x2, 0, 5),
                attribute(VertexFormat::Uint32, 8, 6),
            ],
    {
        let attributes = vec![
            VertexAttribute { format: VertexFormat::Float32x2, offset: 0, shader_location: 5 },
            VertexAttribute { format: VertexFormat::Uint32, offset: 8, shader_location: 6 },
        ];
        VertexBufferLayout { array_stride: 12, step_mode: VertexStepMode::Instance, attributes }
    }
}

/// One tile as the map draws it: its column, its row and its id.
#[derive(Clone, Copy, PartialEq, Eq, Structural, Debug)]
pub struct TileSlot {
    pub x: usize,
    pub y: usize,
    pub id: u32,
}

impl Tiles {
    /// The tile at `index` of the data, if there is one.
    pub fn get_tile(&self, index: usize) -> (t: Option<Tile>)
        ensures
            t == (if index < self.data@.len() {
                Some(self.data@[index as int])
            } else {
                None
            }),
    {
        if index < self.data.len() {
            Some(self.data[index])
        } else {
            None
        }
    }

    /// Puts `val` at `index` of the data; an index past the end changes
    /// nothing.
    pub fn set_tile(&mut self, index: usize, val: Tile)
        ensures
            final(self).width == old(self).width,
            final(self).height == old(self).height,
            final(self).data@ == (if index < old(self).data@.len() {
                old(self).data@.update(index as int, val)
            } else {
                old(self).data@
            }),
    {
        if index < self.data.len() {
            self.data.set(index, val);
        }
    }

    /// The tiles to draw, column after column, each column from row 0 up to
    /// `height`; the tile of column `x` and row `y` is read at
    /// `x * height + y`.
    pub fn slots(&self) -> (s: Vec<TileSlot>)
        requires
            self.width * self.height <= self.data@.len(),
        ensures
            s@.len() == self.width * self.height,
            forall|x: int, y: int|
                0 <= x < self.width && 0 <= y < self.height ==> #[trigger] s@[x * self.height + y]
                    == (TileSlot { x: x as usize, y: y as usize, id: self.data@[x * self.height + y] as u32 }),
    {
        let w = self.width;
        let h = self.height;
        let n = self.data.len();
        let mut s: Vec<TileSlot> = Vec::new();
        let mut x: usize = 0;
        while x < w
            invariant
                w == self.width,
                h == self.height,
                w * h <= self.data@.len(),
                n == self.data@.len(),
                x <= w,
                s@.len() == x * h,
                forall|xx: int, y: int|
                    0 <= xx < x && 0 <= y < h ==> #[trigger] s@[xx * h + y] == (TileSlot {
                        x: xx as usize,
                        y: y as usize,
                        id: self.data@[xx * h + y] as u32,
                    }),
            decreases w - x,
        {
            let mut y: usize = 0;
            while y < h
                invariant
                    w == self.width,
                    h == self.height,
                    w * h <= self.data@.len(),
                    n == self.data@.len(),
                    x < w,
                    y <= h,
                    s@.len() == x * h + y,
                    forall|xx: int, yy: int|
                        0 <= xx < x && 0 <= yy < h ==> #[trigger] s@[xx * h + yy] == (TileSlot {
                            x: xx as usize,
                            y: yy as usize,
                            id: self.data@[xx * h + yy] as u32,
                        }),
                    forall|yy: int|
                        0 <= yy < y ==> #[trigger] s@[x * h + yy] == (TileSlot {
                            x: x,
                            y: yy as usize,
                            id: self.data@[x * h + yy] as u32,
                        }),
                decreases h - y,
            {
                proof {
                    lemma_index_step(x as int, h as int, y as int);
                    assert((x + 1) * h <= w * h) by (nonlinear_arith)
                        requires
                            x + 1 <= w,
                            h >= 0,
                    ;
                }
                assert(x * h + y < n);
                let i = x * h + y;
                let ghost before = s@;
                s.push(TileSlot { x, y, id: self.data[i] as u32 });
                proof {
                    assert forall|xx: int, yy: int|
                        0 <= xx < x && 0 <= yy < h implies #[trigger] s@[xx * h + yy] == (TileSlot {
                            x: xx as usize,
                            y: yy as usize,
                            id: self.data@[xx * h + yy] as u32,
                        }) by {
                        lemma_index_step(xx, h as int, yy);
                        assert((xx + 1) * h <= x * h) by (nonlinear_arith)
                            requires
                                xx + 1 <= x,
                                h >= 0,
                        ;
                        assert(s@[xx * h + yy] == before[xx * h + yy]);
                    }
                }
                y = y + 1;
            }
            proof {
                assert(s@.len() == (x + 1) * h) by (nonlinear_arith)
                    requires
                        s@.len() == x * h + h,
                ;
            }
            x = x + 1;
        }
        s
    }
}

/// Whether a text is a map the game can read.
pub fn is_valid_map_text(text: &str) -> (r: bool)
    ensures
        r == valid_map_text(text.spec_bytes()),
{
    let bytes = text.as_bytes();
    let lines = split_lines(bytes);
    let ghost ls = lines_of(bytes@);
    if lines.len() == 0 {
        return false;
    }
    if bytes.len() > 0 && bytes[bytes.len() - 1] == 13u8 {
        return false;
    }
    let mut i: usize = 0;
    while i < lines.len()
        invariant
            lines@.len() == ls.len(),
            ls == lines_of(text.spec_bytes()),
            forall|j: int| 0 <= j < lines@.len() ==> #[trigger] lines@[j]@ == ls[j],
            i <= lines@.len(),
            forall|a: int, b: int| 0 <= a < i && 0 <= b < ls[a].len() ==> #[trigger] is_digit(ls[a][b]),
        decreases lines@.len() - i,
    {
        let line = &lines[i];
        let mut j: usize = 0;
        while j < line.len()
            invariant
                lines@.len() == ls.len(),
                ls == lines_of(text.spec_bytes()),
                forall|jj: int| 0 <= jj < lines@.len() ==> #[trigger] lines@[jj]@ == ls[jj],
                i < lines@.len(),
                line@ == ls[i as int],
                j <= line@.len(),
                forall|a: int, b: int| 0 <= a < i && 0 <= b < ls[a].len() ==> #[trigger] is_digit(ls[a][b]),
                forall|b: int| 0 <= b < j ==> #[trigger] is_digit(ls[i as int][b]),
            decreases line@.len() - j,
        {
            if line[j] < 48u8 || line[j] > 57u8 {
                assert(!is_digit(lines_of(text.spec_bytes())[i as int][j as int]));
                return false;
            }
            j = j + 1;
        }
        i = i + 1;
    }
    true
}

proof fn lemma_max_len(lines: Seq<Seq<u8>>, n: int)
    requires
        1 <= n <= lines.len(),
    ensures
        forall|i: int| 0 <= i < n ==> #[trigger] lines[i].len() <= max_len(lines, n),
        exists|i: int| 0 <= i < n && #[trigger] lines[i].len() == max_len(lines, n),
    decreases n,
{
    if n > 1 {
        lemma_max_len(lines, n - 1);
        if lines[n - 1].len() > max_len(lines, n - 1) {
            assert(lines[n - 1].len() == max_len(lines, n));
        } else {
            let j = choose|j: int| 0 <= j < n - 1 && #[trigger] lines[j].len() == max_len(lines, n - 1);
            assert(lines[j].len() == max_len(lines, n));
        }
    } else {
        assert(max_len(lines, 0) == 0);
        assert(lines[0].len() == max_len(lines, 1));
    }
}

/// A map read from text is as wide as its longest line; its bottom row is
/// the text's last line and its top row the first; every digit of a line
/// is the tile at its column in that line's row, and a line shorter than the
/// map leaves air after its end.
pub proof fn lemma_tiles_layout(b: Seq<u8>, t: Tiles, i: int, x: int)
    requires
        valid_map_text(b),
        spec_tiles(b, t),
        0 <= i < lines_of(b).len(),
        0 <= x < t.width,
    ensures
        forall|j: int| 0 <= j < lines_of(b).len() ==> #[trigger] lines_of(b)[j].len() <= t.width,
        exists|j: int| 0 <= j < lines_of(b).len() && #[trigger] lines_of(b)[j].len() == t.width,
        x < lines_of(b)[i].len() ==> t.data@[x * lines_of(b).len() + (lines_of(b).len() - 1 - i)]
            == lines_of(b)[i][x] - 48,
        x >= lines_of(b)[i].len() ==> t.data@[x * lines_of(b).len() + (lines_of(b).len() - 1 - i)]
            == AIR,
        t.data@[x * lines_of(b).len()] == tile_at(lines_of(b).last(), x),
        t.data@[x * lines_of(b).len() + (lines_of(b).len() - 1)] == tile_at(lines_of(b)[0], x),
{
    let lines = lines_of(b);
    let rows = lines.len() as int;
    lemma_max_len(lines, rows);
    let k = rows - 1 - i;
    assert(t.data@[x * rows + k] == tile_at(lines[rows - 1 - k], x));
    assert(t.data@[x * rows + 0] == tile_at(lines[rows - 1 - 0], x));
    assert(t.data@[x * rows + (rows - 1)] == tile_at(lines[rows - 1 - (rows - 1)], x));
    if x < lines[i].len() {
        assert(is_digit(lines[i][x]));
    }
}

} // verus!
