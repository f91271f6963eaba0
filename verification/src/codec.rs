//! The persisted text form of a tile layer.
//!
//! A grid is stored as newline-terminated rows, one ASCII digit per cell,
//! left to right.  Width is the length of the first row's digit run and
//! height the number of rows; characters after a row's digit run are
//! ignored, as is anything after the last newline.  Loading refuses an
//! empty grid and rows whose digit runs disagree in length; every cell a
//! load yields is a digit value, so a layer round-trips through this form
//! unchanged.

use vstd::prelude::*;

use crate::anim::sprite_wf;
use crate::map::{
    chest_fresh, fresh_chest, fresh_sprite, fresh_water_sprites, grid_of, map_wf, water_anim,
    Tile, TileMap,
};
use crate::units::{CELL_CAP, DIM_CAP};

verus! {

/// The newline byte that terminates each stored row.
pub const NEWLINE: u8 = 10;

/// Whether a byte is an ASCII digit.
pub open spec fn is_digit(b: u8) -> bool {
    48 <= b <= 57
}

/// The newline-terminated segments of a byte text.  A trailing segment
/// with no terminator is not a row and is dropped.
pub open spec fn text_lines(s: Seq<u8>) -> Seq<Seq<u8>>
    decreases s.len(),
{
    if s.len() == 0 {
        seq![]
    } else if s[0] == NEWLINE {
        seq![Seq::<u8>::empty()] + text_lines(s.drop_first())
    } else {
        let rest = text_lines(s.drop_first());
        if rest.len() == 0 {
            seq![]
        } else {
            seq![seq![s[0]] + rest[0]] + rest.drop_first()
        }
    }
}

/// The cell kinds of one stored row: the values of its leading digit run.
pub open spec fn row_digits(l: Seq<u8>) -> Seq<u8>
    decreases l.len(),
{
    if l.len() == 0 || !is_digit(l[0]) {
        seq![]
    } else {
        seq![(l[0] - 48) as u8] + row_digits(l.drop_first())
    }
}

/// The grid of kinds a byte text describes, row by row.
pub open spec fn rows_of(s: Seq<u8>) -> Seq<Seq<u8>> {
    text_lines(s).map_values(|l: Seq<u8>| row_digits(l))
}

/// Whether a byte text describes a loadable grid: at least one row, a
/// nonempty first row, every row as long as the first, and dimensions the
/// world admits.
pub open spec fn grid_text_ok(s: Seq<u8>) -> bool {
    let rows = rows_of(s);
    &&& rows.len() >= 1
    &&& rows[0].len() >= 1
    &&& rows.len() <= DIM_CAP
    &&& rows[0].len() <= DIM_CAP
    &&& forall|i: int| 0 <= i < rows.len() ==> (#[trigger] rows[i]).len() == rows[0].len()
}

/// Why a byte text is refused.
#[derive(Clone, Copy, PartialEq, Eq, Structural, Debug)]
pub enum MapError {
    /// No complete row, or a first row without a digit.
    Empty,
    /// More rows or columns than the world admits.
    TooLarge,
    /// A row whose digit run disagrees with the first row's length.
    Ragged,
}

/// The error a refused byte text is reported with.
pub open spec fn grid_text_err(s: Seq<u8>) -> MapError {
    let rows = rows_of(s);
    if rows.len() == 0 || rows[0].len() == 0 {
        MapError::Empty
    } else if rows.len() > DIM_CAP || rows[0].len() > DIM_CAP {
        MapError::TooLarge
    } else {
        MapError::Ragged
    }
}

/// One row in its stored form: each kind as its digit.
pub open spec fn ser_row(row: Seq<u8>) -> Seq<u8>
    decreases row.len(),
{
    if row.len() == 0 {
        seq![]
    } else {
        seq![(row[0] + 48) as u8] + ser_row(row.drop_first())
    }
}

/// A grid in its stored form: each row's digits, newline-terminated.
pub open spec fn ser_grid(g: Seq<Seq<u8>>) -> Seq<u8>
    decreases g.len(),
{
    if g.len() == 0 {
        seq![]
    } else {
        ser_row(g[0]) + seq![NEWLINE] + ser_grid(g.drop_first())
    }
}

/// A serialized row is exactly its digits: as long as the row, all digit
/// bytes, never a newline.
pub proof fn lemma_ser_row_digits(row: Seq<u8>)
    requires
        forall|i: int| 0 <= i < row.len() ==> #[trigger] row[i] <= 9,
    ensures
        ser_row(row).len() == row.len(),
        forall|i: int| 0 <= i < row.len() ==> is_digit(#[trigger] ser_row(row)[i]),
        forall|i: int| 0 <= i < row.len() ==> #[trigger] ser_row(row)[i] != NEWLINE,
        row_digits(ser_row(row)) == row,
    decreases row.len(),
{
    if row.len() > 0 {
        lemma_ser_row_digits(row.drop_first());
        assert(row_digits(ser_row(row)) =~= row) by {
            assert(ser_row(row).drop_first() =~= ser_row(row.drop_first()));
        }
        assert forall|i: int| 0 <= i < row.len() implies is_digit(#[trigger] ser_row(row)[i]) by {
            if i > 0 {
                assert(ser_row(row)[i] == ser_row(row.drop_first())[i - 1]);
            }
        }
    }
}

/// Text that holds no newline yields no row.
pub proof fn lemma_lines_of_unterminated(s: Seq<u8>)
    requires
        forall|i: int| 0 <= i < s.len() ==> #[trigger] s[i] != NEWLINE,
    ensures
        text_lines(s).len() == 0,
    decreases s.len(),
{
    if s.len() > 0 {
        lemma_lines_of_unterminated(s.drop_first());
    }
}

/// Prepending one newline-terminated, newline-free segment prepends one
/// row.
pub proof fn lemma_lines_prepend(row: Seq<u8>, rest: Seq<u8>)
    requires
        forall|i: int| 0 <= i < row.len() ==> #[trigger] row[i] != NEWLINE,
    ensures
        text_lines(row + seq![NEWLINE] + rest) == seq![row] + text_lines(rest),
    decreases row.len(),
{
    let s = row + seq![NEWLINE] + rest;
    if row.len() == 0 {
        assert(s =~= seq![NEWLINE] + rest);
        assert(s[0] == NEWLINE);
        assert(s.drop_first() =~= rest);
        assert(row =~= Seq::<u8>::empty());
        assert(text_lines(s) =~= seq![row] + text_lines(rest));
    } else {
        lemma_lines_prepend(row.drop_first(), rest);
        assert(s[0] == row[0] && s[0] != NEWLINE);
        assert(s.drop_first() =~= row.drop_first() + seq![NEWLINE] + rest);
        let inner = text_lines(s.drop_first());
        assert(inner == seq![row.drop_first()] + text_lines(rest));
        assert(inner.len() > 0);
        assert(text_lines(s) =~= seq![row] + text_lines(rest)) by {
            assert(seq![s[0]] + inner[0] =~= row);
            assert(inner.drop_first() =~= text_lines(rest));
        }
    }
}

/// Every value a digit run yields is a digit value, and the run is no
/// longer than its line.
pub proof fn lemma_row_digits_bounded(l: Seq<u8>)
    ensures
        forall|i: int| 0 <= i < row_digits(l).len() ==> #[trigger] row_digits(l)[i] <= 9,
        row_digits(l).len() <= l.len(),
    decreases l.len(),
{
    if l.len() > 0 && is_digit(l[0]) {
        lemma_row_digits_bounded(l.drop_first());
    }
}

/// Appending one kind to a row appends its digit to the stored form.
pub proof fn lemma_ser_row_snoc(row: Seq<u8>, k: u8)
    ensures
        ser_row(row.push(k)) == ser_row(row).push((k + 48) as u8),
    decreases row.len(),
{
    if row.len() == 0 {
        let e = Seq::<u8>::empty();
        assert(row.push(k).drop_first() =~= e);
        assert(row.push(k)[0] == k);
        assert(ser_row(e) == Seq::<u8>::empty());
        assert(ser_row(row) == Seq::<u8>::empty());
        assert(ser_row(row.push(k)) == seq![(k + 48) as u8] + ser_row(e));
        assert(ser_row(row.push(k)) =~= ser_row(row).push((k + 48) as u8));
    } else {
        lemma_ser_row_snoc(row.drop_first(), k);
        assert(row.push(k).drop_first() =~= row.drop_first().push(k));
        assert(ser_row(row.push(k)) =~= ser_row(row).push((k + 48) as u8));
    }
}

/// Appending one row to a grid appends its digits and a newline to the
/// stored form.
pub proof fn lemma_ser_grid_snoc(g: Seq<Seq<u8>>, row: Seq<u8>)
    ensures
        ser_grid(g.push(row)) == ser_grid(g) + ser_row(row) + seq![NEWLINE],
    decreases g.len(),
{
    if g.len() == 0 {
        let e = Seq::<Seq<u8>>::empty();
        assert(g.push(row).drop_first() =~= e);
        assert(g.push(row)[0] == row);
        assert(ser_grid(e) == Seq::<u8>::empty());
        assert(ser_grid(g) == Seq::<u8>::empty());
        assert(ser_grid(g.push(row)) == ser_row(row) + seq![NEWLINE] + ser_grid(e));
        assert(ser_grid(g.push(row)) =~= ser_grid(g) + ser_row(row) + seq![NEWLINE]);
    } else {
        lemma_ser_grid_snoc(g.drop_first(), row);
        assert(g.push(row).drop_first() =~= g.drop_first().push(row));
        assert(g.push(row)[0] == g[0]);
        assert(ser_grid(g.push(row)) =~= ser_grid(g) + ser_row(row) + seq![NEWLINE]);
    }
}

/// Split a byte text into its newline-terminated segments.
fn split_lines(bytes: &[u8]) -> (lines: Vec<Vec<u8>>)
    ensures
        lines@.map_values(|v: Vec<u8>| v@) == text_lines(bytes@),
{
    let n = bytes.len();
    let mut done: Vec<Vec<u8>> = Vec::new();
    let mut cur: Vec<u8> = Vec::new();
    let mut i: usize = 0;
    proof {
        assert(Seq::<u8>::empty() + bytes@.skip(0) =~= bytes@);
        assert(text_lines(bytes@) =~~= Seq::<Vec<u8>>::empty().map_values(|v: Vec<u8>| v@)
            + text_lines(Seq::<u8>::empty() + bytes@.skip(0)));
    }
    while i < n
        invariant
            i <= n,
            n == bytes@.len(),
            forall|k: int| 0 <= k < cur@.len() ==> #[trigger] cur@[k] != NEWLINE,
            text_lines(bytes@) =~~= done@.map_values(|v: Vec<u8>| v@) + text_lines(
                cur@ + bytes@.skip(i as int),
            ),
        decreases n - i,
    {
        let b = bytes[i];
        if b == NEWLINE {
            proof {
                lemma_lines_prepend(cur@, bytes@.skip(i as int + 1));
                assert(cur@ + bytes@.skip(i as int) =~= cur@ + seq![NEWLINE] + bytes@.skip(
                    i as int + 1,
                ));
                assert(done@.push(cur).map_values(|v: Vec<u8>| v@) =~= done@.map_values(
                    |v: Vec<u8>| v@,
                ).push(cur@));
                assert(Seq::<u8>::empty() + bytes@.skip(i as int + 1) =~= bytes@.skip(i as int + 1));
            }
            done.push(cur);
            cur = Vec::new();
        } else {
            proof {
                assert(cur@.push(b) + bytes@.skip(i as int + 1) =~= cur@ + bytes@.skip(i as int));
            }
            cur.push(b);
        }
        i = i + 1;
    }
    proof {
        lemma_lines_of_unterminated(cur@ + bytes@.skip(n as int));
        assert(text_lines(bytes@) =~~= done@.map_values(|v: Vec<u8>| v@));
    }
    done
}

/// The cell kinds of one line: the values of its leading digit run.
fn digits_prefix(line: &Vec<u8>) -> (row: Vec<u8>)
    ensures
        row@ == row_digits(line@),
{
    let n = line.len();
    let mut row: Vec<u8> = Vec::new();
    let mut j: usize = 0;
    proof {
        assert(line@.skip(0) =~= line@);
        assert(row_digits(line@) =~~= Seq::<u8>::empty() + row_digits(line@.skip(0)));
    }
    while j < n && 48 <= line[j] && line[j] <= 57
        invariant
            j <= n,
            n == line@.len(),
            row_digits(line@) =~~= row@ + row_digits(line@.skip(j as int)),
        decreases n - j,
    {
        let b = line[j];
        proof {
            assert(line@.skip(j as int)[0] == line@[j as int]);
            assert(line@.skip(j as int).drop_first() =~= line@.skip(j as int + 1));
            assert(row@.push((b - 48) as u8) + row_digits(line@.skip(j as int + 1)) =~~= row@ + (
            seq![(b - 48) as u8] + row_digits(line@.skip(j as int + 1))));
        }
        row.push(b - 48);
        j = j + 1;
    }
    proof {
        if j < n {
            assert(line@.skip(j as int)[0] == line@[j as int]);
            assert(row_digits(line@.skip(j as int)) =~= Seq::<u8>::empty());
        } else {
            assert(line@.skip(j as int) =~= Seq::<u8>::empty());
        }
        assert(row_digits(line@) =~= row@);
    }
    row
}

impl TileMap {
    /// Load a layer from its persisted text form: newline-terminated
    /// rows of one digit per cell.  Refuses an empty grid, dimensions the
    /// world does not admit, and rows of unequal length.
    pub fn from_bytes(bytes: &[u8], size: i64, wall: bool) -> (r: Result<TileMap, MapError>)
        requires
            1 <= size <= CELL_CAP,
        ensures
            r is Ok <==> grid_text_ok(bytes@),
            r matches Ok(m) ==> {
                &&& map_wf(m)
                &&& m.height == rows_of(bytes@).len()
                &&& m.width == rows_of(bytes@)[0].len()
                &&& grid_of(m) == rows_of(bytes@)
                &&& m.size == size
                &&& m.wall == wall
                &&& chest_fresh(m.chest)
                &&& m.animated@.len() == 2
                &&& fresh_sprite(m.animated@[0], water_anim(), 1800)
                &&& fresh_sprite(m.animated@[1], water_anim(), 1800)
            },
            r matches Err(e) ==> e == grid_text_err(bytes@),
    {
        let lines = split_lines(bytes);
        let n = lines.len();
        proof {
            assert(rows_of(bytes@).len() == n);
        }
        if n == 0 {
            return Err(MapError::Empty);
        }
        let mut rows: Vec<Vec<u8>> = Vec::new();
        let mut i: usize = 0;
        while i < n
            invariant
                i <= n,
                n == lines@.len(),
                rows@.len() == i,
                forall|k: int| 0 <= k < i ==> (#[trigger] rows@[k])@ == row_digits(lines@[k]@),
            decreases n - i,
        {
            let row = digits_prefix(&lines[i]);
            rows.push(row);
            i = i + 1;
        }
        proof {
            assert forall|k: int| 0 <= k < n implies #[trigger] rows_of(bytes@)[k]
                == rows@[k]@ by {
                assert(text_lines(bytes@)[k] == lines@.map_values(|v: Vec<u8>| v@)[k]);
            }
        }
        let w = rows[0].len();
        if w == 0 {
            return Err(MapError::Empty);
        }
        if n > DIM_CAP || w > DIM_CAP {
            return Err(MapError::TooLarge);
        }
        let mut i: usize = 0;
        while i < n
            invariant
                i <= n,
                n == rows@.len(),
                w == rows@[0]@.len(),
                1 <= w <= DIM_CAP,
                1 <= n <= DIM_CAP,
                forall|k: int| 0 <= k < i ==> (#[trigger] rows@[k])@.len() == w,
                forall|k: int| 0 <= k < n ==> #[trigger] rows_of(bytes@)[k] == rows@[k]@,
                n == rows_of(bytes@).len(),
            decreases n - i,
        {
            if rows[i].len() != w {
                proof {
                    assert(rows_of(bytes@)[i as int].len() != rows_of(bytes@)[0].len());
                    assert(!grid_text_ok(bytes@));
                }
                return Err(MapError::Ragged);
            }
            i = i + 1;
        }
        let mut vec: Vec<Vec<Tile>> = Vec::new();
        let mut r: usize = 0;
        while r < n
            invariant
                r <= n,
                n == rows@.len(),
                vec@.len() == r,
                forall|k: int| 0 <= k < n ==> (#[trigger] rows@[k])@.len() == w,
                forall|k: int| 0 <= k < r ==> (#[trigger] vec@[k])@.len() == w,
                forall|k: int, j: int|
                    0 <= k < r && 0 <= j < w ==> (#[trigger] vec@[k]@[j]).kind == rows@[k]@[j],
            decreases n - r,
        {
            let mut trow: Vec<Tile> = Vec::new();
            let mut c: usize = 0;
            while c < w
                invariant
                    c <= w,
                    r < n,
                    n == rows@.len(),
                    w == rows@[r as int]@.len(),
                    trow@.len() == c,
                    forall|j: int|
                        0 <= j < c ==> (#[trigger] trow@[j]).kind == rows@[r as int]@[j],
                decreases w - c,
            {
                let rr = &rows[r];
                trow.push(Tile::new(rr[c]));
                c = c + 1;
            }
            vec.push(trow);
            r = r + 1;
        }
        let m = TileMap {
            vec,
            width: w,
            height: n,
            size,
            wall,
            animated: fresh_water_sprites(),
            chest: fresh_chest(),
        };
        proof {
            assert forall|k: int, j: int|
                0 <= k < m.vec@.len() && 0 <= j < m.vec@[k]@.len() implies (
            #[trigger] m.vec@[k]@[j]).kind <= 9 by {
                lemma_row_digits_bounded(lines@[k]@);
                assert(rows_of(bytes@)[k] == rows@[k]@);
                assert(text_lines(bytes@)[k] == lines@.map_values(|v: Vec<u8>| v@)[k]);
            }
            assert(grid_of(m) =~~= rows_of(bytes@));
        }
        Ok(m)
    }

    /// Serialize the layer's grid to its persisted text form.
    pub fn to_bytes(&self) -> (out: Vec<u8>)
        requires
            map_wf(*self),
        ensures
            out@ == ser_grid(grid_of(*self)),
    {
        let g = Ghost(grid_of(*self));
        let mut out: Vec<u8> = Vec::new();
        let h = self.height;
        let w = self.width;
        let mut r: usize = 0;
        proof {
            assert(g@.take(0) =~= Seq::<Seq<u8>>::empty());
        }
        while r < h
            invariant
                r <= h,
                map_wf(*self),
                g@ == grid_of(*self),
                h == self.height,
                w == self.width,
                out@ == ser_grid(g@.take(r as int)),
            decreases h - r,
        {
            let mut c: usize = 0;
            proof {
                assert(g@[r as int].take(0) =~= Seq::<u8>::empty());
                assert(out@ + Seq::<u8>::empty() =~= out@);
            }
            let row_start = Ghost(out@);
            while c < w
                invariant
                    c <= w,
                    r < h,
                    map_wf(*self),
                    g@ == grid_of(*self),
                    h == self.height,
                    w == self.width,
                    g@[r as int].len() == w,
                    out@ == row_start@ + ser_row(g@[r as int].take(c as int)),
                decreases w - c,
            {
                let rowv = &self.vec[r];
                let k = rowv[c].kind;
                proof {
                    assert(g@[r as int][c as int] == self.vec@[r as int]@[c as int].kind);
                    assert(self.vec@[r as int]@[c as int].kind <= 9);
                    lemma_ser_row_snoc(g@[r as int].take(c as int), k);
                    assert(g@[r as int].take(c as int + 1) =~= g@[r as int].take(c as int).push(
                        g@[r as int][c as int],
                    ));
                }
                out.push(k + 48);
                c = c + 1;
            }
            proof {
                assert(g@[r as int].take(w as int) =~= g@[r as int]);
                lemma_ser_grid_snoc(g@.take(r as int), g@[r as int]);
                assert(g@.take(r as int + 1) =~= g@.take(r as int).push(g@[r as int]));
                assert(out@.push(NEWLINE) =~= row_start@ + ser_row(g@[r as int]) + seq![NEWLINE]);
            }
            out.push(NEWLINE);
            proof {
                assert(out@ == ser_grid(g@.take(r as int + 1)));
            }
            r = r + 1;
        }
        proof {
            assert(g@.take(h as int) =~= g@);
        }
        out
    }
}

/// Serializing a rectangular grid of digit kinds and reading the text
/// back yields the same grid.
pub proof fn lemma_grid_round_trip(g: Seq<Seq<u8>>)
    requires
        forall|r: int, c: int|
            0 <= r < g.len() && 0 <= c < (#[trigger] g[r]).len() ==> #[trigger] g[r][c] <= 9,
        forall|r: int| 0 <= r < g.len() ==> (#[trigger] g[r]).len() == g[0].len(),
    ensures
        text_lines(ser_grid(g)).len() == g.len(),
        rows_of(ser_grid(g)) == g,
    decreases g.len(),
{
    if g.len() == 0 {
        assert(rows_of(ser_grid(g)) =~= g);
    } else {
        let tail = g.drop_first();
        assert forall|r: int, c: int|
            0 <= r < tail.len() && 0 <= c < (#[trigger] tail[r]).len() implies #[trigger] tail[r][c]
            <= 9 by {
            assert(tail[r] == g[r + 1]);
        }
        assert forall|r: int| 0 <= r < tail.len() implies (#[trigger] tail[r]).len()
            == tail[0].len() by {
            assert(tail[r] == g[r + 1] && tail[0] == g[1]);
        }
        lemma_grid_round_trip(tail);
        assert(forall|c: int| 0 <= c < g[0].len() ==> #[trigger] g[0][c] <= 9);
        lemma_ser_row_digits(g[0]);
        lemma_lines_prepend(ser_row(g[0]), ser_grid(tail));
        assert(ser_grid(g) == ser_row(g[0]) + seq![NEWLINE] + ser_grid(tail));
        assert(text_lines(ser_grid(g)) == seq![ser_row(g[0])] + text_lines(ser_grid(tail)));
        assert(rows_of(ser_grid(g)) =~= g) by {
            assert forall|r: int| 0 <= r < g.len() implies #[trigger] rows_of(ser_grid(g))[r]
                == g[r] by {
                if r == 0 {
                    assert(text_lines(ser_grid(g))[0] == ser_row(g[0]));
                } else {
                    assert(text_lines(ser_grid(g))[r] == text_lines(ser_grid(tail))[r - 1]);
                    assert(rows_of(ser_grid(tail))[r - 1] == tail[r - 1]);
                }
            }
        }
    }
}

/// Round trip at the layer level: a valid layer's stored text is always
/// loadable, and loading it back yields the identical grid of kinds.
pub proof fn lemma_layer_round_trip(m: TileMap)
    requires
        map_wf(m),
    ensures
        grid_text_ok(ser_grid(grid_of(m))),
        rows_of(ser_grid(grid_of(m))) == grid_of(m),
{
    let g = grid_of(m);
    assert(g.len() == m.height);
    assert forall|r: int| 0 <= r < g.len() implies (#[trigger] g[r]).len() == m.width by {
        assert(m.vec@[r]@.len() == m.width);
    }
    assert forall|r: int, c: int|
        0 <= r < g.len() && 0 <= c < (#[trigger] g[r]).len() implies #[trigger] g[r][c] <= 9 by {
        assert(m.vec@[r]@[c].kind <= 9);
    }
    lemma_grid_round_trip(g);
}

} // verus!
