//! The scrolling heat-strip and the frame-period ring that shares its cursor.
use vstd::prelude::*;

verus! {

/// One colour cell of the raster.
#[derive(Clone, Copy, Debug, PartialEq, Eq, Structural)]
pub struct Rgb {
    pub r: u8,
    pub g: u8,
    pub b: u8,
}

/// The cell that shows a channel intensity: green only.
pub open spec fn intensity_cell(g: u8) -> Rgb {
    Rgb { r: 0, g, b: 0 }
}

/// How often column `c` of a raster `width` columns wide has been written
/// during the first `ticks` ticks of a run, the `k`-th tick (counting from 1)
/// writing column `k % width`.
pub open spec fn times_written(ticks: nat, width: nat, c: nat) -> nat
    decreases ticks,
{
    if ticks == 0 {
        0
    } else {
        times_written((ticks - 1) as nat, width, c) + if ticks % width == c {
            1nat
        } else {
            0nat
        }
    }
}

/// A `width` x `rows` grid of cells written one column per tick, left to
/// right, wrapping back to column 0 after the last one. The cursor marks the
/// most recently written column; a fresh raster has written none and its
/// cursor rests on column 0, so the first tick writes column 1.
pub struct ScrollingRaster {
    width: usize,
    rows: usize,
    cursor: usize,
    columns: Vec<Vec<Rgb>>,
    ticks: Ghost<nat>,
}

impl ScrollingRaster {
    pub closed spec fn spec_width(&self) -> nat {
        self.width as nat
    }

    pub closed spec fn spec_rows(&self) -> nat {
        self.rows as nat
    }

    /// The most recently written column (0 before any tick).
    pub closed spec fn spec_cursor(&self) -> nat {
        self.cursor as nat
    }

    /// Column-major contents: `spec_columns()[c][row]`.
    pub closed spec fn spec_columns(&self) -> Seq<Seq<Rgb>> {
        self.columns@.map_values(|col: Vec<Rgb>| col@)
    }

    /// Ticks since the raster was made.
    pub closed spec fn spec_ticks(&self) -> nat {
        self.ticks@
    }

    pub closed spec fn wf(&self) -> bool {
        &&& self.width > 0
        &&& self.columns@.len() == self.width
        &&& forall|c: int| 0 <= c < self.width ==> (#[trigger] self.columns@[c])@.len() == self.rows
        &&& self.cursor < self.width
        &&& self.cursor == self.ticks@ % (self.width as nat)
    }

    /// A black raster with its cursor on column 0.
    pub fn new(width: usize, rows: usize) -> (r: ScrollingRaster)
        requires
            width > 0,
        ensures
            r.wf(),
            r.spec_width() == width,
            r.spec_rows() == rows,
            r.spec_ticks() == 0,
            r.spec_cursor() == 0,
            forall|c: int, i: int|
                0 <= c < width && 0 <= i < rows ==> #[trigger] r.spec_columns()[c][i] == intensity_cell(0),
    {
        let mut columns: Vec<Vec<Rgb>> = Vec::with_capacity(width);
        let mut c: usize = 0;
        while c < width
            invariant
                c <= width,
                columns@.len() == c,
                forall|k: int| 0 <= k < c ==> (#[trigger] columns@[k])@ == Seq::new(
                    rows as nat,
                    |i: int| intensity_cell(0),
                ),
            decreases width - c,
        {
            let mut col: Vec<Rgb> = Vec::with_capacity(rows);
            let mut i: usize = 0;
            while i < rows
                invariant
                    i <= rows,
                    col@ =~= Seq::new(i as nat, |k: int| intensity_cell(0)),
                decreases rows - i,
            {
                col.push(Rgb { r: 0, g: 0, b: 0 });
                i = i + 1;
            }
            columns.push(col);
            c = c + 1;
        }
        proof {
            vstd::arithmetic::div_mod::lemma_small_mod(0, width as nat);
        }
        ScrollingRaster { width, rows, cursor: 0, columns, ticks: Ghost(0) }
    }

    /// The shape that well-formedness guarantees.
    pub proof fn lemma_shape(&self)
        requires
            self.wf(),
        ensures
            self.spec_width() > 0,
            self.spec_cursor() < self.spec_width(),
            self.spec_cursor() == self.spec_ticks() % self.spec_width(),
            self.spec_columns().len() == self.spec_width(),
            forall|c: int|
                0 <= c < self.spec_width() ==> (#[trigger] self.spec_columns()[c]).len()
                    == self.spec_rows(),
    {
    }

    pub fn width(&self) -> (r: usize)
        ensures
            r == self.spec_width(),
    {
        self.width
    }

    pub fn rows(&self) -> (r: usize)
        ensures
            r == self.spec_rows(),
    {
        self.rows
    }

    pub fn cursor(&self) -> (r: usize)
        ensures
            r == self.spec_cursor(),
    {
        self.cursor
    }

    /// The cell of channel `row` in column `col`.
    pub fn cell(&self, col: usize, row: usize) -> (r: Rgb)
        requires
            self.wf(),
            col < self.spec_width(),
            row < self.spec_rows(),
        ensures
            r == self.spec_columns()[col as int][row as int],
    {
        self.columns[col][row]
    }

    /// Advances the cursor with wraparound and writes the column it lands
    /// on, channel `i` showing green `greens[i]`. Returns the column written.
    pub fn write_column(&mut self, greens: &Vec<u8>) -> (c: usize)
        requires
            old(self).wf(),
            greens@.len() == old(self).spec_rows(),
        ensures
            final(self).wf(),
            c == (old(self).spec_cursor() + 1) % old(self).spec_width(),
            c < old(self).spec_width(),
            final(self).spec_cursor() == c,
            final(self).spec_width() == old(self).spec_width(),
            final(self).spec_rows() == old(self).spec_rows(),
            final(self).spec_ticks() == old(self).spec_ticks() + 1,
            final(self).spec_columns() == old(self).spec_columns().update(
                c as int,
                greens@.map_values(|g: u8| intensity_cell(g)),
            ),
    {
        let mut col: Vec<Rgb> = Vec::with_capacity(greens.len());
        let mut i: usize = 0;
        while i < greens.len()
            invariant
                i <= greens@.len(),
                col@ =~= greens@.subrange(0, i as int).map_values(|g: u8| intensity_cell(g)),
            decreases greens@.len() - i,
        {
            col.push(Rgb { r: 0, g: greens[i], b: 0 });
            i = i + 1;
        }
        assert(greens@.subrange(0, greens@.len() as int) =~= greens@);
        let c: usize = if self.cursor + 1 == self.width {
            0
        } else {
            self.cursor + 1
        };
        self.columns.set(c, col);
        self.cursor = c;
        self.ticks = Ghost(self.ticks@ + 1);
        proof {
            let w = self.width as nat;
            let t = old(self).ticks@;
            let k = old(self).cursor as nat;
            lemma_mod_step(t, w);
            if k + 1 < w {
                vstd::arithmetic::div_mod::lemma_small_mod(k + 1, w);
            } else {
                vstd::arithmetic::div_mod::lemma_mod_self_0(w as int);
            }
            assert(self.columns@ =~= old(self).columns@.update(c as int, col));
            assert(self.spec_columns() =~= old(self).spec_columns().update(
                c as int,
                greens@.map_values(|g: u8| intensity_cell(g)),
            ));
        }
        c
    }
}

/// One more tick moves `t % w` on by one, back to 0 at the end of a lap.
pub proof fn lemma_mod_step(t: nat, w: nat)
    requires
        w > 0,
    ensures
        t % w + 1 < w ==> (t + 1) / w == t / w && (t + 1) % w == t % w + 1,
        t % w + 1 >= w ==> (t + 1) / w == t / w + 1 && (t + 1) % w == 0,
{
    let q = (t / w) as int;
    let r = (t % w) as int;
    vstd::arithmetic::div_mod::lemma_fundamental_div_mod(t as int, w as int);
    assert(t + 1 == q * w + r + 1) by (nonlinear_arith)
        requires
            t == w * q + r,
    ;
    if r + 1 < w {
        vstd::arithmetic::div_mod::lemma_fundamental_div_mod_converse(
            (t + 1) as int,
            w as int,
            q,
            r + 1,
        );
    } else {
        assert(t + 1 == (q + 1) * w + 0) by (nonlinear_arith)
            requires
                t + 1 == q * w + r + 1,
                r + 1 == w,
        ;
        vstd::arithmetic::div_mod::lemma_fundamental_div_mod_converse((t + 1) as int, w as int, q + 1, 0);
    }
}

/// Column `c` has been written once per completed lap, and once more if it
/// lies in `1..=ticks % width`, the part of the current lap already done.
pub proof fn lemma_times_written(ticks: nat, width: nat, c: nat)
    requires
        width > 0,
        c < width,
    ensures
        times_written(ticks, width, c) == ticks / width + if 0 < c <= ticks % width {
            1nat
        } else {
            0nat
        },
    decreases ticks,
{
    if ticks > 0 {
        let t = (ticks - 1) as nat;
        lemma_times_written(t, width, c);
        lemma_mod_step(t, width);
    } else {
        vstd::arithmetic::div_mod::lemma_small_mod(0, width);
        vstd::arithmetic::div_mod::lemma_basic_div(0, width as int);
    }
}

/// A raster that has seen exactly one lap of ticks since it was made has its
/// cursor back on column 0 and has written every column exactly once; column
/// 0 was written by the last of those ticks, the wrap from `width - 1` to 0.
pub proof fn lemma_full_lap(r: ScrollingRaster)
    requires
        r.wf(),
        r.spec_ticks() == r.spec_width(),
    ensures
        r.spec_cursor() == 0,
        forall|c: nat| c < r.spec_width() ==> #[trigger] times_written(r.spec_ticks(), r.spec_width(), c) == 1,
        times_written((r.spec_ticks() - 1) as nat, r.spec_width(), 0) == 0,
{
    let w = r.spec_width();
    vstd::arithmetic::div_mod::lemma_mod_self_0(w as int);
    vstd::arithmetic::div_mod::lemma_div_by_self(w as int);
    assert forall|c: nat| c < w implies #[trigger] times_written(w, w, c) == 1 by {
        lemma_times_written(w, w, c);
    }
    let t = (w - 1) as nat;
    vstd::arithmetic::div_mod::lemma_small_mod(t, w);
    vstd::arithmetic::div_mod::lemma_basic_div(t as int, w as int);
    lemma_times_written(t, w, 0);
}

} // verus!
