//! Shields: letter-shaped bitmaps that projectiles wear away segment by segment.

use crate::utils::position::Position;
use crate::utils::units::{plus, PIXEL};
use vstd::prelude::*;

verus! {

/// The letter that a shield is shaped like.
#[derive(Clone, Copy, PartialEq, Eq, Debug, Structural)]
pub enum ShieldType {
    UppercaseC,
    UppercaseO,
    UppercaseR,
    UppercaseT,
    UppercaseW,
}

/// Rows of a freshly made shield's bitmap.
pub const SHIELD_ROWS: usize = 7;

/// Columns of a freshly made shield's bitmap.
pub const SHIELD_COLS: usize = 13;

/// Width of a freshly made shield.
pub const SHIELD_WIDTH: i64 = 100 * PIXEL;

/// Height of a freshly made shield.
pub const SHIELD_HEIGHT: i64 = 50 * PIXEL;

/// A shield. `position` is its top left corner; `segments` holds one row of
/// flags after another, top row first, and a flag is set while its segment
/// still stands.
#[derive(Clone, PartialEq, Eq, Debug)]
pub struct Shield {
    pub position: Position,
    pub width: i64,
    pub height: i64,
    pub shield_type: ShieldType,
    pub segments: Vec<Vec<bool>>,
}

/// A shield as a mathematical value.
#[verifier::ext_equal]
pub struct ShieldView {
    pub position: Position,
    pub width: i64,
    pub height: i64,
    pub shield_type: ShieldType,
    pub segments: Seq<Seq<bool>>,
}

impl View for Shield {
    type V = ShieldView;

    open spec fn view(&self) -> ShieldView {
        ShieldView {
            position: self.position,
            width: self.width,
            height: self.height,
            shield_type: self.shield_type,
            segments: self.segments.deep_view(),
        }
    }
}

impl ShieldView {
    /// Number of rows of the bitmap.
    pub open spec fn rows(self) -> int {
        self.segments.len() as int
    }

    /// Number of columns of the bitmap, which is the length of its top row.
    pub open spec fn cols(self) -> int {
        if self.segments.len() > 0 {
            self.segments[0].len() as int
        } else {
            0
        }
    }

    /// The bitmap is a rectangle with at least one segment.
    pub open spec fn wf(self) -> bool {
        &&& self.rows() > 0
        &&& self.cols() > 0
        &&& forall|r: int| 0 <= r < self.rows() ==> (#[trigger] self.segments[r]).len() == self.cols()
    }

    /// The point `(x, y)` lies in the shield's rectangle, whose right and
    /// bottom edges are outside it.
    pub open spec fn covers(self, x: int, y: int) -> bool {
        &&& self.position.x <= x < self.position.x + self.width
        &&& self.position.y <= y < self.position.y + self.height
    }

    /// The column that `x` falls into when the shield's width is cut into
    /// `cols()` equal parts.
    pub open spec fn col_of(self, x: int) -> int {
        (x - self.position.x) * self.cols() / (self.width as int)
    }

    /// The row that `y` falls into when the shield's height is cut into
    /// `rows()` equal parts.
    pub open spec fn row_of(self, y: int) -> int {
        (y - self.position.y) * self.rows() / (self.height as int)
    }

    /// The segment in row `r` and column `c` exists and still stands.
    pub open spec fn stands(self, r: int, c: int) -> bool {
        &&& 0 <= r < self.segments.len()
        &&& 0 <= c < self.segments[r].len()
        &&& self.segments[r][c]
    }

    /// The point `(x, y)` lies on a segment that still stands.
    pub open spec fn solid_at(self, x: int, y: int) -> bool {
        self.covers(x, y) && self.stands(self.row_of(y), self.col_of(x))
    }

    /// The shield without the segment in row `r` and column `c`.
    pub open spec fn without(self, r: int, c: int) -> ShieldView {
        ShieldView { segments: self.segments.update(r, self.segments[r].update(c, false)), ..self }
    }

    /// The shield after a shot at `(x, y)`, and whether the shot hit: a
    /// standing segment under the point is cleared, and nothing else changes.
    pub open spec fn shot_at(self, x: int, y: int) -> (ShieldView, bool) {
        if self.solid_at(x, y) {
            (self.without(self.row_of(y), self.col_of(x)), true)
        } else {
            (self, false)
        }
    }

    /// The shield after a rectangle with top left corner `(x, y)`, width `w`
    /// and height `h` has probed it, and whether a corner hit. The corners are
    /// tried top left, top right, bottom left, bottom right; the first one on
    /// a standing segment clears it and ends the probe.
    pub open spec fn probed(self, x: i64, y: i64, w: i64, h: i64) -> (ShieldView, bool) {
        let right = plus(x, w);
        let bottom = plus(y, h);
        if self.solid_at(x as int, y as int) {
            self.shot_at(x as int, y as int)
        } else if self.solid_at(right as int, y as int) {
            self.shot_at(right as int, y as int)
        } else if self.solid_at(x as int, bottom as int) {
            self.shot_at(x as int, bottom as int)
        } else {
            self.shot_at(right as int, bottom as int)
        }
    }
}

/// An offset `d` into a length `size` that is cut into `n` equal parts falls
/// into one of the parts, and the product that finds it fits 128 bits.
proof fn lemma_cell_index(d: int, n: int, size: int)
    requires
        0 <= d < size <= i64::MAX,
        0 <= n <= u64::MAX,
    ensures
        0 <= d * n <= i128::MAX,
        0 <= d * n / size,
        n > 0 ==> d * n / size < n,
{
    assert(0 <= d * n <= 0x7fff_ffff_ffff_ffff * 0xffff_ffff_ffff_ffff) by (nonlinear_arith)
        requires
            0 <= d <= 0x7fff_ffff_ffff_ffff,
            0 <= n <= 0xffff_ffff_ffff_ffff,
    ;
    assert(0 <= d * n / size) by (nonlinear_arith)
        requires
            0 <= d * n,
            0 < size,
    ;
    if n > 0 {
        assert(d * n / size < n) by (nonlinear_arith)
            requires
                0 <= d < size,
                0 < n,
        ;
    }
}

/// Whether the segment in row `r` and column `c` of a fresh shield of the
/// given type stands. Each letter is drawn with strokes three segments wide
/// on a grid of `SHIELD_ROWS` by `SHIELD_COLS`.
pub open spec fn glyph_cell(shield_type: ShieldType, r: int, c: int) -> bool {
    match shield_type {
        // Two bars joined on the left, with the outer corners cut.
        ShieldType::UppercaseC => {
            if r == 0 || r == 6 {
                1 <= c <= 11
            } else if r == 1 || r == 5 {
                true
            } else {
                c <= 2
            }
        },
        // The same, closed on the right.
        ShieldType::UppercaseO => {
            if r == 0 || r == 6 {
                1 <= c <= 11
            } else if r == 1 || r == 5 {
                true
            } else {
                c <= 2 || c >= 10
            }
        },
        // A stem, a bowl over rows 0 to 3, and a leg that runs down to the right.
        ShieldType::UppercaseR => {
            if r == 0 || r == 3 {
                c <= 9
            } else if r == 1 || r == 2 {
                c <= 2 || 8 <= c <= 10
            } else {
                c <= 2 || r <= c <= r + 2
            }
        },
        // A bar two rows high on a stem five segments wide.
        ShieldType::UppercaseT => {
            if r <= 1 {
                true
            } else {
                4 <= c <= 8
            }
        },
        // Two stems with a peak that rises between them from the bottom row.
        ShieldType::UppercaseW => {
            if r <= 2 {
                c <= 2 || c >= 10
            } else if r == 3 {
                c <= 2 || c == 6 || c >= 10
            } else if r == 4 {
                c <= 2 || 5 <= c <= 7 || c >= 10
            } else if r == 5 {
                c <= 2 || 4 <= c <= 5 || 7 <= c <= 8 || c >= 10
            } else {
                1 <= c <= 4 || 8 <= c <= 11
            }
        },
    }
}

/// The bitmap of a fresh shield of the given type.
pub open spec fn glyph(shield_type: ShieldType) -> Seq<Seq<bool>> {
    Seq::new(
        SHIELD_ROWS as nat,
        |r: int| Seq::new(SHIELD_COLS as nat, |c: int| glyph_cell(shield_type, r, c)),
    )
}

/// Whether `rows` is the bitmap of a fresh shield of the given type.
pub open spec fn draws(rows: Seq<Seq<bool>>, shield_type: ShieldType) -> bool {
    &&& rows.len() == SHIELD_ROWS
    &&& forall|r: int| 0 <= r < SHIELD_ROWS ==> (#[trigger] rows[r]).len() == SHIELD_COLS
    &&& forall|r: int, c: int|
        0 <= r < SHIELD_ROWS && 0 <= c < SHIELD_COLS ==> #[trigger] rows[r][c] == glyph_cell(
            shield_type,
            r,
            c,
        )
}

/// A bitmap that `draws` a letter is that letter's `glyph`.
pub proof fn lemma_draws_is_glyph(rows: Seq<Seq<bool>>, shield_type: ShieldType)
    requires
        draws(rows, shield_type),
    ensures
        rows == glyph(shield_type),
{
    assert forall|r: int| 0 <= r < SHIELD_ROWS implies rows[r] =~= glyph(shield_type)[r] by {
        assert forall|c: int| 0 <= c < SHIELD_COLS implies rows[r][c] == glyph(shield_type)[r][c] by {
        }
    }
}

fn create_letter_c() -> (rows: Vec<Vec<bool>>)
    ensures
        rows.deep_view() == glyph(ShieldType::UppercaseC),
{
    let rows = vec![
        vec![false, true, true, true, true, true, true, true, true, true, true, true, false],
        vec![true, true, true, true, true, true, true, true, true, true, true, true, true],
        vec![true, true, true, false, false, false, false, false, false, false, false, false, false],
        vec![true, true, true, false, false, false, false, false, false, false, false, false, false],
        vec![true, true, true, false, false, false, false, false, false, false, false, false, false],
        vec![true, true, true, true, true, true, true, true, true, true, true, true, true],
        vec![false, true, true, true, true, true, true, true, true, true, true, true, false],
    ];
    proof {
        lemma_draws_is_glyph(rows.deep_view(), ShieldType::UppercaseC);
    }
    rows
}

fn create_letter_o() -> (rows: Vec<Vec<bool>>)
    ensures
        rows.deep_view() == glyph(ShieldType::UppercaseO),
{
    let rows = vec![
        vec![false, true, true, true, true, true, true, true, true, true, true, true, false],
        vec![true, true, true, true, true, true, true, true, true, true, true, true, true],
        vec![true, true, true, false, false, false, false, false, false, false, true, true, true],
        vec![true, true, true, false, false, false, false, false, false, false, true, true, true],
        vec![true, true, true, false, false, false, false, false, false, false, true, true, true],
        vec![true, true, true, true, true, true, true, true, true, true, true, true, true],
        vec![false, true, true, true, true, true, true, true, true, true, true, true, false],
    ];
    proof {
        lemma_draws_is_glyph(rows.deep_view(), ShieldType::UppercaseO);
    }
    rows
}

fn create_letter_r() -> (rows: Vec<Vec<bool>>)
    ensures
        rows.deep_view() == glyph(ShieldType::UppercaseR),
{
    let rows = vec![
        vec![true, true, true, true, true, true, true, true, true, true, false, false, false],
        vec![true, true, true, false, false, false, false, false, true, true, true, false, false],
        vec![true, true, true, false, false, false, false, false, true, true, true, false, false],
        vec![true, true, true, true, true, true, true, true, true, true, false, false, false],
        vec![true, true, true, false, true, true, true, false, false, false, false, false, false],
        vec![true, true, true, false, false, true, true, true, false, false, false, false, false],
        vec![true, true, true, false, false, false, true, true, true, false, false, false, false],
    ];
    proof {
        lemma_draws_is_glyph(rows.deep_view(), ShieldType::UppercaseR);
    }
    rows
}

fn create_letter_t() -> (rows: Vec<Vec<bool>>)
    ensures
        rows.deep_view() == glyph(ShieldType::UppercaseT),
{
    let rows = vec![
        vec![true, true, true, true, true, true, true, true, true, true, true, true, true],
        vec![true, true, true, true, true, true, true, true, true, true, true, true, true],
        vec![false, false, false, false, true, true, true, true, true, false, false, false, false],
        vec![false, false, false, false, true, true, true, true, true, false, false, false, false],
        vec![false, false, false, false, true, true, true, true, true, false, false, false, false],
        vec![false, false, false, false, true, true, true, true, true, false, false, false, false],
        vec![false, false, false, false, true, true, true, true, true, false, false, false, false],
    ];
    proof {
        lemma_draws_is_glyph(rows.deep_view(), ShieldType::UppercaseT);
    }
    rows
}

fn create_letter_w() -> (rows: Vec<Vec<bool>>)
    ensures
        rows.deep_view() == glyph(ShieldType::UppercaseW),
{
    let rows = vec![
        vec![true, true, true, false, false, false, false, false, false, false, true, true, true],
        vec![true, true, true, false, false, false, false, false, false, false, true, true, true],
        vec![true, true, true, false, false, false, false, false, false, false, true, true, true],
        vec![true, true, true, false, false, false, true, false, false, false, true, true, true],
        vec![true, true, true, false, false, true, true, true, false, false, true, true, true],
        vec![true, true, true, false, true, true, false, true, true, false, true, true, true],
        vec![false, true, true, true, true, false, false, false, true, true, true, true, false],
    ];
    proof {
        lemma_draws_is_glyph(rows.deep_view(), ShieldType::UppercaseW);
    }
    rows
}

/// The bitmap of a fresh shield of the given type: seven rows of thirteen
/// segments, set where the letter is drawn.
pub fn create_shield_segments(shield_type: ShieldType) -> (rows: Vec<Vec<bool>>)
    ensures
        rows.deep_view() == glyph(shield_type),
{
    match shield_type {
        ShieldType::UppercaseC => create_letter_c(),
        ShieldType::UppercaseR => create_letter_r(),
        ShieldType::UppercaseT => create_letter_t(),
        ShieldType::UppercaseW => create_letter_w(),
        ShieldType::UppercaseO => create_letter_o(),
    }
}

impl Shield {
    /// A fresh shield of the given type with its top left corner at `(x, y)`.
    pub fn new(x: i64, y: i64, shield_type: ShieldType) -> (shield: Self)
        ensures
            shield@ == (ShieldView {
                position: Position { x, y },
                width: SHIELD_WIDTH,
                height: SHIELD_HEIGHT,
                shield_type,
                segments: glyph(shield_type),
            }),
            shield@.wf(),
    {
        let segments = create_shield_segments(shield_type);
        Self {
            position: Position::new(x, y),
            width: SHIELD_WIDTH,
            height: SHIELD_HEIGHT,
            shield_type,
            segments,
        }
    }

    /// Shoots at the point `(x, y)`. A standing segment under the point is
    /// cleared and the shot is a hit; otherwise the shield stays as it is.
    pub fn is_hit(&mut self, x: i64, y: i64) -> (hit: bool)
        ensures
            hit == old(self)@.solid_at(x as int, y as int),
            final(self)@ == old(self)@.shot_at(x as int, y as int).0,
            old(self)@.wf() ==> final(self)@.wf(),
    {
        let rows = self.segments.len();
        if rows == 0 {
            return false;
        }
        let cols = self.segments[0].len();
        let dx: i128 = x as i128 - self.position.x as i128;
        let dy: i128 = y as i128 - self.position.y as i128;
        if dx < 0 || dx >= self.width as i128 || dy < 0 || dy >= self.height as i128 {
            return false;
        }
        proof {
            lemma_cell_index(dx as int, cols as int, self.width as int);
            lemma_cell_index(dy as int, rows as int, self.height as int);
        }
        let c: i128 = dx * (cols as i128) / (self.width as i128);
        let r: i128 = dy * (rows as i128) / (self.height as i128);
        let r = r as usize;
        let c = c as usize;
        if c >= self.segments[r].len() {
            return false;
        }
        if self.segments[r][c] {
            self.segments[r][c] = false;
            proof {
                let before = old(self)@.segments;
                let after = before.update(r as int, before[r as int].update(c as int, false));
                assert forall|i: int| 0 <= i < after.len() implies self@.segments[i] =~= after[i] by {}
                lemma_shot_keeps_shape(old(self)@, x as int, y as int);
            }
            true
        } else {
            false
        }
    }

    /// Probes the shield with the four corners of a projectile whose top left
    /// corner is `(proj_x, proj_y)`: top left, top right, bottom left, bottom
    /// right. The first corner on a standing segment clears it, and the probe
    /// ends there with a hit.
    pub fn check_projectile_collision(
        &mut self,
        proj_x: i64,
        proj_y: i64,
        proj_width: i64,
        proj_height: i64,
    ) -> (hit: bool)
        ensures
            hit == old(self)@.probed(proj_x, proj_y, proj_width, proj_height).1,
            final(self)@ == old(self)@.probed(proj_x, proj_y, proj_width, proj_height).0,
            old(self)@.wf() ==> final(self)@.wf(),
    {
        proof {
            lemma_probe_keeps_shape(self@, proj_x, proj_y, proj_width, proj_height);
        }
        let right = plus(proj_x, proj_width);
        let bottom = plus(proj_y, proj_height);
        if self.is_hit(proj_x, proj_y) {
            return true;
        }
        if self.is_hit(right, proj_y) {
            return true;
        }
        if self.is_hit(proj_x, bottom) {
            return true;
        }
        self.is_hit(right, bottom)
    }
}

/// A shot leaves the shape of the bitmap alone, and a bitmap that was a
/// rectangle stays one.
pub proof fn lemma_shot_keeps_shape(s: ShieldView, x: int, y: int)
    ensures
        s.shot_at(x, y).0.rows() == s.rows(),
        s.shot_at(x, y).0.cols() == s.cols(),
        forall|r: int|
            0 <= r < s.rows() ==> (#[trigger] s.shot_at(x, y).0.segments[r]).len() == s.segments[r].len(),
        s.wf() ==> s.shot_at(x, y).0.wf(),
        s.shot_at(x, y).0.position == s.position,
        s.shot_at(x, y).0.width == s.width,
        s.shot_at(x, y).0.height == s.height,
        s.shot_at(x, y).0.shield_type == s.shield_type,
{
}

/// A probe leaves a shield's place, size and letter and the shape of its
/// bitmap alone.
pub proof fn lemma_probe_keeps_shape(s: ShieldView, x: i64, y: i64, w: i64, h: i64)
    ensures
        s.probed(x, y, w, h).0.position == s.position,
        s.probed(x, y, w, h).0.width == s.width,
        s.probed(x, y, w, h).0.height == s.height,
        s.probed(x, y, w, h).0.shield_type == s.shield_type,
        s.probed(x, y, w, h).0.rows() == s.rows(),
        s.probed(x, y, w, h).0.cols() == s.cols(),
        s.wf() ==> s.probed(x, y, w, h).0.wf(),
{
    let right = plus(x, w);
    let bottom = plus(y, h);
    lemma_shot_keeps_shape(s, x as int, y as int);
    lemma_shot_keeps_shape(s, right as int, y as int);
    lemma_shot_keeps_shape(s, x as int, bottom as int);
    lemma_shot_keeps_shape(s, right as int, bottom as int);
}

/// A cleared segment reports no second hit: a shot at `(x, y)`, whether it
/// hit or not, leaves nothing at `(x, y)` for the next shot there, which
/// misses and changes nothing.
pub proof fn law_second_shot_misses(s: ShieldView, x: int, y: int)
    ensures
        !s.shot_at(x, y).0.solid_at(x, y),
        !s.shot_at(x, y).0.shot_at(x, y).1,
        s.shot_at(x, y).0.shot_at(x, y).0 == s.shot_at(x, y).0,
{
    lemma_shot_keeps_shape(s, x, y);
}

/// Segments never come back: whatever stands after a shot stood before it.
pub proof fn law_segments_never_return(s: ShieldView, x: int, y: int, r: int, c: int)
    requires
        s.shot_at(x, y).0.stands(r, c),
    ensures
        s.stands(r, c),
{
}

/// Whatever stands after a probe stood before it.
pub proof fn law_probe_only_clears(s: ShieldView, x: i64, y: i64, w: i64, h: i64, r: int, c: int)
    requires
        s.probed(x, y, w, h).0.stands(r, c),
    ensures
        s.stands(r, c),
{
}

/// A shot that hits clears exactly one segment: the one under the point.
pub proof fn law_hit_clears_one_segment(s: ShieldView, x: int, y: int, r: int, c: int)
    requires
        s.shot_at(x, y).1,
        s.stands(r, c),
    ensures
        s.shot_at(x, y).0.stands(r, c) <==> !(r == s.row_of(y) && c == s.col_of(x)),
{
}

} // verus!
