//! Aliens and the formation that they advance in.

use crate::utils::position::Position;
use crate::utils::units::{minus, plus, times, PIXEL};
use vstd::prelude::*;

verus! {

/// Width of the playfield.
pub const GAME_WIDTH: i64 = 1024 * PIXEL;

/// How close to a side of the playfield the formation comes before it turns.
pub const EDGE_MARGIN: i64 = 20 * PIXEL;

/// Rows of a fresh formation.
pub const FORMATION_ROWS: usize = 5;

/// Aliens in each row of a fresh formation.
pub const FORMATION_COLS: usize = 11;

/// Distance between neighbours in a fresh formation, both ways.
pub const FORMATION_SPACING: i64 = 50 * PIXEL;

/// Left edge of a fresh formation, which is centred on the playfield.
pub const FORMATION_LEFT: i64 = 237 * PIXEL;

/// Top edge of a fresh formation.
pub const FORMATION_TOP: i64 = 50 * PIXEL;

/// How far a fresh formation moves sideways in one step.
pub const FORMATION_SPEED: i64 = 20 * PIXEL;

/// How long a fresh formation waits between two steps.
pub const FORMATION_INTERVAL: i64 = 500_000;

/// The shortest wait between two steps, approached as the formation thins.
pub const SHORTEST_INTERVAL: i64 = 100_000;

/// What a full formation waits on top of `SHORTEST_INTERVAL`.
pub const INTERVAL_SPAN: i64 = 400_000;

/// How far the formation comes down when it turns at a side.
pub const DESCENT: i64 = 20 * PIXEL;

/// The three kinds of alien.
#[derive(Clone, Copy, PartialEq, Eq, Debug, Structural)]
pub enum AlienType {
    Small,
    Medium,
    Large,
}

impl AlienType {
    /// What destroying an alien of this kind is worth.
    pub open spec fn spec_points(&self) -> i32 {
        match self {
            AlienType::Small => 30,
            AlienType::Medium => 20,
            AlienType::Large => 10,
        }
    }

    /// Width and height of an alien of this kind.
    pub open spec fn spec_size(&self) -> (i64, i64) {
        match self {
            AlienType::Small => ((30 * PIXEL) as i64, (30 * PIXEL) as i64),
            AlienType::Medium => ((35 * PIXEL) as i64, (30 * PIXEL) as i64),
            AlienType::Large => ((40 * PIXEL) as i64, (30 * PIXEL) as i64),
        }
    }

    /// What destroying an alien of this kind is worth: the smaller the
    /// alien, the more.
    #[verifier::when_used_as_spec(spec_points)]
    pub fn points(&self) -> (p: i32)
        ensures
            p == self.spec_points(),
    {
        match self {
            AlienType::Small => 30,
            AlienType::Medium => 20,
            AlienType::Large => 10,
        }
    }

    /// Width and height of an alien of this kind.
    #[verifier::when_used_as_spec(spec_size)]
    pub fn size(&self) -> (s: (i64, i64))
        ensures
            s == self.spec_size(),
    {
        match self {
            AlienType::Small => (30 * PIXEL, 30 * PIXEL),
            AlienType::Medium => (35 * PIXEL, 30 * PIXEL),
            AlienType::Large => (40 * PIXEL, 30 * PIXEL),
        }
    }
}

/// An alien. `position` is its top left corner. A destroyed alien keeps its
/// place in the formation with `is_alive` cleared.
#[derive(Clone, Copy, PartialEq, Eq, Debug, Structural)]
pub struct Alien {
    pub position: Position,
    pub alien_type: AlienType,
    pub width: i64,
    pub height: i64,
    pub is_alive: bool,
    /// Counts the steps that the alien has taken; its parity picks the pose.
    pub animation_frame: usize,
}

impl Alien {
    /// A living alien of the given kind with its top left corner at `(x, y)`.
    pub open spec fn fresh(x: i64, y: i64, alien_type: AlienType) -> Alien {
        Alien {
            position: Position { x, y },
            alien_type,
            width: alien_type.size().0,
            height: alien_type.size().1,
            is_alive: true,
            animation_frame: 0,
        }
    }

    /// The alien lives and its leading edge, for a formation that moves in
    /// `direction`, is within `EDGE_MARGIN` of the side of the playfield
    /// that the formation moves towards.
    pub open spec fn at_edge(self, direction: i64) -> bool {
        &&& self.is_alive
        &&& {
            ||| direction > 0 && self.position.x + self.width >= GAME_WIDTH - EDGE_MARGIN
            ||| direction < 0 && self.position.x <= EDGE_MARGIN
        }
    }

    /// The `y` of the alien's lower edge.
    pub open spec fn bottom(self) -> i64 {
        plus(self.position.y, self.height)
    }

    /// The alien after one step of its formation: moved sideways by `dx`,
    /// down by `dy`, and in its next pose. A destroyed alien stays as it is.
    pub open spec fn stepped(self, dx: i64, dy: i64) -> Alien {
        if self.is_alive {
            Alien {
                position: Position { x: plus(self.position.x, dx), y: plus(self.position.y, dy) },
                animation_frame: if self.animation_frame == usize::MAX {
                    0
                } else {
                    (self.animation_frame + 1) as usize
                },
                ..self
            }
        } else {
            self
        }
    }

    /// A living alien of the given kind with its top left corner at `(x, y)`.
    pub fn new(x: i64, y: i64, alien_type: AlienType) -> (a: Self)
        ensures
            a == Alien::fresh(x, y, alien_type),
    {
        let (width, height) = alien_type.size();
        Self { position: Position::new(x, y), alien_type, width, height, is_alive: true, animation_frame: 0 }
    }
}

/// The aliens, in rows from the top and from left to right in each row, and
/// how they move together. `speed` is the length of one sideways step and
/// `move_timer` the time since the last one.
#[derive(Clone, PartialEq, Eq, Debug)]
pub struct AlienFormation {
    pub aliens: Vec<Alien>,
    pub direction: i64,
    pub speed: i64,
    pub move_timer: i64,
    pub move_interval: i64,
    pub should_descend: bool,
    pub aliens_killed: usize,
}

/// A formation as a mathematical value.
#[verifier::ext_equal]
pub struct FormationView {
    pub aliens: Seq<Alien>,
    pub direction: i64,
    pub speed: i64,
    pub move_timer: i64,
    pub move_interval: i64,
    pub should_descend: bool,
    pub aliens_killed: usize,
}

impl View for AlienFormation {
    type V = FormationView;

    open spec fn view(&self) -> FormationView {
        FormationView {
            aliens: self.aliens@,
            direction: self.direction,
            speed: self.speed,
            move_timer: self.move_timer,
            move_interval: self.move_interval,
            should_descend: self.should_descend,
            aliens_killed: self.aliens_killed,
        }
    }
}

/// The kind of the aliens in row `row` of a fresh formation.
pub open spec fn row_type(row: int) -> AlienType {
    if row == 0 {
        AlienType::Small
    } else if row == 1 || row == 2 {
        AlienType::Medium
    } else {
        AlienType::Large
    }
}

/// The alien at index `i` of a fresh formation.
pub open spec fn grid_alien(i: int) -> Alien {
    Alien::fresh(
        (FORMATION_LEFT + (i % (FORMATION_COLS as int)) * FORMATION_SPACING) as i64,
        (FORMATION_TOP + (i / (FORMATION_COLS as int)) * FORMATION_SPACING) as i64,
        row_type(i / (FORMATION_COLS as int)),
    )
}

/// How many of the first `n` aliens live.
pub open spec fn living_among(aliens: Seq<Alien>, n: int) -> nat
    decreases n,
{
    if n <= 0 {
        0
    } else {
        living_among(aliens, n - 1) + if aliens[n - 1].is_alive {
            1nat
        } else {
            0nat
        }
    }
}

/// How many aliens live.
pub open spec fn living(aliens: Seq<Alien>) -> nat {
    living_among(aliens, aliens.len() as int)
}

/// The greatest `bottom` among the living ones of the first `n` aliens, if
/// any of them lives.
pub open spec fn lowest_among(aliens: Seq<Alien>, n: int) -> Option<i64>
    decreases n,
{
    if n <= 0 {
        None
    } else {
        let before = lowest_among(aliens, n - 1);
        let a = aliens[n - 1];
        if !a.is_alive {
            before
        } else {
            match before {
                Some(low) if low >= a.bottom() => before,
                _ => Some(a.bottom()),
            }
        }
    }
}

/// The `y` that the formation reaches down to: the greatest `bottom` among
/// the living aliens, and 0 where none lives.
pub open spec fn lowest_y(aliens: Seq<Alien>) -> i64 {
    match lowest_among(aliens, aliens.len() as int) {
        Some(low) => low,
        None => 0,
    }
}

/// The wait between two steps of a formation of `total` aliens of which
/// `living` live: `SHORTEST_INTERVAL` plus the living share of
/// `INTERVAL_SPAN`, rounded down.
pub open spec fn interval_for(living: nat, total: nat) -> int {
    SHORTEST_INTERVAL + living * INTERVAL_SPAN / (total as int)
}

impl FormationView {
    /// The formation at the start of a level: five rows of eleven, one row
    /// of small aliens over two of medium over two of large, about to move
    /// right.
    pub open spec fn fresh() -> FormationView {
        FormationView {
            aliens: Seq::new((FORMATION_ROWS * FORMATION_COLS) as nat, |i: int| grid_alien(i)),
            direction: 1,
            speed: FORMATION_SPEED,
            move_timer: 0,
            move_interval: FORMATION_INTERVAL,
            should_descend: false,
            aliens_killed: 0,
        }
    }

    /// The formation without aliens and at rest.
    pub open spec fn empty() -> FormationView {
        FormationView {
            aliens: Seq::empty(),
            direction: 0,
            speed: 0,
            move_timer: 0,
            move_interval: 0,
            should_descend: false,
            aliens_killed: 0,
        }
    }

    /// A living alien has come within `EDGE_MARGIN` of the side that the
    /// formation moves towards.
    pub open spec fn at_edge(self) -> bool {
        exists|i: int| 0 <= i < self.aliens.len() && (#[trigger] self.aliens[i]).at_edge(self.direction)
    }

    /// The direction after this step: the opposite one where the formation
    /// is at an edge.
    pub open spec fn next_direction(self) -> i64 {
        if self.at_edge() {
            minus(0, self.direction)
        } else {
            self.direction
        }
    }

    /// How far this step takes the formation down: by `DESCENT` where it
    /// turns, or where a descent was due already.
    pub open spec fn next_descent(self) -> i64 {
        if self.at_edge() || self.should_descend {
            DESCENT
        } else {
            0
        }
    }

    /// The formation after one step. At an edge it turns and comes down.
    /// Every living alien moves by `speed` in the new direction and takes
    /// its next pose, and the wait for the next step starts again.
    pub open spec fn stepped(self) -> FormationView {
        let dx = times(self.next_direction(), self.speed);
        let dy = self.next_descent();
        FormationView {
            aliens: Seq::new(self.aliens.len(), |i: int| self.aliens[i].stepped(dx, dy)),
            direction: self.next_direction(),
            move_timer: 0,
            should_descend: false,
            ..self
        }
    }

    /// Whether the formation steps when `dt` microseconds pass: the time
    /// since the last step reaches `move_interval`.
    pub open spec fn step_due(self, dt: i64) -> bool {
        plus(self.move_timer, dt) >= self.move_interval
    }

    /// The formation `dt` microseconds later: it has taken one step where
    /// one was due, and has waited on where none was.
    pub open spec fn after(self, dt: i64) -> FormationView {
        if self.step_due(dt) {
            self.stepped()
        } else {
            FormationView { move_timer: plus(self.move_timer, dt), ..self }
        }
    }
}

/// The index of the living alien that has `k` living ones before it, looked
/// for from index `from` on; the number of aliens, where there is none.
pub open spec fn nth_living_from(aliens: Seq<Alien>, from: int, k: nat) -> int
    decreases aliens.len() - from,
{
    if from >= aliens.len() {
        aliens.len() as int
    } else if !aliens[from].is_alive {
        nth_living_from(aliens, from + 1, k)
    } else if k == 0 {
        from
    } else {
        nth_living_from(aliens, from + 1, (k - 1) as nat)
    }
}

/// The index of the living alien that has `k` living ones before it; the
/// number of aliens, where fewer than `k + 1` live.
pub open spec fn nth_living(aliens: Seq<Alien>, k: nat) -> int {
    nth_living_from(aliens, 0, k)
}

/// What `nth_living_from` finds is a living alien at or after `from` with
/// `k` living ones between `from` and itself, and it finds one wherever
/// more than `k` live from `from` on.
pub proof fn lemma_nth_living_from(aliens: Seq<Alien>, from: int, k: nat)
    requires
        0 <= from <= aliens.len(),
    ensures
        from <= nth_living_from(aliens, from, k) <= aliens.len(),
        nth_living_from(aliens, from, k) < aliens.len() ==> {
            &&& aliens[nth_living_from(aliens, from, k)].is_alive
            &&& living_among(aliens, nth_living_from(aliens, from, k)) == living_among(aliens, from) + k
        },
        nth_living_from(aliens, from, k) < aliens.len() <==> living_among(aliens, from) + k < living(aliens),
    decreases aliens.len() - from,
{
    lemma_living_among_grows(aliens, from, aliens.len() as int);
    if from < aliens.len() {
        if !aliens[from].is_alive {
            lemma_nth_living_from(aliens, from + 1, k);
        } else if k == 0 {
            lemma_living_among_grows(aliens, from + 1, aliens.len() as int);
        } else {
            lemma_nth_living_from(aliens, from + 1, (k - 1) as nat);
        }
    }
}

/// Among more aliens no fewer live.
pub proof fn lemma_living_among_grows(aliens: Seq<Alien>, n: int, m: int)
    requires
        n <= m,
    ensures
        living_among(aliens, n) <= living_among(aliens, m),
    decreases m - n,
{
    if n < m {
        lemma_living_among_grows(aliens, n, m - 1);
    }
}

/// `lowest_among` is the greatest `bottom` among the living: it is `None`
/// exactly when none of the first `n` aliens lives, and otherwise it is the
/// `bottom` of one of the living and no less than the `bottom` of each of
/// them.
pub proof fn law_lowest_is_greatest_bottom(aliens: Seq<Alien>, n: int)
    requires
        0 <= n <= aliens.len(),
    ensures
        lowest_among(aliens, n) is None <==> forall|i: int| 0 <= i < n ==> !(#[trigger] aliens[i]).is_alive,
        lowest_among(aliens, n) matches Some(low) ==> {
            &&& exists|i: int| 0 <= i < n && (#[trigger] aliens[i]).is_alive && aliens[i].bottom() == low
            &&& forall|i: int| 0 <= i < n && (#[trigger] aliens[i]).is_alive ==> aliens[i].bottom() <= low
        },
    decreases n,
{
    if n > 0 {
        law_lowest_is_greatest_bottom(aliens, n - 1);
        if let Some(low) = lowest_among(aliens, n - 1) {
            let w = choose|i: int|
                0 <= i < n - 1 && (#[trigger] aliens[i]).is_alive && aliens[i].bottom() == low;
        }
        if aliens[n - 1].is_alive {
        }
    }
}

/// No more aliens live than there are, and none lives exactly when the count
/// is 0.
pub proof fn lemma_living_among(aliens: Seq<Alien>, n: int)
    requires
        0 <= n <= aliens.len(),
    ensures
        living_among(aliens, n) <= n,
        living_among(aliens, n) == 0 <==> forall|i: int| 0 <= i < n ==> !(#[trigger] aliens[i]).is_alive,
    decreases n,
{
    if n > 0 {
        lemma_living_among(aliens, n - 1);
    }
}

impl AlienFormation {
    /// The formation at the start of a level. The width of the screen is
    /// taken and not used: the formation is laid out for `GAME_WIDTH`.
    pub fn new(_screen_width: i64) -> (formation: Self)
        ensures
            formation@ == FormationView::fresh(),
    {
        let mut aliens: Vec<Alien> = Vec::new();
        let mut row: usize = 0;
        while row < FORMATION_ROWS
            invariant
                row <= FORMATION_ROWS,
                aliens@.len() == row * FORMATION_COLS,
                forall|i: int| 0 <= i < aliens@.len() ==> aliens@[i] == grid_alien(i),
            decreases FORMATION_ROWS - row,
        {
            let alien_type = if row == 0 {
                AlienType::Small
            } else if row == 1 || row == 2 {
                AlienType::Medium
            } else {
                AlienType::Large
            };
            let mut col: usize = 0;
            while col < FORMATION_COLS
                invariant
                    row < FORMATION_ROWS,
                    col <= FORMATION_COLS,
                    alien_type == row_type(row as int),
                    aliens@.len() == row * FORMATION_COLS + col,
                    forall|i: int| 0 <= i < aliens@.len() ==> aliens@[i] == grid_alien(i),
                decreases FORMATION_COLS - col,
            {
                let x = FORMATION_LEFT + (col as i64) * FORMATION_SPACING;
                let y = FORMATION_TOP + (row as i64) * FORMATION_SPACING;
                aliens.push(Alien::new(x, y, alien_type));
                col += 1;
            }
            row += 1;
        }
        let formation = Self {
            aliens,
            direction: 1,
            speed: FORMATION_SPEED,
            move_timer: 0,
            move_interval: FORMATION_INTERVAL,
            should_descend: false,
            aliens_killed: 0,
        };
        formation
    }

    /// Whether a living alien has come within `EDGE_MARGIN` of the side of
    /// the playfield that the formation moves towards.
    pub fn check_edges(&self) -> (turn: bool)
        ensures
            turn == self@.at_edge(),
    {
        let mut i: usize = 0;
        while i < self.aliens.len()
            invariant
                i <= self.aliens.len(),
                forall|j: int| 0 <= j < i ==> !(#[trigger] self.aliens@[j]).at_edge(self.direction),
            decreases self.aliens.len() - i,
        {
            let alien = &self.aliens[i];
            if alien.is_alive {
                let lead: i128 = alien.position.x as i128 + alien.width as i128;
                if (self.direction > 0 && lead >= (GAME_WIDTH - EDGE_MARGIN) as i128) || (self.direction
                    < 0 && alien.position.x <= EDGE_MARGIN) {
                    assert(self@.aliens[i as int].at_edge(self@.direction));
                    return true;
                }
            }
            i += 1;
        }
        false
    }

    /// The index of the living alien that has `k` living ones before it;
    /// the number of aliens, where fewer than `k + 1` live.
    pub fn find_living(&self, k: usize) -> (index: usize)
        ensures
            index == nth_living(self@.aliens, k as nat),
            index <= self.aliens.len(),
            index < self.aliens.len() <==> k < living(self@.aliens),
            index < self.aliens.len() ==> self@.aliens[index as int].is_alive,
    {
        let mut i: usize = 0;
        let mut left: usize = k;
        while i < self.aliens.len()
            invariant
                i <= self.aliens.len(),
                nth_living_from(self.aliens@, i as int, left as nat) == nth_living(self.aliens@, k as nat),
            decreases self.aliens.len() - i,
        {
            if self.aliens[i].is_alive {
                if left == 0 {
                    proof {
                        lemma_nth_living_from(self@.aliens, 0, k as nat);
                    }
                    return i;
                }
                left -= 1;
            }
            i += 1;
        }
        proof {
            lemma_nth_living_from(self@.aliens, 0, k as nat);
        }
        i
    }

    /// Lets `dt` microseconds pass. Returns whether the formation has taken
    /// a step.
    pub fn advance(&mut self, dt: i64) -> (stepped: bool)
        ensures
            stepped == old(self)@.step_due(dt),
            final(self)@ == old(self)@.after(dt),
    {
        let timer = plus(self.move_timer, dt);
        if timer < self.move_interval {
            self.move_timer = timer;
            return false;
        }
        let turn = self.check_edges();
        let descend = turn || self.should_descend;
        if turn {
            self.direction = minus(0, self.direction);
        }
        let dx = times(self.direction, self.speed);
        let dy = if descend { DESCENT } else { 0 };
        let mut i: usize = 0;
        while i < self.aliens.len()
            invariant
                i <= self.aliens.len(),
                self.aliens@.len() == old(self).aliens@.len(),
                forall|j: int|
                    0 <= j < i ==> #[trigger] self.aliens@[j] == old(self).aliens@[j].stepped(dx, dy),
                forall|j: int|
                    i <= j < self.aliens@.len() ==> #[trigger] self.aliens@[j] == old(self).aliens@[j],
                self.direction == old(self)@.next_direction(),
                self.speed == old(self).speed,
                self.move_interval == old(self).move_interval,
                self.aliens_killed == old(self).aliens_killed,
            decreases self.aliens.len() - i,
        {
            let alien = self.aliens[i];
            if alien.is_alive {
                self.aliens[i].position.x = plus(alien.position.x, dx);
                self.aliens[i].position.y = plus(alien.position.y, dy);
                self.aliens[i].animation_frame = if alien.animation_frame == usize::MAX {
                    0
                } else {
                    alien.animation_frame + 1
                };
            }
            i += 1;
        }
        self.move_timer = 0;
        self.should_descend = false;
        true
    }

    /// How many aliens live.
    pub fn count_living(&self) -> (count: usize)
        ensures
            count == living(self@.aliens),
            count <= self.aliens.len(),
            count == 0 <==> forall|i: int|
                0 <= i < self.aliens.len() ==> !(#[trigger] self.aliens@[i]).is_alive,
    {
        let mut count: usize = 0;
        let mut i: usize = 0;
        while i < self.aliens.len()
            invariant
                i <= self.aliens.len(),
                count == living_among(self.aliens@, i as int),
                count <= i,
            decreases self.aliens.len() - i,
        {
            if self.aliens[i].is_alive {
                count += 1;
            }
            i += 1;
        }
        proof {
            lemma_living_among(self.aliens@, self.aliens.len() as int);
        }
        count
    }

    /// The `y` that the formation reaches down to: the lower edge of the
    /// lowest living alien, and 0 where none lives.
    pub fn get_lowest_y(&self) -> (low: i64)
        ensures
            low == lowest_y(self@.aliens),
            living(self@.aliens) == 0 ==> low == 0,
            living(self@.aliens) > 0 ==> exists|i: int|
                0 <= i < self@.aliens.len() && (#[trigger] self@.aliens[i]).is_alive && self@.aliens[i].bottom()
                    == low,
            forall|i: int|
                0 <= i < self@.aliens.len() && (#[trigger] self@.aliens[i]).is_alive ==> self@.aliens[i].bottom()
                    <= low,
    {
        proof {
            law_lowest_is_greatest_bottom(self@.aliens, self@.aliens.len() as int);
            lemma_living_among(self@.aliens, self@.aliens.len() as int);
        }
        let mut lowest: Option<i64> = None;
        let mut i: usize = 0;
        while i < self.aliens.len()
            invariant
                i <= self.aliens.len(),
                lowest == lowest_among(self.aliens@, i as int),
            decreases self.aliens.len() - i,
        {
            let alien = &self.aliens[i];
            if alien.is_alive {
                let bottom = plus(alien.position.y, alien.height);
                lowest = match lowest {
                    Some(low) if low >= bottom => Some(low),
                    _ => Some(bottom),
                };
            }
            i += 1;
        }
        match lowest {
            Some(low) => low,
            None => 0,
        }
    }
}

/// The wait between two steps of a formation of `total` aliens of which
/// `living` live.
pub fn step_interval(living: usize, total: usize) -> (interval: i64)
    requires
        living <= total,
        0 < total,
    ensures
        interval == interval_for(living as nat, total as nat),
        SHORTEST_INTERVAL <= interval <= FORMATION_INTERVAL,
{
    proof {
        lemma_interval_bounds(living as nat, total as nat);
        assert(living * INTERVAL_SPAN <= 0xffff_ffff_ffff_ffff * 400_000) by (nonlinear_arith)
            requires
                0 <= living <= 0xffff_ffff_ffff_ffff,
                INTERVAL_SPAN == 400_000,
        ;
    }
    let share: u128 = (living as u128) * (INTERVAL_SPAN as u128) / (total as u128);
    SHORTEST_INTERVAL + share as i64
}

/// The wait is at least `SHORTEST_INTERVAL`, at most `FORMATION_INTERVAL`,
/// which is the wait of a full formation, and below that for every other.
pub proof fn lemma_interval_bounds(living: nat, total: nat)
    requires
        living <= total,
        0 < total,
    ensures
        0 <= living * INTERVAL_SPAN / (total as int) <= INTERVAL_SPAN,
        SHORTEST_INTERVAL <= interval_for(living, total) <= FORMATION_INTERVAL,
        interval_for(total, total) == FORMATION_INTERVAL,
        living < total ==> interval_for(living, total) < FORMATION_INTERVAL,
{
    let t = total as int;
    let l = living as int;
    assert(0 <= l * 400_000 / t <= 400_000 && (l < t ==> l * 400_000 / t < 400_000) && t * 400_000 / t
        == 400_000) by (nonlinear_arith)
        requires
            0 <= l <= t,
            0 < t,
    ;
}

/// The fewer aliens live, the shorter the formation waits between two steps:
/// the wait never grows as the living count falls.
pub proof fn law_interval_falls_with_living(fewer: nat, more: nat, total: nat)
    requires
        fewer <= more,
        0 < total,
    ensures
        interval_for(fewer, total) <= interval_for(more, total),
{
    let t = total as int;
    let a = fewer as int;
    let b = more as int;
    assert(a * 400_000 / t <= b * 400_000 / t) by (nonlinear_arith)
        requires
            0 <= a <= b,
            0 < t,
    ;
}

impl Default for AlienFormation {
    fn default() -> (formation: Self)
        ensures
            formation@ == FormationView::empty(),
    {
        Self {
            aliens: Vec::new(),
            direction: 0,
            speed: 0,
            move_timer: 0,
            move_interval: 0,
            should_descend: false,
            aliens_killed: 0,
        }
    }
}

} // verus!
