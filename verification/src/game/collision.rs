//! What projectiles hit, in the order in which a tick resolves it: the bonus
//! ship, the shields, the aliens, the player.

use crate::game::entities::alien::Alien;
use crate::game::entities::mystery_ship::MysteryShip;
use crate::game::entities::player::Player;
use crate::game::entities::projectile::Projectile;
use crate::game::entities::shield::{law_probe_only_clears, lemma_probe_keeps_shape, Shield, ShieldView};
use crate::game::laws::lemma_destructions_keep_score;
use crate::game::logic::{add_score, alien_destroyed, check_mystery_ship_hit, destroy_alien, scored};
use crate::game::state::{shield_views, GameState, GameView};
use crate::utils::units::{count_plus, PIXEL, SECOND};
use vstd::prelude::*;

verus! {

/// How long after a hit on the bonus ship the next one may appear.
pub const MYSTERY_RESPAWN: i64 = 5 * SECOND;

/// How long the player cannot be hit again after a hit.
pub const INVINCIBILITY: i64 = 3 * SECOND;

/// How far left of the ship's `position` the rectangle starts in which a
/// projectile hits the player.
pub const HITBOX_OFFSET: i64 = 25 * PIXEL;

/// The rectangle with top left corner `(ax, ay)`, width `aw` and height `ah`
/// and the one with `(bx, by)`, `bw` and `bh` share a point inside both.
pub open spec fn overlaps(ax: int, ay: int, aw: int, ah: int, bx: int, by: int, bw: int, bh: int) -> bool {
    &&& ax < bx + bw
    &&& ax + aw > bx
    &&& ay < by + bh
    &&& ay + ah > by
}

/// Whether two rectangles overlap.
pub fn rects_overlap(ax: i64, ay: i64, aw: i64, ah: i64, bx: i64, by: i64, bw: i64, bh: i64) -> (r: bool)
    ensures
        r == overlaps(ax as int, ay as int, aw as int, ah as int, bx as int, by as int, bw as int, bh as int),
{
    let left_of_right = (ax as i128) < bx as i128 + bw as i128;
    let right_of_left = ax as i128 + aw as i128 > bx as i128;
    let above_bottom = (ay as i128) < by as i128 + bh as i128;
    let below_top = ay as i128 + ah as i128 > by as i128;
    left_of_right && right_of_left && above_bottom && below_top
}

/// The least index below `n` at which `marks` is set, if there is one.
pub open spec fn first_set(marks: Seq<bool>, n: int) -> Option<int>
    decreases n,
{
    if n <= 0 {
        None
    } else {
        match first_set(marks, n - 1) {
            Some(i) => Some(i),
            None => if marks[n - 1] {
                Some(n - 1)
            } else {
                None
            },
        }
    }
}

/// `first_set` finds the least index at which `marks` is set, and finds none
/// only where none is set.
pub proof fn lemma_first_set(marks: Seq<bool>, n: int)
    ensures
        first_set(marks, n) matches Some(i) ==> 0 <= i < n && marks[i] && forall|j: int|
            0 <= j < i ==> !#[trigger] marks[j],
        first_set(marks, n) is None ==> forall|j: int| 0 <= j < n ==> !#[trigger] marks[j],
    decreases n,
{
    if n > 0 {
        lemma_first_set(marks, n - 1);
    }
}

/// An index at which `marks` is set, with none set before it, is what
/// `first_set` finds.
pub proof fn lemma_first_set_at(marks: Seq<bool>, n: int, i: int)
    requires
        0 <= i < n,
        marks[i],
        forall|j: int| 0 <= j < i ==> !#[trigger] marks[j],
    ensures
        first_set(marks, n) == Some(i),
{
    lemma_first_set(marks, n);
}

/// Where no mark below `n` is set, `first_set` finds none.
pub proof fn lemma_first_set_none(marks: Seq<bool>, n: int)
    requires
        forall|j: int| 0 <= j < n ==> !#[trigger] marks[j],
    ensures
        first_set(marks, n) is None,
{
    lemma_first_set(marks, n);
}

/// The first `n` projectiles of `ps` without those whose mark in `gone` is
/// set, in their order.
pub open spec fn kept(ps: Seq<Projectile>, gone: Seq<bool>, n: int) -> Seq<Projectile>
    decreases n,
{
    if n <= 0 {
        Seq::empty()
    } else if gone[n - 1] {
        kept(ps, gone, n - 1)
    } else {
        kept(ps, gone, n - 1).push(ps[n - 1])
    }
}

/// The projectiles of `ps` whose mark in `gone`, counted from `from`, is not
/// set.
pub fn keep_unmarked(ps: &Vec<Projectile>, gone: &Vec<bool>, from: usize) -> (rest: Vec<Projectile>)
    requires
        from + ps.len() <= gone.len(),
    ensures
        rest@ == kept(ps@, gone@.skip(from as int), ps.len() as int),
{
    let mut rest: Vec<Projectile> = Vec::new();
    let mut i: usize = 0;
    while i < ps.len()
        invariant
            i <= ps.len(),
            from + ps.len() <= gone.len(),
            rest@ == kept(ps@, gone@.skip(from as int), i as int),
        decreases ps.len() - i,
    {
        if !gone[from + i] {
            rest.push(ps[i]);
        }
        i += 1;
    }
    rest
}

// ---------------------------------------------------------------- bonus ship

/// The bonus ship is there and active, the projectile is the player's, and
/// their rectangles overlap.
pub open spec fn strikes_ship(p: Projectile, ship: Option<MysteryShip>) -> bool {
    &&& ship matches Some(s)
    &&& s.active
    &&& p.is_player_projectile
    &&& overlaps(
        p.position.x as int,
        p.position.y as int,
        p.width as int,
        p.height as int,
        s.position.x as int,
        s.position.y as int,
        s.width as int,
        s.height as int,
    )
}

/// For each projectile, whether it strikes the ship.
pub open spec fn ship_marks(ps: Seq<Projectile>, ship: Option<MysteryShip>) -> Seq<bool> {
    Seq::new(ps.len(), |i: int| strikes_ship(ps[i], ship))
}

/// The state after the player's projectiles have been held against the
/// bonus ship. The first projectile that strikes it is removed with the
/// ship; the ship's points, if positive, go to the score; and the next ship
/// may appear after `MYSTERY_RESPAWN`. Where no projectile strikes, nothing
/// changes.
pub open spec fn mystery_resolved(s: GameView) -> GameView {
    match first_set(ship_marks(s.player_projectiles, s.mystery_ship), s.player_projectiles.len() as int) {
        None => s,
        Some(i) => {
            let points = s.mystery_ship->0.points;
            let paid = if points > 0 {
                scored(s, points)
            } else {
                s
            };
            GameView {
                mystery_ship: None,
                mystery_ship_timer: MYSTERY_RESPAWN,
                player_projectiles: s.player_projectiles.remove(i),
                ..paid
            }
        },
    }
}

/// Holds the player's projectiles against the bonus ship.
pub fn check_mystery_ship_collisions(game_state: &mut GameState)
    ensures
        final(game_state)@ == mystery_resolved(old(game_state)@),
        old(game_state)@.wf() ==> final(game_state)@.wf(),
{
    let ghost marks = ship_marks(game_state.player_projectiles@, game_state.mystery_ship);
    let mut i: usize = 0;
    while i < game_state.player_projectiles.len()
        invariant
            i <= game_state.player_projectiles.len(),
            *game_state == *old(game_state),
            marks == ship_marks(game_state.player_projectiles@, game_state.mystery_ship),
            forall|j: int| 0 <= j < i ==> !#[trigger] marks[j],
        decreases game_state.player_projectiles.len() - i,
    {
        let projectile = game_state.player_projectiles[i];
        match check_mystery_ship_hit(&mut game_state.mystery_ship, &projectile) {
            Some(points) => {
                proof {
                    lemma_first_set_at(marks, old(game_state).player_projectiles@.len() as int, i as int);
                }
                game_state.mystery_ship_timer = MYSTERY_RESPAWN;
                if points > 0 {
                    add_score(game_state, points);
                }
                game_state.player_projectiles.remove(i);
                return ;
            },
            None => {},
        }
        i += 1;
    }
    proof {
        lemma_first_set_none(marks, game_state.player_projectiles@.len() as int);
    }
}

// ------------------------------------------------------------------- shields

impl ShieldView {
    /// The shield after the first `n` projectiles of `ps` have probed it,
    /// one after the other.
    pub open spec fn swept(self, ps: Seq<Projectile>, n: int) -> ShieldView
        decreases n,
    {
        if n <= 0 {
            self
        } else {
            let p = ps[n - 1];
            self.swept(ps, n - 1).probed(p.position.x, p.position.y, p.width, p.height).0
        }
    }

    /// Whether the projectile at index `j` of `ps` hits the shield when the
    /// projectiles probe it one after the other.
    pub open spec fn struck_by(self, ps: Seq<Projectile>, j: int) -> bool {
        let p = ps[j];
        self.swept(ps, j).probed(p.position.x, p.position.y, p.width, p.height).1
    }

    /// The projectile has reached the shield from the side that it comes
    /// from: the player's is below the shield's top edge, an alien's above
    /// its bottom edge.
    pub open spec fn in_band(self, p: Projectile) -> bool {
        if p.is_player_projectile {
            p.position.y > self.position.y
        } else {
            p.position.y < self.position.y + self.height
        }
    }

    /// The shield takes the projectile at index `j` of `ps` out of the game:
    /// the projectile hits it and has reached it from its own side.
    pub open spec fn absorbs(self, ps: Seq<Projectile>, j: int) -> bool {
        self.struck_by(ps, j) && self.in_band(ps[j])
    }
}

/// One of the first `k` shields absorbs the projectile at index `j` of `ps`.
pub open spec fn absorbed_among(shields: Seq<ShieldView>, ps: Seq<Projectile>, j: int, k: int) -> bool
    decreases k,
{
    k > 0 && (absorbed_among(shields, ps, j, k - 1) || shields[k - 1].absorbs(ps, j))
}

/// For each projectile of `ps`, whether a shield absorbs it.
pub open spec fn absorbed_marks(shields: Seq<ShieldView>, ps: Seq<Projectile>) -> Seq<bool> {
    Seq::new(ps.len(), |j: int| absorbed_among(shields, ps, j, shields.len() as int))
}

/// `absorbed_among` holds exactly where one of the first `k` shields absorbs
/// the projectile.
pub proof fn law_absorbed_by_a_shield(shields: Seq<ShieldView>, ps: Seq<Projectile>, j: int, k: int)
    ensures
        absorbed_among(shields, ps, j, k) <==> exists|i: int|
            0 <= i < k && (#[trigger] shields[i]).absorbs(ps, j),
    decreases k,
{
    if k > 0 {
        law_absorbed_by_a_shield(shields, ps, j, k - 1);
        if absorbed_among(shields, ps, j, k - 1) {
            let i = choose|i: int| 0 <= i < k - 1 && (#[trigger] shields[i]).absorbs(ps, j);
        } else if shields[k - 1].absorbs(ps, j) {
        }
    }
}

/// The state after every projectile has probed every shield. Each shield is
/// probed by the player's projectiles and then by the aliens', in their
/// order, and loses a segment to each that hits. A projectile that a shield
/// absorbs is removed.
pub open spec fn shields_resolved(s: GameView) -> GameView {
    let ps = s.player_projectiles + s.alien_projectiles;
    let gone = absorbed_marks(s.shields, ps);
    GameView {
        shields: Seq::new(s.shields.len(), |k: int| s.shields[k].swept(ps, ps.len() as int)),
        player_projectiles: kept(s.player_projectiles, gone, s.player_projectiles.len() as int),
        alien_projectiles: kept(
            s.alien_projectiles,
            gone.skip(s.player_projectiles.len() as int),
            s.alien_projectiles.len() as int,
        ),
        ..s
    }
}

/// Lets every projectile of `ps` probe every shield, and returns for each
/// projectile whether a shield absorbs it.
pub fn sweep_shields(shields: &mut Vec<Shield>, ps: &Vec<Projectile>) -> (gone: Vec<bool>)
    ensures
        final(shields)@.len() == old(shields)@.len(),
        forall|k: int|
            0 <= k < old(shields)@.len() ==> (#[trigger] final(shields)@[k])@ == old(shields)@[k]@.swept(
                ps@,
                ps@.len() as int,
            ),
        gone@ == absorbed_marks(shield_views(old(shields)@), ps@),
{
    let ghost before = shield_views(shields@);
    let mut gone: Vec<bool> = Vec::new();
    let mut j: usize = 0;
    while j < ps.len()
        invariant
            j <= ps.len(),
            gone@.len() == j,
            forall|i: int| 0 <= i < j ==> !#[trigger] gone@[i],
        decreases ps.len() - j,
    {
        gone.push(false);
        j += 1;
    }
    let mut k: usize = 0;
    while k < shields.len()
        invariant
            k <= shields.len(),
            shields@.len() == before.len(),
            before == shield_views(old(shields)@),
            gone@.len() == ps@.len(),
            forall|i: int| 0 <= i < k ==> (#[trigger] shields@[i])@ == before[i].swept(ps@, ps@.len() as int),
            forall|i: int| k <= i < shields@.len() ==> (#[trigger] shields@[i])@ == before[i],
            forall|i: int|
                0 <= i < ps@.len() ==> #[trigger] gone@[i] == absorbed_among(before, ps@, i, k as int),
        decreases shields.len() - k,
    {
        let mut j: usize = 0;
        while j < ps.len()
            invariant
                j <= ps.len(),
                k < shields.len(),
                shields@.len() == before.len(),
                gone@.len() == ps@.len(),
                forall|i: int|
                    0 <= i < k ==> (#[trigger] shields@[i])@ == before[i].swept(ps@, ps@.len() as int),
                shields@[k as int]@ == before[k as int].swept(ps@, j as int),
                forall|i: int| k < i < shields@.len() ==> (#[trigger] shields@[i])@ == before[i],
                forall|i: int| 0 <= i < j ==> #[trigger] gone@[i] == absorbed_among(before, ps@, i, k + 1),
                forall|i: int|
                    j <= i < ps@.len() ==> #[trigger] gone@[i] == absorbed_among(before, ps@, i, k as int),
            decreases ps.len() - j,
        {
            let p = ps[j];
            let top = shields[k].position.y;
            let height = shields[k].height;
            let hit = shields[k].check_projectile_collision(p.position.x, p.position.y, p.width, p.height);
            let in_band = if p.is_player_projectile {
                p.position.y > top
            } else {
                (p.position.y as i128) < top as i128 + height as i128
            };
            proof {
                lemma_probe_keeps_shape(
                    before[k as int].swept(ps@, j as int),
                    p.position.x,
                    p.position.y,
                    p.width,
                    p.height,
                );
                lemma_sweep_keeps_shape(before[k as int], ps@, j as int);
            }
            if hit && in_band {
                gone[j] = true;
            }
            j += 1;
        }
        k += 1;
    }
    gone
}

/// A sweep leaves a shield's place, size and letter alone.
pub proof fn lemma_sweep_keeps_shape(s: ShieldView, ps: Seq<Projectile>, n: int)
    ensures
        s.swept(ps, n).position == s.position,
        s.swept(ps, n).width == s.width,
        s.swept(ps, n).height == s.height,
        s.swept(ps, n).shield_type == s.shield_type,
        s.swept(ps, n).rows() == s.rows(),
        s.swept(ps, n).cols() == s.cols(),
        s.wf() ==> s.swept(ps, n).wf(),
    decreases n,
{
    if n > 0 {
        lemma_sweep_keeps_shape(s, ps, n - 1);
        let p = ps[n - 1];
        lemma_probe_keeps_shape(
            s.swept(ps, n - 1),
            p.position.x,
            p.position.y,
            p.width,
            p.height,
        );
    }
}

/// Whatever stands after a sweep stood before it.
pub proof fn law_sweep_only_clears(s: ShieldView, ps: Seq<Projectile>, n: int, r: int, c: int)
    requires
        s.swept(ps, n).stands(r, c),
    ensures
        s.stands(r, c),
    decreases n,
{
    if n > 0 {
        let p = ps[n - 1];
        law_probe_only_clears(s.swept(ps, n - 1), p.position.x, p.position.y, p.width, p.height, r, c);
        law_sweep_only_clears(s, ps, n - 1, r, c);
    }
}

/// Lets every projectile probe every shield and removes those that a shield
/// absorbs.
pub fn check_shield_projectile_collisions(game_state: &mut GameState)
    ensures
        final(game_state)@ == shields_resolved(old(game_state)@),
        old(game_state)@.wf() ==> final(game_state)@.wf(),
{
    let mut all: Vec<Projectile> = Vec::new();
    let mut i: usize = 0;
    while i < game_state.player_projectiles.len()
        invariant
            i <= game_state.player_projectiles.len(),
            *game_state == *old(game_state),
            all@ == game_state.player_projectiles@.take(i as int),
        decreases game_state.player_projectiles.len() - i,
    {
        all.push(game_state.player_projectiles[i]);
        i += 1;
    }
    let mut i: usize = 0;
    while i < game_state.alien_projectiles.len()
        invariant
            i <= game_state.alien_projectiles.len(),
            *game_state == *old(game_state),
            all@ == game_state.player_projectiles@ + game_state.alien_projectiles@.take(i as int),
        decreases game_state.alien_projectiles.len() - i,
    {
        all.push(game_state.alien_projectiles[i]);
        i += 1;
    }
    assert(all@ == game_state.player_projectiles@ + game_state.alien_projectiles@);
    let gone = sweep_shields(&mut game_state.shields, &all);
    let players = keep_unmarked(&game_state.player_projectiles, &gone, 0);
    let aliens = keep_unmarked(&game_state.alien_projectiles, &gone, game_state.player_projectiles.len());
    proof {
        assert(gone@.skip(0) =~= gone@);
    }
    game_state.player_projectiles = players;
    game_state.alien_projectiles = aliens;
    proof {
        assert forall|k: int| 0 <= k < game_state@.shields.len() && old(game_state)@.shields[k].wf() implies (
        #[trigger] game_state@.shields[k]).wf() by {
            lemma_sweep_keeps_shape(old(game_state)@.shields[k], all@, all@.len() as int);
        }
    }
}

// -------------------------------------------------------------------- aliens

/// The alien lives and its rectangle and the projectile's overlap.
pub open spec fn strikes_alien(p: Projectile, a: Alien) -> bool {
    &&& a.is_alive
    &&& overlaps(
        p.position.x as int,
        p.position.y as int,
        p.width as int,
        p.height as int,
        a.position.x as int,
        a.position.y as int,
        a.width as int,
        a.height as int,
    )
}

/// For each alien, whether the projectile strikes it.
pub open spec fn alien_marks(aliens: Seq<Alien>, p: Projectile) -> Seq<bool> {
    Seq::new(aliens.len(), |i: int| strikes_alien(p, aliens[i]))
}

/// The index of the alien that the projectile destroys: the first that it
/// strikes, in the order of the formation.
pub open spec fn target_of(aliens: Seq<Alien>, p: Projectile) -> Option<int> {
    first_set(alien_marks(aliens, p), aliens.len() as int)
}

/// For each projectile, whether it has a target among `aliens`.
pub open spec fn target_marks(ps: Seq<Projectile>, aliens: Seq<Alien>) -> Seq<bool> {
    Seq::new(ps.len(), |i: int| target_of(aliens, ps[i]) is Some)
}

/// The state after the targets of the first `n` projectiles of `ps` among
/// `aliens` have been destroyed, in the order of the projectiles. A target
/// that an earlier projectile has destroyed is not destroyed again.
pub open spec fn destroyed_through(s: GameView, ps: Seq<Projectile>, aliens: Seq<Alien>, n: int) -> GameView
    decreases n,
{
    if n <= 0 {
        s
    } else {
        let before = destroyed_through(s, ps, aliens, n - 1);
        match target_of(aliens, ps[n - 1]) {
            Some(t) => alien_destroyed(before, t),
            None => before,
        }
    }
}

/// The state after the player's projectiles have been held against the
/// aliens. Each projectile finds its target in the formation as it is
/// before any of them is destroyed; then the targets are destroyed, and
/// every projectile that had one is removed.
pub open spec fn aliens_resolved(s: GameView) -> GameView {
    let ps = s.player_projectiles;
    let aliens = s.alien_formation.aliens;
    GameView {
        player_projectiles: kept(ps, target_marks(ps, aliens), ps.len() as int),
        ..destroyed_through(s, ps, aliens, ps.len() as int)
    }
}

/// The index of the first alien that the projectile strikes.
pub fn find_target(aliens: &Vec<Alien>, projectile: &Projectile) -> (target: Option<usize>)
    ensures
        match target {
            Some(t) => target_of(aliens@, *projectile) == Some(t as int),
            None => target_of(aliens@, *projectile) is None,
        },
{
    let ghost marks = alien_marks(aliens@, *projectile);
    let mut i: usize = 0;
    while i < aliens.len()
        invariant
            i <= aliens.len(),
            marks == alien_marks(aliens@, *projectile),
            forall|j: int| 0 <= j < i ==> !#[trigger] marks[j],
        decreases aliens.len() - i,
    {
        let alien = &aliens[i];
        if alien.is_alive && rects_overlap(
            projectile.position.x,
            projectile.position.y,
            projectile.width,
            projectile.height,
            alien.position.x,
            alien.position.y,
            alien.width,
            alien.height,
        ) {
            proof {
                lemma_first_set_at(marks, aliens@.len() as int, i as int);
            }
            return Some(i);
        }
        i += 1;
    }
    proof {
        lemma_first_set_none(marks, aliens@.len() as int);
    }
    None
}

/// Holds the player's projectiles against the aliens.
pub fn check_alien_collisions(game_state: &mut GameState)
    ensures
        final(game_state)@ == aliens_resolved(old(game_state)@),
        old(game_state)@.wf() ==> final(game_state)@.wf(),
{
    let ghost ps = game_state.player_projectiles@;
    let ghost aliens = game_state.alien_formation.aliens@;
    let mut targets: Vec<Option<usize>> = Vec::new();
    let mut rest: Vec<Projectile> = Vec::new();
    let mut i: usize = 0;
    while i < game_state.player_projectiles.len()
        invariant
            i <= game_state.player_projectiles.len(),
            *game_state == *old(game_state),
            ps == game_state.player_projectiles@,
            aliens == game_state.alien_formation.aliens@,
            targets@.len() == i,
            forall|j: int|
                0 <= j < i ==> match #[trigger] targets@[j] {
                    Some(t) => target_of(aliens, ps[j]) == Some(t as int),
                    None => target_of(aliens, ps[j]) is None,
                },
            rest@ == kept(ps, target_marks(ps, aliens), i as int),
        decreases game_state.player_projectiles.len() - i,
    {
        let projectile = game_state.player_projectiles[i];
        let target = find_target(&game_state.alien_formation.aliens, &projectile);
        if target.is_none() {
            rest.push(projectile);
        }
        targets.push(target);
        i += 1;
    }
    let mut i: usize = 0;
    while i < targets.len()
        invariant
            i <= targets.len(),
            targets@.len() == ps.len(),
            forall|j: int|
                0 <= j < targets@.len() ==> match #[trigger] targets@[j] {
                    Some(t) => target_of(aliens, ps[j]) == Some(t as int),
                    None => target_of(aliens, ps[j]) is None,
                },
            game_state@ == destroyed_through(old(game_state)@, ps, aliens, i as int),
        decreases targets.len() - i,
    {
        match targets[i] {
            Some(t) => {
                destroy_alien(game_state, t);
            },
            None => {},
        }
        i += 1;
    }
    game_state.player_projectiles = rest;
    proof {
        lemma_destructions_keep_score(old(game_state)@, ps, aliens, ps.len() as int);
    }
}

// -------------------------------------------------------------------- player

/// The projectile's rectangle overlaps the rectangle in which the player is
/// hit, which starts `HITBOX_OFFSET` left of the ship's `position`.
pub open spec fn strikes_player(p: Projectile, player: Player) -> bool {
    overlaps(
        p.position.x as int,
        p.position.y as int,
        p.width as int,
        p.height as int,
        player.position.x - HITBOX_OFFSET,
        player.position.y as int,
        player.width as int,
        player.height as int,
    )
}

/// Whether the projectile strikes the player.
pub fn strikes(projectile: &Projectile, player: &Player) -> (hit: bool)
    ensures
        hit == strikes_player(*projectile, *player),
{
    let left: i128 = player.position.x as i128 - HITBOX_OFFSET as i128;
    let top: i128 = player.position.y as i128;
    let p_left: i128 = projectile.position.x as i128;
    let p_top: i128 = projectile.position.y as i128;
    let left_of_right = p_left < left + player.width as i128;
    let right_of_left = p_left + projectile.width as i128 > left;
    let above_bottom = p_top < top + player.height as i128;
    let below_top = p_top + projectile.height as i128 > top;
    left_of_right && right_of_left && above_bottom && below_top
}

/// For each projectile, whether it strikes the player.
pub open spec fn player_marks(ps: Seq<Projectile>, player: Player) -> Seq<bool> {
    Seq::new(ps.len(), |i: int| strikes_player(ps[i], player))
}

/// The state after the aliens' projectiles have been held against the
/// player. While the player is invincible nothing happens. Otherwise the
/// first projectile that strikes the player is removed and costs a life;
/// the player is shown as hit and is invincible for `INVINCIBILITY`; and
/// the game is over once no life is left.
pub open spec fn player_resolved(s: GameView) -> GameView {
    if s.invincibility_timer > 0 {
        s
    } else {
        match first_set(player_marks(s.alien_projectiles, s.player), s.alien_projectiles.len() as int) {
            None => s,
            Some(i) => {
                let lives = count_plus(s.lives, -1i32);
                GameView {
                    alien_projectiles: s.alien_projectiles.remove(i),
                    player: Player { is_hit: true, ..s.player },
                    invincibility_timer: INVINCIBILITY,
                    lives,
                    game_over: s.game_over || lives <= 0,
                    ..s
                }
            },
        }
    }
}

/// Holds the aliens' projectiles against the player.
pub fn check_player_collisions(game_state: &mut GameState)
    ensures
        final(game_state)@ == player_resolved(old(game_state)@),
        old(game_state)@.wf() ==> final(game_state)@.wf(),
{
    if game_state.invincibility_timer > 0 {
        return ;
    }
    let ghost marks = player_marks(game_state.alien_projectiles@, game_state.player);
    let mut i: usize = 0;
    while i < game_state.alien_projectiles.len()
        invariant
            i <= game_state.alien_projectiles.len(),
            *game_state == *old(game_state),
            game_state.invincibility_timer <= 0,
            marks == player_marks(game_state.alien_projectiles@, game_state.player),
            forall|j: int| 0 <= j < i ==> !#[trigger] marks[j],
        decreases game_state.alien_projectiles.len() - i,
    {
        let projectile = game_state.alien_projectiles[i];
        if strikes(&projectile, &game_state.player) {
            proof {
                lemma_first_set_at(marks, game_state.alien_projectiles@.len() as int, i as int);
            }
            game_state.alien_projectiles.remove(i);
            game_state.player.is_hit = true;
            game_state.invincibility_timer = INVINCIBILITY;
            game_state.lives = count_plus(game_state.lives, -1);
            if game_state.lives <= 0 {
                game_state.game_over = true;
            }
            return ;
        }
        i += 1;
    }
    proof {
        lemma_first_set_none(marks, game_state.alien_projectiles@.len() as int);
    }
}

// ----------------------------------------------------------------- all of it

/// The state after all collisions of a tick have been resolved: with the
/// bonus ship, then with the shields, then with the aliens, then with the
/// player.
pub open spec fn collisions_resolved(s: GameView) -> GameView {
    player_resolved(aliens_resolved(shields_resolved(mystery_resolved(s))))
}

} // verus!
