//! The update functions of one tick. Each takes the parts of the world that
//! it reads or changes; the caller decides the order and supplies the
//! viewport and the time that has passed.

use vstd::prelude::*;
use crate::chance::{
    cell_midpoint, choose_cue, direction_from_draws, position_from_draws, random_draw, scaled,
    BounceCue,
};
use crate::components::{Enemy, Player, Star};
use crate::direction::{unit_component, Direction};
use crate::events::{caught_up, unseen, EventReader, GameOver, GameOverEvents};
use crate::geometry::{overlapping, overlaps, Position, Viewport};
use crate::resources::{EnemySpawnTimer, HighScore, Score, StarSpawnTimer};

verus! {

/// Diameter of the player's sprite, in length units.
pub const PLAYER_SIZE: u32 = 64_000;

/// Diameter of an enemy's sprite, in length units.
pub const ENEMY_SIZE: u32 = 64_000;

/// Diameter of a star's sprite, in length units.
pub const STAR_SIZE: u32 = 30_000;

/// Speed of the player, in length units per second.
pub const PLAYER_SPEED: u32 = 500_000;

/// Speed of an enemy, in length units per second.
pub const ENEMY_SPEED: u32 = 200_000;

/// How many enemies a session starts with.
pub const NUMBER_OF_ENEMIES: usize = 4;

/// How many stars a session starts with.
pub const NUMBER_OF_STARS: usize = 10;

/// Which of the keys that matter are held down. Each movement flag stands for
/// a letter key and its arrow key alike.
#[derive(Clone, Copy, Debug, PartialEq, Eq, Structural)]
pub struct KeyState {
    pub left: bool,
    pub right: bool,
    pub up: bool,
    pub down: bool,
    pub escape: bool,
}

impl KeyState {
    /// The vector that the movement keys add up to: opposite keys cancel.
    pub open spec fn axes(self) -> (int, int) {
        (
            (if self.right { 1int } else { 0 }) - (if self.left { 1int } else { 0 }),
            (if self.up { 1int } else { 0 }) - (if self.down { 1int } else { 0 }),
        )
    }

    /// The unit direction in which the keys point, or `None` where they add
    /// up to nothing.
    pub fn heading(&self) -> (r: Option<Direction>)
        ensures
            r is None <==> self.axes() == (0int, 0int),
            r matches Some(d) ==> d@ == (
                unit_component(self.axes().0, self.axes().1),
                unit_component(self.axes().1, self.axes().0),
            ) && d.is_unit(),
    {
        let mut x: i32 = 0;
        let mut y: i32 = 0;
        if self.left {
            x -= 1;
        }
        if self.right {
            x += 1;
        }
        if self.up {
            y += 1;
        }
        if self.down {
            y -= 1;
        }
        Direction::from_components(x, y)
    }
}

/// Where a new player appears: two thirds of the way along each axis.
pub open spec fn player_start(viewport: Viewport) -> Position {
    Position { x: (2 * viewport.width / 3) as i64, y: (2 * viewport.height / 3) as i64 }
}

/// Puts a player at its starting place, in place of any that was there.
pub fn spawn_player(player: &mut Option<Player>, viewport: &Viewport)
    ensures
        *final(player) == Some(Player { position: player_start(*viewport) }),
{
    let x: i64 = (2 * (viewport.width as u64) / 3) as i64;
    let y: i64 = (2 * (viewport.height as u64) / 3) as i64;
    *player = Some(Player { position: Position { x, y } });
}

/// The player after `delta_nanos` nanoseconds with these keys held.
pub open spec fn player_moved(p: Player, keys: KeyState, delta_nanos: u64) -> Player {
    if keys.axes() == (0int, 0int) {
        p
    } else {
        Player {
            position: p.position.advanced(
                (
                    unit_component(keys.axes().0, keys.axes().1),
                    unit_component(keys.axes().1, keys.axes().0),
                ),
                PLAYER_SPEED,
                delta_nanos,
            ),
        }
    }
}

/// Moves the player, if there is one, along the direction of the keys held
/// for `delta_nanos` nanoseconds at [`PLAYER_SPEED`]. Keys that add up to
/// nothing move nothing.
pub fn player_movement(keys: &KeyState, player: &mut Option<Player>, delta_nanos: u64)
    ensures
        *old(player) is None ==> *final(player) is None,
        *old(player) matches Some(p) ==> *final(player) == Some(
            player_moved(p, *keys, delta_nanos),
        ),
{
    if let Some(p) = *player {
        if let Some(direction) = keys.heading() {
            *player = Some(
                Player { position: p.position.advance(&direction, PLAYER_SPEED, delta_nanos) },
            );
        }
    }
}

/// Clamps the player, if there is one, into the viewport.
pub fn confine_player_movement(player: &mut Option<Player>, viewport: &Viewport)
    ensures
        *old(player) is None ==> *final(player) is None,
        *old(player) matches Some(p) ==> *final(player) == Some(
            Player { position: p.position.confined(PLAYER_SIZE, *viewport) },
        ),
        viewport.fits(PLAYER_SIZE) ==> (*final(player) matches Some(p) ==> p.position.in_bounds(
            PLAYER_SIZE,
            *viewport,
        )),
{
    if let Some(p) = *player {
        *player = Some(Player { position: p.position.confine(PLAYER_SIZE, *viewport) });
    }
}

/// Every enemy of the sequence heads in a unit direction.
pub open spec fn all_unit(enemies: Seq<Enemy>) -> bool {
    forall|i: int| 0 <= i < enemies.len() ==> (#[trigger] enemies[i]).direction.is_unit()
}

/// The enemy after `delta_nanos` nanoseconds of drifting along its direction
/// at [`ENEMY_SPEED`].
pub open spec fn enemy_moved(e: Enemy, delta_nanos: u64) -> Enemy {
    Enemy {
        position: e.position.advanced(e.direction@, ENEMY_SPEED, delta_nanos),
        direction: e.direction,
    }
}

/// Moves every enemy along its direction for `delta_nanos` nanoseconds.
pub fn enemy_movement(enemies: &mut Vec<Enemy>, delta_nanos: u64)
    ensures
        final(enemies)@ == old(enemies)@.map_values(|e: Enemy| enemy_moved(e, delta_nanos)),
        all_unit(final(enemies)@),
{
    let n: usize = enemies.len();
    let mut i: usize = 0;
    while i < n
        invariant
            n == enemies@.len(),
            n == old(enemies)@.len(),
            i <= n,
            forall|j: int|
                0 <= j < i ==> #[trigger] enemies@[j] == enemy_moved(
                    old(enemies)@[j],
                    delta_nanos,
                ),
            forall|j: int| i <= j < n ==> #[trigger] enemies@[j] == old(enemies)@[j],
            forall|j: int| 0 <= j < i ==> (#[trigger] enemies@[j]).direction.is_unit(),
        decreases n - i,
    {
        let e: Enemy = enemies[i];
        let direction: Direction = e.direction;
        proof {
            use_type_invariant(&direction);
        }
        enemies.set(
            i,
            Enemy { position: e.position.advance(&direction, ENEMY_SPEED, delta_nanos), direction },
        );
        i += 1;
    }
    assert(enemies@ =~= old(enemies)@.map_values(|e: Enemy| enemy_moved(e, delta_nanos)));
}

/// A sprite of diameter `size` centred at coordinate `x` touches or crosses
/// an edge of an axis of length `extent`.
pub open spec fn touches_edge(x: i64, size: u32, extent: u32) -> bool {
    x <= size / 2 || x >= extent - size / 2
}

/// `after` is `before` with its direction mirrored on each axis on which it
/// touches an edge of the viewport, at the same place.
pub open spec fn bounced(before: Enemy, after: Enemy, viewport: Viewport) -> bool {
    &&& after.position == before.position
    &&& after.direction@ == before.direction.reflected(
        touches_edge(before.position.x, ENEMY_SIZE, viewport.width),
        touches_edge(before.position.y, ENEMY_SIZE, viewport.height),
    )
    &&& after.direction.is_unit()
}

/// The enemy touches an edge of the viewport on some axis.
pub open spec fn at_edge(e: Enemy, viewport: Viewport) -> bool {
    touches_edge(e.position.x, ENEMY_SIZE, viewport.width) || touches_edge(
        e.position.y,
        ENEMY_SIZE,
        viewport.height,
    )
}

/// Turns an enemy that touches an edge back into the field: the component of
/// its direction on each touched axis is negated and the direction scaled to
/// unit length again. Says whether any edge was touched.
pub fn bounce(enemy: Enemy, viewport: &Viewport) -> (r: (Enemy, bool))
    ensures
        bounced(enemy, r.0, *viewport),
        r.1 == at_edge(enemy, *viewport),
{
    let half: i64 = (ENEMY_SIZE / 2) as i64;
    let x_max: i64 = viewport.width as i64 - half;
    let y_max: i64 = viewport.height as i64 - half;
    let flip_x: bool = enemy.position.x <= half || enemy.position.x >= x_max;
    let flip_y: bool = enemy.position.y <= half || enemy.position.y >= y_max;
    let direction: Direction = enemy.direction.reflect(flip_x, flip_y);
    (Enemy { position: enemy.position, direction }, flip_x || flip_y)
}

/// Turns every enemy that touches an edge back into the field; see
/// [`bounce`]. For each enemy that was turned, one of the two bounce cues is
/// drawn by chance; the others get none.
pub fn update_enemy_direction(enemies: &mut Vec<Enemy>, viewport: &Viewport) -> (cues: Vec<
    Option<BounceCue>,
>)
    ensures
        final(enemies)@.len() == old(enemies)@.len(),
        cues@.len() == old(enemies)@.len(),
        forall|i: int|
            0 <= i < old(enemies)@.len() ==> bounced(
                old(enemies)@[i],
                #[trigger] final(enemies)@[i],
                *viewport,
            ),
        forall|i: int|
            0 <= i < old(enemies)@.len() ==> ((#[trigger] cues@[i]) is Some <==> at_edge(
                old(enemies)@[i],
                *viewport,
            )),
        all_unit(final(enemies)@),
{
    let mut cues: Vec<Option<BounceCue>> = Vec::new();
    let n: usize = enemies.len();
    let mut i: usize = 0;
    while i < n
        invariant
            n == enemies@.len(),
            n == old(enemies)@.len(),
            i <= n,
            cues@.len() == i,
            forall|j: int|
                0 <= j < i ==> bounced(old(enemies)@[j], #[trigger] enemies@[j], *viewport),
            forall|j: int|
                0 <= j < i ==> ((#[trigger] cues@[j]) is Some <==> at_edge(
                    old(enemies)@[j],
                    *viewport,
                )),
            forall|j: int| i <= j < n ==> #[trigger] enemies@[j] == old(enemies)@[j],
        decreases n - i,
    {
        let (turned, touched) = bounce(enemies[i], viewport);
        if touched {
            cues.push(Some(choose_cue(random_draw())));
        } else {
            cues.push(None);
        }
        enemies.set(i, turned);
        i += 1;
    }
    cues
}

/// The enemy clamped into the viewport, heading as before.
pub open spec fn enemy_confined(e: Enemy, viewport: Viewport) -> Enemy {
    Enemy { position: e.position.confined(ENEMY_SIZE, viewport), direction: e.direction }
}

/// Clamps every enemy into the viewport.
pub fn confine_enemy_movement(enemies: &mut Vec<Enemy>, viewport: &Viewport)
    ensures
        final(enemies)@ == old(enemies)@.map_values(|e: Enemy| enemy_confined(e, *viewport)),
        viewport.fits(ENEMY_SIZE) ==> forall|i: int|
            0 <= i < final(enemies)@.len() ==> (#[trigger] final(enemies)@[i]).position.in_bounds(
                ENEMY_SIZE,
                *viewport,
            ),
        all_unit(final(enemies)@),
{
    let n: usize = enemies.len();
    let mut i: usize = 0;
    while i < n
        invariant
            n == enemies@.len(),
            n == old(enemies)@.len(),
            i <= n,
            forall|j: int|
                0 <= j < i ==> #[trigger] enemies@[j] == enemy_confined(
                    old(enemies)@[j],
                    *viewport,
                ),
            forall|j: int| i <= j < n ==> #[trigger] enemies@[j] == old(enemies)@[j],
            forall|j: int| 0 <= j < i ==> (#[trigger] enemies@[j]).direction.is_unit(),
        decreases n - i,
    {
        let e: Enemy = enemies[i];
        let direction: Direction = e.direction;
        proof {
            use_type_invariant(&direction);
        }
        enemies.set(i, Enemy { position: e.position.confine(ENEMY_SIZE, *viewport), direction });
        i += 1;
    }
    assert(enemies@ =~= old(enemies)@.map_values(|e: Enemy| enemy_confined(e, *viewport)));
}

/// The enemy's sprite overlaps the player's.
pub open spec fn enemy_hits(p: Player, e: Enemy) -> bool {
    overlapping(p.position, PLAYER_SIZE, e.position, ENEMY_SIZE)
}

/// Enemy `i` hits the player and no enemy before it does.
pub open spec fn first_enemy_hit(p: Player, enemies: Seq<Enemy>, i: int) -> bool {
    &&& 0 <= i < enemies.len()
    &&& enemy_hits(p, enemies[i])
    &&& forall|j: int| 0 <= j < i ==> !enemy_hits(p, #[trigger] enemies[j])
}

/// No enemy hits the player.
pub open spec fn no_enemy_hit(p: Player, enemies: Seq<Enemy>) -> bool {
    forall|j: int| 0 <= j < enemies.len() ==> !enemy_hits(p, #[trigger] enemies[j])
}

/// Ends the session when an enemy hits the player: the player is removed and
/// one game-over signal with the current score is raised, however many
/// enemies hit at once. Returns the index of the first enemy that hits, or
/// `None` where there is no player or no enemy hits.
pub fn enemy_hit_player(
    player: &mut Option<Player>,
    enemies: &Vec<Enemy>,
    score: &Score,
    events: &mut GameOverEvents,
) -> (hit: Option<usize>)
    ensures
        (match hit {
            Some(i) => {
                &&& *old(player) matches Some(p) && first_enemy_hit(p, enemies@, i as int)
                &&& *final(player) is None
                &&& final(events)@ == old(events)@.push(GameOver { score: score.value })
            },
            None => {
                &&& *old(player) matches Some(p) ==> no_enemy_hit(p, enemies@)
                &&& *final(player) == *old(player)
                &&& final(events)@ == old(events)@
            },
        }),
{
    if let Some(p) = *player {
        let n: usize = enemies.len();
        let mut i: usize = 0;
        while i < n
            invariant
                n == enemies@.len(),
                i <= n,
                *player == Some(p),
                *player == *old(player),
                events@ == old(events)@,
                forall|j: int| 0 <= j < i ==> !enemy_hits(p, #[trigger] enemies@[j]),
            decreases n - i,
        {
            if overlaps(p.position, PLAYER_SIZE, enemies[i].position, ENEMY_SIZE) {
                *player = None;
                events.send(GameOver { score: score.value });
                return Some(i);
            }
            i += 1;
        }
    }
    None
}

/// The star's sprite overlaps the player's.
pub open spec fn star_in_reach(p: Player, s: Star) -> bool {
    overlapping(p.position, PLAYER_SIZE, s.position, STAR_SIZE)
}

/// Star `i` is in the player's reach and no star before it is.
pub open spec fn first_star_in_reach(p: Player, stars: Seq<Star>, i: int) -> bool {
    &&& 0 <= i < stars.len()
    &&& star_in_reach(p, stars[i])
    &&& forall|j: int| 0 <= j < i ==> !star_in_reach(p, #[trigger] stars[j])
}

/// No star is in the player's reach.
pub open spec fn no_star_in_reach(p: Player, stars: Seq<Star>) -> bool {
    forall|j: int| 0 <= j < stars.len() ==> !star_in_reach(p, #[trigger] stars[j])
}

/// Collects at most one star: the first one in the player's reach is removed
/// and the score goes up by one. Returns the index that the star had, or
/// `None` where there is no player or no star in reach.
pub fn player_collect_star(
    player: &Option<Player>,
    stars: &mut Vec<Star>,
    score: &mut Score,
) -> (collected: Option<usize>)
    ensures
        (match collected {
            Some(i) => {
                &&& *player matches Some(p) && first_star_in_reach(p, old(stars)@, i as int)
                &&& final(stars)@ == old(stars)@.remove(i as int)
                &&& *final(score) == old(score).incremented()
            },
            None => {
                &&& *player matches Some(p) ==> no_star_in_reach(p, old(stars)@)
                &&& final(stars)@ == old(stars)@
                &&& *final(score) == *old(score)
            },
        }),
        final(score).value >= old(score).value,
{
    if let Some(p) = *player {
        let n: usize = stars.len();
        let mut i: usize = 0;
        while i < n
            invariant
                n == stars@.len(),
                i <= n,
                *player == Some(p),
                stars@ == old(stars)@,
                *score == *old(score),
                forall|j: int| 0 <= j < i ==> !star_in_reach(p, #[trigger] stars@[j]),
            decreases n - i,
        {
            if overlaps(p.position, PLAYER_SIZE, stars[i].position, STAR_SIZE) {
                score.increment();
                stars.remove(i);
                return Some(i);
            }
            i += 1;
        }
    }
    None
}

/// An enemy as it arrives: somewhere in the viewport, heading into the
/// first quadrant.
pub open spec fn fresh_enemy(e: Enemy, viewport: Viewport) -> bool {
    &&& viewport.covers(e.position)
    &&& e.direction.is_unit()
    &&& e.direction@.0 >= 0
    &&& e.direction@.1 >= 0
}

/// The enemy that four draws stand for: the first two place it, the last two
/// give its direction.
pub fn enemy_from_draws(viewport: &Viewport, place: (u32, u32), heading: (u32, u32)) -> (r: Enemy)
    ensures
        r.position.x == scaled(place.0, viewport.width),
        r.position.y == scaled(place.1, viewport.height),
        r.direction@ == (
            unit_component(cell_midpoint(heading.0), cell_midpoint(heading.1)),
            unit_component(cell_midpoint(heading.1), cell_midpoint(heading.0)),
        ),
        fresh_enemy(r, *viewport),
{
    Enemy {
        position: position_from_draws(*viewport, place.0, place.1),
        direction: direction_from_draws(heading.0, heading.1),
    }
}

/// The star that two draws stand for.
pub fn star_from_draws(viewport: &Viewport, place: (u32, u32)) -> (r: Star)
    ensures
        r.position.x == scaled(place.0, viewport.width),
        r.position.y == scaled(place.1, viewport.height),
        viewport.covers(r.position),
{
    Star { position: position_from_draws(*viewport, place.0, place.1) }
}

/// An enemy at a place and with a direction drawn by chance.
fn random_enemy(viewport: &Viewport) -> (r: Enemy)
    ensures
        fresh_enemy(r, *viewport),
{
    let place: (u32, u32) = (random_draw(), random_draw());
    let heading: (u32, u32) = (random_draw(), random_draw());
    enemy_from_draws(viewport, place, heading)
}

/// A star at a place drawn by chance.
fn random_star(viewport: &Viewport) -> (r: Star)
    ensures
        viewport.covers(r.position),
{
    let place: (u32, u32) = (random_draw(), random_draw());
    star_from_draws(viewport, place)
}

/// Adds [`NUMBER_OF_ENEMIES`] enemies behind those that are there, each at a
/// place in the viewport and with a direction drawn by chance.
pub fn spawn_enemies(enemies: &mut Vec<Enemy>, viewport: &Viewport)
    ensures
        final(enemies)@.len() == old(enemies)@.len() + NUMBER_OF_ENEMIES,
        final(enemies)@.subrange(0, old(enemies)@.len() as int) == old(enemies)@,
        forall|i: int|
            old(enemies)@.len() <= i < final(enemies)@.len() ==> fresh_enemy(
                #[trigger] final(enemies)@[i],
                *viewport,
            ),
{
    let mut k: usize = 0;
    while k < NUMBER_OF_ENEMIES
        invariant
            k <= NUMBER_OF_ENEMIES,
            enemies@.len() == old(enemies)@.len() + k,
            enemies@.subrange(0, old(enemies)@.len() as int) == old(enemies)@,
            forall|i: int|
                old(enemies)@.len() <= i < enemies@.len() ==> fresh_enemy(
                    #[trigger] enemies@[i],
                    *viewport,
                ),
        decreases NUMBER_OF_ENEMIES - k,
    {
        let ghost before = enemies@;
        enemies.push(random_enemy(viewport));
        assert(enemies@.subrange(0, old(enemies)@.len() as int) =~= before.subrange(
            0,
            old(enemies)@.len() as int,
        ));
        k += 1;
    }
}

/// Adds [`NUMBER_OF_STARS`] stars behind those that are there, each at a
/// place in the viewport drawn by chance.
pub fn spawn_stars(stars: &mut Vec<Star>, viewport: &Viewport)
    ensures
        final(stars)@.len() == old(stars)@.len() + NUMBER_OF_STARS,
        final(stars)@.subrange(0, old(stars)@.len() as int) == old(stars)@,
        forall|i: int|
            old(stars)@.len() <= i < final(stars)@.len() ==> viewport.covers(
                (#[trigger] final(stars)@[i]).position,
            ),
{
    let mut k: usize = 0;
    while k < NUMBER_OF_STARS
        invariant
            k <= NUMBER_OF_STARS,
            stars@.len() == old(stars)@.len() + k,
            stars@.subrange(0, old(stars)@.len() as int) == old(stars)@,
            forall|i: int|
                old(stars)@.len() <= i < stars@.len() ==> viewport.covers(
                    (#[trigger] stars@[i]).position,
                ),
        decreases NUMBER_OF_STARS - k,
    {
        let ghost before = stars@;
        stars.push(random_star(viewport));
        assert(stars@.subrange(0, old(stars)@.len() as int) =~= before.subrange(
            0,
            old(stars)@.len() as int,
        ));
        k += 1;
    }
}

/// Lets `delta_nanos` nanoseconds pass on the star timer.
pub fn tick_star_spawn_timer(star_spawn_timer: &mut StarSpawnTimer, delta_nanos: u64)
    ensures
        final(star_spawn_timer).timer@ == old(star_spawn_timer).timer@.ticked(delta_nanos as nat),
{
    star_spawn_timer.timer.tick(delta_nanos);
}

/// Lets `delta_nanos` nanoseconds pass on the enemy timer.
pub fn tick_enemy_spawn_timer(enemy_spawn_timer: &mut EnemySpawnTimer, delta_nanos: u64)
    ensures
        final(enemy_spawn_timer).timer@ == old(enemy_spawn_timer).timer@.ticked(
            delta_nanos as nat,
        ),
{
    enemy_spawn_timer.timer.tick(delta_nanos);
}

/// Adds one star at a place drawn by chance if the star timer finished on
/// its last tick, and nothing otherwise.
pub fn spawn_star_over_time(
    star_spawn_timer: &StarSpawnTimer,
    stars: &mut Vec<Star>,
    viewport: &Viewport,
)
    ensures
        !star_spawn_timer.timer@.finished ==> final(stars)@ == old(stars)@,
        star_spawn_timer.timer@.finished ==> final(stars)@.len() == old(stars)@.len() + 1,
        star_spawn_timer.timer@.finished ==> final(stars)@.drop_last() == old(stars)@,
        star_spawn_timer.timer@.finished ==> viewport.covers(final(stars)@.last().position),
{
    if star_spawn_timer.timer.finished() {
        stars.push(random_star(viewport));
        assert(stars@.drop_last() =~= old(stars)@);
    }
}

/// Adds one enemy at a place and with a direction drawn by chance if the
/// enemy timer finished on its last tick, and nothing otherwise.
pub fn spawn_enemy_over_time(
    enemy_spawn_timer: &EnemySpawnTimer,
    enemies: &mut Vec<Enemy>,
    viewport: &Viewport,
)
    ensures
        !enemy_spawn_timer.timer@.finished ==> final(enemies)@ == old(enemies)@,
        enemy_spawn_timer.timer@.finished ==> final(enemies)@.len() == old(enemies)@.len() + 1,
        enemy_spawn_timer.timer@.finished ==> final(enemies)@.drop_last() == old(enemies)@,
        enemy_spawn_timer.timer@.finished ==> fresh_enemy(final(enemies)@.last(), *viewport),
{
    if enemy_spawn_timer.timer.finished() {
        enemies.push(random_enemy(viewport));
        assert(enemies@.drop_last() =~= old(enemies)@);
    }
}

/// Whether the key that ends the session is held.
pub fn exit_game(keys: &KeyState) -> (r: bool)
    ensures
        r == keys.escape,
{
    keys.escape
}

/// The name under which a finished session is listed.
pub open spec fn player_name() -> Seq<char> {
    "Player"@
}

/// The listener that ends the session: takes the game-over signals that it
/// has not seen and returns their final scores, oldest first. The session is
/// over when the result is not empty.
pub fn handle_game_over(reader: &mut EventReader, events: &GameOverEvents) -> (finals: Vec<u32>)
    ensures
        finals@ == unseen(events@, old(reader)@).map_values(|e: GameOver| e.score),
        final(reader)@ == caught_up(old(reader)@, events@),
{
    let fresh: Vec<GameOver> = reader.read(events);
    let mut finals: Vec<u32> = Vec::new();
    let mut i: usize = 0;
    while i < fresh.len()
        invariant
            i <= fresh@.len(),
            finals@ == fresh@.subrange(0, i as int).map_values(|e: GameOver| e.score),
        decreases fresh@.len() - i,
    {
        finals.push(fresh[i].score);
        i += 1;
        assert(finals@ =~= fresh@.subrange(0, i as int).map_values(|e: GameOver| e.score));
    }
    assert(fresh@.subrange(0, i as int) =~= fresh@);
    finals
}

/// The listener that keeps the list of finished sessions: takes the
/// game-over signals that it has not seen and appends one entry for each,
/// oldest first, under the name [`player_name`].
pub fn update_high_score(
    high_score: &mut HighScore,
    reader: &mut EventReader,
    events: &GameOverEvents,
)
    ensures
        final(high_score)@ == old(high_score)@ + unseen(events@, old(reader)@).map_values(
            |e: GameOver| (player_name(), e.score),
        ),
        final(reader)@ == caught_up(old(reader)@, events@),
{
    let fresh: Vec<GameOver> = reader.read(events);
    let mut i: usize = 0;
    while i < fresh.len()
        invariant
            i <= fresh@.len(),
            high_score@ == old(high_score)@ + fresh@.subrange(0, i as int).map_values(
                |e: GameOver| (player_name(), e.score),
            ),
        decreases fresh@.len() - i,
    {
        let name: String = "Player".to_string();
        high_score.record(name, fresh[i].score);
        i += 1;
        assert(high_score@ =~= old(high_score)@ + fresh@.subrange(0, i as int).map_values(
            |e: GameOver| (player_name(), e.score),
        ));
    }
    assert(fresh@.subrange(0, i as int) =~= fresh@);
}

} // verus!
