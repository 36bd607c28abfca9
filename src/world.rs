//! One playing session: the player, the live obstacles and background
//! elements, the running score and the sound cues of the current tick, with
//! the per-tick systems that advance them.
use vstd::prelude::*;
use crate::audio::AudioEvent;
use crate::catalog::{BirdCharacter, PipeType, UNIT};
use crate::collision::{boundary_collision, check_pipe_collision, hits_boundary, pipe_hit};
use crate::entities::{BackgroundElement, BackgroundLayer, Bird, Gravity, Pipe, Scrolling, Velocity};
use crate::physics::{self, integrate_fits, next_height, next_velocity, tilt_of, GRAVITY, JUMP_FORCE};
use crate::random::random_in_range;
use crate::scoring::{passed_pipe_positions, points_earned};
use crate::scroll::{
    checked_move, gap_in_range, move_fits, pipes_move_fits, scroll_background_element, scroll_pipes,
    scrolled_background, scrolled_pipes,
};
use crate::spawner::{
    gap_half_width, gap_half_width_of, spawn_pair, spawned_pair, SpawnTimer, GAP_CENTER_RANGE, MAX_EXTENT,
    SPAWN_X,
};

verus! {

/// Horizontal position of the player.
pub const BIRD_X: i64 = -200 * UNIT;

/// Obstacle speed: 200 units per second.
pub const PIPE_SPEED: i64 = 200_000;

/// Base gap half width: 150 units.
pub const PIPE_GAP: i64 = 150 * UNIT;

/// Distance from the gap edge to an obstacle's centre: 200 units.
pub const PIPE_OFFSET: i64 = 200 * UNIT;

/// Time between two obstacle pairs: two seconds.
pub const SPAWN_INTERVAL_MS: u64 = 2000;

/// Tunable parameters of a session.
#[derive(Debug, Clone, Copy, PartialEq, Eq, Structural)]
pub struct GameConfig {
    pub jump_force: i64,
    pub pipe_speed: i64,
    pub pipe_gap: i64,
    pub pipe_offset: i64,
    pub pipe_spawn_timer: SpawnTimer,
}

impl GameConfig {
    pub open spec fn wf(self) -> bool {
        &&& self.pipe_spawn_timer.wf()
        &&& 0 <= self.pipe_gap <= MAX_EXTENT
        &&& 0 <= self.pipe_offset <= MAX_EXTENT
    }

    /// The standard parameters.
    pub fn new() -> (r: GameConfig)
        ensures
            r.wf(),
            r.jump_force == JUMP_FORCE,
            r.pipe_speed == PIPE_SPEED,
            r.pipe_gap == PIPE_GAP,
            r.pipe_offset == PIPE_OFFSET,
            r.pipe_spawn_timer == (SpawnTimer { elapsed_ms: 0, interval_ms: SPAWN_INTERVAL_MS }),
    {
        GameConfig {
            jump_force: JUMP_FORCE,
            pipe_speed: PIPE_SPEED,
            pipe_gap: PIPE_GAP,
            pipe_offset: PIPE_OFFSET,
            pipe_spawn_timer: SpawnTimer::new(SPAWN_INTERVAL_MS),
        }
    }
}

/// The state of one playing session.
#[derive(Debug)]
pub struct World {
    pub bird: Bird,
    pub pipes: Vec<Pipe>,
    pub background: Vec<BackgroundElement>,
    /// Identifier for the next spawned entity.
    pub next_id: u64,
    pub score: u32,
    /// Sound cues emitted since the audio collaborator last drained them.
    pub events: Vec<AudioEvent>,
}

/// Whether the player touches a bound or any obstacle.
pub open spec fn collides(bird: Bird, pipes: Seq<Pipe>) -> bool {
    let radius = bird.character.spec_collision_radius();
    hits_boundary(bird.y as int, radius) || exists|i: int|
        0 <= i < pipes.len() && #[trigger] pipe_hit(
            bird.x as int,
            bird.y as int,
            radius,
            pipes[i].x as int,
            pipes[i].y as int,
            pipes[i].pipe_type.spec_geometry(),
        )
}

/// The collision test reads nothing but the player and the obstacles: asked
/// twice about the same unchanged state, it gives the same answer.
pub proof fn lemma_collision_test_idempotent(bird: Bird, pipes: Seq<Pipe>, same_bird: Bird, same_pipes: Seq<Pipe>)
    requires
        same_bird == bird,
        same_pipes == pipes,
    ensures
        collides(same_bird, same_pipes) == collides(bird, pipes),
        hits_boundary(same_bird.y as int, same_bird.character.spec_collision_radius()) == hits_boundary(
            bird.y as int,
            bird.character.spec_collision_radius(),
        ),
{
}

/// `n` score cues.
pub open spec fn score_cues(n: nat) -> Seq<AudioEvent> {
    Seq::new(n, |i: int| AudioEvent::Score)
}

/// The player right after the input step of a tick.
pub open spec fn after_input(bird: Bird, flap: bool, jump_force: i64) -> Bird {
    if flap {
        Bird { velocity: Velocity { y: jump_force }, ..bird }
    } else {
        bird
    }
}

/// The initial background: five mountains 200 units apart from x = -400 and
/// three clouds 300 units apart from x = -300.
pub open spec fn initial_background() -> Seq<BackgroundElement> {
    Seq::new(
        8,
        |i: int|
            if i < 5 {
                BackgroundElement {
                    id: (i + 1) as u64,
                    layer: BackgroundLayer::Mountain,
                    x: (i * 200 * UNIT - 400 * UNIT) as i64,
                    y: (-250 * UNIT) as i64,
                    scrolling: Scrolling { speed: 50_000 },
                }
            } else {
                BackgroundElement {
                    id: (i + 1) as u64,
                    layer: BackgroundLayer::Cloud,
                    x: ((i - 5) * 300 * UNIT - 300 * UNIT) as i64,
                    y: (200 * UNIT) as i64,
                    scrolling: Scrolling { speed: 30_000 },
                }
            },
    )
}

/// Whether every background element's move fits the machine integers.
pub open spec fn background_move_fits(s: Seq<BackgroundElement>, dt: int) -> bool {
    forall|i: int|
        0 <= i < s.len() ==> move_fits(#[trigger] s[i].x as int, s[i].scrolling.speed as int, dt)
}

/// A background element moved with some spacing from its layer's range.
pub open spec fn background_step(before: BackgroundElement, after: BackgroundElement, dt: int) -> bool {
    exists|gap: int| gap_in_range(before, gap) && after == scrolled_background(before, dt, gap)
}

/// Whether one tick of `dt` milliseconds, with or without a flap, stays
/// within the machine integers: the player's motion, every move of an
/// obstacle (one spawned this tick included) or background element, the
/// entity identifiers and the score.
pub open spec fn tick_fits(w: World, config: GameConfig, dt: int, flap: bool) -> bool {
    &&& integrate_fits(after_input(w.bird, flap, config.jump_force), dt)
    &&& w.next_id <= u64::MAX - 2
    &&& pipes_move_fits(w.pipes@, dt)
    &&& move_fits(SPAWN_X as int, config.pipe_speed as int, dt)
    &&& background_move_fits(w.background@, dt)
    &&& w.score + w.pipes@.len() + 2 <= u32::MAX
}

/// The obstacles after spawning and scrolling: `spawned` tells whether the
/// timer fired, and then some gap centre and variant gave the new pair.
pub open spec fn pipes_after_tick(
    before: Seq<Pipe>,
    after: Seq<Pipe>,
    spawned: bool,
    next_id: u64,
    config: GameConfig,
    score: u32,
    dt: int,
) -> bool {
    if spawned {
        exists|gap_center: int, pipe_type: PipeType|
            -GAP_CENTER_RANGE <= gap_center < GAP_CENTER_RANGE && {
                let (upper, lower) = #[trigger] spawned_pair(
                    next_id,
                    pipe_type,
                    gap_center,
                    gap_half_width_of(config.pipe_gap as int, score as int),
                    config.pipe_offset as int,
                    config.pipe_speed,
                );
                after == scrolled_pipes(before.push(upper).push(lower), dt)
            }
    } else {
        after == scrolled_pipes(before, dt)
    }
}

proof fn lemma_scrolled_len(s: Seq<Pipe>, dt: int)
    ensures
        scrolled_pipes(s, dt).len() <= s.len(),
    decreases s.len(),
{
    if s.len() > 0 {
        lemma_scrolled_len(s.drop_last(), dt);
    }
}

impl World {
    /// A new session for a character: the player at rest at x = -200 on the
    /// centre line, no obstacles, the initial background, score zero.
    pub fn setup_game(character: BirdCharacter) -> (r: World)
        ensures
            r.bird == (Bird {
                character,
                x: BIRD_X,
                y: 0,
                velocity: Velocity { y: 0 },
                gravity: Gravity(GRAVITY),
                tilt: 0,
            }),
            r.pipes@.len() == 0,
            r.background@ == initial_background(),
            r.next_id == 9,
            r.score == 0,
            r.events@.len() == 0,
    {
        let mut background: Vec<BackgroundElement> = Vec::new();
        let mut i: u64 = 0;
        while i < 5
            invariant
                i <= 5,
                background@ == initial_background().take(i as int),
            decreases 5 - i,
        {
            background.push(
                BackgroundElement {
                    id: i + 1,
                    layer: BackgroundLayer::Mountain,
                    x: (i as i64) * 200 * UNIT - 400 * UNIT,
                    y: -250 * UNIT,
                    scrolling: Scrolling { speed: 50_000 },
                },
            );
            i += 1;
            assert(background@ =~= initial_background().take(i as int));
        }
        while i < 8
            invariant
                5 <= i <= 8,
                background@ == initial_background().take(i as int),
            decreases 8 - i,
        {
            background.push(
                BackgroundElement {
                    id: i + 1,
                    layer: BackgroundLayer::Cloud,
                    x: ((i - 5) as i64) * 300 * UNIT - 300 * UNIT,
                    y: 200 * UNIT,
                    scrolling: Scrolling { speed: 30_000 },
                },
            );
            i += 1;
            assert(background@ =~= initial_background().take(i as int));
        }
        assert(background@ =~= initial_background());
        World {
            bird: Bird {
                character,
                x: BIRD_X,
                y: 0,
                velocity: Velocity { y: 0 },
                gravity: Gravity(GRAVITY),
                tilt: 0,
            },
            pipes: Vec::new(),
            background,
            next_id: 9,
            score: 0,
            events: Vec::new(),
        }
    }

    /// A flap: the player's velocity is set to the jump force and a jump cue
    /// is emitted.
    pub fn bird_input_system(&mut self, config: &GameConfig)
        ensures
            final(self).bird == after_input(old(self).bird, true, config.jump_force),
            final(self).events@ == old(self).events@.push(AudioEvent::Jump),
            final(self).pipes@ == old(self).pipes@,
            final(self).background@ == old(self).background@,
            final(self).next_id == old(self).next_id,
            final(self).score == old(self).score,
    {
        physics::flap(&mut self.bird, config.jump_force);
        self.events.push(AudioEvent::Jump);
    }

    /// Gravity and motion of the player for one tick.
    pub fn bird_physics_system(&mut self, dt_ms: u32)
        requires
            integrate_fits(old(self).bird, dt_ms as int),
        ensures
            final(self).bird.velocity.y == next_velocity(old(self).bird, dt_ms as int),
            final(self).bird.y == next_height(old(self).bird, dt_ms as int),
            final(self).bird.tilt == tilt_of(final(self).bird.velocity.y as int),
            final(self).bird.x == old(self).bird.x,
            final(self).bird.character == old(self).bird.character,
            final(self).bird.gravity == old(self).bird.gravity,
            final(self).pipes@ == old(self).pipes@,
            final(self).background@ == old(self).background@,
            final(self).next_id == old(self).next_id,
            final(self).score == old(self).score,
            final(self).events@ == old(self).events@,
    {
        physics::bird_physics_system(&mut self.bird, dt_ms);
    }

    /// Adds an obstacle pair for a drawn gap centre and variant.
    pub fn spawn_pipes(&mut self, config: &GameConfig, gap_center: i64, pipe_type: PipeType)
        requires
            config.wf(),
            old(self).next_id <= u64::MAX - 2,
            -GAP_CENTER_RANGE <= gap_center <= GAP_CENTER_RANGE,
        ensures
            ({
                let (upper, lower) = spawned_pair(
                    old(self).next_id,
                    pipe_type,
                    gap_center as int,
                    gap_half_width_of(config.pipe_gap as int, old(self).score as int),
                    config.pipe_offset as int,
                    config.pipe_speed,
                );
                final(self).pipes@ == old(self).pipes@.push(upper).push(lower)
            }),
            final(self).next_id == old(self).next_id + 2,
            final(self).bird == old(self).bird,
            final(self).background@ == old(self).background@,
            final(self).score == old(self).score,
            final(self).events@ == old(self).events@,
    {
        let half_width = gap_half_width(config.pipe_gap, self.score);
        assert(half_width <= MAX_EXTENT) by {
            assert(gap_half_width_of(config.pipe_gap as int, self.score as int) <= MAX_EXTENT);
        }
        let (upper, lower) = spawn_pair(
            self.next_id,
            pipe_type,
            gap_center,
            half_width,
            config.pipe_offset,
            config.pipe_speed,
        );
        self.pipes.push(upper);
        self.pipes.push(lower);
        self.next_id = self.next_id + 2;
    }

    /// Advances the spawn timer; when it fires, draws a gap centre and a
    /// variant and adds an obstacle pair.
    pub fn pipe_spawn_system(&mut self, config: &mut GameConfig, dt_ms: u32) -> (fired: bool)
        requires
            old(config).wf(),
            old(self).next_id <= u64::MAX - 2,
        ensures
            final(config).wf(),
            fired == (old(config).pipe_spawn_timer.elapsed_ms + dt_ms >= old(config).pipe_spawn_timer.interval_ms),
            *final(config) == (GameConfig { pipe_spawn_timer: final(config).pipe_spawn_timer, ..*old(config) }),
            final(config).pipe_spawn_timer.elapsed_ms == (old(config).pipe_spawn_timer.elapsed_ms + dt_ms)
                % (old(config).pipe_spawn_timer.interval_ms as int),
            !fired ==> final(self).pipes@ == old(self).pipes@ && final(self).next_id == old(self).next_id,
            fired ==> exists|gap_center: int, pipe_type: PipeType|
                -GAP_CENTER_RANGE <= gap_center < GAP_CENTER_RANGE && {
                    let (upper, lower) = #[trigger] spawned_pair(
                        old(self).next_id,
                        pipe_type,
                        gap_center,
                        gap_half_width_of(old(config).pipe_gap as int, old(self).score as int),
                        old(config).pipe_offset as int,
                        old(config).pipe_speed,
                    );
                    final(self).pipes@ == old(self).pipes@.push(upper).push(lower)
                },
            fired ==> final(self).next_id == old(self).next_id + 2,
            final(self).bird == old(self).bird,
            final(self).background@ == old(self).background@,
            final(self).score == old(self).score,
            final(self).events@ == old(self).events@,
    {
        let fired = config.pipe_spawn_timer.tick(dt_ms);
        if fired {
            let gap_center = random_in_range(-GAP_CENTER_RANGE, GAP_CENTER_RANGE);
            let types = PipeType::all_types();
            let k = random_in_range(0, types.len() as i64);
            let pipe_type = types[k as usize];
            self.spawn_pipes(config, gap_center, pipe_type);
        }
        fired
    }

    /// Scrolls obstacles (removing those past the left edge) and background
    /// elements (recycling those past the left edge with a fresh random
    /// spacing).
    pub fn scrolling_system(&mut self, dt_ms: u32)
        requires
            pipes_move_fits(old(self).pipes@, dt_ms as int),
            background_move_fits(old(self).background@, dt_ms as int),
        ensures
            final(self).pipes@ == scrolled_pipes(old(self).pipes@, dt_ms as int),
            final(self).background@.len() == old(self).background@.len(),
            forall|i: int|
                0 <= i < old(self).background@.len() ==> background_step(
                    old(self).background@[i],
                    #[trigger] final(self).background@[i],
                    dt_ms as int,
                ),
            final(self).bird == old(self).bird,
            final(self).next_id == old(self).next_id,
            final(self).score == old(self).score,
            final(self).events@ == old(self).events@,
    {
        self.pipes = scroll_pipes(&self.pipes, dt_ms);
        let ghost before = self.background@;
        let mut moved: Vec<BackgroundElement> = Vec::new();
        let mut i: usize = 0;
        while i < self.background.len()
            invariant
                i <= before.len(),
                self.background@ == before,
                background_move_fits(before, dt_ms as int),
                moved@.len() == i,
                forall|j: int| 0 <= j < i ==> background_step(before[j], #[trigger] moved@[j], dt_ms as int),
            decreases before.len() - i,
        {
            let e = self.background[i];
            assert(move_fits(before[i as int].x as int, before[i as int].scrolling.speed as int, dt_ms as int));
            let (lo, hi) = e.layer.gap_range();
            let x = checked_move(e.x, e.scrolling.speed, dt_ms).unwrap();
            let gap = if x < crate::scroll::DESPAWN_X {
                random_in_range(lo, hi)
            } else {
                lo
            };
            let m = scroll_background_element(e, dt_ms, gap);
            assert(gap_in_range(before[i as int], gap as int) && m == scrolled_background(
                before[i as int],
                dt_ms as int,
                gap as int,
            ));
            assert(background_step(before[i as int], m, dt_ms as int));
            moved.push(m);
            i += 1;
        }
        self.background = moved;
    }

    /// Whether the player touches a bound or an obstacle.
    pub fn collision_system(&self) -> (r: bool)
        ensures
            r == collides(self.bird, self.pipes@),
    {
        let radius = self.bird.character.get_collision_radius();
        if boundary_collision(self.bird.y, radius) {
            return true;
        }
        let mut i: usize = 0;
        while i < self.pipes.len()
            invariant
                i <= self.pipes@.len(),
                radius == self.bird.character.spec_collision_radius(),
                !hits_boundary(self.bird.y as int, radius as int),
                forall|j: int|
                    0 <= j < i ==> !#[trigger] pipe_hit(
                        self.bird.x as int,
                        self.bird.y as int,
                        radius as int,
                        self.pipes@[j].x as int,
                        self.pipes@[j].y as int,
                        self.pipes@[j].pipe_type.spec_geometry(),
                    ),
            decreases self.pipes@.len() - i,
        {
            if check_pipe_collision(&self.bird, &self.pipes[i]) {
                return true;
            }
            i += 1;
        }
        false
    }

    /// Counts the obstacles just passed, one point per distinct rounded
    /// position, with one score cue per point.
    pub fn score_system(&mut self)
        requires
            old(self).score + old(self).pipes@.len() <= u32::MAX,
        ensures
            final(self).score == old(self).score + points_earned(old(self).pipes@, old(self).bird.x as int),
            final(self).events@ == old(self).events@ + score_cues(
                points_earned(old(self).pipes@, old(self).bird.x as int),
            ),
            final(self).bird == old(self).bird,
            final(self).pipes@ == old(self).pipes@,
            final(self).background@ == old(self).background@,
            final(self).next_id == old(self).next_id,
    {
        let passed = passed_pipe_positions(&self.pipes, self.bird.x);
        proof {
            crate::scoring::lemma_points_bounded(self.pipes@, self.bird.x as int);
        }
        let ghost events0 = self.events@;
        let ghost score0 = self.score;
        let ghost bird0 = self.bird;
        let ghost pipes0 = self.pipes@;
        let ghost background0 = self.background@;
        let ghost id0 = self.next_id;
        let mut k: usize = 0;
        while k < passed.len()
            invariant
                self.bird == bird0,
                self.pipes@ == pipes0,
                self.background@ == background0,
                self.next_id == id0,
                k <= passed@.len(),
                passed@.len() <= self.pipes@.len(),
                score0 + self.pipes@.len() <= u32::MAX,
                self.score == score0 + k,
                self.events@ == events0 + score_cues(k as nat),
            decreases passed@.len() - k,
        {
            self.score = self.score + 1;
            self.events.push(AudioEvent::Score);
            k += 1;
            assert(self.events@ =~= events0 + score_cues(k as nat));
        }
    }

    /// Checks [`tick_fits`].
    pub fn can_tick(&self, config: &GameConfig, dt_ms: u32, flap: bool) -> (r: bool)
        ensures
            r == tick_fits(*self, *config, dt_ms as int, flap),
    {
        let bird = if flap {
            Bird { velocity: Velocity { y: config.jump_force }, ..self.bird }
        } else {
            self.bird
        };
        if !physics::can_integrate(&bird, dt_ms) || self.next_id > u64::MAX - 2 {
            return false;
        }
        if checked_move(SPAWN_X, config.pipe_speed, dt_ms).is_none() {
            return false;
        }
        if self.score as u128 + self.pipes.len() as u128 + 2 > u32::MAX as u128 {
            return false;
        }
        let mut i: usize = 0;
        while i < self.pipes.len()
            invariant
                i <= self.pipes@.len(),
                forall|j: int|
                    0 <= j < i ==> move_fits(
                        #[trigger] self.pipes@[j].x as int,
                        self.pipes@[j].scrolling.speed as int,
                        dt_ms as int,
                    ),
            decreases self.pipes@.len() - i,
        {
            if checked_move(self.pipes[i].x, self.pipes[i].scrolling.speed, dt_ms).is_none() {
                return false;
            }
            i += 1;
        }
        let mut i: usize = 0;
        while i < self.background.len()
            invariant
                i <= self.background@.len(),
                pipes_move_fits(self.pipes@, dt_ms as int),
                forall|j: int|
                    0 <= j < i ==> move_fits(
                        #[trigger] self.background@[j].x as int,
                        self.background@[j].scrolling.speed as int,
                        dt_ms as int,
                    ),
            decreases self.background@.len() - i,
        {
            if checked_move(self.background[i].x, self.background[i].scrolling.speed, dt_ms).is_none() {
                return false;
            }
            i += 1;
        }
        true
    }

    /// One simulation tick, in order: the flap input, physics, spawning,
    /// scrolling, then the collision test. A collision emits a hit cue and
    /// ends the tick (the result is true); otherwise passed obstacles score.
    pub fn tick(&mut self, config: &mut GameConfig, dt_ms: u32, flap: bool) -> (game_over: bool)
        requires
            old(config).wf(),
            tick_fits(*old(self), *old(config), dt_ms as int, flap),
        ensures
            final(config).wf(),
            *final(config) == (GameConfig { pipe_spawn_timer: final(config).pipe_spawn_timer, ..*old(config) }),
            final(config).pipe_spawn_timer.elapsed_ms == (old(config).pipe_spawn_timer.elapsed_ms + dt_ms)
                % (old(config).pipe_spawn_timer.interval_ms as int),
            ({
                let b = after_input(old(self).bird, flap, old(config).jump_force);
                &&& final(self).bird.velocity.y == next_velocity(b, dt_ms as int)
                &&& final(self).bird.y == next_height(b, dt_ms as int)
                &&& final(self).bird.tilt == tilt_of(final(self).bird.velocity.y as int)
                &&& final(self).bird.x == old(self).bird.x
                &&& final(self).bird.character == old(self).bird.character
                &&& final(self).bird.gravity == old(self).bird.gravity
            }),
            pipes_after_tick(
                old(self).pipes@,
                final(self).pipes@,
                old(config).pipe_spawn_timer.elapsed_ms + dt_ms >= old(config).pipe_spawn_timer.interval_ms,
                old(self).next_id,
                *old(config),
                old(self).score,
                dt_ms as int,
            ),
            final(self).background@.len() == old(self).background@.len(),
            forall|i: int|
                0 <= i < old(self).background@.len() ==> background_step(
                    old(self).background@[i],
                    #[trigger] final(self).background@[i],
                    dt_ms as int,
                ),
            game_over == collides(final(self).bird, final(self).pipes@),
            ({
                let input_cues = if flap {
                    old(self).events@.push(AudioEvent::Jump)
                } else {
                    old(self).events@
                };
                let points = points_earned(final(self).pipes@, final(self).bird.x as int);
                &&& game_over ==> final(self).score == old(self).score
                &&& game_over ==> final(self).events@ == input_cues.push(AudioEvent::Hit)
                &&& !game_over ==> final(self).score == old(self).score + points
                &&& !game_over ==> final(self).events@ == input_cues + score_cues(points)
            }),
    {
        if flap {
            self.bird_input_system(config);
        }
        self.bird_physics_system(dt_ms);
        let ghost pipes0 = self.pipes@;
        let fired = self.pipe_spawn_system(config, dt_ms);
        proof {
            if fired {
                let upper = self.pipes@[pipes0.len() as int];
                let lower = self.pipes@[pipes0.len() as int + 1];
                assert(self.pipes@ =~= pipes0.push(upper).push(lower));
                assert(upper.x == SPAWN_X && upper.scrolling.speed == config.pipe_speed);
                assert(lower.x == SPAWN_X && lower.scrolling.speed == config.pipe_speed);
                assert forall|i: int| 0 <= i < self.pipes@.len() implies move_fits(
                    #[trigger] self.pipes@[i].x as int,
                    self.pipes@[i].scrolling.speed as int,
                    dt_ms as int,
                ) by {
                    if i < pipes0.len() {
                        assert(self.pipes@[i] == pipes0[i]);
                    }
                }
            }
        }
        let ghost spawned = self.pipes@;
        self.scrolling_system(dt_ms);
        proof {
            lemma_scrolled_len(spawned, dt_ms as int);
            if fired {
                let (gc, pt) = choose|gap_center: int, pipe_type: PipeType|
                    -GAP_CENTER_RANGE <= gap_center < GAP_CENTER_RANGE && {
                        let (upper, lower) = #[trigger] spawned_pair(
                            old(self).next_id,
                            pipe_type,
                            gap_center,
                            gap_half_width_of(old(config).pipe_gap as int, old(self).score as int),
                            old(config).pipe_offset as int,
                            old(config).pipe_speed,
                        );
                        spawned == pipes0.push(upper).push(lower)
                    };
                let (upper, lower) = spawned_pair(
                    old(self).next_id,
                    pt,
                    gc,
                    gap_half_width_of(old(config).pipe_gap as int, old(self).score as int),
                    old(config).pipe_offset as int,
                    old(config).pipe_speed,
                );
                assert(self.pipes@ == scrolled_pipes(pipes0.push(upper).push(lower), dt_ms as int));
            }
        }
        if self.collision_system() {
            self.events.push(AudioEvent::Hit);
            return true;
        }
        self.score_system();
        false
    }

    /// Hands the pending sound cues to the caller.
    pub fn drain_events(&mut self) -> (r: Vec<AudioEvent>)
        ensures
            r@ == old(self).events@,
            final(self).events@.len() == 0,
            final(self).bird == old(self).bird,
            final(self).pipes@ == old(self).pipes@,
            final(self).background@ == old(self).background@,
            final(self).next_id == old(self).next_id,
            final(self).score == old(self).score,
    {
        let mut r: Vec<AudioEvent> = Vec::new();
        std::mem::swap(&mut r, &mut self.events);
        r
    }
}

} // verus!
