//! The obstacles: pairs of pipes that scroll from right to left, and the
//! manager that spawns them on a fixed period and retires them.

use vstd::prelude::*;
use rand::ThreadRng;
use crate::assets::{AssetManager, Drawable, Image, Sprite, Texture, TextureId};
use crate::collision::{check_collision_rect, rectangles_overlap};
use crate::geometry::{Rect, Vector2, GROUND_Y, SCREENWIDTH};
use crate::random::gen_range;

verus! {

/// Time between two spawns: three seconds.
pub const PIPE_PERIOD: i64 = 3_000_000;

/// Width of a pipe: 52 pixels.
pub const PIPE_WIDTH: i64 = 52_000_000_000_000;

/// Distance between two neighbouring gap positions: 52 pixels.
pub const Y_INCREMENT: i64 = 52_000_000_000_000;

/// Height of the gap between the upper and the lower pipe: 100 pixels.
pub const GAP_SIZE: i64 = 100_000_000_000_000;

/// Height of the shortest upper pipe: 32 pixels.
pub const START_Y: i64 = 32_000_000_000_000;

/// Where a pipe appears: at the right edge of the playfield.
pub const START_X: i64 = SCREENWIDTH;

/// Scrolling speed: 150 pixels per second.
pub const SCROLL_SPEED: i64 = 150_000_000;

/// Number of positions that the gap can take.
pub const SLOT_COUNT: i32 = 5;

/// The farthest that a pipe can scroll within one tick.
pub const MAX_SCROLL: i64 = 644_245_094_250_000_000;

/// A pair of pipes with a gap between them.
#[derive(Clone, Copy, Debug, PartialEq, Eq, Structural)]
pub struct Pipe {
    /// Sprite of the pipe that hangs from the top edge, mirrored vertically.
    pub upper_sprite: Sprite,
    /// Sprite of the pipe that stands on the ground.
    pub lower_sprite: Sprite,
    /// Collision surface of the upper pipe.
    pub upper_rect: Rect,
    /// Collision surface of the lower pipe.
    pub lower_rect: Rect,
    /// Set once the pair has left the playfield on the left.
    pub to_be_deleted: bool,
}

impl Pipe {
    /// Height of the upper pipe when the gap is in position `slot`.
    pub open spec fn upper_height(slot: int) -> int {
        START_Y + slot * Y_INCREMENT
    }

    /// Height of the lower pipe when the gap is in position `slot`.
    pub open spec fn lower_height(slot: int) -> int {
        GROUND_Y - Self::upper_height(slot) - GAP_SIZE
    }

    /// The pair as it appears at the right edge, with the gap in position
    /// `slot`. Its sprites still stand at the origin: they follow from the
    /// first tick on.
    pub open spec fn spawned(texture: Texture, slot: int) -> Pipe {
        let upper = Self::upper_height(slot) as i64;
        let lower = Self::lower_height(slot) as i64;
        Pipe {
            upper_sprite: Sprite {
                position: Vector2 { x: 0, y: 0 },
                size: Vector2 { x: PIPE_WIDTH, y: (-upper) as i64 },
                quad: Rect { x: 0, y: 0, width: PIPE_WIDTH, height: upper },
                texture,
            },
            lower_sprite: Sprite {
                position: Vector2 { x: 0, y: 0 },
                size: Vector2 { x: PIPE_WIDTH, y: lower },
                quad: Rect { x: 0, y: 0, width: PIPE_WIDTH, height: lower },
                texture,
            },
            upper_rect: Rect { x: START_X, y: 0, width: PIPE_WIDTH, height: upper },
            lower_rect: Rect {
                x: START_X,
                y: (GROUND_Y - lower) as i64,
                width: PIPE_WIDTH,
                height: lower,
            },
            to_be_deleted: false,
        }
    }

    /// The invariant of a pair: the upper pipe hangs from the top edge, the
    /// lower one stands on the ground, the gap between them has the fixed
    /// size, both share one horizontal position, which is never right of the
    /// spawning position, and the pair is marked exactly when its right edge
    /// has passed the left edge of the playfield.
    pub open spec fn wf(self) -> bool {
        &&& self.upper_rect.y == 0
        &&& self.upper_rect.width == PIPE_WIDTH
        &&& self.lower_rect.width == PIPE_WIDTH
        &&& 0 <= self.upper_rect.height
        &&& 0 <= self.lower_rect.height
        &&& self.upper_rect.height + GAP_SIZE + self.lower_rect.height == GROUND_Y
        &&& self.lower_rect.y == self.upper_rect.height + GAP_SIZE
        &&& self.lower_rect.x == self.upper_rect.x
        &&& self.upper_rect.x <= START_X
        &&& self.to_be_deleted == (self.upper_rect.x + PIPE_WIDTH < 0)
    }

    /// Whether the positions after scrolling for `dt` microseconds are
    /// representable.
    pub open spec fn can_move(self, dt: u32) -> bool {
        &&& i64::MIN <= self.upper_rect.x - SCROLL_SPEED * dt
        &&& i64::MIN <= self.lower_rect.x - SCROLL_SPEED * dt
    }

    /// The pair after scrolling for `dt` microseconds. The sprites follow:
    /// the lower one stands at the corner of its pipe, the upper one, being
    /// mirrored, at the lower end of its pipe.
    pub open spec fn moved(self, dt: u32) -> Pipe {
        let upper_x = (self.upper_rect.x - SCROLL_SPEED * dt) as i64;
        let lower_x = (self.lower_rect.x - SCROLL_SPEED * dt) as i64;
        Pipe {
            upper_sprite: Sprite {
                position: Vector2 { x: upper_x, y: self.upper_rect.height },
                ..self.upper_sprite
            },
            lower_sprite: Sprite {
                position: Vector2 { x: lower_x, y: self.lower_rect.y },
                ..self.lower_sprite
            },
            upper_rect: Rect { x: upper_x, ..self.upper_rect },
            lower_rect: Rect { x: lower_x, ..self.lower_rect },
            to_be_deleted: self.to_be_deleted || upper_x + self.upper_rect.width < 0,
        }
    }

    /// Whether `rect` overlaps one of the two pipes.
    pub open spec fn hits(self, rect: Rect) -> bool {
        rectangles_overlap(self.upper_rect, rect) || rectangles_overlap(self.lower_rect, rect)
    }

    /// Creates the pair with the gap in position `slot`.
    pub fn from_slot(assets: &AssetManager, slot: i32) -> (pipe: Pipe)
        requires
            assets@.contains_key(TextureId::Pipe),
            assets@[TextureId::Pipe].fits(),
            0 <= slot < SLOT_COUNT,
        ensures
            pipe == Self::spawned(assets@[TextureId::Pipe], slot as int),
            pipe.wf(),
            pipe.upper_rect.height + GAP_SIZE + pipe.lower_rect.height == GROUND_Y,
    {
        let mut upper_sprite: Sprite = Sprite::new(assets.get_texture(TextureId::Pipe));
        let mut lower_sprite: Sprite = Sprite::new(assets.get_texture(TextureId::Pipe));

        let upper_height: i64 = START_Y + slot as i64 * Y_INCREMENT;
        let lower_height: i64 = GROUND_Y - upper_height - GAP_SIZE;

        let lower_y: i64 = GROUND_Y - lower_height;

        upper_sprite.set_quad(Rect { x: 0, y: 0, width: PIPE_WIDTH, height: upper_height });
        lower_sprite.set_quad(Rect { x: 0, y: 0, width: PIPE_WIDTH, height: lower_height });

        upper_sprite.scale(Vector2 { x: 1, y: -1 });

        Pipe {
            upper_sprite,
            lower_sprite,
            upper_rect: Rect { x: START_X, y: 0, width: PIPE_WIDTH, height: upper_height },
            lower_rect: Rect { x: START_X, y: lower_y, width: PIPE_WIDTH, height: lower_height },
            to_be_deleted: false,
        }
    }

    /// Creates a pair with the gap in a position drawn at random.
    pub fn new(assets: &AssetManager, thread_rng: &mut ThreadRng) -> (pipe: Pipe)
        requires
            assets@.contains_key(TextureId::Pipe),
            assets@[TextureId::Pipe].fits(),
        ensures
            exists|slot: int|
                0 <= slot < SLOT_COUNT && pipe == #[trigger] Self::spawned(
                    assets@[TextureId::Pipe],
                    slot,
                ),
            pipe.wf(),
            pipe.upper_rect.height + GAP_SIZE + pipe.lower_rect.height == GROUND_Y,
    {
        let slot: i32 = gen_range(thread_rng, 0, SLOT_COUNT);
        Self::from_slot(assets, slot)
    }

    /// Scrolls the pair to the left for `dt` microseconds and marks it once
    /// it has left the playfield.
    pub fn update(&mut self, dt: u32)
        requires
            old(self).can_move(dt),
        ensures
            *final(self) == old(self).moved(dt),
            old(self).wf() ==> final(self).wf(),
    {
        self.upper_rect.x = self.upper_rect.x - SCROLL_SPEED * (dt as i64);
        self.lower_rect.x = self.lower_rect.x - SCROLL_SPEED * (dt as i64);

        self.lower_sprite.set_position(Vector2 { x: self.lower_rect.x, y: self.lower_rect.y });
        self.upper_sprite.set_position(Vector2 { x: self.upper_rect.x, y: self.upper_rect.height });

        if (self.upper_rect.x as i128) + (self.upper_rect.width as i128) < 0 {
            self.to_be_deleted = true;
        }
    }
}

impl Drawable for Pipe {
    /// The lower pipe is drawn first, then the upper one.
    open spec fn images(&self) -> Seq<Image> {
        seq![self.lower_sprite.image(), self.upper_sprite.image()]
    }

    fn draw(&self) -> (images: Vec<Image>) {
        let mut images: Vec<Image> = Vec::new();
        images.push(self.lower_sprite.draw());
        images.push(self.upper_sprite.draw());
        assert(images@ =~= self.images());
        images
    }
}

/// The upper and the lower pipe of a pair never overlap: the gap lies
/// between them.
pub proof fn lemma_pipes_apart(pipe: Pipe)
    requires
        pipe.wf(),
    ensures
        !rectangles_overlap(pipe.upper_rect, pipe.lower_rect),
        !rectangles_overlap(pipe.lower_rect, pipe.upper_rect),
{
}

/// Whichever of the positions the gap takes, the two pipes and the gap fill
/// the height above the ground exactly, and the pair is well formed.
pub proof fn lemma_spawned_fills_height(texture: Texture, slot: int)
    requires
        0 <= slot < SLOT_COUNT,
    ensures
        Pipe::spawned(texture, slot).wf(),
        Pipe::spawned(texture, slot).upper_rect.height == START_Y + slot * Y_INCREMENT,
        Pipe::spawned(texture, slot).upper_rect.height + GAP_SIZE + Pipe::spawned(
            texture,
            slot,
        ).lower_rect.height == GROUND_Y,
{
}

/// Scrolling changes neither the heights of a pair nor its gap.
pub proof fn lemma_moved_keeps_gap(pipe: Pipe, dt: u32)
    requires
        pipe.wf(),
        pipe.can_move(dt),
    ensures
        pipe.moved(dt).wf(),
        pipe.moved(dt).upper_rect.height == pipe.upper_rect.height,
        pipe.moved(dt).lower_rect.height == pipe.lower_rect.height,
        pipe.moved(dt).upper_rect.height + GAP_SIZE + pipe.moved(dt).lower_rect.height
            == GROUND_Y,
{
}


/// What a [`PipesManager`] holds, as mathematical values.
pub struct PipesView {
    /// The pairs in play, oldest first.
    pub pipes: Seq<Pipe>,
    /// Microseconds left until the next spawn.
    pub new_pipe_timer: int,
    /// Raised when a pair is retired; whoever polls it lowers it.
    pub signal_score_up: bool,
    /// The textures that the manager draws on.
    pub assets: Map<TextureId, Texture>,
}

impl PipesView {
    /// The texture of the pipes.
    pub open spec fn texture(self) -> Texture {
        self.assets[TextureId::Pipe]
    }

    /// Whether a pair can be spawned: the texture of the pipes is there.
    pub open spec fn ready(self) -> bool {
        self.assets.contains_key(TextureId::Pipe) && self.assets[TextureId::Pipe].fits()
    }

    /// The schedule invariant, which holds between ticks. The timer runs
    /// within its period. The last pair spawned has scrolled at least as far
    /// as the time since its spawn accounts for, so by the time the next one
    /// is due it has left the playfield: at most one pair is in play, and it
    /// is no farther out than one tick can take it.
    pub open spec fn wf(self) -> bool {
        &&& self.ready()
        &&& 0 <= self.new_pipe_timer <= PIPE_PERIOD
        &&& self.pipes.len() <= 1
        &&& forall|i: int|
            0 <= i < self.pipes.len() ==> {
                &&& (#[trigger] self.pipes[i]).wf()
                &&& -(PIPE_WIDTH + MAX_SCROLL) <= self.pipes[i].upper_rect.x
                &&& self.pipes[i].upper_rect.x + SCROLL_SPEED * (PIPE_PERIOD - self.new_pipe_timer)
                    <= START_X
            }
    }

    /// Whether a tick of `dt` microseconds runs the timer down.
    pub open spec fn spawn_due(self, dt: u32) -> bool {
        self.new_pipe_timer - dt < 0
    }

    /// The view with `pipe` added behind the others.
    pub open spec fn with_pipe(self, pipe: Pipe) -> PipesView {
        PipesView { pipes: self.pipes.push(pipe), ..self }
    }

    /// The pairs in play during a tick of `dt` microseconds, after scrolling:
    /// those from before and, if the timer ran down, a new one with its gap
    /// in position `slot`.
    pub open spec fn scrolled(self, dt: u32, slot: int) -> Seq<Pipe> {
        let in_play = if self.spawn_due(dt) {
            self.pipes.push(Pipe::spawned(self.texture(), slot))
        } else {
            self.pipes
        };
        in_play.map_values(|pipe: Pipe| pipe.moved(dt))
    }

    /// Whether a tick of `dt` microseconds retires the oldest pair: it is the
    /// only one looked at, and it goes once it is marked.
    pub open spec fn retires(self, dt: u32, slot: int) -> bool {
        self.scrolled(dt, slot).len() > 0 && self.scrolled(dt, slot)[0].to_be_deleted
    }

    /// The view after a tick of `dt` microseconds, if the gap of a pair
    /// spawned in it is in position `slot`. A timer that ran down starts
    /// again from the full period, whatever the tick overshot it by.
    pub open spec fn updated(self, dt: u32, slot: int) -> PipesView {
        PipesView {
            pipes: if self.retires(dt, slot) {
                self.scrolled(dt, slot).drop_first()
            } else {
                self.scrolled(dt, slot)
            },
            new_pipe_timer: if self.spawn_due(dt) {
                PIPE_PERIOD as int
            } else {
                self.new_pipe_timer - dt
            },
            signal_score_up: self.signal_score_up || self.retires(dt, slot),
            assets: self.assets,
        }
    }

    /// The view after a reset, if the gap of the pair spawned is in position
    /// `slot`.
    pub open spec fn restarted(self, slot: int) -> PipesView {
        PipesView {
            pipes: seq![Pipe::spawned(self.texture(), slot)],
            new_pipe_timer: PIPE_PERIOD as int,
            ..self
        }
    }

    /// The view after the signal has been polled.
    pub open spec fn polled(self) -> PipesView {
        PipesView { signal_score_up: false, ..self }
    }

    /// Whether `rect` overlaps a pipe of any pair in play.
    pub open spec fn collides_with(self, rect: Rect) -> bool {
        exists|i: int| 0 <= i < self.pipes.len() && #[trigger] self.pipes[i].hits(rect)
    }

    /// The drawing operations for all pairs in play, oldest pair first.
    pub open spec fn images(self) -> Seq<Image> {
        Seq::new(
            2 * self.pipes.len(),
            |k: int|
                if k % 2 == 0 {
                    self.pipes[k / 2].lower_sprite.image()
                } else {
                    self.pipes[k / 2].upper_sprite.image()
                },
        )
    }
}

/// Spawns pairs of pipes on a fixed period, scrolls them and retires them.
pub struct PipesManager<'a> {
    pipes: Vec<Pipe>,
    assets: &'a AssetManager,
    thread_rng: ThreadRng,
    new_pipe_timer: i64,
    signal_score_up: bool,
}

impl<'a> View for PipesManager<'a> {
    type V = PipesView;

    closed spec fn view(&self) -> PipesView {
        PipesView {
            pipes: self.pipes@,
            new_pipe_timer: self.new_pipe_timer as int,
            signal_score_up: self.signal_score_up,
            assets: self.assets@,
        }
    }
}

impl<'a> PipesManager<'a> {
    /// The schedule invariant: see [`PipesView::wf`].
    pub open spec fn wf(&self) -> bool {
        self@.wf()
    }

    /// Adds a pair at the right edge, with its gap in a position drawn at
    /// random. Nothing else changes: keeping the schedule is the business of
    /// [`PipesManager::update`] and [`PipesManager::reset`].
    pub fn spawn_pipe(&mut self)
        requires
            old(self)@.ready(),
        ensures
            exists|slot: int|
                0 <= slot < SLOT_COUNT && final(self)@ == old(self)@.with_pipe(
                    #[trigger] Pipe::spawned(old(self)@.texture(), slot),
                ),
    {
        let pipe = Pipe::new(self.assets, &mut self.thread_rng);
        self.pipes.push(pipe);
    }

    /// Creates a manager with no pair in play and a full period to go.
    pub fn new(assets: &'a AssetManager) -> (manager: Self)
        ensures
            manager@ == (PipesView {
                pipes: Seq::empty(),
                new_pipe_timer: PIPE_PERIOD as int,
                signal_score_up: false,
                assets: assets@,
            }),
            manager.wf() == manager@.ready(),
    {
        PipesManager {
            pipes: Vec::new(),
            assets,
            thread_rng: rand::thread_rng(),
            new_pipe_timer: PIPE_PERIOD,
            signal_score_up: false,
        }
    }

    /// Advances by `dt` microseconds. The timer runs; when it has run down it
    /// starts again and one pair is spawned. Then every pair scrolls, and the
    /// oldest one is retired if it has left the playfield, which raises the
    /// score signal.
    pub fn update(&mut self, dt: u32)
        requires
            old(self).wf(),
        ensures
            final(self).wf(),
            exists|slot: int|
                0 <= slot < SLOT_COUNT && final(self)@ == #[trigger] old(self)@.updated(dt, slot),
    {
        let ghost before = self@;
        let ghost mut slot: int = 0;
        self.new_pipe_timer = self.new_pipe_timer - dt as i64;
        if self.new_pipe_timer < 0 {
            self.new_pipe_timer = PIPE_PERIOD;
            let ghost idle = self@;
            self.spawn_pipe();
            proof {
                slot = choose|slot: int|
                    0 <= slot < SLOT_COUNT && self@ == idle.with_pipe(
                        #[trigger] Pipe::spawned(idle.texture(), slot),
                    );
            }
        }
        let ghost in_play = self.pipes@;
        let ghost ticking = self@;
        assert(in_play =~= if before.spawn_due(dt) {
            before.pipes.push(Pipe::spawned(before.texture(), slot))
        } else {
            before.pipes
        });
        assert forall|j: int| 0 <= j < in_play.len() implies (#[trigger] in_play[j]).wf()
            && in_play[j].can_move(dt) by {
            if j < before.pipes.len() {
                assert(before.pipes[j].wf());
            }
        }

        let mut i: usize = 0;
        while i < self.pipes.len()
            invariant
                i <= self.pipes@.len(),
                self.pipes@.len() == in_play.len(),
                self@ == (PipesView { pipes: self.pipes@, ..ticking }),
                forall|j: int| 0 <= j < i ==> self.pipes@[j] == (#[trigger] in_play[j]).moved(dt),
                forall|j: int| i <= j < in_play.len() ==> self.pipes@[j] == #[trigger] in_play[j],
                forall|j: int| 0 <= j < in_play.len() ==> (#[trigger] in_play[j]).can_move(dt),
            decreases self.pipes@.len() - i,
        {
            assert(self.pipes@[i as int] == in_play[i as int]);
            let mut pipe = self.pipes[i];
            pipe.update(dt);
            self.pipes.set(i, pipe);
            i += 1;
        }
        assert(self.pipes@ =~= before.scrolled(dt, slot));

        if self.pipes.len() > 0 {
            if self.pipes[0].to_be_deleted {
                self.pipes.remove(0);
                self.signal_score_up = true;
            }
        }
        proof {
            let after = before.updated(dt, slot);
            assert(self@.pipes =~= after.pipes);
            assert(self@ == after);
            lemma_update_keeps_schedule(before, dt, slot);
        }
    }

    /// Starts a round: the pairs in play are dropped, one is spawned at once
    /// and the timer starts from the full period. The score signal is left
    /// as it is.
    pub fn reset(&mut self)
        requires
            old(self)@.ready(),
        ensures
            final(self).wf(),
            final(self)@.pipes.len() == 1,
            exists|slot: int|
                0 <= slot < SLOT_COUNT && final(self)@ == #[trigger] old(self)@.restarted(slot),
    {
        let ghost before = self@;
        self.pipes.clear();
        let ghost cleared = self@;
        self.spawn_pipe();
        self.new_pipe_timer = PIPE_PERIOD;
        proof {
            let slot = choose|slot: int|
                0 <= slot < SLOT_COUNT && self.pipes@ == cleared.with_pipe(
                    #[trigger] Pipe::spawned(cleared.texture(), slot),
                ).pipes;
            assert(self@.pipes =~= before.restarted(slot).pipes);
            assert(self@ == before.restarted(slot));
            lemma_spawned_fills_height(before.texture(), slot);
        }
    }

    /// Tests `entity_rect` against both pipes of every pair in play.
    pub fn detect_collision_with(&self, entity_rect: Rect) -> (hit: bool)
        ensures
            hit == self@.collides_with(entity_rect),
    {
        let mut i: usize = 0;
        while i < self.pipes.len()
            invariant
                i <= self.pipes@.len(),
                forall|j: int| 0 <= j < i ==> !(#[trigger] self.pipes@[j]).hits(entity_rect),
            decreases self.pipes@.len() - i,
        {
            if check_collision_rect(self.pipes[i].upper_rect, entity_rect) {
                assert(self@.pipes[i as int].hits(entity_rect));
                return true;
            }
            if check_collision_rect(self.pipes[i].lower_rect, entity_rect) {
                assert(self@.pipes[i as int].hits(entity_rect));
                return true;
            }
            i += 1;
        }
        false
    }

    /// Polls the score signal and lowers it.
    pub fn check_score_up(&mut self) -> (raised: bool)
        ensures
            raised == old(self)@.signal_score_up,
            final(self)@ == old(self)@.polled(),
            old(self).wf() ==> final(self).wf(),
    {
        if self.signal_score_up {
            self.signal_score_up = false;
            true
        } else {
            false
        }
    }

    /// Whether the score signal is up after a tick of `dt` microseconds: it
    /// is up already, or the tick retires a pair.
    pub fn scores_within(&self, dt: u32) -> (scores: bool)
        requires
            self.wf(),
        ensures
            scores == self@.updated(dt, 0).signal_score_up,
    {
        if self.signal_score_up {
            return true;
        }
        if self.pipes.len() > 0 {
            let head = self.pipes[0];
            assert(head == self@.pipes[0]);
            assert(self@.scrolled(dt, 0)[0] == head.moved(dt));
            head.to_be_deleted || head.upper_rect.x - SCROLL_SPEED * (dt as i64)
                + head.upper_rect.width < 0
        } else if self.new_pipe_timer - (dt as i64) < 0 {
            assert(self@.scrolled(dt, 0)[0] == Pipe::spawned(self@.texture(), 0).moved(dt));
            START_X - SCROLL_SPEED * (dt as i64) + PIPE_WIDTH < 0
        } else {
            false
        }
    }

    /// Number of pairs in play.
    pub fn len(&self) -> (count: usize)
        ensures
            count == self@.pipes.len(),
    {
        self.pipes.len()
    }

    /// The pair at position `index`, counted from the oldest.
    pub fn get(&self, index: usize) -> (pipe: Pipe)
        requires
            index < self@.pipes.len(),
        ensures
            pipe == self@.pipes[index as int],
    {
        self.pipes[index]
    }

    /// Microseconds left until the next spawn.
    pub fn timer(&self) -> (left: i64)
        ensures
            left == self@.new_pipe_timer,
    {
        self.new_pipe_timer
    }
}

impl<'a> Drawable for PipesManager<'a> {
    open spec fn images(&self) -> Seq<Image> {
        self@.images()
    }

    fn draw(&self) -> (images: Vec<Image>) {
        let mut images: Vec<Image> = Vec::new();
        let mut i: usize = 0;
        while i < self.pipes.len()
            invariant
                i <= self.pipes@.len(),
                images@.len() == 2 * i,
                forall|k: int| 0 <= k < 2 * i ==> #[trigger] images@[k] == self@.images()[k],
            decreases self.pipes@.len() - i,
        {
            let pipe = &self.pipes[i];
            images.push(pipe.lower_sprite.draw());
            images.push(pipe.upper_sprite.draw());
            i += 1;
        }
        assert(images@ =~= self@.images());
        images
    }
}

/// A tick keeps the schedule invariant: between ticks at most one pair is in
/// play. The timer stays within its period, and when it has run down it starts
/// again from the full period, whatever the tick overshot it by.
pub proof fn lemma_update_keeps_schedule(view: PipesView, dt: u32, slot: int)
    requires
        view.wf(),
        0 <= slot < SLOT_COUNT,
    ensures
        view.updated(dt, slot).wf(),
        view.updated(dt, slot).pipes.len() <= 1,
        view.spawn_due(dt) ==> view.updated(dt, slot).new_pipe_timer == PIPE_PERIOD,
        !view.spawn_due(dt) ==> view.updated(dt, slot).new_pipe_timer == view.new_pipe_timer - dt,
{
    let after = view.updated(dt, slot);
    let scrolled = view.scrolled(dt, slot);
    lemma_spawned_fills_height(view.texture(), slot);
    if view.pipes.len() == 1 {
        assert(view.pipes[0].wf());
        assert(scrolled[0] == view.pipes[0].moved(dt));
    }
    assert forall|i: int| 0 <= i < after.pipes.len() implies {
        &&& (#[trigger] after.pipes[i]).wf()
        &&& -(PIPE_WIDTH + MAX_SCROLL) <= after.pipes[i].upper_rect.x
        &&& after.pipes[i].upper_rect.x + SCROLL_SPEED * (PIPE_PERIOD - after.new_pipe_timer)
            <= START_X
    } by {
        let k = if view.retires(dt, slot) { i + 1 } else { i };
        assert(after.pipes[i] == scrolled[k]);
    }
}

/// A tick spawns one pair when the timer has run down and none otherwise, and
/// it retires at most one. The score signal is raised by a tick exactly when
/// it retires a pair; once polled, the signal is down until the next pair is
/// retired.
pub proof fn lemma_signal_counts_retirements(view: PipesView, dt: u32, slot: int)
    ensures
        view.updated(dt, slot).signal_score_up == (view.signal_score_up || view.retires(dt, slot)),
        view.updated(dt, slot).pipes.len() + (if view.retires(dt, slot) {
            1int
        } else {
            0int
        }) == view.pipes.len() + (if view.spawn_due(dt) {
            1int
        } else {
            0int
        }),
        !view.updated(dt, slot).polled().signal_score_up,
        view.polled().updated(dt, slot).signal_score_up == view.retires(dt, slot),
        view.polled().polled() == view.polled(),
{
    assert(view.polled().scrolled(dt, slot) =~= view.scrolled(dt, slot));
}

/// Whether a tick retires a pair does not depend on where the gap of a pair
/// spawned in it lies.
pub proof fn lemma_retires_whatever_slot(view: PipesView, dt: u32, slot: int, other: int)
    ensures
        view.retires(dt, slot) == view.retires(dt, other),
        view.updated(dt, slot).signal_score_up == view.updated(dt, other).signal_score_up,
        view.updated(dt, slot).new_pipe_timer == view.updated(dt, other).new_pipe_timer,
        view.updated(dt, slot).pipes.len() == view.updated(dt, other).pipes.len(),
{
}

} // verus!
