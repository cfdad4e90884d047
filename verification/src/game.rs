//! The game controller: it owns the bird, the pipes and the scenery, and
//! decides in which of its three states what is moved and what is drawn.

use vstd::prelude::*;
use rand::ThreadRng;
use crate::assets::{AssetManager, Drawable, Image, Sprite, Texture, TextureId};
use crate::bird::Bird;
use crate::geometry::{Vector2, GROUND_Y, PLAYER_X, PLAYER_Y, SCREENHEIGHT, SCREENWIDTH};
use crate::pipe::{PipesManager, PipesView, SLOT_COUNT};
use crate::score_drawer::{digit_sprites, score_images, ScoreDrawer};

verus! {

/// Width of the bird: 34 pixels.
pub const PLAYER_WIDTH: i64 = 34_000_000_000_000;

/// Height of the bird: 24 pixels.
pub const PLAYER_HEIGHT: i64 = 24_000_000_000_000;

/// The three states of the game.
#[derive(Clone, Copy, Debug, PartialEq, Eq, Structural)]
pub enum GameState {
    /// Waiting for the first flap; also the state after a reset.
    Paused,
    /// A round is running.
    Playing,
    /// The round is lost.
    Death,
}

/// What a button did.
#[derive(Clone, Copy, Debug, PartialEq, Eq, Structural)]
pub enum ButtonState {
    /// The button went down.
    Press,
    /// The button came up.
    Release,
}

/// Half of `extent - size`, rounded towards zero: where something of size
/// `size` starts when it is centred in `extent`.
pub open spec fn centered(extent: int, size: int) -> int {
    if extent - size >= 0 {
        (extent - size) / 2
    } else {
        -((size - extent) / 2)
    }
}

/// What a [`Game`] holds, as mathematical values.
pub struct GameView {
    /// The state of the game.
    pub state: GameState,
    /// The bird.
    pub player: Bird,
    /// The pipes and their schedule.
    pub pipes: PipesView,
    /// The sprites of the digits 0 to 9.
    pub digit_sprites: Seq<Sprite>,
    /// The backdrop, which fills the window.
    pub background_sprite: Sprite,
    /// The strip of ground.
    pub ground_sprite: Sprite,
    /// The overlay shown while the game is paused.
    pub title_sprite: Sprite,
    /// The overlay shown after a lost round.
    pub gameover_sprite: Sprite,
}

impl GameView {
    /// The invariant of the game: bird and pipes keep theirs, the ground
    /// signal of the bird is down (the controller lowers it in the tick that
    /// raises it), and there is a sprite for each digit.
    pub open spec fn wf(self) -> bool {
        &&& self.player.wf()
        &&& !self.player.signal_gameover
        &&& self.pipes.wf()
        &&& self.digit_sprites.len() == 10
    }

    /// The game as it is created from `assets`.
    pub open spec fn initial(assets: Map<TextureId, Texture>) -> GameView {
        GameView {
            state: GameState::Paused,
            player: Bird::spec_new(
                PLAYER_X,
                PLAYER_Y,
                PLAYER_WIDTH,
                PLAYER_HEIGHT,
                assets[TextureId::Flappy],
            ),
            pipes: PipesView {
                pipes: Seq::empty(),
                new_pipe_timer: crate::pipe::PIPE_PERIOD as int,
                signal_score_up: false,
                assets,
            },
            digit_sprites: digit_sprites(assets),
            background_sprite: Sprite::spec_new(assets[TextureId::Background]),
            ground_sprite: Sprite::spec_new(assets[TextureId::Ground]),
            title_sprite: Sprite::spec_new(assets[TextureId::Title]),
            gameover_sprite: Sprite::spec_new(assets[TextureId::GameOver]),
        }
    }

    /// The game after loading: the ground lies on the ground line, the two
    /// overlays are centred in the window, and the first pair of pipes, with
    /// its gap in position `slot`, is in place.
    pub open spec fn loaded(self, slot: int) -> GameView {
        GameView {
            ground_sprite: Sprite {
                position: Vector2 { x: 0, y: GROUND_Y },
                ..self.ground_sprite
            },
            title_sprite: Sprite {
                position: Vector2 {
                    x: centered(SCREENWIDTH as int, self.title_sprite.size.x as int) as i64,
                    y: centered(SCREENHEIGHT as int, self.title_sprite.size.y as int) as i64,
                },
                ..self.title_sprite
            },
            gameover_sprite: Sprite {
                position: Vector2 {
                    x: centered(SCREENWIDTH as int, self.gameover_sprite.size.x as int) as i64,
                    y: centered(SCREENHEIGHT as int, self.gameover_sprite.size.y as int) as i64,
                },
                ..self.gameover_sprite
            },
            pipes: self.pipes.restarted(slot),
            ..self
        }
    }

    /// The game after a button event. A release changes nothing. A press
    /// starts the round and flaps when the game is paused, flaps while a
    /// round is running, and after a lost round puts bird and pipes back to
    /// the start (the new pair has its gap in position `slot`) and pauses.
    pub open spec fn pressed(self, button: ButtonState, slot: int) -> GameView {
        if button is Release {
            self
        } else {
            match self.state {
                GameState::Paused => GameView {
                    state: GameState::Playing,
                    player: self.player.jumped(),
                    ..self
                },
                GameState::Playing => GameView { player: self.player.jumped(), ..self },
                GameState::Death => GameView {
                    state: GameState::Paused,
                    player: self.player.restarted(),
                    pipes: self.pipes.restarted(slot),
                    ..self
                },
            }
        }
    }

    /// Whether, in a tick of `dt` microseconds of a running round, the bird
    /// runs into a pipe.
    pub open spec fn collides(self, dt: u32, slot: int) -> bool {
        self.pipes.updated(dt, slot).collides_with(self.player.updated(dt).rect())
    }

    /// Whether a tick of `dt` microseconds ends a running round: the bird
    /// runs into a pipe, or its ground signal is up after it has moved.
    pub open spec fn loses(self, dt: u32, slot: int) -> bool {
        self.collides(dt, slot) || self.player.updated(dt).signal_gameover
    }

    /// Whether a tick of `dt` microseconds of a running round scores: a pair
    /// of pipes is retired in it, or the signal was still up from before.
    pub open spec fn scores(self, dt: u32, slot: int) -> bool {
        self.pipes.updated(dt, slot).signal_score_up
    }

    /// Whether the score can take what a tick of `dt` microseconds adds.
    pub open spec fn can_tick(self, dt: u32) -> bool {
        self.state is Playing && self.scores(dt, 0) ==> self.player.score < i8::MAX
    }

    /// The game after a tick of `dt` microseconds, if the gap of a pair
    /// spawned in it is in position `slot`. Only a running round moves: bird
    /// and pipes advance; a collision or the ground signal ends the round,
    /// and the signal is lowered; a raised score signal is polled and counts
    /// one point, also in the tick that ends the round.
    pub open spec fn ticked(self, dt: u32, slot: int) -> GameView {
        if self.state is Playing {
            let player = self.player.updated(dt);
            GameView {
                state: if self.loses(dt, slot) {
                    GameState::Death
                } else {
                    GameState::Playing
                },
                player: Bird {
                    signal_gameover: if self.loses(dt, slot) {
                        false
                    } else {
                        player.signal_gameover
                    },
                    score: if self.scores(dt, slot) {
                        (player.score + 1) as i8
                    } else {
                        player.score
                    },
                    ..player
                },
                pipes: self.pipes.updated(dt, slot).polled(),
                ..self
            }
        } else {
            self
        }
    }

    /// The drawing operations of one frame, in the order in which they are to
    /// be carried out: background; the pipes, unless the game is paused;
    /// ground; bird; score; and, on top, the title while the game is paused
    /// or the game-over overlay after a lost round.
    pub open spec fn frame(self) -> Seq<Image> {
        seq![self.background_sprite.image()] + (if self.state is Paused {
            Seq::<Image>::empty()
        } else {
            self.pipes.images()
        }) + seq![self.ground_sprite.image(), self.player.sprite.image()] + score_images(
            self.digit_sprites,
            self.player.score as int,
        ) + (if self.state is Paused {
            seq![self.title_sprite.image()]
        } else {
            Seq::<Image>::empty()
        }) + (if self.state is Death {
            seq![self.gameover_sprite.image()]
        } else {
            Seq::<Image>::empty()
        })
    }
}

/// The game.
pub struct Game<'a> {
    state: GameState,
    player: Bird,
    pipes: PipesManager<'a>,
    thread_rng: ThreadRng,
    assets: &'a AssetManager,
    score_drawer: ScoreDrawer,
    background_sprite: Sprite,
    ground_sprite: Sprite,
    title_sprite: Sprite,
    gameover_sprite: Sprite,
}

impl<'a> View for Game<'a> {
    type V = GameView;

    closed spec fn view(&self) -> GameView {
        GameView {
            state: self.state,
            player: self.player,
            pipes: self.pipes@,
            digit_sprites: self.score_drawer@,
            background_sprite: self.background_sprite,
            ground_sprite: self.ground_sprite,
            title_sprite: self.title_sprite,
            gameover_sprite: self.gameover_sprite,
        }
    }
}

impl<'a> Game<'a> {
    /// The invariant of the game: see [`GameView::wf`].
    pub open spec fn wf(&self) -> bool {
        self@.wf()
    }

    /// Creates a paused game with the bird at its starting position and no
    /// pipes yet.
    pub fn new(assets: &'a AssetManager, thread_rng: ThreadRng) -> (game: Self)
        requires
            assets.complete(),
        ensures
            game@ == GameView::initial(assets@),
            game.wf(),
    {
        let player_width: i64 = PLAYER_WIDTH;
        let player_height: i64 = PLAYER_HEIGHT;
        assert(forall|digit: int|
            0 <= digit < 10 ==> assets@.contains_key(#[trigger] TextureId::spec_digit(digit)));
        assert(assets@.contains_key(TextureId::Flappy));
        assert(assets@.contains_key(TextureId::Pipe));
        assert(assets@.contains_key(TextureId::Background));
        assert(assets@.contains_key(TextureId::Ground));
        assert(assets@.contains_key(TextureId::Title));
        assert(assets@.contains_key(TextureId::GameOver));
        Game {
            state: GameState::Paused,
            player: Bird::new(PLAYER_X, PLAYER_Y, player_width, player_height, assets),
            pipes: PipesManager::new(assets),
            thread_rng,
            assets,
            score_drawer: ScoreDrawer::new(assets),
            background_sprite: Sprite::new(assets.get_texture(TextureId::Background)),
            ground_sprite: Sprite::new(assets.get_texture(TextureId::Ground)),
            title_sprite: Sprite::new(assets.get_texture(TextureId::Title)),
            gameover_sprite: Sprite::new(assets.get_texture(TextureId::GameOver)),
        }
    }

    /// Puts the scenery in place and spawns the first pair of pipes.
    pub fn load(&mut self)
        requires
            old(self).wf(),
        ensures
            final(self).wf(),
            final(self)@.pipes.pipes.len() == 1,
            exists|slot: int|
                0 <= slot < SLOT_COUNT && final(self)@ == #[trigger] old(self)@.loaded(slot),
    {
        let ghost before = self@;
        self.ground_sprite.set_position(Vector2 { x: 0, y: GROUND_Y });

        let title_size = self.title_sprite.get_size();
        self.title_sprite.set_position(
            Vector2 {
                x: ((SCREENWIDTH as i128 - title_size.x as i128) / 2) as i64,
                y: ((SCREENHEIGHT as i128 - title_size.y as i128) / 2) as i64,
            },
        );

        let gameover_size = self.gameover_sprite.get_size();
        self.gameover_sprite.set_position(
            Vector2 {
                x: ((SCREENWIDTH as i128 - gameover_size.x as i128) / 2) as i64,
                y: ((SCREENHEIGHT as i128 - gameover_size.y as i128) / 2) as i64,
            },
        );

        let ghost placed = self@;
        self.pipes.reset();
        proof {
            let slot = choose|slot: int|
                0 <= slot < SLOT_COUNT && self.pipes@ == #[trigger] placed.pipes.restarted(slot);
            assert(self@ == before.loaded(slot));
        }
    }

    /// Advances the game by `dt` microseconds.
    pub fn update(&mut self, dt: u32)
        requires
            old(self).wf(),
            old(self)@.can_tick(dt),
        ensures
            final(self).wf(),
            exists|slot: int|
                0 <= slot < SLOT_COUNT && final(self)@ == #[trigger] old(self)@.ticked(dt, slot),
            !(old(self)@.state is Playing) ==> final(self)@ == old(self)@,
            !final(self)@.player.signal_gameover,
            old(self)@.state is Playing && old(self)@.player.hits_ground(dt) ==> final(self)@.state is Death && final(self)@.player.position.y == GROUND_Y - old(self)@.player.size.y,
            old(self)@.state is Playing && final(self)@.state is Playing ==> !old(self)@.player.hits_ground(dt),
    {
        let ghost before = self@;
        match self.state {
            GameState::Paused => {
                assert(self@ == before.ticked(dt, 0));
            },
            GameState::Death => {
                assert(self@ == before.ticked(dt, 0));
            },
            GameState::Playing => {
                self.player.update(dt);
                self.pipes.update(dt);
                let ghost slot = choose|slot: int|
                    0 <= slot < SLOT_COUNT && self.pipes@ == #[trigger] before.pipes.updated(
                        dt,
                        slot,
                    );
                proof {
                    crate::pipe::lemma_retires_whatever_slot(before.pipes, dt, slot, 0);
                }
                if self.pipes.detect_collision_with(self.player.get_rect()) {
                    self.game_over();
                }
                if self.player.signal_gameover {
                    self.game_over();
                }
                if self.pipes.check_score_up() {
                    self.player.score += 1;
                }
                assert(self@ == before.ticked(dt, slot));
            },
        }
    }

    /// Lists the drawing operations of one frame.
    pub fn draw(&self) -> (images: Vec<Image>)
        requires
            self.wf(),
        ensures
            images@ == self@.frame(),
    {
        let mut images: Vec<Image> = Vec::new();
        images.push(self.background_sprite.draw());
        if let GameState::Playing = self.state {
            let mut pipes = self.pipes.draw();
            images.append(&mut pipes);
        }
        if let GameState::Death = self.state {
            let mut pipes = self.pipes.draw();
            images.append(&mut pipes);
        }
        images.push(self.ground_sprite.draw());
        let mut player = self.player.draw();
        images.append(&mut player);
        let mut score = self.score_drawer.draw(self.player.score);
        images.append(&mut score);
        if let GameState::Paused = self.state {
            images.push(self.title_sprite.draw());
        }
        if let GameState::Death = self.state {
            images.push(self.gameover_sprite.draw());
        }
        assert(images@ =~= self@.frame());
        images
    }

    /// Handles a button event.
    pub fn press(&mut self, button: ButtonState)
        requires
            old(self).wf(),
        ensures
            final(self).wf(),
            exists|slot: int|
                0 <= slot < SLOT_COUNT && final(self)@ == #[trigger] old(self)@.pressed(
                    button,
                    slot,
                ),
            button is Release ==> final(self)@ == old(self)@,
            button is Press && !(old(self)@.state is Death) ==> final(self)@.state is Playing
                && final(self)@.player == old(self)@.player.jumped(),
            button is Press && old(self)@.state is Death ==> final(self)@.state is Paused && final(self)@.player == old(self)@.player.restarted() && final(self)@.pipes.pipes.len() == 1,
    {
        let ghost before = self@;
        if let ButtonState::Press = button {
            match self.state {
                GameState::Paused => {
                    self.set_state(GameState::Playing);
                    self.player.jump();
                    assert(self@ == before.pressed(button, 0));
                },
                GameState::Playing => {
                    self.player.jump();
                    assert(self@ == before.pressed(button, 0));
                },
                GameState::Death => {
                    self.pipes.reset();
                    let ghost slot = choose|slot: int|
                        0 <= slot < SLOT_COUNT && self.pipes@ == #[trigger] before.pipes.restarted(
                            slot,
                        );
                    self.player.reset();
                    self.set_state(GameState::Paused);
                    assert(self@ == before.pressed(button, slot));
                },
            }
        } else {
            assert(self@ == before.pressed(button, 0));
        }
    }

    /// Changes the state and nothing else.
    fn set_state(&mut self, new_state: GameState)
        ensures
            final(self)@ == (GameView { state: new_state, ..old(self)@ }),
    {
        self.state = new_state;
    }

    /// Ends the round and lowers the ground signal of the bird.
    fn game_over(&mut self)
        ensures
            final(self)@ == (GameView {
                state: GameState::Death,
                player: Bird { signal_gameover: false, ..old(self)@.player },
                ..old(self)@
            }),
    {
        self.player.signal_gameover = false;
        self.set_state(GameState::Death);
    }

    /// Whether [`Game::update`] may be called with `dt`: the score can take
    /// the point that the tick may add.
    pub fn can_update(&self, dt: u32) -> (ok: bool)
        requires
            self.wf(),
        ensures
            ok == self@.can_tick(dt),
    {
        match self.state {
            GameState::Playing => {
                let scores = self.pipes.scores_within(dt);
                !scores || self.player.score < i8::MAX
            },
            _ => true,
        }
    }

    /// The current state.
    pub fn state(&self) -> (state: GameState)
        ensures
            state == self@.state,
    {
        self.state
    }

    /// The bird.
    pub fn player(&self) -> (player: &Bird)
        ensures
            *player == self@.player,
    {
        &self.player
    }

    /// The pipes.
    pub fn pipes(&self) -> (pipes: &PipesManager<'a>)
        ensures
            pipes@ == self@.pipes,
    {
        &self.pipes
    }
}

/// What a frame shows depends on the state alone: background, ground, bird
/// and score are always drawn; the pipes, two sprites for each pair, in every
/// state but the paused one; the title on top of a paused game and the
/// game-over overlay on top of a lost round.
pub proof fn lemma_frame_layers(view: GameView)
    requires
        view.wf(),
    ensures
        view.frame()[0] == view.background_sprite.image(),
        view.state is Paused ==> view.frame().len() == 4 + score_images(
            view.digit_sprites,
            view.player.score as int,
        ).len() && view.frame().last() == view.title_sprite.image(),
        view.state is Playing ==> view.frame().len() == 3 + 2 * view.pipes.pipes.len()
            + score_images(view.digit_sprites, view.player.score as int).len(),
        view.state is Death ==> view.frame().len() == 4 + 2 * view.pipes.pipes.len()
            + score_images(view.digit_sprites, view.player.score as int).len()
            && view.frame().last() == view.gameover_sprite.image(),
        !(view.state is Paused) ==> forall|k: int|
            0 <= k < 2 * view.pipes.pipes.len() ==> view.frame()[1 + k]
                == #[trigger] view.pipes.images()[k],
        view.frame()[view.frame().len() - score_images(
            view.digit_sprites,
            view.player.score as int,
        ).len() - (if view.state is Playing {
            2int
        } else {
            3int
        })] == view.ground_sprite.image(),
{
}

/// Centring is exact whenever the space left over is an even number of length
/// units, as it is for every size that is a whole number of pixels.
pub proof fn lemma_centered_exact(extent: int, size: int)
    requires
        (extent - size) % 2 == 0,
    ensures
        2 * centered(extent, size) == extent - size,
{
}

/// A press on a paused game starts the round and flaps: the bird rises at
/// exactly the jump speed. A press in a running round flaps and changes
/// nothing else.
pub proof fn lemma_press_starts_and_flaps(view: GameView, slot: int)
    requires
        view.state is Paused || view.state is Playing,
    ensures
        view.pressed(ButtonState::Press, slot).state is Playing,
        view.pressed(ButtonState::Press, slot).player.y_velocity == -crate::bird::JUMP_SPEED,
        view.pressed(ButtonState::Press, slot) == (GameView {
            state: GameState::Playing,
            player: view.player.jumped(),
            ..view
        }),
        view.wf() ==> view.pressed(ButtonState::Press, slot).wf(),
{
}

/// A press after a lost round pauses the game with the score at zero, the
/// bird at rest at its starting position and exactly one pair of pipes, at
/// the right edge, with a full period to go until the next.
pub proof fn lemma_press_restarts(view: GameView, slot: int)
    requires
        view.state is Death,
        view.wf(),
        0 <= slot < SLOT_COUNT,
    ensures
        view.pressed(ButtonState::Press, slot).state is Paused,
        view.pressed(ButtonState::Press, slot).player.score == 0,
        view.pressed(ButtonState::Press, slot).player.position == (Vector2 {
            x: PLAYER_X,
            y: PLAYER_Y,
        }),
        view.pressed(ButtonState::Press, slot).player.y_velocity == 0,
        view.pressed(ButtonState::Press, slot).pipes.pipes.len() == 1,
        view.pressed(ButtonState::Press, slot).pipes.pipes[0].upper_rect.x == crate::pipe::START_X,
        view.pressed(ButtonState::Press, slot).pipes.new_pipe_timer == crate::pipe::PIPE_PERIOD,
        view.pressed(ButtonState::Press, slot).wf(),
{
    crate::pipe::lemma_spawned_fills_height(view.pipes.texture(), slot);
}

/// A tick of a running round ends it exactly when the bird runs into a pipe
/// or touches the ground, and in no state is the ground signal left up. A
/// game that is paused or lost does not move. The invariant is kept.
pub proof fn lemma_tick_decides_round(view: GameView, dt: u32, slot: int)
    requires
        view.wf(),
        view.can_tick(dt),
        0 <= slot < SLOT_COUNT,
    ensures
        view.ticked(dt, slot).wf(),
        !view.ticked(dt, slot).player.signal_gameover,
        view.state is Playing ==> (view.ticked(dt, slot).state is Death <==> view.collides(dt, slot)
            || view.player.hits_ground(dt)),
        view.state is Playing ==> (view.ticked(dt, slot).state is Playing <==> !view.collides(
            dt,
            slot,
        ) && !view.player.hits_ground(dt)),
        !(view.state is Playing) ==> view.ticked(dt, slot) == view,
{
    crate::pipe::lemma_update_keeps_schedule(view.pipes, dt, slot);
    crate::pipe::lemma_retires_whatever_slot(view.pipes, dt, slot, 0);
    crate::bird::lemma_update_keeps_in_bounds(view.player, dt);
    let pipes = view.pipes.updated(dt, slot);
    assert forall|i: int| 0 <= i < pipes.polled().pipes.len() implies (
    #[trigger] pipes.polled().pipes[i]).wf() by {
        assert(pipes.pipes[i].wf());
    }
}

/// A bird that would fall through the ground within one tick of a running
/// round, however long the tick, ends it standing exactly on the ground, at
/// rest, and the round is lost.
pub proof fn lemma_fall_ends_on_ground(view: GameView, dt: u32, slot: int)
    requires
        view.wf(),
        view.state is Playing,
        view.player.hits_ground(dt),
    ensures
        view.ticked(dt, slot).state is Death,
        view.ticked(dt, slot).player.position.y == GROUND_Y - view.player.size.y,
        view.ticked(dt, slot).player.y_velocity == 0,
        !view.ticked(dt, slot).player.signal_gameover,
{
    crate::bird::lemma_update_keeps_in_bounds(view.player, dt);
}

/// A tick of a running round adds one point exactly when the score signal
/// of the pipes is up after it, and leaves that signal down.
pub proof fn lemma_tick_counts_points(view: GameView, dt: u32, slot: int)
    requires
        view.wf(),
        view.state is Playing,
        view.can_tick(dt),
        0 <= slot < SLOT_COUNT,
    ensures
        view.ticked(dt, slot).player.score == view.player.score + (if view.pipes.retires(dt, slot)
            || view.pipes.signal_score_up {
            1int
        } else {
            0int
        }),
        !view.ticked(dt, slot).pipes.signal_score_up,
{
    crate::pipe::lemma_retires_whatever_slot(view.pipes, dt, slot, 0);
}

} // verus!
