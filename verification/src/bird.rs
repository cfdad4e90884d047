//! The player: a bird that falls under gravity and flaps upwards.

use vstd::prelude::*;
use crate::assets::{AssetManager, Drawable, Image, Sprite, Texture, TextureId};
use crate::geometry::{Rect, Vector2, GROUND_Y, PLAYER_X, PLAYER_Y};

verus! {

/// Speed gained per microsecond of falling: 1250 pixels per second per second.
pub const GRAVITY: i64 = 1250;

/// Upward speed right after a flap: 375 pixels per second.
pub const JUMP_SPEED: i64 = 375_000_000;

/// No bird in flight falls faster than this. At this speed the whole height
/// above the ground is crossed within one microsecond, so a faster bird has
/// reached the ground by the end of any tick.
pub const TERMINAL_SPEED: i64 = 400_000_000_000_000;

/// The player.
#[derive(Clone, Copy, Debug, PartialEq, Eq, Structural)]
pub struct Bird {
    /// Top-left corner of the bounding box.
    pub position: Vector2,
    /// Extent of the bounding box.
    pub size: Vector2,
    /// Vertical speed; positive is downwards.
    pub y_velocity: i64,
    /// Number of pipes passed.
    pub score: i8,
    /// The sprite that follows the bird.
    pub sprite: Sprite,
    /// Raised when the bird touches the ground; whoever reads it lowers it.
    pub signal_gameover: bool,
}

impl Bird {
    /// The invariant of a bird: it lies between the top edge and the ground,
    /// its speed is within the limits of flight, its score is not negative
    /// and its sprite stands where the bird is. The bird is low enough to fit
    /// under the ground line at its starting height.
    pub open spec fn wf(self) -> bool {
        &&& 0 <= self.size.x
        &&& 0 <= self.size.y <= GROUND_Y - PLAYER_Y
        &&& 0 <= self.position.y <= GROUND_Y - self.size.y
        &&& -JUMP_SPEED <= self.y_velocity <= TERMINAL_SPEED
        &&& 0 <= self.score
        &&& self.sprite.position == self.position
    }

    /// The bird as it is created.
    pub open spec fn spec_new(x: i64, y: i64, width: i64, height: i64, texture: Texture) -> Bird {
        Bird {
            position: Vector2 { x, y },
            size: Vector2 { x: width, y: height },
            y_velocity: 0,
            score: 0,
            sprite: Sprite::spec_new_pos(texture, Vector2 { x, y }),
            signal_gameover: false,
        }
    }

    /// Vertical speed after falling freely for `dt` microseconds.
    pub open spec fn speed_after(self, dt: u32) -> int {
        self.y_velocity + GRAVITY * dt
    }

    /// Height reached after `dt` microseconds if neither the ground nor the
    /// top edge were in the way: the new speed is applied over the whole tick.
    pub open spec fn free_fall(self, dt: u32) -> int {
        self.position.y + self.speed_after(dt) * dt
    }

    /// Whether the bottom edge would pass the ground line within `dt`.
    pub open spec fn hits_ground(self, dt: u32) -> bool {
        self.free_fall(dt) + self.size.y > GROUND_Y
    }

    /// Height after a tick of `dt` microseconds.
    pub open spec fn height_after(self, dt: u32) -> int {
        if self.hits_ground(dt) {
            GROUND_Y - self.size.y
        } else if self.free_fall(dt) < 0 {
            0
        } else {
            self.free_fall(dt)
        }
    }

    /// The bird after a tick of `dt` microseconds. A bird that reaches the
    /// ground stops on it and raises its signal; one that reaches the top
    /// edge stays there and keeps its speed.
    pub open spec fn updated(self, dt: u32) -> Bird {
        let position = Vector2 { x: self.position.x, y: self.height_after(dt) as i64 };
        Bird {
            position,
            y_velocity: if self.hits_ground(dt) {
                0
            } else {
                self.speed_after(dt) as i64
            },
            signal_gameover: self.signal_gameover || self.hits_ground(dt),
            sprite: Sprite { position, ..self.sprite },
            ..self
        }
    }

    /// The bird right after a flap.
    pub open spec fn jumped(self) -> Bird {
        Bird { y_velocity: (-JUMP_SPEED) as i64, ..self }
    }

    /// The bird put back to the start of a round.
    pub open spec fn restarted(self) -> Bird {
        let position = Vector2 { x: PLAYER_X, y: PLAYER_Y };
        Bird {
            position,
            y_velocity: 0,
            score: 0,
            sprite: Sprite { position, ..self.sprite },
            ..self
        }
    }

    /// The bounding box.
    pub open spec fn rect(self) -> Rect {
        Rect { x: self.position.x, y: self.position.y, width: self.size.x, height: self.size.y }
    }

    /// Creates a bird at rest with its top-left corner at `(x, y)`.
    pub fn new(x: i64, y: i64, width: i64, height: i64, assets: &AssetManager) -> (bird: Bird)
        requires
            assets@.contains_key(TextureId::Flappy),
            assets@[TextureId::Flappy].fits(),
        ensures
            bird == Self::spec_new(x, y, width, height, assets@[TextureId::Flappy]),
            bird.wf() <==> 0 <= width && 0 <= height <= GROUND_Y - PLAYER_Y && 0 <= y <= GROUND_Y
                - height,
    {
        let flappy_texture = assets.get_texture(TextureId::Flappy);
        let sprite = Sprite::new_pos(flappy_texture, Vector2 { x, y });
        Bird {
            position: Vector2 { x, y },
            size: Vector2 { x: width, y: height },
            y_velocity: 0,
            sprite,
            score: 0,
            signal_gameover: false,
        }
    }

    /// Advances the bird by `dt` microseconds: gravity changes the speed, the
    /// new speed moves the bird, and the ground and the top edge stop it.
    pub fn update(&mut self, dt: u32)
        requires
            old(self).wf(),
        ensures
            *final(self) == old(self).updated(dt),
            final(self).wf(),
            0 <= final(self).position.y <= GROUND_Y - final(self).size.y,
            final(self).signal_gameover == (old(self).signal_gameover || old(self).hits_ground(dt)),
            old(self).hits_ground(dt) ==> final(self).position.y == GROUND_Y - old(self).size.y
                && final(self).y_velocity == 0,
    {
        proof {
            lemma_update_keeps_in_bounds(*self, dt);
        }
        let velocity: i64 = self.y_velocity + GRAVITY * (dt as i64);
        assert(-(JUMP_SPEED as int) * 0x1_0000_0000 <= velocity * dt <= (TERMINAL_SPEED + GRAVITY
            * 0x1_0000_0000) * 0x1_0000_0000) by (nonlinear_arith)
            requires
                -JUMP_SPEED <= velocity <= TERMINAL_SPEED + GRAVITY * 0x1_0000_0000,
                0 <= dt < 0x1_0000_0000,
        ;
        let reached: i128 = self.position.y as i128 + (velocity as i128) * (dt as i128);
        if reached + self.size.y as i128 > GROUND_Y as i128 {
            self.y_velocity = 0;
            self.position.y = GROUND_Y - self.size.y;
            self.signal_gameover = true;
        } else {
            self.y_velocity = velocity;
            self.position.y = if reached < 0 {
                0
            } else {
                reached as i64
            };
        }
        self.sprite.set_position(self.position);
    }

    /// Flaps: whatever the speed was, the bird now rises at `JUMP_SPEED`.
    pub fn jump(&mut self)
        ensures
            *final(self) == old(self).jumped(),
            final(self).y_velocity == -JUMP_SPEED,
            old(self).wf() ==> final(self).wf(),
    {
        self.y_velocity = -JUMP_SPEED;
    }

    /// Puts the bird back to the start of a round: at the starting position,
    /// at rest, with no score.
    pub fn reset(&mut self)
        ensures
            *final(self) == old(self).restarted(),
            old(self).wf() ==> final(self).wf(),
    {
        self.position = Vector2 { x: PLAYER_X, y: PLAYER_Y };
        self.y_velocity = 0;
        self.score = 0;
        self.sprite.set_position(self.position);
    }

    /// The bounding box, for collision tests.
    pub fn get_rect(&self) -> (rect: Rect)
        ensures
            rect == self.rect(),
            self.wf() ==> rect.wf(),
    {
        Rect { x: self.position.x, y: self.position.y, width: self.size.x, height: self.size.y }
    }
}

impl Drawable for Bird {
    open spec fn images(&self) -> Seq<Image> {
        seq![self.sprite.image()]
    }

    fn draw(&self) -> (images: Vec<Image>) {
        let mut images: Vec<Image> = Vec::new();
        images.push(self.sprite.draw());
        assert(images@ =~= self.images());
        images
    }
}

/// Whatever the length of a tick, a bird that starts within the playfield
/// ends within it: between the top edge and the ground line, at a speed
/// within the limits of flight. Its ground signal is raised by the tick
/// exactly when the ground stopped it.
pub proof fn lemma_update_keeps_in_bounds(bird: Bird, dt: u32)
    requires
        bird.wf(),
    ensures
        bird.updated(dt).wf(),
        0 <= bird.updated(dt).position.y <= GROUND_Y - bird.size.y,
        bird.updated(dt).signal_gameover == (bird.signal_gameover || bird.hits_ground(dt)),
        bird.hits_ground(dt) ==> bird.updated(dt).position.y == GROUND_Y - bird.size.y
            && bird.updated(dt).y_velocity == 0,
        !bird.hits_ground(dt) ==> bird.updated(dt).y_velocity == bird.speed_after(dt),
{
    let velocity = bird.speed_after(dt);
    if !bird.hits_ground(dt) {
        assert(velocity <= TERMINAL_SPEED) by (nonlinear_arith)
            requires
                velocity * dt <= GROUND_Y,
                TERMINAL_SPEED == GROUND_Y,
                dt == 0 ==> velocity <= TERMINAL_SPEED,
                0 <= dt,
        ;
    }
}

} // verus!
