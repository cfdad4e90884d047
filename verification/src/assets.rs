//! Textures, the store that hands them out, and sprites.
//!
//! The library never touches pixel data. Of a texture it knows which image it
//! is and how large; of a sprite, where and how large it is to be drawn and
//! which part of the texture it shows.

use vstd::prelude::*;
use crate::geometry::{Rect, Vector2, PX};

verus! {

/// The images of the game.
#[derive(Clone, Copy, Debug, PartialEq, Eq, Structural)]
pub enum TextureId {
    Flappy,
    Background,
    Ground,
    Title,
    Pipe,
    GameOver,
    Score0,
    Score1,
    Score2,
    Score3,
    Score4,
    Score5,
    Score6,
    Score7,
    Score8,
    Score9,
}

/// Number of values of [`TextureId`].
pub const TEXTURE_COUNT: usize = 16;

/// The largest side, in pixels, that a texture may have for its extent to be
/// expressible in length units.
pub const MAX_TEXTURE_SIDE: u32 = 9_223_372;

impl TextureId {
    /// Position of this image in the store.
    pub open spec fn slot(self) -> int {
        match self {
            TextureId::Flappy => 0,
            TextureId::Background => 1,
            TextureId::Ground => 2,
            TextureId::Title => 3,
            TextureId::Pipe => 4,
            TextureId::GameOver => 5,
            TextureId::Score0 => 6,
            TextureId::Score1 => 7,
            TextureId::Score2 => 8,
            TextureId::Score3 => 9,
            TextureId::Score4 => 10,
            TextureId::Score5 => 11,
            TextureId::Score6 => 12,
            TextureId::Score7 => 13,
            TextureId::Score8 => 14,
            TextureId::Score9 => 15,
        }
    }

    /// The image of the decimal digit `digit`.
    pub open spec fn spec_digit(digit: int) -> TextureId {
        if digit == 0 {
            TextureId::Score0
        } else if digit == 1 {
            TextureId::Score1
        } else if digit == 2 {
            TextureId::Score2
        } else if digit == 3 {
            TextureId::Score3
        } else if digit == 4 {
            TextureId::Score4
        } else if digit == 5 {
            TextureId::Score5
        } else if digit == 6 {
            TextureId::Score6
        } else if digit == 7 {
            TextureId::Score7
        } else if digit == 8 {
            TextureId::Score8
        } else {
            TextureId::Score9
        }
    }

    /// Position of this image in the store.
    pub fn index(self) -> (i: usize)
        ensures
            i == self.slot(),
            i < TEXTURE_COUNT,
    {
        match self {
            TextureId::Flappy => 0,
            TextureId::Background => 1,
            TextureId::Ground => 2,
            TextureId::Title => 3,
            TextureId::Pipe => 4,
            TextureId::GameOver => 5,
            TextureId::Score0 => 6,
            TextureId::Score1 => 7,
            TextureId::Score2 => 8,
            TextureId::Score3 => 9,
            TextureId::Score4 => 10,
            TextureId::Score5 => 11,
            TextureId::Score6 => 12,
            TextureId::Score7 => 13,
            TextureId::Score8 => 14,
            TextureId::Score9 => 15,
        }
    }

    /// The image of a decimal digit.
    pub fn digit(digit: u8) -> (id: TextureId)
        requires
            digit < 10,
        ensures
            id == Self::spec_digit(digit as int),
    {
        match digit {
            0 => TextureId::Score0,
            1 => TextureId::Score1,
            2 => TextureId::Score2,
            3 => TextureId::Score3,
            4 => TextureId::Score4,
            5 => TextureId::Score5,
            6 => TextureId::Score6,
            7 => TextureId::Score7,
            8 => TextureId::Score8,
            _ => TextureId::Score9,
        }
    }
}

/// What the library knows of a loaded texture: which image it is and its
/// native size in pixels.
#[derive(Clone, Copy, Debug, PartialEq, Eq, Structural)]
pub struct Texture {
    /// Which image it is.
    pub id: TextureId,
    /// Native width in pixels.
    pub width: u32,
    /// Native height in pixels.
    pub height: u32,
}

impl Texture {
    /// Whether both sides can be expressed in length units.
    pub open spec fn fits(self) -> bool {
        self.width <= MAX_TEXTURE_SIDE && self.height <= MAX_TEXTURE_SIDE
    }

    /// Whether both sides can be expressed in length units.
    pub fn is_fitting(&self) -> (ok: bool)
        ensures
            ok == self.fits(),
    {
        self.width <= MAX_TEXTURE_SIDE && self.height <= MAX_TEXTURE_SIDE
    }
}

/// The store of textures, keyed by image.
pub struct AssetManager {
    textures: Vec<Option<Texture>>,
}

impl View for AssetManager {
    type V = Map<TextureId, Texture>;

    /// The textures registered so far.
    closed spec fn view(&self) -> Map<TextureId, Texture> {
        Map::new(
            |id: TextureId| id.slot() < self.textures@.len() && self.textures@[id.slot()] is Some,
            |id: TextureId| self.textures@[id.slot()]->0,
        )
    }
}

impl AssetManager {
    /// Whether a texture is registered for every image, each of a size that
    /// fits.
    pub open spec fn complete(&self) -> bool {
        forall|id: TextureId| #[trigger] self@.contains_key(id) && self@[id].fits()
    }

    /// An empty store.
    pub fn new() -> (assets: AssetManager)
        ensures
            assets@ == Map::<TextureId, Texture>::empty(),
    {
        let assets = AssetManager { textures: Vec::new() };
        assert(assets@ =~= Map::<TextureId, Texture>::empty());
        assets
    }

    /// Registers the texture of `name` with its native size in pixels. A
    /// texture registered earlier under the same name is replaced.
    pub fn add_texture(&mut self, name: TextureId, width: u32, height: u32)
        ensures
            final(self)@ == old(self)@.insert(name, Texture { id: name, width, height }),
    {
        let slot = name.index();
        while self.textures.len() <= slot
            invariant
                self@ == old(self)@,
                slot < TEXTURE_COUNT,
            decreases TEXTURE_COUNT - self.textures.len(),
        {
            let ghost before = self@;
            self.textures.push(None);
            assert(self@ =~= before);
        }
        self.textures.set(slot, Some(Texture { id: name, width, height }));
        assert(self@ =~= old(self)@.insert(name, Texture { id: name, width, height }));
    }

    /// Whether a texture is registered under `name`.
    pub fn has_texture(&self, name: TextureId) -> (found: bool)
        ensures
            found == self@.contains_key(name),
    {
        let slot = name.index();
        slot < self.textures.len() && self.textures[slot].is_some()
    }

    /// The texture registered under `name`.
    pub fn get_texture(&self, name: TextureId) -> (texture: &Texture)
        requires
            self@.contains_key(name),
        ensures
            *texture == self@[name],
    {
        let slot = name.index();
        self.textures[slot].as_ref().unwrap()
    }
}

/// One drawing operation: the part `source_rectangle` of a texture is put
/// into `rectangle` on the screen. A negative extent of `rectangle` mirrors
/// the image along that axis.
#[derive(Clone, Copy, Debug, PartialEq, Eq, Structural)]
pub struct Image {
    /// The texture to draw from.
    pub texture: TextureId,
    /// Where on the screen it goes.
    pub rectangle: Rect,
    /// The part of the texture that is drawn.
    pub source_rectangle: Rect,
}

/// A texture together with the place where it is drawn.
#[derive(Clone, Copy, Debug, PartialEq, Eq, Structural)]
pub struct Sprite {
    /// Top-left corner on the screen.
    pub position: Vector2,
    /// Extent on the screen.
    pub size: Vector2,
    /// The part of the texture that is shown.
    pub quad: Rect,
    /// The texture that is shown.
    pub texture: Texture,
}

impl Sprite {
    /// The sprite that shows the whole of `texture` at `position`, in the
    /// texture's native size.
    pub open spec fn spec_new_pos(texture: Texture, position: Vector2) -> Sprite {
        Sprite {
            position,
            size: Vector2 { x: (texture.width * PX) as i64, y: (texture.height * PX) as i64 },
            quad: Rect {
                x: 0,
                y: 0,
                width: (texture.width * PX) as i64,
                height: (texture.height * PX) as i64,
            },
            texture,
        }
    }

    /// The sprite that shows the whole of `texture` at the origin.
    pub open spec fn spec_new(texture: Texture) -> Sprite {
        Self::spec_new_pos(texture, Vector2 { x: 0, y: 0 })
    }

    /// The drawing operation that puts this sprite on the screen.
    pub open spec fn image(self) -> Image {
        Image {
            texture: self.texture.id,
            rectangle: Rect {
                x: self.position.x,
                y: self.position.y,
                width: self.size.x,
                height: self.size.y,
            },
            source_rectangle: self.quad,
        }
    }

    /// Creates the sprite that shows the whole of `texture` at `position`.
    pub fn new_pos(texture: &Texture, position: Vector2) -> (sprite: Sprite)
        requires
            texture.fits(),
        ensures
            sprite == Self::spec_new_pos(*texture, position),
    {
        let width: i64 = texture.width as i64 * PX;
        let height: i64 = texture.height as i64 * PX;
        let image_rect = Rect { x: position.x, y: position.y, width, height };
        let quad_rect = Rect { x: 0, y: 0, width, height };
        Sprite {
            position,
            size: Vector2 { x: image_rect.width, y: image_rect.height },
            quad: quad_rect,
            texture: *texture,
        }
    }

    /// Creates the sprite that shows the whole of `texture` at the origin.
    pub fn new(texture: &Texture) -> (sprite: Sprite)
        requires
            texture.fits(),
        ensures
            sprite == Self::spec_new(*texture),
    {
        Self::new_pos(texture, Vector2 { x: 0, y: 0 })
    }

    /// Moves the sprite.
    pub fn set_position(&mut self, position: Vector2)
        ensures
            *final(self) == (Sprite { position, ..*old(self) }),
    {
        self.position = position;
    }

    /// Top-left corner on the screen.
    pub fn get_position(&self) -> (position: Vector2)
        ensures
            position == self.position,
    {
        self.position
    }

    /// Changes the extent on the screen.
    pub fn set_size(&mut self, size: Vector2)
        ensures
            *final(self) == (Sprite { size, ..*old(self) }),
    {
        self.size = size;
    }

    /// Whether `scale` can be applied: no factor is zero and the scaled
    /// extent is representable.
    pub open spec fn scalable_by(self, scale: Vector2) -> bool {
        &&& scale.x != 0
        &&& scale.y != 0
        &&& i64::MIN <= self.size.x * scale.x <= i64::MAX
        &&& i64::MIN <= self.size.y * scale.y <= i64::MAX
    }

    /// Multiplies the extent by whole factors. A negative factor mirrors the
    /// sprite along that axis.
    pub fn scale(&mut self, scale: Vector2)
        requires
            old(self).scalable_by(scale),
        ensures
            *final(self) == (Sprite {
                size: Vector2 {
                    x: (old(self).size.x * scale.x) as i64,
                    y: (old(self).size.y * scale.y) as i64,
                },
                ..*old(self)
            }),
    {
        let new_size = Vector2 { x: self.size.x * scale.x, y: self.size.y * scale.y };
        self.set_size(new_size);
    }

    /// Extent on the screen.
    pub fn get_size(&self) -> (size: Vector2)
        ensures
            size == self.size,
    {
        self.size
    }

    /// Chooses the part of the texture that is shown. The sprite takes the
    /// extent of that part.
    pub fn set_quad(&mut self, quad: Rect)
        ensures
            *final(self) == (Sprite {
                quad,
                size: Vector2 { x: quad.width, y: quad.height },
                ..*old(self)
            }),
    {
        self.quad = quad;
        self.size = Vector2 { x: quad.width, y: quad.height };
    }

    /// The part of the texture that is shown.
    pub fn get_quad(&self) -> (quad: Rect)
        ensures
            quad == self.quad,
    {
        self.quad
    }

    /// The texture that is shown.
    pub fn get_texture(&self) -> (texture: Texture)
        ensures
            texture == self.texture,
    {
        self.texture
    }

    /// The drawing operation that puts this sprite on the screen.
    pub fn draw(&self) -> (image: Image)
        ensures
            image == self.image(),
    {
        Image {
            texture: self.texture.id,
            rectangle: Rect {
                x: self.position.x,
                y: self.position.y,
                width: self.size.x,
                height: self.size.y,
            },
            source_rectangle: self.quad,
        }
    }

    /// The drawing operation for a sprite asked to appear at `position`. The
    /// request is not honoured yet: the sprite is drawn where it stands.
    pub fn draw_at(&self, position: Vector2) -> (image: Image)
        ensures
            image == self.image(),
    {
        self.draw()
    }
}


/// Something that can be put on the screen.
pub trait Drawable {
    /// The drawing operations that put `self` on the screen, in the order in
    /// which they are to be carried out.
    spec fn images(&self) -> Seq<Image>;

    /// Lists the drawing operations that put `self` on the screen.
    fn draw(&self) -> (images: Vec<Image>)
        ensures
            images@ == self.images(),
    ;
}

} // verus!
