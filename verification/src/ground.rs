//! The strip of ground at the bottom of the playfield.

use vstd::prelude::*;
use crate::assets::{AssetManager, Sprite, TextureId};

verus! {

/// The ground.
#[derive(Clone, Copy, Debug, PartialEq, Eq, Structural)]
pub struct Ground {
    /// The sprite of the strip.
    pub sprite: Sprite,
}

impl Ground {
    /// Creates the ground with its sprite at the origin.
    pub fn new(assets: &AssetManager) -> (ground: Ground)
        requires
            assets@.contains_key(TextureId::Ground),
            assets@[TextureId::Ground].fits(),
        ensures
            ground.sprite == Sprite::spec_new(assets@[TextureId::Ground]),
    {
        Ground { sprite: Sprite::new(assets.get_texture(TextureId::Ground)) }
    }
}

} // verus!
