//! Presentation of the score: one sprite per decimal digit.

use vstd::prelude::*;
use crate::assets::{AssetManager, Image, Sprite, Texture, TextureId};
use crate::geometry::Vector2;

verus! {

/// Where the score is asked to appear: 100 pixels from the left edge.
pub const SCORE_X: i64 = 100_000_000_000_000;

/// Where the score is asked to appear: 100 pixels from the top edge.
pub const SCORE_Y: i64 = 100_000_000_000_000;

/// The decimal digits of `n`, most significant first. Zero has the one digit
/// 0; no other number starts with it.
pub open spec fn digits(n: nat) -> Seq<int>
    decreases n,
{
    if n < 10 {
        seq![n as int]
    } else {
        digits(n / 10).push((n % 10) as int)
    }
}

/// The number that a sequence of decimal digits, most significant first,
/// stands for.
pub open spec fn number(digits: Seq<int>) -> int
    decreases digits.len(),
{
    if digits.len() == 0 {
        0
    } else {
        number(digits.drop_last()) * 10 + digits.last()
    }
}

/// The digits of a number are decimal digits, there is at least one of them,
/// the first is zero only for the number zero, and together they stand for
/// that number.
pub proof fn lemma_digits(n: nat)
    ensures
        digits(n).len() >= 1,
        forall|i: int| 0 <= i < digits(n).len() ==> 0 <= #[trigger] digits(n)[i] <= 9,
        digits(n)[0] == 0 <==> n == 0,
        number(digits(n)) == n,
    decreases n,
{
    if n < 10 {
        assert(digits(n).drop_last() =~= Seq::<int>::empty());
        assert(number(digits(n).drop_last()) == 0);
    } else {
        lemma_digits(n / 10);
        let front = digits(n / 10);
        assert(digits(n).drop_last() =~= front);
        assert(digits(n)[0] == front[0]);
    }
}

/// The drawing operations that show `score` with the sprites `sprites`, of
/// which the one at position `d` shows the digit `d`.
pub open spec fn score_images(sprites: Seq<Sprite>, score: int) -> Seq<Image> {
    digits(score as nat).map_values(|digit: int| sprites[digit].image())
}

/// The sprites of the ten digits, as they are created from `assets`.
pub open spec fn digit_sprites(assets: Map<TextureId, Texture>) -> Seq<Sprite> {
    Seq::new(10, |digit: int| Sprite::spec_new(assets[TextureId::spec_digit(digit)]))
}

/// Whether `assets` holds the texture of every digit.
pub open spec fn has_digits(assets: Map<TextureId, Texture>) -> bool {
    forall|digit: int|
        0 <= digit < 10 ==> assets.contains_key(#[trigger] TextureId::spec_digit(digit))
            && assets[TextureId::spec_digit(digit)].fits()
}

/// Splits a score into its decimal digits, most significant first.
pub fn score_digits(score: i8) -> (out: Vec<u8>)
    requires
        score >= 0,
    ensures
        out@.map_values(|digit: u8| digit as int) == digits(score as nat),
        1 <= out@.len() <= 3,
        forall|i: int| 0 <= i < out@.len() ==> #[trigger] out@[i] < 10,
{
    let n: u8 = score as u8;
    let mut out: Vec<u8> = Vec::new();
    if n >= 100 {
        out.push(n / 100);
    }
    if n >= 10 {
        out.push((n / 10) % 10);
    }
    out.push(n % 10);
    proof {
        reveal_with_fuel(digits, 4);
        assert(out@.map_values(|digit: u8| digit as int) =~= digits(score as nat));
    }
    out
}

/// Shows a score as a row of digit sprites.
pub struct ScoreDrawer {
    digit_sprites: Vec<Sprite>,
}

impl View for ScoreDrawer {
    type V = Seq<Sprite>;

    /// The sprites of the digits 0 to 9, in this order.
    closed spec fn view(&self) -> Seq<Sprite> {
        self.digit_sprites@
    }
}

impl ScoreDrawer {
    /// There is one sprite for each digit.
    pub open spec fn wf(&self) -> bool {
        self@.len() == 10
    }

    /// Creates the sprites of the ten digits.
    pub fn new(assets: &AssetManager) -> (drawer: ScoreDrawer)
        requires
            has_digits(assets@),
        ensures
            drawer@ == digit_sprites(assets@),
            drawer.wf(),
    {
        let mut sprites: Vec<Sprite> = Vec::new();
        let mut digit: u8 = 0;
        while digit < 10
            invariant
                digit <= 10,
                has_digits(assets@),
                sprites@.len() == digit,
                forall|d: int| 0 <= d < digit ==> #[trigger] sprites@[d] == digit_sprites(assets@)[d],
            decreases 10 - digit,
        {
            let id = TextureId::digit(digit);
            assert(assets@.contains_key(TextureId::spec_digit(digit as int)));
            sprites.push(Sprite::new(assets.get_texture(id)));
            digit += 1;
        }
        assert(sprites@ =~= digit_sprites(assets@));
        ScoreDrawer { digit_sprites: sprites }
    }

    /// Lists the drawing operations that show `score`, one for each digit,
    /// the most significant first.
    pub fn draw(&self, score: i8) -> (images: Vec<Image>)
        requires
            self.wf(),
            score >= 0,
        ensures
            images@ == score_images(self@, score as int),
    {
        let shown = score_digits(score);
        let mut images: Vec<Image> = Vec::new();
        let mut i: usize = 0;
        while i < shown.len()
            invariant
                i <= shown@.len(),
                self.wf(),
                shown@.map_values(|digit: u8| digit as int) == digits(score as nat),
                forall|k: int| 0 <= k < shown@.len() ==> #[trigger] shown@[k] < 10,
                images@.len() == i,
                forall|k: int|
                    0 <= k < i ==> #[trigger] images@[k] == score_images(self@, score as int)[k],
            decreases shown@.len() - i,
        {
            let digit = shown[i];
            assert(shown@.map_values(|digit: u8| digit as int)[i as int] == digit as int);
            let sprite = &self.digit_sprites[digit as usize];
            images.push(sprite.draw_at(Vector2 { x: SCORE_X, y: SCORE_Y }));
            i += 1;
        }
        assert(images@ =~= score_images(self@, score as int));
        images
    }
}

} // verus!
