//! Library-wide laws: properties that relate several operations, stated and
//! proved once over the public specifications of the entity types.

use vstd::prelude::*;
use crate::entities::{Enemy, Sprite, rect_around};
use crate::geometry::{UNIT, lemma_dimension_scale_fits};

verus! {

/// Law: geometry respects sprite polymorphism. For any two enemies standing
/// at the same position, whatever sprite variant each one owns, each enemy's
/// bounding box has exactly its own sprite's width and height (scaled to
/// micro-units), as [`Enemy::bounding_rect`] computes it via [`rect_around`].
pub proof fn lemma_bounding_rects_match_own_sprites(a: Enemy, b: Enemy)
    requires
        a.pos == b.pos,
    ensures
        rect_around(a.pos, a.sprite.spec_width(), a.sprite.spec_height()).w
            == a.sprite.spec_width() * UNIT,
        rect_around(a.pos, a.sprite.spec_width(), a.sprite.spec_height()).h
            == a.sprite.spec_height() * UNIT,
        rect_around(b.pos, b.sprite.spec_width(), b.sprite.spec_height()).w
            == b.sprite.spec_width() * UNIT,
        rect_around(b.pos, b.sprite.spec_width(), b.sprite.spec_height()).h
            == b.sprite.spec_height() * UNIT,
{
    lemma_dimension_scale_fits(a.sprite.spec_width() as int);
    lemma_dimension_scale_fits(a.sprite.spec_height() as int);
    lemma_dimension_scale_fits(b.sprite.spec_width() as int);
    lemma_dimension_scale_fits(b.sprite.spec_height() as int);
}

} // verus!
