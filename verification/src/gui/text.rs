//! The atlas of glyphs: where each rendered glyph lies in the texture that
//! all glyphs of a font share.
//!
//! Glyphs are put into the atlas in rows, from left to right. A glyph that
//! does not fit into the row that is being filled starts a new row below it.
//! Nothing is ever taken out.

use crate::collections::{map_get, map_insert, map_new};
use crate::geom::Vec2;
use crate::gui::event::Extent;
use fxhash::FxHashMap;
use vstd::prelude::*;

verus! {

/// Where the picture of a glyph lies in the atlas, and how it is placed
/// next to the pen.
#[derive(Clone, Copy, Debug, PartialEq, Eq, Structural)]
pub struct CachedGlyphDisplay {
    /// Where the picture starts in the atlas.
    pub loc: Vec2,
    /// The size of the picture.
    pub size: Vec2,
    /// The distance of the picture from the pen to the right.
    pub left: i32,
    /// The distance of the picture from the baseline downwards.
    pub top: i32,
}

/// A glyph of the atlas.
#[derive(Clone, Copy, Debug, PartialEq, Eq, Structural)]
pub struct CachedGlyph {
    /// The picture of the glyph; white space has none.
    pub display: Option<CachedGlyphDisplay>,
    /// How far the pen moves on after the glyph: a 32-bit float, held as its
    /// bit pattern.
    pub advance_x: u32,
}

/// The picture of a glyph that was rendered and is not in the atlas yet.
#[derive(Clone, Copy, Debug, PartialEq, Eq, Structural)]
pub struct PendingGlyphDisplay {
    pub size: Extent,
    pub left: i32,
    pub top: i32,
}

/// A glyph that was rendered and is not in the atlas yet.
#[derive(Clone, Copy, Debug, PartialEq, Eq, Structural)]
pub struct PendingGlyph {
    pub display: Option<PendingGlyphDisplay>,
    pub advance_x: u32,
}

/// The atlas of the glyphs of one font at one size.
pub struct GlyphAtlas {
    /// The size of the texture.
    pub size: Extent,
    /// The height of a line of text, which is the height of a row less one.
    pub advance_y: i32,
    /// Where the next glyph goes in the row that is being filled.
    pub cur_x: u32,
    /// Where the row that is being filled starts.
    pub cur_y: u32,
    /// The glyphs of the atlas, each under the number of its character.
    pub glyphs: FxHashMap<usize, CachedGlyph>,
}

/// A place for a glyph in the atlas.
#[derive(Clone, Copy, Debug, PartialEq, Eq, Structural)]
pub struct Placement {
    /// Where the glyph starts.
    pub x: u32,
    pub y: u32,
    /// Where the glyph after it goes, if it fits into the same row.
    pub next_x: u32,
}

/// The place of a glyph that is `width` wide in an atlas of the given size,
/// where the row that starts at `cur_y` is filled up to `cur_x`.
///
/// The glyph goes to `cur_x` if it ends before the right edge of the atlas.
/// Otherwise it starts the next row, which lies the height of a line and one
/// pixel further down. The glyph after it goes one pixel after its end.
///
/// `None` if the row of the glyph starts at or below the lower edge of the
/// atlas, which is then full, or if a coordinate does not fit in a `u32`.
pub open spec fn spec_place(cur_x: u32, cur_y: u32, advance_y: i32, atlas: Extent, width: u32) -> Option<
    Placement,
> {
    if cur_x + width > u32::MAX {
        None
    } else {
        let new_row = cur_x + width >= atlas.x;
        let x: int = if new_row {
            0
        } else {
            cur_x as int
        };
        let y: int = if new_row {
            cur_y + (advance_y as u32) + 1
        } else {
            cur_y as int
        };
        if y > u32::MAX || y >= atlas.y || x + width + 1 > u32::MAX {
            None
        } else {
            Some(Placement { x: x as u32, y: y as u32, next_x: (x + width + 1) as u32 })
        }
    }
}

/// The number under which the atlas holds the glyph of a character.
pub open spec fn glyph_key(c: char) -> usize {
    c as u32 as usize
}

impl GlyphAtlas {
    /// An empty atlas in a texture of the given size, for a font whose lines
    /// are `advance_y` high.
    pub fn new(size: Extent, advance_y: i32) -> (atlas: GlyphAtlas)
        ensures
            atlas.size == size,
            atlas.advance_y == advance_y,
            atlas.cur_x == 0,
            atlas.cur_y == 0,
            atlas.glyphs@.dom() == Set::<usize>::empty(),
    {
        GlyphAtlas { size, advance_y, cur_x: 0, cur_y: 0, glyphs: map_new() }
    }

    /// The glyph of the character, if it is in the atlas.
    pub fn get_cached_glyph(&self, c: char) -> (r: Option<CachedGlyph>)
        ensures
            r == (if self.glyphs@.contains_key(glyph_key(c)) {
                Some(self.glyphs@[glyph_key(c)])
            } else {
                None
            }),
    {
        match map_get(&self.glyphs, c as u32 as usize) {
            Some(glyph) => Some(*glyph),
            None => None,
        }
    }

    /// Whether the glyph of the character is in the atlas.
    pub fn is_cached(&self, c: char) -> (r: bool)
        ensures
            r == self.glyphs@.contains_key(glyph_key(c)),
    {
        map_get(&self.glyphs, c as u32 as usize).is_some()
    }

    /// Finds the place for a glyph that is `width` wide, and moves on to the
    /// place after it.
    ///
    /// Returns `None`, and leaves the atlas as it is, if the atlas is full or
    /// a coordinate does not fit.
    pub fn place(&mut self, width: u32) -> (r: Option<Placement>)
        ensures
            r == spec_place(
                old(self).cur_x,
                old(self).cur_y,
                old(self).advance_y,
                old(self).size,
                width,
            ),
            match r {
                Some(p) => *final(self) == (GlyphAtlas { cur_x: p.next_x, cur_y: p.y, ..*old(self) }),
                None => *final(self) == *old(self),
            },
            r matches Some(p) ==> p.y < old(self).size.y && p.y >= old(self).cur_y,
            r matches Some(p) ==> (p.y == old(self).cur_y && old(self).advance_y >= 0 ==> p.x
                == old(self).cur_x && p.x + width < old(self).size.x),
    {
        let end = match self.cur_x.checked_add(width) {
            Some(end) => end,
            None => {
                return None;
            },
        };
        let (x, y) = if end >= self.size.x {
            let row = match self.cur_y.checked_add(self.advance_y as u32) {
                Some(below) => below.checked_add(1),
                None => None,
            };
            match row {
                Some(y) => (0u32, y),
                None => {
                    return None;
                },
            }
        } else {
            (self.cur_x, self.cur_y)
        };
        if y >= self.size.y {
            return None;
        }
        let next_x = match x.checked_add(width) {
            Some(end) => match end.checked_add(1) {
                Some(next_x) => next_x,
                None => {
                    return None;
                },
            },
            None => {
                return None;
            },
        };
        self.cur_x = next_x;
        self.cur_y = y;
        Some(Placement { x, y, next_x })
    }

    /// Takes a rendered glyph into the atlas, unless the atlas holds the
    /// glyph of the character already.
    ///
    /// Returns where the picture of the glyph is to be drawn into the
    /// texture: `Some(None)` if there is nothing to draw, because the glyph
    /// has no picture or was in the atlas before. Returns `None`, and leaves
    /// the atlas as it is, if there is no place for the picture or its place
    /// or size does not fit in signed coordinates.
    pub fn cache_glyph(&mut self, c: char, glyph: PendingGlyph) -> (r: Option<Option<Vec2>>)
        ensures
            match old(self).spec_cached(c, glyph) {
                None => r.is_none() && *final(self) == *old(self),
                Some((atlas, loc)) => r == Some(loc) && final(self)@ == atlas,
            },
    {
        let key = c as u32 as usize;
        if map_get(&self.glyphs, key).is_some() {
            return Some(None);
        }
        let display = match glyph.display {
            None => {
                map_insert(
                    &mut self.glyphs,
                    key,
                    CachedGlyph { display: None, advance_x: glyph.advance_x },
                );
                return Some(None);
            },
            Some(display) => display,
        };
        if display.size.x > 0x7fff_ffff || display.size.y > 0x7fff_ffff {
            return None;
        }
        let (old_x, old_y) = (self.cur_x, self.cur_y);
        let place = match self.place(display.size.x) {
            Some(place) => place,
            None => {
                return None;
            },
        };
        if place.x > 0x7fff_ffff || place.y > 0x7fff_ffff {
            self.cur_x = old_x;
            self.cur_y = old_y;
            return None;
        }
        let loc = Vec2 { x: place.x as i32, y: place.y as i32 };
        map_insert(
            &mut self.glyphs,
            key,
            CachedGlyph {
                display: Some(
                    CachedGlyphDisplay {
                        loc,
                        size: Vec2 { x: display.size.x as i32, y: display.size.y as i32 },
                        left: display.left,
                        top: display.top,
                    },
                ),
                advance_x: glyph.advance_x,
            },
        );
        Some(Some(loc))
    }

    /// The atlas after it was asked to take in the glyph of `c`, and where
    /// the picture of the glyph is to be drawn. `None` if the glyph cannot
    /// be taken in.
    pub open spec fn spec_cached(&self, c: char, glyph: PendingGlyph) -> Option<
        (AtlasView, Option<Vec2>),
    > {
        let key = glyph_key(c);
        if self.glyphs@.contains_key(key) {
            Some((self@, None))
        } else {
            match glyph.display {
                None => Some(
                    (
                        AtlasView {
                            glyphs: self.glyphs@.insert(
                                key,
                                CachedGlyph { display: None, advance_x: glyph.advance_x },
                            ),
                            ..self@
                        },
                        None,
                    ),
                ),
                Some(display) => match spec_place(
                    self.cur_x,
                    self.cur_y,
                    self.advance_y,
                    self.size,
                    display.size.x,
                ) {
                    None => None,
                    Some(p) => if display.size.x > i32::MAX || display.size.y > i32::MAX || p.x
                        > i32::MAX || p.y > i32::MAX {
                        None
                    } else {
                        let loc = Vec2 { x: p.x as i32, y: p.y as i32 };
                        Some(
                            (
                                AtlasView {
                                    size: self.size,
                                    advance_y: self.advance_y,
                                    cur_x: p.next_x,
                                    cur_y: p.y,
                                    glyphs: self.glyphs@.insert(
                                        key,
                                        CachedGlyph {
                                            display: Some(
                                                CachedGlyphDisplay {
                                                    loc,
                                                    size: Vec2 {
                                                        x: display.size.x as i32,
                                                        y: display.size.y as i32,
                                                    },
                                                    left: display.left,
                                                    top: display.top,
                                                },
                                            ),
                                            advance_x: glyph.advance_x,
                                        },
                                    ),
                                },
                                Some(loc),
                            ),
                        )
                    },
                },
            }
        }
    }
}

/// What a `GlyphAtlas` holds.
pub ghost struct AtlasView {
    pub size: Extent,
    pub advance_y: i32,
    pub cur_x: u32,
    pub cur_y: u32,
    pub glyphs: Map<usize, CachedGlyph>,
}

impl View for GlyphAtlas {
    type V = AtlasView;

    open spec fn view(&self) -> AtlasView {
        AtlasView {
            size: self.size,
            advance_y: self.advance_y,
            cur_x: self.cur_x,
            cur_y: self.cur_y,
            glyphs: self.glyphs@,
        }
    }
}

} // verus!
