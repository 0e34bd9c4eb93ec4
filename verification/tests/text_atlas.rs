use gl_gui::geom::Vec2;
use gl_gui::gui::event::Extent;
use gl_gui::gui::text::{
    CachedGlyph, CachedGlyphDisplay, GlyphAtlas, PendingGlyph, PendingGlyphDisplay, Placement,
};

fn glyph(w: u32, h: u32) -> PendingGlyph {
    PendingGlyph {
        display: Some(PendingGlyphDisplay { size: Extent { x: w, y: h }, left: 1, top: -7 }),
        advance_x: 0x4120_0000,
    }
}

#[test]
fn glyphs_fill_a_row_from_left_to_right() {
    let mut atlas = GlyphAtlas::new(Extent { x: 100, y: 100 }, 10);
    assert_eq!(atlas.place(20), Some(Placement { x: 0, y: 0, next_x: 21 }));
    assert_eq!(atlas.place(30), Some(Placement { x: 21, y: 0, next_x: 52 }));
    assert_eq!(atlas.cur_x, 52);
    assert_eq!(atlas.cur_y, 0);
}

#[test]
fn a_glyph_that_reaches_the_edge_starts_the_next_row() {
    let mut atlas = GlyphAtlas::new(Extent { x: 100, y: 100 }, 10);
    atlas.place(60);
    assert_eq!(atlas.place(38), Some(Placement { x: 61, y: 0, next_x: 100 }));
    let mut atlas = GlyphAtlas::new(Extent { x: 100, y: 100 }, 10);
    atlas.place(60);
    assert_eq!(atlas.place(39), Some(Placement { x: 0, y: 11, next_x: 40 }));
    assert_eq!(atlas.cur_x, 40);
    assert_eq!(atlas.cur_y, 11);
    assert_eq!(atlas.place(10), Some(Placement { x: 40, y: 11, next_x: 51 }));
}

#[test]
fn a_full_atlas_takes_no_more_glyphs() {
    let mut atlas = GlyphAtlas::new(Extent { x: 50, y: 30 }, 10);
    assert_eq!(atlas.place(40), Some(Placement { x: 0, y: 0, next_x: 41 }));
    assert_eq!(atlas.place(40), Some(Placement { x: 0, y: 11, next_x: 41 }));
    assert_eq!(atlas.place(40), Some(Placement { x: 0, y: 22, next_x: 41 }));
    assert_eq!(atlas.place(40), None);
    assert_eq!(atlas.cur_x, 41);
    assert_eq!(atlas.cur_y, 22);
    assert_eq!(atlas.place(5), Some(Placement { x: 41, y: 22, next_x: 47 }));
}

#[test]
fn coordinates_that_do_not_fit_are_refused() {
    let mut atlas = GlyphAtlas::new(Extent { x: 100, y: 100 }, 10);
    atlas.place(10);
    assert_eq!(atlas.place(u32::MAX), None);
    assert_eq!(atlas.cur_x, 11);
    let mut tall = GlyphAtlas::new(Extent { x: 10, y: u32::MAX }, -1);
    assert_eq!(tall.place(20), None);
}

#[test]
fn cache_glyph_records_where_the_glyph_lies() {
    let mut atlas = GlyphAtlas::new(Extent { x: 100, y: 100 }, 10);
    assert!(!atlas.is_cached('a'));
    assert_eq!(atlas.get_cached_glyph('a'), None);
    assert_eq!(atlas.cache_glyph('a', glyph(20, 9)), Some(Some(Vec2::new(0, 0))));
    assert_eq!(atlas.cache_glyph('b', glyph(30, 8)), Some(Some(Vec2::new(21, 0))));
    assert!(atlas.is_cached('a'));
    assert!(atlas.is_cached('b'));
    assert!(!atlas.is_cached('c'));
    assert_eq!(
        atlas.get_cached_glyph('b'),
        Some(CachedGlyph {
            display: Some(CachedGlyphDisplay {
                loc: Vec2::new(21, 0),
                size: Vec2::new(30, 8),
                left: 1,
                top: -7
            }),
            advance_x: 0x4120_0000
        })
    );
    assert_eq!(atlas.cur_x, 52);
}

#[test]
fn a_glyph_is_cached_once() {
    let mut atlas = GlyphAtlas::new(Extent { x: 100, y: 100 }, 10);
    assert_eq!(atlas.cache_glyph('a', glyph(20, 9)), Some(Some(Vec2::new(0, 0))));
    assert_eq!(atlas.cache_glyph('a', glyph(50, 50)), Some(None));
    assert_eq!(atlas.cur_x, 21);
    assert_eq!(
        atlas.get_cached_glyph('a').unwrap().display.unwrap().size,
        Vec2::new(20, 9)
    );
}

#[test]
fn white_space_takes_no_place() {
    let mut atlas = GlyphAtlas::new(Extent { x: 100, y: 100 }, 10);
    let space = PendingGlyph { display: None, advance_x: 7 };
    assert_eq!(atlas.cache_glyph(' ', space), Some(None));
    assert_eq!(atlas.get_cached_glyph(' '), Some(CachedGlyph { display: None, advance_x: 7 }));
    assert_eq!(atlas.cur_x, 0);
    assert_eq!(atlas.cur_y, 0);
}

#[test]
fn a_glyph_without_a_place_is_not_cached() {
    let mut atlas = GlyphAtlas::new(Extent { x: 50, y: 10 }, 10);
    assert_eq!(atlas.cache_glyph('a', glyph(40, 9)), Some(Some(Vec2::new(0, 0))));
    assert_eq!(atlas.cache_glyph('b', glyph(40, 9)), None);
    assert!(!atlas.is_cached('b'));
    assert_eq!(atlas.cur_x, 41);
    assert_eq!(atlas.cur_y, 0);
    assert_eq!(atlas.cache_glyph('c', glyph(0x8000_0000, 1)), None);
    assert!(!atlas.is_cached('c'));
}
