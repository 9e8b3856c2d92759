//! Map layer construction, classification, rendering and dirty tracking.

use adventurers::map::{Cell, MapLayers, FLAG, PLAYER_ICON};
use adventurers::player::Player;
use adventurers::utils::{Control, ForegroundVariant, Key, MapObjectVariant};
use adventurers::utils::{BackgroundVariant, Position, RawMapObject};

fn sample_entries() -> Vec<(Position, RawMapObject)> {
    vec![
        (Position(0, 0), RawMapObject::Grass),
        (Position(1, 0), RawMapObject::Barrier),
        (Position(2, 0), RawMapObject::Water),
        (Position(3, 0), RawMapObject::Object('x')),
        (Position(4, 0), RawMapObject::Sign(String::from("hello"))),
        (Position(5, 0), RawMapObject::Sand),
    ]
}

#[test]
fn unlisted_positions_are_never_barriers_nor_water() {
    let layers = MapLayers::from_raw(&sample_entries());
    for p in [Position(9, 9), Position(-3, 7), Position(100, -100), Position(0, 1)] {
        assert!(!layers.is_barrier(&p));
        assert!(!layers.is_water(&p));
    }
}

#[test]
fn classification_matches_the_raw_entries() {
    let layers = MapLayers::from_raw(&sample_entries());
    assert!(layers.is_barrier(&Position(1, 0)));
    assert!(!layers.is_water(&Position(1, 0)));
    assert!(layers.is_water(&Position(2, 0)));
    assert!(!layers.is_barrier(&Position(2, 0)));
    assert!(!layers.is_barrier(&Position(0, 0)));
    assert!(!layers.is_water(&Position(0, 0)));
    // Foreground-only positions carry no terrain at all.
    assert!(!layers.is_barrier(&Position(3, 0)));
    assert!(!layers.is_water(&Position(3, 0)));
}

#[test]
fn rendering_layers_object_sign_and_terrain() {
    let layers = MapLayers::from_raw(&sample_entries());
    assert_eq!(
        layers.get(&Position(3, 0)),
        Some(Cell { glyph: 'x', background: None })
    );
    assert_eq!(
        layers.get(&Position(4, 0)),
        Some(Cell { glyph: FLAG, background: None })
    );
    assert_eq!(
        layers.get(&Position(2, 0)),
        Some(Cell { glyph: ' ', background: Some(BackgroundVariant::Water) })
    );
    assert_eq!(layers.get(&Position(9, 9)), Some(Cell { glyph: ' ', background: None }));
}

#[test]
fn player_glyph_wins_over_everything() {
    let mut layers = MapLayers::from_raw(&sample_entries());
    let mut player = Player::default();
    player.move_to(Position(3, 0));
    layers.update_player(&mut player);
    assert_eq!(
        layers.get(&Position(3, 0)),
        Some(Cell { glyph: PLAYER_ICON, background: None })
    );
}

#[test]
fn remove_foreground_consumes_the_object_once() {
    let mut layers = MapLayers::from_raw(&sample_entries());
    layers.remove_foreground(&Position(3, 0));
    assert_eq!(layers.get(&Position(3, 0)), Some(Cell { glyph: ' ', background: None }));
}

#[test]
fn dirty_list_drains_once_and_stays_empty() {
    let mut layers = MapLayers::from_raw(&sample_entries());
    let first = layers.get_style_characters();
    assert_eq!(first.len(), 6);
    assert_eq!(first[0].0, Position(0, 0));
    assert_eq!(first[5].0, Position(5, 0));
    let second = layers.get_style_characters();
    assert!(second.is_empty());
    layers.remove_foreground(&Position(4, 0));
    let third = layers.get_style_characters();
    assert_eq!(third.len(), 1);
    assert_eq!(third[0].0, Position(4, 0));
}

#[test]
fn update_player_tracks_previous_position() {
    let mut layers = MapLayers::from_raw(&Vec::new());
    layers.get_style_characters();
    let mut player = Player::default();
    player.move_to(Position(2, 2));
    layers.update_player(&mut player);
    assert_eq!(player.previous_position, Some(Position(2, 2)));
    assert!(!player.update_draw);
    player.move_to(Position(2, 3));
    layers.update_player(&mut player);
    let draws = layers.get_style_characters();
    let touched: Vec<Position> = draws.iter().map(|d| d.0).collect();
    assert!(touched.contains(&Position(2, 2)));
    assert!(touched.contains(&Position(2, 3)));
}

#[test]
fn a_later_entry_for_a_position_wins() {
    let entries = vec![
        (Position(1, 1), RawMapObject::Barrier),
        (Position(1, 1), RawMapObject::Grass),
    ];
    let layers = MapLayers::from_raw(&entries);
    assert!(!layers.is_barrier(&Position(1, 1)));
    assert_eq!(
        layers.get(&Position(1, 1)),
        Some(Cell { glyph: ' ', background: Some(BackgroundVariant::Grass) })
    );
}

#[test]
fn background_predicates_single_out_their_variant() {
    assert!(BackgroundVariant::Barrier.is_barrier());
    assert!(!BackgroundVariant::Barrier.is_water());
    assert!(BackgroundVariant::Water.is_water());
    assert!(!BackgroundVariant::Water.is_barrier());
    for b in [
        BackgroundVariant::Grass,
        BackgroundVariant::Sand,
        BackgroundVariant::Rock,
        BackgroundVariant::Cinderblock,
        BackgroundVariant::Flowerbush,
    ] {
        assert!(!b.is_barrier());
        assert!(!b.is_water());
    }
}

#[test]
fn position_arithmetic_behaves_like_vectors() {
    let p = Position(3, -4);
    assert!(!p.is_origin());
    assert!(Position(0, 0).is_origin());
    let q = p.add(Position(-3, 4));
    assert!(q.is_origin());
    assert_eq!(p.checked_add(Position(1, 1)), Some(Position(4, -3)));
    assert_eq!(Position(i32::MAX, 0).checked_add(Position(1, 0)), None);
    assert_eq!(Position(i32::MIN, 0).checked_add(Position(-1, 0)), None);
}

#[test]
fn control_records_directions_and_clears() {
    let mut c = Control::default();
    assert!(!c.up && !c.down && !c.left && !c.right);
    c.update(Key::Left);
    c.update(Key::Down);
    c.update(Key::Char('t'));
    c.update(Key::Enter);
    assert!(c.left && c.down && !c.right && !c.up);
    assert_eq!(Position::from_control(&c), Position(-1, 1));
    c.update(Key::Right);
    assert_eq!(Position::from_control(&c), Position(0, 1));
    c.clear();
    assert_eq!(Position::from_control(&c), Position(0, 0));
}

#[test]
fn classify_splits_raw_tiles_into_layers() {
    assert_eq!(
        RawMapObject::Object('x').classify(),
        MapObjectVariant::Foreground(ForegroundVariant::Object('x'))
    );
    assert_eq!(
        RawMapObject::Sign(String::from("hi")).classify(),
        MapObjectVariant::Foreground(ForegroundVariant::Sign(String::from("hi")))
    );
    assert_eq!(
        RawMapObject::Water.classify(),
        MapObjectVariant::Background(BackgroundVariant::Water)
    );
    assert_eq!(
        RawMapObject::Grass.classify(),
        MapObjectVariant::Background(BackgroundVariant::Grass)
    );
}
