//! Whole-game behaviour: movement, oxygen, death and restart, messages,
//! event-driven quest progress and the viewport follow.

use adventurers::game::{GameState, GameStatus};
use adventurers::map::PLAYER_ICON;
use adventurers::utils::{BackgroundVariant, Event, Key, MessageType, Position, RawMapObject};
use adventurers::viewport::axis_step;

fn game_with(entries: Vec<(Position, RawMapObject)>) -> GameState {
    let mut g = GameState::new(entries);
    g.set_screen_size(20, 10, 5);
    // Flush the initial draw of the freshly loaded map.
    g.on_tick();
    g
}

fn step(g: &mut GameState, key: Key) {
    g.on_event(key);
    g.on_tick();
}

#[test]
fn the_run_starts_at_the_start_position_with_full_oxygen() {
    let g = game_with(vec![(Position(0, 0), RawMapObject::Grass)]);
    assert_eq!(g.player.position, Position(3, 3));
    assert_eq!(g.player.oxygen, 10);
    assert!(g.player.bag.is_empty());
    assert_eq!(g.game_status, GameStatus::Running);
}

#[test]
fn the_first_tick_draws_every_listed_position_and_the_player() {
    let mut g = GameState::new(vec![
        (Position(0, 0), RawMapObject::Grass),
        (Position(1, 0), RawMapObject::Water),
    ]);
    g.set_screen_size(20, 10, 5);
    let draws = g.on_tick();
    assert_eq!(draws.len(), 3);
    assert_eq!(draws[2].0, Position(3, 3));
    assert_eq!(draws[2].1.unwrap().glyph, PLAYER_ICON);
    // Nothing left to draw on a tick without movement.
    assert!(g.on_tick().is_empty());
}

#[test]
fn walking_moves_one_cell_per_tick() {
    let mut g = game_with(vec![]);
    step(&mut g, Key::Right);
    assert_eq!(g.player.position, Position(4, 3));
    step(&mut g, Key::Down);
    assert_eq!(g.player.position, Position(4, 4));
    step(&mut g, Key::Left);
    step(&mut g, Key::Up);
    assert_eq!(g.player.position, Position(3, 3));
}

#[test]
fn a_barrier_rejects_the_move_and_changes_nothing() {
    let mut g = game_with(vec![(Position(4, 3), RawMapObject::Barrier)]);
    for _ in 0..5 {
        step(&mut g, Key::Right);
        assert_eq!(g.player.position, Position(3, 3));
        assert_eq!(g.player.oxygen, 10);
        assert!(g.player.bag.is_empty());
        assert_eq!(g.game_status, GameStatus::Running);
    }
}

#[test]
fn a_blocked_move_emits_no_event() {
    let mut g = game_with(vec![(Position(4, 3), RawMapObject::Barrier)]);
    g.on_event(Key::Right);
    g.update_player_position();
    assert!(g.events.is_empty());
}

#[test]
fn a_successful_move_emits_the_move_event() {
    let mut g = game_with(vec![(Position(4, 3), RawMapObject::Water)]);
    g.on_event(Key::Right);
    g.update_player_position();
    assert_eq!(
        g.events,
        vec![Event::MoveTo(Position(4, 3), Some(BackgroundVariant::Water))]
    );
}

#[test]
fn oxygen_drains_on_water_and_refills_on_land() {
    let mut g = game_with(vec![
        (Position(4, 3), RawMapObject::Water),
        (Position(5, 3), RawMapObject::Water),
        (Position(6, 3), RawMapObject::Sand),
    ]);
    step(&mut g, Key::Right);
    assert_eq!(g.player.oxygen, 9);
    step(&mut g, Key::Right);
    assert_eq!(g.player.oxygen, 8);
    step(&mut g, Key::Right);
    assert_eq!(g.player.oxygen, 10);
}

fn water_row(from_x: i32, to_x: i32) -> Vec<(Position, RawMapObject)> {
    (from_x..=to_x).map(|x| (Position(x, 3), RawMapObject::Water)).collect()
}

#[test]
fn drowning_ends_the_run_the_same_tick_oxygen_hits_zero() {
    let mut g = game_with(water_row(4, 13));
    for i in 1..=9 {
        step(&mut g, Key::Right);
        assert_eq!(g.player.oxygen, 10 - i);
        assert_eq!(g.game_status, GameStatus::Running);
    }
    step(&mut g, Key::Right);
    assert_eq!(g.player.oxygen, 0);
    assert_eq!(g.game_status, GameStatus::Died);
    match &g.message {
        MessageType::Death(text) => {
            assert_eq!(text, "You died from drown, press Enter to restart")
        }
        other => panic!("expected a death message, got {:?}", other),
    }
}

#[test]
fn a_dead_game_ignores_movement_until_restart() {
    let mut g = game_with(water_row(4, 13));
    for _ in 0..10 {
        step(&mut g, Key::Right);
    }
    assert_eq!(g.game_status, GameStatus::Died);
    let died_at = g.player.position;
    step(&mut g, Key::Right);
    step(&mut g, Key::Left);
    step(&mut g, Key::Up);
    assert_eq!(g.player.position, died_at);
    assert_eq!(g.player.oxygen, 0);
    assert_eq!(g.game_status, GameStatus::Died);
    assert!(matches!(g.message, MessageType::Death(_)));
}

#[test]
fn restart_resets_the_run_and_rederives_the_map() {
    let mut entries = vec![(Position(4, 3), RawMapObject::Object('x'))];
    entries.extend(water_row(5, 14));
    let mut g = game_with(entries);
    // Pick up the object, then drown on the water row behind it.
    step(&mut g, Key::Right);
    assert_eq!(g.player.bag, vec!['x']);
    for _ in 0..10 {
        step(&mut g, Key::Right);
    }
    assert_eq!(g.game_status, GameStatus::Died);
    g.on_event(Key::Enter);
    assert_eq!(g.game_status, GameStatus::Running);
    assert_eq!(g.player.position, Position(3, 3));
    assert_eq!(g.player.oxygen, 10);
    assert!(g.player.bag.is_empty());
    assert!(matches!(g.message, MessageType::Empty));
    // The consumed object reappears: the layers are re-derived from the
    // static map, so it can be picked up again.
    g.on_tick();
    step(&mut g, Key::Right);
    assert_eq!(g.player.bag, vec!['x']);
}

#[test]
fn picking_up_consumes_the_object_and_logs_the_event() {
    let mut g = game_with(vec![(Position(4, 3), RawMapObject::Object('q'))]);
    g.on_event(Key::Right);
    g.update_player_position();
    assert_eq!(
        g.events,
        vec![
            Event::MoveTo(Position(4, 3), None),
            Event::Pickup('q'),
        ]
    );
    assert_eq!(g.player.bag, vec!['q']);
    assert!(matches!(g.message, MessageType::Pickup('q')));
    // Walking back and forth does not yield a second copy.
    g.on_tick();
    step(&mut g, Key::Left);
    step(&mut g, Key::Right);
    assert_eq!(g.player.bag, vec!['q']);
}

#[test]
fn signs_show_while_standing_on_them_and_clear_on_leaving() {
    let mut g = game_with(vec![
        (Position(4, 3), RawMapObject::Sign(String::from("beware of water"))),
    ]);
    step(&mut g, Key::Right);
    match &g.message {
        MessageType::Sign(text) => assert_eq!(text, "beware of water"),
        other => panic!("expected a sign message, got {:?}", other),
    }
    step(&mut g, Key::Right);
    assert!(matches!(g.message, MessageType::Empty));
}

#[test]
fn quests_progress_from_the_event_log() {
    let mut g = game_with(water_row(4, 5));
    step(&mut g, Key::Right);
    g.on_event(Key::Char('q'));
    match &g.message {
        MessageType::Quest(text) => assert_eq!(text, "1/2: walk on 5 Water tile(s).(1/5)"),
        other => panic!("expected the quest message, got {:?}", other),
    }
    // Toggling again closes the quest view.
    g.on_event(Key::Char('q'));
    assert!(matches!(g.message, MessageType::Empty));
}

#[test]
fn leaving_water_resets_the_step_quest_streak() {
    let mut g = game_with(vec![
        (Position(4, 3), RawMapObject::Water),
        (Position(5, 3), RawMapObject::Sand),
    ]);
    step(&mut g, Key::Right);
    step(&mut g, Key::Right);
    g.on_event(Key::Char('q'));
    match &g.message {
        MessageType::Quest(text) => assert_eq!(text, "1/2: walk on 5 Water tile(s).(0/5)"),
        other => panic!("expected the quest message, got {:?}", other),
    }
}

#[test]
fn debug_and_bag_views_toggle() {
    let mut g = game_with(vec![(Position(4, 3), RawMapObject::Object('x'))]);
    g.on_event(Key::Char('t'));
    assert!(matches!(g.message, MessageType::Debug(Position(3, 3))));
    g.on_event(Key::Char('t'));
    assert!(matches!(g.message, MessageType::Empty));
    step(&mut g, Key::Right);
    g.on_event(Key::Char('b'));
    match &g.message {
        MessageType::Bag(bag) => assert_eq!(bag, &vec!['x']),
        other => panic!("expected the bag message, got {:?}", other),
    }
    g.on_event(Key::Char('b'));
    assert!(matches!(g.message, MessageType::Empty));
}

#[test]
fn opposite_directions_in_one_tick_cancel_out() {
    let mut g = game_with(vec![]);
    g.on_event(Key::Left);
    g.on_event(Key::Right);
    g.on_tick();
    assert_eq!(g.player.position, Position(3, 3));
}

#[test]
fn the_viewport_follows_one_cell_per_tick_without_overshooting() {
    let mut g = game_with(vec![]);
    assert_eq!(g.viewport_position, Position(0, 0));
    // Walking to x = 2 keeps the left margin at the padding: no scroll.
    step(&mut g, Key::Left);
    assert_eq!(g.viewport_position, Position(0, 0));
    // x = 1: margin below the padding, the viewport moves one cell.
    step(&mut g, Key::Left);
    assert_eq!(g.viewport_position, Position(-1, 0));
    // x = 0: again exactly one cell.
    step(&mut g, Key::Left);
    assert_eq!(g.viewport_position, Position(-2, 0));
    // Standing still: the margin is back at the padding, no further move.
    g.on_tick();
    assert_eq!(g.viewport_position, Position(-2, 0));
}

#[test]
fn the_viewport_axis_rule_converges_to_the_padding() {
    // Span 18 (a width of 20): starting at margin 0 the viewport walks
    // one cell per tick until the margin is exactly the padding.
    let mut v = 0;
    let trace: Vec<i32> = (0..4)
        .map(|_| {
            v = axis_step(v, 0, 18);
            v
        })
        .collect();
    assert_eq!(trace, vec![-1, -2, -2, -2]);
    // The high margin pulls the other way.
    assert_eq!(axis_step(0, 17, 18), 1);
    // Both margins at the padding: a fixpoint.
    assert_eq!(axis_step(-2, 0, 18), -2);
}

#[test]
fn the_frame_counter_advances_every_tick() {
    let mut g = game_with(vec![]);
    let f = g.frame;
    g.on_tick();
    g.on_tick();
    assert_eq!(g.frame, f + 2);
}
