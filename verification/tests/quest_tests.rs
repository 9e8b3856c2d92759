//! Quest state machine behaviour over synthetic event streams.

use adventurers::progress::{Quest, QuestProgress, QuestStatus, Reset};
use adventurers::quest::{CompoundQuest, GameQuest, PickupQuest, StepQuest, SubQuest};
use adventurers::utils::{BackgroundVariant, Event, Position};

fn move_to(bg: BackgroundVariant) -> Event {
    Event::MoveTo(Position(0, 0), Some(bg))
}

#[test]
fn quest_progress_walks_through_all_steps() {
    let mut p = QuestProgress::new(3);
    assert_eq!(p.progress(), Some((1, 3)));
    assert!(!p.is_completed());
    assert!(p.next());
    assert_eq!(p.progress(), Some((2, 3)));
    assert!(p.next());
    assert_eq!(p.progress(), Some((3, 3)));
    assert!(p.next());
    assert!(p.is_completed());
    assert_eq!(p.progress(), None);
    assert!(!p.next());
    assert!(p.is_completed());
}

#[test]
fn quest_progress_reset_goes_back_to_first_step() {
    let mut p = QuestProgress::new(2);
    p.next();
    p.reset();
    assert_eq!(p.progress(), Some((1, 2)));
    p.next();
    p.next();
    assert!(p.is_completed());
    p.reset();
    assert_eq!(p.status, QuestStatus::Pending(1));
}

#[test]
fn quest_progress_single_step_completes_at_once() {
    let mut p = QuestProgress::new(1);
    assert!(p.next());
    assert!(p.is_completed());
}

#[test]
fn step_quest_interrupted_streak_starts_over() {
    // Water, Water, Sand, Water, Water, Water: completes only after the
    // final three consecutive Water visits.
    let mut q = StepQuest::new(BackgroundVariant::Water, 3);
    q.update(&move_to(BackgroundVariant::Water));
    q.update(&move_to(BackgroundVariant::Water));
    assert!(!q.is_completed());
    q.update(&move_to(BackgroundVariant::Sand));
    assert!(!q.is_completed());
    assert_eq!(q.status(), QuestStatus::Pending(1));
    q.update(&move_to(BackgroundVariant::Water));
    q.update(&move_to(BackgroundVariant::Water));
    assert!(!q.is_completed());
    q.update(&move_to(BackgroundVariant::Water));
    assert!(q.is_completed());
}

#[test]
fn step_quest_straight_streak_completes_after_exactly_three() {
    let mut q = StepQuest::new(BackgroundVariant::Water, 3);
    q.update(&move_to(BackgroundVariant::Water));
    assert!(!q.is_completed());
    q.update(&move_to(BackgroundVariant::Water));
    assert!(!q.is_completed());
    q.update(&move_to(BackgroundVariant::Water));
    assert!(q.is_completed());
}

#[test]
fn step_quest_ignores_non_move_events() {
    let mut q = StepQuest::new(BackgroundVariant::Water, 2);
    q.update(&move_to(BackgroundVariant::Water));
    q.update(&Event::Pickup('x'));
    assert_eq!(q.status(), QuestStatus::Pending(2));
    q.update(&move_to(BackgroundVariant::Water));
    assert!(q.is_completed());
}

#[test]
fn step_quest_move_without_background_resets() {
    let mut q = StepQuest::new(BackgroundVariant::Water, 2);
    q.update(&move_to(BackgroundVariant::Water));
    q.update(&Event::MoveTo(Position(5, 5), None));
    assert_eq!(q.status(), QuestStatus::Pending(1));
}

#[test]
fn pickup_quest_two_matching_pickups_complete_it() {
    let mut q = PickupQuest::new('x', 2);
    q.update(&Event::Pickup('x'));
    q.update(&move_to(BackgroundVariant::Sand));
    q.update(&Event::MoveTo(Position(1, 1), None));
    assert!(!q.is_completed());
    q.update(&Event::Pickup('x'));
    assert!(q.is_completed());
}

#[test]
fn pickup_quest_other_items_never_advance_it() {
    let mut q = PickupQuest::new('x', 2);
    q.update(&Event::Pickup('y'));
    q.update(&Event::Pickup('y'));
    q.update(&Event::Pickup('y'));
    assert_eq!(q.status(), QuestStatus::Pending(1));
}

#[test]
fn pickup_quest_unrelated_events_do_not_reset_progress() {
    let mut q = PickupQuest::new('x', 2);
    q.update(&Event::Pickup('x'));
    q.update(&move_to(BackgroundVariant::Grass));
    q.update(&Event::Pickup('y'));
    assert_eq!(q.status(), QuestStatus::Pending(2));
}

#[test]
fn compound_quest_gates_events_sequentially() {
    // A pickup before any water visit has no effect: the pickup part is
    // not yet active.  One water visit completes part one; then one
    // pickup completes the compound.
    let q1 = StepQuest::new(BackgroundVariant::Water, 1);
    let q2 = PickupQuest::new('x', 1);
    let mut q = CompoundQuest::new(vec![SubQuest::Step(q1), SubQuest::Pickup(q2)]);
    q.update(&Event::Pickup('x'));
    assert_eq!(q.status(), QuestStatus::Pending(1));
    q.update(&move_to(BackgroundVariant::Water));
    assert_eq!(q.status(), QuestStatus::Pending(2));
    assert!(!q.is_completed());
    q.update(&Event::Pickup('x'));
    assert!(q.is_completed());
}

#[test]
fn compound_quest_completed_ignores_further_events() {
    let q1 = StepQuest::new(BackgroundVariant::Water, 1);
    let mut q = CompoundQuest::new(vec![SubQuest::Step(q1)]);
    q.update(&move_to(BackgroundVariant::Water));
    assert!(q.is_completed());
    q.update(&move_to(BackgroundVariant::Water));
    q.update(&Event::Pickup('x'));
    assert!(q.is_completed());
}

#[test]
fn game_quest_dispatches_to_its_variant() {
    let mut q = GameQuest::Step(StepQuest::new(BackgroundVariant::Sand, 1));
    assert_eq!(q.status(), QuestStatus::Pending(1));
    q.update(&move_to(BackgroundVariant::Sand));
    assert!(q.is_completed());
    q.reset();
    assert_eq!(q.status(), QuestStatus::Pending(1));
}

#[test]
fn step_quest_text_shows_progress_and_completion() {
    let mut q = StepQuest::new(BackgroundVariant::Water, 5);
    assert_eq!(q.text(), "walk on 5 Water tile(s).(0/5)");
    q.update(&move_to(BackgroundVariant::Water));
    q.update(&move_to(BackgroundVariant::Water));
    assert_eq!(q.text(), "walk on 5 Water tile(s).(2/5)");
    q.update(&move_to(BackgroundVariant::Water));
    q.update(&move_to(BackgroundVariant::Water));
    q.update(&move_to(BackgroundVariant::Water));
    assert_eq!(q.text(), "walk on 5 Water tile(s).(Completed)");
}

#[test]
fn pickup_quest_text_shows_item_and_progress() {
    let mut q = PickupQuest::new('x', 3);
    assert_eq!(q.text(), "pickup 3 x(s).(0/3)");
    q.update(&Event::Pickup('x'));
    assert_eq!(q.text(), "pickup 3 x(s).(1/3)");
}

#[test]
fn compound_quest_text_names_the_active_part() {
    let q1 = StepQuest::new(BackgroundVariant::Water, 1);
    let q2 = PickupQuest::new('x', 2);
    let mut q = CompoundQuest::new(vec![SubQuest::Step(q1), SubQuest::Pickup(q2)]);
    assert_eq!(q.text(), "1/2: walk on 1 Water tile(s).(0/1)");
    q.update(&move_to(BackgroundVariant::Water));
    assert_eq!(q.text(), "2/2: pickup 2 x(s).(0/2)");
    q.update(&Event::Pickup('x'));
    q.update(&Event::Pickup('x'));
    assert_eq!(q.text(), "Completed");
}

#[test]
fn decimal_rendering_is_exact() {
    assert_eq!(adventurers::text::decimal_string(0), "0");
    assert_eq!(adventurers::text::decimal_string(7), "7");
    assert_eq!(adventurers::text::decimal_string(10), "10");
    assert_eq!(adventurers::text::decimal_string(12345), "12345");
    assert_eq!(adventurers::text::decimal_string(1000), "1000");
}
