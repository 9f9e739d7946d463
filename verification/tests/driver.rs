use gravitation::driver::{
    draw_fresh_stars, plan_iteration, CommandSlot, ThreadCommand, WorkerStep,
};
use gravitation::world::draw_stars;

#[test]
fn a_waiting_reset_makes_the_worker_rebuild() {
    assert_eq!(plan_iteration(Some(ThreadCommand::Reset)), WorkerStep::Rebuild);
}

#[test]
fn nothing_waiting_makes_the_worker_advance() {
    assert_eq!(plan_iteration(None), WorkerStep::Advance);
}

#[test]
fn a_new_slot_is_empty() {
    let mut slot = CommandSlot::new();
    assert_eq!(slot.poll(), None);
}

#[test]
fn a_request_is_polled_once() {
    let mut slot = CommandSlot::new();
    slot.request(ThreadCommand::Reset);
    assert_eq!(slot.poll(), Some(ThreadCommand::Reset));
    assert_eq!(slot.poll(), None);
}

#[test]
fn repeated_requests_are_one_request() {
    let mut slot = CommandSlot::new();
    slot.request(ThreadCommand::Reset);
    slot.request(ThreadCommand::Reset);
    slot.request(ThreadCommand::Reset);
    assert_eq!(plan_iteration(slot.poll()), WorkerStep::Rebuild);
    assert_eq!(plan_iteration(slot.poll()), WorkerStep::Advance);
}

#[test]
fn fresh_stars_are_those_of_the_seed_handed_back() {
    let (seed, stars) = draw_fresh_stars(100);
    assert_eq!(stars.len(), 100);
    assert_eq!(stars, draw_stars(100, Some(seed)));
}

#[test]
fn fresh_stars_differ_from_one_draw_to_the_next() {
    let (seed_a, stars_a) = draw_fresh_stars(100);
    let (seed_b, stars_b) = draw_fresh_stars(100);
    assert_ne!(seed_a, seed_b);
    assert_ne!(stars_a, stars_b);
}

#[test]
fn a_reset_is_served_by_the_next_iteration_with_a_world_of_the_same_size() {
    let star_count = 300usize;
    let (_, before) = draw_fresh_stars(star_count);
    let mut slot = CommandSlot::new();
    assert_eq!(plan_iteration(slot.poll()), WorkerStep::Advance);
    slot.request(ThreadCommand::Reset);
    assert_eq!(plan_iteration(slot.poll()), WorkerStep::Rebuild);
    let (_, after) = draw_fresh_stars(star_count);
    assert_eq!(after.len(), star_count);
    assert_ne!(before, after);
}
