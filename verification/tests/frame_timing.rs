use newtoast_core::engine_main::{frame_plan, quit_requested, FrameCall};
use newtoast_core::util::timing::{
    InterpolatingTimer, MAX_FRAME_NANOS, NANOS_PER_SECOND, NUM_FRAME_TIMES,
};

/// A sixtieth of a second in whole nanoseconds.
const STEP: u64 = 16_666_666;

fn count(plan: &[FrameCall], call: FrameCall) -> usize {
    plan.iter().filter(|c| **c == call).count()
}

#[test]
fn a_new_timer_has_accumulated_nothing() {
    let timer = InterpolatingTimer::new(STEP, 5_000);
    assert_eq!(timer.timestep(), STEP);
    assert_eq!(timer.accumulator(), 0);
    assert_eq!(timer.elapsed(), 0);
    assert_eq!(timer.latest_frame_time(), 0);
    assert_eq!(timer.averaged_frame_time(), 0);
    assert_eq!(timer.latest_frame_rate(), 0);
    assert_eq!(timer.average_frame_rate(), 0);
}

#[test]
fn a_tenth_of_a_second_gives_six_updates_and_one_draw() {
    let mut timer = InterpolatingTimer::new(STEP, 0);
    let (updates, leftover) = timer.tick(100_000_000);
    assert_eq!(updates, 6);
    assert_eq!(leftover, 100_000_000 - 6 * STEP);
    assert_eq!(leftover, 4);
    let plan = frame_plan(updates, false);
    assert_eq!(count(&plan, FrameCall::Update), 6);
    assert_eq!(count(&plan, FrameCall::Draw), 1);
    assert_eq!(plan.len(), 7);
}

#[test]
fn a_whole_second_is_clamped_to_fifteen_updates() {
    let mut timer = InterpolatingTimer::new(STEP, 0);
    let (updates, leftover) = timer.tick(NANOS_PER_SECOND);
    assert_eq!(MAX_FRAME_NANOS, 250_000_000);
    assert_eq!(updates, 15);
    assert!(updates < 60);
    assert_eq!(leftover, 250_000_000 - 15 * STEP);
    assert_eq!(timer.latest_frame_time(), 250_000_000);
    let plan = frame_plan(updates, false);
    assert_eq!(count(&plan, FrameCall::Update), 15);
    assert_eq!(count(&plan, FrameCall::Draw), 1);
}

#[test]
fn leftover_time_carries_into_the_next_frame() {
    let mut timer = InterpolatingTimer::new(1_000, 0);
    assert_eq!(timer.tick(2_500), (2, 500));
    assert_eq!(timer.accumulator(), 500);
    assert_eq!(timer.tick(3_000), (1, 0));
    assert_eq!(timer.tick(3_999), (0, 999));
    assert_eq!(timer.tick(4_000), (1, 0));
    assert_eq!(timer.elapsed(), 4_000);
}

#[test]
fn a_frame_shorter_than_a_step_gives_no_update_but_one_draw() {
    let mut timer = InterpolatingTimer::new(STEP, 0);
    let (updates, leftover) = timer.tick(1_000_000);
    assert_eq!((updates, leftover), (0, 1_000_000));
    assert_eq!(frame_plan(updates, false), vec![FrameCall::Draw]);
}

#[test]
fn a_clock_that_goes_backwards_counts_as_no_time() {
    let mut timer = InterpolatingTimer::new(1_000, 10_000);
    assert_eq!(timer.tick(4_000), (0, 0));
    assert_eq!(timer.elapsed(), 0);
    assert_eq!(timer.tick(5_500), (1, 500));
}

#[test]
fn the_accumulator_can_push_a_clamped_frame_to_one_more_update() {
    let mut timer = InterpolatingTimer::new(STEP, 0);
    assert_eq!(timer.tick(STEP - 1), (0, STEP - 1));
    let (updates, leftover) = timer.tick(10 * NANOS_PER_SECOND);
    assert_eq!(updates, 16);
    assert_eq!(leftover, STEP - 1 + 250_000_000 - 16 * STEP);
}

#[test]
fn huge_timesteps_and_readings_do_not_overflow() {
    let mut timer = InterpolatingTimer::new(u64::MAX, 0);
    assert_eq!(timer.tick(u64::MAX), (0, 250_000_000));
    let mut timer = InterpolatingTimer::new(1, 0);
    assert_eq!(timer.tick(u64::MAX), (250_000_000, 0));
}

#[test]
fn rates_are_frames_per_second_rounded_down() {
    let mut timer = InterpolatingTimer::new(STEP, 0);
    let mut now = 0;
    for _ in 0..NUM_FRAME_TIMES {
        now += STEP;
        let _ = timer.tick(now);
    }
    assert_eq!(timer.latest_frame_time(), STEP);
    assert_eq!(timer.averaged_frame_time(), STEP);
    assert_eq!(timer.latest_frame_rate(), 60);
    assert_eq!(timer.average_frame_rate(), 60);
}

#[test]
fn the_average_is_taken_over_the_last_sixty_four_frames() {
    assert_eq!(NUM_FRAME_TIMES, 64);
    let mut timer = InterpolatingTimer::new(1_000, 0);
    let _ = timer.tick(6_400);
    assert_eq!(timer.averaged_frame_time(), 100);
    assert_eq!(timer.latest_frame_rate(), NANOS_PER_SECOND / 6_400);
    assert_eq!(timer.average_frame_rate(), 10_000_000);
    let _ = timer.tick(6_400 + 64);
    assert_eq!(timer.averaged_frame_time(), 101);
    let mut now = 6_464;
    for _ in 0..64 {
        now += 128;
        let _ = timer.tick(now);
    }
    assert_eq!(timer.averaged_frame_time(), 128);
}

#[test]
fn reset_starts_over_and_keeps_the_history() {
    let mut timer = InterpolatingTimer::new(1_000, 0);
    let _ = timer.tick(1_500);
    assert_eq!(timer.accumulator(), 500);
    timer.reset(9_000);
    assert_eq!(timer.accumulator(), 0);
    assert_eq!(timer.elapsed(), 0);
    assert_eq!(timer.latest_frame_time(), 1_500);
    assert_eq!(timer.timestep(), 1_000);
    assert_eq!(timer.tick(9_250), (0, 250));
    assert_eq!(timer.elapsed(), 250);
}

#[test]
fn frame_plan_puts_updates_before_the_draw() {
    assert_eq!(
        frame_plan(3, false),
        vec![FrameCall::Update, FrameCall::Update, FrameCall::Update, FrameCall::Draw]
    );
    assert_eq!(frame_plan(0, false), vec![FrameCall::Draw]);
}

#[test]
fn frame_plan_shuts_down_behind_the_last_frame() {
    assert_eq!(
        frame_plan(1, true),
        vec![FrameCall::Update, FrameCall::Draw, FrameCall::Shutdown]
    );
    assert_eq!(frame_plan(0, true), vec![FrameCall::Draw, FrameCall::Shutdown]);
}

#[test]
fn quit_requested_looks_for_the_quit_event() {
    let quit = 0x100;
    assert!(quit_requested(&vec![0x300, 0x100, 0x400], quit));
    assert!(quit_requested(&vec![0x100], quit));
    assert!(!quit_requested(&vec![0x300, 0x400], quit));
    assert!(!quit_requested(&vec![], quit));
}
