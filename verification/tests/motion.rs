use audio_capture::devices::select_output_device;
use audio_capture::trajectory::{
    plan_from_durations, EmitterState, Position, TrajectoryController,
};

fn centered_emitter() -> EmitterState {
    EmitterState {
        position: Position { x: 0, y: 0, z: 0 },
        listener_position: Position { x: 0, y: 0, z: 0 },
        left_ear: Position { x: -1_000_000, y: 0, z: 0 },
        right_ear: Position { x: 1_000_000, y: 0, z: 0 },
    }
}

#[test]
fn plan_derives_step_count_and_magnitude() {
    // five seconds of motion over five units, ticking every ten milliseconds:
    // 500 steps of one hundredth of a unit (10_000 micro-units)
    let plan = plan_from_durations(5000, 5_000_000, 10, 5).unwrap();
    assert_eq!(plan.num_steps, 500);
    assert_eq!(plan.step_micro, 10_000);
    assert_eq!(plan.repeats, 5);
}

#[test]
fn plan_rejects_zero_tick_and_short_duration() {
    assert!(plan_from_durations(5000, 5_000_000, 0, 5).is_none());
    assert!(plan_from_durations(5, 5_000_000, 10, 5).is_none());
}

#[test]
fn cycle_reaches_extremes_and_returns_to_origin() {
    let plan = plan_from_durations(5000, 5_000_000, 10, 5).unwrap();
    let mut controller = TrajectoryController::start(plan, centered_emitter());
    let mut x_after_phase1: i64 = 0;
    let mut x_after_phase2: i64 = 0;
    for _ in 0..500 {
        x_after_phase1 = controller.advance_tick().x;
    }
    // after the outward phase the emitter stands at the peak distance
    assert_eq!(x_after_phase1, 5_000_000);
    for _ in 0..1000 {
        x_after_phase2 = controller.advance_tick().x;
    }
    // after the return phase it stands at the symmetric opposite extreme
    assert_eq!(x_after_phase2, -5_000_000);
    let mut x_after_cycle: i64 = 0;
    for _ in 0..500 {
        x_after_cycle = controller.advance_tick().x;
    }
    // one full repeat returns it exactly to its starting position
    assert_eq!(x_after_cycle, 0);
    assert_eq!(controller.cycles_done, 1);
    assert!(!controller.finished());
}

#[test]
fn controller_finishes_after_configured_repeats() {
    let plan = plan_from_durations(100, 600_000, 10, 3).unwrap();
    assert_eq!(plan.num_steps, 10);
    assert_eq!(plan.step_micro, 60_000);
    let mut controller = TrajectoryController::start(plan, centered_emitter());
    let mut ticks: u64 = 0;
    while !controller.finished() {
        controller.advance_tick();
        ticks += 1;
    }
    // three repeats of a forty-tick cycle, ending back at the origin
    assert_eq!(ticks, 120);
    assert_eq!(controller.emitter.position.x, 0);
}

#[test]
fn only_the_emitter_moves() {
    let plan = plan_from_durations(100, 600_000, 10, 1).unwrap();
    let start = centered_emitter();
    let mut controller = TrajectoryController::start(plan, start);
    controller.advance_tick();
    assert_eq!(controller.emitter.position.x, 60_000);
    assert_eq!(controller.emitter.position.y, 0);
    assert_eq!(controller.emitter.position.z, 0);
    assert_eq!(controller.emitter.listener_position, start.listener_position);
    assert_eq!(controller.emitter.left_ear, start.left_ear);
    assert_eq!(controller.emitter.right_ear, start.right_ear);
}

#[test]
fn selects_last_matching_device() {
    let names: Vec<String> = vec![
        String::from("speakers"),
        String::from("headset"),
        String::from("speakers"),
        String::from("monitor"),
    ];
    assert_eq!(select_output_device(&names, &String::from("speakers")), Some(2));
    assert_eq!(select_output_device(&names, &String::from("headset")), Some(1));
    assert_eq!(select_output_device(&names, &String::from("virtual")), None);
    assert_eq!(select_output_device(&Vec::new(), &String::from("speakers")), None);
}
