use microwave::{flags, simple, MicrowaveOps};

fn shown<T: MicrowaveOps>(mw: &T) -> (bool, bool, usize) {
    (mw.door_open(), mw.magnetron_enabled(), mw.time_remain())
}

const OPEN: bool = true;
const CLOSED: bool = false;
const ON: bool = true;
const OFF: bool = false;

fn running_for<T: MicrowaveOps>(t: usize) -> T {
    let mut mw = T::new();
    mw.action_set_time(t);
    mw.action_start();
    assert_eq!(shown(&mw), (CLOSED, ON, t));
    mw
}

fn countdown_from_two<T: MicrowaveOps>() {
    let mut mw: T = running_for(2);
    mw.tick();
    assert_eq!(shown(&mw), (CLOSED, ON, 1));
    mw.tick();
    assert_eq!(shown(&mw), (CLOSED, OFF, 0));
}

#[test]
fn countdown_from_two_simple() {
    countdown_from_two::<simple::Microwave>();
}

#[test]
fn countdown_from_two_flags() {
    countdown_from_two::<flags::Microwave>();
}

fn additive_start<T: MicrowaveOps>() {
    let mut mw = T::new();
    mw.action_start();
    assert_eq!(shown(&mw), (CLOSED, ON, 30));
    mw.action_start();
    assert_eq!(shown(&mw), (CLOSED, ON, 60));
}

#[test]
fn additive_start_simple() {
    additive_start::<simple::Microwave>();
}

#[test]
fn additive_start_flags() {
    additive_start::<flags::Microwave>();
}

fn door_open_stops_heating<T: MicrowaveOps>() {
    let mut mw: T = running_for(59);
    mw.action_open_door();
    assert_eq!(shown(&mw), (OPEN, OFF, 59));
}

#[test]
fn door_open_stops_heating_simple() {
    door_open_stops_heating::<simple::Microwave>();
}

#[test]
fn door_open_stops_heating_flags() {
    door_open_stops_heating::<flags::Microwave>();
}

fn set_time_ignored_while_heating<T: MicrowaveOps>() {
    let mut mw: T = running_for(30);
    mw.action_set_time(45);
    assert_eq!(shown(&mw), (CLOSED, ON, 30));
}

#[test]
fn set_time_ignored_while_heating_simple() {
    set_time_ignored_while_heating::<simple::Microwave>();
}

#[test]
fn set_time_ignored_while_heating_flags() {
    set_time_ignored_while_heating::<flags::Microwave>();
}

fn end_to_end<T: MicrowaveOps>() {
    let mut mw = T::new();
    mw.action_open_door();
    mw.reset();
    mw.action_close_door();
    assert_eq!(shown(&mw), (CLOSED, OFF, 0));
    mw.action_set_time(2);
    assert_eq!(shown(&mw), (CLOSED, OFF, 2));
    mw.action_start();
    assert_eq!(shown(&mw), (CLOSED, ON, 2));
    mw.tick();
    assert_eq!(shown(&mw), (CLOSED, ON, 1));
    mw.tick();
    assert_eq!(shown(&mw), (CLOSED, OFF, 0));
}

#[test]
fn end_to_end_simple() {
    end_to_end::<simple::Microwave>();
}

#[test]
fn end_to_end_flags() {
    end_to_end::<flags::Microwave>();
}

fn door_actions_idempotent<T: MicrowaveOps>() {
    let mut mw: T = running_for(17);
    mw.action_close_door();
    assert_eq!(shown(&mw), (CLOSED, ON, 17));
    mw.action_open_door();
    mw.action_open_door();
    assert_eq!(shown(&mw), (OPEN, OFF, 17));
    mw.action_close_door();
    mw.action_close_door();
    assert_eq!(shown(&mw), (CLOSED, OFF, 17));
}

#[test]
fn door_actions_idempotent_simple() {
    door_actions_idempotent::<simple::Microwave>();
}

#[test]
fn door_actions_idempotent_flags() {
    door_actions_idempotent::<flags::Microwave>();
}

fn stop_with_door_open_clears_time<T: MicrowaveOps>() {
    let mut mw: T = running_for(40);
    mw.action_open_door();
    mw.action_stop();
    assert_eq!(shown(&mw), (OPEN, OFF, 0));
    mw.action_close_door();
    assert_eq!(shown(&mw), (CLOSED, OFF, 0));
}

#[test]
fn stop_with_door_open_clears_time_simple() {
    stop_with_door_open_clears_time::<simple::Microwave>();
}

#[test]
fn stop_with_door_open_clears_time_flags() {
    stop_with_door_open_clears_time::<flags::Microwave>();
}

fn zero_time_means_no_time<T: MicrowaveOps>() {
    let mut mw = T::new();
    mw.action_set_time(9);
    mw.action_set_time(0);
    assert_eq!(shown(&mw), (CLOSED, OFF, 0));
    // with no time set, start runs for the default time, never for zero
    mw.action_start();
    assert_eq!(shown(&mw), (CLOSED, ON, 30));
}

#[test]
fn zero_time_means_no_time_simple() {
    zero_time_means_no_time::<simple::Microwave>();
}

#[test]
fn zero_time_means_no_time_flags() {
    zero_time_means_no_time::<flags::Microwave>();
}

fn start_saturates<T: MicrowaveOps>() {
    let mut mw: T = running_for(usize::MAX - 20);
    mw.action_start();
    assert_eq!(shown(&mw), (CLOSED, ON, usize::MAX));
    mw.action_start();
    assert_eq!(shown(&mw), (CLOSED, ON, usize::MAX));
    mw.tick();
    assert_eq!(shown(&mw), (CLOSED, ON, usize::MAX - 1));
}

#[test]
fn start_saturates_simple() {
    start_saturates::<simple::Microwave>();
}

#[test]
fn start_saturates_flags() {
    start_saturates::<flags::Microwave>();
}

// Drives an oven through a long, varied run and checks the safety
// conditions after every operation.
fn always_safe<T: MicrowaveOps>() {
    let mut mw = T::new();
    let mut seed: u64 = 12345;
    for _ in 0..5000 {
        seed = seed.wrapping_mul(6364136223846793005).wrapping_add(1442695040888963407);
        match (seed >> 33) % 8 {
            0 => mw.tick(),
            1 => mw.action_open_door(),
            2 => mw.action_close_door(),
            3 => mw.action_set_time(((seed >> 40) % 4) as usize),
            4 => mw.action_start(),
            5 => mw.action_stop(),
            6 => mw.tick(),
            _ => {
                if (seed >> 45) % 16 == 0 {
                    mw.reset()
                } else {
                    mw.action_close_door()
                }
            }
        }
        if mw.magnetron_enabled() {
            assert!(!mw.door_open());
            assert!(mw.time_remain() > 0);
        }
    }
}

#[test]
fn always_safe_simple() {
    always_safe::<simple::Microwave>();
}

#[test]
fn always_safe_flags() {
    always_safe::<flags::Microwave>();
}

#[test]
fn both_ovens_agree() {
    let mut a = simple::Microwave::new();
    let mut b = flags::Microwave::new();
    let mut seed: u64 = 99;
    for _ in 0..5000 {
        seed = seed.wrapping_mul(6364136223846793005).wrapping_add(1442695040888963407);
        let t = ((seed >> 40) % 5) as usize;
        match (seed >> 33) % 7 {
            0 => {
                a.tick();
                b.tick()
            }
            1 => {
                a.action_open_door();
                b.action_open_door()
            }
            2 => {
                a.action_close_door();
                b.action_close_door()
            }
            3 => {
                a.action_set_time(t);
                b.action_set_time(t)
            }
            4 => {
                a.action_start();
                b.action_start()
            }
            5 => {
                a.action_stop();
                b.action_stop()
            }
            _ => {
                a.reset();
                b.reset()
            }
        }
        assert_eq!(shown(&a), shown(&b));
    }
}
