use fire_ant_control::drivers::bldc::{ClosedLoopStep, CommutationState, PhaseState, BLDC};
use PhaseState::{DISABLED, HIGH, LOW};

const ALL_STATES: [CommutationState; 6] = [
    CommutationState::State0,
    CommutationState::State1,
    CommutationState::State2,
    CommutationState::State3,
    CommutationState::State4,
    CommutationState::State5,
];

#[test]
fn next_cycles_through_six_states() {
    for (i, s) in ALL_STATES.iter().enumerate() {
        assert_eq!(s.next(), ALL_STATES[(i + 1) % 6]);
        let mut t = *s;
        for _ in 0..6 {
            t = t.next();
        }
        assert_eq!(t, *s);
    }
}

#[test]
fn phase_drive_matches_documented_pattern() {
    assert_eq!(CommutationState::State0.phase_drive(), (HIGH, LOW, DISABLED));
    assert_eq!(CommutationState::State1.phase_drive(), (HIGH, DISABLED, LOW));
    assert_eq!(CommutationState::State2.phase_drive(), (DISABLED, HIGH, LOW));
    assert_eq!(CommutationState::State3.phase_drive(), (LOW, HIGH, DISABLED));
    assert_eq!(CommutationState::State4.phase_drive(), (LOW, DISABLED, HIGH));
    assert_eq!(CommutationState::State5.phase_drive(), (DISABLED, LOW, HIGH));
}

#[test]
fn one_high_one_low_one_floating() {
    for s in ALL_STATES {
        let (a, b, c) = s.phase_drive();
        assert!(a != b && b != c && a != c);
    }
}

#[test]
fn new_controller() {
    let b = BLDC::new();
    assert_eq!(b.get_state(), CommutationState::State0);
    assert_eq!(b.get_last_commutation(), 0);
}

#[test]
fn progress_advances_state() {
    let mut b = BLDC::new();
    b.progress();
    assert_eq!(b.get_state(), CommutationState::State1);
    for _ in 0..5 {
        b.progress();
    }
    assert_eq!(b.get_state(), CommutationState::State0);
}

#[test]
fn open_loop_zero_target_never_commutates() {
    let mut b = BLDC::new();
    assert_eq!(b.open_loop(1_000_000), (true, false));
    assert_eq!(b.get_state(), CommutationState::State0);
    assert_eq!(b.get_last_commutation(), 0);
}

#[test]
fn open_loop_commutates_after_delay() {
    // 42 commutations per rotation at 10 rps: 420 per second, 2380 us apart.
    let mut b = BLDC::new();
    b.set_target_rps(10);
    assert_eq!(b.open_loop(2380), (true, false));
    assert_eq!(b.get_state(), CommutationState::State0);
    assert_eq!(b.open_loop(2381), (false, true));
    assert_eq!(b.get_state(), CommutationState::State1);
    assert_eq!(b.get_last_commutation(), 2381);
    assert_eq!(b.open_loop(4000), (false, false));
    assert_eq!(b.get_last_commutation(), 2381);
}

#[test]
fn open_loop_catches_up_to_now() {
    let mut b = BLDC::new();
    b.set_target_rps(100);
    // Far behind: the commutation is stamped with the current time.
    assert_eq!(b.open_loop(1_000_000), (false, true));
    assert_eq!(b.get_last_commutation(), 1_000_000);
}

#[test]
fn open_loop_reports_state0() {
    let mut b = BLDC::new();
    b.set_target_rps(200);
    let mut t = 0u64;
    let mut seen = Vec::new();
    for _ in 0..6 {
        t += 200;
        let (at_start, commutated) = b.open_loop(t);
        assert!(commutated);
        seen.push(at_start);
    }
    assert_eq!(seen, vec![false, false, false, false, false, true]);
}

#[test]
fn closed_loop_state2_commutates_on_falling_phase() {
    let mut b = BLDC::new();
    b.progress();
    b.progress();
    assert_eq!(b.get_state(), CommutationState::State2);
    // Too soon after the last commutation.
    assert_eq!(b.closed_loop_at(60, true), ClosedLoopStep { commutated: false, sampled: true });
    // Not falling.
    assert_eq!(b.closed_loop_at(500, false), ClosedLoopStep { commutated: false, sampled: true });
    assert_eq!(b.closed_loop_at(500, true), ClosedLoopStep { commutated: true, sampled: true });
    assert_eq!(b.get_state(), CommutationState::State3);
    assert_eq!(b.get_last_commutation(), 500);
}

#[test]
fn closed_loop_runs_open_loop_elsewhere() {
    let mut b = BLDC::new();
    b.set_target_rps(10);
    assert_eq!(b.closed_loop_at(5000, true), ClosedLoopStep { commutated: true, sampled: false });
    assert_eq!(b.get_state(), CommutationState::State1);
    assert_eq!(b.get_last_commutation(), 5000);
}

#[test]
fn closed_loop_with_clock_and_zero_target() {
    let mut b = BLDC::new();
    let step = b.closed_loop(true);
    assert_eq!(step, ClosedLoopStep { commutated: false, sampled: false });
    assert_eq!(b.get_state(), CommutationState::State0);
}

#[test]
fn open_loop_readiness() {
    let mut b = BLDC::new();
    assert!(b.can_run_open_loop());
    b.set_target_rps(-1);
    assert!(!b.can_run_open_loop());
    b.set_target_rps(i16::MAX);
    assert!(b.can_run_open_loop());
}
