use vstd::prelude::*;

verus! {

/// What one half-bridge of a motor phase is driven to.
#[derive(Clone, Copy, Debug, PartialEq, Eq, Structural)]
pub enum PhaseState {
    /// High side switching at the commanded power.
    HIGH,
    /// Low side on: the phase is tied to ground.
    LOW,
    /// Both sides off: the phase floats.
    DISABLED,
}

/// 6-phase commutation state for 3-phase BLDC motor
#[derive(Clone, Copy, Debug, PartialEq, Eq, Structural)]
pub enum CommutationState {
    /// Phase A high, Phase B low
    State0,
    /// Phase A high, Phase C low
    State1,
    /// Phase B high, Phase C low
    State2,
    /// Phase B high, Phase A low
    State3,
    /// Phase C high, Phase A low
    State4,
    /// Phase C high, Phase B low
    State5,
}

impl CommutationState {
    /// The state after this one in the six-step sequence.
    pub open spec fn successor(self) -> CommutationState {
        match self {
            CommutationState::State0 => CommutationState::State1,
            CommutationState::State1 => CommutationState::State2,
            CommutationState::State2 => CommutationState::State3,
            CommutationState::State3 => CommutationState::State4,
            CommutationState::State4 => CommutationState::State5,
            CommutationState::State5 => CommutationState::State0,
        }
    }

    /// Position of the state in the six-step sequence.
    pub open spec fn index(self) -> int {
        match self {
            CommutationState::State0 => 0,
            CommutationState::State1 => 1,
            CommutationState::State2 => 2,
            CommutationState::State3 => 3,
            CommutationState::State4 => 4,
            CommutationState::State5 => 5,
        }
    }

    /// How phases A, B and C are driven in this state.
    pub open spec fn pattern(self) -> (PhaseState, PhaseState, PhaseState) {
        match self {
            CommutationState::State0 => (PhaseState::HIGH, PhaseState::LOW, PhaseState::DISABLED),
            CommutationState::State1 => (PhaseState::HIGH, PhaseState::DISABLED, PhaseState::LOW),
            CommutationState::State2 => (PhaseState::DISABLED, PhaseState::HIGH, PhaseState::LOW),
            CommutationState::State3 => (PhaseState::LOW, PhaseState::HIGH, PhaseState::DISABLED),
            CommutationState::State4 => (PhaseState::LOW, PhaseState::DISABLED, PhaseState::HIGH),
            CommutationState::State5 => (PhaseState::DISABLED, PhaseState::LOW, PhaseState::HIGH),
        }
    }

    /// Get the next commutation state
    pub fn next(self) -> (r: Self)
        ensures
            r == self.successor(),
    {
        match self {
            CommutationState::State0 => CommutationState::State1,
            CommutationState::State1 => CommutationState::State2,
            CommutationState::State2 => CommutationState::State3,
            CommutationState::State3 => CommutationState::State4,
            CommutationState::State4 => CommutationState::State5,
            CommutationState::State5 => CommutationState::State0,
        }
    }

    /// The drive of phases A, B and C for this state, as applied with the
    /// commanded power on the high phase.
    pub fn phase_drive(self) -> (r: (PhaseState, PhaseState, PhaseState))
        ensures
            r == self.pattern(),
    {
        match self {
            CommutationState::State0 => (PhaseState::HIGH, PhaseState::LOW, PhaseState::DISABLED),
            CommutationState::State1 => (PhaseState::HIGH, PhaseState::DISABLED, PhaseState::LOW),
            CommutationState::State2 => (PhaseState::DISABLED, PhaseState::HIGH, PhaseState::LOW),
            CommutationState::State3 => (PhaseState::LOW, PhaseState::HIGH, PhaseState::DISABLED),
            CommutationState::State4 => (PhaseState::LOW, PhaseState::DISABLED, PhaseState::HIGH),
            CommutationState::State5 => (PhaseState::DISABLED, PhaseState::LOW, PhaseState::HIGH),
        }
    }
}

/// The controller's state, field by field.
pub struct BldcModel {
    pub state: CommutationState,
    pub kv: u16,
    pub commutations_per_rotation: u8,
    pub last_update_micros: u64,
    pub last_commutation_micros: u64,
    pub current_commutation_delay_micros: u64,
    pub scheduled_commutation_micros: u64,
    pub bemf_a_sample_valid: bool,
    pub bemf_a_was_above_common: bool,
    pub max_rps: u16,
    pub target_rps: i16,
}

/// The controller as `BLDC::new` leaves it.
pub open spec fn initial_model() -> BldcModel {
    BldcModel {
        state: CommutationState::State0,
        kv: 1750,
        commutations_per_rotation: 42,
        last_update_micros: 0,
        last_commutation_micros: 0,
        current_commutation_delay_micros: 0,
        scheduled_commutation_micros: 0,
        bemf_a_sample_valid: false,
        bemf_a_was_above_common: false,
        max_rps: 200,
        target_rps: 0,
    }
}

/// The model after a commutation step: next state, no scheduled commutation,
/// back-EMF sample invalidated.
pub open spec fn progressed(m: BldcModel) -> BldcModel {
    BldcModel {
        state: m.state.successor(),
        scheduled_commutation_micros: 0,
        bemf_a_sample_valid: false,
        ..m
    }
}

/// Commutations per second for the target speed.
pub open spec fn commutation_rate(m: BldcModel) -> int {
    m.commutations_per_rotation * m.target_rps
}

/// `open_loop` can run on this model without overflow: the target speed is
/// not negative and the next commutation time fits in a `u64`.
pub open spec fn open_loop_ready(m: BldcModel) -> bool {
    &&& m.target_rps >= 0
    &&& commutation_rate(m) != 0 ==> m.last_commutation_micros + 1_000_000int / commutation_rate(
        m,
    ) <= u64::MAX
}

/// An open-loop step at time `micros`: the model after it, and whether it
/// commutated.
pub open spec fn open_loop_model(m: BldcModel, micros: u64) -> (BldcModel, bool) {
    let rate = commutation_rate(m);
    if rate == 0 {
        (BldcModel { last_update_micros: micros, ..m }, false)
    } else {
        let delay = 1_000_000int / rate;
        if m.last_commutation_micros + delay < micros {
            (
                BldcModel {
                    last_update_micros: micros,
                    last_commutation_micros: micros,
                    current_commutation_delay_micros: delay as u64,
                    ..progressed(m)
                },
                true,
            )
        } else {
            (
                BldcModel {
                    last_update_micros: micros,
                    current_commutation_delay_micros: delay as u64,
                    ..m
                },
                false,
            )
        }
    }
}

/// What a closed-loop step did.
#[derive(Clone, Copy, Debug, PartialEq, Eq, Structural)]
pub struct ClosedLoopStep {
    /// The state advanced: drive the phases for the new state.
    pub commutated: bool,
    /// The phase A sample was consumed: keep it as the previous sample.
    pub sampled: bool,
}

/// A closed-loop step at time `now`, where `a_falling` tells whether the
/// phase A voltage fell below the previous sample.
pub open spec fn closed_loop_model(m: BldcModel, now: u64, a_falling: bool) -> (BldcModel, ClosedLoopStep) {
    if m.state == CommutationState::State2 {
        if now - m.last_commutation_micros > 60 && a_falling {
            (
                BldcModel {
                    current_commutation_delay_micros: (now - m.last_commutation_micros) as u64,
                    last_commutation_micros: now,
                    ..progressed(m)
                },
                ClosedLoopStep { commutated: true, sampled: true },
            )
        } else {
            (m, ClosedLoopStep { commutated: false, sampled: true })
        }
    } else {
        let (n, commutated) = open_loop_model(m, now);
        (n, ClosedLoopStep { commutated, sampled: false })
    }
}

/// The current time in microseconds since boot.
///
/// Calls `embassy_time::Instant::now().as_micros()`; nothing is claimed of
/// the value, which comes from the time driver.
#[verifier::external_body]
fn now_micros() -> u64 {
    embassy_time::Instant::now().as_micros()
}

/// BLDC motor controller with 6-phase commutation: the commutation state and
/// timing. The phase drivers belong to the caller, which drives the phases
/// with `CommutationState::phase_drive` whenever a step commutates.
pub struct BLDC {
    state: CommutationState,
    kv: u16,
    commutations_per_rotation: u8,
    last_update_micros: u64,
    last_commutation_micros: u64,
    current_commutation_delay_micros: u64,
    scheduled_commutation_micros: u64,
    bemf_a_sample_valid: bool,
    bemf_a_was_above_common: bool,
    max_rps: u16,
    target_rps: i16,
}

impl View for BLDC {
    type V = BldcModel;

    closed spec fn view(&self) -> BldcModel {
        BldcModel {
            state: self.state,
            kv: self.kv,
            commutations_per_rotation: self.commutations_per_rotation,
            last_update_micros: self.last_update_micros,
            last_commutation_micros: self.last_commutation_micros,
            current_commutation_delay_micros: self.current_commutation_delay_micros,
            scheduled_commutation_micros: self.scheduled_commutation_micros,
            bemf_a_sample_valid: self.bemf_a_sample_valid,
            bemf_a_was_above_common: self.bemf_a_was_above_common,
            max_rps: self.max_rps,
            target_rps: self.target_rps,
        }
    }
}

impl BLDC {
    /// A stopped controller at State0 (1750 kV, 42 commutations per
    /// rotation, 200 rps maximum, target 0 rps).
    pub fn new() -> (r: Self)
        ensures
            r@ == initial_model(),
    {
        BLDC {
            state: CommutationState::State0,
            kv: 1750,
            commutations_per_rotation: 42,
            last_update_micros: 0,
            last_commutation_micros: 0,
            current_commutation_delay_micros: 0,
            scheduled_commutation_micros: 0,
            bemf_a_sample_valid: false,
            bemf_a_was_above_common: false,
            target_rps: 0,
            max_rps: 200,
        }
    }

    /// Advance to the next commutation state
    pub fn progress(&mut self)
        ensures
            final(self)@ == progressed(old(self)@),
    {
        self.state = self.state.next();
        self.scheduled_commutation_micros = 0;
        self.bemf_a_sample_valid = false;
    }

    /// The time of the last commutation, in microseconds.
    pub fn get_last_commutation(&self) -> (r: u64)
        ensures
            r == self@.last_commutation_micros,
    {
        self.last_commutation_micros
    }

    /// One open-loop step at time `micros`: commutate once the commutation
    /// delay for the target speed has passed since the last commutation.
    /// Returns whether the motor is at State0 afterwards, and whether it
    /// commutated (the phases are then to be driven at 0.4 power).
    pub fn open_loop(&mut self, micros: u64) -> (r: (bool, bool))
        requires
            open_loop_ready(old(self)@),
        ensures
            (final(self)@, r.1) == open_loop_model(old(self)@, micros),
            r.0 == (final(self)@.state == CommutationState::State0),
    {
        let cpr: u64 = self.commutations_per_rotation as u64;
        let target: u64 = self.target_rps as u64;
        assert(cpr * target <= 255 * 32767) by (nonlinear_arith)
            requires
                cpr <= 255,
                target <= 32767,
        ;
        let commutations_per_second: u64 = cpr * target;
        let mut commutated = false;
        if commutations_per_second != 0 {
            let commutation_delay_micros: u64 = 1_000_000 / commutations_per_second;
            self.current_commutation_delay_micros = commutation_delay_micros;
            let next_commutation: u64 = self.last_commutation_micros + commutation_delay_micros;
            if next_commutation < micros {
                self.last_commutation_micros += commutation_delay_micros;

                // Don't let it fall too far behind
                if self.last_commutation_micros < micros {
                    self.last_commutation_micros = micros;
                }
                self.progress();
                commutated = true;
            }
        }
        self.last_update_micros = micros;

        (self.state == CommutationState::State0, commutated)
    }

    /// Whether `open_loop` may run now: the target speed is not negative and
    /// the next commutation time fits in a `u64`.
    pub fn can_run_open_loop(&self) -> (r: bool)
        ensures
            r == open_loop_ready(self@),
    {
        if self.target_rps < 0 {
            return false;
        }
        let cpr: u64 = self.commutations_per_rotation as u64;
        let target: u64 = self.target_rps as u64;
        assert(cpr * target <= 255 * 32767) by (nonlinear_arith)
            requires
                cpr <= 255,
                target <= 32767,
        ;
        let rate: u64 = cpr * target;
        if rate == 0 {
            return true;
        }
        let delay: u64 = 1_000_000 / rate;
        self.last_commutation_micros <= u64::MAX - delay
    }

    /// The current commutation state.
    pub fn get_state(&self) -> (r: CommutationState)
        ensures
            r == self@.state,
    {
        self.state
    }

    /// One closed-loop step at time `now`. In State2 the controller
    /// commutates when more than 60 µs have passed since the last commutation
    /// and the phase A voltage is falling (`a_falling`), measuring the
    /// commutation delay; the phase A sample is consumed. In every other
    /// state it runs the open-loop step.
    pub fn closed_loop_at(&mut self, now: u64, a_falling: bool) -> (r: ClosedLoopStep)
        requires
            old(self)@.state != CommutationState::State2 ==> open_loop_ready(old(self)@),
        ensures
            (final(self)@, r) == closed_loop_model(old(self)@, now, a_falling),
    {
        if self.state == CommutationState::State2 {
            let time_since_commutation: u64 = now.saturating_sub(self.last_commutation_micros);
            let mut commutated = false;
            if time_since_commutation > 60 {
                if a_falling {
                    self.progress();
                    self.current_commutation_delay_micros = now - self.last_commutation_micros;
                    self.last_commutation_micros = now;
                    commutated = true;
                }
            }
            ClosedLoopStep { commutated, sampled: true }
        } else {
            let (_at_start, commutated) = self.open_loop(now);
            ClosedLoopStep { commutated, sampled: false }
        }
    }

    /// One closed-loop step at the current time (see `closed_loop_at`).
    pub fn closed_loop(&mut self, a_falling: bool) -> (r: ClosedLoopStep)
        requires
            old(self)@.state != CommutationState::State2 ==> open_loop_ready(old(self)@),
        ensures
            exists|now: u64| (final(self)@, r) == closed_loop_model(old(self)@, now, a_falling),
    {
        let now = now_micros();
        self.closed_loop_at(now, a_falling)
    }

    /// Sets the target speed in rotations per second.
    pub fn set_target_rps(&mut self, new_target: i16)
        ensures
            final(self)@ == (BldcModel { target_rps: new_target, ..old(self)@ }),
    {
        self.target_rps = new_target;
    }
}

/// The six-step sequence is a cycle: every state moves on to the state one
/// position further, and six commutations lead back to the starting state.
pub proof fn lemma_six_step_cycle(s: CommutationState)
    ensures
        s.successor().index() == (s.index() + 1) % 6,
        s.successor() != s,
        s.successor().successor().successor().successor().successor().successor() == s,
{
}

/// In every state one phase is driven high, one is tied low and one floats.
pub proof fn lemma_one_high_one_low_one_floating(s: CommutationState)
    ensures
        s.pattern().0 != s.pattern().1,
        s.pattern().1 != s.pattern().2,
        s.pattern().0 != s.pattern().2,
{
}

/// Open-loop timing: with a non-zero target the controller commutates exactly
/// when the commutation delay has elapsed since the last commutation, and a
/// commutation is stamped with the current time; the last commutation time
/// never moves backward. With a zero target it never commutates.
pub proof fn lemma_open_loop_timing(m: BldcModel, micros: u64)
    requires
        open_loop_ready(m),
    ensures
        commutation_rate(m) == 0 ==> !open_loop_model(m, micros).1,
        commutation_rate(m) != 0 ==> (open_loop_model(m, micros).1 <==> m.last_commutation_micros
            + 1_000_000int / commutation_rate(m) < micros),
        open_loop_model(m, micros).1 ==> open_loop_model(m, micros).0.last_commutation_micros
            == micros,
        open_loop_model(m, micros).0.last_commutation_micros >= m.last_commutation_micros,
        open_loop_model(m, micros).1 ==> open_loop_model(m, micros).0.state == m.state.successor(),
        !open_loop_model(m, micros).1 ==> open_loop_model(m, micros).0.state == m.state,
        open_loop_model(m, micros).0.target_rps == m.target_rps,
{
    if commutation_rate(m) != 0 {
        assert(1_000_000int / commutation_rate(m) >= 0) by (nonlinear_arith)
            requires
                commutation_rate(m) > 0,
        ;
    }
}

/// Outside State2 a closed-loop step is exactly the open-loop step at the same
/// time: same model afterwards, commutating exactly when it does, and the
/// phase A sample plays no role.
pub proof fn lemma_closed_loop_outside_state2(m: BldcModel, now: u64, a_falling: bool)
    requires
        m.state != CommutationState::State2,
    ensures
        closed_loop_model(m, now, a_falling).0 == open_loop_model(m, now).0,
        closed_loop_model(m, now, a_falling).1.commutated == open_loop_model(m, now).1,
        !closed_loop_model(m, now, a_falling).1.sampled,
        closed_loop_model(m, now, a_falling) == closed_loop_model(m, now, !a_falling),
{
}

/// Closed-loop commutation from State2: it moves on to State3 and records the
/// time since the previous commutation as the commutation delay.
pub proof fn lemma_closed_loop_state2(m: BldcModel, now: u64, a_falling: bool)
    requires
        m.state == CommutationState::State2,
    ensures
        closed_loop_model(m, now, a_falling).1.sampled,
        closed_loop_model(m, now, a_falling).1.commutated <==> (a_falling && now
            - m.last_commutation_micros > 60),
        closed_loop_model(m, now, a_falling).1.commutated ==> {
            &&& closed_loop_model(m, now, a_falling).0.state == CommutationState::State3
            &&& closed_loop_model(m, now, a_falling).0.current_commutation_delay_micros == now
                - m.last_commutation_micros
            &&& closed_loop_model(m, now, a_falling).0.last_commutation_micros == now
        },
        !closed_loop_model(m, now, a_falling).1.commutated ==> closed_loop_model(
            m,
            now,
            a_falling,
        ).0 == m,
{
}

/// A closed-loop step that does not commutate keeps the commutation state and
/// the last commutation time; one that commutates moves on by exactly one
/// state and stamps the commutation with the current time.
pub proof fn lemma_only_commutation_moves_time(m: BldcModel, now: u64, a_falling: bool)
    requires
        m.state != CommutationState::State2 ==> open_loop_ready(m),
    ensures
        !closed_loop_model(m, now, a_falling).1.commutated ==> {
            &&& closed_loop_model(m, now, a_falling).0.state == m.state
            &&& closed_loop_model(m, now, a_falling).0.last_commutation_micros
                == m.last_commutation_micros
        },
        closed_loop_model(m, now, a_falling).1.commutated ==> {
            &&& closed_loop_model(m, now, a_falling).0.state == m.state.successor()
            &&& closed_loop_model(m, now, a_falling).0.last_commutation_micros == now
            &&& now > m.last_commutation_micros
        },
{
}

} // verus!
