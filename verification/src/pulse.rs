//! The heartbeat state machine: states, evidence, and the transition rule.

use vstd::prelude::*;

verus! {

/// Liveness verdict for the monitored peer.
#[derive(Copy, Clone, Debug, PartialEq, Eq, Structural)]
pub enum State {
    Unknown,
    Alive,
    Dead,
}

/// Heartbeat evidence handed to one `step` call: whether a heartbeat was
/// observed since the previous call.
#[derive(Copy, Clone, Debug, PartialEq, Eq, Structural)]
pub enum Hb {
    NotSeen,
    Seen,
}

impl Hb {
    pub fn from_bool(b: bool) -> (r: Self)
        ensures
            r == (if b { Hb::Seen } else { Hb::NotSeen }),
    {
        match b {
            true => Self::Seen,
            false => Self::NotSeen,
        }
    }
}

/// Age of a clock reading `now` relative to an earlier reading `then`,
/// under unsigned wraparound arithmetic: a `now` earlier than `then`
/// produces a very large value rather than a negative one.
pub open spec fn spec_age(now: u64, then: u64) -> u64 {
    vstd::wrapping::u64_specs::wrapping_sub(now, then)
}

/// An age is valid iff its most-significant bit is zero, i.e. it is
/// strictly below half the unsigned range. A huge apparent age means the
/// clock jumped backwards, and is reported as a fault instead of being
/// mistaken for a genuine timeout.
pub open spec fn spec_age_valid(age: u64) -> bool {
    age < 0x8000_0000_0000_0000u64
}

/// The heartbeat state machine. One instance watches one peer; it is
/// mutated only by `step` and reset in place by `init`.
pub struct HbFsm {
    state: State,
    t_init: u64,
    last_hb: u64,
    have_hb: bool,
    fault_time: bool,
    fault_reentry: bool,
    in_step: bool,
}

/// The mathematical view of a detector: each field of `HbFsm` as a plain
/// spec-level value. Contracts and lemmas speak of this model.
#[verifier::ext_equal]
pub struct Model {
    /// Externally visible liveness verdict.
    pub state: State,
    /// Clock reading at construction or reset; used only before any
    /// heartbeat has ever been observed.
    pub t_init: u64,
    /// Clock reading at the most recent `Seen` signal; meaningful only
    /// when `have_hb` is true.
    pub last_hb: u64,
    /// Whether at least one `Seen` signal has been recorded since reset.
    pub have_hb: bool,
    /// Sticky flag: a clock-arithmetic anomaly was detected.
    pub fault_time: bool,
    /// Sticky flag: the transition was invoked while already in progress.
    pub fault_reentry: bool,
    /// Transient guard flag, claimed for the duration of one `step` call.
    pub in_step: bool,
}

impl View for HbFsm {
    type V = Model;

    closed spec fn view(&self) -> Model {
        Model {
            state: self.state,
            t_init: self.t_init,
            last_hb: self.last_hb,
            have_hb: self.have_hb,
            fault_time: self.fault_time,
            fault_reentry: self.fault_reentry,
            in_step: self.in_step,
        }
    }
}

/// The freshly-constructed (or freshly-reset) detector: verdict `Unknown`,
/// no evidence, no faults, guard released.
pub open spec fn init_model(now: u64) -> Model {
    Model {
        state: State::Unknown,
        t_init: now,
        last_hb: 0u64,
        have_hb: false,
        fault_time: false,
        fault_reentry: false,
        in_step: false,
    }
}

impl Model {
    /// Whether either sticky fault is latched.
    pub open spec fn faulted(self) -> bool {
        self.fault_time || self.fault_reentry
    }

    /// The invariant that holds at every externally observable point:
    /// `Alive` requires evidence, a latched fault forces `Dead`, and no
    /// transition is in progress.
    pub open spec fn inv(self) -> bool {
        &&& (self.state == State::Alive ==> self.have_hb)
        &&& (self.faulted() ==> self.state == State::Dead)
        &&& !self.in_step
    }
}

/// The transition rule of the machine, as one step on the model:
/// a faulted machine is inert; a re-entered machine latches the reentry
/// fault; otherwise `Seen` evidence is recorded, the age of the newest
/// evidence (or of the reset time, when there is none) is computed under
/// wraparound, an invalid age latches the time fault, and a valid age is
/// compared against `timeout` to pick `Alive` or `Dead` (`Unknown` while
/// no evidence has ever arrived).
pub open spec fn step_model(pre: Model, now: u64, hb: Hb, timeout: u64) -> Model {
    if pre.faulted() {
        pre
    } else if pre.in_step {
        Model { fault_reentry: true, state: State::Dead, ..pre }
    } else {
        let recorded = Model {
            last_hb: if hb == Hb::Seen { now } else { pre.last_hb },
            have_hb: pre.have_hb || hb == Hb::Seen,
            in_step: false,
            ..pre
        };
        if !recorded.have_hb {
            let age = spec_age(now, pre.t_init);
            if !spec_age_valid(age) {
                Model { fault_time: true, state: State::Dead, ..recorded }
            } else {
                Model { state: State::Unknown, ..recorded }
            }
        } else {
            let age = spec_age(now, recorded.last_hb);
            if !spec_age_valid(age) {
                Model { fault_time: true, state: State::Dead, ..recorded }
            } else if age > timeout {
                Model { state: State::Dead, ..recorded }
            } else {
                Model { state: State::Alive, ..recorded }
            }
        }
    }
}

impl HbFsm {
    /// Constructs a detector seeded with the clock reading `now`.
    pub fn new(now: u64) -> (r: Self)
        ensures
            r@ == init_model(now),
    {
        Self {
            state: State::Unknown,
            t_init: now,
            last_hb: 0u64,
            have_hb: false,
            fault_time: false,
            fault_reentry: false,
            in_step: false,
        }
    }

    /// Resets all fields to the construction-time defaults, with `now` as
    /// the new reset time. Always succeeds; the caller must serialize it
    /// against in-flight transitions.
    pub fn init(&mut self, now: u64)
        ensures
            final(self)@ == init_model(now),
    {
        self.state = State::Unknown;
        self.t_init = now;
        self.last_hb = 0u64;
        self.have_hb = false;
        self.fault_time = false;
        self.fault_reentry = false;
        self.in_step = false;
    }

    /// The sole transition operation: applies `step_model` to the state.
    /// `wait_bound` is a reserved grace parameter, accepted for driver
    /// symmetry but unused by the transition logic.
    pub fn step(&mut self, now: u64, hb: Hb, timeout: u64, _wait_bound: u64)
        ensures
            final(self)@ == step_model(old(self)@, now, hb, timeout),
    {
        // A faulted machine is permanently latched to Dead and inert.
        if self.faulted() {
            return;
        }

        // Claim the reentrancy guard; an overlapping transition is a usage
        // error, answered by latching to the safe failure state.
        if self.in_step {
            self.fault_reentry = true;
            self.state = State::Dead;
            return;
        }
        self.in_step = true;

        if hb == Hb::Seen {
            self.last_hb = now;
            self.have_hb = true;
        }

        if !self.have_hb {
            let a_init: u64 = Self::age_u64(&now, &self.t_init);
            if !Self::age_valid(&a_init) {
                self.fault_time = true;
                self.state = State::Dead;
            } else {
                self.state = State::Unknown;
            }
            self.in_step = false;
            return;
        }

        let a_hb: u64 = Self::age_u64(&now, &self.last_hb);
        if !Self::age_valid(&a_hb) {
            self.fault_time = true;
            self.state = State::Dead;
            self.in_step = false;
            return;
        }

        if a_hb > timeout {
            self.state = State::Dead;
        } else {
            self.state = State::Alive;
        }

        self.in_step = false;
    }

    /// The externally visible liveness verdict.
    pub fn state(&self) -> (r: State)
        ensures
            r == self@.state,
    {
        self.state
    }

    /// Whether at least one heartbeat has been recorded since reset.
    pub fn has_evidence(&self) -> (r: bool)
        ensures
            r == self@.have_hb,
    {
        self.have_hb
    }

    /// The clock reading at the most recent observed heartbeat.
    pub fn last_hb(&self) -> (r: u64)
        ensures
            r == self@.last_hb,
    {
        self.last_hb
    }

    /// Whether either sticky fault is latched.
    pub fn faulted(&self) -> (r: bool)
        ensures
            r == self@.faulted(),
    {
        self.fault_time || self.fault_reentry
    }

    /// Whether a transition is currently in progress.
    pub fn in_step(&self) -> (r: bool)
        ensures
            r == self@.in_step,
    {
        self.in_step
    }

    /// Wraparound age of `now` relative to `then`.
    fn age_u64(now: &u64, then: &u64) -> (r: u64)
        ensures
            r == spec_age(*now, *then),
    {
        now.wrapping_sub(*then)
    }

    /// Whether an age's most-significant bit is zero.
    fn age_valid(age: &u64) -> (r: bool)
        ensures
            r == spec_age_valid(*age),
    {
        proof {
            assert((1u64 << 63) == 0x8000_0000_0000_0000u64) by (bit_vector);
        }
        *age < (1u64 << 63)
    }
}

/// A freshly constructed or reset detector satisfies the invariant.
pub proof fn lemma_init_inv(now: u64)
    ensures
        init_model(now).inv(),
{
}

/// Every transition preserves the invariant: `Alive` only with evidence,
/// a latched fault only together with `Dead`, and the guard released at
/// every externally observable point.
pub proof fn lemma_step_preserves_inv(pre: Model, now: u64, hb: Hb, timeout: u64)
    requires
        pre.inv(),
    ensures
        step_model(pre, now, hb, timeout).inv(),
{
}

/// A faulted machine is inert: once either sticky fault is latched, a
/// transition changes nothing at all — in particular the verdict stays
/// `Dead` and the fault flags stay set until an explicit reset.
pub proof fn lemma_fault_latch(pre: Model, now: u64, hb: Hb, timeout: u64)
    requires
        pre.faulted(),
    ensures
        step_model(pre, now, hb, timeout) == pre,
{
}

/// Fault flags are sticky across any single transition, whatever the
/// evidence and clock reading.
pub proof fn lemma_fault_sticky(pre: Model, now: u64, hb: Hb, timeout: u64)
    ensures
        pre.fault_time ==> step_model(pre, now, hb, timeout).fault_time,
        pre.fault_reentry ==> step_model(pre, now, hb, timeout).fault_reentry,
{
}

/// A transition with `NotSeen` evidence never touches the recorded
/// evidence: the reset time, the last heartbeat time and the evidence
/// flag all carry over unchanged.
pub proof fn lemma_not_seen_frame(pre: Model, now: u64, timeout: u64)
    ensures
        step_model(pre, now, Hb::NotSeen, timeout).t_init == pre.t_init,
        step_model(pre, now, Hb::NotSeen, timeout).last_hb == pre.last_hb,
        step_model(pre, now, Hb::NotSeen, timeout).have_hb == pre.have_hb,
{
}

/// Soundness: once the age of the last heartbeat exceeds `timeout`, a
/// transition without fresh evidence reports `Dead` — whether the age is
/// a genuine timeout or so large that it latches the time fault.
pub proof fn lemma_soundness(pre: Model, now: u64, timeout: u64)
    requires
        !pre.faulted(),
        !pre.in_step,
        pre.have_hb,
        spec_age(now, pre.last_hb) > timeout,
    ensures
        step_model(pre, now, Hb::NotSeen, timeout).state == State::Dead,
{
}

/// Liveness: one `NotSeen` transition whose clock reading has moved past
/// the last heartbeat by more than `timeout` — but not so far that the
/// age is invalid — reports a genuine `Dead`, with no fault latched. Any
/// sequence of `NotSeen` calls with increasing readings reaches such a
/// reading, since `NotSeen` never moves the last heartbeat time.
pub proof fn lemma_liveness(pre: Model, now: u64, timeout: u64)
    requires
        !pre.faulted(),
        !pre.in_step,
        pre.have_hb,
        pre.last_hb + timeout < now,
        now - pre.last_hb < 0x8000_0000_0000_0000u64,
    ensures
        step_model(pre, now, Hb::NotSeen, timeout).state == State::Dead,
        !step_model(pre, now, Hb::NotSeen, timeout).faulted(),
{
}

/// Stability under fresh evidence: a `Seen` transition on an unfaulted
/// machine always reports `Alive` and records the new heartbeat time.
pub proof fn lemma_stability_seen(pre: Model, now: u64, timeout: u64)
    requires
        !pre.faulted(),
        !pre.in_step,
    ensures
        step_model(pre, now, Hb::Seen, timeout).state == State::Alive,
        step_model(pre, now, Hb::Seen, timeout).last_hb == now,
        step_model(pre, now, Hb::Seen, timeout).have_hb,
        !step_model(pre, now, Hb::Seen, timeout).faulted(),
{
}

/// Stability without fresh evidence: while the last heartbeat is at most
/// `timeout` ticks old, a `NotSeen` transition still reports `Alive`.
pub proof fn lemma_stability_not_seen(pre: Model, now: u64, timeout: u64)
    requires
        !pre.faulted(),
        !pre.in_step,
        pre.have_hb,
        pre.last_hb <= now,
        now - pre.last_hb <= timeout,
        now - pre.last_hb < 0x8000_0000_0000_0000u64,
    ensures
        step_model(pre, now, Hb::NotSeen, timeout).state == State::Alive,
        !step_model(pre, now, Hb::NotSeen, timeout).faulted(),
{
}

/// Boundary behavior around the timeout: with the last heartbeat at
/// `t0`, a call without fresh evidence at age `timeout - 1` or at age
/// exactly `timeout` reports `Alive`, and at age `timeout + 1` reports
/// `Dead`.
pub proof fn lemma_boundary(pre: Model, t0: u64, timeout: u64)
    requires
        !pre.faulted(),
        !pre.in_step,
        pre.have_hb,
        pre.last_hb == t0,
        t0 + timeout + 1 <= u64::MAX,
        timeout + 1 < 0x8000_0000_0000_0000u64,
    ensures
        timeout >= 1 ==> step_model(
            pre,
            (t0 + timeout - 1) as u64,
            Hb::NotSeen,
            timeout,
        ).state == State::Alive,
        step_model(pre, (t0 + timeout) as u64, Hb::NotSeen, timeout).state == State::Alive,
        step_model(pre, (t0 + timeout + 1) as u64, Hb::NotSeen, timeout).state == State::Dead,
{
}

/// No false `Alive`: whenever a transition on an unfaulted machine
/// reports `Alive`, there is recorded evidence and its age at this very
/// clock reading is valid and within `timeout`.
pub proof fn lemma_alive_is_fresh(pre: Model, now: u64, hb: Hb, timeout: u64)
    requires
        !pre.faulted(),
        !pre.in_step,
    ensures
        ({
            let post = step_model(pre, now, hb, timeout);
            post.state == State::Alive ==> {
                &&& post.have_hb
                &&& spec_age_valid(spec_age(now, post.last_hb))
                &&& spec_age(now, post.last_hb) <= timeout
            }
        }),
{
}

/// Clock-corruption detection: an invalid age — the clock fell behind the
/// newest evidence (or, without evidence, behind the reset time) by more
/// than half the unsigned range — latches the time fault and `Dead`.
pub proof fn lemma_clock_fault(pre: Model, now: u64, hb: Hb, timeout: u64)
    requires
        !pre.faulted(),
        !pre.in_step,
        ({
            let recorded_last = if hb == Hb::Seen { now } else { pre.last_hb };
            if pre.have_hb || hb == Hb::Seen {
                !spec_age_valid(spec_age(now, recorded_last))
            } else {
                !spec_age_valid(spec_age(now, pre.t_init))
            }
        }),
    ensures
        step_model(pre, now, hb, timeout).fault_time,
        step_model(pre, now, hb, timeout).state == State::Dead,
{
}

/// Reentrancy detection: a transition that finds the guard already
/// claimed latches the reentry fault and `Dead`, and leaves every other
/// field alone.
pub proof fn lemma_reentry(pre: Model, now: u64, hb: Hb, timeout: u64)
    requires
        !pre.faulted(),
        pre.in_step,
    ensures
        step_model(pre, now, hb, timeout) == (Model {
            fault_reentry: true,
            state: State::Dead,
            ..pre
        }),
{
}

/// The machine run over a whole sequence of calls: each event is one
/// `step` invocation, as a pair of clock reading and evidence.
pub open spec fn run_model(pre: Model, events: Seq<(u64, Hb)>, timeout: u64) -> Model
    decreases events.len(),
{
    if events.len() == 0 {
        pre
    } else {
        run_model(step_model(pre, events[0].0, events[0].1, timeout), events.skip(1), timeout)
    }
}

/// Whether one call at reading `now` observes fresh evidence: the age of
/// the newest heartbeat is valid and within `timeout` — or, while no
/// heartbeat has ever arrived, the age of the reset time is valid.
pub open spec fn fresh_at(s: Model, now: u64, timeout: u64) -> bool {
    if s.have_hb {
        spec_age_valid(spec_age(now, s.last_hb)) && spec_age(now, s.last_hb) <= timeout
    } else {
        spec_age_valid(spec_age(now, s.t_init))
    }
}

/// Whether every call of the sequence, run from `s`, observes fresh
/// evidence — the precise form of "a heartbeat arrives at least once
/// every `timeout` ticks" for an arbitrary polling schedule.
pub open spec fn kept_fresh(s: Model, events: Seq<(u64, Hb)>, timeout: u64) -> bool
    decreases events.len(),
{
    events.len() == 0 || {
        &&& fresh_at(s, events[0].0, timeout)
        &&& kept_fresh(
            step_model(s, events[0].0, events[0].1, timeout),
            events.skip(1),
            timeout,
        )
    }
}

/// Soundness over whole runs: from any valid state with evidence, a run
/// of calls none of which brings fresh evidence, whose last reading puts
/// the last heartbeat more than `timeout` ticks in the past, ends with
/// the verdict `Dead` at that deadline — whatever readings the earlier
/// calls used.
pub proof fn lemma_soundness_run(pre: Model, events: Seq<(u64, Hb)>, timeout: u64)
    requires
        pre.inv(),
        pre.have_hb,
        events.len() > 0,
        forall|i: int| 0 <= i < events.len() ==> (#[trigger] events[i]).1 == Hb::NotSeen,
        spec_age(events.last().0, pre.last_hb) > timeout,
    ensures
        run_model(pre, events, timeout).state == State::Dead,
    decreases events.len(),
{
    let post = step_model(pre, events[0].0, events[0].1, timeout);
    lemma_step_preserves_inv(pre, events[0].0, events[0].1, timeout);
    assert(events[0].1 == Hb::NotSeen);
    if events.len() == 1 {
        assert(events.last() == events[0]);
        if !pre.faulted() {
            lemma_soundness(pre, events[0].0, timeout);
        }
        assert(events.skip(1).len() == 0);
        assert(run_model(post, events.skip(1), timeout) == post);
    } else {
        let rest = events.skip(1);
        assert(rest.last() == events.last());
        assert(forall|i: int| 0 <= i < rest.len() ==> (#[trigger] rest[i]).1 == Hb::NotSeen);
        lemma_soundness_run(post, rest, timeout);
    }
}

/// Stability over whole runs: from an unfaulted state with the guard
/// free, a run in which every call observes fresh evidence never latches
/// a fault and never ends in `Dead`; since every prefix of such a run is
/// itself such a run, the verdict is never observed as `Dead` at any
/// point of it.
pub proof fn lemma_stability_run(pre: Model, events: Seq<(u64, Hb)>, timeout: u64)
    requires
        !pre.faulted(),
        !pre.in_step,
        kept_fresh(pre, events, timeout),
    ensures
        !run_model(pre, events, timeout).faulted(),
        !run_model(pre, events, timeout).in_step,
        events.len() > 0 ==> run_model(pre, events, timeout).state != State::Dead,
    decreases events.len(),
{
    if events.len() > 0 {
        let post = step_model(pre, events[0].0, events[0].1, timeout);
        assert(!post.faulted() && !post.in_step && post.state != State::Dead);
        lemma_stability_run(post, events.skip(1), timeout);
        if events.len() == 1 {
            assert(run_model(pre, events, timeout) == post);
        }
    }
}

} // verus!
