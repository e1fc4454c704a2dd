use heartbeat::pulse::{Hb, HbFsm, State};

// helper: the externally observable invariants
fn verify_invariants(m: &HbFsm) {
    // check for valid state
    assert!(m.state() == State::Unknown || m.state() == State::Alive || m.state() == State::Dead);

    // State::Alive requires evidence
    if m.state() == State::Alive {
        assert_eq!(m.has_evidence(), true);
    }

    // fault implies State::Dead
    if m.faulted() {
        assert_eq!(m.state(), State::Dead);
    }

    // assert not in step
    assert_eq!(m.in_step(), false);
}

#[test]
fn soundness_contract() {
    let mut hb_fsm = HbFsm::new(0);
    let t: u64 = 1000u64;
    let w: u64 = 0u64;

    // send one heartbeat at t = 0
    hb_fsm.step(0, Hb::Seen, t, w);
    assert_eq!(hb_fsm.state(), State::Alive);

    // advance past timeout without heartbeat
    hb_fsm.step(t + 1, Hb::NotSeen, t, w);

    // must not be alive
    assert_ne!(hb_fsm.state(), State::Alive);
    assert_eq!(hb_fsm.state(), State::Dead);
}

#[test]
fn liveness_contract() {
    let mut hb_fsm = HbFsm::new(0);
    let t: u64 = 1000u64;
    let w: u64 = 0u64;

    // send one heartbeat
    hb_fsm.step(0, Hb::Seen, t, w);
    assert_eq!(hb_fsm.state(), State::Alive);

    // simulate time passing, no heartbeats;
    // must reach State::Dead by T + P (P = polling interval)
    for now in (100u64..=t + 100u64).step_by(100) {
        hb_fsm.step(now, Hb::NotSeen, t, w);
    }

    assert_eq!(hb_fsm.state(), State::Dead);
}

#[test]
fn stability_contract() {
    let mut hb_fsm = HbFsm::new(0);
    let t: u64 = 1000u64;
    let w: u64 = 0u64;

    // send heartbeats every 100ms,
    // verify no spurious State::Dead
    for now in (0..=10000u64).step_by(100) {
        hb_fsm.step(now, Hb::Seen, t, w);

        assert_eq!(hb_fsm.state(), State::Alive);
    }
}

#[test]
fn boundary_conditions() {
    let mut hb_fsm = HbFsm::new(0);
    let t: u64 = 1000u64;
    let w: u64 = 0u64;

    // test at T - 1; should be State::Alive
    hb_fsm.step(0, Hb::Seen, t, w);
    hb_fsm.step(t - 1, Hb::NotSeen, t, w);
    assert_eq!(hb_fsm.state(), State::Alive);

    // reset and test at exactly T; should be State::Alive
    hb_fsm.init(0);
    hb_fsm.step(0, Hb::Seen, t, w);
    hb_fsm.step(t, Hb::NotSeen, t, w);
    assert_eq!(hb_fsm.state(), State::Alive);

    // test at T + 1; should be State::Dead
    hb_fsm.init(0);
    hb_fsm.step(0, Hb::Seen, t, w);
    hb_fsm.step(t + 1, Hb::NotSeen, t, w);
    assert_eq!(hb_fsm.state(), State::Dead);
}

#[test]
fn invariants_hold() {
    let mut hb_fsm = HbFsm::new(0);
    let t: u64 = 1000u64;
    let w: u64 = 0u64;

    verify_invariants(&hb_fsm);

    // test through various state transitions
    hb_fsm.step(0, Hb::Seen, t, w);
    verify_invariants(&hb_fsm);

    hb_fsm.step(500, Hb::NotSeen, t, w);
    verify_invariants(&hb_fsm);

    hb_fsm.step(t + 1, Hb::NotSeen, t, w);
    verify_invariants(&hb_fsm);

    hb_fsm.step(t + 2, Hb::Seen, t, w); // recovery
    verify_invariants(&hb_fsm);
}

#[test]
fn clock_corruption() {
    let mut hb_fsm = HbFsm::new(1000);
    let t: u64 = 1000u64;
    let w: u64 = 0u64;

    hb_fsm.step(1000, Hb::Seen, t, w);
    assert_eq!(hb_fsm.state(), State::Alive);

    // simulate clock jump backwards;
    // now < last_hb by huge amount, making age > 2^63
    hb_fsm.step(500, Hb::NotSeen, t, w);

    // age = 500 - 1000 = huge number due to unsigned wrap
    // should trigger fault_time and State::Dead
    assert_eq!(hb_fsm.state(), State::Dead);
    assert_eq!(hb_fsm.faulted(), true);
}

use rand::RngExt;

#[test]
fn test_fuzz() {
    let mut hb_fsm = HbFsm::new(0);
    let t: u64 = 1000u64;
    let w: u64 = 0u64;
    let mut now: u64 = 0u64;

    let mut rng = rand::rng();

    for _i in 0..100000 {
        let hb = Hb::from_bool(rng.random_bool(0.5));

        now += rng.random_range(1..=500);

        let _old_state: State = hb_fsm.state();
        let _old_last_hb: u64 = hb_fsm.last_hb();

        hb_fsm.step(now, hb.clone(), t, w);

        verify_invariants(&hb_fsm);

        if hb_fsm.state() == State::Alive {
            let age: u64 = now - hb_fsm.last_hb();
            assert!(age <= t);
            assert_eq!(hb_fsm.has_evidence(), true);
        }

        if hb_fsm.has_evidence() && hb == Hb::NotSeen {
            let age: u64 = now - hb_fsm.last_hb();
            if age > t {
                assert_eq!(hb_fsm.state(), State::Dead);
            }
        }
    }
}

#[test]
fn from_bool_maps_evidence() {
    assert_eq!(Hb::from_bool(true), Hb::Seen);
    assert_eq!(Hb::from_bool(false), Hb::NotSeen);
}

#[test]
fn fresh_detector_is_unknown() {
    let mut hb_fsm = HbFsm::new(0);
    assert_eq!(hb_fsm.state(), State::Unknown);
    assert_eq!(hb_fsm.has_evidence(), false);
    assert_eq!(hb_fsm.faulted(), false);
    assert_eq!(hb_fsm.in_step(), false);

    // polling without any heartbeat keeps the verdict Unknown
    hb_fsm.step(100, Hb::NotSeen, 1000, 0);
    assert_eq!(hb_fsm.state(), State::Unknown);
    assert_eq!(hb_fsm.has_evidence(), false);
}

#[test]
fn accessors_track_evidence() {
    let mut hb_fsm = HbFsm::new(7);
    hb_fsm.step(42, Hb::Seen, 1000, 0);
    assert_eq!(hb_fsm.has_evidence(), true);
    assert_eq!(hb_fsm.last_hb(), 42);

    // NotSeen leaves the recorded heartbeat alone
    hb_fsm.step(50, Hb::NotSeen, 1000, 0);
    assert_eq!(hb_fsm.last_hb(), 42);
}

#[test]
fn clock_corruption_before_evidence() {
    // the no-evidence path validates the age of the reset time
    let mut hb_fsm = HbFsm::new(1u64 << 63);
    hb_fsm.step(0, Hb::NotSeen, 1000, 0);
    assert_eq!(hb_fsm.state(), State::Dead);
    assert_eq!(hb_fsm.faulted(), true);
}

#[test]
fn fault_is_sticky_until_init() {
    let mut hb_fsm = HbFsm::new(1000);
    hb_fsm.step(1000, Hb::Seen, 1000, 0);
    hb_fsm.step(0, Hb::NotSeen, 1000, 0); // backward jump, time fault
    assert_eq!(hb_fsm.faulted(), true);
    assert_eq!(hb_fsm.state(), State::Dead);

    // a later valid heartbeat must not heal a faulted detector
    hb_fsm.step(2000, Hb::Seen, 1000, 0);
    assert_eq!(hb_fsm.state(), State::Dead);
    assert_eq!(hb_fsm.faulted(), true);
    assert_eq!(hb_fsm.last_hb(), 1000);

    // an explicit reset clears the fault
    hb_fsm.init(3000);
    assert_eq!(hb_fsm.faulted(), false);
    assert_eq!(hb_fsm.state(), State::Unknown);
    assert_eq!(hb_fsm.has_evidence(), false);
}

#[test]
fn timeout_dead_recovers_on_heartbeat() {
    let mut hb_fsm = HbFsm::new(0);
    hb_fsm.step(0, Hb::Seen, 1000, 0);
    hb_fsm.step(5000, Hb::NotSeen, 1000, 0);
    assert_eq!(hb_fsm.state(), State::Dead);
    assert_eq!(hb_fsm.faulted(), false);

    // timeout-induced Dead is not terminal: fresh evidence revives it
    hb_fsm.step(5001, Hb::Seen, 1000, 0);
    assert_eq!(hb_fsm.state(), State::Alive);
    assert_eq!(hb_fsm.last_hb(), 5001);
}

#[test]
fn zero_timeout_boundary() {
    let mut hb_fsm = HbFsm::new(0);
    hb_fsm.step(0, Hb::Seen, 0, 0);
    assert_eq!(hb_fsm.state(), State::Alive);
    hb_fsm.step(1, Hb::NotSeen, 0, 0);
    assert_eq!(hb_fsm.state(), State::Dead);
}

#[test]
fn wait_bound_is_inert() {
    let mut hb_fsm = HbFsm::new(0);
    hb_fsm.step(0, Hb::Seen, 1000, 12345);
    assert_eq!(hb_fsm.state(), State::Alive);
    hb_fsm.step(1001, Hb::NotSeen, 1000, 99999);
    assert_eq!(hb_fsm.state(), State::Dead);
}

#[test]
fn example_sequence() {
    let mut hb_fsm = HbFsm::new(0);
    hb_fsm.step(0, Hb::Seen, 1000, 0);
    assert_eq!(hb_fsm.state(), State::Alive);
    hb_fsm.step(1001, Hb::NotSeen, 1000, 0);
    assert_eq!(hb_fsm.state(), State::Dead);
}
