use lunner::config::{Config, Hook, Hooks, PostgresConf};
use lunner::dispatch::{transition, Role};
use lunner::election::{decide_action, step, verdict, Action, ClaimRow};
use lunner::state::State;

fn row(leader: &str, since: u64) -> Option<ClaimRow> {
    Some(ClaimRow {
        leader: String::from(leader),
        since,
    })
}

#[test]
fn empty_store_first_cycle_inserts() {
    let id = String::from("a");
    let (after, action) = step(None, &id, 30, 100);
    assert_eq!(action, Action::Insert);
    let r = after.as_ref().unwrap();
    assert_eq!(r.leader, "a");
    assert_eq!(r.since, 100);
    assert!(verdict(&after, &id));
}

#[test]
fn refresh_keeps_since() {
    let id = String::from("a");
    // Even when the term start lies far behind the clock, the holder's own
    // cycle only refreshes and never advances `since`.
    let (after, action) = step(row("a", 100), &id, 30, 500);
    assert_eq!(action, Action::Refresh);
    let r = after.as_ref().unwrap();
    assert_eq!(r.leader, "a");
    assert_eq!(r.since, 100);
    assert!(verdict(&after, &id));
}

#[test]
fn live_claim_leaves_standby() {
    let id = String::from("b");
    let (after, action) = step(row("a", 100), &id, 30, 105);
    assert_eq!(action, Action::Nothing);
    let r = after.as_ref().unwrap();
    assert_eq!(r.leader, "a");
    assert_eq!(r.since, 100);
    assert!(!verdict(&after, &id));
}

#[test]
fn elapsed_equal_to_timeout_is_not_expired() {
    // The takeover test is strict: elapsed must exceed the timeout.
    let id = String::from("b");
    let a = decide_action(&row("a", 100), &id, 30, 130);
    assert_eq!(a, Action::Nothing);
    let a = decide_action(&row("a", 100), &id, 30, 131);
    assert_eq!(a, Action::Takeover);
}

#[test]
fn stale_claim_is_taken_over() {
    let thief = String::from("b");
    let old = String::from("a");
    let (after, action) = step(row("a", 100), &thief, 30, 135);
    assert_eq!(action, Action::Takeover);
    let r = after.as_ref().unwrap();
    assert_eq!(r.leader, "b");
    assert_eq!(r.since, 135);
    assert!(verdict(&after, &thief));
    assert!(!verdict(&after, &old));
}

#[test]
fn clock_backwards_means_no_action() {
    let id = String::from("b");
    let (after, action) = step(row("a", 100), &id, 30, 90);
    assert_eq!(action, Action::Nothing);
    assert_eq!(after.as_ref().unwrap().since, 100);
}

#[test]
fn no_row_means_not_leader() {
    let id = String::from("a");
    assert!(!verdict(&None, &id));
}

#[test]
fn transition_fires_only_on_change() {
    assert_eq!(transition(false, false), None);
    assert_eq!(transition(false, true), Some(Role::Leader));
    assert_eq!(transition(true, true), None);
    assert_eq!(transition(true, false), Some(Role::Standby));
}

#[test]
fn state_cell_reports_changes() {
    let mut s = State::new();
    assert!(!s.is_leader());
    assert!(s.set_leader(true));
    assert!(s.is_leader());
    assert!(!s.set_leader(true));
    assert!(s.is_leader());
    assert!(s.set_leader(false));
    assert!(!s.is_leader());
}

#[test]
fn config_load_keeps_parts() {
    let c = Config::load(
        String::from("node-1"),
        30,
        PostgresConf {
            connection: String::from("host=db"),
        },
        Hooks {
            become_leader: Hook {
                cmd: String::from("/bin/up"),
                args: vec![String::from("x")],
            },
            become_standby: Hook {
                cmd: String::from("/bin/down"),
                args: vec![],
            },
        },
    );
    assert_eq!(c.id, "node-1");
    assert_eq!(c.leader_timeout_seconds, 30);
    assert_eq!(c.postgres.connection, "host=db");
    assert_eq!(c.hooks.become_leader.cmd, "/bin/up");
    assert_eq!(c.hooks.become_leader.args, vec![String::from("x")]);
    assert_eq!(c.hooks.become_standby.cmd, "/bin/down");
    assert!(c.hooks.become_standby.args.is_empty());
}

#[test]
fn scenario_claim_then_timeout_handoff() {
    // Node `a`, leader timeout 30, empty store at t=1000: the first cycle
    // inserts `(a, 1000)` and the next orchestrator tick goes to leader.
    let a = String::from("a");
    let b = String::from("b");
    let (store, action) = step(None, &a, 30, 1000);
    assert_eq!(action, Action::Insert);
    assert!(verdict(&store, &a));
    assert_eq!(transition(false, verdict(&store, &a)), Some(Role::Leader));

    // Node `b` polls at t=1005: elapsed 5 <= 30, so it stays standby.
    let (store, action) = step(store, &b, 30, 1005);
    assert_eq!(action, Action::Nothing);
    assert!(!verdict(&store, &b));

    // At t=1035 elapsed 35 > 30: `b` deletes the row and claims leadership.
    let (store, action) = step(store, &b, 30, 1035);
    assert_eq!(action, Action::Takeover);
    let r = store.as_ref().unwrap();
    assert_eq!(r.leader, "b");
    assert_eq!(r.since, 1035);

    // `a`'s next poll at t=1040 finds `b` leading: verdict false, and the
    // orchestrator dispatches become-standby.
    let (store, action) = step(store, &a, 30, 1040);
    assert_eq!(action, Action::Nothing);
    let v = verdict(&store, &a);
    assert!(!v);
    assert_eq!(transition(true, v), Some(Role::Standby));
}
