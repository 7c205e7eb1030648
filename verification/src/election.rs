//! The election engine's per-cycle rules.
//!
//! Once per polling interval a node runs one serializable transaction against
//! the coordination store: it reads the claim row, decides an action from what
//! it saw, and performs that action. Afterwards it re-reads the row and derives
//! its leadership verdict. This module states those rules over a plain model
//! of the store — the row as an optional `(leader, since)` pair and the store's
//! own clock as an integer — and proves the protocol's guarantees over runs of
//! cycles. The embedding program executes the decided action as SQL.

use vstd::prelude::*;

verus! {

/// The claim row as the coordination store holds it: at most one such row
/// exists at any time. `leader` is the identity of the node holding the
/// claim; `since` is the store-clock instant at which this term began.
#[derive(Debug)]
pub struct ClaimRow {
    pub leader: String,
    pub since: u64,
}

/// What one election cycle does to the claim row.
#[derive(Debug, PartialEq, Eq, Structural)]
pub enum Action {
    /// No row existed: insert one naming this node, term starting now.
    Insert,
    /// This node already holds the claim: re-write it as a heartbeat.
    /// The term start is left as it was.
    Refresh,
    /// Another node's claim is older than the leader timeout: delete the row
    /// and insert one naming this node, term starting now.
    Takeover,
    /// Another node holds a live claim, or the store clock ran backwards:
    /// leave the row alone.
    Nothing,
}

/// The claim row reduced to its mathematical content: the leader's identity
/// as a sequence of characters, and the term start.
pub open spec fn row_view(row: Option<ClaimRow>) -> Option<(Seq<char>, u64)> {
    match row {
        None => None,
        Some(r) => Some((r.leader@, r.since)),
    }
}

/// A claim is expired when the store's clock stands strictly more than
/// `timeout` past the term start. A clock that ran backwards expires nothing.
pub open spec fn expired(since: u64, now: u64, timeout: u64) -> bool {
    now >= since && now - since > timeout
}

/// The action one cycle decides, given the row it observed, this node's
/// identity, the configured leader timeout and the store's clock.
pub open spec fn decision(v: Option<(Seq<char>, u64)>, id: Seq<char>, timeout: u64, now: u64) -> Action {
    match v {
        None => Action::Insert,
        Some(p) => if p.0 == id {
            Action::Refresh
        } else if expired(p.1, now, timeout) {
            Action::Takeover
        } else {
            Action::Nothing
        },
    }
}

/// The row after one committed cycle: `Insert` and `Takeover` install this
/// node with term start `now`; `Refresh` and `Nothing` leave the row as it
/// was — in particular a refresh never advances `since`.
pub open spec fn next_row(v: Option<(Seq<char>, u64)>, id: Seq<char>, timeout: u64, now: u64) -> Option<(Seq<char>, u64)> {
    match decision(v, id, timeout, now) {
        Action::Insert => Some((id, now)),
        Action::Takeover => Some((id, now)),
        Action::Refresh => v,
        Action::Nothing => v,
    }
}

/// The leadership verdict a node derives from a read of the claim row:
/// leader exactly when the row names it. No row — or a failed read, which
/// the embedding program reports the same way — means not leader.
pub open spec fn verdict_of(v: Option<(Seq<char>, u64)>, id: Seq<char>) -> bool {
    match v {
        None => false,
        Some(p) => p.0 == id,
    }
}

/// The claim row after a run of committed cycles. Each event is one node's
/// cycle: its identity and the store's clock when the cycle ran. Cycles whose
/// transactions fail commit nothing, so a run lists the committed ones only,
/// in the serial order the store's isolation level imposes on them.
pub open spec fn run_row(v: Option<(Seq<char>, u64)>, events: Seq<(Seq<char>, u64)>, timeout: u64) -> Option<(Seq<char>, u64)>
    decreases events.len(),
{
    if events.len() == 0 {
        v
    } else {
        run_row(next_row(v, events[0].0, timeout, events[0].1), events.drop_first(), timeout)
    }
}

/// The actions the cycles of a run decide, in order.
pub open spec fn run_actions(v: Option<(Seq<char>, u64)>, events: Seq<(Seq<char>, u64)>, timeout: u64) -> Seq<Action>
    decreases events.len(),
{
    if events.len() == 0 {
        Seq::empty()
    } else {
        seq![decision(v, events[0].0, timeout, events[0].1)]
            + run_actions(next_row(v, events[0].0, timeout, events[0].1), events.drop_first(), timeout)
    }
}

/// A run decides one action per cycle.
pub proof fn lemma_run_actions_len(v: Option<(Seq<char>, u64)>, events: Seq<(Seq<char>, u64)>, timeout: u64)
    ensures
        run_actions(v, events, timeout).len() == events.len(),
    decreases events.len(),
{
    if events.len() > 0 {
        lemma_run_actions_len(next_row(v, events[0].0, timeout, events[0].1), events.drop_first(), timeout);
    }
}

/// Law: a live claim stands. While every committed cycle comes from a node
/// other than the one the row names and finds the claim unexpired, every
/// cycle decides `Nothing` and the row never changes.
pub proof fn lemma_live_claim_stands(p: (Seq<char>, u64), events: Seq<(Seq<char>, u64)>, timeout: u64)
    requires
        forall|i: int| 0 <= i < events.len() ==> (#[trigger] events[i]).0 != p.0,
        forall|i: int| 0 <= i < events.len() ==> !expired(p.1, (#[trigger] events[i]).1, timeout),
    ensures
        run_row(Some(p), events, timeout) == Some(p),
        forall|i: int| 0 <= i < events.len()
            ==> #[trigger] run_actions(Some(p), events, timeout)[i] == Action::Nothing,
    decreases events.len(),
{
    lemma_run_actions_len(Some(p), events, timeout);
    if events.len() > 0 {
        lemma_live_claim_stands(p, events.drop_first(), timeout);
        assert forall|i: int| 0 <= i < events.len()
            implies #[trigger] run_actions(Some(p), events, timeout)[i] == Action::Nothing by {
            if i > 0 {
                assert(events.drop_first()[i - 1] == events[i]);
                assert(run_actions(Some(p), events.drop_first(), timeout)[i - 1] == Action::Nothing);
            }
        }
    }
}

/// Law: exactly one claim wins. Starting from an empty store, in any run of
/// committed cycles whose later nodes all differ from the first and all poll
/// before the first claim can expire, only the first cycle inserts: every
/// later cycle decides `Nothing`, and at the end of the run the row still
/// names the first node, with the term start of its first claim.
pub proof fn lemma_first_claim_wins(events: Seq<(Seq<char>, u64)>, timeout: u64)
    requires
        events.len() >= 1,
        forall|i: int| 1 <= i < events.len() ==> (#[trigger] events[i]).0 != events[0].0,
        forall|i: int| 1 <= i < events.len() ==> !expired(events[0].1, (#[trigger] events[i]).1, timeout),
    ensures
        run_actions(None, events, timeout)[0] == Action::Insert,
        forall|i: int| 1 <= i < events.len()
            ==> #[trigger] run_actions(None, events, timeout)[i] == Action::Nothing,
        run_row(None, events, timeout) == Some((events[0].0, events[0].1)),
        verdict_of(run_row(None, events, timeout), events[0].0),
{
    let p = (events[0].0, events[0].1);
    let rest = events.drop_first();
    lemma_run_actions_len(None, events, timeout);
    assert forall|i: int| 0 <= i < rest.len() implies (#[trigger] rest[i]).0 != p.0 by {
        assert(rest[i] == events[i + 1]);
    }
    assert forall|i: int| 0 <= i < rest.len() implies !expired(p.1, (#[trigger] rest[i]).1, timeout) by {
        assert(rest[i] == events[i + 1]);
    }
    lemma_live_claim_stands(p, rest, timeout);
    assert forall|i: int| 1 <= i < events.len()
        implies #[trigger] run_actions(None, events, timeout)[i] == Action::Nothing by {
        assert(run_actions(Some(p), rest, timeout)[i - 1] == Action::Nothing);
    }
}

/// Law: a stale claim is taken over. If the row's term start stands more than
/// the leader timeout before the store's clock and a different node runs a
/// committed cycle, that cycle decides `Takeover` and installs its own claim;
/// on the row it leaves, the new node's verdict is true and the ousted
/// node's verdict is false.
pub proof fn lemma_timeout_takeover(p: (Seq<char>, u64), id: Seq<char>, timeout: u64, now: u64)
    requires
        id != p.0,
        expired(p.1, now, timeout),
    ensures
        decision(Some(p), id, timeout, now) == Action::Takeover,
        next_row(Some(p), id, timeout, now) == Some((id, now)),
        verdict_of(next_row(Some(p), id, timeout, now), id),
        !verdict_of(next_row(Some(p), id, timeout, now), p.0),
{
}

/// Law: `since` never advances under refresh. While the node the claim row
/// names keeps running committed cycles of its own, every cycle decides
/// `Refresh` and the row — its term start in particular — never changes.
pub proof fn lemma_refresh_preserves_since(p: (Seq<char>, u64), events: Seq<(Seq<char>, u64)>, timeout: u64)
    requires
        forall|i: int| 0 <= i < events.len() ==> (#[trigger] events[i]).0 == p.0,
    ensures
        run_row(Some(p), events, timeout) == Some(p),
        verdict_of(run_row(Some(p), events, timeout), p.0),
        forall|i: int| 0 <= i < events.len()
            ==> #[trigger] run_actions(Some(p), events, timeout)[i] == Action::Refresh,
    decreases events.len(),
{
    lemma_run_actions_len(Some(p), events, timeout);
    if events.len() > 0 {
        assert forall|i: int| 0 <= i < events.drop_first().len()
            implies (#[trigger] events.drop_first()[i]).0 == p.0 by {
            assert(events.drop_first()[i] == events[i + 1]);
        }
        lemma_refresh_preserves_since(p, events.drop_first(), timeout);
        assert forall|i: int| 0 <= i < events.len()
            implies #[trigger] run_actions(Some(p), events, timeout)[i] == Action::Refresh by {
            if i > 0 {
                assert(run_actions(Some(p), events.drop_first(), timeout)[i - 1] == Action::Refresh);
            }
        }
    }
}

/// Decide this cycle's action from the observed row.
pub fn decide_action(row: &Option<ClaimRow>, id: &String, leader_timeout: u64, now: u64) -> (a: Action)
    ensures
        a == decision(row_view(*row), id@, leader_timeout, now),
{
    match row {
        None => Action::Insert,
        Some(r) => {
            if r.leader == *id {
                Action::Refresh
            } else if now >= r.since && now - r.since > leader_timeout {
                Action::Takeover
            } else {
                Action::Nothing
            }
        },
    }
}

/// One committed election cycle over the model of the store: observe the row,
/// decide, and return the row as the store holds it after the action, together
/// with the action taken. A cycle whose transaction fails commits nothing and
/// leaves the row untouched; only committed cycles move the model.
pub fn step(row: Option<ClaimRow>, id: &String, leader_timeout: u64, now: u64) -> (res: (Option<ClaimRow>, Action))
    ensures
        res.1 == decision(row_view(row), id@, leader_timeout, now),
        row_view(res.0) == next_row(row_view(row), id@, leader_timeout, now),
{
    let a = decide_action(&row, id, leader_timeout, now);
    match a {
        Action::Insert | Action::Takeover => {
            (Some(ClaimRow { leader: id.clone(), since: now }), a)
        },
        Action::Refresh | Action::Nothing => (row, a),
    }
}

/// The leadership verdict from a fresh read of the claim row, taken after the
/// cycle's transaction: leader exactly when the row names this node.
pub fn verdict(row: &Option<ClaimRow>, id: &String) -> (b: bool)
    ensures
        b == verdict_of(row_view(*row), id@),
{
    match row {
        None => false,
        Some(r) => r.leader == *id,
    }
}

} // verus!
