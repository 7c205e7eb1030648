//! The hook-dispatch rule.
//!
//! On every tick the orchestrator compares the leadership verdict it reads
//! against the one it saw on the previous tick, and launches the external
//! hook for the new role exactly when the two differ. At process start, before
//! any election cycle has run, it launches the become-standby hook once. This
//! module states that rule and proves what it implies for the sequence of
//! hook launches over a whole run.

use vstd::prelude::*;

verus! {

/// The role a hook announces.
#[derive(Debug, PartialEq, Eq, Structural)]
pub enum Role {
    Leader,
    Standby,
}

/// The role a verdict corresponds to.
pub open spec fn role_of(verdict: bool) -> Role {
    if verdict {
        Role::Leader
    } else {
        Role::Standby
    }
}

/// The hook one orchestrator tick launches: the new role's hook when the
/// verdict changed, none when it did not.
pub open spec fn transition_spec(prev: bool, cur: bool) -> Option<Role> {
    if cur != prev {
        Some(role_of(cur))
    } else {
        None
    }
}

/// The other role.
pub open spec fn flip(r: Role) -> Role {
    match r {
        Role::Leader => Role::Standby,
        Role::Standby => Role::Leader,
    }
}

/// The hooks launched while the orchestrator works through a sequence of
/// observed verdicts, having last seen `prev`: one hook per change, none
/// otherwise.
pub open spec fn emissions(prev: bool, verdicts: Seq<bool>) -> Seq<Role>
    decreases verdicts.len(),
{
    if verdicts.len() == 0 {
        Seq::empty()
    } else {
        (match transition_spec(prev, verdicts[0]) {
            Some(r) => seq![r],
            None => Seq::<Role>::empty(),
        }) + emissions(verdicts[0], verdicts.drop_first())
    }
}

/// Every hook a whole run launches, in order: the unconditional become-standby
/// hook at process start, then one hook per verdict change, the comparison
/// starting from the standby the node was started in.
pub open spec fn hook_trace(verdicts: Seq<bool>) -> Seq<Role> {
    seq![Role::Standby] + emissions(false, verdicts)
}

/// A trace that starts with `first` and then strictly alternates roles.
pub open spec fn alternates_from(trace: Seq<Role>, first: Role) -> bool
    decreases trace.len(),
{
    trace.len() == 0 || (trace[0] == first && alternates_from(trace.drop_first(), flip(first)))
}

/// The hooks launched from observed state `prev` alternate, beginning — if
/// any are launched at all — with the hook for the role opposite to `prev`.
pub proof fn lemma_emissions_alternate(prev: bool, verdicts: Seq<bool>)
    ensures
        alternates_from(emissions(prev, verdicts), role_of(!prev)),
    decreases verdicts.len(),
{
    if verdicts.len() > 0 {
        lemma_emissions_alternate(verdicts[0], verdicts.drop_first());
        if verdicts[0] == prev {
            assert(emissions(prev, verdicts) == emissions(verdicts[0], verdicts.drop_first()));
        } else {
            let e = emissions(prev, verdicts);
            assert(e.drop_first() =~= emissions(verdicts[0], verdicts.drop_first()));
        }
    }
}

/// In an alternating trace, the entry after any entry equal to `first`'s
/// side is the opposite role: no two consecutive entries are equal.
pub proof fn lemma_alternates_pointwise(trace: Seq<Role>, first: Role)
    requires
        alternates_from(trace, first),
    ensures
        forall|i: int| 0 <= i < trace.len() ==> #[trigger] trace[i] == (if i % 2 == 0 { first } else { flip(first) }),
    decreases trace.len(),
{
    if trace.len() > 0 {
        lemma_alternates_pointwise(trace.drop_first(), flip(first));
        assert forall|i: int| 0 <= i < trace.len()
            implies #[trigger] trace[i] == (if i % 2 == 0 { first } else { flip(first) }) by {
            if i > 0 {
                assert(trace.drop_first()[i - 1] == trace[i]);
                assert((i - 1) % 2 == (if i % 2 == 0 { 1int } else { 0int }));
            }
        }
    }
}

/// Law: startup standby comes first. In any run, the first hook launched is
/// the single startup become-standby hook; if a become-leader hook is ever
/// launched, the earliest one is the very next hook, so exactly one
/// become-standby launch precedes any become-leader launch.
pub proof fn lemma_startup_standby_first(verdicts: Seq<bool>)
    ensures
        hook_trace(verdicts).len() >= 1,
        hook_trace(verdicts)[0] == Role::Standby,
        forall|i: int| 0 <= i < hook_trace(verdicts).len()
            && #[trigger] hook_trace(verdicts)[i] == Role::Leader
            && (forall|j: int| 0 <= j < i ==> #[trigger] hook_trace(verdicts)[j] != Role::Leader)
            ==> i == 1,
{
    let t = hook_trace(verdicts);
    lemma_emissions_alternate(false, verdicts);
    assert(t.drop_first() =~= emissions(false, verdicts));
    assert(alternates_from(t, Role::Standby));
    lemma_alternates_pointwise(t, Role::Standby);
    assert forall|i: int| 0 <= i < t.len()
        && #[trigger] t[i] == Role::Leader
        && (forall|j: int| 0 <= j < i ==> #[trigger] t[j] != Role::Leader)
        implies i == 1 by {
        assert(i % 2 == 1);
        if i > 1 {
            assert(t[1] == Role::Leader);
        }
    }
}

/// The last verdict the orchestrator has seen after working through
/// `verdicts`: the startup standby when none has been read yet.
pub open spec fn last_seen(verdicts: Seq<bool>) -> bool {
    if verdicts.len() == 0 {
        false
    } else {
        verdicts.last()
    }
}

/// Extending a run by one observed verdict launches the new role's hook when
/// the verdict changed, and nothing when it did not.
pub proof fn lemma_emissions_push(prev: bool, verdicts: Seq<bool>, cur: bool)
    ensures
        (if verdicts.len() == 0 { prev } else { verdicts.last() }) != cur
            ==> emissions(prev, verdicts.push(cur)) == emissions(prev, verdicts).push(role_of(cur)),
        (if verdicts.len() == 0 { prev } else { verdicts.last() }) == cur
            ==> emissions(prev, verdicts.push(cur)) == emissions(prev, verdicts),
    decreases verdicts.len(),
{
    if verdicts.len() == 0 {
        let vp = verdicts.push(cur);
        assert(vp[0] == cur);
        assert(vp.drop_first() =~= Seq::<bool>::empty());
        assert(emissions(cur, vp.drop_first()) =~= Seq::<Role>::empty());
        if prev != cur {
            assert(emissions(prev, vp) =~= emissions(prev, verdicts).push(role_of(cur)));
        } else {
            assert(emissions(prev, vp) =~= emissions(prev, verdicts));
        }
    } else {
        lemma_emissions_push(verdicts[0], verdicts.drop_first(), cur);
        assert(verdicts.push(cur).drop_first() =~= verdicts.drop_first().push(cur));
        if verdicts.last() != cur {
            assert(emissions(prev, verdicts.push(cur)) =~= emissions(prev, verdicts).push(role_of(cur)));
        } else {
            assert(emissions(prev, verdicts.push(cur)) =~= emissions(prev, verdicts));
        }
    }
}

/// Law: a verdict flip launches exactly one hook. When the newly read verdict
/// differs from the last one seen, the run's hook trace grows by exactly the
/// one hook for the new role; when it is unchanged, the trace does not grow.
/// In particular a flip to leader launches one become-leader hook and
/// repeating leader verdicts launch no duplicate.
pub proof fn lemma_flip_launches_once(verdicts: Seq<bool>, cur: bool)
    ensures
        last_seen(verdicts) != cur
            ==> hook_trace(verdicts.push(cur)) == hook_trace(verdicts).push(role_of(cur)),
        last_seen(verdicts) == cur
            ==> hook_trace(verdicts.push(cur)) == hook_trace(verdicts),
{
    lemma_emissions_push(false, verdicts, cur);
    if last_seen(verdicts) != cur {
        assert(hook_trace(verdicts.push(cur)) =~= hook_trace(verdicts).push(role_of(cur)));
    } else {
        assert(hook_trace(verdicts.push(cur)) =~= hook_trace(verdicts));
    }
}

/// Decide the hook to launch on one tick, from the previously observed
/// verdict and the one just read.
pub fn transition(prev: bool, cur: bool) -> (h: Option<Role>)
    ensures
        h == transition_spec(prev, cur),
{
    if cur != prev {
        if cur {
            Some(Role::Leader)
        } else {
            Some(Role::Standby)
        }
    } else {
        None
    }
}

} // verus!
