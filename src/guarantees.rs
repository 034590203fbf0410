//! What holds of every run of the install, proved over the transition
//! function that `Installer::step` implements.
use vstd::prelude::*;

use crate::catalog::{catalog, lemma_catalog_nonempty};
use crate::error::InstallErrorV;
use crate::install::{
    after_link, begin_model, current_dest, current_url, next_state, pending, well_formed, ActionV,
    EventV, InstallerV, LinkOutcome, StageV,
};
use crate::probe::{identity_field, identity_usable, is_redirect, is_success, resolution};

verus! {

/// The state after each event of `evs` in turn.
pub open spec fn run_state(v: InstallerV, evs: Seq<EventV>) -> InstallerV
    decreases evs.len(),
{
    if evs.len() == 0 {
        v
    } else {
        run_state(next_state(v, evs[0]), evs.drop_first())
    }
}

/// The actions asked for after each event of `evs` in turn.
pub open spec fn run_actions(v: InstallerV, evs: Seq<EventV>) -> Seq<ActionV>
    decreases evs.len(),
{
    if evs.len() == 0 {
        seq![]
    } else {
        let w = next_state(v, evs[0]);
        seq![pending(w)] + run_actions(w, evs.drop_first())
    }
}

/// The destinations linked during the run: each one at which a link was
/// asked for and reported made.
pub open spec fn linked_dests(v: InstallerV, evs: Seq<EventV>) -> Seq<Seq<char>>
    decreases evs.len(),
{
    if evs.len() == 0 {
        seq![]
    } else {
        let here = if v.stage is AwaitLink && evs[0] == (EventV::Linked {
            outcome: LinkOutcome::Linked,
        }) {
            seq![current_dest(v)]
        } else {
            seq![]
        };
        here + linked_dests(next_state(v, evs[0]), evs.drop_first())
    }
}

pub open spec fn dests(arts: Seq<(Seq<char>, Seq<char>)>) -> Seq<Seq<char>> {
    arts.map_values(|a: (Seq<char>, Seq<char>)| a.1)
}

/// The destinations of every artifact of the named models, in install order.
pub open spec fn all_dests(names: Seq<Seq<char>>) -> Seq<Seq<char>>
    decreases names.len(),
{
    if names.len() == 0 {
        seq![]
    } else {
        match catalog(names[0]) {
            Some(arts) => dests(arts) + all_dests(names.drop_first()),
            None => seq![],
        }
    }
}

/// The destinations that remain to be linked from a state.
pub open spec fn remaining_dests(v: InstallerV) -> Seq<Seq<char>> {
    if v.stage is Done {
        seq![]
    } else {
        dests(v.artifacts).subrange(v.item, v.artifacts.len() as int) + all_dests(
            v.names.subrange(v.model + 1, v.names.len() as int),
        )
    }
}

/// Every state in which an install begins is well formed.
pub proof fn lemma_begin_well_formed(names: Seq<Seq<char>>, m: int)
    requires
        0 <= m <= names.len(),
    ensures
        well_formed(begin_model(names, m)),
{
    if m < names.len() {
        lemma_catalog_nonempty(names[m]);
    }
}

/// Every event keeps the install well formed.
pub proof fn lemma_step_well_formed(v: InstallerV, e: EventV)
    requires
        well_formed(v),
    ensures
        well_formed(next_state(v, e)),
{
    if v.stage is AwaitLink && v.item + 1 >= v.artifacts.len() {
        lemma_begin_well_formed(v.names, v.model + 1);
    }
}

/// A failed install stays failed, whatever comes, and asks for nothing but to
/// abort with its error: no probe, no transfer, no store, no link.
pub proof fn lemma_failure_is_final(v: InstallerV, evs: Seq<EventV>)
    requires
        v.stage is Failed,
    ensures
        run_state(v, evs) == v,
        forall|j: int| 0 <= j < run_actions(v, evs).len() ==> run_actions(v, evs)[j] == pending(v),
        run_actions(v, evs).len() == evs.len(),
    decreases evs.len(),
{
    if evs.len() > 0 {
        lemma_failure_is_final(next_state(v, evs[0]), evs.drop_first());
    }
}

/// A stage in which a body is being transferred or stored.
pub open spec fn transferring(s: StageV) -> bool {
    s is AwaitResponse || s is AwaitStore
}

/// Where the cache already holds every identifier asked about, an install
/// transfers nothing: a transfer is only ever asked for after the cache was
/// found not to hold the identifier.
pub proof fn lemma_cache_hits_transfer_nothing(v: InstallerV, evs: Seq<EventV>)
    requires
        !transferring(v.stage),
        forall|i: int| 0 <= i < evs.len() ==> evs[i] != (EventV::CacheChecked { present: false }),
    ensures
        forall|j: int|
            0 <= j < run_actions(v, evs).len() ==> !(run_actions(v, evs)[j] is Fetch)
                && !(run_actions(v, evs)[j] is Store),
    decreases evs.len(),
{
    if evs.len() > 0 {
        let w = next_state(v, evs[0]);
        assert(evs[0] != (EventV::CacheChecked { present: false }));
        assert(!transferring(w.stage));
        let tail = evs.drop_first();
        assert forall|i: int| 0 <= i < tail.len() implies tail[i] != (EventV::CacheChecked {
            present: false,
        }) by {
            assert(tail[i] == evs[i + 1]);
        }
        lemma_cache_hits_transfer_nothing(w, tail);
        let acts = run_actions(v, evs);
        assert forall|j: int| 0 <= j < acts.len() implies !(acts[j] is Fetch) && !(
        acts[j] is Store) by {
            if j > 0 {
                assert(acts[j] == run_actions(w, tail)[j - 1]);
            }
        }
    }
}

/// A transfer is asked for only as the answer to a cache lookup that found
/// nothing, and for the identifier that was looked up.
pub proof fn lemma_fetch_only_on_miss(v: InstallerV, e: EventV)
    requires
        !transferring(v.stage),
        pending(next_state(v, e)) is Fetch,
    ensures
        e == (EventV::CacheChecked { present: false }),
        v.stage is AwaitCache,
        pending(next_state(v, e))->Fetch_id == v.stage->AwaitCache_id,
{
}

/// The identifier depends on the identity header alone: two probes with the
/// same status and the same value in that header give the same identifier,
/// whatever the other headers hold.
pub proof fn lemma_identity_stable(
    url: Seq<char>,
    status: u16,
    f1: Map<Seq<char>, Seq<u8>>,
    f2: Map<Seq<char>, Seq<u8>>,
)
    requires
        f1.contains_key(identity_field(status)) == f2.contains_key(identity_field(status)),
        f1.contains_key(identity_field(status)) ==> f1[identity_field(status)]
            == f2[identity_field(status)],
    ensures
        resolution(url, status, f1) is Ok == resolution(url, status, f2) is Ok,
        resolution(url, status, f1) is Ok ==> resolution(url, status, f1)->Ok_0.0 == resolution(
            url,
            status,
            f2,
        )->Ok_0.0,
{
}

/// A model that is not in the catalog stops the install at once: nothing is
/// probed, fetched, stored or linked for it or after it.
pub proof fn lemma_unknown_model_aborts(names: Seq<Seq<char>>, m: int, evs: Seq<EventV>)
    requires
        0 <= m < names.len(),
        catalog(names[m]) is None,
    ensures
        pending(begin_model(names, m)) == (ActionV::Abort {
            error: InstallErrorV::UnknownModel { name: names[m] },
        }),
        forall|j: int|
            0 <= j < run_actions(begin_model(names, m), evs).len() ==> run_actions(
                begin_model(names, m),
                evs,
            )[j] == pending(begin_model(names, m)),
{
    lemma_failure_is_final(begin_model(names, m), evs);
}

/// A probe answered without a usable identity header aborts the install with
/// `MissingIdentity`; one that carries it but is answered with neither a
/// success nor a redirect aborts with `FetchFailed`; so does a transfer that
/// is not answered with a success. Nothing is stored afterwards.
pub proof fn lemma_bad_answers_abort(v: InstallerV, e: EventV, evs: Seq<EventV>)
    requires
        well_formed(v),
        ({
            ||| (v.stage is AwaitProbe && e is Probed && !(is_success(e->Probed_status)
                || is_redirect(e->Probed_status)))
            ||| (v.stage is AwaitProbe && e is Probed && !identity_usable(
                e->Probed_status,
                e->Probed_fields,
            ))
            ||| (v.stage is AwaitResponse && e is Responded && !is_success(e->Responded_status))
        }),
    ensures
        v.stage is AwaitProbe && !identity_usable(e->Probed_status, e->Probed_fields)
            ==> next_state(v, e).stage == (StageV::Failed {
            error: InstallErrorV::MissingIdentity { url: current_url(v) },
        }),
        v.stage is AwaitProbe && identity_usable(e->Probed_status, e->Probed_fields)
            ==> next_state(v, e).stage == (StageV::Failed {
            error: InstallErrorV::FetchFailed { url: current_url(v), status: e->Probed_status },
        }),
        v.stage is AwaitResponse ==> next_state(v, e).stage == (StageV::Failed {
            error: InstallErrorV::FetchFailed { url: current_url(v), status: e->Responded_status },
        }),
        forall|j: int|
            0 <= j < run_actions(next_state(v, e), evs).len() ==> !(run_actions(
                next_state(v, e),
                evs,
            )[j] is Store),
{
    lemma_failure_is_final(next_state(v, e), evs);
}

/// A destination that already exists stops the install with a collision;
/// nothing is written afterwards, so what is there stays as it was.
pub proof fn lemma_collision_aborts(v: InstallerV, evs: Seq<EventV>)
    requires
        well_formed(v),
        v.stage is AwaitLink,
    ensures
        next_state(v, EventV::Linked { outcome: LinkOutcome::AlreadyExists }).stage == (
        StageV::Failed { error: InstallErrorV::LinkCollision { path: current_dest(v) } }),
        forall|j: int|
            0 <= j < run_actions(
                next_state(v, EventV::Linked { outcome: LinkOutcome::AlreadyExists }),
                evs,
            ).len() ==> run_actions(
                next_state(v, EventV::Linked { outcome: LinkOutcome::AlreadyExists }),
                evs,
            )[j] is Abort,
{
    lemma_failure_is_final(next_state(v, EventV::Linked { outcome: LinkOutcome::AlreadyExists }), evs);
}


proof fn lemma_remaining_after_link(v: InstallerV)
    requires
        well_formed(v),
        v.stage is AwaitLink,
        !(after_link(v).stage is Failed),
    ensures
        remaining_dests(v) == seq![current_dest(v)] + remaining_dests(after_link(v)),
{
    let d = dests(v.artifacts);
    let n = v.artifacts.len() as int;
    let w = after_link(v);
    if v.item + 1 < n {
        assert(d.subrange(v.item, n) =~= seq![current_dest(v)] + d.subrange(v.item + 1, n));
    } else {
        assert(d.subrange(v.item, n) =~= seq![current_dest(v)]);
        let rest = v.names.subrange(v.model + 1, v.names.len() as int);
        if v.model + 1 < v.names.len() {
            let arts = catalog(v.names[v.model + 1])->0;
            assert(rest.drop_first() =~= v.names.subrange(v.model + 2, v.names.len() as int));
            assert(dests(arts).subrange(0, arts.len() as int) =~= dests(arts));
        } else {
            assert(rest =~= seq![]);
        }
        assert(remaining_dests(v) =~= seq![current_dest(v)] + remaining_dests(w));
    }
}

proof fn lemma_linked_is_remaining(v: InstallerV, evs: Seq<EventV>)
    requires
        well_formed(v),
        run_state(v, evs).stage is Done,
    ensures
        linked_dests(v, evs) == remaining_dests(v),
    decreases evs.len(),
{
    if v.stage is Failed {
        lemma_failure_is_final(v, evs);
        return;
    }
    if evs.len() == 0 {
        assert(linked_dests(v, evs) =~= remaining_dests(v));
        return;
    }
    let e = evs[0];
    let w = next_state(v, e);
    let tail = evs.drop_first();
    lemma_step_well_formed(v, e);
    if w.stage is Failed {
        lemma_failure_is_final(w, tail);
        return;
    }
    lemma_linked_is_remaining(w, tail);
    if v.stage is AwaitLink && e == (EventV::Linked { outcome: LinkOutcome::Linked }) {
        lemma_remaining_after_link(v);
    } else {
        assert(remaining_dests(w) == remaining_dests(v));
        assert(linked_dests(v, evs) =~= linked_dests(w, tail));
    }
}

/// An install that finishes has linked, in order, exactly the destination of
/// every artifact of every requested model: each one once, and nothing else.
pub proof fn lemma_links_follow_catalog(names: Seq<Seq<char>>, evs: Seq<EventV>)
    requires
        run_state(begin_model(names, 0), evs).stage is Done,
    ensures
        linked_dests(begin_model(names, 0), evs) == all_dests(names),
{
    let v = begin_model(names, 0);
    lemma_begin_well_formed(names, 0);
    lemma_linked_is_remaining(v, evs);
    if v.stage is Failed {
        lemma_failure_is_final(v, evs);
    } else if names.len() > 0 {
        let arts = catalog(names[0])->0;
        assert(names.subrange(1, names.len() as int) =~= names.drop_first());
        assert(dests(arts).subrange(0, arts.len() as int) =~= dests(arts));
    } else {
        assert(all_dests(names) =~= seq![]);
    }
}


/// The cache entries linked during the run, in the order of `linked_dests`:
/// the identifier of each link asked for and reported made.
pub open spec fn linked_ids(v: InstallerV, evs: Seq<EventV>) -> Seq<Seq<char>>
    decreases evs.len(),
{
    if evs.len() == 0 {
        seq![]
    } else {
        let here = if v.stage is AwaitLink && evs[0] == (EventV::Linked {
            outcome: LinkOutcome::Linked,
        }) {
            seq![v.stage->AwaitLink_id]
        } else {
            seq![]
        };
        here + linked_ids(next_state(v, evs[0]), evs.drop_first())
    }
}

/// The identifiers that the run's probes resolved, in order.
pub open spec fn resolved_ids(v: InstallerV, evs: Seq<EventV>) -> Seq<Seq<char>>
    decreases evs.len(),
{
    if evs.len() == 0 {
        seq![]
    } else {
        let w = next_state(v, evs[0]);
        let here = if v.stage is AwaitProbe && w.stage is AwaitCache {
            seq![w.stage->AwaitCache_id]
        } else {
            seq![]
        };
        here + resolved_ids(w, evs.drop_first())
    }
}

/// The identifier that a state holds for the current artifact, if any.
pub open spec fn carried_id(v: InstallerV) -> Seq<Seq<char>> {
    match v.stage {
        StageV::AwaitCache { id, .. } => seq![id],
        StageV::AwaitResponse { id, .. } => seq![id],
        StageV::AwaitStore { id } => seq![id],
        StageV::AwaitLink { id } => seq![id],
        _ => seq![],
    }
}

proof fn lemma_linked_ids_are_resolved(v: InstallerV, evs: Seq<EventV>)
    requires
        well_formed(v),
        run_state(v, evs).stage is Done,
    ensures
        linked_ids(v, evs) == carried_id(v) + resolved_ids(v, evs),
    decreases evs.len(),
{
    if v.stage is Failed {
        lemma_failure_is_final(v, evs);
        return;
    }
    if evs.len() == 0 {
        assert(linked_ids(v, evs) =~= carried_id(v) + resolved_ids(v, evs));
        return;
    }
    let e = evs[0];
    let w = next_state(v, e);
    let tail = evs.drop_first();
    lemma_step_well_formed(v, e);
    if w.stage is Failed {
        lemma_failure_is_final(w, tail);
        return;
    }
    lemma_linked_ids_are_resolved(w, tail);
    if v.stage is AwaitLink && e == (EventV::Linked { outcome: LinkOutcome::Linked }) {
        assert(carried_id(w) =~= seq![]);
        assert(linked_ids(v, evs) =~= carried_id(v) + resolved_ids(v, evs));
    } else if v.stage is AwaitProbe && w.stage is AwaitCache {
        assert(linked_ids(v, evs) =~= carried_id(v) + resolved_ids(v, evs));
    } else {
        assert(carried_id(w) == carried_id(v));
        assert(linked_ids(v, evs) =~= carried_id(v) + resolved_ids(v, evs));
    }
}

/// An install that finishes links every destination to the cache entry named
/// by the identifier that its own probe resolved: the `i`-th link made joins
/// `linked_dests(..)[i]`, the `i`-th destination of the catalog, to the `i`-th
/// identifier resolved.
pub proof fn lemma_links_use_resolved_ids(names: Seq<Seq<char>>, evs: Seq<EventV>)
    requires
        run_state(begin_model(names, 0), evs).stage is Done,
    ensures
        linked_ids(begin_model(names, 0), evs) == resolved_ids(begin_model(names, 0), evs),
        linked_dests(begin_model(names, 0), evs) == all_dests(names),
{
    let v = begin_model(names, 0);
    lemma_begin_well_formed(names, 0);
    lemma_linked_ids_are_resolved(v, evs);
    assert(carried_id(v) =~= seq![]);
    assert(carried_id(v) + resolved_ids(v, evs) =~= resolved_ids(v, evs));
    lemma_links_follow_catalog(names, evs);
}

/// Two finished installs of the same models, into two destination trees,
/// whose probes resolved the same identifiers (the remote content did not
/// change) link each destination to the same cache entry. Entries are written
/// once and never changed, so the installed files are identical.
pub proof fn lemma_reinstall_links_same_entries(
    names: Seq<Seq<char>>,
    evs1: Seq<EventV>,
    evs2: Seq<EventV>,
)
    requires
        run_state(begin_model(names, 0), evs1).stage is Done,
        run_state(begin_model(names, 0), evs2).stage is Done,
        resolved_ids(begin_model(names, 0), evs1) == resolved_ids(begin_model(names, 0), evs2),
    ensures
        linked_dests(begin_model(names, 0), evs1) == linked_dests(begin_model(names, 0), evs2),
        linked_ids(begin_model(names, 0), evs1) == linked_ids(begin_model(names, 0), evs2),
{
    lemma_links_use_resolved_ids(names, evs1);
    lemma_links_use_resolved_ids(names, evs2);
}

} // verus!
