//! The fan-out over social platforms: which probes to make, and how their
//! answers, in whatever order they arrive, become one result per platform in
//! platform order.
use vstd::prelude::*;
use crate::config::{fill_slots, fill_template, platform_table, social_platforms};
use crate::social::{classify_outcome, outcome_verdict, ProbeOutcome, SocialResult, SocialStatus};
use crate::utils::{handle_ok_for, validate_for_platform};

verus! {

broadcast use vstd::string::group_string_axioms;

/// One social platform to check: its name, the profile URL to fetch, and
/// whether the handle passed the platform's syntax rules. An invalid target is
/// never fetched.
#[derive(Debug, Clone)]
pub struct SocialTarget {
    pub platform: String,
    pub url: String,
    pub valid: bool,
}

/// The outcome that arrived last for target `i`, if any did.
pub open spec fn outcome_at(arrivals: Seq<(usize, ProbeOutcome)>, i: int) -> Option<ProbeOutcome>
    decreases arrivals.len(),
{
    if arrivals.len() == 0 {
        None
    } else if arrivals.last().0 == i {
        Some(arrivals.last().1)
    } else {
        outcome_at(arrivals.drop_last(), i)
    }
}

/// The verdict on a target given what arrived for it.
pub open spec fn target_status(target: SocialTarget, arrival: Option<ProbeOutcome>) -> SocialStatus {
    if !target.valid {
        SocialStatus::Invalid
    } else {
        match arrival {
            Some(outcome) => outcome_verdict(target.url@, outcome),
            None => SocialStatus::Unknown,
        }
    }
}

/// The verdicts on `targets`, in target order, given the arrivals.
pub open spec fn social_statuses(
    targets: Seq<SocialTarget>,
    arrivals: Seq<(usize, ProbeOutcome)>,
) -> Seq<SocialStatus> {
    Seq::new(targets.len(), |i: int| target_status(targets[i], outcome_at(arrivals, i)))
}

/// No two arrivals are for the same target.
pub open spec fn distinct_targets(arrivals: Seq<(usize, ProbeOutcome)>) -> bool {
    forall|a: int, b: int|
        0 <= a < arrivals.len() && 0 <= b < arrivals.len() && a != b ==> #[trigger] arrivals[a].0
            != #[trigger] arrivals[b].0
}

/// The targets for `username`, one per platform in platform order.
pub fn plan_social_checks(username: &str) -> (targets: Vec<SocialTarget>)
    ensures
        targets@.len() == platform_table().len(),
        forall|i: int|
            0 <= i < targets@.len() ==> {
                &&& (#[trigger] targets@[i]).platform@ == platform_table()[i].0
                &&& targets@[i].url@ == fill_slots(platform_table()[i].1, username@)
                &&& targets@[i].valid == handle_ok_for(platform_table()[i].0, username@)
            },
{
    let platforms = social_platforms();
    let mut targets: Vec<SocialTarget> = Vec::new();
    let mut i: usize = 0;
    while i < platforms.len()
        invariant
            i <= platforms@.len(),
            platforms@.len() == platform_table().len(),
            forall|j: int|
                0 <= j < platforms@.len() ==> (#[trigger] platforms@[j].name@,
                platforms@[j].url_template@) == platform_table()[j],
            targets@.len() == i,
            forall|j: int|
                0 <= j < i ==> {
                    &&& (#[trigger] targets@[j]).platform@ == platform_table()[j].0
                    &&& targets@[j].url@ == fill_slots(platform_table()[j].1, username@)
                    &&& targets@[j].valid == handle_ok_for(platform_table()[j].0, username@)
                },
        decreases platforms.len() - i,
    {
        let p = &platforms[i];
        proof {
            assert((platforms@[i as int].name@, platforms@[i as int].url_template@)
                == platform_table()[i as int]);
        }
        let valid = validate_for_platform(p.name, username).is_ok();
        let target = SocialTarget {
            platform: String::from_str(p.name),
            url: fill_template(p.url_template, username),
            valid,
        };
        targets.push(target);
        i = i + 1;
    }
    targets
}

/// One result per target, in target order. `arrivals` holds what each probe
/// brought back, tagged with the index of its target, in the order the probes
/// finished; where a target got more than one, the last counts. A valid target
/// with nothing arrived is `Unknown`, an invalid one is `Invalid`.
pub fn assemble_social_results(
    targets: &Vec<SocialTarget>,
    arrivals: &Vec<(usize, ProbeOutcome)>,
) -> (results: Vec<SocialResult>)
    ensures
        results@.len() == targets@.len(),
        forall|i: int|
            0 <= i < results@.len() ==> {
                &&& (#[trigger] results@[i]).platform@ == targets@[i].platform@
                &&& results@[i].status == social_statuses(targets@, arrivals@)[i]
            },
{
    let n = targets.len();
    let mut slots: Vec<Option<SocialStatus>> = Vec::new();
    let mut i: usize = 0;
    while i < n
        invariant
            n == targets@.len(),
            i <= n,
            slots@.len() == i,
            forall|j: int| 0 <= j < i ==> (#[trigger] slots@[j]) is None,
        decreases n - i,
    {
        slots.push(None);
        i = i + 1;
    }
    let mut k: usize = 0;
    while k < arrivals.len()
        invariant
            n == targets@.len(),
            slots@.len() == n,
            k <= arrivals@.len(),
            forall|j: int|
                0 <= j < n ==> #[trigger] slots@[j] == match outcome_at(arrivals@.take(k as int), j) {
                    Some(o) => Some(outcome_verdict(targets@[j].url@, o)),
                    None => None::<SocialStatus>,
                },
        decreases arrivals.len() - k,
    {
        let idx = arrivals[k].0;
        proof {
            assert(arrivals@.take(k + 1).drop_last() =~= arrivals@.take(k as int));
            assert(arrivals@.take(k + 1).last() == arrivals@[k as int]);
        }
        if idx < n {
            let verdict = classify_outcome(targets[idx].url.as_str(), &arrivals[k].1);
            slots.set(idx, Some(verdict));
        }
        k = k + 1;
    }
    proof {
        assert(arrivals@.take(arrivals@.len() as int) =~= arrivals@);
    }
    let mut results: Vec<SocialResult> = Vec::new();
    let mut i: usize = 0;
    while i < n
        invariant
            n == targets@.len(),
            slots@.len() == n,
            forall|j: int|
                0 <= j < n ==> #[trigger] slots@[j] == match outcome_at(arrivals@, j) {
                    Some(o) => Some(outcome_verdict(targets@[j].url@, o)),
                    None => None::<SocialStatus>,
                },
            i <= n,
            results@.len() == i,
            forall|j: int|
                0 <= j < i ==> {
                    &&& (#[trigger] results@[j]).platform@ == targets@[j].platform@
                    &&& results@[j].status == social_statuses(targets@, arrivals@)[j]
                },
        decreases n - i,
    {
        let status = if !targets[i].valid {
            SocialStatus::Invalid
        } else {
            match slots[i] {
                Some(s) => s,
                None => SocialStatus::Unknown,
            }
        };
        results.push(SocialResult { platform: targets[i].platform.clone(), status });
        i = i + 1;
    }
    results
}

/// With each target arriving at most once, the outcome of target `i` is the
/// one tagged `i`, wherever it stands.
proof fn lemma_outcome_at_distinct(arrivals: Seq<(usize, ProbeOutcome)>, i: int)
    requires
        distinct_targets(arrivals),
    ensures
        outcome_at(arrivals, i) is Some ==> exists|j: int|
            0 <= j < arrivals.len() && #[trigger] arrivals[j].0 == i && outcome_at(arrivals, i)
                == Some(arrivals[j].1),
        forall|j: int|
            0 <= j < arrivals.len() && #[trigger] arrivals[j].0 == i ==> outcome_at(arrivals, i)
                == Some(arrivals[j].1),
    decreases arrivals.len(),
{
    if arrivals.len() > 0 {
        let rest = arrivals.drop_last();
        assert forall|a: int, b: int|
            0 <= a < rest.len() && 0 <= b < rest.len() && a != b implies #[trigger] rest[a].0
            != #[trigger] rest[b].0 by {
            assert(rest[a] == arrivals[a] && rest[b] == arrivals[b]);
        }
        lemma_outcome_at_distinct(rest, i);
        let last = arrivals.len() - 1;
        if arrivals.last().0 == i {
            assert(arrivals[last].0 == i);
        } else {
            if outcome_at(arrivals, i) is Some {
                let j = choose|j: int|
                    0 <= j < rest.len() && #[trigger] rest[j].0 == i && outcome_at(rest, i) == Some(
                        rest[j].1,
                    );
                assert(arrivals[j] == rest[j]);
            }
            assert forall|j: int|
                0 <= j < arrivals.len() && #[trigger] arrivals[j].0 == i implies outcome_at(
                arrivals,
                i,
            ) == Some(arrivals[j].1) by {
                assert(j != last);
                assert(rest[j] == arrivals[j]);
            }
        }
    }
}

/// A probe that fails stays local: with one arrival turned into a transport
/// failure, the result list keeps its length, that valid target becomes
/// `Unknown`, and every other target keeps its verdict.
pub proof fn transport_failure_stays_local(
    targets: Seq<SocialTarget>,
    arrivals: Seq<(usize, ProbeOutcome)>,
    j: int,
)
    requires
        distinct_targets(arrivals),
        0 <= j < arrivals.len(),
        arrivals[j].0 < targets.len(),
        targets[arrivals[j].0 as int].valid,
    ensures
        ({
            let k = arrivals[j].0 as int;
            let failed = arrivals.update(j, (arrivals[j].0, ProbeOutcome::TransportFailure));
            &&& social_statuses(targets, failed).len() == targets.len()
            &&& social_statuses(targets, failed)[k] == SocialStatus::Unknown
            &&& forall|i: int|
                0 <= i < targets.len() && i != k ==> #[trigger] social_statuses(targets, failed)[i]
                    == social_statuses(targets, arrivals)[i]
        }),
{
    let k = arrivals[j].0 as int;
    let failed = arrivals.update(j, (arrivals[j].0, ProbeOutcome::TransportFailure));
    assert(distinct_targets(failed)) by {
        assert forall|a: int, b: int|
            0 <= a < failed.len() && 0 <= b < failed.len() && a != b implies #[trigger] failed[a].0
            != #[trigger] failed[b].0 by {
            assert(failed[a].0 == arrivals[a].0 && failed[b].0 == arrivals[b].0);
        }
    }
    lemma_outcome_at_distinct(failed, k);
    assert(failed[j].0 == k);
    assert forall|i: int|
        0 <= i < targets.len() && i != k implies #[trigger] social_statuses(targets, failed)[i]
        == social_statuses(targets, arrivals)[i] by {
        lemma_outcome_at_distinct(failed, i);
        lemma_outcome_at_distinct(arrivals, i);
        if outcome_at(failed, i) is Some {
            let m = choose|m: int|
                0 <= m < failed.len() && #[trigger] failed[m].0 == i && outcome_at(failed, i)
                    == Some(failed[m].1);
            assert(m != j);
            assert(arrivals[m] == failed[m]);
        }
        if outcome_at(arrivals, i) is Some {
            let m = choose|m: int|
                0 <= m < arrivals.len() && #[trigger] arrivals[m].0 == i && outcome_at(arrivals, i)
                    == Some(arrivals[m].1);
            assert(m != j);
            assert(arrivals[m] == failed[m]);
        }
    }
}

/// The order in which probes finish does not matter: two runs whose arrivals
/// are the same, each target at most once, in any order, give the same
/// verdicts in the same target order.
pub proof fn arrival_order_does_not_matter(
    targets: Seq<SocialTarget>,
    first: Seq<(usize, ProbeOutcome)>,
    second: Seq<(usize, ProbeOutcome)>,
)
    requires
        distinct_targets(first),
        distinct_targets(second),
        first.to_multiset() == second.to_multiset(),
    ensures
        social_statuses(targets, first) == social_statuses(targets, second),
{
    broadcast use vstd::seq_lib::group_to_multiset_ensures;

    assert forall|i: int| 0 <= i < targets.len() implies outcome_at(first, i) == outcome_at(
        second,
        i,
    ) by {
        lemma_outcome_at_distinct(first, i);
        lemma_outcome_at_distinct(second, i);
        if outcome_at(first, i) is Some {
            let m = choose|m: int|
                0 <= m < first.len() && #[trigger] first[m].0 == i && outcome_at(first, i) == Some(
                    first[m].1,
                );
            assert(first.contains(first[m]));
            assert(first.to_multiset().count(first[m]) > 0);
            assert(second.to_multiset().count(first[m]) > 0);
            assert(second.contains(first[m]));
            let m2 = choose|m2: int| 0 <= m2 < second.len() && second[m2] == first[m];
            assert(second[m2].0 == i);
        }
        if outcome_at(second, i) is Some {
            let m = choose|m: int|
                0 <= m < second.len() && #[trigger] second[m].0 == i && outcome_at(second, i)
                    == Some(second[m].1);
            assert(second.contains(second[m]));
            assert(second.to_multiset().count(second[m]) > 0);
            assert(first.to_multiset().count(second[m]) > 0);
            assert(first.contains(second[m]));
            let m2 = choose|m2: int| 0 <= m2 < first.len() && first[m2] == second[m];
            assert(first[m2].0 == i);
        }
    }
    assert(social_statuses(targets, first) =~= social_statuses(targets, second));
}

} // verus!
