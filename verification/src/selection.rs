use vstd::prelude::*;

use crate::discovery::{is_selectable_record, selectable_records, DiscoveryRecord};
use crate::protocol::{ErrorCode, InstanceId};

verus! {

/// How a client picks the app instance it talks to.
#[derive(Clone, Debug, PartialEq, Eq)]
pub enum InstanceSelector {
    Default,
    Id(InstanceId),
    Pid(u32),
}

pub open spec fn has_instance_id(id: Seq<char>) -> spec_fn(DiscoveryRecord) -> bool {
    |record: DiscoveryRecord| record.instance_id@ == id
}

pub open spec fn has_pid(pid: u32) -> spec_fn(DiscoveryRecord) -> bool {
    |record: DiscoveryRecord| record.pid == pid
}

/// The selectable records that `selector` names, in order.
pub open spec fn instance_matches(records: Seq<DiscoveryRecord>, selector: InstanceSelector) -> Seq<
    DiscoveryRecord,
> {
    let candidates = selectable_records(records);
    match selector {
        InstanceSelector::Default => candidates,
        InstanceSelector::Id(id) => candidates.filter(has_instance_id(id.0@)),
        InstanceSelector::Pid(pid) => candidates.filter(has_pid(pid)),
    }
}

/// The one match, or `NoInstance` for none and `AmbiguousInstance` for several.
pub open spec fn exactly_one_of(matches: Seq<DiscoveryRecord>) -> Result<DiscoveryRecord, ErrorCode> {
    if matches.len() == 0 {
        Err(ErrorCode::NoInstance)
    } else if matches.len() == 1 {
        Ok(matches[0])
    } else {
        Err(ErrorCode::AmbiguousInstance)
    }
}

/// The outcome of selecting an instance among `records` with `selector`.
pub open spec fn selection_outcome(records: Seq<DiscoveryRecord>, selector: InstanceSelector) -> Result<
    DiscoveryRecord,
    ErrorCode,
> {
    exactly_one_of(instance_matches(records, selector))
}

/// Positions `positions` of `records` hold exactly the sequence `expected`.
pub open spec fn positions_hold(
    records: Seq<DiscoveryRecord>,
    positions: Seq<usize>,
    expected: Seq<DiscoveryRecord>,
) -> bool {
    &&& positions.len() == expected.len()
    &&& forall|j: int|
        0 <= j < positions.len() ==> (#[trigger] positions[j]) < records.len() && records[positions[j] as int]
            == expected[j]
}

fn exactly_one<'a>(records: &'a [DiscoveryRecord], matches: Vec<usize>, Ghost(expected): Ghost<
    Seq<DiscoveryRecord>,
>) -> (result: Result<&'a DiscoveryRecord, ErrorCode>)
    requires
        positions_hold(records@, matches@, expected),
    ensures
        match result {
            Ok(record) => exactly_one_of(expected) == Ok::<DiscoveryRecord, ErrorCode>(*record),
            Err(code) => exactly_one_of(expected) == Err::<DiscoveryRecord, ErrorCode>(code),
        },
{
    if matches.len() == 0 {
        Err(ErrorCode::NoInstance)
    } else if matches.len() == 1 {
        Ok(&records[matches[0]])
    } else {
        Err(ErrorCode::AmbiguousInstance)
    }
}

/// Selects the one compatible, actionable instance that `selector` names. The default
/// selector succeeds only when exactly one such instance exists; an explicit id or process
/// id must match exactly one of them. Nothing is ever picked among several.
pub fn select_instance<'a>(records: &'a [DiscoveryRecord], selector: &InstanceSelector) -> (result:
    Result<&'a DiscoveryRecord, ErrorCode>)
    ensures
        match result {
            Ok(record) => selection_outcome(records@, *selector) == Ok::<DiscoveryRecord, ErrorCode>(*record),
            Err(code) => selection_outcome(records@, *selector) == Err::<DiscoveryRecord, ErrorCode>(code),
        },
{
    let ghost candidates = selectable_records(records@);
    let mut compatible: Vec<usize> = Vec::new();
    let mut i: usize = 0;
    while i < records.len()
        invariant
            0 <= i <= records@.len(),
            positions_hold(records@, compatible@, selectable_records(records@.take(i as int))),
        decreases records@.len() - i,
    {
        proof {
            reveal_with_fuel(Seq::<_>::filter, 1);
            assert(records@.take(i + 1).drop_last() =~= records@.take(i as int));
        }
        if records[i].is_compatible() && records[i].is_actionable() {
            compatible.push(i);
        }
        i = i + 1;
    }
    assert(records@.take(records@.len() as int) =~= records@);
    match selector {
        InstanceSelector::Default => exactly_one(records, compatible, Ghost(candidates)),
        InstanceSelector::Id(id) => {
                        let mut matches: Vec<usize> = Vec::new();
            let mut j: usize = 0;
            while j < compatible.len()
                invariant
                    0 <= j <= compatible@.len(),
                    positions_hold(records@, compatible@, candidates),
                    positions_hold(records@, matches@, candidates.take(j as int).filter(has_instance_id(id.0@))),
                decreases compatible@.len() - j,
            {
                proof {
                    reveal_with_fuel(Seq::<_>::filter, 1);
                    assert(candidates.take(j + 1).drop_last() =~= candidates.take(j as int));
                }
                let k = compatible[j];
                assert(candidates.take(j + 1).last() == records@[k as int]);
                assert(has_instance_id(id.0@)(records@[k as int]) == (records@[k as int].instance_id@ == id.0@));
                if records[k].instance_id == id.0 {
                    matches.push(k);
                }
                j = j + 1;
            }
            assert(candidates.take(compatible@.len() as int) =~= candidates);
            exactly_one(records, matches, Ghost(candidates.filter(has_instance_id(id.0@))))
        },
        InstanceSelector::Pid(pid) => {
                        let mut matches: Vec<usize> = Vec::new();
            let mut j: usize = 0;
            while j < compatible.len()
                invariant
                    0 <= j <= compatible@.len(),
                    positions_hold(records@, compatible@, candidates),
                    positions_hold(records@, matches@, candidates.take(j as int).filter(has_pid(*pid))),
                decreases compatible@.len() - j,
            {
                proof {
                    reveal_with_fuel(Seq::<_>::filter, 1);
                    assert(candidates.take(j + 1).drop_last() =~= candidates.take(j as int));
                }
                let k = compatible[j];
                assert(candidates.take(j + 1).last() == records@[k as int]);
                assert(has_pid(*pid)(records@[k as int]) == (records@[k as int].pid == *pid));
                if records[k].pid == *pid {
                    matches.push(k);
                }
                j = j + 1;
            }
            assert(candidates.take(compatible@.len() as int) =~= candidates);
            exactly_one(records, matches, Ghost(candidates.filter(has_pid(*pid))))
        },
    }
}

/// A selected instance is always one of the given records, compatible and actionable, and
/// it carries the id or process id that the selector names: selection never retargets.
pub proof fn lemma_selection_resolves_exactly(
    records: Seq<DiscoveryRecord>,
    selector: InstanceSelector,
    record: DiscoveryRecord,
)
    requires
        selection_outcome(records, selector) == Ok::<DiscoveryRecord, ErrorCode>(record),
    ensures
        records.contains(record),
        is_selectable_record(record),
        selector matches InstanceSelector::Id(id) ==> record.instance_id@ == id.0@,
        selector matches InstanceSelector::Pid(pid) ==> record.pid == pid,
{
    let candidates = selectable_records(records);
    let is_candidate = |r: DiscoveryRecord| is_selectable_record(r);
    let matches = instance_matches(records, selector);
    assert(matches[0] == record);
    match selector {
        InstanceSelector::Default => {
            records.lemma_filter_pred(is_candidate, 0);
            assert(candidates.contains(record));
        },
        InstanceSelector::Id(id) => {
            let pred = has_instance_id(id.0@);
            candidates.lemma_filter_pred(pred, 0);
            assert(matches.contains(record));
            candidates.lemma_filter_contains_rev(pred, record);
            let k = choose|k: int| 0 <= k < candidates.len() && candidates[k] == record;
            records.lemma_filter_pred(is_candidate, k);
        },
        InstanceSelector::Pid(pid) => {
            let pred = has_pid(pid);
            candidates.lemma_filter_pred(pred, 0);
            assert(matches.contains(record));
            candidates.lemma_filter_contains_rev(pred, record);
            let k = choose|k: int| 0 <= k < candidates.len() && candidates[k] == record;
            records.lemma_filter_pred(is_candidate, k);
        },
    }
    records.lemma_filter_contains_rev(is_candidate, record);
}

/// With several compatible, actionable instances the default selector refuses to pick one.
pub proof fn lemma_default_selection_never_guesses(records: Seq<DiscoveryRecord>)
    requires
        selectable_records(records).len() > 1,
    ensures
        selection_outcome(records, InstanceSelector::Default) == Err::<DiscoveryRecord, ErrorCode>(
            ErrorCode::AmbiguousInstance,
        ),
{
}

} // verus!
