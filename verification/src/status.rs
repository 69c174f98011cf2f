//! How the status of a record is worked out from the statuses of the
//! records directly below it.

use crate::model::Status;
use vstd::prelude::*;

verus! {

/// Every status in the sequence is `status`.
pub open spec fn all_are(statuses: Seq<Status>, status: Status) -> bool {
    forall|i: int| 0 <= i < statuses.len() ==> statuses[i] == status
}

/// The status that the statuses of the children give their parent: with no
/// child it has not started; it is completed when every child is, has not
/// started when no child has, and is in progress otherwise.
pub open spec fn spec_aggregate(statuses: Seq<Status>) -> Status {
    if statuses.len() == 0 {
        Status::NotStarted
    } else if all_are(statuses, Status::Completed) {
        Status::Completed
    } else if all_are(statuses, Status::NotStarted) {
        Status::NotStarted
    } else {
        Status::InProgress
    }
}

/// The status that the statuses of the children give their parent.
pub fn aggregate(statuses: &Vec<Status>) -> (status: Status)
    ensures
        status == spec_aggregate(statuses@),
{
    let mut all_completed = true;
    let mut none_started = true;
    let mut i: usize = 0;
    while i < statuses.len()
        invariant
            i <= statuses.len(),
            all_completed == all_are(statuses@.take(i as int), Status::Completed),
            none_started == all_are(statuses@.take(i as int), Status::NotStarted),
        decreases statuses.len() - i,
    {
        proof {
            let before = statuses@.take(i as int);
            let after = statuses@.take(i + 1);
            assert(after[i as int] == statuses@[i as int]);
            assert(forall|k: int| 0 <= k < before.len() ==> before[k] == after[k]);
        }
        match statuses[i] {
            Status::Completed => {
                none_started = false;
            },
            Status::NotStarted => {
                all_completed = false;
            },
            Status::InProgress => {
                all_completed = false;
                none_started = false;
            },
        }
        i += 1;
    }
    proof {
        assert(statuses@.take(i as int) == statuses@);
    }
    if statuses.len() == 0 {
        Status::NotStarted
    } else if all_completed {
        Status::Completed
    } else if none_started {
        Status::NotStarted
    } else {
        Status::InProgress
    }
}

/// The status of a parent does not depend on the order of its children:
/// it is settled by which statuses occur among them.
pub proof fn lemma_aggregate_by_occurrence(first: Seq<Status>, second: Seq<Status>)
    requires
        forall|s: Status| first.contains(s) <==> second.contains(s),
    ensures
        spec_aggregate(first) == spec_aggregate(second),
{
    if first.len() > 0 {
        assert(first.contains(first[0]));
    }
    if second.len() > 0 {
        assert(second.contains(second[0]));
    }
    assert forall|s: Status| all_are(first, s) == all_are(second, s) by {
        if all_are(first, s) && !all_are(second, s) {
            let k = choose|k: int| 0 <= k < second.len() && second[k] != s;
            assert(second.contains(second[k]));
        }
        if all_are(second, s) && !all_are(first, s) {
            let k = choose|k: int| 0 <= k < first.len() && first[k] != s;
            assert(first.contains(first[k]));
        }
    }
}

} // verus!
