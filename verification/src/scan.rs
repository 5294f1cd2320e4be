//! Taking in the provider's answers, region by region: every listed
//! instance becomes a display record, in the order listed, and the longest
//! name seen sets the width of the name column.

use crate::instance::{instance_to_struct, normalized, Instance, InstanceView};
use crate::raw::{
    listed_instances, reserved_instances, DescribeInstancesResult, RawInstanceView, RequestError,
};
use crate::table::all_displayable;
use crate::timestamp::timestamp_in_range;
use vstd::prelude::*;

verus! {

/// The display records of a run of raw records, in order.
pub open spec fn normalized_all(raws: Seq<RawInstanceView>) -> Seq<InstanceView> {
    raws.map_values(|raw: RawInstanceView| normalized(raw))
}

/// The length of the longest name among `records`, 0 where there are none.
pub open spec fn longest_name(records: Seq<InstanceView>) -> nat
    decreases records.len(),
{
    if records.len() == 0 {
        0
    } else {
        let rest = longest_name(records.drop_last());
        if records.last().name.len() > rest {
            records.last().name.len()
        } else {
            rest
        }
    }
}

/// The larger of two lengths.
pub open spec fn longer(a: nat, b: nat) -> nat {
    if a > b {
        a
    } else {
        b
    }
}

/// `longest_name` is the maximum of the name lengths: no name is longer,
/// and where there is a record, some name is that long.
pub proof fn longest_name_is_maximum(records: Seq<InstanceView>)
    ensures
        forall|i: int|
            0 <= i < records.len() ==> (#[trigger] records[i]).name.len() <= longest_name(records),
        records.len() > 0 ==> exists|i: int|
            0 <= i < records.len() && (#[trigger] records[i]).name.len() == longest_name(records),
        records.len() == 0 ==> longest_name(records) == 0,
    decreases records.len(),
{
    if records.len() > 0 {
        let front = records.drop_last();
        longest_name_is_maximum(front);
        assert forall|i: int| 0 <= i < records.len() implies (#[trigger] records[i]).name.len()
            <= longest_name(records) by {
            if i < front.len() {
                assert(front[i] == records[i]);
            }
        }
        if records.last().name.len() > longest_name(front) || front.len() == 0 {
            assert(records[records.len() - 1].name.len() == longest_name(records));
        } else {
            let i = choose|i: int|
                0 <= i < front.len() && (#[trigger] front[i]).name.len() == longest_name(front);
            assert(records[i] == front[i]);
        }
    }
}

/// The longest name of two runs of records together is the longer of their
/// longest names: the width over every region is the maximum of the
/// regions' widths.
pub proof fn longest_name_of_both(first: Seq<InstanceView>, second: Seq<InstanceView>)
    ensures
        longest_name(first + second) == longer(longest_name(first), longest_name(second)),
    decreases second.len(),
{
    if second.len() == 0 {
        assert(first + second =~= first);
    } else {
        longest_name_of_both(first, second.drop_last());
        assert((first + second).drop_last() =~= first + second.drop_last());
        assert((first + second).last() == second.last());
    }
}

/// `after` begins with `before`, and keeps every launch time writable if
/// `before` did.
spec fn extends(before: Seq<Instance>, after: Seq<Instance>) -> bool {
    &&& after.len() >= before.len()
    &&& after.subrange(0, before.len() as int) == before
    &&& all_displayable(before) ==> all_displayable(after)
}

/// Pushing a record with a writable launch time keeps `extends`.
proof fn extends_by_push(before: Seq<Instance>, held: Seq<Instance>, after: Seq<Instance>)
    requires
        extends(before, held),
        after.len() == held.len() + 1,
        after.drop_last() == held,
        timestamp_in_range(after.last().launch_time_sec),
    ensures
        extends(before, after),
{
    assert(after.subrange(0, before.len() as int) =~= held.subrange(0, before.len() as int));
    if all_displayable(before) {
        assert forall|i: int| 0 <= i < after.len() implies timestamp_in_range(
            (#[trigger] after[i]).launch_time_sec,
        ) by {
            if i < held.len() {
                assert(after.drop_last()[i] == held[i]);
            }
        }
    }
}

/// Takes in the outcome of one region's describe-instances request.
///
/// A failed request contributes nothing. Otherwise every instance of every
/// reservation is normalised and appended to `all_instances`, in the order
/// listed. Returns the length of the longest name among the records
/// appended, 0 where there are none.
pub fn find_instances(
    outcome: &Result<DescribeInstancesResult, RequestError>,
    all_instances: &mut Vec<Instance>,
) -> (name_max: usize)
    ensures
        final(all_instances).deep_view() == old(all_instances).deep_view() + normalized_all(
            listed_instances(*outcome),
        ),
        final(all_instances)@.len() >= old(all_instances)@.len(),
        final(all_instances)@.subrange(0, old(all_instances)@.len() as int) == old(
            all_instances,
        )@,
        all_displayable(old(all_instances)@) ==> all_displayable(final(all_instances)@),
        name_max == longest_name(normalized_all(listed_instances(*outcome))),
{
    let ghost before = all_instances@;
    let ghost shown = all_instances.deep_view();
    proof {
        assert(shown + normalized_all(Seq::empty()) =~= shown);
        assert(before.subrange(0, before.len() as int) =~= before);
    }
    let mut name_max: usize = 0;
    match outcome {
        Ok(answer) => match &answer.reservations {
            Some(reservations) => {
                let mut r: usize = 0;
                while r < reservations.len()
                    invariant
                        r <= reservations.len(),
                        extends(before, all_instances@),
                        all_instances.deep_view() == shown + normalized_all(
                            reserved_instances(reservations@.take(r as int)),
                        ),
                        name_max == longest_name(
                            normalized_all(reserved_instances(reservations@.take(r as int))),
                        ),
                    decreases reservations.len() - r,
                {
                    let ghost done = reserved_instances(reservations@.take(r as int));
                    proof {
                        let next = reservations@.take(r as int + 1);
                        assert(next.drop_last() =~= reservations@.take(r as int));
                        assert(done + Seq::<RawInstanceView>::empty() =~= done);
                    }
                    match &reservations[r].instances {
                        Some(instances) => {
                            let mut k: usize = 0;
                            proof {
                                assert(done + instances.deep_view().take(0) =~= done);
                            }
                            while k < instances.len()
                                invariant
                                    k <= instances.len(),
                                    extends(before, all_instances@),
                                    all_instances.deep_view() == shown + normalized_all(
                                        done + instances.deep_view().take(k as int),
                                    ),
                                    name_max == longest_name(
                                        normalized_all(done + instances.deep_view().take(k as int)),
                                    ),
                                decreases instances.len() - k,
                            {
                                let ghost held = all_instances@;
                                let ghost seen = done + instances.deep_view().take(k as int);
                                let name_len = instance_to_struct(&instances[k], all_instances);
                                proof {
                                    let grown = done + instances.deep_view().take(k as int + 1);
                                    assert(grown =~= seen.push(instances@[k as int]@));
                                    assert(normalized_all(grown).drop_last() =~= normalized_all(
                                        seen,
                                    ));
                                    extends_by_push(before, held, all_instances@);
                                    assert(all_instances.deep_view() =~= shown + normalized_all(
                                        grown,
                                    ));
                                }
                                if name_len > name_max {
                                    name_max = name_len;
                                }
                                k = k + 1;
                            }
                            proof {
                                assert(instances.deep_view().take(k as int)
                                    =~= instances.deep_view());
                            }
                        },
                        None => {},
                    }
                    r = r + 1;
                }
                proof {
                    assert(reservations@.take(r as int) =~= reservations@);
                }
            },
            None => {},
        },
        Err(_) => {},
    }
    name_max
}

} // verus!
