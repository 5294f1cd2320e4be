//! The running result of a scan over several regions: the records taken in
//! so far and the width of the name column they need.
//!
//! The caller fetches one region's answer at a time and hands it over; the
//! aggregator decides what it contributes. Whatever has been taken in, the
//! width is the length of the longest name among all the records.

use crate::instance::{Instance, InstanceView};
use crate::raw::{listed_instances, DescribeInstancesResult, RequestError};
use crate::scan::{find_instances, longest_name, longest_name_of_both, normalized_all};
use crate::table::{all_displayable, display_instances, table};
use vstd::prelude::*;

verus! {

/// The regions that are scanned, in scanning order.
pub fn regions() -> (names: Vec<&'static str>)
    ensures
        names.deep_view() == seq!["us-east-1"@, "us-east-2"@, "us-west-1"@, "us-west-2"@],
{
    let mut names: Vec<&'static str> = Vec::new();
    names.push("us-east-1");
    names.push("us-east-2");
    names.push("us-west-1");
    names.push("us-west-2");
    assert(names.deep_view() =~= seq!["us-east-1"@, "us-east-2"@, "us-west-1"@, "us-west-2"@]);
    names
}

/// Records from the regions scanned so far, with the name width they need.
pub struct Aggregator {
    all_instances: Vec<Instance>,
    max: usize,
}

impl Aggregator {
    #[verifier::type_invariant]
    spec fn consistent(self) -> bool {
        &&& self.max == longest_name(self.all_instances.deep_view())
        &&& all_displayable(self.all_instances@)
    }

    /// The records taken in so far, in order.
    pub closed spec fn records(self) -> Seq<InstanceView> {
        self.all_instances.deep_view()
    }

    /// The width of the name column.
    pub closed spec fn width(self) -> nat {
        self.max as nat
    }

    /// An aggregator that has seen no region.
    pub fn new() -> (fresh: Aggregator)
        ensures
            fresh.records() == Seq::<InstanceView>::empty(),
            fresh.width() == 0,
    {
        let all_instances: Vec<Instance> = Vec::with_capacity(4);
        assert(all_instances.deep_view() =~= Seq::<InstanceView>::empty());
        Aggregator { all_instances, max: 0 }
    }

    /// Takes in the outcome of the next region's request.
    ///
    /// The region's records follow those already held, and the width is the
    /// length of the longest name among all of them: it never falls behind,
    /// whatever the order of the regions and whichever of them failed.
    pub fn record_region(self, outcome: &Result<DescribeInstancesResult, RequestError>) -> (next:
        Aggregator)
        ensures
            next.records() == self.records() + normalized_all(listed_instances(*outcome)),
            next.width() == longest_name(next.records()),
    {
        proof {
            use_type_invariant(&self);
        }
        let ghost held = self.all_instances.deep_view();
        let Aggregator { mut all_instances, mut max } = self;
        let name_len = find_instances(outcome, &mut all_instances);
        proof {
            longest_name_of_both(held, normalized_all(listed_instances(*outcome)));
        }
        if name_len > max {
            max = name_len;
        }
        Aggregator { all_instances, max }
    }

    /// The records taken in so far.
    pub fn instances(&self) -> (all: &Vec<Instance>)
        ensures
            all.deep_view() == self.records(),
            all_displayable(all@),
    {
        proof {
            use_type_invariant(self);
        }
        &self.all_instances
    }

    /// The width of the name column: the length of the longest name taken
    /// in so far, 0 before the first.
    pub fn name_width(&self) -> (width: usize)
        ensures
            width == self.width(),
            width == longest_name(self.records()),
    {
        proof {
            use_type_invariant(self);
        }
        self.max
    }

    /// Lays out the table of everything taken in.
    pub fn render(&self) -> (text: String)
        ensures
            text@ == table(self.records(), longest_name(self.records())),
    {
        proof {
            use_type_invariant(self);
        }
        display_instances(&self.all_instances, self.max)
    }
}

} // verus!
