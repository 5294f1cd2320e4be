//! The table: one header line, then one line per record in the order given.
//!
//! Columns are separated by one blank and every line ends with a newline.
//! The name column is as wide as the caller says; the state letter and the
//! spot mark take one character each; launch time, type, public address and
//! zone are right-aligned in 13, 11, 15 and 10 characters; the VPC comes
//! last, left-aligned in 21. The header is laid out exactly like the rows,
//! the VPC label included. A cell longer than its column is written in full.

use crate::instance::{Instance, InstanceView};
use crate::text::{left_aligned, push_left_aligned, push_right_aligned, right_aligned};
use crate::timestamp::{formatted_timestamp, launch_pattern, launch_time_text, timestamp_in_range};
use vstd::prelude::*;

verus! {

/// The header line for a name column of `width` characters.
pub open spec fn header(width: nat) -> Seq<char> {
    right_aligned("Name"@, width) + " "@ + left_aligned(" "@, 1) + " "@ + left_aligned(" "@, 1)
        + " "@ + right_aligned("Launch Time"@, 13) + " "@ + right_aligned("Type"@, 11) + " "@
        + right_aligned("Public IP"@, 15) + " "@ + right_aligned("Avil-zone"@, 10) + " "@
        + left_aligned("VPC"@, 21) + "\n"@
}

/// The line for one record, with a name column of `width` characters.
pub open spec fn row(record: InstanceView, width: nat) -> Seq<char> {
    right_aligned(record.name, width) + " "@ + left_aligned(record.isl, 1) + " "@ + left_aligned(
        record.spot,
        1,
    ) + " "@ + right_aligned(formatted_timestamp(record.launch_time_sec, launch_pattern()), 13)
        + " "@ + right_aligned(record.inst_type, 11) + " "@ + right_aligned(record.pub_ip, 15)
        + " "@ + right_aligned(record.az, 10) + " "@ + left_aligned(record.vpc, 21) + "\n"@
}

/// The lines of `records`, one after the other.
pub open spec fn rows(records: Seq<InstanceView>, width: nat) -> Seq<char>
    decreases records.len(),
{
    if records.len() == 0 {
        Seq::empty()
    } else {
        rows(records.drop_last(), width) + row(records.last(), width)
    }
}

/// The whole table: the header, then the records' lines.
pub open spec fn table(records: Seq<InstanceView>, width: nat) -> Seq<char> {
    header(width) + rows(records, width)
}

/// Whether every record's launch time can be written as a date and time.
pub open spec fn all_displayable(records: Seq<Instance>) -> bool {
    forall|i: int|
        0 <= i < records.len() ==> timestamp_in_range((#[trigger] records[i]).launch_time_sec)
}

/// The header line for a name column of `max` characters.
pub fn table_header(max: usize) -> (line: String)
    ensures
        line@ == header(max as nat),
{
    let mut line = String::new();
    push_right_aligned(&mut line, "Name", max);
    line.append(" ");
    push_left_aligned(&mut line, " ", 1);
    line.append(" ");
    push_left_aligned(&mut line, " ", 1);
    line.append(" ");
    push_right_aligned(&mut line, "Launch Time", 13);
    line.append(" ");
    push_right_aligned(&mut line, "Type", 11);
    line.append(" ");
    push_right_aligned(&mut line, "Public IP", 15);
    line.append(" ");
    push_right_aligned(&mut line, "Avil-zone", 10);
    line.append(" ");
    push_left_aligned(&mut line, "VPC", 21);
    line.append("\n");
    assert(line@ =~= header(max as nat));
    line
}

/// The line for `record`, with a name column of `max` characters.
pub fn table_row(record: &Instance, max: usize) -> (line: String)
    requires
        timestamp_in_range(record.launch_time_sec),
    ensures
        line@ == row(record@, max as nat),
{
    let launched = launch_time_text(record.launch_time_sec);
    let mut line = String::new();
    push_right_aligned(&mut line, record.name.as_str(), max);
    line.append(" ");
    push_left_aligned(&mut line, record.isl.as_str(), 1);
    line.append(" ");
    push_left_aligned(&mut line, record.spot.as_str(), 1);
    line.append(" ");
    push_right_aligned(&mut line, launched.as_str(), 13);
    line.append(" ");
    push_right_aligned(&mut line, record.inst_type.as_str(), 11);
    line.append(" ");
    push_right_aligned(&mut line, record.pub_ip.as_str(), 15);
    line.append(" ");
    push_right_aligned(&mut line, record.az.as_str(), 10);
    line.append(" ");
    push_left_aligned(&mut line, record.vpc.as_str(), 21);
    line.append("\n");
    assert(line@ =~= row(record@, max as nat));
    line
}

/// Lays out the table of `all_instances`, in their order, with a name column
/// of `max` characters.
pub fn display_instances(all_instances: &Vec<Instance>, max: usize) -> (text: String)
    requires
        all_displayable(all_instances@),
    ensures
        text@ == table(all_instances.deep_view(), max as nat),
{
    let mut text = table_header(max);
    let mut i: usize = 0;
    while i < all_instances.len()
        invariant
            i <= all_instances.len(),
            all_displayable(all_instances@),
            text@ == header(max as nat) + rows(all_instances.deep_view().take(i as int), max as nat),
        decreases all_instances.len() - i,
    {
        let line = table_row(&all_instances[i], max);
        proof {
            let shown = all_instances.deep_view().take(i as int + 1);
            assert(shown.drop_last() =~= all_instances.deep_view().take(i as int));
            assert(shown.last() == all_instances@[i as int]@);
            assert(header(max as nat) + rows(all_instances.deep_view().take(i as int), max as nat)
                + line@ =~= header(max as nat) + rows(shown, max as nat));
        }
        text.append(line.as_str());
        i = i + 1;
    }
    proof {
        assert(all_instances.deep_view().take(i as int) =~= all_instances.deep_view());
    }
    text
}

} // verus!
