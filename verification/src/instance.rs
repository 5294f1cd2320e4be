//! The display record, and the rules that fill it from a raw record: which
//! tag names the instance, which letter stands for its state, and what every
//! missing field defaults to.

use crate::raw::{
    field_text, text_or_empty, InstanceStateView, Placement, PlacementView, RawInstance,
    RawInstanceView, Tag, TagView,
};
use crate::timestamp::{
    launch_seconds, parse_launch_time, parsed_view, rfc3339_outcome, seconds_or_zero,
    timestamp_in_range, ParseError,
};
use vstd::prelude::*;

verus! {

/// One instance as the table shows it. Every field has a value, whatever
/// the raw record lacked.
#[derive(Debug)]
pub struct Instance {
    pub instance_id: String,
    pub name: String,
    pub az: String,
    pub pub_ip: String,
    pub inst_type: String,
    pub pri_ip: String,
    pub subnet: String,
    pub key_name: String,
    pub state: String,
    pub launch_time_sec: i64,
    pub vpc: String,
    pub isl: String,
    pub spot: String,
}

/// The mathematical content of an [`Instance`].
pub struct InstanceView {
    pub instance_id: Seq<char>,
    pub name: Seq<char>,
    pub az: Seq<char>,
    pub pub_ip: Seq<char>,
    pub inst_type: Seq<char>,
    pub pri_ip: Seq<char>,
    pub subnet: Seq<char>,
    pub key_name: Seq<char>,
    pub state: Seq<char>,
    pub launch_time_sec: i64,
    pub vpc: Seq<char>,
    pub isl: Seq<char>,
    pub spot: Seq<char>,
}

impl View for Instance {
    type V = InstanceView;

    open spec fn view(&self) -> InstanceView {
        InstanceView {
            instance_id: self.instance_id@,
            name: self.name@,
            az: self.az@,
            pub_ip: self.pub_ip@,
            inst_type: self.inst_type@,
            pri_ip: self.pri_ip@,
            subnet: self.subnet@,
            key_name: self.key_name@,
            state: self.state@,
            launch_time_sec: self.launch_time_sec,
            vpc: self.vpc@,
            isl: self.isl@,
            spot: self.spot@,
        }
    }
}

impl DeepView for Instance {
    type V = InstanceView;

    open spec fn deep_view(&self) -> InstanceView {
        self@
    }
}

/// Whether `tag` is the one that names the instance: its key is exactly
/// `Name`.
pub open spec fn is_name_tag(tag: TagView) -> bool {
    tag.key == Some("Name"@)
}

/// The name that a run of tags gives: the value of the last tag keyed
/// `Name` (empty where that tag has no value), or empty where no tag is.
pub open spec fn tagged_name(tags: Seq<TagView>) -> Seq<char>
    decreases tags.len(),
{
    if tags.len() == 0 {
        Seq::empty()
    } else if is_name_tag(tags.last()) {
        text_or_empty(tags.last().value)
    } else {
        tagged_name(tags.drop_last())
    }
}

/// The name of a record with the given tags.
pub open spec fn record_name(tags: Option<Seq<TagView>>) -> Seq<char> {
    match tags {
        Some(tags) => tagged_name(tags),
        None => Seq::empty(),
    }
}

/// The availability zone of a placement, empty where either is missing.
pub open spec fn zone_of(placement: Option<PlacementView>) -> Seq<char> {
    match placement {
        Some(placement) => text_or_empty(placement.availability_zone),
        None => Seq::empty(),
    }
}

/// The spot column: `S` for the lifecycle `spot`, a blank for anything else.
pub open spec fn spot_mark(lifecycle: Option<Seq<char>>) -> Seq<char> {
    if lifecycle == Some("spot"@) {
        seq!['S']
    } else {
        seq![' ']
    }
}

/// The letter for a state code. The provider numbers six phases; every other
/// code, and a missing one, shows as `?`.
pub open spec fn state_char(code: Option<i64>) -> char {
    match code {
        Some(0) => 'P',
        Some(16) => 'R',
        Some(32) => 'D',
        Some(48) => 'T',
        Some(64) => 's',
        Some(80) => 'S',
        _ => '?',
    }
}

/// The code of a state, missing where the state is.
pub open spec fn state_code(state: Option<InstanceStateView>) -> Option<i64> {
    match state {
        Some(state) => state.code,
        None => None,
    }
}

/// The state-name column: the state's name (empty where it has none), or `?`
/// where the record has no state.
pub open spec fn state_label(state: Option<InstanceStateView>) -> Seq<char> {
    match state {
        Some(state) => text_or_empty(state.name),
        None => seq!['?'],
    }
}

/// The display record of `raw` with `launch` as its launch time.
pub open spec fn display_record(raw: RawInstanceView, launch: i64) -> InstanceView {
    InstanceView {
        instance_id: text_or_empty(raw.instance_id),
        name: record_name(raw.tags),
        az: zone_of(raw.placement),
        pub_ip: text_or_empty(raw.public_ip_address),
        inst_type: text_or_empty(raw.instance_type),
        pri_ip: text_or_empty(raw.private_ip_address),
        subnet: text_or_empty(raw.subnet_id),
        key_name: text_or_empty(raw.key_name),
        state: state_label(raw.state),
        launch_time_sec: launch,
        vpc: text_or_empty(raw.vpc_id),
        isl: seq![state_char(state_code(raw.state))],
        spot: spot_mark(raw.instance_lifecycle),
    }
}

/// The launch time recorded for a timestamp field: what the parser reads
/// from its text, or 0 where the field is missing or the parser rejects it.
pub open spec fn recorded_launch(launch_time: Option<Seq<char>>) -> i64 {
    match launch_time {
        Some(text) => seconds_or_zero(rfc3339_outcome(text)),
        None => 0,
    }
}

/// The display record of `raw`.
pub open spec fn normalized(raw: RawInstanceView) -> InstanceView {
    display_record(raw, recorded_launch(raw.launch_time))
}

/// The state letter is defined for every code: the six known codes have
/// their letters, and everything else, a missing code included, has `?`.
pub proof fn state_letter_is_total(code: Option<i64>)
    ensures
        code == Some(0i64) ==> state_char(code) == 'P',
        code == Some(16i64) ==> state_char(code) == 'R',
        code == Some(32i64) ==> state_char(code) == 'D',
        code == Some(48i64) ==> state_char(code) == 'T',
        code == Some(64i64) ==> state_char(code) == 's',
        code == Some(80i64) ==> state_char(code) == 'S',
        code != Some(0i64) && code != Some(16i64) && code != Some(32i64) && code != Some(48i64)
            && code != Some(64i64) && code != Some(80i64) ==> state_char(code) == '?',
{
}

/// The record shown for an instance of which nothing is known.
pub open spec fn bare_record() -> InstanceView {
    InstanceView {
        instance_id: Seq::empty(),
        name: Seq::empty(),
        az: Seq::empty(),
        pub_ip: Seq::empty(),
        inst_type: Seq::empty(),
        pri_ip: Seq::empty(),
        subnet: Seq::empty(),
        key_name: Seq::empty(),
        state: seq!['?'],
        launch_time_sec: 0,
        vpc: Seq::empty(),
        isl: seq!['?'],
        spot: seq![' '],
    }
}

/// A record without tags, placement, state or addresses, whose remaining
/// text fields are missing or empty, which is not marked `spot` and whose
/// launch time records as 0, normalises to the bare record: every text
/// empty, state name and letter `?`, a blank spot column, launch time 0.
pub proof fn sparse_record_is_bare(raw: RawInstanceView)
    requires
        raw.tags is None,
        raw.placement is None,
        raw.state is None,
        raw.public_ip_address is None,
        raw.private_ip_address is None,
        text_or_empty(raw.instance_id).len() == 0,
        text_or_empty(raw.instance_type).len() == 0,
        text_or_empty(raw.subnet_id).len() == 0,
        text_or_empty(raw.key_name).len() == 0,
        text_or_empty(raw.vpc_id).len() == 0,
        raw.instance_lifecycle != Some("spot"@),
        recorded_launch(raw.launch_time) == 0,
    ensures
        normalized(raw) == bare_record(),
{
    let shown = normalized(raw);
    assert(shown.instance_id =~= Seq::<char>::empty());
    assert(shown.inst_type =~= Seq::<char>::empty());
    assert(shown.subnet =~= Seq::<char>::empty());
    assert(shown.key_name =~= Seq::<char>::empty());
    assert(shown.vpc =~= Seq::<char>::empty());
}

/// Among several tags keyed `Name`, the last one names the instance.
pub proof fn last_name_tag_wins(tags: Seq<TagView>, i: int)
    requires
        0 <= i < tags.len(),
        is_name_tag(tags[i]),
        forall|j: int| i < j < tags.len() ==> !is_name_tag(#[trigger] tags[j]),
    ensures
        tagged_name(tags) == text_or_empty(tags[i].value),
    decreases tags.len(),
{
    if i < tags.len() - 1 {
        assert(!is_name_tag(tags[tags.len() - 1]));
        last_name_tag_wins(tags.drop_last(), i);
    }
}

/// Without a tag keyed `Name` the name is empty.
pub proof fn no_name_tag_no_name(tags: Seq<TagView>)
    requires
        forall|j: int| 0 <= j < tags.len() ==> !is_name_tag(#[trigger] tags[j]),
    ensures
        tagged_name(tags) == Seq::<char>::empty(),
    decreases tags.len(),
{
    if tags.len() > 0 {
        assert(!is_name_tag(tags[tags.len() - 1]));
        no_name_tag_no_name(tags.drop_last());
    }
}

/// The letter that stands for a state code.
pub fn state_letter(code: Option<i64>) -> (letter: String)
    ensures
        letter@ == seq![state_char(code)],
{
    proof {
        reveal_strlit("P");
        reveal_strlit("R");
        reveal_strlit("D");
        reveal_strlit("T");
        reveal_strlit("s");
        reveal_strlit("S");
        reveal_strlit("?");
    }
    let letter = match code {
        Some(0) => String::from_str("P"),
        Some(16) => String::from_str("R"),
        Some(32) => String::from_str("D"),
        Some(48) => String::from_str("T"),
        Some(64) => String::from_str("s"),
        Some(80) => String::from_str("S"),
        _ => String::from_str("?"),
    };
    assert(letter@ =~= seq![state_char(code)]);
    letter
}

/// The spot column for a lifecycle marker: `S` if and only if the marker is
/// exactly `spot`, otherwise a blank.
pub fn spot_flag(lifecycle: &Option<String>) -> (flag: String)
    ensures
        flag@ == spot_mark(lifecycle.deep_view()),
        flag@ == seq!['S'] <==> lifecycle.deep_view() == Some("spot"@),
        flag@ == seq!['S'] || flag@ == seq![' '],
{
    proof {
        reveal_strlit("S");
        reveal_strlit(" ");
        assert("S"@ =~= seq!['S']);
        assert(" "@ =~= seq![' ']);
        assert(seq!['S'][0] != seq![' '][0]);
    }
    let wanted = String::from_str("spot");
    match lifecycle {
        Some(marker) => {
            if *marker == wanted {
                String::from_str("S")
            } else {
                String::from_str(" ")
            }
        },
        None => String::from_str(" "),
    }
}

/// The name that the tags give an instance: the value of the last tag keyed
/// `Name`.
pub fn instance_name(tags: &Option<Vec<Tag>>) -> (name: String)
    ensures
        name@ == record_name(tags.deep_view()),
{
    let mut name = String::new();
    match tags {
        Some(tags) => {
            let wanted = String::from_str("Name");
            let mut i: usize = 0;
            while i < tags.len()
                invariant
                    i <= tags.len(),
                    wanted@ == "Name"@,
                    name@ == tagged_name(tags.deep_view().take(i as int)),
                decreases tags.len() - i,
            {
                let tag = &tags[i];
                proof {
                    let seen = tags.deep_view().take(i as int + 1);
                    assert(seen.drop_last() =~= tags.deep_view().take(i as int));
                    assert(seen.last() == tag@);
                }
                match &tag.key {
                    Some(key) => {
                        if *key == wanted {
                            name = field_text(&tag.value);
                        }
                    },
                    None => {},
                }
                i = i + 1;
            }
            proof {
                assert(tags.deep_view().take(i as int) =~= tags.deep_view());
            }
        },
        None => {},
    }
    name
}

/// The availability zone of an instance, empty where it is not placed.
pub fn zone_text(placement: &Option<Placement>) -> (zone: String)
    ensures
        zone@ == zone_of(placement.deep_view()),
{
    match placement {
        Some(placement) => field_text(&placement.availability_zone),
        None => String::new(),
    }
}

/// Builds the display record of `raw`, given what the timestamp parser made
/// of its launch time, and counts the characters of its name.
pub fn normalize(raw: &RawInstance, parsed: &Result<i64, ParseError>) -> (out: (Instance, usize))
    ensures
        out.0@ == display_record(raw@, seconds_or_zero(parsed_view(*parsed))),
        out.1 == out.0@.name.len(),
{
    let name = instance_name(&raw.tags);
    let name_len: usize = name.as_str().unicode_len();
    let (state, isl) = match &raw.state {
        Some(state) => (field_text(&state.name), state_letter(state.code)),
        None => {
            proof {
                reveal_strlit("?");
                assert("?"@ =~= seq!['?']);
            }
            (String::from_str("?"), state_letter(None))
        },
    };
    let record = Instance {
        name,
        instance_id: field_text(&raw.instance_id),
        az: zone_text(&raw.placement),
        pub_ip: field_text(&raw.public_ip_address),
        inst_type: field_text(&raw.instance_type),
        pri_ip: field_text(&raw.private_ip_address),
        subnet: field_text(&raw.subnet_id),
        key_name: field_text(&raw.key_name),
        state,
        launch_time_sec: launch_seconds(parsed),
        vpc: field_text(&raw.vpc_id),
        isl,
        spot: spot_flag(&raw.instance_lifecycle),
    };
    (record, name_len)
}

/// Appends the display record of `raw` to `all_instances` and returns the
/// length of its name in characters.
pub fn instance_to_struct(raw: &RawInstance, all_instances: &mut Vec<Instance>) -> (name_len:
    usize)
    ensures
        final(all_instances)@.len() == old(all_instances)@.len() + 1,
        final(all_instances)@.drop_last() == old(all_instances)@,
        final(all_instances)@.last()@ == normalized(raw@),
        final(all_instances).deep_view() == old(all_instances).deep_view().push(normalized(raw@)),
        timestamp_in_range(final(all_instances)@.last().launch_time_sec),
        name_len == normalized(raw@).name.len(),
{
    let launch_text = field_text(&raw.launch_time);
    let parsed = parse_launch_time(launch_text.as_str());
    assert(seconds_or_zero(parsed_view(parsed)) == recorded_launch(raw@.launch_time));
    let (record, name_len) = normalize(raw, &parsed);
    all_instances.push(record);
    proof {
        assert(all_instances@.drop_last() =~= old(all_instances)@);
        assert(all_instances.deep_view() =~= old(all_instances).deep_view().push(
            normalized(raw@),
        ));
    }
    name_len
}

} // verus!
