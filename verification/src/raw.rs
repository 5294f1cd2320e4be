//! The provider's answer as plain values: instance records in which every
//! field may be missing, grouped into reservations.

use vstd::prelude::*;

verus! {

/// A key/value pair attached to an instance.
#[derive(Debug)]
pub struct Tag {
    pub key: Option<String>,
    pub value: Option<String>,
}

/// The mathematical content of a [`Tag`].
pub struct TagView {
    pub key: Option<Seq<char>>,
    pub value: Option<Seq<char>>,
}

impl View for Tag {
    type V = TagView;

    open spec fn view(&self) -> TagView {
        TagView { key: self.key.deep_view(), value: self.value.deep_view() }
    }
}

impl DeepView for Tag {
    type V = TagView;

    open spec fn deep_view(&self) -> TagView {
        self@
    }
}

/// Where an instance runs.
#[derive(Debug)]
pub struct Placement {
    pub availability_zone: Option<String>,
}

/// The mathematical content of a [`Placement`].
pub struct PlacementView {
    pub availability_zone: Option<Seq<char>>,
}

impl View for Placement {
    type V = PlacementView;

    open spec fn view(&self) -> PlacementView {
        PlacementView { availability_zone: self.availability_zone.deep_view() }
    }
}

impl DeepView for Placement {
    type V = PlacementView;

    open spec fn deep_view(&self) -> PlacementView {
        self@
    }
}

/// The lifecycle phase of an instance: a numeric code and its name.
#[derive(Debug)]
pub struct InstanceState {
    pub code: Option<i64>,
    pub name: Option<String>,
}

/// The mathematical content of an [`InstanceState`].
pub struct InstanceStateView {
    pub code: Option<i64>,
    pub name: Option<Seq<char>>,
}

impl View for InstanceState {
    type V = InstanceStateView;

    open spec fn view(&self) -> InstanceStateView {
        InstanceStateView { code: self.code, name: self.name.deep_view() }
    }
}

impl DeepView for InstanceState {
    type V = InstanceStateView;

    open spec fn deep_view(&self) -> InstanceStateView {
        self@
    }
}

/// One instance as the provider describes it.
#[derive(Debug)]
pub struct RawInstance {
    pub instance_id: Option<String>,
    pub instance_lifecycle: Option<String>,
    pub instance_type: Option<String>,
    pub key_name: Option<String>,
    pub launch_time: Option<String>,
    pub placement: Option<Placement>,
    pub private_ip_address: Option<String>,
    pub public_ip_address: Option<String>,
    pub state: Option<InstanceState>,
    pub subnet_id: Option<String>,
    pub tags: Option<Vec<Tag>>,
    pub vpc_id: Option<String>,
}

/// The mathematical content of a [`RawInstance`].
pub struct RawInstanceView {
    pub instance_id: Option<Seq<char>>,
    pub instance_lifecycle: Option<Seq<char>>,
    pub instance_type: Option<Seq<char>>,
    pub key_name: Option<Seq<char>>,
    pub launch_time: Option<Seq<char>>,
    pub placement: Option<PlacementView>,
    pub private_ip_address: Option<Seq<char>>,
    pub public_ip_address: Option<Seq<char>>,
    pub state: Option<InstanceStateView>,
    pub subnet_id: Option<Seq<char>>,
    pub tags: Option<Seq<TagView>>,
    pub vpc_id: Option<Seq<char>>,
}

impl View for RawInstance {
    type V = RawInstanceView;

    open spec fn view(&self) -> RawInstanceView {
        RawInstanceView {
            instance_id: self.instance_id.deep_view(),
            instance_lifecycle: self.instance_lifecycle.deep_view(),
            instance_type: self.instance_type.deep_view(),
            key_name: self.key_name.deep_view(),
            launch_time: self.launch_time.deep_view(),
            placement: self.placement.deep_view(),
            private_ip_address: self.private_ip_address.deep_view(),
            public_ip_address: self.public_ip_address.deep_view(),
            state: self.state.deep_view(),
            subnet_id: self.subnet_id.deep_view(),
            tags: self.tags.deep_view(),
            vpc_id: self.vpc_id.deep_view(),
        }
    }
}

impl DeepView for RawInstance {
    type V = RawInstanceView;

    open spec fn deep_view(&self) -> RawInstanceView {
        self@
    }
}

/// A record in which every field is missing.
pub open spec fn blank_record() -> RawInstanceView {
    RawInstanceView {
        instance_id: None,
        instance_lifecycle: None,
        instance_type: None,
        key_name: None,
        launch_time: None,
        placement: None,
        private_ip_address: None,
        public_ip_address: None,
        state: None,
        subnet_id: None,
        tags: None,
        vpc_id: None,
    }
}

impl Default for Placement {
    fn default() -> (placement: Placement)
        ensures
            placement@.availability_zone is None,
    {
        Placement { availability_zone: None }
    }
}

impl Default for RawInstance {
    fn default() -> (record: RawInstance)
        ensures
            record@ == blank_record(),
    {
        RawInstance {
            instance_id: None,
            instance_lifecycle: None,
            instance_type: None,
            key_name: None,
            launch_time: None,
            placement: None,
            private_ip_address: None,
            public_ip_address: None,
            state: None,
            subnet_id: None,
            tags: None,
            vpc_id: None,
        }
    }
}

/// A group of instances in the provider's answer.
#[derive(Debug)]
pub struct Reservation {
    pub instances: Option<Vec<RawInstance>>,
}

/// The provider's answer to one describe-instances request.
#[derive(Debug)]
pub struct DescribeInstancesResult {
    pub reservations: Option<Vec<Reservation>>,
}

/// A describe-instances request that did not get an answer.
#[derive(Debug)]
pub struct RequestError {
    /// What went wrong, as the transport reported it.
    pub detail: String,
}

/// The text of an optional field, empty where the field is missing.
pub open spec fn text_or_empty(field: Option<Seq<char>>) -> Seq<char> {
    match field {
        Some(text) => text,
        None => Seq::empty(),
    }
}

/// Copies an optional text field, giving the empty string where it is missing.
pub fn field_text(field: &Option<String>) -> (text: String)
    ensures
        text@ == text_or_empty(field.deep_view()),
{
    match field {
        Some(value) => value.clone(),
        None => String::new(),
    }
}

/// The instances of one reservation, in order.
pub open spec fn reservation_instances(reservation: Reservation) -> Seq<RawInstanceView> {
    match reservation.instances {
        Some(instances) => instances.deep_view(),
        None => Seq::empty(),
    }
}

/// The instances of a run of reservations, in order.
pub open spec fn reserved_instances(reservations: Seq<Reservation>) -> Seq<RawInstanceView>
    decreases reservations.len(),
{
    if reservations.len() == 0 {
        Seq::empty()
    } else {
        reserved_instances(reservations.drop_last()) + reservation_instances(
            reservations.last(),
        )
    }
}

/// The instances that a request contributes: none where it failed or the
/// answer lists no reservations.
pub open spec fn listed_instances(
    outcome: Result<DescribeInstancesResult, RequestError>,
) -> Seq<RawInstanceView> {
    match outcome {
        Ok(answer) => match answer.reservations {
            Some(reservations) => reserved_instances(reservations@),
            None => Seq::empty(),
        },
        Err(_) => Seq::empty(),
    }
}

} // verus!
