use ec2_list::aggregate::Aggregator;
use ec2_list::instance::{instance_to_struct, Instance};
use ec2_list::raw::{
    DescribeInstancesResult, InstanceState, Placement, RawInstance, Reservation, Tag,
};
use ec2_list::table::{display_instances, table_header, table_row};

fn record(name: &str, launch: i64) -> Instance {
    Instance {
        instance_id: "i-0c6fc50204fc67f25".to_string(),
        name: name.to_string(),
        az: "us-east-2a".to_string(),
        pub_ip: "203.0.113.9".to_string(),
        inst_type: "t3.small".to_string(),
        pri_ip: "127.0.0.1".to_string(),
        subnet: "subnet-923ffbfb".to_string(),
        key_name: "SSHKeyName".to_string(),
        state: "stopped".to_string(),
        launch_time_sec: launch,
        vpc: "vpc-e6eb188f".to_string(),
        isl: "S".to_string(),
        spot: " ".to_string(),
    }
}

fn expected_header(max: usize) -> String {
    format!(
        "{0:>1$} {2:1} {3:1} {4:>13} {5:>11} {6:>15} {7:>10} {8:<21}\n",
        "Name", max, " ", " ", "Launch Time", "Type", "Public IP", "Avil-zone", "VPC"
    )
}

fn expected_row(y: &Instance, launched: &str, max: usize) -> String {
    format!(
        "{0:>1$} {2:1} {3:1} {4:>13} {5:>11} {6:>15} {7:>10} {8:<21}\n",
        y.name, max, y.isl, y.spot, launched, y.inst_type, y.pub_ip, y.az, y.vpc
    )
}

#[test]
fn header_for_a_ten_character_name_column() {
    assert_eq!(
        table_header(10),
        "      Name       Launch Time        Type       Public IP  Avil-zone VPC                  \n"
    );
    assert_eq!(table_header(10), expected_header(10));
}

#[test]
fn header_label_is_not_cut_by_a_narrow_name_column() {
    assert_eq!(table_header(0), expected_header(0));
    assert!(table_header(0).starts_with("Name    "));
    assert_eq!(table_header(4), expected_header(4));
    assert_eq!(table_header(5), expected_header(5));
}

#[test]
fn row_of_a_full_record() {
    let y = record("longlength", 2147483228);
    assert_eq!(
        table_row(&y, 10),
        "longlength S   38/01/19 03:07    t3.small     203.0.113.9 us-east-2a vpc-e6eb188f         \n"
    );
    assert_eq!(table_row(&y, 10), expected_row(&y, "38/01/19 03:07", 10));
}

#[test]
fn row_pads_the_name_to_the_given_width() {
    let y = record("web", 0);
    assert_eq!(table_row(&y, 12), expected_row(&y, "70/01/01 00:00", 12));
    assert!(table_row(&y, 12).starts_with("         web S   70/01/01 00:00 "));
}

#[test]
fn row_keeps_a_name_longer_than_the_column() {
    let y = record("much-longer-than-four", 0);
    assert_eq!(table_row(&y, 4), expected_row(&y, "70/01/01 00:00", 4));
    assert!(table_row(&y, 4).starts_with("much-longer-than-four S "));
}

#[test]
fn row_of_a_bare_record() {
    let mut all_instances: Vec<Instance> = Vec::new();
    instance_to_struct(&RawInstance::default(), &mut all_instances);
    let line = table_row(&all_instances[0], 0);
    assert_eq!(line, expected_row(&all_instances[0], "70/01/01 00:00", 0));
    assert_eq!(line, format!(" ?   70/01/01 00:00 {0:11} {0:15} {0:10} {0:21}\n", ""));
}

#[test]
fn empty_columns_are_filled_with_blanks() {
    let mut y = record("n", 0);
    y.isl = String::new();
    y.spot = String::new();
    y.vpc = String::new();
    assert_eq!(table_row(&y, 1), expected_row(&y, "70/01/01 00:00", 1));
    assert!(table_row(&y, 1).starts_with("n     70/01/01"));
}

#[test]
fn long_cells_are_not_cut() {
    let mut y = record("n", 0);
    y.inst_type = "u-24tb1.112xlarge".to_string();
    y.az = "ap-southeast-2-akl-1a".to_string();
    y.vpc = "vpc-0123456789abcdef0-peered".to_string();
    assert_eq!(table_row(&y, 1), expected_row(&y, "70/01/01 00:00", 1));
}

#[test]
fn table_without_records_is_the_header() {
    let all_instances: Vec<Instance> = Vec::new();
    assert_eq!(display_instances(&all_instances, 7), expected_header(7));
}

#[test]
fn table_keeps_the_order_of_the_records() {
    let all_instances = vec![record("zulu", 2147483228), record("alpha", 0), record("mike", 1431648000)];
    let text = display_instances(&all_instances, 5);
    let expected = expected_header(5)
        + &expected_row(&all_instances[0], "38/01/19 03:07", 5)
        + &expected_row(&all_instances[1], "70/01/01 00:00", 5)
        + &expected_row(&all_instances[2], "15/05/15 00:00", 5);
    assert_eq!(text, expected);
    let lines: Vec<&str> = text.lines().collect();
    assert_eq!(lines.len(), 4);
    assert!(lines[1].starts_with(" zulu "));
    assert!(lines[2].starts_with("alpha "));
    assert!(lines[3].starts_with(" mike "));
}

#[test]
fn every_line_ends_with_a_newline() {
    let all_instances = vec![record("a", 0), record("b", 0)];
    let text = display_instances(&all_instances, 1);
    assert!(text.ends_with('\n'));
    assert_eq!(text.matches('\n').count(), 3);
}

#[test]
fn aggregator_renders_with_the_longest_name_as_width() {
    let mut first = RawInstance::default();
    first.tags = Some(vec![Tag { key: Some("Name".to_string()), value: Some("four".to_string()) }]);
    first.state = Some(InstanceState { code: Some(16), name: Some("running".to_string()) });
    first.launch_time = Some("2038-01-19T03:07:08.000Z".to_string());
    first.placement = Some(Placement { availability_zone: Some("us-east-2a".to_string()) });
    let mut second = RawInstance::default();
    second.tags =
        Some(vec![Tag { key: Some("Name".to_string()), value: Some("longlength".to_string()) }]);
    second.instance_lifecycle = Some("spot".to_string());
    second.vpc_id = Some("vpc-e6eb188f".to_string());
    let outcome = Ok(DescribeInstancesResult {
        reservations: Some(vec![Reservation { instances: Some(vec![first, second]) }]),
    });
    let scan = Aggregator::new().record_region(&outcome);
    let text = scan.render();
    assert_eq!(text, display_instances(scan.instances(), 10));
    let lines: Vec<&str> = text.lines().collect();
    assert_eq!(lines.len(), 3);
    assert_eq!(lines[0], expected_header(10).trim_end_matches('\n'));
    assert!(lines[1].starts_with("      four R   38/01/19 03:07 "));
    assert!(lines[2].starts_with("longlength ? S 70/01/01 00:00 "));
    assert!(lines[2].ends_with(" vpc-e6eb188f         "));
}
