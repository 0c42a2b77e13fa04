//! Adapter descriptions: node counting and device paths.

use dvb::devices::count_prefixed_nodes;
use dvb::devices::format_dev_adapter;
use dvb::devices::split_device_node;
use dvb::devices::starts_with;
use dvb::devices::strip_prefix_str;
use dvb::devices::Adapter;

fn sample_adapter(nodes: &[&str]) -> Adapter {
    let nodes: Vec<String> = nodes.iter().map(|n| n.to_string()).collect();
    Adapter::from_listing(
        "0".to_string(),
        "Maker".to_string(),
        "Stick".to_string(),
        "2040".to_string(),
        "7070".to_string(),
        "A1B2C3".to_string(),
        &nodes,
    )
}

#[test]
fn listing_counts_each_node_kind() {
    let adapter = sample_adapter(&["frontend0", "frontend1", "demux0", "dvr0", "net0"]);
    assert_eq!(adapter.frontend_count, 2);
    assert_eq!(adapter.demux_count, 1);
    assert_eq!(adapter.dvr_count, 1);
    assert_eq!(adapter.net_count, 1);
}

#[test]
fn listing_keeps_identification_strings() {
    let adapter = sample_adapter(&["frontend0"]);
    assert_eq!(adapter.manufacturer(), "Maker");
    assert_eq!(adapter.product(), "Stick");
    assert_eq!(adapter.id_vendor(), "2040");
    assert_eq!(adapter.id_product(), "7070");
    assert_eq!(adapter.serial(), "A1B2C3");
}

#[test]
fn first_node_paths_are_built_from_the_adapter_id() {
    let adapter = sample_adapter(&["frontend0", "demux0", "dvr0", "net0"]);
    assert_eq!(adapter.get_first_frontend(), "/dev/dvb/adapter0/frontend0");
    assert_eq!(adapter.get_first_demux(), "/dev/dvb/adapter0/demux0");
    assert_eq!(
        adapter.get_first_dvr().as_deref(),
        Some("/dev/dvb/adapter0/dvr0")
    );
    assert_eq!(
        adapter.get_first_net().as_deref(),
        Some("/dev/dvb/adapter0/net0")
    );
}

#[test]
fn missing_optional_nodes_give_no_path() {
    let adapter = sample_adapter(&["frontend0", "demux0"]);
    assert!(adapter.get_first_dvr().is_none());
    assert!(adapter.get_first_net().is_none());
}

#[test]
fn device_path_root_is_fixed() {
    assert_eq!(format_dev_adapter("3"), "/dev/dvb/adapter3");
    assert_eq!(format_dev_adapter("12"), "/dev/dvb/adapter12");
}

#[test]
fn entry_names_split_at_the_first_dot() {
    let (device, node) = split_device_node("/sys/class/dvb/dvb0.frontend0")
        .expect("an entry name carries a dot");
    assert_eq!(device, "/sys/class/dvb/dvb0");
    assert_eq!(node, "frontend0");
}

#[test]
fn entry_names_without_a_dot_do_not_split() {
    assert!(split_device_node("nodothere").is_none());
}

#[test]
fn prefixes_are_recognized() {
    assert!(starts_with("frontend0", "frontend"));
    assert!(!starts_with("front", "frontend"));
    assert!(!starts_with("netfront", "frontend"));
    assert!(starts_with("anything", ""));
}

#[test]
fn prefix_stripping_keeps_the_rest() {
    assert_eq!(
        strip_prefix_str("/sys/class/dvb/dvb12", "/sys/class/dvb/dvb").as_deref(),
        Some("12")
    );
    assert!(strip_prefix_str("/sys/class/other", "/sys/class/dvb/dvb").is_none());
}

#[test]
fn counting_ignores_other_nodes() {
    let nodes: Vec<String> = vec![
        "frontend0".to_string(),
        "demux0".to_string(),
        "ca0".to_string(),
    ];
    assert_eq!(count_prefixed_nodes(&nodes, "frontend"), 1);
    assert_eq!(count_prefixed_nodes(&nodes, "dvr"), 0);
    let empty: Vec<String> = Vec::new();
    assert_eq!(count_prefixed_nodes(&empty, "frontend"), 0);
}

#[test]
fn entry_names_split_at_the_first_dot_only() {
    let (device, node) = split_device_node("a.b.c").expect("a dot is present");
    assert_eq!(device, "a");
    assert_eq!(node, "b.c");
}
