use net_analytics::analytics::NetworkAnalytics;
use net_analytics::counters::{check_networks, collect, monitor, read_counters, read_usage};
use net_analytics::units::DataSize;
use sysinfo::Networks;

const ABSENT: &str = "no-such-interface-0";

#[test]
fn empty_table_lists_nothing() {
    let networks = Networks::new();
    let error = check_networks(&networks, &String::from("eth0")).unwrap_err();
    assert_eq!(error.to_string(), "Interface 'eth0' not found. Available interfaces: ");
    assert_eq!(read_counters(&networks, "eth0"), None);
    assert_eq!(read_usage(&networks, "eth0"), None);
}

#[test]
fn listed_interfaces_can_be_monitored() {
    let networks = Networks::new_with_refreshed_list();
    for (name, data) in networks.list() {
        assert!(check_networks(&networks, name).is_ok());
        assert_eq!(
            read_counters(&networks, name),
            Some((data.total_received(), data.total_transmitted()))
        );
        assert_eq!(read_usage(&networks, name), Some((data.transmitted(), data.received())));
        assert_eq!(
            monitor(&networks, name).unwrap(),
            format!(
                "Data Usage - Transmitted: {} KB, Received: {} KB",
                data.transmitted() / 1024,
                data.received() / 1024
            )
        );
    }
}

#[test]
fn absent_interface_is_refused_with_the_list_of_those_that_exist() {
    let networks = Networks::new_with_refreshed_list();
    let error = check_networks(&networks, &String::from(ABSENT)).unwrap_err();
    let message = error.to_string();
    let head = format!("Interface '{}' not found. Available interfaces: ", ABSENT);
    assert!(message.starts_with(&head));
    let mut listed: Vec<String> = message[head.len()..]
        .split(", ")
        .filter(|name| !name.is_empty())
        .map(String::from)
        .collect();
    let mut expected: Vec<String> = networks.list().keys().cloned().collect();
    listed.sort();
    expected.sort();
    assert_eq!(listed, expected);
}

#[test]
fn absent_interface_has_no_reading() {
    let networks = Networks::new_with_refreshed_list();
    assert_eq!(read_counters(&networks, ABSENT), None);
    assert_eq!(read_usage(&networks, ABSENT), None);
    let error = monitor(&networks, ABSENT).unwrap_err();
    assert_eq!(error.to_string(), format!("Lost connection to interface '{}'", ABSENT));
}

#[test]
fn collect_records_the_reading_of_a_listed_interface() {
    let networks = Networks::new_with_refreshed_list();
    for (name, data) in networks.list() {
        let mut state = NetworkAnalytics::starting_at(name.clone(), DataSize::Byte, 1_000_000_000);
        assert!(collect(&mut state, &networks, 2_000_000_000).is_ok());
        assert_eq!(state.current_sample().bytes_received, data.total_received());
        assert_eq!(state.current_sample().bytes_sent, data.total_transmitted());
        assert_eq!(state.current_sample().bytes_per_second_in, data.total_received() as u128);
        assert_eq!(state.current_sample().timestamp, 2_000_000_000);
        assert_eq!(state.get_recent_samples().len(), 1);
    }
}

#[test]
fn collect_stops_when_the_interface_is_gone() {
    let networks = Networks::new_with_refreshed_list();
    let mut state =
        NetworkAnalytics::starting_at(String::from(ABSENT), DataSize::Byte, 1_000_000_000);
    let error = collect(&mut state, &networks, 2_000_000_000).unwrap_err();
    assert_eq!(error.to_string(), format!("Lost connection to interface '{}'", ABSENT));
    assert!(state.get_recent_samples().is_empty());
    assert_eq!(state.current_sample().timestamp, 1_000_000_000);
}
