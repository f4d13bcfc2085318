use net_analytics::interface::{
    check_interface, is_available, monitor_step, usage_report, InterfaceError,
};

fn names(list: &[&str]) -> Vec<String> {
    list.iter().map(|name| String::from(*name)).collect()
}

#[test]
fn missing_interface_is_a_configuration_error() {
    let available = names(&["lo"]);
    let error = check_interface(&available, &String::from("eth0")).unwrap_err();
    assert_eq!(error.to_string(), "Interface 'eth0' not found. Available interfaces: lo");
}

#[test]
fn missing_interface_lists_all_that_exist() {
    let available = names(&["lo", "en0", "wlan0"]);
    let error = check_interface(&available, &String::from("eth0")).unwrap_err();
    assert_eq!(
        error.to_string(),
        "Interface 'eth0' not found. Available interfaces: lo, en0, wlan0"
    );
}

#[test]
fn missing_interface_with_none_available() {
    let error = check_interface(&Vec::new(), &String::from("eth0")).unwrap_err();
    assert_eq!(error.to_string(), "Interface 'eth0' not found. Available interfaces: ");
}

#[test]
fn existing_interface_is_accepted() {
    let available = names(&["lo", "eth0"]);
    assert!(check_interface(&available, &String::from("eth0")).is_ok());
    assert!(check_interface(&available, &String::from("lo")).is_ok());
}

#[test]
fn availability_is_exact_match() {
    let available = names(&["lo", "eth0"]);
    assert!(is_available(&available, &String::from("eth0")));
    assert!(!is_available(&available, &String::from("eth")));
    assert!(!is_available(&available, &String::from("eth00")));
    assert!(!is_available(&available, &String::from("ETH0")));
    assert!(!is_available(&Vec::new(), &String::from("lo")));
}

#[test]
fn lost_interface_message() {
    assert_eq!(InterfaceError::lost("en0").to_string(), "Lost connection to interface 'en0'");
}

#[test]
fn usage_report_is_in_whole_kilobytes() {
    assert_eq!(usage_report(2048, 1024), "Data Usage - Transmitted: 2 KB, Received: 1 KB");
    assert_eq!(usage_report(2047, 1023), "Data Usage - Transmitted: 1 KB, Received: 0 KB");
    assert_eq!(
        usage_report(u64::MAX, 0),
        "Data Usage - Transmitted: 18014398509481983 KB, Received: 0 KB"
    );
}

#[test]
fn monitor_step_reports_or_stops() {
    let report = monitor_step("en0", Some((4096, 10_240))).unwrap();
    assert_eq!(report, "Data Usage - Transmitted: 4 KB, Received: 10 KB");
    let error = monitor_step("en0", None).unwrap_err();
    assert_eq!(error.to_string(), "Lost connection to interface 'en0'");
}
