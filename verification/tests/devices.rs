use elorapi::connections::{ChirpstackConnection, Mqtt};
use elorapi::devices::{
    Device, DeviceContainer, DeviceProfile, DeviceProfileContainer, Downlink, DownlinkPayload,
    Uplink,
};
use elorapi::rules::{Action, Condition, DeviceCondition, RefValue, Rule, RuleContainer, TimeCondition};
use elorapi::timecheck::{TimeOfDay, Weekday};

#[test]
fn chirpstack_connection_holds_token_and_uri() {
    let mut con = ChirpstackConnection::new("api-token", "http://localhost:8080");
    assert_eq!(con.get_api_token(), "api-token");
    assert_eq!(con.get_uri(), "http://localhost:8080");
    con.change_uri("http://example:1234");
    con.set_api_token("other");
    assert_eq!(con.get_uri(), "http://example:1234");
    assert_eq!(con.get_api_token(), "other");
}

#[test]
fn mqtt_holds_uri_and_credentials() {
    let mut m = Mqtt::new("tcp://localhost:1883", "user", "pass");
    assert_eq!(m.get_uri(), "tcp://localhost:1883");
    assert_eq!(m.get_username(), "user");
    assert_eq!(m.get_password(), "pass");
    m.change_uri("tcp://other:1883");
    m.change_username("user2");
    m.change_password("pass2");
    assert_eq!(m.get_uri(), "tcp://other:1883");
    assert_eq!(m.get_username(), "user2");
    assert_eq!(m.get_password(), "pass2");
}

#[test]
fn uplink_lists_payload_labels_in_order() {
    let mut u = Uplink::new(vec!["co2".to_string(), "humidity".to_string()]);
    u.add_payload("temperature");
    assert_eq!(
        u.get_payloads(),
        &vec!["co2".to_string(), "humidity".to_string(), "temperature".to_string()]
    );
}

#[test]
fn downlink_collects_commands() {
    let mut d = Downlink::new("aa", true, vec![]);
    assert_eq!(d.get_hex_pre_byte(), "aa");
    assert!(d.get_combined_work_load_count());
    d.add_new_payload("Open", "To open socket", false, "080100ff");
    d.add_payload(DownlinkPayload::new("Close", "To close socket", true, "080000ff"));
    let ps = d.get_payloads();
    assert_eq!(ps.len(), 2);
    assert_eq!(ps[0].get_command_name(), "Open");
    assert_eq!(ps[0].get_description(), "To open socket");
    assert!(!ps[0].is_configurable());
    assert_eq!(ps[0].get_hex_code(), "080100ff");
    assert_eq!(ps[1].get_command_name(), "Close");
    assert!(ps[1].is_configurable());
}

#[test]
fn profile_lookup_finds_first_matching_id() {
    let mut c = DeviceProfileContainer::new();
    c.add_device_profile(DeviceProfile::new("p-one", None, None));
    c.add_device_profile(DeviceProfile::new("p-two", None, None));
    c.add_device_profile(DeviceProfile::new("p-two", None, None));
    assert_eq!(c.get_device_profile_index_via_dev_prof_id("p-one"), Ok(0));
    assert_eq!(c.get_device_profile_index_via_dev_prof_id("p-two"), Ok(1));
    assert!(c.get_device_profile_index_via_dev_prof_id("p-three").is_err());
}

#[test]
fn profile_carries_uplink_and_downlink() {
    let u = Uplink::new(vec!["temperature".to_string()]);
    let d = Downlink::new("", false, vec![]);
    let mut p = DeviceProfile::new("p", Some(u), None);
    assert!(p.get_uplink().is_some());
    assert!(p.get_downlink().is_none());
    p.set_downlink(Some(d));
    assert!(p.get_downlink().is_some());
    p.set_uplink(None);
    assert!(p.get_uplink().is_none());
}

#[test]
fn device_container_hands_out_devices() {
    let mut c = DeviceContainer::new();
    c.add_device(Device::new("AAA", 1, "p"));
    let d = c.get_device(0).expect("index lies in the container");
    assert_eq!(d.get_dev_eui(), "AAA");
    assert_eq!(d.get_application_id(), 1);
    assert_eq!(d.get_device_profile_id(), "p");
    assert!(c.get_device(2).is_err());
    assert_eq!(c.get_devices().len(), 1);
}

#[test]
fn rule_container_collects_rules() {
    let mut c = RuleContainer::new();
    let cond = Condition::Time(TimeCondition::new(
        Some(Weekday::Mon),
        TimeOfDay::from_hms(8, 0, 0),
        TimeOfDay::from_hms(15, 0, 0),
    ));
    let action = Action::new(Device::new("AAA", 1, "p"), vec![0], "0801".to_string(), 2);
    c.add_rule(Rule::new(vec![cond], vec![], vec![action]));
    assert_eq!(c.get_rules().len(), 1);
    assert!(!c.get_rules()[0].is_running());
}

#[test]
fn device_condition_keeps_its_parts() {
    let dc = DeviceCondition::new(
        Device::new("AAA", 1, "p"),
        2,
        "<=".to_string(),
        RefValue::IntNumber(1),
    );
    assert_eq!(dc.measure_data, 2);
    assert_eq!(dc.operator, "<=");
    match dc.threshold {
        RefValue::IntNumber(v) => assert_eq!(v, 1),
        _ => panic!("threshold kind changed"),
    }
}
