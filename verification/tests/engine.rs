use elorapi::devices::{DeviceProfile, DeviceProfileContainer, Device, Uplink};
use elorapi::dispatch::build_queue_item;
use elorapi::engine::{evaluate_rule, float_requests, EvalOutcome};
use elorapi::messages::{rule_topics, CycleBuffer, Message, OfferOutcome};
use elorapi::rules::{Action, Condition, DeviceCondition, RefValue, Rule, RuleContainer, TimeCondition};
use elorapi::timecheck::{TimeOfDay, Weekday};

fn device_a() -> Device {
    Device::new("AAA", 1, "prof-1")
}

fn device_b() -> Device {
    Device::new("BBB", 1, "prof-1")
}

fn profiles(fields: Vec<&str>) -> DeviceProfileContainer {
    let mut c = DeviceProfileContainer::new();
    let uplink = Uplink::new(fields.into_iter().map(|s| s.to_string()).collect());
    c.add_device_profile(DeviceProfile::new("prof-1", Some(uplink), None));
    c
}

fn uplink_payload(eui: &str, object_json_escaped: &str) -> Message {
    let topic = format!("application/1/device/{}/event/up", eui);
    let payload = format!(
        "{{\"applicationID\":\"1\",\"objectJSON\":\"{}\",\"tags\":{{}}}}",
        object_json_escaped
    );
    Message::new(topic, payload)
}

fn noon() -> TimeOfDay {
    TimeOfDay::from_hms(12, 0, 0)
}

#[test]
fn temperature_below_threshold_fires_one_queue_item() {
    // one device condition: temperature below 25; one action
    let cond = Condition::Device(DeviceCondition::new(
        device_a(),
        0,
        "<".to_string(),
        RefValue::IntNumber(25),
    ));
    let action = Action::new(device_a(), vec![0], "080100ff".to_string(), 55);
    let rule = Rule::new(vec![cond], vec![], vec![action]);
    let profs = profiles(vec!["temperature"]);

    let topics = rule_topics(&rule);
    assert_eq!(topics, vec!["application/1/device/AAA/event/up".to_string()]);

    let mut buf = CycleBuffer::new(topics);
    let m = uplink_payload("AAA", "{\\\"temperature\\\": 21}");
    assert_eq!(buf.offer(m), OfferOutcome::Stored);
    assert!(buf.complete());

    let reqs = float_requests(&rule, &buf.messages, &profs);
    assert_eq!(reqs.len(), 0);

    let outcome = evaluate_rule(&rule, &buf.messages, &profs, Weekday::Mon, noon(), &vec![]);
    assert_eq!(outcome, EvalOutcome::Satisfied);

    // the satisfied rule submits exactly one queue item per action
    let item = build_queue_item(&rule.actions[0]).expect("command is well-formed hexadecimal");
    assert_eq!(item.dev_eui, "AAA");
    assert_eq!(item.confirmed, false);
    assert_eq!(item.f_cnt, 0);
    assert_eq!(item.f_port, 55);
    assert_eq!(item.data, b"CAEA/w==".to_vec());
    assert_eq!(item.json_object, "");
}

#[test]
fn temperature_at_or_above_threshold_does_not_fire() {
    let cond = Condition::Device(DeviceCondition::new(
        device_a(),
        0,
        "<".to_string(),
        RefValue::IntNumber(25),
    ));
    let rule = Rule::new(vec![cond], vec![], vec![]);
    let profs = profiles(vec!["temperature"]);
    let msgs = vec![uplink_payload("AAA", "{\\\"temperature\\\": 30}")];
    let outcome = evaluate_rule(&rule, &msgs, &profs, Weekday::Mon, noon(), &vec![]);
    assert_eq!(outcome, EvalOutcome::NotSatisfied);
}

#[test]
fn unrecognized_operator_is_fatal() {
    let cond = Condition::Device(DeviceCondition::new(
        device_a(),
        0,
        "<>".to_string(),
        RefValue::IntNumber(25),
    ));
    let rule = Rule::new(vec![cond], vec![], vec![]);
    let profs = profiles(vec!["temperature"]);
    let msgs = vec![uplink_payload("AAA", "{\\\"temperature\\\": 21}")];
    let outcome = evaluate_rule(&rule, &msgs, &profs, Weekday::Mon, noon(), &vec![]);
    assert_eq!(outcome, EvalOutcome::Fatal);
}

#[test]
fn unrecognized_combinator_is_fatal() {
    let c1 = Condition::Device(DeviceCondition::new(
        device_a(),
        0,
        "<".to_string(),
        RefValue::IntNumber(25),
    ));
    let c2 = Condition::Device(DeviceCondition::new(
        device_a(),
        0,
        ">".to_string(),
        RefValue::IntNumber(10),
    ));
    let rule = Rule::new(vec![c1, c2], vec!["and".to_string()], vec![]);
    let profs = profiles(vec!["temperature"]);
    let msgs = vec![uplink_payload("AAA", "{\\\"temperature\\\": 21}")];
    let outcome = evaluate_rule(&rule, &msgs, &profs, Weekday::Mon, noon(), &vec![]);
    assert_eq!(outcome, EvalOutcome::Fatal);
}

#[test]
fn missing_field_retries_the_cycle() {
    let cond = Condition::Device(DeviceCondition::new(
        device_a(),
        0,
        "<".to_string(),
        RefValue::IntNumber(25),
    ));
    let rule = Rule::new(vec![cond], vec![], vec![]);
    let profs = profiles(vec!["temperature"]);
    let msgs = vec![uplink_payload("AAA", "{\\\"humidity\\\": 40}")];
    let outcome = evaluate_rule(&rule, &msgs, &profs, Weekday::Mon, noon(), &vec![]);
    assert_eq!(outcome, EvalOutcome::Retry);
}

#[test]
fn unparseable_payload_retries_the_cycle() {
    let cond = Condition::Device(DeviceCondition::new(
        device_a(),
        0,
        "<".to_string(),
        RefValue::IntNumber(25),
    ));
    let rule = Rule::new(vec![cond], vec![], vec![]);
    let profs = profiles(vec!["temperature"]);
    let msgs = vec![Message::new(
        "application/1/device/AAA/event/up".to_string(),
        "no measurement object here".to_string(),
    )];
    let outcome = evaluate_rule(&rule, &msgs, &profs, Weekday::Mon, noon(), &vec![]);
    assert_eq!(outcome, EvalOutcome::Retry);
}

#[test]
fn unregistered_profile_retries_the_cycle() {
    let cond = Condition::Device(DeviceCondition::new(
        Device::new("AAA", 1, "prof-unknown"),
        0,
        "<".to_string(),
        RefValue::IntNumber(25),
    ));
    let rule = Rule::new(vec![cond], vec![], vec![]);
    let profs = profiles(vec!["temperature"]);
    let msgs = vec![uplink_payload("AAA", "{\\\"temperature\\\": 21}")];
    let outcome = evaluate_rule(&rule, &msgs, &profs, Weekday::Mon, noon(), &vec![]);
    assert_eq!(outcome, EvalOutcome::Retry);
}

#[test]
fn float_threshold_asks_for_one_reading_and_compares_it() {
    let cond = Condition::Device(DeviceCondition::new(
        device_a(),
        0,
        ">".to_string(),
        RefValue::FloatNumber(20.5f32.to_bits()),
    ));
    let rule = Rule::new(vec![cond], vec![], vec![]);
    let profs = profiles(vec!["temperature"]);
    let msgs = vec![uplink_payload("AAA", "{\\\"temperature\\\": 21.25}")];

    let reqs = float_requests(&rule, &msgs, &profs);
    assert_eq!(reqs.len(), 1);
    assert_eq!(reqs[0].field, "temperature");
    let text: String = reqs[0].object_json.iter().collect();
    assert_eq!(text, "{\"temperature\": 21.25}");

    // answer the request the way the embedding application would
    let v: serde_json::Value = serde_json::from_str(&text).unwrap();
    let bits = v[reqs[0].field.as_str()].as_f64().map(|f| (f as f32).to_bits());
    let answers = vec![bits];

    let outcome = evaluate_rule(&rule, &msgs, &profs, Weekday::Mon, noon(), &answers);
    assert_eq!(outcome, EvalOutcome::Satisfied);

    // an unanswerable reading retries the cycle
    let outcome2 = evaluate_rule(&rule, &msgs, &profs, Weekday::Mon, noon(), &vec![None]);
    assert_eq!(outcome2, EvalOutcome::Retry);
}

#[test]
fn reference_bool_reading_coerces_both_sides() {
    // the reference device's field is a boolean; the primary device's raw
    // field is numeric-looking text — the boolean path is taken, where the
    // primary reading is no boolean, so the cycle retries instead of
    // falling back to a text comparison
    let cond = Condition::Device(DeviceCondition::new(
        device_a(),
        0,
        "==".to_string(),
        RefValue::Uplink((device_b(), 1)),
    ));
    let rule = Rule::new(vec![cond], vec![], vec![]);
    let profs = profiles(vec!["state", "switch"]);
    let msgs = vec![
        uplink_payload("AAA", "{\\\"state\\\": \\\"21\\\", \\\"switch\\\": false}"),
        uplink_payload("BBB", "{\\\"state\\\": \\\"off\\\", \\\"switch\\\": true}"),
    ];
    let outcome = evaluate_rule(&rule, &msgs, &profs, Weekday::Mon, noon(), &vec![]);
    assert_eq!(outcome, EvalOutcome::Retry);

    // with a boolean primary reading the two booleans are compared
    let msgs2 = vec![
        uplink_payload("AAA", "{\\\"state\\\": true, \\\"switch\\\": false}"),
        uplink_payload("BBB", "{\\\"state\\\": \\\"off\\\", \\\"switch\\\": false}"),
    ];
    let cond2 = Condition::Device(DeviceCondition::new(
        device_a(),
        0,
        "==".to_string(),
        RefValue::Uplink((device_b(), 1)),
    ));
    let rule2 = Rule::new(vec![cond2], vec![], vec![]);
    let outcome2 = evaluate_rule(&rule2, &msgs2, &profs, Weekday::Mon, noon(), &vec![]);
    assert_eq!(outcome2, EvalOutcome::NotSatisfied);
}

#[test]
fn reference_numeric_reading_asks_for_both_sides() {
    let cond = Condition::Device(DeviceCondition::new(
        device_a(),
        0,
        "<".to_string(),
        RefValue::Uplink((device_b(), 1)),
    ));
    let rule = Rule::new(vec![cond], vec![], vec![]);
    let profs = profiles(vec!["temperature", "limit"]);
    let msgs = vec![
        uplink_payload("AAA", "{\\\"temperature\\\": 19.5, \\\"limit\\\": 1}"),
        uplink_payload("BBB", "{\\\"temperature\\\": 3, \\\"limit\\\": 20.5}"),
    ];
    let reqs = float_requests(&rule, &msgs, &profs);
    assert_eq!(reqs.len(), 2);
    assert_eq!(reqs[0].field, "temperature");
    assert_eq!(reqs[1].field, "limit");

    let answers = vec![Some(19.5f32.to_bits()), Some(20.5f32.to_bits())];
    let outcome = evaluate_rule(&rule, &msgs, &profs, Weekday::Mon, noon(), &answers);
    assert_eq!(outcome, EvalOutcome::Satisfied);
}

#[test]
fn reference_text_reading_compares_texts() {
    let cond = Condition::Device(DeviceCondition::new(
        device_a(),
        0,
        "==".to_string(),
        RefValue::Uplink((device_b(), 1)),
    ));
    let rule = Rule::new(vec![cond], vec![], vec![]);
    let profs = profiles(vec!["state", "wanted"]);
    let msgs = vec![
        uplink_payload("AAA", "{\\\"state\\\": \\\"open\\\", \\\"wanted\\\": \\\"x\\\"}"),
        uplink_payload("BBB", "{\\\"state\\\": \\\"shut\\\", \\\"wanted\\\": \\\"open\\\"}"),
    ];
    let outcome = evaluate_rule(&rule, &msgs, &profs, Weekday::Mon, noon(), &vec![]);
    assert_eq!(outcome, EvalOutcome::Satisfied);
}

#[test]
fn string_threshold_compares_lexicographically() {
    let cond = Condition::Device(DeviceCondition::new(
        device_a(),
        0,
        "==".to_string(),
        RefValue::String("open".to_string()),
    ));
    let rule = Rule::new(vec![cond], vec![], vec![]);
    let profs = profiles(vec!["state"]);
    let msgs = vec![uplink_payload("AAA", "{\\\"state\\\": \\\"open\\\"}")];
    let outcome = evaluate_rule(&rule, &msgs, &profs, Weekday::Mon, noon(), &vec![]);
    assert_eq!(outcome, EvalOutcome::Satisfied);
}

#[test]
fn bool_threshold_compares_booleans() {
    let cond = Condition::Device(DeviceCondition::new(
        device_a(),
        0,
        "!=".to_string(),
        RefValue::Bool(false),
    ));
    let rule = Rule::new(vec![cond], vec![], vec![]);
    let profs = profiles(vec!["motion"]);
    let msgs = vec![uplink_payload("AAA", "{\\\"motion\\\": true}")];
    let outcome = evaluate_rule(&rule, &msgs, &profs, Weekday::Mon, noon(), &vec![]);
    assert_eq!(outcome, EvalOutcome::Satisfied);
}

#[test]
fn two_conditions_fold_under_combinator() {
    let c1 = Condition::Device(DeviceCondition::new(
        device_a(),
        0,
        "<".to_string(),
        RefValue::IntNumber(25),
    ));
    let c2 = Condition::Device(DeviceCondition::new(
        device_a(),
        0,
        ">".to_string(),
        RefValue::IntNumber(30),
    ));
    let profs = profiles(vec!["temperature"]);
    let msgs = vec![uplink_payload("AAA", "{\\\"temperature\\\": 21}")];
    let and_rule = Rule::new(
        vec![
            Condition::Device(DeviceCondition::new(device_a(), 0, "<".to_string(), RefValue::IntNumber(25))),
            Condition::Device(DeviceCondition::new(device_a(), 0, ">".to_string(), RefValue::IntNumber(30))),
        ],
        vec!["&".to_string()],
        vec![],
    );
    assert_eq!(
        evaluate_rule(&and_rule, &msgs, &profs, Weekday::Mon, noon(), &vec![]),
        EvalOutcome::NotSatisfied
    );
    let or_rule = Rule::new(vec![c1, c2], vec!["|".to_string()], vec![]);
    assert_eq!(
        evaluate_rule(&or_rule, &msgs, &profs, Weekday::Mon, noon(), &vec![]),
        EvalOutcome::Satisfied
    );
}

#[test]
fn stopped_rule_reads_as_not_running() {
    let mut rule = Rule::new(vec![], vec![], vec![]);
    rule.start();
    assert!(rule.is_running());
    RuleContainer::stop_rule_execution(&mut rule);
    // the executor reads this gate at the top of its loop and leaves
    // without another dispatch when it reads false
    assert!(!rule.is_running());
}

#[test]
fn integer_reading_is_coerced_with_a_truncating_cast() {
    // a reading beyond the 32-bit range wraps, as the cast wraps it:
    // 4294967297 keeps its low 32 bits, 1, which lies below 25
    let cond = Condition::Device(DeviceCondition::new(
        device_a(),
        0,
        "<".to_string(),
        RefValue::IntNumber(25),
    ));
    let rule = Rule::new(vec![cond], vec![], vec![]);
    let profs = profiles(vec!["counter"]);
    let msgs = vec![uplink_payload("AAA", "{\\\"counter\\\": 4294967297}")];
    let outcome = evaluate_rule(&rule, &msgs, &profs, Weekday::Mon, noon(), &vec![]);
    assert_eq!(outcome, EvalOutcome::Satisfied);
}

#[test]
fn fractional_reading_fails_an_integer_comparison() {
    // a number with a fraction is no 64-bit integer reading
    let cond = Condition::Device(DeviceCondition::new(
        device_a(),
        0,
        "<".to_string(),
        RefValue::IntNumber(25),
    ));
    let rule = Rule::new(vec![cond], vec![], vec![]);
    let profs = profiles(vec!["temperature"]);
    let msgs = vec![uplink_payload("AAA", "{\\\"temperature\\\": 21.5}")];
    let outcome = evaluate_rule(&rule, &msgs, &profs, Weekday::Mon, noon(), &vec![]);
    assert_eq!(outcome, EvalOutcome::Retry);
}

#[test]
fn time_condition_in_a_rule_uses_the_present_moment() {
    let cond = Condition::Time(TimeCondition::new(
        Some(Weekday::Mon),
        TimeOfDay::from_hms(8, 0, 0),
        TimeOfDay::from_hms(15, 0, 0),
    ));
    let rule = Rule::new(vec![cond], vec![], vec![]);
    let profs = profiles(vec![]);
    let msgs: Vec<Message> = vec![];
    assert_eq!(
        evaluate_rule(&rule, &msgs, &profs, Weekday::Mon, noon(), &vec![]),
        EvalOutcome::Satisfied
    );
    assert_eq!(
        evaluate_rule(&rule, &msgs, &profs, Weekday::Tue, noon(), &vec![]),
        EvalOutcome::NotSatisfied
    );
}

