//! The rule data model: conditions, actions and rules, and the container
//! that owns the rules.
//!
//! A rule holds an ordered list of conditions, an ordered list of boolean
//! combinator tokens (one fewer than the conditions; the results are folded
//! left to right), an ordered list of actions, and a running flag. The flag
//! is the rule's only state that changes while the rule runs: execution
//! starts by setting it, a stop request or a fatal token-resolution failure
//! clears it, and the executing loop leaves when it reads the flag as
//! cleared.

use vstd::prelude::*;

use crate::devices::Device;
use crate::timecheck::{TimeOfDay, Weekday};

verus! {

/// A condition's comparison operand: a signed integer, a floating-point
/// value held as its bit pattern, a boolean, a text, or the reading of
/// another device (that device together with the index of the uplink field
/// to read).
pub enum RefValue {
    IntNumber(i32),
    String(String),
    FloatNumber(u32),
    Bool(bool),
    Uplink((Device, usize)),
}

/// A condition over a device's telemetry: the device, the index of the
/// uplink field to read, the comparison-operator token, and the value to
/// compare the reading with.
pub struct DeviceCondition {
    pub device: Device,
    pub measure_data: usize,
    pub operator: String,
    pub threshold: RefValue,
}

impl DeviceCondition {
    /// Creates a new device condition.
    pub fn new(device: Device, measure_data: usize, operator: String, threshold: RefValue) -> (r:
        Self)
        ensures
            r.device == device,
            r.measure_data == measure_data,
            r.operator == operator,
            r.threshold == threshold,
    {
        return DeviceCondition { device, measure_data, operator, threshold };
    }
}

/// A condition over wall-clock time: an optional weekday (unset means every
/// day) and the window from a start to an end time of day. The window may
/// wrap past midnight.
pub struct TimeCondition {
    pub weekday: Option<Weekday>,
    pub timespan: [TimeOfDay; 2],
}

impl TimeCondition {
    /// Creates a new time condition from a weekday bound and the two ends
    /// of the window.
    pub fn new(weekday: Option<Weekday>, timespan_start: TimeOfDay, timespan_end: TimeOfDay) -> (r:
        Self)
        ensures
            r.weekday == weekday,
            r.timespan[0] == timespan_start,
            r.timespan[1] == timespan_end,
    {
        return TimeCondition { weekday, timespan: [timespan_start, timespan_end] };
    }
}

/// One condition of a rule: over a device's telemetry or over time.
pub enum Condition {
    Device(DeviceCondition),
    Time(TimeCondition),
}

/// An action a rule takes when its conditions hold: the target device, the
/// indices of the downlink commands the message was built from, the message
/// itself encoded in hexadecimal, and the port the message goes to.
pub struct Action {
    pub device: Device,
    pub payload_indices: Vec<usize>,
    pub message: String,
    pub f_port: u32,
}

impl Action {
    /// Creates a new action.
    pub fn new(device: Device, payload_indices: Vec<usize>, message: String, f_port: u32) -> (r:
        Self)
        ensures
            r.device == device,
            r.payload_indices == payload_indices,
            r.message == message,
            r.f_port == f_port,
    {
        return Action { device, payload_indices, message, f_port };
    }
}

/// The representation of a rule.
pub struct Rule {
    pub conditions: Vec<Condition>,
    pub bool_ops: Vec<String>,
    pub actions: Vec<Action>,
    pub running: bool,
}

/// A well-shaped rule holds at least one condition and exactly one
/// combinator token between each two neighbouring conditions.
pub open spec fn rule_wf(rule: Rule) -> bool {
    &&& rule.conditions@.len() >= 1
    &&& rule.bool_ops@.len() == rule.conditions@.len() - 1
}

impl Rule {
    /// Creates a new rule, not yet running, from its conditions, the
    /// combinator tokens between them, and its actions.
    pub fn new(conditions: Vec<Condition>, bool_ops: Vec<String>, actions: Vec<Action>) -> (r: Self)
        ensures
            r.conditions == conditions,
            r.bool_ops == bool_ops,
            r.actions == actions,
            r.running == false,
    {
        return Rule { conditions, bool_ops, actions, running: false };
    }

    /// Whether the rule is being executed.
    pub fn is_running(&self) -> (r: bool)
        ensures
            r == self.running,
    {
        return self.running;
    }

    /// Marks the rule as running; execution begins with this.
    pub fn start(&mut self)
        ensures
            final(self).running == true,
            final(self).conditions == old(self).conditions,
            final(self).bool_ops == old(self).bool_ops,
            final(self).actions == old(self).actions,
    {
        self.running = true;
    }

    /// Clears the running flag; the executing loop leaves when it next
    /// reads the flag.
    pub fn stop(&mut self)
        ensures
            final(self).running == false,
            final(self).conditions == old(self).conditions,
            final(self).bool_ops == old(self).bool_ops,
            final(self).actions == old(self).actions,
    {
        self.running = false;
    }
}

/// Manages the rules.
pub struct RuleContainer {
    pub rules: Vec<Rule>,
}

impl RuleContainer {
    /// Creates a new, empty rule container.
    pub fn new() -> (r: Self)
        ensures
            r.rules@.len() == 0,
    {
        return RuleContainer { rules: Vec::new() };
    }

    /// Adds a rule.
    pub fn add_rule(&mut self, rule: Rule)
        ensures
            final(self).rules@ == old(self).rules@.push(rule),
    {
        self.rules.push(rule);
    }

    /// Gets all rules.
    pub fn get_rules(&self) -> (r: &Vec<Rule>)
        ensures
            r == &self.rules,
    {
        return &self.rules;
    }

    /// Stops the execution of a rule: clears its running flag, so that the
    /// loop executing the rule leaves at its next flag check and issues no
    /// further dispatch.
    pub fn stop_rule_execution(rule: &mut Rule)
        ensures
            final(rule).running == false,
            final(rule).conditions == old(rule).conditions,
            final(rule).bool_ops == old(rule).bool_ops,
            final(rule).actions == old(rule).actions,
    {
        rule.stop();
    }
}

} // verus!
