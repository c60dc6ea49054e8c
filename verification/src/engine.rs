//! Evaluation of a rule against one complete snapshot of messages.
//!
//! Per cycle the executor hands the rule's buffered messages, the profile
//! registry and the present time to `evaluate_rule`. Every condition yields
//! one boolean, in condition order; the combinators fold them left to right;
//! the outcome says whether the actions fire, or that the cycle failed in a
//! recoverable way (cleared buffer, new cycle), or that the rule must stop.
//!
//! A comparison against a floating-point value needs the reading as a
//! floating-point bit pattern, which only the embedding application can
//! produce: `float_requests` lists, in evaluation order, which field of
//! which measurement text is needed; the application answers each with the
//! field read as a single-precision pattern (or nothing, when the field is
//! not a number), and evaluation consumes the answers in the same order.
//!
//! A device condition compares the reading of its device's field against
//! its comparison value. When that value is another device's reading, the
//! reference device's reading dictates the comparison type: a boolean
//! reading compares both sides as booleans, a numeric reading as
//! floating-point values, anything else as text.

use vstd::prelude::*;

use crate::devices::{spec_profile_index, Device, DeviceProfile, DeviceProfileContainer};
use crate::extract::{extract_data, message_for_device, spec_extract, spec_message_for};
use crate::json::{
    fields_view,
    json_fields,
    lookup_field,
    parse_measurements,
    spec_lookup,
    JsonField,
    JsonScalar,
};
use crate::messages::Message;
use crate::operators::{
    apply_op_bool,
    apply_op_f32,
    apply_op_int,
    apply_op_text,
    fold_bools,
    resolve_bool_op,
    resolve_operator,
    spec_apply_op_bool,
    spec_apply_op_f32,
    spec_apply_op_int,
    spec_apply_op_text,
    spec_fold_bools,
    spec_resolve_bool_op,
    spec_resolve_operator,
    BoolOp,
};
use crate::rules::{rule_wf, Condition, DeviceCondition, RefValue, Rule, TimeCondition};
use crate::timecheck::{
    spec_time_window_holds,
    spec_weekday_matches,
    time_condition_holds,
    TimeOfDay,
    Weekday,
};

verus! {

/// How one evaluation cycle ended.
#[derive(Clone, Copy, PartialEq, Eq, Structural, Debug)]
pub enum EvalOutcome {
    /// The folded conditions hold: the rule's actions fire.
    Satisfied,
    /// The folded conditions do not hold: nothing fires, next cycle.
    NotSatisfied,
    /// A reading, extraction or lookup failed for this cycle: the buffered
    /// messages are cleared and the cycle starts over.
    Retry,
    /// An operator or combinator token did not resolve: the rule stops.
    Fatal,
}

/// One floating-point reading the application must supply: the measurement
/// text to parse and the field to read as a single-precision value.
pub struct FloatRequest {
    pub object_json: Vec<char>,
    pub field: String,
}

/// The request as the specification sees it: text and field by characters.
pub open spec fn req_view(r: FloatRequest) -> (Seq<char>, Seq<char>) {
    (r.object_json@, r.field@)
}

/// The reading coerced to a signed 32-bit integer, as the cast coerces it.
pub open spec fn spec_wrap_i32(v: i64) -> i32 {
    v as i32
}

/// The parsed measurement fields of a device's buffered message: the
/// message found for the device, its measurement text extracted, that text
/// parsed — or nothing when one of the steps fails.
pub open spec fn spec_fields_for(dev: Device, msgs: Seq<Message>) -> Option<
    Seq<(Seq<char>, JsonScalar)>,
> {
    match spec_extract(spec_message_for(msgs, dev.dev_eui@)) {
        None => None,
        Some(t) => json_fields(t),
    }
}

/// The uplink field name a condition reads: the name at the condition's
/// field index in the device's profile — or nothing, when the profile is
/// not registered, carries no uplink list, or the index lies outside it.
pub open spec fn spec_uplink_name(dev: Device, midx: int, profs: Seq<DeviceProfile>) -> Option<
    Seq<char>,
> {
    match spec_profile_index(profs, dev.device_profile_id@) {
        Err(()) => None,
        Ok(i) => match profs[i].uplink {
            None => None,
            Some(u) => if 0 <= midx < u.payloads@.len() {
                Some(u.payloads@[midx]@)
            } else {
                None
            },
        },
    }
}

/// Fetches and parses the measurement fields of a device's buffered
/// message.
fn fields_for(dev: &Device, messages: &Vec<Message>) -> (r: Option<Vec<JsonField>>)
    ensures
        match r {
            None => spec_fields_for(*dev, messages@) is None,
            Some(v) => spec_fields_for(*dev, messages@) == Some(fields_view(v@)),
        },
{
    let m = message_for_device(messages, dev);
    match extract_data(m.as_str()) {
        Err(()) => None,
        Ok(chars) => parse_measurements(&chars),
    }
}

/// Looks up the uplink field name a condition reads.
fn uplink_name(dev: &Device, midx: usize, profiles: &DeviceProfileContainer) -> (r: Option<String>)
    ensures
        match r {
            None => spec_uplink_name(*dev, midx as int, profiles.device_profiles@) is None,
            Some(s) => spec_uplink_name(*dev, midx as int, profiles.device_profiles@) == Some(s@),
        },
{
    let idx = match profiles.get_device_profile_index_via_dev_prof_id(
        dev.device_profile_id.as_str(),
    ) {
        Err(()) => {
            return None;
        },
        Ok(i) => i,
    };
    proof {
        crate::devices::lemma_profile_index_ok_bounds(
            profiles.device_profiles@,
            dev.device_profile_id@,
        );
    }
    match &profiles.device_profiles[idx].uplink {
        None => None,
        Some(u) => {
            if midx < u.payloads.len() {
                Some(u.payloads[midx].clone())
            } else {
                None
            }
        },
    }
}

/// What one device condition yields: its boolean and the count of
/// floating-point answers consumed so far — or a failure, fatal (`true`,
/// the operator token did not resolve) or transient (`false`).
pub open spec fn spec_eval_device_condition(
    dc: DeviceCondition,
    msgs: Seq<Message>,
    profs: Seq<DeviceProfile>,
    floats: Seq<Option<u32>>,
    pos: int,
) -> Result<(bool, int), bool> {
    match spec_uplink_name(dc.device, dc.measure_data as int, profs) {
        None => Err(false),
        Some(name) => match spec_fields_for(dc.device, msgs) {
            None => Err(false),
            Some(fields) => {
                let v = spec_lookup(fields, name);
                match dc.threshold {
                    RefValue::IntNumber(t) => match spec_resolve_operator(dc.operator@) {
                        None => Err(true),
                        Some(op) => match v {
                            JsonScalar::Int(i) => Ok((spec_apply_op_int(op, spec_wrap_i32(i), t), pos)),
                            _ => Err(false),
                        },
                    },
                    RefValue::FloatNumber(t) => match spec_resolve_operator(dc.operator@) {
                        None => Err(true),
                        Some(op) => if 0 <= pos < floats.len() {
                            match floats[pos] {
                                Some(bits) => Ok((spec_apply_op_f32(op, bits, t), pos + 1)),
                                None => Err(false),
                            }
                        } else {
                            Err(false)
                        },
                    },
                    RefValue::Bool(t) => match spec_resolve_operator(dc.operator@) {
                        None => Err(true),
                        Some(op) => match v {
                            JsonScalar::Bool(b) => Ok((spec_apply_op_bool(op, b, t), pos)),
                            _ => Err(false),
                        },
                    },
                    RefValue::String(t) => match spec_resolve_operator(dc.operator@) {
                        None => Err(true),
                        Some(op) => match v {
                            JsonScalar::Text(s) => Ok((spec_apply_op_text(op, s@, t@), pos)),
                            _ => Err(false),
                        },
                    },
                    RefValue::Uplink((dev2, idx2)) => match spec_fields_for(dev2, msgs) {
                        None => Err(false),
                        Some(fields2) => match spec_uplink_name(dev2, idx2 as int, profs) {
                            None => Err(false),
                            Some(name2) => {
                                let rv = spec_lookup(fields2, name2);
                                match rv {
                                    JsonScalar::Bool(b2) => match v {
                                        JsonScalar::Bool(b1) => match spec_resolve_operator(
                                            dc.operator@,
                                        ) {
                                            None => Err(true),
                                            Some(op) => Ok(
                                                (spec_apply_op_bool(op, b1, b2), pos),
                                            ),
                                        },
                                        _ => Err(false),
                                    },
                                    JsonScalar::Int(_) | JsonScalar::NumOther => if 0 <= pos
                                        < floats.len() {
                                        match floats[pos] {
                                            None => Err(false),
                                            Some(a) => match spec_resolve_operator(dc.operator@) {
                                                None => Err(true),
                                                Some(op) => if pos + 1 < floats.len() {
                                                    match floats[pos + 1] {
                                                        None => Err(false),
                                                        Some(b) => Ok(
                                                            (
                                                                spec_apply_op_f32(op, a, b),
                                                                pos + 2,
                                                            ),
                                                        ),
                                                    }
                                                } else {
                                                    Err(false)
                                                },
                                            },
                                        }
                                    } else {
                                        Err(false)
                                    },
                                    _ => match v {
                                        JsonScalar::Text(s1) => match spec_resolve_operator(
                                            dc.operator@,
                                        ) {
                                            None => Err(true),
                                            Some(op) => match rv {
                                                JsonScalar::Text(s2) => Ok(
                                                    (spec_apply_op_text(op, s1@, s2@), pos),
                                                ),
                                                _ => Err(false),
                                            },
                                        },
                                        _ => Err(false),
                                    },
                                }
                            },
                        },
                    },
                }
            },
        },
    }
}

/// What one time condition yields: whether the weekday bound is met and the
/// present time lies in the window.
pub open spec fn spec_eval_time_condition(tc: TimeCondition, today: Weekday, now: TimeOfDay) -> bool {
    spec_weekday_matches(tc.weekday, today) && spec_time_window_holds(
        tc.timespan[0],
        tc.timespan[1],
        now,
    )
}

/// What a run of conditions yields: their booleans in condition order and
/// the count of floating-point answers consumed — or the first failure.
pub open spec fn spec_eval_conditions(
    conds: Seq<Condition>,
    msgs: Seq<Message>,
    profs: Seq<DeviceProfile>,
    today: Weekday,
    now: TimeOfDay,
    floats: Seq<Option<u32>>,
    pos: int,
) -> Result<(Seq<bool>, int), bool>
    decreases conds.len(),
{
    if conds.len() == 0 {
        Ok((Seq::empty(), pos))
    } else {
        let head = match conds[0] {
            Condition::Device(dc) => spec_eval_device_condition(dc, msgs, profs, floats, pos),
            Condition::Time(tc) => Ok((spec_eval_time_condition(tc, today, now), pos)),
        };
        match head {
            Err(f) => Err(f),
            Ok((b, pos2)) => match spec_eval_conditions(
                conds.drop_first(),
                msgs,
                profs,
                today,
                now,
                floats,
                pos2,
            ) {
                Err(f) => Err(f),
                Ok((rest, pos3)) => Ok((seq![b] + rest, pos3)),
            },
        }
    }
}

/// The combinator tokens resolved in order, or nothing at the first
/// unrecognized token.
pub open spec fn spec_resolve_bool_ops(ops: Seq<String>) -> Option<Seq<BoolOp>>
    decreases ops.len(),
{
    if ops.len() == 0 {
        Some(Seq::empty())
    } else {
        match spec_resolve_bool_op(ops[0]@) {
            None => None,
            Some(o) => match spec_resolve_bool_ops(ops.drop_first()) {
                None => None,
                Some(rest) => Some(seq![o] + rest),
            },
        }
    }
}

/// What one evaluation cycle of a rule yields, given the buffered messages,
/// the registered profiles, the present time and the floating-point
/// answers: a transient condition failure retries the cycle; an
/// unrecognized operator or combinator token stops the rule; otherwise the
/// left-to-right fold of the condition booleans decides whether the actions
/// fire.
pub open spec fn spec_evaluate_rule(
    rule: Rule,
    msgs: Seq<Message>,
    profs: Seq<DeviceProfile>,
    today: Weekday,
    now: TimeOfDay,
    floats: Seq<Option<u32>>,
) -> EvalOutcome {
    match spec_eval_conditions(rule.conditions@, msgs, profs, today, now, floats, 0) {
        Err(true) => EvalOutcome::Fatal,
        Err(false) => EvalOutcome::Retry,
        Ok((bools, _)) => match spec_resolve_bool_ops(rule.bool_ops@) {
            None => EvalOutcome::Fatal,
            Some(ops) => if spec_fold_bools(bools, ops) {
                EvalOutcome::Satisfied
            } else {
                EvalOutcome::NotSatisfied
            },
        },
    }
}

/// Evaluates one device condition against the buffered messages.
fn eval_device_condition(
    dc: &DeviceCondition,
    messages: &Vec<Message>,
    profiles: &DeviceProfileContainer,
    floats: &Vec<Option<u32>>,
    pos: usize,
) -> (r: Result<(bool, usize), bool>)
    requires
        pos <= floats@.len(),
    ensures
        match r {
            Ok(p) => spec_eval_device_condition(
                *dc,
                messages@,
                profiles.device_profiles@,
                floats@,
                pos as int,
            ) == Ok::<(bool, int), bool>((p.0, p.1 as int)) && pos <= p.1 <= floats@.len(),
            Err(f) => spec_eval_device_condition(
                *dc,
                messages@,
                profiles.device_profiles@,
                floats@,
                pos as int,
            ) == Err::<(bool, int), bool>(f),
        },
{
    let name = match uplink_name(&dc.device, dc.measure_data, profiles) {
        None => {
            return Err(false);
        },
        Some(n) => n,
    };
    let fields = match fields_for(&dc.device, messages) {
        None => {
            return Err(false);
        },
        Some(f) => f,
    };
    let v = lookup_field(&fields, name.as_str());
    match &dc.threshold {
        RefValue::IntNumber(t) => {
            let op = match resolve_operator(dc.operator.as_str()) {
                Err(()) => {
                    return Err(true);
                },
                Ok(op) => op,
            };
            match v {
                JsonScalar::Int(i) => {
                    let m: i32 = #[verifier::truncate] (i as i32);
                    Ok((apply_op_int(op, m, *t), pos))
                },
                _ => Err(false),
            }
        },
        RefValue::FloatNumber(t) => {
            let op = match resolve_operator(dc.operator.as_str()) {
                Err(()) => {
                    return Err(true);
                },
                Ok(op) => op,
            };
            if pos >= floats.len() {
                return Err(false);
            }
            match floats[pos] {
                Some(bits) => Ok((apply_op_f32(op, bits, *t), pos + 1)),
                None => Err(false),
            }
        },
        RefValue::Bool(t) => {
            let op = match resolve_operator(dc.operator.as_str()) {
                Err(()) => {
                    return Err(true);
                },
                Ok(op) => op,
            };
            match v {
                JsonScalar::Bool(b) => Ok((apply_op_bool(op, b, *t), pos)),
                _ => Err(false),
            }
        },
        RefValue::String(t) => {
            let op = match resolve_operator(dc.operator.as_str()) {
                Err(()) => {
                    return Err(true);
                },
                Ok(op) => op,
            };
            match &v {
                JsonScalar::Text(s) => Ok((apply_op_text(op, s.as_str(), t.as_str()), pos)),
                _ => Err(false),
            }
        },
        RefValue::Uplink(pair) => {
            let fields2 = match fields_for(&pair.0, messages) {
                None => {
                    return Err(false);
                },
                Some(f) => f,
            };
            let name2 = match uplink_name(&pair.0, pair.1, profiles) {
                None => {
                    return Err(false);
                },
                Some(n) => n,
            };
            let rv = lookup_field(&fields2, name2.as_str());
            match &rv {
                JsonScalar::Bool(b2) => {
                    let b1 = match v {
                        JsonScalar::Bool(b) => b,
                        _ => {
                            return Err(false);
                        },
                    };
                    let op = match resolve_operator(dc.operator.as_str()) {
                        Err(()) => {
                            return Err(true);
                        },
                        Ok(op) => op,
                    };
                    Ok((apply_op_bool(op, b1, *b2), pos))
                },
                JsonScalar::Int(_) | JsonScalar::NumOther => {
                    if pos >= floats.len() {
                        return Err(false);
                    }
                    let a = match floats[pos] {
                        Some(x) => x,
                        None => {
                            return Err(false);
                        },
                    };
                    let op = match resolve_operator(dc.operator.as_str()) {
                        Err(()) => {
                            return Err(true);
                        },
                        Ok(op) => op,
                    };
                    if pos + 1 >= floats.len() {
                        return Err(false);
                    }
                    let b = match floats[pos + 1] {
                        Some(x) => x,
                        None => {
                            return Err(false);
                        },
                    };
                    Ok((apply_op_f32(op, a, b), pos + 2))
                },
                _ => {
                    let s1 = match &v {
                        JsonScalar::Text(s) => s,
                        _ => {
                            return Err(false);
                        },
                    };
                    let op = match resolve_operator(dc.operator.as_str()) {
                        Err(()) => {
                            return Err(true);
                        },
                        Ok(op) => op,
                    };
                    let s2 = match &rv {
                        JsonScalar::Text(s) => s,
                        _ => {
                            return Err(false);
                        },
                    };
                    Ok((apply_op_text(op, s1.as_str(), s2.as_str()), pos))
                },
            }
        },
    }
}

/// Evaluates a rule against one complete snapshot of buffered messages.
pub fn evaluate_rule(
    rule: &Rule,
    messages: &Vec<Message>,
    profiles: &DeviceProfileContainer,
    today: Weekday,
    now: TimeOfDay,
    floats: &Vec<Option<u32>>,
) -> (r: EvalOutcome)
    requires
        rule_wf(*rule),
    ensures
        r == spec_evaluate_rule(
            *rule,
            messages@,
            profiles.device_profiles@,
            today,
            now,
            floats@,
        ),
{
    let ghost conds = rule.conditions@;
    let ghost profs = profiles.device_profiles@;
    let n = rule.conditions.len();
    let mut bool_vec: Vec<bool> = Vec::new();
    let mut pos: usize = 0;
    let mut k: usize = 0;
    proof {
        assert(conds.skip(0) =~= conds);
        assert(bool_vec@ + Seq::<bool>::empty() =~= bool_vec@);
    }
    while k < n
        invariant
            rule_wf(*rule),
            conds == rule.conditions@,
            profs == profiles.device_profiles@,
            n == conds.len(),
            0 <= k <= n,
            bool_vec@.len() == k,
            pos <= floats@.len(),
            spec_eval_conditions(conds, messages@, profs, today, now, floats@, 0) == (
            match spec_eval_conditions(
                conds.skip(k as int),
                messages@,
                profs,
                today,
                now,
                floats@,
                pos as int,
            ) {
                Err(f) => Err::<(Seq<bool>, int), bool>(f),
                Ok((rest, p)) => Ok::<(Seq<bool>, int), bool>((bool_vec@ + rest, p)),
            }),
        decreases n - k,
    {
        proof {
            assert(conds.skip(k as int)[0] == conds[k as int]);
            assert(conds.skip(k as int).drop_first() =~= conds.skip(k + 1));
        }
        let step: Result<(bool, usize), bool> = match &rule.conditions[k] {
            Condition::Device(dc) => eval_device_condition(dc, messages, profiles, floats, pos),
            Condition::Time(tc) => Ok(
                (time_condition_holds(tc.weekday, tc.timespan[0], tc.timespan[1], today, now), pos),
            ),
        };
        match step {
            Err(f) => {
                if f {
                    return EvalOutcome::Fatal;
                } else {
                    return EvalOutcome::Retry;
                }
            },
            Ok((b, pos2)) => {
                let ghost old_bools = bool_vec@;
                bool_vec.push(b);
                pos = pos2;
                proof {
                    assert forall|rest: Seq<bool>| true implies old_bools + (seq![b] + rest)
                        =~= bool_vec@ + rest by {}
                }
            },
        }
        k = k + 1;
    }
    proof {
        assert(conds.skip(k as int).len() == 0);
        assert(bool_vec@ + Seq::<bool>::empty() =~= bool_vec@);
    }
    // resolve the combinator tokens; an unrecognized one stops the rule
    let ghost toks = rule.bool_ops@;
    let m = rule.bool_ops.len();
    let mut ops: Vec<BoolOp> = Vec::new();
    let mut j: usize = 0;
    proof {
        assert(toks.skip(0) =~= toks);
        assert(ops@ + Seq::<BoolOp>::empty() =~= ops@);
    }
    while j < m
        invariant
            toks == rule.bool_ops@,
            conds == rule.conditions@,
            profs == profiles.device_profiles@,
            rule_wf(*rule),
            bool_vec@.len() == conds.len(),
            spec_eval_conditions(conds, messages@, profs, today, now, floats@, 0)
                == Ok::<(Seq<bool>, int), bool>((bool_vec@, pos as int)),
            m == toks.len(),
            0 <= j <= m,
            ops@.len() == j,
            spec_resolve_bool_ops(toks) == (match spec_resolve_bool_ops(toks.skip(j as int)) {
                None => None::<Seq<BoolOp>>,
                Some(rest) => Some(ops@ + rest),
            }),
        decreases m - j,
    {
        proof {
            assert(toks.skip(j as int)[0] == toks[j as int]);
            assert(toks.skip(j as int).drop_first() =~= toks.skip(j + 1));
        }
        match resolve_bool_op(rule.bool_ops[j].as_str()) {
            Err(()) => {
                return EvalOutcome::Fatal;
            },
            Ok(o) => {
                let ghost old_ops = ops@;
                ops.push(o);
                proof {
                    assert forall|rest: Seq<BoolOp>| true implies old_ops + (seq![o] + rest)
                        =~= ops@ + rest by {}
                }
            },
        }
        j = j + 1;
    }
    proof {
        assert(toks.skip(j as int).len() == 0);
        assert(ops@ + Seq::<BoolOp>::empty() =~= ops@);
    }
    let result = fold_bools(&bool_vec, &ops);
    if result {
        EvalOutcome::Satisfied
    } else {
        EvalOutcome::NotSatisfied
    }
}

/// The floating-point readings one condition will need, in the order the
/// evaluation consumes them: the primary reading for a floating-point
/// comparison value; the primary and the reference reading where the
/// comparison value is another device's reading and that reading is
/// numeric. A condition whose lookups fail needs none — its cycle fails
/// before a reading is consumed.
pub open spec fn spec_cond_float_requests(
    c: Condition,
    msgs: Seq<Message>,
    profs: Seq<DeviceProfile>,
) -> Seq<(Seq<char>, Seq<char>)> {
    match c {
        Condition::Time(_) => Seq::empty(),
        Condition::Device(dc) => match spec_uplink_name(dc.device, dc.measure_data as int, profs) {
            None => Seq::empty(),
            Some(name) => match spec_extract(spec_message_for(msgs, dc.device.dev_eui@)) {
                None => Seq::empty(),
                Some(text) => match dc.threshold {
                    RefValue::FloatNumber(_) => seq![(text, name)],
                    RefValue::Uplink((dev2, idx2)) => match spec_extract(
                        spec_message_for(msgs, dev2.dev_eui@),
                    ) {
                        None => Seq::empty(),
                        Some(text2) => match json_fields(text2) {
                            None => Seq::empty(),
                            Some(fields2) => match spec_uplink_name(dev2, idx2 as int, profs) {
                                None => Seq::empty(),
                                Some(name2) => match spec_lookup(fields2, name2) {
                                    JsonScalar::Int(_) | JsonScalar::NumOther => seq![
                                        (text, name),
                                        (text2, name2),
                                    ],
                                    _ => Seq::empty(),
                                },
                            },
                        },
                    },
                    _ => Seq::empty(),
                },
            },
        },
    }
}

/// The floating-point readings a rule's conditions need, in evaluation
/// order.
pub open spec fn spec_float_requests(
    conds: Seq<Condition>,
    msgs: Seq<Message>,
    profs: Seq<DeviceProfile>,
) -> Seq<(Seq<char>, Seq<char>)>
    decreases conds.len(),
{
    if conds.len() == 0 {
        Seq::empty()
    } else {
        spec_cond_float_requests(conds[0], msgs, profs) + spec_float_requests(
            conds.drop_first(),
            msgs,
            profs,
        )
    }
}

/// Collects the floating-point readings one condition will need.
fn cond_float_requests(
    c: &Condition,
    messages: &Vec<Message>,
    profiles: &DeviceProfileContainer,
) -> (r: Vec<FloatRequest>)
    ensures
        r@.map_values(|q: FloatRequest| req_view(q)) == spec_cond_float_requests(
            *c,
            messages@,
            profiles.device_profiles@,
        ),
{
    let mut out: Vec<FloatRequest> = Vec::new();
    proof {
        assert(out@.map_values(|q: FloatRequest| req_view(q)) =~= Seq::<(
            Seq<char>,
            Seq<char>,
        )>::empty());
    }
    let dc = match c {
        Condition::Time(_) => {
            return out;
        },
        Condition::Device(dc) => dc,
    };
    let name = match uplink_name(&dc.device, dc.measure_data, profiles) {
        None => {
            return out;
        },
        Some(n) => n,
    };
    let m = message_for_device(messages, &dc.device);
    let text = match extract_data(m.as_str()) {
        Err(()) => {
            return out;
        },
        Ok(t) => t,
    };
    match &dc.threshold {
        RefValue::FloatNumber(_) => {
            let ghost tv = text@;
            let ghost nv = name@;
            out.push(FloatRequest { object_json: text, field: name });
            proof {
                assert(out@.map_values(|q: FloatRequest| req_view(q)) =~= seq![(tv, nv)]);
            }
            out
        },
        RefValue::Uplink(pair) => {
            let m2 = message_for_device(messages, &pair.0);
            let text2 = match extract_data(m2.as_str()) {
                Err(()) => {
                    return out;
                },
                Ok(t) => t,
            };
            let fields2 = match parse_measurements(&text2) {
                None => {
                    return out;
                },
                Some(f) => f,
            };
            let name2 = match uplink_name(&pair.0, pair.1, profiles) {
                None => {
                    return out;
                },
                Some(n) => n,
            };
            let rv = lookup_field(&fields2, name2.as_str());
            match rv {
                JsonScalar::Int(_) | JsonScalar::NumOther => {
                    let ghost tv = text@;
                    let ghost nv = name@;
                    let ghost tv2 = text2@;
                    let ghost nv2 = name2@;
                    out.push(FloatRequest { object_json: text, field: name });
                    out.push(FloatRequest { object_json: text2, field: name2 });
                    proof {
                        assert(out@.map_values(|q: FloatRequest| req_view(q)) =~= seq![
                            (tv, nv),
                            (tv2, nv2),
                        ]);
                    }
                    out
                },
                _ => out,
            }
        },
        _ => out,
    }
}

/// Lists, in evaluation order, the floating-point readings the rule's
/// conditions will need from the buffered messages. The embedding
/// application answers each request with the named field of the given
/// measurement text read as a single-precision bit pattern, or with nothing
/// when the field is not a number, and hands the answers to `evaluate_rule`
/// in the same order.
pub fn float_requests(
    rule: &Rule,
    messages: &Vec<Message>,
    profiles: &DeviceProfileContainer,
) -> (r: Vec<FloatRequest>)
    ensures
        r@.map_values(|q: FloatRequest| req_view(q)) == spec_float_requests(
            rule.conditions@,
            messages@,
            profiles.device_profiles@,
        ),
{
    let ghost conds = rule.conditions@;
    let ghost profs = profiles.device_profiles@;
    let n = rule.conditions.len();
    let mut out: Vec<FloatRequest> = Vec::new();
    let mut k: usize = 0;
    proof {
        assert(conds.skip(0) =~= conds);
        assert(out@.map_values(|q: FloatRequest| req_view(q)) =~= Seq::<(
            Seq<char>,
            Seq<char>,
        )>::empty());
        assert(Seq::<(Seq<char>, Seq<char>)>::empty() + spec_float_requests(conds, messages@, profs)
            =~= spec_float_requests(conds, messages@, profs));
    }
    while k < n
        invariant
            conds == rule.conditions@,
            profs == profiles.device_profiles@,
            n == conds.len(),
            0 <= k <= n,
            spec_float_requests(conds, messages@, profs) == out@.map_values(
                |q: FloatRequest| req_view(q),
            ) + spec_float_requests(conds.skip(k as int), messages@, profs),
        decreases n - k,
    {
        proof {
            assert(conds.skip(k as int)[0] == conds[k as int]);
            assert(conds.skip(k as int).drop_first() =~= conds.skip(k + 1));
        }
        let ghost out_before = out@;
        let mut more = cond_float_requests(&rule.conditions[k], messages, profiles);
        let ghost more_view = more@;
        out.append(&mut more);
        proof {
            assert(out@ =~= out_before + more_view);
            assert(out@.map_values(|q: FloatRequest| req_view(q)) =~= out_before.map_values(
                |q: FloatRequest| req_view(q),
            ) + more_view.map_values(|q: FloatRequest| req_view(q)));
            assert((out_before.map_values(|q: FloatRequest| req_view(q)) + more_view.map_values(
                |q: FloatRequest| req_view(q),
            )) + spec_float_requests(conds.skip(k + 1), messages@, profs) =~= out_before.map_values(
                |q: FloatRequest| req_view(q),
            ) + (more_view.map_values(|q: FloatRequest| req_view(q)) + spec_float_requests(
                conds.skip(k + 1),
                messages@,
                profs,
            )));
        }
        k = k + 1;
    }
    proof {
        assert(conds.skip(k as int).len() == 0);
        assert(out@.map_values(|q: FloatRequest| req_view(q)) + Seq::<(
            Seq<char>,
            Seq<char>,
        )>::empty() =~= out@.map_values(|q: FloatRequest| req_view(q)));
    }
    out
}

/// When a condition compares against another device's reading and that
/// reference reading is a boolean, the comparison is the boolean comparison
/// of the two readings: the primary reading is read as a boolean too —
/// whatever shape it has — and a primary reading that is not a boolean
/// fails the cycle rather than being compared another way.
pub proof fn lemma_reference_bool_dictates_bool(
    dc: DeviceCondition,
    msgs: Seq<Message>,
    profs: Seq<DeviceProfile>,
    floats: Seq<Option<u32>>,
    pos: int,
    dev2: Device,
    idx2: usize,
)
    requires
        dc.threshold == RefValue::Uplink((dev2, idx2)),
        spec_uplink_name(dc.device, dc.measure_data as int, profs) is Some,
        spec_fields_for(dc.device, msgs) is Some,
        spec_fields_for(dev2, msgs) is Some,
        spec_uplink_name(dev2, idx2 as int, profs) is Some,
        spec_lookup(
            spec_fields_for(dev2, msgs)->0,
            spec_uplink_name(dev2, idx2 as int, profs)->0,
        ) is Bool,
    ensures
        ({
            let v = spec_lookup(
                spec_fields_for(dc.device, msgs)->0,
                spec_uplink_name(dc.device, dc.measure_data as int, profs)->0,
            );
            let b2 = spec_lookup(
                spec_fields_for(dev2, msgs)->0,
                spec_uplink_name(dev2, idx2 as int, profs)->0,
            )->Bool_0;
            spec_eval_device_condition(dc, msgs, profs, floats, pos) == (match v {
                JsonScalar::Bool(b1) => match spec_resolve_operator(dc.operator@) {
                    Some(op) => Ok::<(bool, int), bool>((spec_apply_op_bool(op, b1, b2), pos)),
                    None => Err::<(bool, int), bool>(true),
                },
                _ => Err::<(bool, int), bool>(false),
            })
        }),
{
}

} // verus!
