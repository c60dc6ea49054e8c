//! Telemetry messages, the topics a rule listens on, and the per-cycle
//! message buffer.
//!
//! Every device publishes its telemetry under the topic
//! `application/<application id>/device/<device EUI>/event/up`. A rule
//! needs one topic per distinct device its device conditions read — the
//! condition's own device and, where the comparison value is another
//! device's reading, that device too. Per evaluation cycle the buffer
//! gathers exactly one fresh message per needed topic: a message whose
//! payload marks its data as absent is left waiting, a message for a
//! foreign topic is left to other rules, and a second message for a topic
//! already buffered replaces the buffered one, so the buffer always holds
//! the newest message per topic and never a duplicate.

use vstd::prelude::*;

use crate::devices::Device;
use crate::rules::{Condition, RefValue, Rule};
use crate::textutil::{spec_contains, spec_idec, contains_sub, str_eq};

verus! {

/// One telemetry message: the topic it arrived under and its payload text.
pub struct Message {
    pub topic: String,
    pub payload: String,
}

impl Message {
    /// Creates a new message.
    pub fn new(topic: String, payload: String) -> (r: Self)
        ensures
            r.topic == topic,
            r.payload == payload,
    {
        Message { topic, payload }
    }

    /// The topic the message arrived under.
    pub fn topic(&self) -> (r: &String)
        ensures
            r == &self.topic,
    {
        &self.topic
    }

    /// The payload as text.
    pub fn payload_str(&self) -> (r: &String)
        ensures
            r == &self.payload,
    {
        &self.payload
    }
}

impl Clone for Message {
    /// Clones the message, keeping topic and payload.
    fn clone(&self) -> (r: Self)
        ensures
            r == *self,
    {
        Message { topic: self.topic.clone(), payload: self.payload.clone() }
    }
}

/// The topic a device publishes its telemetry under.
pub open spec fn spec_topic_for(dev: Device) -> Seq<char> {
    "application/"@ + spec_idec(dev.application_id as int) + "/device/"@ + dev.dev_eui@
        + "/event/up"@
}

/// Builds the telemetry topic of a device.
pub fn topic_for_device(dev: &Device) -> (r: String)
    ensures
        r@ == spec_topic_for(*dev),
{
    let mut s = "application/".to_owned();
    let id = crate::textutil::i64_dec(dev.application_id);
    s.append(id.as_str());
    s.append("/device/");
    s.append(dev.dev_eui.as_str());
    s.append("/event/up");
    s
}

/// Whether some entry of the list reads `t`.
pub open spec fn spec_topics_contain(topics: Seq<String>, t: Seq<char>) -> bool {
    exists|i: int| 0 <= i < topics.len() && topics[i]@ == t
}

/// Whether some entry of the list reads like `s`.
pub fn topics_contain(topics: &Vec<String>, s: &str) -> (r: bool)
    ensures
        r == spec_topics_contain(topics@, s@),
{
    let mut i: usize = 0;
    while i < topics.len()
        invariant
            0 <= i <= topics@.len(),
            forall|j: int| 0 <= j < i ==> topics@[j]@ != s@,
        decreases topics@.len() - i,
    {
        if str_eq(topics[i].as_str(), s) {
            return true;
        }
        i = i + 1;
    }
    return false;
}

/// Whether one condition makes its rule listen on topic `t`: a device
/// condition reads the device publishing under `t`, or compares against the
/// reading of a device publishing under `t`.
pub open spec fn cond_needs_topic(c: Condition, t: Seq<char>) -> bool {
    match c {
        Condition::Device(dc) => t == spec_topic_for(dc.device) || (match dc.threshold {
            RefValue::Uplink((dev2, _)) => t == spec_topic_for(dev2),
            _ => false,
        }),
        Condition::Time(_) => false,
    }
}

/// Whether a rule's conditions make it listen on topic `t`.
pub open spec fn spec_is_required_topic(conds: Seq<Condition>, t: Seq<char>) -> bool {
    exists|i: int| 0 <= i < conds.len() && #[trigger] cond_needs_topic(conds[i], t)
}

/// Whether topic `t` is required by one of the first `n` conditions.
spec fn required_by_prefix(conds: Seq<Condition>, n: int, t: Seq<char>) -> bool {
    exists|i: int| 0 <= i < n && i < conds.len() && #[trigger] cond_needs_topic(conds[i], t)
}

/// What the topic list reads as a whole: each entry by its characters.
pub open spec fn topics_view(topics: Seq<String>) -> Seq<Seq<char>> {
    topics.map_values(|s: String| s@)
}

/// The list with one topic added, unless an equal one is already listed.
pub open spec fn spec_add_topic(ts: Seq<Seq<char>>, t: Seq<char>) -> Seq<Seq<char>> {
    if ts.contains(t) {
        ts
    } else {
        ts.push(t)
    }
}

proof fn lemma_contains_view(topics: Seq<String>, t: Seq<char>)
    ensures
        spec_topics_contain(topics, t) == topics_view(topics).contains(t),
{
    if spec_topics_contain(topics, t) {
        let i = choose|i: int| 0 <= i < topics.len() && topics[i]@ == t;
        assert(topics_view(topics)[i] == t);
    }
    if topics_view(topics).contains(t) {
        let i = choose|i: int| 0 <= i < topics_view(topics).len() && topics_view(topics)[i] == t;
        assert(topics[i]@ == t);
    }
}

/// Adds one topic to the list unless an equal one is listed, keeping the
/// entries distinct: afterwards the list holds exactly what it held before,
/// plus the given topic.
fn add_topic_if_missing(topics: &mut Vec<String>, t: String)
    requires
        forall|i: int, j: int|
            0 <= i < j < old(topics)@.len() ==> old(topics)@[i]@ != old(topics)@[j]@,
    ensures
        forall|i: int, j: int|
            0 <= i < j < final(topics)@.len() ==> final(topics)@[i]@ != final(topics)@[j]@,
        forall|s: Seq<char>|
            spec_topics_contain(final(topics)@, s) == (spec_topics_contain(old(topics)@, s) || s
                == t@),
        topics_view(final(topics)@) == spec_add_topic(topics_view(old(topics)@), t@),
{
    proof {
        lemma_contains_view(topics@, t@);
    }
    if !topics_contain(topics, t.as_str()) {
        let ghost before = topics@;
        topics.push(t);
        proof {
            assert forall|s: Seq<char>|
                spec_topics_contain(topics@, s) == (spec_topics_contain(before, s) || s
                    == topics@.last()@) by {
                if spec_topics_contain(before, s) {
                    let w = choose|w: int| 0 <= w < before.len() && before[w]@ == s;
                    assert(topics@[w]@ == s);
                }
                if spec_topics_contain(topics@, s) {
                    let w = choose|w: int| 0 <= w < topics@.len() && topics@[w]@ == s;
                    if w < before.len() {
                        assert(before[w]@ == s);
                    }
                }
            }
            assert(topics_view(topics@) =~= topics_view(before).push(topics@.last()@));
        }
    } else {
        proof {
            assert forall|s: Seq<char>|
                spec_topics_contain(topics@, s) == (spec_topics_contain(topics@, s) || s
                    == t@) by {
                if s == t@ {
                    assert(spec_topics_contain(topics@, s));
                }
            }
        }
    }
}

/// The topics one condition appends, in order: the topic of the condition's
/// own device, then — where the comparison value is another device's
/// reading — that device's topic, each only when not already listed.
pub open spec fn spec_cond_topics(ts: Seq<Seq<char>>, c: Condition) -> Seq<Seq<char>> {
    match c {
        Condition::Time(_) => ts,
        Condition::Device(dc) => {
            let ts1 = spec_add_topic(ts, spec_topic_for(dc.device));
            match dc.threshold {
                RefValue::Uplink((dev2, _)) => spec_add_topic(ts1, spec_topic_for(dev2)),
                _ => ts1,
            }
        },
    }
}

/// The topic list a run of conditions builds up from a given start.
pub open spec fn spec_topics_from(conds: Seq<Condition>, ts: Seq<Seq<char>>) -> Seq<Seq<char>>
    decreases conds.len(),
{
    if conds.len() == 0 {
        ts
    } else {
        spec_topics_from(conds.drop_first(), spec_cond_topics(ts, conds[0]))
    }
}

/// The topics a rule listens on, in the order its conditions name them.
pub open spec fn spec_rule_topics(conds: Seq<Condition>) -> Seq<Seq<char>> {
    spec_topics_from(conds, Seq::empty())
}

/// A topic is required by the first `n + 1` conditions exactly when it is
/// required by the first `n` or by the condition at `n`.
proof fn lemma_prefix_step(conds: Seq<Condition>, n: int, t: Seq<char>)
    requires
        0 <= n < conds.len(),
    ensures
        required_by_prefix(conds, n + 1, t) == (required_by_prefix(conds, n, t)
            || cond_needs_topic(conds[n], t)),
{
    if required_by_prefix(conds, n + 1, t) {
        let i = choose|i: int|
            0 <= i < n + 1 && i < conds.len() && #[trigger] cond_needs_topic(conds[i], t);
        if i < n {
            assert(required_by_prefix(conds, n, t));
        }
    }
    if required_by_prefix(conds, n, t) {
        assert(required_by_prefix(conds, n + 1, t));
    }
    if cond_needs_topic(conds[n], t) {
        assert(required_by_prefix(conds, n + 1, t));
    }
}

/// Collects the distinct topics a rule needs: one per distinct device read
/// by a device condition, and one per distinct device referenced as a
/// comparison value. The result holds each needed topic exactly once.
pub fn rule_topics(rule: &Rule) -> (r: Vec<String>)
    ensures
        forall|i: int, j: int| 0 <= i < j < r@.len() ==> r@[i]@ != r@[j]@,
        forall|t: Seq<char>|
            spec_topics_contain(r@, t) == spec_is_required_topic(rule.conditions@, t),
        topics_view(r@) == spec_rule_topics(rule.conditions@),
{
    let mut topics: Vec<String> = Vec::new();
    let n = rule.conditions.len();
    let ghost conds = rule.conditions@;
    proof {
        assert(conds.skip(0) =~= conds);
        assert(topics_view(topics@) =~= Seq::<Seq<char>>::empty());
    }
    for k in 0..n
        invariant
            conds == rule.conditions@,
            n == conds.len(),
            forall|i: int, j: int| 0 <= i < j < topics@.len() ==> topics@[i]@ != topics@[j]@,
            forall|t: Seq<char>|
                spec_topics_contain(topics@, t) == required_by_prefix(conds, k as int, t),
            spec_rule_topics(conds) == spec_topics_from(conds.skip(k as int), topics_view(topics@)),
    {
        proof {
            assert(conds.skip(k as int)[0] == conds[k as int]);
            assert(conds.skip(k as int).drop_first() =~= conds.skip(k + 1));
        }
        let ghost at_top = topics@;
        match &rule.conditions[k] {
            Condition::Device(dc) => {
                let t = topic_for_device(&dc.device);
                let ghost t_view = t@;
                add_topic_if_missing(&mut topics, t);
                match &dc.threshold {
                    RefValue::Uplink(pair) => {
                        let t2 = topic_for_device(&pair.0);
                        let ghost t2_view = t2@;
                        add_topic_if_missing(&mut topics, t2);
                        proof {
                            assert forall|s: Seq<char>|
                                spec_topics_contain(topics@, s) == (spec_topics_contain(at_top, s)
                                    || cond_needs_topic(conds[k as int], s)) by {
                                assert(cond_needs_topic(conds[k as int], s) == (s == t_view || s
                                    == t2_view));
                            }
                        }
                    },
                    _ => {
                        proof {
                            assert forall|s: Seq<char>|
                                spec_topics_contain(topics@, s) == (spec_topics_contain(at_top, s)
                                    || cond_needs_topic(conds[k as int], s)) by {
                                assert(cond_needs_topic(conds[k as int], s) == (s == t_view));
                            }
                        }
                    },
                }
            },
            Condition::Time(_) => {
                proof {
                    assert(forall|s: Seq<char>| !cond_needs_topic(conds[k as int], s));
                }
            },
        }
        proof {
            assert forall|t: Seq<char>|
                spec_topics_contain(topics@, t) == required_by_prefix(conds, k + 1, t) by {
                lemma_prefix_step(conds, k as int, t);
            }
            assert(topics_view(topics@) == spec_cond_topics(topics_view(at_top), conds[k as int]));
        }
    }
    proof {
        assert(conds.skip(n as int).len() == 0);
        assert forall|t: Seq<char>|
            spec_topics_contain(topics@, t) == spec_is_required_topic(conds, t) by {
            assert(required_by_prefix(conds, n as int, t) == spec_is_required_topic(conds, t));
        }
    }
    topics
}

/// The position of the buffered message for a topic: the first buffered
/// message that arrived under the topic, or `None` when none did.
pub open spec fn spec_msg_index(msgs: Seq<Message>, topic: Seq<char>) -> Option<int>
    decreases msgs.len(),
{
    if msgs.len() == 0 {
        None
    } else if msgs[0].topic@ == topic {
        Some(0int)
    } else {
        match spec_msg_index(msgs.drop_first(), topic) {
            Some(i) => Some(i + 1),
            None => None,
        }
    }
}

proof fn lemma_msg_index_found(msgs: Seq<Message>, topic: Seq<char>, i: int)
    requires
        0 <= i < msgs.len(),
        msgs[i].topic@ == topic,
        forall|j: int| 0 <= j < i ==> msgs[j].topic@ != topic,
    ensures
        spec_msg_index(msgs, topic) == Some(i),
    decreases i,
{
    if i > 0 {
        lemma_msg_index_found(msgs.drop_first(), topic, i - 1);
    }
}

proof fn lemma_msg_index_missing(msgs: Seq<Message>, topic: Seq<char>)
    requires
        forall|j: int| 0 <= j < msgs.len() ==> msgs[j].topic@ != topic,
    ensures
        spec_msg_index(msgs, topic) is None,
    decreases msgs.len(),
{
    if msgs.len() > 0 {
        lemma_msg_index_missing(msgs.drop_first(), topic);
    }
}

/// What the buffer holds after a message is stored: the message replaces
/// the buffered one for its topic, or is appended when its topic is not yet
/// buffered.
pub open spec fn spec_store(msgs: Seq<Message>, msg: Message) -> Seq<Message> {
    match spec_msg_index(msgs, msg.topic@) {
        Some(j) => msgs.update(j, msg),
        None => msgs.push(msg),
    }
}

/// What became of an offered message.
#[derive(Clone, Copy, PartialEq, Eq, Structural, Debug)]
pub enum OfferOutcome {
    /// The payload marks its data as absent; the message is left waiting.
    RejectedNull,
    /// The topic is not one the rule needs; the message is left to others.
    RejectedTopic,
    /// The message was stored, replacing any buffered one for its topic.
    Stored,
}

/// The per-cycle message buffer of one rule: the topics the rule needs and
/// the messages gathered so far, at most one per topic.
pub struct CycleBuffer {
    pub topics: Vec<String>,
    pub messages: Vec<Message>,
}

/// A well-formed buffer lists each topic once, holds only messages for
/// listed topics, and holds at most one message per topic.
pub open spec fn buffer_wf(b: CycleBuffer) -> bool {
    &&& forall|i: int, j: int| 0 <= i < j < b.topics@.len() ==> b.topics@[i]@ != b.topics@[j]@
    &&& forall|i: int|
        0 <= i < b.messages@.len() ==> spec_topics_contain(b.topics@, b.messages@[i].topic@)
    &&& forall|i: int, j: int|
        0 <= i < j < b.messages@.len() ==> b.messages@[i].topic@ != b.messages@[j].topic@
}

impl CycleBuffer {
    /// Creates an empty buffer over the given topics.
    pub fn new(topics: Vec<String>) -> (r: Self)
        requires
            forall|i: int, j: int| 0 <= i < j < topics@.len() ==> topics@[i]@ != topics@[j]@,
        ensures
            r.topics == topics,
            r.messages@.len() == 0,
            buffer_wf(r),
    {
        CycleBuffer { topics, messages: Vec::new() }
    }

    /// Whether one message per needed topic has been gathered, so that the
    /// cycle may move on to evaluation.
    pub fn complete(&self) -> (r: bool)
        ensures
            r == (self.messages@.len() == self.topics@.len()),
    {
        self.messages.len() == self.topics.len()
    }

    /// Empties the buffer for the next cycle; the topics stay.
    pub fn clear(&mut self)
        requires
            buffer_wf(*old(self)),
        ensures
            final(self).topics == old(self).topics,
            final(self).messages@.len() == 0,
            buffer_wf(*final(self)),
    {
        self.messages.clear();
    }

    /// Offers one incoming message to the buffer. A message whose payload
    /// holds `"data":null` is rejected as not yet arrived; a message for a
    /// topic the rule does not need is rejected as foreign; any other
    /// message is stored, replacing the buffered message of the same topic
    /// if one is held — the buffer keeps the newest message per topic and
    /// never two for one topic.
    pub fn offer(&mut self, msg: Message) -> (r: OfferOutcome)
        requires
            buffer_wf(*old(self)),
        ensures
            buffer_wf(*final(self)),
            final(self).topics == old(self).topics,
            r == spec_offer_outcome(*old(self), msg),
            final(self).messages@ == if r == OfferOutcome::Stored {
                spec_store(old(self).messages@, msg)
            } else {
                old(self).messages@
            },
    {
        if contains_sub(msg.payload.as_str(), "\"data\":null") {
            return OfferOutcome::RejectedNull;
        }
        if !topics_contain(&self.topics, msg.topic.as_str()) {
            return OfferOutcome::RejectedTopic;
        }
        let ghost old_msgs = self.messages@;
        let mut k: usize = 0;
        while k < self.messages.len()
            invariant
                self.topics == old(self).topics,
                self.messages@ == old(self).messages@,
                old_msgs == self.messages@,
                buffer_wf(*old(self)),
                !spec_contains(msg.payload@, "\"data\":null"@),
                spec_topics_contain(self.topics@, msg.topic@),
                0 <= k <= old_msgs.len(),
                forall|j: int| 0 <= j < k ==> old_msgs[j].topic@ != msg.topic@,
            decreases old_msgs.len() - k,
        {
            if str_eq(self.messages[k].topic.as_str(), msg.topic.as_str()) {
                proof {
                    lemma_msg_index_found(old_msgs, msg.topic@, k as int);
                }
                self.messages.set(k, msg);
                return OfferOutcome::Stored;
            }
            k = k + 1;
        }
        proof {
            lemma_msg_index_missing(old_msgs, msg.topic@);
        }
        self.messages.push(msg);
        return OfferOutcome::Stored;
    }
}

/// What `offer` answers for a buffer and a message: rejection for an absent
/// data field, rejection for a foreign topic, else storage.
pub open spec fn spec_offer_outcome(b: CycleBuffer, msg: Message) -> OfferOutcome {
    if spec_contains(msg.payload@, "\"data\":null"@) {
        OfferOutcome::RejectedNull
    } else if !spec_topics_contain(b.topics@, msg.topic@) {
        OfferOutcome::RejectedTopic
    } else {
        OfferOutcome::Stored
    }
}

/// In a well-formed buffer any two buffered messages arrived under
/// different topics: the buffer holds at most one message per topic.
pub proof fn lemma_one_message_per_topic(b: CycleBuffer, i: int, j: int)
    requires
        buffer_wf(b),
        0 <= i < b.messages@.len(),
        0 <= j < b.messages@.len(),
        i != j,
    ensures
        b.messages@[i].topic@ != b.messages@[j].topic@,
{
}

/// Storing a message leaves the buffered message for its topic equal to the
/// stored message, and every message of another topic unchanged: the buffer
/// retains the most recently observed message per topic.
pub proof fn lemma_store_keeps_newest(msgs: Seq<Message>, msg: Message)
    ensures
        ({
            let stored = spec_store(msgs, msg);
            &&& spec_msg_index(stored, msg.topic@) is Some
            &&& stored[spec_msg_index(stored, msg.topic@)->0] == msg
            &&& forall|i: int|
                0 <= i < msgs.len() && msgs[i].topic@ != msg.topic@ ==> stored.contains(msgs[i])
        }),
    decreases msgs.len(),
{
    let stored = spec_store(msgs, msg);
    match spec_msg_index(msgs, msg.topic@) {
        Some(j) => {
            lemma_msg_index_bounds(msgs, msg.topic@);
            assert(stored == msgs.update(j, msg));
            lemma_msg_index_of_update(msgs, msg, j);
            assert forall|i: int|
                0 <= i < msgs.len() && msgs[i].topic@ != msg.topic@ implies stored.contains(
                msgs[i],
            ) by {
                assert(stored[i] == msgs[i]);
            }
        },
        None => {
            lemma_msg_index_missing_all(msgs, msg.topic@);
            lemma_msg_index_of_push(msgs, msg);
            assert forall|i: int|
                0 <= i < msgs.len() && msgs[i].topic@ != msg.topic@ implies stored.contains(
                msgs[i],
            ) by {
                assert(stored[i] == msgs[i]);
            }
        },
    }
}

proof fn lemma_msg_index_bounds(msgs: Seq<Message>, topic: Seq<char>)
    ensures
        spec_msg_index(msgs, topic) matches Some(j) ==> 0 <= j < msgs.len() && msgs[j].topic@
            == topic && forall|i: int| 0 <= i < j ==> msgs[i].topic@ != topic,
    decreases msgs.len(),
{
    if msgs.len() > 0 && msgs[0].topic@ != topic {
        lemma_msg_index_bounds(msgs.drop_first(), topic);
        match spec_msg_index(msgs.drop_first(), topic) {
            Some(j0) => {
                assert(msgs[j0 + 1] == msgs.drop_first()[j0]);
                assert forall|i: int| 0 <= i < j0 + 1 implies msgs[i].topic@ != topic by {
                    if i > 0 {
                        assert(msgs[i] == msgs.drop_first()[i - 1]);
                    }
                }
            },
            None => {},
        }
    }
}

proof fn lemma_msg_index_missing_all(msgs: Seq<Message>, topic: Seq<char>)
    ensures
        spec_msg_index(msgs, topic) is None ==> forall|i: int|
            0 <= i < msgs.len() ==> msgs[i].topic@ != topic,
    decreases msgs.len(),
{
    if msgs.len() > 0 {
        lemma_msg_index_missing_all(msgs.drop_first(), topic);
        if spec_msg_index(msgs, topic) is None {
            assert forall|i: int| 0 <= i < msgs.len() implies msgs[i].topic@ != topic by {
                if i > 0 {
                    assert(msgs[i] == msgs.drop_first()[i - 1]);
                }
            }
        }
    }
}

proof fn lemma_msg_index_of_update(msgs: Seq<Message>, msg: Message, j: int)
    requires
        0 <= j < msgs.len(),
        msgs[j].topic@ == msg.topic@,
        forall|i: int| 0 <= i < j ==> msgs[i].topic@ != msg.topic@,
    ensures
        spec_msg_index(msgs.update(j, msg), msg.topic@) == Some(j),
{
    let updated = msgs.update(j, msg);
    assert(updated[j] == msg);
    assert forall|i: int| 0 <= i < j implies updated[i].topic@ != msg.topic@ by {
        assert(updated[i] == msgs[i]);
    }
    lemma_msg_index_found(updated, msg.topic@, j);
}

proof fn lemma_msg_index_of_push(msgs: Seq<Message>, msg: Message)
    requires
        forall|i: int| 0 <= i < msgs.len() ==> msgs[i].topic@ != msg.topic@,
    ensures
        spec_msg_index(msgs.push(msg), msg.topic@) == Some(msgs.len() as int),
{
    let pushed = msgs.push(msg);
    assert(pushed[msgs.len() as int] == msg);
    assert forall|i: int| 0 <= i < msgs.len() implies pushed[i].topic@ != msg.topic@ by {
        assert(pushed[i] == msgs[i]);
    }
    lemma_msg_index_found(pushed, msg.topic@, msgs.len() as int);
}

} // verus!
