//! Extraction of the measurement object from a telemetry payload.
//!
//! A telemetry payload is JSON text that carries the device's measurement
//! object as a JSON-encoded string under the key `objectJSON`, delimited up
//! to the following `"tags":` key. Extraction takes the text between the
//! first `"objectJSON":"` and the first `","tags":`, and removes the
//! backslash escapes; the result parses as the measurement object. A payload
//! in which either delimiter is missing, or in which they stand in the wrong
//! order, yields nothing — for the engine that is a transient failure of the
//! running cycle, not a fatal one.

use vstd::prelude::*;

use crate::devices::Device;
use crate::messages::Message;
use crate::textutil::{spec_contains, spec_find, contains_sub, find_sub};

verus! {

/// A character that is not a backslash.
pub open spec fn not_backslash(c: char) -> bool {
    c != '\\'
}

/// The sequence with every backslash removed.
pub open spec fn strip_backslashes(s: Seq<char>) -> Seq<char> {
    s.filter(|c: char| not_backslash(c))
}

/// What extraction yields on a payload: the text between the first
/// `"objectJSON":"` and the first `","tags":`, backslashes removed — or
/// nothing, when a delimiter is missing or the delimiters stand in the
/// wrong order.
pub open spec fn spec_extract(msg: Seq<char>) -> Option<Seq<char>> {
    match spec_find(msg, "\"objectJSON\":\""@) {
        None => None,
        Some(b) => match spec_find(msg, "\",\"tags\":"@) {
            None => None,
            Some(e) => {
                let start = b + "\"objectJSON\":\""@.len();
                if start <= e {
                    Some(strip_backslashes(msg.subrange(start, e)))
                } else {
                    None
                }
            },
        },
    }
}

/// Copies the characters of `message` from `start` up to `end`, leaving the
/// backslashes out.
fn filter_backslashes(message: &str, start: usize, end: usize) -> (out: Vec<char>)
    requires
        start <= end,
        end <= message@.len(),
        message@.len() <= usize::MAX,
    ensures
        out@ == strip_backslashes(message@.subrange(start as int, end as int)),
{
    let mut out: Vec<char> = Vec::new();
    let mut i: usize = start;
    proof {
        assert(message@.subrange(start as int, start as int) =~= Seq::<char>::empty());
        assert(strip_backslashes(Seq::<char>::empty()) =~= Seq::<char>::empty()) by {
            reveal(Seq::filter);
        }
    }
    while i < end
        invariant
            start <= i <= end,
            end <= message@.len(),
            message@.len() <= usize::MAX,
            out@ == strip_backslashes(message@.subrange(start as int, i as int)),
        decreases end - i,
    {
        let c = message.get_char(i);
        let ghost prefix = message@.subrange(start as int, i as int);
        proof {
            assert(message@.subrange(start as int, i + 1).drop_last() =~= prefix);
            assert(message@.subrange(start as int, i + 1).last() == c);
            reveal(Seq::filter);
        }
        if c != '\\' {
            out.push(c);
        }
        i = i + 1;
    }
    proof {
        assert(message@.subrange(start as int, i as int) =~= message@.subrange(
            start as int,
            end as int,
        ));
    }
    out
}

/// Extracts the measurement text from a telemetry payload.
pub fn extract_data(message: &str) -> (r: Result<Vec<char>, ()>)
    ensures
        r is Ok ==> spec_extract(message@) == Some(r->Ok_0@),
        r is Err ==> spec_extract(message@) is None,
{
    let pat = "\"objectJSON\":\"";
    let begin = match find_sub(message, pat) {
        Some(b) => b,
        None => {
            return Err(());
        },
    };
    let end = match find_sub(message, "\",\"tags\":") {
        Some(e) => e,
        None => {
            return Err(());
        },
    };
    let pat_len = pat.unicode_len();
    let text_len = message.unicode_len();
    proof {
        // both found positions lie inside the text
        assert(begin + pat_len <= text_len);
        crate::textutil::lemma_find_from_props(message@, "\",\"tags\":"@, 0);
        assert(end <= message@.len());
    }
    if end < begin + pat_len {
        return Err(());
    }
    let start = begin + pat_len;
    let out = filter_backslashes(message, start, end);
    return Ok(out);
}

/// The payload of the first message whose topic holds the device EUI, or
/// the empty text when no buffered message names the device.
pub open spec fn spec_message_for(msgs: Seq<Message>, eui: Seq<char>) -> Seq<char>
    decreases msgs.len(),
{
    if msgs.len() == 0 {
        Seq::empty()
    } else if spec_contains(msgs[0].topic@, eui) {
        msgs[0].payload@
    } else {
        spec_message_for(msgs.drop_first(), eui)
    }
}

/// Finds the buffered message for a device: the first message whose topic
/// holds the device's EUI. Without one, the empty text is returned, on
/// which extraction then fails for the cycle.
pub fn message_for_device(messages: &Vec<Message>, device: &Device) -> (r: String)
    ensures
        r@ == spec_message_for(messages@, device.dev_eui@),
{
    let mut k: usize = 0;
    proof {
        assert(messages@.skip(0) =~= messages@);
    }
    while k < messages.len()
        invariant
            0 <= k <= messages@.len(),
            spec_message_for(messages@, device.dev_eui@) == spec_message_for(
                messages@.skip(k as int),
                device.dev_eui@,
            ),
        decreases messages@.len() - k,
    {
        proof {
            assert(messages@.skip(k as int)[0] == messages@[k as int]);
            assert(messages@.skip(k as int).drop_first() =~= messages@.skip(k + 1));
        }
        if contains_sub(messages[k].topic.as_str(), device.dev_eui.as_str()) {
            return messages[k].payload.clone();
        }
        k = k + 1;
    }
    proof {
        assert(messages@.skip(k as int).len() == 0);
    }
    return String::new();
}

} // verus!
