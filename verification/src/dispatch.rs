//! Encoding of the downlink commands a satisfied rule dispatches.
//!
//! An action carries its command as hexadecimal text. Dispatch decodes that
//! text to raw bytes, encodes the bytes in base64, and wraps them in a queue
//! item for the remote device queue: the target device's EUI, an
//! unconfirmed delivery, frame count zero, the action's port and the encoded
//! payload. The assembly of a command message from a profile's downlink
//! description also lives here: the message header, then one segment per
//! chosen command — the command's template, or the user's configured text —
//! and, where the profile asks for it, a length byte spliced in after the
//! header, doubly hex-encoded.

use vstd::prelude::*;

use crate::devices::{Downlink, DownlinkPayload};
use crate::rules::Action;

verus! {

/// The value of one hexadecimal digit, or a negative number for any other
/// character. Both letter cases count.
pub open spec fn spec_hex_digit_val(c: char) -> int {
    let x = c as int;
    if 48 <= x <= 57 {
        x - 48
    } else if 65 <= x <= 70 {
        x - 65 + 10
    } else if 97 <= x <= 102 {
        x - 97 + 10
    } else {
        -1
    }
}

/// Whether the character is a hexadecimal digit.
pub open spec fn spec_is_hex_char(c: char) -> bool {
    spec_hex_digit_val(c) >= 0
}

/// Whether the text is well-formed hexadecimal: an even number of
/// characters, each a hexadecimal digit.
pub open spec fn spec_valid_hex(s: Seq<char>) -> bool {
    s.len() % 2 == 0 && forall|i: int| 0 <= i < s.len() ==> spec_is_hex_char(#[trigger] s[i])
}

/// The bytes a well-formed hexadecimal text stands for: one byte per digit
/// pair, high digit first.
pub open spec fn spec_hex_decode(s: Seq<char>) -> Seq<u8> {
    Seq::new(
        s.len() / 2,
        |i: int| (16 * spec_hex_digit_val(s[2 * i]) + spec_hex_digit_val(s[2 * i + 1])) as u8,
    )
}

/// Decodes hexadecimal text to raw bytes.
///
/// Relies on `hex::decode`: an even run of hexadecimal digits (either
/// letter case) decodes to the bytes the digit pairs stand for, and any
/// other text — odd length or a foreign character — is refused.
#[verifier::external_body]
fn hex_decode(s: &str) -> (r: Option<Vec<u8>>)
    ensures
        r is Some <==> spec_valid_hex(s@),
        r is Some ==> r->0@ == spec_hex_decode(s@),
{
    hex::decode(s).ok()
}

/// The base64 character (as its ASCII byte) of a six-bit index: the
/// standard alphabet — capitals, then small letters, then digits, then `+`
/// and `/`.
pub open spec fn spec_b64_char(idx: int) -> u8 {
    if idx < 26 {
        (65 + idx) as u8
    } else if idx < 52 {
        (97 + (idx - 26)) as u8
    } else if idx < 62 {
        (48 + (idx - 52)) as u8
    } else if idx == 62 {
        43u8
    } else {
        47u8
    }
}

/// The standard base64 encoding of a byte sequence, with `=` padding: each
/// three bytes become four characters of six bits each; a final group of
/// one or two bytes is padded to four characters with `=` (ASCII 61).
pub open spec fn spec_base64(bytes: Seq<u8>) -> Seq<u8>
    decreases bytes.len(),
{
    if bytes.len() == 0 {
        Seq::empty()
    } else if bytes.len() == 1 {
        let b0 = bytes[0] as int;
        seq![spec_b64_char(b0 / 4), spec_b64_char((b0 % 4) * 16), 61u8, 61u8]
    } else if bytes.len() == 2 {
        let b0 = bytes[0] as int;
        let b1 = bytes[1] as int;
        seq![
            spec_b64_char(b0 / 4),
            spec_b64_char((b0 % 4) * 16 + b1 / 16),
            spec_b64_char((b1 % 16) * 4),
            61u8,
        ]
    } else {
        let b0 = bytes[0] as int;
        let b1 = bytes[1] as int;
        let b2 = bytes[2] as int;
        seq![
            spec_b64_char(b0 / 4),
            spec_b64_char((b0 % 4) * 16 + b1 / 16),
            spec_b64_char((b1 % 16) * 4 + b2 / 64),
            spec_b64_char(b2 % 64),
        ] + spec_base64(bytes.skip(3))
    }
}

/// Encodes bytes in base64.
///
/// Relies on `base64::encode`: the standard alphabet with `=` padding,
/// three input bytes to four output characters, all of them ASCII.
#[verifier::external_body]
fn base64_encode(bytes: &Vec<u8>) -> (r: Vec<u8>)
    ensures
        r@ == spec_base64(bytes@),
{
    base64::encode(bytes).into_bytes()
}

/// One entry of the remote device queue: what a dispatched action submits.
/// The delivery is unconfirmed, the frame count zero, the payload base64
/// text as bytes, and the JSON mirror empty.
pub struct DeviceQueueItem {
    pub dev_eui: String,
    pub confirmed: bool,
    pub f_cnt: u32,
    pub f_port: u32,
    pub data: Vec<u8>,
    pub json_object: String,
}

/// Builds the queue item one action submits: the action's hexadecimal
/// command decoded to raw bytes and re-encoded in base64, addressed to the
/// action's device on the action's port. An action whose command is not
/// well-formed hexadecimal is refused.
pub fn build_queue_item(action: &Action) -> (r: Result<DeviceQueueItem, ()>)
    ensures
        r is Ok <==> spec_valid_hex(action.message@),
        r is Ok ==> {
            let item = r->Ok_0;
            &&& item.dev_eui@ == action.device.dev_eui@
            &&& item.confirmed == false
            &&& item.f_cnt == 0
            &&& item.f_port == action.f_port
            &&& item.data@ == spec_base64(spec_hex_decode(action.message@))
            &&& item.json_object@ == Seq::<char>::empty()
        },
{
    let bytes = match hex_decode(action.message.as_str()) {
        None => {
            return Err(());
        },
        Some(b) => b,
    };
    let data = base64_encode(&bytes);
    Ok(
        DeviceQueueItem {
            dev_eui: action.device.dev_eui.clone(),
            confirmed: false,
            f_cnt: 0,
            f_port: action.f_port,
            data,
            json_object: String::new(),
        },
    )
}

/// Whether a configured command text is acceptable against its template:
/// it holds at least one hexadecimal digit and has the template's length.
pub open spec fn spec_valid_configured(input: Seq<char>, template: Seq<char>) -> bool {
    (exists|i: int| 0 <= i < input.len() && spec_is_hex_char(#[trigger] input[i])) && input.len()
        == template.len()
}

/// Checks a configured command text against its template.
pub fn valid_configured(input: &str, template: &str) -> (r: bool)
    ensures
        r == spec_valid_configured(input@, template@),
{
    let n = input.unicode_len();
    let t = template.unicode_len();
    if n != t {
        return false;
    }
    let mut i: usize = 0;
    while i < n
        invariant
            n == input@.len(),
            n == template@.len(),
            0 <= i <= n,
            forall|j: int| 0 <= j < i ==> !spec_is_hex_char(#[trigger] input@[j]),
        decreases n - i,
    {
        let c = input.get_char(i);
        let x = c as u32;
        if (48 <= x && x <= 57) || (65 <= x && x <= 70) || (97 <= x && x <= 102) {
            proof {
                assert(spec_is_hex_char(input@[i as int]));
            }
            return true;
        }
        proof {
            assert(!spec_is_hex_char(input@[i as int]));
        }
        i = i + 1;
    }
    false
}

/// The segment one chosen command contributes to the message: the user's
/// configured text for a configurable command — refused when it is missing
/// or does not fit the template — and the command's own template otherwise.
pub open spec fn spec_segment(p: DownlinkPayload, cfg: Option<String>) -> Option<Seq<char>> {
    if p.configurable {
        match cfg {
            None => None,
            Some(s) => if spec_valid_configured(s@, p.hex_code@) {
                Some(s@)
            } else {
                None
            },
        }
    } else {
        Some(p.hex_code@)
    }
}

/// The segments of the chosen commands, in choice order, joined — or
/// nothing as soon as one segment is refused.
pub open spec fn spec_segments(
    payloads: Seq<DownlinkPayload>,
    idxs: Seq<usize>,
    cfgs: Seq<Option<String>>,
) -> Option<Seq<char>>
    decreases idxs.len(),
{
    if idxs.len() == 0 {
        Some(Seq::empty())
    } else {
        match spec_segment(payloads[idxs[0] as int], cfgs[0]) {
            None => None,
            Some(seg) => match spec_segments(payloads, idxs.drop_first(), cfgs.drop_first()) {
                None => None,
                Some(rest) => Some(seg + rest),
            },
        }
    }
}

/// One lowercase hexadecimal digit character.
pub open spec fn spec_hex_char(d: int) -> char {
    if d == 0 {
        '0'
    } else if d == 1 {
        '1'
    } else if d == 2 {
        '2'
    } else if d == 3 {
        '3'
    } else if d == 4 {
        '4'
    } else if d == 5 {
        '5'
    } else if d == 6 {
        '6'
    } else if d == 7 {
        '7'
    } else if d == 8 {
        '8'
    } else if d == 9 {
        '9'
    } else if d == 10 {
        'a'
    } else if d == 11 {
        'b'
    } else if d == 12 {
        'c'
    } else if d == 13 {
        'd'
    } else if d == 14 {
        'e'
    } else {
        'f'
    }
}

/// The character code of a lowercase hexadecimal digit character.
pub open spec fn spec_hex_ascii(d: int) -> int {
    if d < 10 {
        48 + d
    } else {
        87 + d
    }
}

/// The length marker spliced into a counted message: the number of bytes
/// the segments stand for — half their character count, rounded up, taken
/// to its low byte — hex-encoded, and that two-character code hex-encoded
/// once more, four characters in all.
pub open spec fn spec_len_marker(segs_len: int) -> Seq<char> {
    let b = ((segs_len + 1) / 2) % 256;
    let a1 = spec_hex_ascii(b / 16);
    let a2 = spec_hex_ascii(b % 16);
    seq![
        spec_hex_char(a1 / 16),
        spec_hex_char(a1 % 16),
        spec_hex_char(a2 / 16),
        spec_hex_char(a2 % 16),
    ]
}

/// The full command message of chosen downlink commands: the header, then —
/// for a profile that counts its work load — the length marker, then the
/// segments. Nothing when a segment is refused.
pub open spec fn spec_downlink_message(
    d: Downlink,
    idxs: Seq<usize>,
    cfgs: Seq<Option<String>>,
) -> Option<Seq<char>> {
    match spec_segments(d.payloads@, idxs, cfgs) {
        None => None,
        Some(segs) => if d.combined_work_load_count {
            Some(d.hex_pre_byte@ + spec_len_marker(segs.len() as int) + segs)
        } else {
            Some(d.hex_pre_byte@ + segs)
        },
    }
}

/// One lowercase hexadecimal digit as a string slice.
fn hex_char_str(d: usize) -> (r: &'static str)
    requires
        d < 16,
    ensures
        r@ == seq![spec_hex_char(d as int)],
{
    proof {
        reveal_strlit("0");
        reveal_strlit("1");
        reveal_strlit("2");
        reveal_strlit("3");
        reveal_strlit("4");
        reveal_strlit("5");
        reveal_strlit("6");
        reveal_strlit("7");
        reveal_strlit("8");
        reveal_strlit("9");
        reveal_strlit("a");
        reveal_strlit("b");
        reveal_strlit("c");
        reveal_strlit("d");
        reveal_strlit("e");
        reveal_strlit("f");
    }
    match d {
        0 => "0",
        1 => "1",
        2 => "2",
        3 => "3",
        4 => "4",
        5 => "5",
        6 => "6",
        7 => "7",
        8 => "8",
        9 => "9",
        10 => "a",
        11 => "b",
        12 => "c",
        13 => "d",
        14 => "e",
        _ => "f",
    }
}

/// Builds the command message of the chosen downlink commands: the header,
/// a length marker where the profile counts its work load, and one segment
/// per chosen command — the user's configured text for a configurable one,
/// the command's template otherwise. Refused when a configurable command
/// lacks an acceptable configured text.
pub fn downlink_message(
    downlink: &Downlink,
    payload_indices: &Vec<usize>,
    configured: &Vec<Option<String>>,
) -> (r: Result<String, ()>)
    requires
        configured@.len() == payload_indices@.len(),
        forall|i: int|
            0 <= i < payload_indices@.len() ==> (#[trigger] payload_indices@[i])
                < downlink.payloads@.len(),
    ensures
        r is Ok ==> spec_downlink_message(*downlink, payload_indices@, configured@) == Some(
            r->Ok_0@,
        ),
        r is Err ==> spec_downlink_message(*downlink, payload_indices@, configured@) is None,
{
    let ghost idxs = payload_indices@;
    let ghost cfgs = configured@;
    let n = payload_indices.len();
    let mut segs = String::new();
    let mut k: usize = 0;
    proof {
        assert(idxs.skip(0) =~= idxs);
        assert(cfgs.skip(0) =~= cfgs);
        assert(segs@ + Seq::<char>::empty() =~= segs@);
    }
    while k < n
        invariant
            idxs == payload_indices@,
            cfgs == configured@,
            n == idxs.len(),
            cfgs.len() == n,
            forall|i: int|
                0 <= i < idxs.len() ==> (#[trigger] idxs[i]) < downlink.payloads@.len(),
            0 <= k <= n,
            spec_segments(downlink.payloads@, idxs, cfgs) == (match spec_segments(
                downlink.payloads@,
                idxs.skip(k as int),
                cfgs.skip(k as int),
            ) {
                None => None::<Seq<char>>,
                Some(rest) => Some(segs@ + rest),
            }),
        decreases n - k,
    {
        proof {
            assert(idxs.skip(k as int)[0] == idxs[k as int]);
            assert(cfgs.skip(k as int)[0] == cfgs[k as int]);
            assert(idxs.skip(k as int).drop_first() =~= idxs.skip(k + 1));
            assert(cfgs.skip(k as int).drop_first() =~= cfgs.skip(k + 1));
        }
        let idx = payload_indices[k];
        let p = &downlink.payloads[idx];
        let ghost segs_before = segs@;
        let seg: String = if p.configurable {
            match &configured[k] {
                None => {
                    return Err(());
                },
                Some(s) => {
                    if !valid_configured(s.as_str(), p.hex_code.as_str()) {
                        return Err(());
                    }
                    s.clone()
                },
            }
        } else {
            p.hex_code.clone()
        };
        proof {
            assert(spec_segment(downlink.payloads@[idxs[k as int] as int], cfgs[k as int])
                == Some(seg@));
        }
        segs.append(seg.as_str());
        proof {
            assert forall|rest: Seq<char>| true implies segs_before + (seg@ + rest) =~= segs@
                + rest by {}
        }
        k = k + 1;
    }
    proof {
        assert(idxs.skip(k as int).len() == 0);
        assert(segs@ + Seq::<char>::empty() =~= segs@);
    }
    let segs_len = segs.unicode_len();
    let mut message = downlink.get_hex_pre_byte();
    if downlink.get_combined_work_load_count() {
        let half: usize = segs_len / 2 + segs_len % 2;
        proof {
            assert(half as int == ((segs_len as int) + 1) / 2);
        }
        let b = half % 256;
        let a1 = if b / 16 < 10 {
            48 + b / 16
        } else {
            87 + b / 16
        };
        let a2 = if b % 16 < 10 {
            48 + b % 16
        } else {
            87 + b % 16
        };
        message.append(hex_char_str(a1 / 16));
        message.append(hex_char_str(a1 % 16));
        message.append(hex_char_str(a2 / 16));
        message.append(hex_char_str(a2 % 16));
        message.append(segs.as_str());
        proof {
            assert(message@ =~= downlink.hex_pre_byte@ + spec_len_marker(segs@.len() as int)
                + segs@);
        }
        Ok(message)
    } else {
        message.append(segs.as_str());
        Ok(message)
    }
}

} // verus!
