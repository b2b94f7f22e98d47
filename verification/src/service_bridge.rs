//! The authenticated owner-removal bridge: its response line and the
//! verification of its HMAC-authenticated answer to an unregister request.
//!
//! A response is six space-separated fields: the bridge PID, the audit
//! session, the request sequence, the word `unregister`, the status, and the
//! lowercase hexadecimal HMAC-SHA256 over all of them under the per-start key.

use vstd::prelude::*;
use vstd::string::*;
use vstd::utf8::encode_utf8;
use hmac::digest::KeyInit;
use hmac::{Hmac, Mac};
use sha2::Sha256;
use crate::identity::{Bytes32, slices_equal};
use crate::identity_digest::{be_u32, be_u64, push_be_u32, push_bytes};
use crate::identity_text::{hex_string, hex_text};

verus! {

/// The longest response line the bridge may send, without its newline.
pub const MAX_RESPONSE_LINE_BYTES: usize = 511;

/// The removal bridge failed or could not be authenticated.
#[derive(Clone, Copy, Debug, PartialEq, Eq, Structural)]
pub struct LoginItemError;

/// The HMAC-SHA256 of `message` under `key`, as the `hmac` crate computes it.
pub uninterp spec fn hmac_sha256(key: Seq<u8>, message: Seq<u8>) -> Seq<u8>;

/// Computes `Hmac<Sha256>` over `message` under `key` with the `hmac` crate;
/// HMAC accepts keys of any length, so the tag is always produced.
#[verifier::external_body]
fn hmac_sha256_tag(key: &[u8], message: &[u8]) -> (tag: Option<Bytes32>)
    ensures
        tag is Some,
        tag matches Some(t) ==> t@ == hmac_sha256(key@, message@),
{
    match <Hmac<Sha256> as KeyInit>::new_from_slice(key) {
        Ok(mut mac) => {
            mac.update(message);
            Some(Bytes32::new(mac.finalize().into_bytes().into()))
        },
        Err(_) => None,
    }
}

/// What one received byte does to the response line.
#[derive(Clone, Copy, Debug, PartialEq, Eq, Structural)]
pub enum ResponseLineStep {
    /// The newline ended the line.
    Complete,
    /// The byte was kept.
    Continue,
    /// The line would exceed `MAX_RESPONSE_LINE_BYTES`.
    TooLong,
}

/// Accumulates one byte of the response line.
pub fn accept_response_byte(line: &mut Vec<u8>, byte: u8) -> (step: ResponseLineStep)
    ensures
        byte == 0x0a ==> step == ResponseLineStep::Complete && final(line)@ == old(line)@,
        byte != 0x0a && old(line)@.len() < MAX_RESPONSE_LINE_BYTES ==> step
            == ResponseLineStep::Continue && final(line)@ == old(line)@.push(byte),
        byte != 0x0a && old(line)@.len() >= MAX_RESPONSE_LINE_BYTES ==> step
            == ResponseLineStep::TooLong && final(line)@ == old(line)@,
{
    if byte == 0x0a {
        ResponseLineStep::Complete
    } else if line.len() < MAX_RESPONSE_LINE_BYTES {
        line.push(byte);
        ResponseLineStep::Continue
    } else {
        ResponseLineStep::TooLong
    }
}

/// The index of the first space in `b`, or its length when there is none.
pub open spec fn first_space(b: Seq<u8>) -> int
    decreases b.len(),
{
    if b.len() == 0 {
        0
    } else if b[0] == 0x20 {
        0
    } else {
        1 + first_space(b.drop_first())
    }
}

/// The fields of `b` between single spaces, as `str::split(' ')` gives them.
pub open spec fn space_fields(b: Seq<u8>) -> Seq<Seq<u8>>
    decreases b.len(),
{
    let i = first_space(b);
    if 0 <= i < b.len() {
        seq![b.subrange(0, i)] + space_fields(b.subrange(i + 1, b.len() as int))
    } else {
        seq![b]
    }
}

proof fn lemma_first_space_bounds(b: Seq<u8>)
    ensures
        0 <= first_space(b) <= b.len(),
        first_space(b) < b.len() ==> b[first_space(b)] == 0x20,
        forall|k: int| 0 <= k < first_space(b) ==> b[k] != 0x20,
    decreases b.len(),
{
    if b.len() > 0 && b[0] != 0x20 {
        lemma_first_space_bounds(b.drop_first());
        assert forall|k: int| 0 <= k < first_space(b) implies b[k] != 0x20 by {
            if k > 0 {
                assert(b[k] == b.drop_first()[k - 1]);
            }
        }
    }
}

/// A space-free prefix followed by a space splits there.
proof fn lemma_first_space_after_prefix(prefix: Seq<u8>, rest: Seq<u8>)
    requires
        forall|k: int| 0 <= k < prefix.len() ==> prefix[k] != 0x20,
        rest.len() > 0 ==> rest[0] == 0x20,
    ensures
        first_space(prefix + rest) == prefix.len(),
    decreases prefix.len(),
{
    if prefix.len() > 0 {
        assert((prefix + rest).drop_first() =~= prefix.drop_first() + rest);
        lemma_first_space_after_prefix(prefix.drop_first(), rest);
    }
}

/// Splits `b` at every space.
fn split_spaces(b: &[u8]) -> (fields: Vec<Vec<u8>>)
    ensures
        fields@.len() == space_fields(b@).len(),
        forall|k: int| 0 <= k < fields@.len() ==> #[trigger] fields@[k]@ == space_fields(b@)[k],
{
    let mut fields: Vec<Vec<u8>> = Vec::new();
    let mut current: Vec<u8> = Vec::new();
    let mut i: usize = 0;
    let ghost mut done: Seq<Seq<u8>> = Seq::empty();
    proof {
        assert(current@ + b@.subrange(0, b@.len() as int) =~= b@);
        assert(done + space_fields(b@) =~= space_fields(b@));
    }
    while i < b.len()
        invariant
            0 <= i <= b@.len(),
            fields@.len() == done.len(),
            forall|k: int| 0 <= k < fields@.len() ==> #[trigger] fields@[k]@ == done[k],
            forall|k: int| 0 <= k < current@.len() ==> current@[k] != 0x20,
            done + space_fields(current@ + b@.subrange(i as int, b@.len() as int)) == space_fields(b@),
        decreases b@.len() - i,
    {
        let ghost rest = b@.subrange(i as int, b@.len() as int);
        if b[i] == 0x20 {
            proof {
                lemma_first_space_after_prefix(current@, rest);
                let whole = current@ + rest;
                assert(whole.subrange(0, current@.len() as int) =~= current@);
                assert(whole.subrange(current@.len() as int + 1, whole.len() as int) =~= b@.subrange(
                    i + 1,
                    b@.len() as int,
                ));
                assert(Seq::<u8>::empty() + b@.subrange(i + 1, b@.len() as int) =~= b@.subrange(
                    i + 1,
                    b@.len() as int,
                ));
                assert(done.push(current@) + space_fields(b@.subrange(i + 1, b@.len() as int))
                    =~= done + space_fields(whole));
            }
            let finished = current;
            fields.push(finished);
            proof {
                done = done.push(finished@);
            }
            current = Vec::new();
        } else {
            let ghost before = current@;
            current.push(b[i]);
            proof {
                assert(before + rest =~= current@ + b@.subrange(i + 1, b@.len() as int));
            }
        }
        i = i + 1;
    }
    proof {
        lemma_first_space_after_prefix(current@, Seq::empty());
        assert(current@ + b@.subrange(b@.len() as int, b@.len() as int) =~= current@);
        lemma_first_space_bounds(current@);
        assert(space_fields(current@) == seq![current@]);
    }
    fields.push(current);
    proof {
        done = done.push(current@);
    }
    fields
}

/// Decimal digits of a field, after an optional leading `+`.
pub open spec fn decimal_digits(text: Seq<u8>) -> Seq<u8> {
    if text.len() > 0 && text[0] == 0x2b {
        text.subrange(1, text.len() as int)
    } else {
        text
    }
}

pub open spec fn is_decimal_digit(b: u8) -> bool {
    0x30 <= b <= 0x39
}

/// The value of a string of decimal digits.
pub open spec fn digits_value(digits: Seq<u8>) -> nat
    decreases digits.len(),
{
    if digits.len() == 0 {
        0
    } else {
        digits_value(digits.drop_last()) * 10 + (digits.last() - 0x30) as nat
    }
}

/// An unsigned integer as `str::parse` reads it: an optional `+`, then at
/// least one decimal digit and nothing else, with a value of at most `max`.
pub open spec fn parse_decimal(text: Seq<u8>, max: nat) -> Option<nat> {
    let digits = decimal_digits(text);
    if digits.len() > 0 && (forall|k: int| 0 <= k < digits.len() ==> is_decimal_digit(
        #[trigger] digits[k],
    )) && digits_value(digits) <= max {
        Some(digits_value(digits))
    } else {
        None
    }
}

proof fn lemma_digits_value_grows(digits: Seq<u8>)
    requires
        digits.len() > 0,
    ensures
        digits_value(digits) >= digits_value(digits.drop_last()),
{
}

/// Parses an unsigned decimal field no larger than `max`.
pub fn parse_decimal_field(text: &[u8], max: u64) -> (value: Option<u64>)
    ensures
        value is Some <==> parse_decimal(text@, max as nat) is Some,
        value matches Some(v) ==> v == parse_decimal(text@, max as nat)->Some_0,
{
    let mut start: usize = 0;
    if text.len() > 0 && text[0] == 0x2b {
        start = 1;
    }
    let ghost digits = decimal_digits(text@);
    assert(digits =~= text@.subrange(start as int, text@.len() as int));
    if start >= text.len() {
        return None;
    }
    let mut value: u64 = 0;
    let mut too_large = false;
    let mut i: usize = start;
    while i < text.len()
        invariant
            start <= i <= text@.len(),
            digits == text@.subrange(start as int, text@.len() as int),
            digits == decimal_digits(text@),
            forall|k: int| start <= k < i ==> is_decimal_digit(#[trigger] text@[k]),
            too_large <==> digits_value(text@.subrange(start as int, i as int)) > max,
            !too_large ==> value == digits_value(text@.subrange(start as int, i as int)),
        decreases text@.len() - i,
    {
        let b = text[i];
        if b < 0x30 || b > 0x39 {
            assert(digits[i - start] == b);
            assert(!is_decimal_digit(digits[i - start]));
            return None;
        }
        let ghost prefix = text@.subrange(start as int, i + 1);
        assert(prefix.drop_last() =~= text@.subrange(start as int, i as int));
        assert(prefix.last() == b);
        if !too_large {
            let digit = (b - 0x30) as u64;
            if value > max / 10 || (value == max / 10 && digit > max % 10) {
                too_large = true;
                assert(value * 10 + digit > max) by (nonlinear_arith)
                    requires
                        value > max / 10 || (value == max / 10 && digit > max % 10),
                        max == (max / 10) * 10 + max % 10,
                ;
            } else {
                assert(value * 10 + digit <= max) by (nonlinear_arith)
                    requires
                        value < max / 10 || (value == max / 10 && digit <= max % 10),
                        max == (max / 10) * 10 + max % 10,
                        digit <= 9,
                ;
                value = value * 10 + digit;
            }
        } else {
            proof {
                lemma_digits_value_grows(prefix);
            }
        }
        i = i + 1;
    }
    assert(text@.subrange(start as int, text@.len() as int) =~= digits);
    if too_large {
        None
    } else {
        Some(value)
    }
}

pub open spec fn response_domain() -> Seq<u8> {
    "talking-quill/macos-service-bridge-response/v1\0".spec_bytes()
}

pub open spec fn unregister_word() -> Seq<u8> {
    "unregister".spec_bytes()
}

/// The message that the bridge authenticates for one unregister answer.
pub open spec fn response_message(pid: u32, audit_session: u32, sequence: u64, status: nat) -> Seq<u8> {
    response_domain() + be_u32(pid) + be_u32(audit_session) + be_u64(sequence) + unregister_word()
        + be_u64(status as u64)
}

/// The status of an authentic response: six fields naming this bridge,
/// session and request, the unregister word, a status, and the HMAC of all of
/// them under `key` in lowercase hexadecimal.
pub open spec fn spec_verify_response(
    response: Seq<u8>,
    key: Seq<u8>,
    pid: u32,
    audit_session: u32,
    sequence: u64,
) -> Option<nat> {
    let fields = space_fields(response);
    if fields.len() != 6 || parse_decimal(fields[0], u32::MAX as nat) != Some(pid as nat)
        || parse_decimal(fields[1], u32::MAX as nat) != Some(audit_session as nat)
        || parse_decimal(fields[2], u64::MAX as nat) != Some(sequence as nat) || fields[3]
        != unregister_word() {
        None
    } else {
        match parse_decimal(fields[4], usize::MAX as nat) {
            None => None,
            Some(status) => if fields[5] == encode_utf8(
                hex_text(hmac_sha256(key, response_message(pid, audit_session, sequence, status))),
            ) {
                Some(status)
            } else {
                None
            },
        }
    }
}

fn response_mac_message(pid: u32, audit_session: u32, sequence: u64, status: u64) -> (message: Vec<u8>)
    ensures
        message@ == response_message(pid, audit_session, sequence, status as nat),
{
    let mut message: Vec<u8> = Vec::new();
    push_bytes(&mut message, "talking-quill/macos-service-bridge-response/v1\0".as_bytes());
    push_be_u32(&mut message, pid);
    push_be_u32(&mut message, audit_session);
    push_be_u64_word(&mut message, sequence);
    push_bytes(&mut message, "unregister".as_bytes());
    push_be_u64_word(&mut message, status);
    message
}

fn push_be_u64_word(out: &mut Vec<u8>, x: u64)
    ensures
        final(out)@ == old(out)@ + be_u64(x),
{
    out.push((x / 0x100_0000_0000_0000) as u8);
    out.push(((x / 0x1_0000_0000_0000) % 0x100) as u8);
    out.push(((x / 0x100_0000_0000) % 0x100) as u8);
    out.push(((x / 0x1_0000_0000) % 0x100) as u8);
    out.push(((x / 0x100_0000) % 0x100) as u8);
    out.push(((x / 0x1_0000) % 0x100) as u8);
    out.push(((x / 0x100) % 0x100) as u8);
    out.push((x % 0x100) as u8);
    assert(out@ =~= old(out)@ + be_u64(x));
}

/// Verifies one unregister answer of the bridge and returns its status.
pub fn verify_response(response: &str, key: Bytes32, pid: u32, audit_session: u32, sequence: u64) -> (result: Result<usize, LoginItemError>)
    ensures
        result is Ok <==> spec_verify_response(response.spec_bytes(), key@, pid, audit_session, sequence) is Some,
        result matches Ok(status) ==> status as nat == spec_verify_response(
            response.spec_bytes(),
            key@,
            pid,
            audit_session,
            sequence,
        )->Some_0,
{
    let fields = split_spaces(response.as_bytes());
    let ghost spec_fields = space_fields(response.spec_bytes());
    if fields.len() != 6 {
        return Err(LoginItemError);
    }
    let pid_field = parse_decimal_field(fields[0].as_slice(), 0xffff_ffff);
    let session_field = parse_decimal_field(fields[1].as_slice(), 0xffff_ffff);
    let sequence_field = parse_decimal_field(fields[2].as_slice(), u64::MAX);
    let pid_ok = match pid_field {
        Some(v) => v == pid as u64,
        None => false,
    };
    let session_ok = match session_field {
        Some(v) => v == audit_session as u64,
        None => false,
    };
    let sequence_ok = match sequence_field {
        Some(v) => v == sequence,
        None => false,
    };
    assert(fields@[3]@ == spec_fields[3]);
    if !pid_ok || !session_ok || !sequence_ok || !slices_equal(fields[3].as_slice(), "unregister".as_bytes()) {
        return Err(LoginItemError);
    }
    let status_max = usize::MAX as u64;
    let status = match parse_decimal_field(fields[4].as_slice(), status_max) {
        Some(v) => v,
        None => {
            return Err(LoginItemError);
        },
    };
    let message = response_mac_message(pid, audit_session, sequence, status);
    let tag = match hmac_sha256_tag(key.as_bytes().as_slice(), message.as_slice()) {
        Some(t) => t,
        None => {
            return Err(LoginItemError);
        },
    };
    let expected = hex_string(tag.as_bytes().as_slice());
    assert(fields@[5]@ == spec_fields[5]);
    if slices_equal(fields[5].as_slice(), expected.as_str().as_bytes()) {
        Ok(status as usize)
    } else {
        Err(LoginItemError)
    }
}

/// The bridge reports unregistration as done (0) or already done (3).
pub fn unregister_status_accepted(status: usize) -> (accepted: bool)
    ensures
        accepted == (status == 0 || status == 3),
{
    status == 0 || status == 3
}

} // verus!
