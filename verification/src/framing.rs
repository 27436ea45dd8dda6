//! Response framing: a response arrives in a fixed-size buffer, carries its
//! meaningful text before the first zero byte, and is classified afterwards
//! by the leading `?` validity marker.

use vstd::prelude::*;
use vstd::slice::slice_subrange;
use vstd::string::StrSliceExecFns;
use vstd::utf8::decode_utf8;
use vstd::utf8::valid_utf8;

use crate::errors::ProtocolError;
use crate::protocol::RESPONSE_BUFFER_LEN;

verus! {

/// How far a response buffer is scanned for the terminator: to its end, but
/// never past the fixed response-buffer size.
pub open spec fn scan_limit(buf: Seq<u8>) -> int {
    if buf.len() < RESPONSE_BUFFER_LEN as nat {
        buf.len() as int
    } else {
        RESPONSE_BUFFER_LEN as int
    }
}

/// Index of the first zero byte at or after `i` and within the scan limit;
/// the scan limit itself when there is none.
pub open spec fn first_zero_from(buf: Seq<u8>, i: int) -> int
    decreases scan_limit(buf) - i,
{
    if i < 0 || i >= scan_limit(buf) {
        scan_limit(buf)
    } else if buf[i] == 0 {
        i
    } else {
        first_zero_from(buf, i + 1)
    }
}

/// Index of the frame terminator: the first zero byte within the scan limit.
pub open spec fn terminator_index(buf: Seq<u8>) -> int {
    first_zero_from(buf, 0)
}

/// Whether the buffer holds a terminator within the scan limit.
pub open spec fn has_terminator(buf: Seq<u8>) -> bool {
    terminator_index(buf) < scan_limit(buf)
}

/// The meaningful bytes of a response: everything before the terminator.
pub open spec fn response_payload(buf: Seq<u8>) -> Seq<u8> {
    buf.take(terminator_index(buf))
}

/// A response is well formed exactly when it holds a terminator within the
/// scan limit and the bytes before the terminator are valid UTF-8.
pub open spec fn well_formed_response(buf: Seq<u8>) -> bool {
    has_terminator(buf) && valid_utf8(response_payload(buf))
}

/// The decoded text of a well-formed response.
pub open spec fn response_text(buf: Seq<u8>) -> Seq<char> {
    decode_utf8(response_payload(buf))
}

/// The first-zero scan lands on a zero byte (unless it ran out), and on the
/// first one: every byte from `i` up to it is non-zero.
pub proof fn lemma_first_zero_from(buf: Seq<u8>, i: int)
    requires
        0 <= i <= scan_limit(buf),
    ensures
        i <= first_zero_from(buf, i) <= scan_limit(buf),
        first_zero_from(buf, i) < scan_limit(buf) ==> buf[first_zero_from(buf, i)] == 0,
        forall|j: int| i <= j < first_zero_from(buf, i) ==> buf[j] != 0,
    decreases scan_limit(buf) - i,
{
    if i < scan_limit(buf) && buf[i] != 0 {
        lemma_first_zero_from(buf, i + 1);
    }
}

/// A buffer with no zero byte within the scan limit is not a well-formed
/// response, so decoding it fails.
pub proof fn lemma_unterminated_response_malformed(buf: Seq<u8>)
    requires
        forall|i: int| 0 <= i < scan_limit(buf) ==> buf[i] != 0,
    ensures
        !has_terminator(buf),
        !well_formed_response(buf),
{
    lemma_first_zero_from(buf, 0);
}

/// Padding a payload with zero bytes moves no terminator: while the scan
/// stays inside the payload both buffers agree, and where the payload held
/// no zero at all the first pad byte becomes the terminator.
proof fn lemma_pad_preserves_first_zero(b: Seq<u8>, frame: Seq<u8>, i: int)
    requires
        b.len() < RESPONSE_BUFFER_LEN as nat,
        frame.len() == RESPONSE_BUFFER_LEN as nat,
        forall|j: int| 0 <= j < b.len() ==> frame[j] == b[j],
        forall|j: int| b.len() <= j < frame.len() ==> frame[j] == 0,
        0 <= i <= b.len(),
    ensures
        first_zero_from(frame, i) == if first_zero_from(b, i) < b.len() as int {
            first_zero_from(b, i)
        } else {
            b.len() as int
        },
    decreases b.len() - i,
{
    if i < b.len() && b[i] != 0 {
        lemma_pad_preserves_first_zero(b, frame, i + 1);
    }
}

/// Framing a payload `b` that holds a zero byte into the fixed response
/// buffer by zero-padding decodes to exactly the text before the first zero
/// byte of `b`.
pub proof fn lemma_zero_padded_frame_decodes_payload(b: Seq<u8>, frame: Seq<u8>)
    requires
        b.len() < RESPONSE_BUFFER_LEN as nat,
        exists|i: int| 0 <= i < b.len() && b[i] == 0,
        frame.len() == RESPONSE_BUFFER_LEN as nat,
        forall|j: int| 0 <= j < b.len() ==> frame[j] == b[j],
        forall|j: int| b.len() <= j < frame.len() ==> frame[j] == 0,
    ensures
        has_terminator(b),
        has_terminator(frame),
        terminator_index(frame) == terminator_index(b),
        response_payload(frame) == response_payload(b),
        well_formed_response(frame) <==> well_formed_response(b),
        response_text(frame) == response_text(b),
{
    lemma_first_zero_from(b, 0);
    let i0 = choose|i: int| 0 <= i < b.len() && b[i] == 0;
    assert(terminator_index(b) < scan_limit(b)) by {
        if terminator_index(b) >= scan_limit(b) {
            assert(b[i0] != 0);
        }
    }
    lemma_pad_preserves_first_zero(b, frame, 0);
    assert(response_payload(frame) =~= response_payload(b));
}

/// Relies on core::str::from_utf8: it returns `Ok` exactly on valid UTF-8
/// input, and the returned text is the characters those bytes encode.
#[verifier::external_body]
fn utf8_to_str<'a>(bytes: &'a [u8]) -> (r: Option<&'a str>)
    ensures
        r matches Some(s) ==> valid_utf8(bytes@) && s@ == decode_utf8(bytes@),
        r is None ==> !valid_utf8(bytes@),
{
    core::str::from_utf8(bytes).ok()
}

/// Extracts the text of a raw response buffer: the bytes before the first
/// zero byte within the scan limit, decoded as UTF-8. Fails exactly when the
/// terminator is missing or the bytes before it are not valid text.
pub fn _extract_response_from_raw_output(output: &Vec<u8>) -> (r: Result<String, ProtocolError>)
    ensures
        r is Ok <==> well_formed_response(output@),
        r matches Ok(s) ==> s@ == response_text(output@),
        r matches Err(e) ==> e == ProtocolError::MalformedResponse,
{
    let limit: usize = if output.len() < RESPONSE_BUFFER_LEN {
        output.len()
    } else {
        RESPONSE_BUFFER_LEN
    };
    let mut k: usize = 0;
    while k < limit && *output.get(k).unwrap() != 0
        invariant
            0 <= k <= limit,
            limit as int == scan_limit(output@),
            limit <= output@.len(),
            terminator_index(output@) == first_zero_from(output@, k as int),
        decreases limit - k,
    {
        k = k + 1;
    }
    if k == limit {
        proof {
            lemma_first_zero_from(output@, k as int);
        }
        Err(ProtocolError::MalformedResponse)
    } else {
        let payload: &[u8] = slice_subrange(output.as_slice(), 0, k);
        proof {
            assert(payload@ =~= response_payload(output@));
        }
        match utf8_to_str(payload) {
            Some(s) => Ok(s.to_owned()),
            None => Err(ProtocolError::MalformedResponse),
        }
    }
}

/// Classifies a decoded response by the validity-marker convention: a
/// response whose first character is `?` is a device-reported error; any
/// other response, the empty one included, is valid. The label is the
/// caller's diagnostic context for the failure; the classification never
/// reads it.
pub fn _check_for_valid_response(response: &String, _error_log: &str) -> (r: Result<
    (),
    ProtocolError,
>)
    ensures
        r is Err <==> response@.len() > 0 && response@[0] == '?',
        r matches Err(e) ==> e == ProtocolError::DeviceReportedError,
{
    if !response.as_str().is_empty() && response.as_str().get_char(0) == '?' {
        Err(ProtocolError::DeviceReportedError)
    } else {
        Ok(())
    }
}

} // verus!
