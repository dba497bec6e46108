//! The text-map propagation format: how a trace context is serialized into
//! a carrier at send time and recovered from it at receive time.
//!
//! The wire form follows the W3C trace-context text-map convention: one
//! lowercase key holding `00-<trace id>-<span id>-<flags>` in fixed-width
//! lowercase hexadecimal. A value that does not have exactly this shape, or
//! that carries a zero identifier, yields no context: the receiver then
//! proceeds with an orphaned root span instead of failing.
//!
//! The format is a collaborator of the carrier, not part of it: another
//! propagation scheme can read and write the same carrier through its
//! public `set`, `get` and `keys` capabilities. The default form is
//! usually consumed from a tracing library's propagator; this module
//! implements the small text form itself instead, so that serialization
//! and parsing carry exact contracts and the round trip is a proved law
//! rather than an assumption about outside code.

use vstd::prelude::*;
use vstd::string::StrSliceExecFns;
use vstd::string::StringExecFns;

use crate::carrier::{ascii_non_upper, lower_ready, ChannelMetadata};
use crate::context::TraceContext;
use crate::digits::{
    all_hex, hex_digits, hex_string, hex_value, lemma_hex_digits_all_hex, lemma_hex_digits_len,
    lemma_hex_round_trip, lemma_hex_value_bound, lemma_pow16_32, parse_hex_range, pow16,
};

verus! {

/// The carrier key under which a serialized context travels.
pub open spec fn traceparent_key() -> Seq<char> {
    "traceparent"@
}

/// The flags byte: its lowest bit carries the sampling decision.
pub open spec fn flags_value(sampled: bool) -> nat {
    if sampled {
        1nat
    } else {
        0nat
    }
}

/// The serialized form of a context: version, trace identifier, parent span
/// identifier and flags, hyphen-separated, in fixed-width lowercase
/// hexadecimal.
pub open spec fn traceparent_of(cx: TraceContext) -> Seq<char> {
    "00-"@ + hex_digits(cx.trace_id as nat, 32) + "-"@ + hex_digits(cx.span_id as nat, 16) + "-"@
        + hex_digits(flags_value(cx.sampled), 2)
}

/// Whether a carrier value has exactly the serialized shape above, with
/// nonzero identifiers.
pub open spec fn well_formed_traceparent(s: Seq<char>) -> bool {
    &&& s.len() == 55
    &&& s[0] == '0'
    &&& s[1] == '0'
    &&& s[2] == '-'
    &&& s[35] == '-'
    &&& s[52] == '-'
    &&& all_hex(s.subrange(3, 35))
    &&& all_hex(s.subrange(36, 52))
    &&& all_hex(s.subrange(53, 55))
    &&& hex_value(s.subrange(3, 35)) != 0
    &&& hex_value(s.subrange(36, 52)) != 0
}

/// The context denoted by a carrier value, if it is well formed.
pub open spec fn parse_traceparent(s: Seq<char>) -> Option<TraceContext> {
    if well_formed_traceparent(s) {
        Some(
            TraceContext {
                trace_id: hex_value(s.subrange(3, 35)) as u128,
                span_id: hex_value(s.subrange(36, 52)) as u64,
                sampled: hex_value(s.subrange(53, 55)) % 2 == 1,
            },
        )
    } else {
        None
    }
}

/// The context a carrier yields on extraction: the parse of the value under
/// the propagation key, if any.
pub open spec fn extracted_context(m: Map<Seq<char>, Seq<char>>) -> Option<TraceContext> {
    if m.contains_key(traceparent_key()) {
        parse_traceparent(m[traceparent_key()])
    } else {
        None
    }
}

proof fn lemma_traceparent_key_lower_ready()
    ensures
        lower_ready("traceparent"@),
{
    reveal_strlit("traceparent");
    assert forall|i: int| 0 <= i < "traceparent"@.len() implies ascii_non_upper(
        #[trigger] "traceparent"@[i],
    ) by {
        let s = "traceparent"@;
        assert(s.len() == 11);
        assert(s[0] == 't');
        assert(s[1] == 'r');
        assert(s[2] == 'a');
        assert(s[3] == 'c');
        assert(s[4] == 'e');
        assert(s[5] == 'p');
        assert(s[6] == 'a');
        assert(s[7] == 'r');
        assert(s[8] == 'e');
        assert(s[9] == 'n');
        assert(s[10] == 't');
    }
}

/// Serialize the calling task's context into the carrier. An invalid
/// context is not written at all: the carrier is left as it was.
pub fn inject(cx: &TraceContext, carrier: &mut ChannelMetadata)
    ensures
        cx.is_valid() ==> final(carrier)@ == old(carrier)@.insert(
            traceparent_key(),
            traceparent_of(*cx),
        ),
        !cx.is_valid() ==> final(carrier)@ == old(carrier)@,
{
    if cx.trace_id == 0 || cx.span_id == 0 {
        return ;
    }
    let mut value = String::from_str("00-");
    let tid = hex_string(cx.trace_id, 32);
    value.append(tid.as_str());
    value.append("-");
    let sid = hex_string(cx.span_id as u128, 16);
    value.append(sid.as_str());
    value.append("-");
    let flags: u128 = if cx.sampled {
        1
    } else {
        0
    };
    let fl = hex_string(flags, 2);
    value.append(fl.as_str());
    proof {
        assert(value@ =~= traceparent_of(*cx));
        lemma_traceparent_key_lower_ready();
    }
    carrier.set("traceparent", value);
}

/// Parse one carrier value; any deviation from the serialized shape yields
/// no context rather than an error.
pub fn parse_traceparent_value(s: &str) -> (r: Option<TraceContext>)
    ensures
        r == parse_traceparent(s@),
{
    let n = s.unicode_len();
    if n != 55 {
        return None;
    }
    if s.get_char(0) != '0' || s.get_char(1) != '0' || s.get_char(2) != '-' || s.get_char(35)
        != '-' || s.get_char(52) != '-' {
        return None;
    }
    let tid = match parse_hex_range(s, 3, 35) {
        Some(v) => v,
        None => {
            return None;
        },
    };
    let sid = match parse_hex_range(s, 36, 52) {
        Some(v) => v,
        None => {
            return None;
        },
    };
    let flags = match parse_hex_range(s, 53, 55) {
        Some(v) => v,
        None => {
            return None;
        },
    };
    if tid == 0 || sid == 0 {
        return None;
    }
    proof {
        lemma_hex_value_bound(s@.subrange(36, 52));
        reveal_with_fuel(pow16, 17);
    }
    Some(TraceContext { trace_id: tid, span_id: sid as u64, sampled: flags % 2 == 1 })
}

/// Recover the sender's context from a carrier: absence of the key, or a
/// value that does not parse, yields no context.
pub fn extract(carrier: &ChannelMetadata) -> (r: Option<TraceContext>)
    ensures
        r == extracted_context(carrier@),
{
    match carrier.get("traceparent") {
        None => None,
        Some(v) => parse_traceparent_value(v),
    }
}

/// Round trip: a valid context serialized by `inject` and parsed back
/// yields the same trace identifier, span identifier and sampling decision.
pub proof fn lemma_traceparent_round_trip(cx: TraceContext)
    requires
        cx.is_valid(),
    ensures
        parse_traceparent(traceparent_of(cx)) == Some(cx),
{
    reveal_strlit("00-");
    reveal_strlit("-");
    let a = hex_digits(cx.trace_id as nat, 32);
    let b = hex_digits(cx.span_id as nat, 16);
    let c = hex_digits(flags_value(cx.sampled), 2);
    let s = traceparent_of(cx);
    lemma_hex_digits_len(cx.trace_id as nat, 32);
    lemma_hex_digits_len(cx.span_id as nat, 16);
    lemma_hex_digits_len(flags_value(cx.sampled), 2);
    assert(s.len() == 55);
    assert("00-"@[0] == '0');
    assert("00-"@[1] == '0');
    assert("00-"@[2] == '-');
    assert("-"@[0] == '-');
    assert(s[0] == '0');
    assert(s[1] == '0');
    assert(s[2] == '-');
    assert(s[35] == '-');
    assert(s[52] == '-');
    assert(s.subrange(3, 35) =~= a);
    assert(s.subrange(36, 52) =~= b);
    assert(s.subrange(53, 55) =~= c);
    lemma_hex_digits_all_hex(cx.trace_id as nat, 32);
    lemma_hex_digits_all_hex(cx.span_id as nat, 16);
    lemma_hex_digits_all_hex(flags_value(cx.sampled), 2);
    lemma_pow16_32();
    assert((cx.trace_id as nat) < pow16(32));
    lemma_hex_round_trip(cx.trace_id as nat, 32);
    reveal_with_fuel(pow16, 17);
    assert((cx.span_id as nat) < pow16(16));
    lemma_hex_round_trip(cx.span_id as nat, 16);
    reveal_with_fuel(pow16, 3);
    assert(flags_value(cx.sampled) < pow16(2));
    lemma_hex_round_trip(flags_value(cx.sampled), 2);
    assert(well_formed_traceparent(s));
}

/// Round trip through a carrier: injecting a valid context and extracting
/// again resolves to the same context, whatever else the carrier held.
pub proof fn lemma_inject_extract_round_trip(cx: TraceContext, m: Map<Seq<char>, Seq<char>>)
    requires
        cx.is_valid(),
    ensures
        extracted_context(m.insert(traceparent_key(), traceparent_of(cx))) == Some(cx),
{
    lemma_traceparent_round_trip(cx);
}

} // verus!
