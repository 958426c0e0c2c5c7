//! The propagator: writes a span context onto a carrier and reads it back.
//!
//! Three keys are used, on header sets and on RPC metadata alike:
//! `x-b3-traceid` (32 lower-case hexadecimal digits, or 16 for a 64-bit
//! trace identifier), `x-b3-spanid` (16 digits) and `x-b3-sampled` (`1` or
//! `0`). The first two are required. Reading never fails: a carrier that
//! does not hold a well-formed context yields the root of a new trace.

use crate::carrier::Carrier;
use crate::context::SpanContext;
use crate::text::{hex_number, hex_of, lower, parse_hex, push_hex};
use vstd::prelude::*;

verus! {

/// The key under which the trace identifier travels.
pub const TRACE_ID_KEY: &'static str = "x-b3-traceid";

/// The key under which the span identifier travels.
pub const SPAN_ID_KEY: &'static str = "x-b3-spanid";

/// The key under which the sampling decision travels.
pub const SAMPLED_KEY: &'static str = "x-b3-sampled";

/// `TRACE_ID_KEY` as a carrier stores it.
pub open spec fn trace_id_key() -> Seq<char> {
    lower(TRACE_ID_KEY@)
}

/// `SPAN_ID_KEY` as a carrier stores it.
pub open spec fn span_id_key() -> Seq<char> {
    lower(SPAN_ID_KEY@)
}

/// `SAMPLED_KEY` as a carrier stores it.
pub open spec fn sampled_key() -> Seq<char> {
    lower(SAMPLED_KEY@)
}

/// The three keys are pairwise different.
pub proof fn lemma_keys_distinct()
    ensures
        trace_id_key() != span_id_key(),
        trace_id_key() != sampled_key(),
        span_id_key() != sampled_key(),
{
    reveal_strlit("x-b3-traceid");
    reveal_strlit("x-b3-spanid");
    reveal_strlit("x-b3-sampled");
    assert(trace_id_key().len() == 12);
    assert(span_id_key().len() == 11);
    assert(sampled_key().len() == 12);
    assert(trace_id_key()[5] == 't');
    assert(sampled_key()[5] == 's');
}

/// The trace identifier that a carrier value denotes: 32 or 16 lower-case
/// hexadecimal digits that are not all zero.
pub open spec fn trace_id_of(s: Seq<char>) -> Option<u128> {
    if (s.len() == 32 || s.len() == 16) && hex_number(s) is Some && hex_number(s).unwrap() != 0 {
        Some(hex_number(s).unwrap() as u128)
    } else {
        None
    }
}

/// The span identifier that a carrier value denotes: 16 lower-case
/// hexadecimal digits that are not all zero.
pub open spec fn span_id_of(s: Seq<char>) -> Option<u64> {
    if s.len() == 16 && hex_number(s) is Some && hex_number(s).unwrap() != 0 {
        Some(hex_number(s).unwrap() as u64)
    } else {
        None
    }
}

/// The sampling decision that a carrier value denotes.
pub open spec fn sampled_of(s: Seq<char>) -> Option<bool> {
    if s == seq!['1'] {
        Some(true)
    } else if s == seq!['0'] {
        Some(false)
    } else {
        None
    }
}

/// How a sampling decision is written.
pub open spec fn sampled_text(sampled: bool) -> Seq<char> {
    if sampled {
        seq!['1']
    } else {
        seq!['0']
    }
}

/// The context that a carrier holds, if it holds a well-formed one. A
/// carrier without a sampling decision takes `default_sampled`; one with a
/// malformed decision holds no context.
pub open spec fn carried(carrier: Map<Seq<char>, Seq<char>>, default_sampled: bool) -> Option<
    SpanContext,
> {
    if carrier.contains_key(trace_id_key()) && carrier.contains_key(span_id_key()) {
        match (trace_id_of(carrier[trace_id_key()]), span_id_of(carrier[span_id_key()])) {
            (Some(trace_id), Some(span_id)) => {
                if carrier.contains_key(sampled_key()) {
                    match sampled_of(carrier[sampled_key()]) {
                        Some(sampled) => Some(SpanContext { trace_id, span_id, sampled }),
                        None => None,
                    }
                } else {
                    Some(SpanContext { trace_id, span_id, sampled: default_sampled })
                }
            },
            _ => None,
        }
    } else {
        None
    }
}

/// What `extract` reads from a carrier: the context it holds, or the root
/// of a new trace.
pub open spec fn extracted(
    carrier: Map<Seq<char>, Seq<char>>,
    default_sampled: bool,
    fresh_trace_id: u128,
) -> SpanContext {
    match carried(carrier, default_sampled) {
        Some(inbound) => inbound,
        None => SpanContext::fresh_root(fresh_trace_id, default_sampled),
    }
}

/// What `inject` leaves on a carrier.
pub open spec fn injected(carrier: Map<Seq<char>, Seq<char>>, cx: SpanContext) -> Map<
    Seq<char>,
    Seq<char>,
> {
    carrier.insert(trace_id_key(), hex_of(cx.trace_id as nat, 32)).insert(
        span_id_key(),
        hex_of(cx.span_id as nat, 16),
    ).insert(sampled_key(), sampled_text(cx.sampled))
}

fn read_trace_id(value: &String) -> (r: Option<u128>)
    ensures
        r == trace_id_of(value@),
        r matches Some(v) ==> v != 0,
{
    let n = value.as_str().unicode_len();
    if n != 32 && n != 16 {
        return None;
    }
    match parse_hex(value.as_str()) {
        Some(v) => if v != 0 {
            Some(v)
        } else {
            None
        },
        None => None,
    }
}

fn read_span_id(value: &String) -> (r: Option<u64>)
    ensures
        r == span_id_of(value@),
        r matches Some(v) ==> v != 0,
{
    let n = value.as_str().unicode_len();
    if n != 16 {
        return None;
    }
    match parse_hex(value.as_str()) {
        Some(v) => {
            proof {
                crate::text::lemma_hex_number_bound(value@);
                crate::text::lemma_pow16_values();
            }
            if v != 0 {
                Some(v as u64)
            } else {
                None
            }
        },
        None => None,
    }
}

fn read_sampled(value: &String) -> (r: Option<bool>)
    ensures
        r == sampled_of(value@),
{
    let s = value.as_str();
    if s.unicode_len() != 1 {
        return None;
    }
    let c = s.get_char(0);
    assert(value@ =~= seq![c]);
    if c == '1' {
        Some(true)
    } else if c == '0' {
        Some(false)
    } else {
        None
    }
}

/// Reads the context that `carrier` holds.
///
/// Where the carrier holds none (a required key is missing, or a value is
/// malformed), the result is the root of a new trace: `fresh_trace_id`
/// (one, if that is zero) with the decision `default_sampled`.
pub fn extract(carrier: &Carrier, default_sampled: bool, fresh_trace_id: u128) -> (cx: SpanContext)
    ensures
        cx == extracted(carrier@, default_sampled, fresh_trace_id),
        cx.is_valid(),
        carried(carrier@, default_sampled) is None ==> cx.is_root(),
{
    let trace = match carrier.get(TRACE_ID_KEY) {
        Some(value) => read_trace_id(&value),
        None => None,
    };
    let span = match carrier.get(SPAN_ID_KEY) {
        Some(value) => read_span_id(&value),
        None => None,
    };
    match (trace, span) {
        (Some(trace_id), Some(span_id)) => {
            match carrier.get(SAMPLED_KEY) {
                Some(value) => {
                    match read_sampled(&value) {
                        Some(sampled) => SpanContext { trace_id, span_id, sampled },
                        None => SpanContext::new_root(fresh_trace_id, default_sampled),
                    }
                },
                None => SpanContext { trace_id, span_id, sampled: default_sampled },
            }
        },
        _ => SpanContext::new_root(fresh_trace_id, default_sampled),
    }
}

/// Writes `cx` onto `carrier` under the three keys, replacing what they
/// held; other keys keep their values.
pub fn inject(cx: &SpanContext, carrier: &mut Carrier)
    ensures
        final(carrier)@ == injected(old(carrier)@, *cx),
{
    let mut trace = String::new();
    push_hex(&mut trace, cx.trace_id, 32);
    let mut span = String::new();
    push_hex(&mut span, cx.span_id as u128, 16);
    let sampled = if cx.sampled {
        "1"
    } else {
        "0"
    };
    proof {
        reveal_strlit("1");
        reveal_strlit("0");
        assert(sampled@ =~= sampled_text(cx.sampled));
        assert(trace@ =~= hex_of(cx.trace_id as nat, 32));
        assert(span@ =~= hex_of(cx.span_id as nat, 16));
    }
    carrier.set(TRACE_ID_KEY, trace.as_str());
    carrier.set(SPAN_ID_KEY, span.as_str());
    carrier.set(SAMPLED_KEY, sampled);
}

/// A carrier that lacks one of the two required keys holds no context, so
/// that reading it gives the root of a new trace: valid, and naming no span.
pub proof fn lemma_extract_without_keys(
    carrier: Map<Seq<char>, Seq<char>>,
    default_sampled: bool,
    fresh_trace_id: u128,
)
    requires
        !carrier.contains_key(trace_id_key()) || !carrier.contains_key(span_id_key()),
    ensures
        carried(carrier, default_sampled) is None,
        extracted(carrier, default_sampled, fresh_trace_id) == SpanContext::fresh_root(
            fresh_trace_id,
            default_sampled,
        ),
        extracted(carrier, default_sampled, fresh_trace_id).is_valid(),
        extracted(carrier, default_sampled, fresh_trace_id).is_root(),
        extracted(carrier, default_sampled, fresh_trace_id).sampled == default_sampled,
{
}

/// Whatever a carrier holds, reading it gives a valid context.
pub proof fn lemma_extracted_valid(
    carrier: Map<Seq<char>, Seq<char>>,
    default_sampled: bool,
    fresh_trace_id: u128,
)
    ensures
        extracted(carrier, default_sampled, fresh_trace_id).is_valid(),
{
    if carried(carrier, default_sampled) is Some {
        let value = carrier[trace_id_key()];
        crate::text::lemma_hex_number_bound(value);
        crate::text::lemma_pow16_values();
        crate::text::lemma_pow16_monotonic(value.len(), 32);
    }
}

/// Round trip: what `inject` wrote for a context that names a span of a
/// valid trace, `extract` reads back unchanged, whatever else the carrier
/// held before and whatever the default decision is.
pub proof fn lemma_inject_then_extract(
    carrier: Map<Seq<char>, Seq<char>>,
    cx: SpanContext,
    default_sampled: bool,
)
    requires
        cx.is_valid(),
        !cx.is_root(),
    ensures
        carried(injected(carrier, cx), default_sampled) == Some(cx),
        extracted(injected(carrier, cx), default_sampled, 0) == cx,
{
    lemma_keys_distinct();
    crate::text::lemma_pow16_values();
    crate::text::lemma_hex_round_trip(cx.trace_id as nat, 32);
    crate::text::lemma_hex_round_trip(cx.span_id as nat, 16);
    crate::text::lemma_hex_of_len(cx.trace_id as nat, 32);
    crate::text::lemma_hex_of_len(cx.span_id as nat, 16);
    assert(seq!['1'] != seq!['0']) by {
        assert(seq!['1'][0] != seq!['0'][0]);
    }
}

} // verus!
