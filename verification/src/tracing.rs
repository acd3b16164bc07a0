//! Distributed tracing: spans with random hex ids, and the propagation of
//! trace context through string headers.

use vstd::prelude::*;
use crate::str_map::StrMap;
use crate::text::owned;

verus! {

/// A random byte (`rand::random::<u8>`); nothing is promised of its value.
#[verifier::external_body]
fn random_byte() -> (b: u8) {
    rand::random::<u8>()
}

/// The lowercase hexadecimal digit of `d < 16`.
pub open spec fn hex_digit(d: int) -> char {
    if d < 10 {
        ((d + 48) as u8) as char
    } else {
        ((d - 10 + 97) as u8) as char
    }
}

/// Whether `c` is a lowercase hexadecimal digit.
pub open spec fn is_hex_digit(c: char) -> bool {
    ('0' <= c && c <= '9') || ('a' <= c && c <= 'f')
}

/// Whether `s` is `len` lowercase hexadecimal digits.
pub open spec fn is_hex_id(s: Seq<char>, len: nat) -> bool {
    s.len() == len && forall|i: int| 0 <= i < s.len() ==> is_hex_digit(#[trigger] s[i])
}

/// The two lowercase hexadecimal digits of a byte, high digit first.
pub open spec fn hex_byte(b: u8) -> Seq<char> {
    seq![hex_digit(b as int / 16), hex_digit(b as int % 16)]
}

/// The lowercase hexadecimal text of a byte string, two digits per byte.
pub open spec fn hex_text(bytes: Seq<u8>) -> Seq<char>
    decreases bytes.len(),
{
    if bytes.len() == 0 {
        Seq::empty()
    } else {
        hex_text(bytes.drop_last()) + hex_byte(bytes.last())
    }
}

/// The hex text of `n` bytes is `2 n` lowercase hexadecimal digits.
pub proof fn lemma_hex_text_is_hex(bytes: Seq<u8>)
    ensures
        is_hex_id(hex_text(bytes), 2 * bytes.len()),
    decreases bytes.len(),
{
    if bytes.len() > 0 {
        lemma_hex_text_is_hex(bytes.drop_last());
        let b = bytes.last();
        assert(is_hex_digit(hex_digit(b as int / 16)));
        assert(is_hex_digit(hex_digit(b as int % 16)));
    }
}

fn hex_digit_char(d: u8) -> (c: char)
    requires
        d < 16,
    ensures
        c == hex_digit(d as int),
{
    if d < 10 {
        ((d + 48) as u8) as char
    } else {
        ((d - 10 + 97) as u8) as char
    }
}

/// The lowercase hexadecimal text of `bytes`.
pub fn hex_encode(bytes: &Vec<u8>) -> (r: String)
    ensures
        r@ == hex_text(bytes@),
{
    let mut out = String::new();
    let mut i: usize = 0;
    assert(out@ =~= hex_text(bytes@.take(0)));
    while i < bytes.len()
        invariant
            i <= bytes@.len(),
            out@ == hex_text(bytes@.take(i as int)),
        decreases bytes@.len() - i,
    {
        let b = bytes[i];
        crate::text::push_char(&mut out, hex_digit_char(b / 16));
        crate::text::push_char(&mut out, hex_digit_char(b % 16));
        proof {
            let t = bytes@.take(i as int + 1);
            assert(t.drop_last() =~= bytes@.take(i as int));
            assert(t.last() == b);
            assert(out@ =~= hex_text(bytes@.take(i as int)) + hex_byte(b));
        }
        i = i + 1;
    }
    assert(bytes@.take(bytes@.len() as int) =~= bytes@);
    out
}

/// `n` random bytes as `2 * n` lowercase hexadecimal digits.
pub fn random_hex_id(n: usize) -> (r: String)
    requires
        n <= usize::MAX / 2,
    ensures
        is_hex_id(r@, 2 * n as nat),
{
    let mut bytes: Vec<u8> = Vec::new();
    let mut i: usize = 0;
    while i < n
        invariant
            i <= n,
            bytes@.len() == i,
        decreases n - i,
    {
        bytes.push(random_byte());
        i = i + 1;
    }
    let r = hex_encode(&bytes);
    proof {
        lemma_hex_text_is_hex(bytes@);
    }
    r
}

/// A fresh trace id: 32 random lowercase hexadecimal digits.
pub fn generate_trace_id() -> (r: String)
    ensures
        is_hex_id(r@, 32),
{
    random_hex_id(16)
}

/// A fresh span id: 16 random lowercase hexadecimal digits.
pub fn generate_span_id() -> (r: String)
    ensures
        is_hex_id(r@, 16),
{
    random_hex_id(8)
}

/// What `SystemTime::duration_since` gives for two readings: the time from
/// `earlier` to `now`, or `None` (its error) where `earlier` is later than `now`.
pub uninterp spec fn system_elapsed(now: std::time::SystemTime, earlier: std::time::SystemTime) -> Option<std::time::Duration>;

/// `SystemTime::duration_since`, its error mapped to `None`: the result is
/// `system_elapsed` of the two readings, which is all that is claimed.
#[verifier::external_body]
fn system_duration_since(now: &std::time::SystemTime, earlier: &std::time::SystemTime) -> (r: Option<std::time::Duration>)
    ensures
        r == system_elapsed(*now, *earlier),
{
    now.duration_since(*earlier).ok()
}

/// A span's duration from what the clock comparison gave: the elapsed time, or
/// zero where the clock went back.
pub open spec fn elapsed_or_zero(r: Option<std::time::Duration>) -> std::time::Duration {
    match r {
        Some(x) => x,
        None => crate::time::duration_of_secs(0),
    }
}

/// The duration of a span whose clock comparison gave `r`.
pub fn duration_from_elapsed(r: Option<std::time::Duration>) -> (d: std::time::Duration)
    ensures
        d == elapsed_or_zero(r),
{
    match r {
        Some(x) => x,
        None => crate::time::duration_from_secs(0),
    }
}

/// One timed operation of a trace.
#[derive(Debug)]
pub struct Span {
    pub trace_id: String,
    pub span_id: String,
    pub parent_span_id: Option<String>,
    pub operation_name: String,
    pub start_time: std::time::SystemTime,
    pub tags: StrMap,
    pub logs: Vec<String>,
}

/// The view of an optional string.
pub open spec fn opt_view(o: Option<String>) -> Option<Seq<char>> {
    match o {
        Some(s) => Some(s@),
        None => None,
    }
}

impl Span {
    /// A span of a new trace.
    fn new(operation: &str, parent_span_id: Option<String>) -> (s: Span)
        ensures
            is_hex_id(s.trace_id@, 32),
            is_hex_id(s.span_id@, 16),
            s.parent_span_id == parent_span_id,
            s.operation_name@ == operation@,
            s.tags@ == Map::<Seq<char>, Seq<char>>::empty(),
            s.logs@.len() == 0,
    {
        Span {
            trace_id: generate_trace_id(),
            span_id: generate_span_id(),
            parent_span_id,
            operation_name: owned(operation),
            start_time: crate::time::system_now(),
            tags: StrMap::new(),
            logs: Vec::new(),
        }
    }

    /// A span of the trace `trace_id`.
    fn new_with_context(operation: &str, trace_id: String, parent_span_id: Option<String>) -> (s: Span)
        ensures
            s.trace_id == trace_id,
            is_hex_id(s.span_id@, 16),
            s.parent_span_id == parent_span_id,
            s.operation_name@ == operation@,
            s.tags@ == Map::<Seq<char>, Seq<char>>::empty(),
            s.logs@.len() == 0,
    {
        Span {
            trace_id,
            span_id: generate_span_id(),
            parent_span_id,
            operation_name: owned(operation),
            start_time: crate::time::system_now(),
            tags: StrMap::new(),
            logs: Vec::new(),
        }
    }

    /// Sets the tag `key` to `value`.
    pub fn add_tag(&mut self, key: &str, value: &str)
        ensures
            final(self).tags@ == old(self).tags@.insert(key@, value@),
            final(self).logs == old(self).logs,
            final(self).trace_id == old(self).trace_id,
            final(self).span_id == old(self).span_id,
            final(self).parent_span_id == old(self).parent_span_id,
            final(self).operation_name == old(self).operation_name,
            final(self).start_time == old(self).start_time,
    {
        self.tags.insert(owned(key), owned(value));
    }

    /// Appends an event to the span's log.
    pub fn log_event(&mut self, event: &str)
        ensures
            final(self).logs@.len() == old(self).logs@.len() + 1,
            final(self).logs@.drop_last() == old(self).logs@,
            final(self).logs@.last()@ == event@,
            final(self).tags == old(self).tags,
            final(self).trace_id == old(self).trace_id,
            final(self).span_id == old(self).span_id,
            final(self).parent_span_id == old(self).parent_span_id,
            final(self).operation_name == old(self).operation_name,
            final(self).start_time == old(self).start_time,
    {
        self.logs.push(owned(event));
        assert(self.logs@.drop_last() =~= old(self).logs@);
    }

    /// Time since the span started, by the wall clock; zero where the clock
    /// went back.
    pub fn get_duration(&self) -> (d: std::time::Duration)
        ensures
            exists|now: std::time::SystemTime| d == elapsed_or_zero(#[trigger] system_elapsed(now, self.start_time)),
    {
        let now = crate::time::system_now();
        let r = system_duration_since(&now, &self.start_time);
        duration_from_elapsed(r)
    }
}

/// The trace context carried between services.
#[derive(Debug)]
pub struct TraceContext {
    pub trace_id: String,
    pub span_id: String,
    pub baggage: StrMap,
}

impl TraceContext {
    /// A context with no baggage.
    pub fn new(trace_id: String, span_id: String) -> (c: TraceContext)
        ensures
            c.trace_id == trace_id,
            c.span_id == span_id,
            c.baggage@ == Map::<Seq<char>, Seq<char>>::empty(),
    {
        TraceContext { trace_id, span_id, baggage: StrMap::new() }
    }

    /// Sets the baggage item `key` to `value`.
    pub fn add_baggage(&mut self, key: &str, value: &str)
        ensures
            final(self).baggage@ == old(self).baggage@.insert(key@, value@),
            final(self).trace_id == old(self).trace_id,
            final(self).span_id == old(self).span_id,
    {
        self.baggage.insert(owned(key), owned(value));
    }

    /// The baggage item `key`, if set.
    pub fn get_baggage(&self, key: &str) -> (r: Option<&String>)
        ensures
            match r {
                Some(v) => self.baggage@.contains_key(key@) && self.baggage@[key@] == v@,
                None => !self.baggage@.contains_key(key@),
            },
    {
        self.baggage.get(key)
    }
}

/// Starts spans and moves trace context in and out of headers.
#[derive(Debug, Clone)]
pub struct DistributedTracer {
    pub service_name: String,
}

impl DistributedTracer {
    pub fn new(service_name: String) -> (t: DistributedTracer)
        ensures
            t.service_name == service_name,
    {
        DistributedTracer { service_name }
    }

    /// A root span of a new trace.
    pub fn start_span(&self, operation: &str) -> (s: Span)
        ensures
            is_hex_id(s.trace_id@, 32),
            is_hex_id(s.span_id@, 16),
            s.parent_span_id is None,
            s.operation_name@ == operation@,
            s.tags@ == Map::<Seq<char>, Seq<char>>::empty(),
            s.logs@.len() == 0,
    {
        Span::new(operation, None)
    }

    /// A span continuing the trace in `context`: its trace id is the header
    /// `trace-id` (a new one where absent) and its parent the header `span-id`.
    pub fn start_span_with_context(&self, operation: &str, context: &StrMap) -> (s: Span)
        ensures
            context@.contains_key("trace-id"@) ==> s.trace_id@ == context@["trace-id"@],
            !context@.contains_key("trace-id"@) ==> is_hex_id(s.trace_id@, 32),
            opt_view(s.parent_span_id) == (if context@.contains_key("span-id"@) {
                Some(context@["span-id"@])
            } else {
                None::<Seq<char>>
            }),
            is_hex_id(s.span_id@, 16),
            s.operation_name@ == operation@,
            s.tags@ == Map::<Seq<char>, Seq<char>>::empty(),
            s.logs@.len() == 0,
    {
        let trace_id = match context.get("trace-id") {
            Some(t) => t.clone(),
            None => generate_trace_id(),
        };
        let parent = match context.get("span-id") {
            Some(p) => Some(p.clone()),
            None => None,
        };
        Span::new_with_context(operation, trace_id, parent)
    }

    /// Writes the span's trace id, span id and parent id (where set) into
    /// `headers`.
    pub fn inject_context(&self, span: &Span, headers: &mut StrMap)
        ensures
            final(headers)@ == injected(old(headers)@, span.trace_id@, span.span_id@, opt_view(span.parent_span_id)),
    {
        headers.insert(owned("trace-id"), span.trace_id.clone());
        headers.insert(owned("span-id"), span.span_id.clone());
        match &span.parent_span_id {
            Some(p) => headers.insert(owned("parent-span-id"), p.clone()),
            None => {},
        }
    }

    /// The trace context in `headers`: present when both the trace id and the
    /// span id are; the baggage starts empty.
    pub fn extract_context(&self, headers: &StrMap) -> (r: Option<TraceContext>)
        ensures
            r is Some <==> headers@.contains_key("trace-id"@) && headers@.contains_key("span-id"@),
            r matches Some(c) ==> c.trace_id@ == headers@["trace-id"@] && c.span_id@ == headers@["span-id"@]
                && c.baggage@ == Map::<Seq<char>, Seq<char>>::empty(),
    {
        let trace_id = match headers.get("trace-id") {
            Some(t) => t.clone(),
            None => return None,
        };
        let span_id = match headers.get("span-id") {
            Some(s) => s.clone(),
            None => return None,
        };
        Some(TraceContext { trace_id, span_id, baggage: StrMap::new() })
    }
}

/// Headers carrying a span's context: its trace id, its span id, and its
/// parent's id where it has one.
pub open spec fn injected(
    headers: Map<Seq<char>, Seq<char>>,
    trace_id: Seq<char>,
    span_id: Seq<char>,
    parent: Option<Seq<char>>,
) -> Map<Seq<char>, Seq<char>> {
    let h = headers.insert("trace-id"@, trace_id).insert("span-id"@, span_id);
    match parent {
        Some(p) => h.insert("parent-span-id"@, p),
        None => h,
    }
}

/// Extracting the context from headers a span's context was injected into
/// gives back the span's trace id and span id, whatever else they held.
pub proof fn law_inject_then_extract(
    headers: Map<Seq<char>, Seq<char>>,
    trace_id: Seq<char>,
    span_id: Seq<char>,
    parent: Option<Seq<char>>,
)
    ensures
        injected(headers, trace_id, span_id, parent).contains_key("trace-id"@),
        injected(headers, trace_id, span_id, parent).contains_key("span-id"@),
        injected(headers, trace_id, span_id, parent)["trace-id"@] == trace_id,
        injected(headers, trace_id, span_id, parent)["span-id"@] == span_id,
{
    reveal_strlit("trace-id");
    reveal_strlit("span-id");
    reveal_strlit("parent-span-id");
    assert("trace-id"@[0] != "span-id"@[0]);
    assert("parent-span-id"@[0] != "span-id"@[0]);
    assert("parent-span-id"@[0] != "trace-id"@[0]);
}

} // verus!
