//! Server-Sent Events (SSE) chunk parsing.

use vstd::prelude::*;
use crate::num_text::{parse_u64_spec, parse_u64_range};
use crate::text::{chars_of, range_eq_lit, string_from_chars};

verus! {

/// One dispatched SSE message.
pub struct SSEMessage {
    pub event: Option<String>,
    pub data: String,
    pub id: Option<String>,
    pub retry: Option<u64>,
}

/// The mathematical content of an [`SSEMessage`].
pub struct SSEMessageView {
    pub event: Option<Seq<char>>,
    pub data: Seq<char>,
    pub id: Option<Seq<char>>,
    pub retry: Option<u64>,
}

pub open spec fn opt_string_view(o: Option<String>) -> Option<Seq<char>> {
    match o {
        Some(s) => Some(s@),
        None => None,
    }
}

impl View for SSEMessage {
    type V = SSEMessageView;

    open spec fn view(&self) -> SSEMessageView {
        SSEMessageView {
            event: opt_string_view(self.event),
            data: self.data@,
            id: opt_string_view(self.id),
            retry: self.retry,
        }
    }
}

/// The position of the first occurrence of `c` in `s`.
pub open spec fn first_index_of(s: Seq<char>, c: char) -> Option<int>
    decreases s.len(),
{
    if s.len() == 0 {
        None
    } else if s[0] == c {
        Some(0)
    } else {
        match first_index_of(s.skip(1), c) {
            Some(i) => Some(i + 1),
            None => None,
        }
    }
}

/// The lines of `s` as `str::lines` yields them before trailing carriage returns
/// are dropped: pieces ended by `\n`, the last one possibly unterminated, no empty
/// piece after a final `\n`.
pub open spec fn split_lines(s: Seq<char>) -> Seq<Seq<char>>
    decreases s.len(),
{
    if s.len() == 0 {
        Seq::empty()
    } else {
        match first_index_of(s, '\n') {
            Some(p) => if 0 <= p < s.len() {
                seq![s.take(p)] + split_lines(s.skip(p + 1))
            } else {
                Seq::empty()
            },
            None => seq![s],
        }
    }
}

/// `s` without its trailing carriage returns.
pub open spec fn trim_trailing_cr(s: Seq<char>) -> Seq<char>
    decreases s.len(),
{
    if s.len() > 0 && s.last() == '\r' {
        trim_trailing_cr(s.drop_last())
    } else {
        s
    }
}

/// The elements of `list` joined with `sep` in between.
pub open spec fn join_with(list: Seq<Seq<char>>, sep: Seq<char>) -> Seq<char>
    decreases list.len(),
{
    if list.len() == 0 {
        Seq::empty()
    } else if list.len() == 1 {
        list[0]
    } else {
        join_with(list.drop_last(), sep) + sep + list.last()
    }
}

/// The parser's state between lines.
pub struct SseState {
    pub messages: Seq<SSEMessageView>,
    pub event: Option<Seq<char>>,
    pub data: Seq<Seq<char>>,
    pub id: Option<Seq<char>>,
    pub retry: Option<u64>,
}

pub open spec fn sse_initial() -> SseState {
    SseState { messages: Seq::empty(), event: None, data: Seq::empty(), id: None, retry: None }
}

/// Whether the state holds a message waiting to be dispatched.
pub open spec fn sse_pending(st: SseState) -> bool {
    st.data.len() > 0 || st.event is Some
}

/// Emits the pending message and clears the fields.
pub open spec fn sse_dispatch(st: SseState) -> SseState {
    SseState {
        messages: st.messages.push(
            SSEMessageView {
                event: st.event,
                data: join_with(st.data, seq!['\n']),
                id: st.id,
                retry: st.retry,
            },
        ),
        event: None,
        data: Seq::empty(),
        id: None,
        retry: None,
    }
}

/// `value` without one leading space.
pub open spec fn strip_one_space(value: Seq<char>) -> Seq<char> {
    if value.len() > 0 && value[0] == ' ' {
        value.skip(1)
    } else {
        value
    }
}

/// Applies one `field: value` pair.
pub open spec fn sse_field(st: SseState, field: Seq<char>, val: Seq<char>) -> SseState {
    if field == "event"@ {
        SseState { event: Some(val), ..st }
    } else if field == "data"@ {
        SseState { data: st.data.push(val), ..st }
    } else if field == "id"@ {
        SseState { id: Some(val), ..st }
    } else if field == "retry"@ {
        match parse_u64_spec(val) {
            Some(ms) => SseState { retry: Some(ms), ..st },
            None => st,
        }
    } else {
        st
    }
}

/// Processes one raw line of the stream.
pub open spec fn sse_line(st: SseState, raw: Seq<char>) -> SseState {
    let line = trim_trailing_cr(raw);
    if line.len() == 0 {
        if sse_pending(st) {
            sse_dispatch(st)
        } else {
            st
        }
    } else if line[0] == ':' {
        st
    } else {
        match first_index_of(line, ':') {
            Some(p) => sse_field(st, line.take(p), strip_one_space(line.skip(p + 1))),
            None => if line == "data"@ {
                SseState { data: st.data.push(Seq::empty()), ..st }
            } else {
                st
            },
        }
    }
}

/// Processes the lines in order.
pub open spec fn sse_lines(st: SseState, lines: Seq<Seq<char>>) -> SseState
    decreases lines.len(),
{
    if lines.len() == 0 {
        st
    } else {
        sse_lines(sse_line(st, lines[0]), lines.skip(1))
    }
}

/// The messages of a chunk: every dispatched message, then the pending one if the
/// chunk ends without a blank line.
pub open spec fn sse_parse(chunk: Seq<char>) -> Seq<SSEMessageView> {
    let st = sse_lines(sse_initial(), split_lines(chunk));
    if sse_pending(st) {
        sse_dispatch(st).messages
    } else {
        st.messages
    }
}

pub open spec fn messages_view(v: Seq<SSEMessage>) -> Seq<SSEMessageView> {
    v.map_values(|m: SSEMessage| m@)
}

proof fn lemma_first_index_of(s: Seq<char>, c: char)
    ensures
        match first_index_of(s, c) {
            Some(p) => 0 <= p < s.len() && s[p] == c && forall|j: int| 0 <= j < p ==> s[j] != c,
            None => forall|j: int| 0 <= j < s.len() ==> s[j] != c,
        },
    decreases s.len(),
{
    if s.len() > 0 && s[0] != c {
        lemma_first_index_of(s.skip(1), c);
        match first_index_of(s.skip(1), c) {
            Some(p) => {
                assert forall|j: int| 0 <= j < p + 1 implies s[j] != c by {
                    if j > 0 {
                        assert(s[j] == s.skip(1)[j - 1]);
                    }
                }
            },
            None => {
                assert forall|j: int| 0 <= j < s.len() implies s[j] != c by {
                    if j > 0 {
                        assert(s[j] == s.skip(1)[j - 1]);
                    }
                }
            },
        }
    }
}

proof fn lemma_first_index_exact(s: Seq<char>, c: char, p: int)
    requires
        0 <= p < s.len(),
        s[p] == c,
        forall|j: int| 0 <= j < p ==> s[j] != c,
    ensures
        first_index_of(s, c) == Some(p),
{
    lemma_first_index_of(s, c);
}

proof fn lemma_first_index_none(s: Seq<char>, c: char)
    requires
        forall|j: int| 0 <= j < s.len() ==> s[j] != c,
    ensures
        first_index_of(s, c) is None,
{
    lemma_first_index_of(s, c);
}

/// The executable parser state, mirroring [`SseState`].
struct SseExec {
    messages: Vec<SSEMessage>,
    event: Option<Vec<char>>,
    data: Vec<Vec<char>>,
    id: Option<Vec<char>>,
    retry: Option<u64>,
}

spec fn opt_chars_view(o: Option<Vec<char>>) -> Option<Seq<char>> {
    match o {
        Some(v) => Some(v@),
        None => None,
    }
}

impl SseExec {
    spec fn state(&self) -> SseState {
        SseState {
            messages: messages_view(self.messages@),
            event: opt_chars_view(self.event),
            data: self.data@.map_values(|v: Vec<char>| v@),
            id: opt_chars_view(self.id),
            retry: self.retry,
        }
    }
}

fn opt_chars_to_string(o: &Option<Vec<char>>) -> (r: Option<String>)
    ensures
        opt_string_view(r) == opt_chars_view(*o),
{
    match o {
        Some(v) => Some(string_from_chars(v)),
        None => None,
    }
}

fn join_lines(data: &Vec<Vec<char>>) -> (r: String)
    ensures
        r@ == join_with(data@.map_values(|v: Vec<char>| v@), seq!['\n']),
{
    let ghost list = data@.map_values(|v: Vec<char>| v@);
    let mut out = String::new();
    let mut j: usize = 0;
    while j < data.len()
        invariant
            j <= data@.len(),
            list == data@.map_values(|v: Vec<char>| v@),
            out@ == join_with(list.take(j as int), seq!['\n']),
        decreases data@.len() - j,
    {
        assert(list.take(j + 1).drop_last() =~= list.take(j as int));
        if j > 0 {
            crate::text::push_char(&mut out, '\n');
        } else {
            assert(list.take(0) =~= Seq::<Seq<char>>::empty());
        }
        let piece = string_from_chars(&data[j]);
        out.append(piece.as_str());
        j = j + 1;
    }
    assert(list.take(data@.len() as int) =~= list);
    out
}

fn dispatch(st: &mut SseExec)
    ensures
        final(st).state() == sse_dispatch(old(st).state()),
{
    let msg = SSEMessage {
        event: opt_chars_to_string(&st.event),
        data: join_lines(&st.data),
        id: opt_chars_to_string(&st.id),
        retry: st.retry,
    };
    st.messages.push(msg);
    st.event = None;
    st.data = Vec::new();
    st.id = None;
    st.retry = None;
    assert(final(st).state().messages =~= sse_dispatch(old(st).state()).messages);
    assert(final(st).state().data =~= Seq::<Seq<char>>::empty());
}

fn copy_range(v: &Vec<char>, lo: usize, hi: usize) -> (r: Vec<char>)
    requires
        lo <= hi <= v@.len(),
    ensures
        r@ == v@.subrange(lo as int, hi as int),
{
    let mut r: Vec<char> = Vec::new();
    let mut i = lo;
    while i < hi
        invariant
            lo <= i <= hi <= v@.len(),
            r@ == v@.subrange(lo as int, i as int),
        decreases hi - i,
    {
        r.push(v[i]);
        assert(v@.subrange(lo as int, i + 1) =~= v@.subrange(lo as int, i as int).push(v@[i as int]));
        i = i + 1;
    }
    r
}

proof fn lemma_trim_cr(s: Seq<char>, end: int)
    requires
        0 <= end <= s.len(),
        forall|j: int| end <= j < s.len() ==> s[j] == '\r',
        end == 0 || s[end - 1] != '\r',
    ensures
        trim_trailing_cr(s) == s.take(end),
    decreases s.len(),
{
    if s.len() > end {
        lemma_trim_cr(s.drop_last(), end);
        assert(s.drop_last().take(end) =~= s.take(end));
    } else {
        assert(s.take(end) =~= s);
    }
}

fn process_line(st: &mut SseExec, line: &Vec<char>)
    ensures
        final(st).state() == sse_line(old(st).state(), line@),
{
    let mut end = line.len();
    while end > 0 && line[end - 1] == '\r'
        invariant
            end <= line@.len(),
            forall|j: int| end <= j < line@.len() ==> line@[j] == '\r',
        decreases end,
    {
        end = end - 1;
    }
    proof {
        lemma_trim_cr(line@, end as int);
    }
    let ghost l = line@.take(end as int);
    if end == 0 {
        if st.data.len() > 0 || st.event.is_some() {
            dispatch(st);
        }
        return;
    }
    if line[0] == ':' {
        return;
    }
    let mut p: usize = 0;
    while p < end && line[p] != ':'
        invariant
            p <= end <= line@.len(),
            forall|j: int| 0 <= j < p ==> line@[j] != ':',
        decreases end - p,
    {
        p = p + 1;
    }
    if p == end {
        proof {
            lemma_first_index_none(l, ':');
        }
        if range_eq_lit(line, 0, end, "data") {
            assert(line@.subrange(0, end as int) =~= l);
            st.data.push(Vec::new());
            assert(st.state().data =~= old(st).state().data.push(Seq::empty()));
        } else {
            assert(line@.subrange(0, end as int) =~= l);
        }
        return;
    }
    proof {
        lemma_first_index_exact(l, ':', p as int);
    }
    let mut vstart = p + 1;
    if vstart < end && line[vstart] == ' ' {
        vstart = vstart + 1;
    }
    assert(line@.subrange(vstart as int, end as int) =~= strip_one_space(l.skip(p + 1)));
    assert(line@.subrange(0, p as int) =~= l.take(p as int));
    let val = copy_range(line, vstart, end);
    if range_eq_lit(line, 0, p, "event") {
        st.event = Some(val);
    } else if range_eq_lit(line, 0, p, "data") {
        st.data.push(val);
        assert(st.state().data =~= old(st).state().data.push(val@));
    } else if range_eq_lit(line, 0, p, "id") {
        st.id = Some(val);
    } else if range_eq_lit(line, 0, p, "retry") {
        match parse_u64_range(line, vstart, end) {
            Some(ms) => {
                st.retry = Some(ms);
            },
            None => {},
        }
    }
}

proof fn lemma_split_lines_step(line: Seq<char>, rest: Seq<char>)
    requires
        forall|j: int| 0 <= j < line.len() ==> line[j] != '\n',
        rest.len() > 0,
        rest[0] == '\n',
    ensures
        split_lines(line + rest) == seq![line] + split_lines(rest.skip(1)),
{
    let s = line + rest;
    assert(s[line.len() as int] == '\n');
    assert forall|j: int| 0 <= j < line.len() implies s[j] != '\n' by {
        assert(s[j] == line[j]);
    }
    lemma_first_index_exact(s, '\n', line.len() as int);
    assert(s.take(line.len() as int) =~= line);
    assert(s.skip(line.len() as int + 1) =~= rest.skip(1));
}

proof fn lemma_split_lines_last(line: Seq<char>)
    requires
        forall|j: int| 0 <= j < line.len() ==> line[j] != '\n',
    ensures
        split_lines(line) == (if line.len() == 0 { Seq::<Seq<char>>::empty() } else { seq![line] }),
{
    if line.len() > 0 {
        lemma_first_index_none(line, '\n');
    }
}

/// Parses a raw SSE chunk into the messages it carries.
pub fn parse_sse_chunk(chunk: &str) -> (r: Vec<SSEMessage>)
    ensures
        messages_view(r@) == sse_parse(chunk@),
{
    let chars = chars_of(chunk);
    let mut st = SseExec {
        messages: Vec::new(),
        event: None,
        data: Vec::new(),
        id: None,
        retry: None,
    };
    assert(st.state().messages =~= Seq::<SSEMessageView>::empty());
    assert(st.state().data =~= Seq::<Seq<char>>::empty());
    let mut line: Vec<char> = Vec::new();
    let mut i: usize = 0;
    assert(line@ + chars@.skip(0) =~= chunk@);
    while i < chars.len()
        invariant
            i <= chars@.len(),
            chars@ == chunk@,
            forall|j: int| 0 <= j < line@.len() ==> line@[j] != '\n',
            sse_lines(st.state(), split_lines(line@ + chars@.skip(i as int))) == sse_lines(
                sse_initial(),
                split_lines(chunk@),
            ),
        decreases chars@.len() - i,
    {
        let c = chars[i];
        if c == '\n' {
            proof {
                lemma_split_lines_step(line@, chars@.skip(i as int));
                assert(chars@.skip(i as int).skip(1) =~= chars@.skip(i + 1));
                let ls = seq![line@] + split_lines(chars@.skip(i + 1));
                assert(ls[0] == line@);
                assert(ls.skip(1) =~= split_lines(chars@.skip(i + 1)));
                assert(Seq::<char>::empty() + chars@.skip(i + 1) =~= chars@.skip(i + 1));
            }
            process_line(&mut st, &line);
            line = Vec::new();
        } else {
            let ghost prev = line@;
            line.push(c);
            assert(line@ + chars@.skip(i + 1) =~= prev + chars@.skip(i as int)) by {
                assert(chars@.skip(i as int) =~= seq![c] + chars@.skip(i + 1));
            }
        }
        i = i + 1;
    }
    proof {
        assert(line@ + chars@.skip(i as int) =~= line@);
        lemma_split_lines_last(line@);
    }
    let ghost total = sse_lines(sse_initial(), split_lines(chunk@));
    if line.len() > 0 {
        proof {
            let ls = seq![line@];
            assert(ls.skip(1) =~= Seq::<Seq<char>>::empty());
            assert(sse_lines(st.state(), ls) == sse_lines(sse_line(st.state(), line@), ls.skip(1)));
        }
        process_line(&mut st, &line);
    } else {
        assert(sse_lines(st.state(), Seq::<Seq<char>>::empty()) == st.state());
    }
    assert(st.state() == total);
    if st.data.len() > 0 || st.event.is_some() {
        dispatch(&mut st);
    }
    st.messages
}


/// `s` with each line feed written as a carriage return and a line feed.
pub open spec fn crlf(s: Seq<char>) -> Seq<char>
    decreases s.len(),
{
    if s.len() == 0 {
        Seq::empty()
    } else if s[0] == '\n' {
        seq!['\r', '\n'] + crlf(s.skip(1))
    } else {
        seq![s[0]] + crlf(s.skip(1))
    }
}

proof fn lemma_crlf_concat(a: Seq<char>, b: Seq<char>)
    ensures
        crlf(a + b) == crlf(a) + crlf(b),
    decreases a.len(),
{
    if a.len() == 0 {
        assert(a + b =~= b);
        assert(crlf(a) + crlf(b) =~= crlf(b));
    } else {
        lemma_crlf_concat(a.skip(1), b);
        assert((a + b).skip(1) =~= a.skip(1) + b);
        assert((a + b)[0] == a[0]);
        if a[0] == '\n' {
            assert(crlf(a + b) =~= seq!['\r', '\n'] + (crlf(a.skip(1)) + crlf(b)));
        } else {
            assert(crlf(a + b) =~= seq![a[0]] + (crlf(a.skip(1)) + crlf(b)));
        }
    }
}

proof fn lemma_crlf_no_line_feed(a: Seq<char>)
    requires
        forall|j: int| 0 <= j < a.len() ==> a[j] != '\n',
    ensures
        crlf(a) == a,
    decreases a.len(),
{
    if a.len() > 0 {
        assert forall|j: int| 0 <= j < a.skip(1).len() implies a.skip(1)[j] != '\n' by {
            assert(a.skip(1)[j] == a[j + 1]);
        }
        lemma_crlf_no_line_feed(a.skip(1));
        assert(seq![a[0]] + a.skip(1) =~= a);
    }
}

/// Written with CRLF, a chunk has the same lines, each the same once its
/// trailing carriage returns are dropped.
proof fn lemma_split_crlf(s: Seq<char>)
    ensures
        split_lines(crlf(s)).len() == split_lines(s).len(),
        forall|i: int| 0 <= i < split_lines(s).len() ==> trim_trailing_cr(#[trigger] split_lines(crlf(s))[i]) == trim_trailing_cr(split_lines(s)[i]),
    decreases s.len(),
{
    lemma_first_index_of(s, '\n');
    match first_index_of(s, '\n') {
        None => {
            lemma_crlf_no_line_feed(s);
        },
        Some(p) => {
            let line = s.take(p);
            let rest = s.skip(p + 1);
            assert(s =~= line + (seq!['\n'] + rest));
            lemma_crlf_concat(line, seq!['\n'] + rest);
            assert((seq!['\n'] + rest)[0] == '\n');
            assert((seq!['\n'] + rest).skip(1) =~= rest);
            lemma_crlf_no_line_feed(line);
            let l2 = line.push('\r');
            let tail = seq!['\n'] + crlf(rest);
            assert(crlf(s) =~= l2 + tail);
            assert forall|j: int| 0 <= j < l2.len() implies l2[j] != '\n' by {
                if j < line.len() {
                    assert(l2[j] == s[j]);
                }
            }
            lemma_split_lines_step(l2, tail);
            assert(tail.skip(1) =~= crlf(rest));
            lemma_split_crlf(rest);
            assert(l2.drop_last() =~= line);
            assert(trim_trailing_cr(l2) == trim_trailing_cr(line));
            let a = split_lines(crlf(s));
            let b = split_lines(s);
            assert(b == seq![line] + split_lines(rest));
            assert(a == seq![l2] + split_lines(crlf(rest)));
            assert forall|i: int| 0 <= i < b.len() implies trim_trailing_cr(#[trigger] a[i]) == trim_trailing_cr(b[i]) by {
                if i > 0 {
                    assert(a[i] == split_lines(crlf(rest))[i - 1]);
                    assert(b[i] == split_lines(rest)[i - 1]);
                }
            }
        },
    }
}

/// Lines that are the same once trailing carriage returns are dropped take the
/// parser to the same state.
proof fn lemma_sse_lines_trim(st: SseState, a: Seq<Seq<char>>, b: Seq<Seq<char>>)
    requires
        a.len() == b.len(),
        forall|i: int| 0 <= i < a.len() ==> trim_trailing_cr(#[trigger] a[i]) == trim_trailing_cr(b[i]),
    ensures
        sse_lines(st, a) == sse_lines(st, b),
    decreases a.len(),
{
    if a.len() > 0 {
        assert(trim_trailing_cr(a[0]) == trim_trailing_cr(b[0]));
        assert(sse_line(st, a[0]) == sse_line(st, b[0]));
        lemma_sse_lines_trim(sse_line(st, a[0]), a.skip(1), b.skip(1));
    }
}

/// A chunk written with CRLF line endings gives the same messages as with LF.
pub proof fn law_sse_crlf(chunk: Seq<char>)
    ensures
        sse_parse(crlf(chunk)) == sse_parse(chunk),
{
    lemma_split_crlf(chunk);
    lemma_sse_lines_trim(sse_initial(), split_lines(crlf(chunk)), split_lines(chunk));
}

/// A chunk that is empty or ends in a line feed splits apart from what follows.
proof fn lemma_split_append(a: Seq<char>, x: Seq<char>)
    requires
        a.len() == 0 || a.last() == '\n',
    ensures
        split_lines(a + x) == split_lines(a) + split_lines(x),
    decreases a.len(),
{
    if a.len() == 0 {
        assert(a + x =~= x);
        assert(split_lines(a) + split_lines(x) =~= split_lines(x));
    } else {
        lemma_first_index_of(a, '\n');
        let p = first_index_of(a, '\n')->0;
        assert(a[a.len() - 1] == '\n');
        let ax = a + x;
        assert forall|j: int| 0 <= j < p implies ax[j] != '\n' by {
            assert(ax[j] == a[j]);
        }
        assert(ax[p] == a[p]);
        lemma_first_index_exact(ax, '\n', p);
        assert(ax.take(p) =~= a.take(p));
        assert(ax.skip(p + 1) =~= a.skip(p + 1) + x);
        let r = a.skip(p + 1);
        if r.len() > 0 {
            assert(r.last() == a.last());
        }
        lemma_split_append(r, x);
        assert(split_lines(ax) =~= split_lines(a) + split_lines(x));
    }
}

proof fn lemma_sse_lines_append(st: SseState, a: Seq<Seq<char>>, b: Seq<Seq<char>>)
    ensures
        sse_lines(st, a + b) == sse_lines(sse_lines(st, a), b),
    decreases a.len(),
{
    if a.len() == 0 {
        assert(a + b =~= b);
    } else {
        assert((a + b)[0] == a[0]);
        assert((a + b).skip(1) =~= a.skip(1) + b);
        lemma_sse_lines_append(sse_line(st, a[0]), a.skip(1), b);
    }
}

proof fn lemma_trim_keeps_first(s: Seq<char>)
    requires
        s.len() > 0,
        s[0] != '\r',
    ensures
        trim_trailing_cr(s).len() > 0,
        trim_trailing_cr(s)[0] == s[0],
    decreases s.len(),
{
    if s.last() == '\r' {
        assert(s.len() > 1);
        assert(s.drop_last()[0] == s[0]);
        lemma_trim_keeps_first(s.drop_last());
    }
}

/// A comment line (one that starts with `:`) put before any line of a chunk
/// changes none of its messages.
pub proof fn law_sse_comment(before: Seq<char>, comment: Seq<char>, after: Seq<char>)
    requires
        before.len() == 0 || before.last() == '\n',
        comment.len() > 0,
        comment[0] == ':',
        forall|j: int| 0 <= j < comment.len() ==> comment[j] != '\n',
    ensures
        sse_parse(before + comment + seq!['\n'] + after) == sse_parse(before + after),
{
    let tail = seq!['\n'] + after;
    assert(before + comment + seq!['\n'] + after =~= before + (comment + tail));
    lemma_split_append(before, comment + tail);
    lemma_split_append(before, after);
    assert(tail[0] == '\n');
    lemma_split_lines_step(comment, tail);
    assert(tail.skip(1) =~= after);
    let la = split_lines(before);
    let lb = split_lines(after);
    lemma_trim_keeps_first(comment);
    let st = sse_lines(sse_initial(), la);
    assert(sse_line(st, comment) == st);
    let one = seq![comment];
    assert(one.skip(1) =~= Seq::<Seq<char>>::empty());
    assert(one[0] == comment);
    assert(sse_lines(sse_line(st, comment), one.skip(1)) == st);
    assert(sse_lines(st, one) == st);
    assert(la + (one + lb) =~= (la + one) + lb);
    lemma_sse_lines_append(sse_initial(), la + one, lb);
    lemma_sse_lines_append(sse_initial(), la, one);
    lemma_sse_lines_append(sse_initial(), la, lb);
}

/// Whether no line of `lines` is blank once trailing carriage returns are dropped.
pub open spec fn no_blank_line(lines: Seq<Seq<char>>) -> bool {
    forall|i: int| 0 <= i < lines.len() ==> trim_trailing_cr(#[trigger] lines[i]).len() > 0
}

proof fn lemma_sse_lines_keep_messages(st: SseState, lines: Seq<Seq<char>>)
    requires
        no_blank_line(lines),
    ensures
        sse_lines(st, lines).messages == st.messages,
    decreases lines.len(),
{
    if lines.len() > 0 {
        assert(trim_trailing_cr(lines[0]).len() > 0);
        assert(sse_line(st, lines[0]).messages == st.messages);
        assert forall|i: int| 0 <= i < lines.skip(1).len() implies trim_trailing_cr(#[trigger] lines.skip(1)[i]).len() > 0 by {
            assert(lines.skip(1)[i] == lines[i + 1]);
        }
        lemma_sse_lines_keep_messages(sse_line(st, lines[0]), lines.skip(1));
    }
}

/// A block of lines with no blank line among them gives one message if it holds
/// a data or event field, and none otherwise.
pub proof fn law_sse_block_single(block: Seq<char>)
    requires
        no_blank_line(split_lines(block)),
    ensures
        sse_parse(block).len() == (if sse_pending(sse_lines(sse_initial(), split_lines(block))) { 1int } else { 0int }),
{
    lemma_sse_lines_keep_messages(sse_initial(), split_lines(block));
}

/// The state `st` with `m` put before its messages.
pub open spec fn with_earlier(st: SseState, m: Seq<SSEMessageView>) -> SseState {
    SseState { messages: m + st.messages, ..st }
}

proof fn lemma_sse_lines_earlier(st: SseState, m: Seq<SSEMessageView>, lines: Seq<Seq<char>>)
    ensures
        sse_lines(with_earlier(st, m), lines) == with_earlier(sse_lines(st, lines), m),
    decreases lines.len(),
{
    if lines.len() > 0 {
        let n = sse_line(st, lines[0]);
        if sse_pending(st) {
            assert((m + st.messages).push(SSEMessageView {
                event: st.event,
                data: join_with(st.data, seq!['\n']),
                id: st.id,
                retry: st.retry,
            }) =~= m + st.messages.push(SSEMessageView {
                event: st.event,
                data: join_with(st.data, seq!['\n']),
                id: st.id,
                retry: st.retry,
            }));
        }
        assert(sse_line(with_earlier(st, m), lines[0]) == with_earlier(n, m));
        lemma_sse_lines_earlier(n, m, lines.skip(1));
    } else {
        assert(sse_lines(with_earlier(st, m), lines) == with_earlier(st, m));
    }
}

/// A blank line ends a block: where the part before it leaves no id or retry
/// waiting without a message, the messages of the whole are those of the part
/// before, then those of the part after.
pub proof fn law_sse_blocks(before: Seq<char>, after: Seq<char>)
    requires
        before.len() == 0 || before.last() == '\n',
        ({
            let st = sse_lines(sse_initial(), split_lines(before));
            sse_pending(st) || (st.id is None && st.retry is None)
        }),
    ensures
        sse_parse(before + seq!['\n'] + after) == sse_parse(before) + sse_parse(after),
{
    let tail = seq!['\n'] + after;
    assert(before + seq!['\n'] + after =~= before + tail);
    lemma_split_append(before, tail);
    let empty_line = Seq::<char>::empty();
    assert(tail =~= empty_line + tail);
    lemma_split_lines_step(empty_line, tail);
    assert(tail.skip(1) =~= after);
    let la = split_lines(before);
    let lb = split_lines(after);
    let one = seq![empty_line];
    assert(split_lines(tail) == one + lb);
    assert(la + (one + lb) =~= (la + one) + lb);
    lemma_sse_lines_append(sse_initial(), la + one, lb);
    lemma_sse_lines_append(sse_initial(), la, one);
    let st = sse_lines(sse_initial(), la);
    assert(one[0] == empty_line);
    assert(one.skip(1) =~= Seq::<Seq<char>>::empty());
    assert(trim_trailing_cr(empty_line) == empty_line);
    let s1 = sse_line(st, empty_line);
    assert(sse_lines(st, one) == sse_lines(s1, one.skip(1)));
    assert(sse_lines(st, one) == s1);
    let ma = sse_parse(before);
    assert(s1.data =~= Seq::<Seq<char>>::empty());
    assert(s1 == with_earlier(sse_initial(), ma)) by {
        assert(ma + Seq::<SSEMessageView>::empty() =~= ma);
    }
    lemma_sse_lines_earlier(sse_initial(), ma, lb);
    let sb = sse_lines(sse_initial(), lb);
    if sse_pending(sb) {
        assert((ma + sb.messages).push(SSEMessageView {
            event: sb.event,
            data: join_with(sb.data, seq!['\n']),
            id: sb.id,
            retry: sb.retry,
        }) =~= ma + sb.messages.push(SSEMessageView {
            event: sb.event,
            data: join_with(sb.data, seq!['\n']),
            id: sb.id,
            retry: sb.retry,
        }));
    }
}

/// Whether a line that is not blank (trailing carriage returns dropped) is a
/// data or event field: `data` alone, or `data:` or `event:` with a value.
pub open spec fn payload_line(line: Seq<char>) -> bool {
    line[0] != ':' && match first_index_of(line, ':') {
        Some(p) => line.take(p) == "data"@ || line.take(p) == "event"@,
        None => line == "data"@,
    }
}

/// The number of blocks of `lines` (runs of lines that are not blank) that
/// hold a data or event field; `open` tells whether the block in progress
/// already holds one.
pub open spec fn payload_blocks(lines: Seq<Seq<char>>, open: bool) -> nat
    decreases lines.len(),
{
    if lines.len() == 0 {
        if open { 1 } else { 0 }
    } else {
        let l = trim_trailing_cr(lines[0]);
        if l.len() == 0 {
            (if open { 1nat } else { 0nat }) + payload_blocks(lines.skip(1), false)
        } else {
            payload_blocks(lines.skip(1), open || payload_line(l))
        }
    }
}

proof fn lemma_sse_line_pending(st: SseState, raw: Seq<char>)
    requires
        trim_trailing_cr(raw).len() > 0,
    ensures
        sse_line(st, raw).messages == st.messages,
        sse_pending(sse_line(st, raw)) == (sse_pending(st) || payload_line(trim_trailing_cr(raw))),
{
    let line = trim_trailing_cr(raw);
    reveal_strlit("data");
    reveal_strlit("event");
    reveal_strlit("id");
    reveal_strlit("retry");
    if line[0] != ':' {
        match first_index_of(line, ':') {
            Some(p) => {
                let field = line.take(p);
                assert("data"@.len() == 4 && "event"@.len() == 5);
                if field == "data"@ {
                    assert(field.len() != "event"@.len());
                }
            },
            None => {},
        }
    }
}

proof fn lemma_sse_lines_count(st: SseState, lines: Seq<Seq<char>>)
    ensures
        sse_lines(st, lines).messages.len() + (if sse_pending(sse_lines(st, lines)) { 1int } else { 0int })
            == st.messages.len() + payload_blocks(lines, sse_pending(st)),
    decreases lines.len(),
{
    if lines.len() > 0 {
        let l = trim_trailing_cr(lines[0]);
        let n = sse_line(st, lines[0]);
        if l.len() == 0 {
            assert(!sse_pending(n));
            assert(n.messages.len() == st.messages.len() + (if sse_pending(st) { 1int } else { 0int }));
        } else {
            lemma_sse_line_pending(st, lines[0]);
        }
        lemma_sse_lines_count(n, lines.skip(1));
    }
}

/// A chunk gives one message for each block of lines that holds a data or
/// event field, and no other.
pub proof fn law_sse_one_message_per_block(chunk: Seq<char>)
    ensures
        sse_parse(chunk).len() == payload_blocks(split_lines(chunk), false),
{
    lemma_sse_lines_count(sse_initial(), split_lines(chunk));
}

/// The value of a `data:` line is everything after its first colon, one
/// leading space dropped, whatever colons the value holds itself: a chunk of
/// `data: ` and a value without line breaks, then a blank line, is exactly one
/// message whose data is that value, with no event, id or retry.
pub proof fn law_sse_data_value(v: Seq<char>)
    requires
        forall|j: int| 0 <= j < v.len() ==> v[j] != '\n' && v[j] != '\r',
    ensures
        sse_parse("data: "@ + v + "\n\n"@) == seq![SSEMessageView { event: None, data: v, id: None, retry: None }],
{
    reveal_strlit("data: ");
    reveal_strlit("data");
    reveal_strlit("event");
    reveal_strlit("\n\n");
    let prefix = "data: "@;
    let line = prefix + v;
    let nl = seq!['\n'];
    let empty = Seq::<char>::empty();
    assert("data: "@ + v + "\n\n"@ =~= line + (nl + nl));
    assert forall|j: int| 0 <= j < line.len() implies line[j] != '\n' by {
        if j >= 6 {
            assert(line[j] == v[j - 6]);
        }
    }
    lemma_split_lines_step(line, nl + nl);
    assert((nl + nl).skip(1) =~= nl);
    assert(empty + nl =~= nl);
    lemma_split_lines_step(empty, nl);
    assert(nl.skip(1) =~= empty);
    let lines = split_lines(line + (nl + nl));
    assert(lines =~= seq![line, empty]);
    // the data line
    if v.len() > 0 {
        assert(line.last() == v[v.len() - 1]);
    }
    assert(line.last() != '\r');
    assert(trim_trailing_cr(line) == line);
    assert(line[0] == 'd');
    assert(line[4] == ':');
    lemma_first_index_exact(line, ':', 4);
    assert(line.take(4) =~= "data"@);
    assert(line.skip(5)[0] == ' ');
    assert(line.skip(5).skip(1) =~= v);
    assert("data"@.len() != "event"@.len());
    let s0 = sse_initial();
    let s1 = sse_line(s0, line);
    assert(s1.data =~= seq![v]);
    assert(s1.event is None && s1.id is None && s1.retry is None && s1.messages.len() == 0);
    // the blank line
    assert(trim_trailing_cr(empty) == empty);
    let s2 = sse_line(s1, empty);
    let msg = SSEMessageView { event: None, data: v, id: None, retry: None };
    assert(join_with(seq![v], seq!['\n']) == v);
    assert(s2.messages =~= seq![msg]);
    assert(!sse_pending(s2));
    assert(lines.skip(1) =~= seq![empty]);
    assert(seq![empty].skip(1) =~= Seq::<Seq<char>>::empty());
    assert(sse_lines(s2, Seq::<Seq<char>>::empty()) == s2);
    assert(sse_lines(s1, seq![empty]) == s2);
    assert(sse_lines(s0, lines) == s2);
}

/// A line `field:value` (the field not empty and free of colons, the line not
/// ending in a carriage return) is split at its first colon: the value, one
/// leading space dropped and every later colon kept, goes to the field it
/// names, `retry` taking it only as a number, and any other field is ignored.
pub proof fn law_sse_field_line(st: SseState, field: Seq<char>, value: Seq<char>)
    requires
        field.len() > 0,
        forall|j: int| 0 <= j < field.len() ==> field[j] != ':',
        value.len() == 0 || value.last() != '\r',
    ensures
        ({
            let line = field + seq![':'] + value;
            let val = strip_one_space(value);
            &&& field == "data"@ ==> sse_line(st, line) == SseState { data: st.data.push(val), ..st }
            &&& field == "event"@ ==> sse_line(st, line) == SseState { event: Some(val), ..st }
            &&& field == "id"@ ==> sse_line(st, line) == SseState { id: Some(val), ..st }
            &&& field == "retry"@ ==> sse_line(st, line) == (match parse_u64_spec(val) {
                Some(ms) => SseState { retry: Some(ms), ..st },
                None => st,
            })
            &&& (field != "data"@ && field != "event"@ && field != "id"@ && field != "retry"@) ==> sse_line(st, line) == st
        }),
{
    let line = field + seq![':'] + value;
    let n = field.len() as int;
    if value.len() > 0 {
        assert(line.last() == value.last());
    } else {
        assert(line.last() == ':');
    }
    assert(trim_trailing_cr(line) == line);
    assert(line[0] == field[0]);
    assert(line[n] == ':');
    assert forall|j: int| 0 <= j < n implies line[j] != ':' by {
        assert(line[j] == field[j]);
    }
    lemma_first_index_exact(line, ':', n);
    assert(line.take(n) =~= field);
    assert(line.skip(n + 1) =~= value);
    reveal_strlit("data");
    reveal_strlit("event");
    reveal_strlit("id");
    reveal_strlit("retry");
    assert("data"@.len() == 4 && "event"@.len() == 5 && "id"@.len() == 2 && "retry"@.len() == 5);
    assert("event"@[0] != "retry"@[0]);
}

} // verus!
