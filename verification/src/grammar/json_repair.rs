//! Repair of incomplete JSON text, so that a prefix of a streamed document can be
//! parsed.

use vstd::prelude::*;
use crate::grammar::sse::opt_string_view;
use crate::text::{chars_of, is_white_space, push_char, string_from_chars, trim, trim_end, trim_end_vec, trim_start, trimmed_chars};

verus! {

/// Whether `serde_json` parses `text` as a JSON value.
pub uninterp spec fn json_parses(text: Seq<char>) -> bool;

/// What `serde_json::to_string` gives for the string `text` (a quoted, escaped
/// JSON string literal), or `None` where it reports an error.
pub uninterp spec fn json_string_encoding(text: Seq<char>) -> Option<Seq<char>>;

/// Calls `serde_json::from_str::<serde_json::Value>` and reports whether it
/// succeeded. Besides naming the answer, it claims what the parser plainly
/// gives: `null`, `{}`, `[]` and `""` parse, and empty text does not.
#[verifier::external_body]
fn json_text_is_valid(text: &str) -> (r: bool)
    ensures
        r == json_parses(text@),
        (text@ == "null"@ || text@ == "{}"@ || text@ == "[]"@ || text@ == "\"\""@) ==> r,
        text@.len() == 0 ==> !r,
{
    serde_json::from_str::<serde_json::Value>(text).is_ok()
}

/// Calls `serde_json::to_string` on a string slice. Besides naming the
/// result, it claims what the serializer writes: a string literal between
/// double quotes, which the parser accepts.
#[verifier::external_body]
fn encode_json_string(text: &str) -> (r: Option<String>)
    ensures
        opt_string_view(r) == json_string_encoding(text@),
        r matches Some(q) ==> json_parses(q@) && q@.len() >= 2 && q@[0] == '"' && q@.last() == '"',
{
    serde_json::to_string(text).ok()
}

/// The scanner's state: output so far, whether inside a string literal, whether
/// the previous character inside a string was a backslash, and the closing
/// brackets still owed (innermost last).
pub struct ScanState {
    pub out: Seq<char>,
    pub in_string: bool,
    pub escape: bool,
    pub stack: Seq<char>,
}

/// Processes one character.
pub open spec fn scan_step(st: ScanState, ch: char) -> ScanState {
    if st.in_string {
        if st.escape {
            ScanState { out: st.out.push(ch), escape: false, ..st }
        } else if ch == '\\' {
            ScanState { out: st.out.push(ch), escape: true, ..st }
        } else if ch == '"' {
            ScanState { out: st.out.push(ch), in_string: false, ..st }
        } else {
            ScanState { out: st.out.push(ch), ..st }
        }
    } else if ch == '"' {
        ScanState { out: st.out.push(ch), in_string: true, ..st }
    } else if ch == '{' {
        ScanState { out: st.out.push(ch), stack: st.stack.push('}'), ..st }
    } else if ch == '[' {
        ScanState { out: st.out.push(ch), stack: st.stack.push(']'), ..st }
    } else if (ch == '}' || ch == ']') && st.stack.len() > 0 && st.stack.last() == ch {
        ScanState { out: st.out.push(ch), stack: st.stack.drop_last(), ..st }
    } else {
        ScanState { out: st.out.push(ch), ..st }
    }
}

/// The scanner's state after all of `s`.
pub open spec fn scan(s: Seq<char>) -> ScanState
    decreases s.len(),
{
    if s.len() == 0 {
        ScanState { out: Seq::empty(), in_string: false, escape: false, stack: Seq::empty() }
    } else {
        scan_step(scan(s.drop_last()), s.last())
    }
}

/// The output with an unterminated string literal closed (a dangling backslash
/// dropped first).
pub open spec fn close_string(st: ScanState) -> Seq<char> {
    if st.in_string {
        (if st.escape { st.out.drop_last() } else { st.out }).push('"')
    } else {
        st.out
    }
}

/// Drops trailing commas (with the white space before them) and completes a
/// dangling `key:` with ` null`.
pub open spec fn strip_separators(t: Seq<char>) -> Seq<char>
    decreases t.len(),
{
    if t.len() > 0 && t.last() == ',' {
        proof {
            crate::text::lemma_trim_end_len(t.drop_last());
        }
        strip_separators(trim_end(t.drop_last()))
    } else if t.len() > 0 && t.last() == ':' {
        t + " null"@
    } else {
        t
    }
}

/// The closing brackets owed by `stack`, innermost first.
pub open spec fn closing(stack: Seq<char>) -> Seq<char>
    decreases stack.len(),
{
    if stack.len() == 0 {
        Seq::empty()
    } else {
        seq![stack.last()] + closing(stack.drop_last())
    }
}

/// The repaired text before it is checked: strings closed, trailing separators
/// dropped, brackets balanced.
pub open spec fn repair_candidate_spec(text: Seq<char>) -> Seq<char> {
    let st = scan(text);
    strip_separators(trim_end(close_string(st))) + closing(st.stack)
}

/// The result once it is known whether the candidate parses: the candidate if it
/// does, otherwise an empty object or array by the text's first character,
/// otherwise the text as a JSON string literal.
pub open spec fn finalize_repair_spec(
    text: Seq<char>,
    candidate: Seq<char>,
    candidate_valid: bool,
    quoted: Option<Seq<char>>,
) -> Seq<char> {
    if candidate_valid {
        candidate
    } else if text.len() > 0 && text[0] == '{' {
        "{}"@
    } else if text.len() > 0 && text[0] == '[' {
        "[]"@
    } else {
        match quoted {
            Some(q) => q,
            None => "\"\""@,
        }
    }
}

/// The full repair of `input`.
pub open spec fn repair_partial_json_spec(input: Seq<char>) -> Seq<char> {
    let text = trim(input);
    if text.len() == 0 {
        "null"@
    } else if json_parses(text) {
        text
    } else {
        let candidate = repair_candidate_spec(text);
        finalize_repair_spec(text, candidate, json_parses(candidate), json_string_encoding(text))
    }
}

/// Closes strings, drops trailing separators and balances the brackets of `text`.
pub fn repair_candidate(text: &str) -> (r: String)
    ensures
        r@ == repair_candidate_spec(text@),
{
    let chars = chars_of(text);
    let mut out: Vec<char> = Vec::new();
    let mut in_string = false;
    let mut escape = false;
    let mut stack: Vec<char> = Vec::new();
    let mut i: usize = 0;
    assert(chars@.take(0) =~= Seq::<char>::empty());
    while i < chars.len()
        invariant
            i <= chars@.len(),
            chars@ == text@,
            scan(chars@.take(i as int)) == (ScanState {
                out: out@,
                in_string,
                escape,
                stack: stack@,
            }),
        decreases chars@.len() - i,
    {
        let ch = chars[i];
        assert(chars@.take(i + 1).drop_last() =~= chars@.take(i as int));
        assert(chars@.take(i + 1).last() == ch);
        if in_string {
            out.push(ch);
            if escape {
                escape = false;
            } else if ch == '\\' {
                escape = true;
            } else if ch == '"' {
                in_string = false;
            }
        } else if ch == '"' {
            in_string = true;
            out.push(ch);
        } else if ch == '{' {
            stack.push('}');
            out.push(ch);
        } else if ch == '[' {
            stack.push(']');
            out.push(ch);
        } else if ch == '}' || ch == ']' {
            if stack.len() > 0 && stack[stack.len() - 1] == ch {
                stack.pop();
            }
            out.push(ch);
        } else {
            out.push(ch);
        }
        i = i + 1;
    }
    assert(chars@.take(chars@.len() as int) =~= chars@);
    let ghost st = scan(text@);
    if in_string {
        if escape {
            out.pop();
        }
        out.push('"');
    }
    assert(out@ == close_string(st));
    trim_end_vec(&mut out);
    let ghost base = trim_end(close_string(st));
    loop
        invariant_except_break
            strip_separators(out@) == strip_separators(base),
        ensures
            out@ == strip_separators(base),
        decreases out@.len(),
    {
        let n = out.len();
        if n > 0 && out[n - 1] == ',' {
            let ghost before = out@;
            out.pop();
            assert(out@ =~= before.drop_last());
            trim_end_vec(&mut out);
            proof {
                crate::text::lemma_trim_end_len(before.drop_last());
            }
        } else if n > 0 && out[n - 1] == ':' {
            let ghost before = out@;
            out.push(' ');
            out.push('n');
            out.push('u');
            out.push('l');
            out.push('l');
            proof {
                reveal_strlit(" null");
                assert(out@ =~= before + " null"@);
            }
            break;
        } else {
            break;
        }
    }
    let ghost stripped = strip_separators(base);
    let ghost stack0 = stack@;
    while stack.len() > 0
        invariant
            out@ + closing(stack@) == stripped + closing(stack0),
        decreases stack@.len(),
    {
        let ghost before_out = out@;
        let ghost before_stack = stack@;
        let c = stack.pop().unwrap();
        out.push(c);
        assert(stack@ =~= before_stack.drop_last());
        assert(out@ + closing(stack@) =~= before_out + closing(before_stack));
    }
    assert(out@ + closing(stack@) =~= out@);
    string_from_chars(&out)
}

/// Picks the repair result once the candidate has been checked.
pub fn finalize_repair(text: &str, candidate: String, candidate_valid: bool, quoted: Option<String>) -> (r: String)
    ensures
        r@ == finalize_repair_spec(text@, candidate@, candidate_valid, opt_string_view(quoted)),
{
    if candidate_valid {
        return candidate;
    }
    let chars = chars_of(text);
    if chars.len() > 0 && chars[0] == '{' {
        crate::text::owned("{}")
    } else if chars.len() > 0 && chars[0] == '[' {
        crate::text::owned("[]")
    } else {
        match quoted {
            Some(q) => q,
            None => crate::text::owned("\"\""),
        }
    }
}

/// Repairs an incomplete JSON text so that it parses: closes an open string,
/// drops trailing commas, completes a dangling key with `null` and closes open
/// arrays and objects; falls back to `{}`, `[]` or a JSON string literal.
pub fn repair_partial_json(input: &str) -> (r: String)
    ensures
        r@ == repair_partial_json_spec(input@),
{
    let text_chars = trimmed_chars(input);
    let text = string_from_chars(&text_chars);
    if text_chars.len() == 0 {
        return crate::text::owned("null");
    }
    if json_text_is_valid(text.as_str()) {
        return text;
    }
    let candidate = repair_candidate(text.as_str());
    let valid = json_text_is_valid(candidate.as_str());
    let quoted = encode_json_string(text.as_str());
    finalize_repair(text.as_str(), candidate, valid, quoted)
}


proof fn lemma_trim_end_shape(s: Seq<char>)
    ensures
        trim_end(s).len() <= s.len(),
        trim_end(s) == s.take(trim_end(s).len() as int),
        trim_end(s).len() == 0 || !is_white_space(trim_end(s).last()),
    decreases s.len(),
{
    if s.len() > 0 && is_white_space(s.last()) {
        lemma_trim_end_shape(s.drop_last());
        assert(s.drop_last().take(trim_end(s).len() as int) =~= s.take(trim_end(s).len() as int));
    } else {
        assert(s.take(s.len() as int) =~= s);
    }
}

proof fn lemma_trim_start_shape(s: Seq<char>)
    ensures
        trim_start(s).len() == 0 || !is_white_space(trim_start(s)[0]),
    decreases s.len(),
{
    if s.len() > 0 && is_white_space(s[0]) {
        lemma_trim_start_shape(s.skip(1));
    }
}

/// Trimmed text stays as it is when trimmed again.
proof fn lemma_trim_idempotent(s: Seq<char>)
    ensures
        trim(trim(s)) == trim(s),
{
    let u = trim_start(s);
    let t = trim_end(u);
    lemma_trim_start_shape(s);
    lemma_trim_end_shape(u);
    lemma_trim_end_shape(t);
    if t.len() > 0 {
        assert(t[0] == u[0]);
        assert(trim_start(t) == t);
    } else {
        assert(trim_start(t) == t);
    }
    if t.len() > 0 {
        assert(!is_white_space(t.last()));
    }
    assert(trim_end(t) == t);
}

/// Text whose trimmed form is already valid JSON is repaired to that trimmed
/// form, and repairing the result again gives it back unchanged.
pub proof fn law_repair_valid_is_stable(input: Seq<char>)
    requires
        trim(input).len() > 0,
        json_parses(trim(input)),
    ensures
        repair_partial_json_spec(input) == trim(input),
        repair_partial_json_spec(repair_partial_json_spec(input)) == repair_partial_json_spec(input),
{
    lemma_trim_idempotent(input);
}

/// The answers of `serde_json` that the repair relies on, as the two calls
/// above claim them: `null`, `{}`, `[]` and `""` parse, empty text does not,
/// and an encoded string is a quoted literal that parses.
pub open spec fn serde_json_answers() -> bool {
    &&& json_parses("null"@)
    &&& json_parses("{}"@)
    &&& json_parses("[]"@)
    &&& json_parses("\"\""@)
    &&& !json_parses(Seq::<char>::empty())
    &&& forall|t: Seq<char>| (#[trigger] json_string_encoding(t)) is Some ==> {
        let q = json_string_encoding(t)->0;
        json_parses(q) && q.len() >= 2 && q[0] == '"' && q.last() == '"'
    }
}

/// Text with no white space at either end is its own trim.
proof fn lemma_trim_fixed(s: Seq<char>)
    requires
        s.len() > 0,
        !is_white_space(s[0]),
        !is_white_space(s.last()),
    ensures
        trim(s) == s,
{
}

proof fn lemma_trim_end_keeps_first(s: Seq<char>)
    requires
        s.len() > 0,
        !is_white_space(s[0]),
    ensures
        trim_end(s).len() > 0,
        trim_end(s)[0] == s[0],
    decreases s.len(),
{
    if is_white_space(s.last()) {
        assert(s.len() > 1);
        assert(s.drop_last()[0] == s[0]);
        lemma_trim_end_keeps_first(s.drop_last());
    }
}

/// Trimmed text that is not empty starts and ends with a character other than
/// white space.
proof fn lemma_trim_ends(s: Seq<char>)
    requires
        trim(s).len() > 0,
    ensures
        !is_white_space(trim(s)[0]),
        !is_white_space(trim(s).last()),
{
    let u = trim_start(s);
    lemma_trim_start_shape(s);
    lemma_trim_end_shape(u);
    assert(trim(s)[0] == u[0]);
}

/// The scanner copies its input, owes only closing brackets, and has seen a
/// quote before it is inside a string and a backslash after it.
proof fn lemma_scan(s: Seq<char>)
    ensures
        scan(s).out == s,
        forall|i: int| 0 <= i < scan(s).stack.len() ==> (#[trigger] scan(s).stack[i] == '}' || scan(s).stack[i] == ']'),
        scan(s).in_string ==> scan(s).out.len() >= 1,
        scan(s).escape ==> scan(s).in_string && scan(s).out.len() >= 2,
    decreases s.len(),
{
    if s.len() > 0 {
        lemma_scan(s.drop_last());
        assert(s.drop_last().push(s.last()) =~= s);
        let st = scan(s.drop_last());
        let n = scan(s);
        assert forall|i: int| 0 <= i < n.stack.len() implies (#[trigger] n.stack[i] == '}' || n.stack[i] == ']') by {
            if i < st.stack.len() {
                assert(n.stack[i] == st.stack[i]);
            }
        }
    }
}

/// The closing brackets of a stack of closing brackets.
proof fn lemma_closing(stack: Seq<char>)
    requires
        forall|i: int| 0 <= i < stack.len() ==> (#[trigger] stack[i] == '}' || stack[i] == ']'),
    ensures
        closing(stack).len() == stack.len(),
        forall|i: int| 0 <= i < closing(stack).len() ==> (#[trigger] closing(stack)[i] == '}' || closing(stack)[i] == ']'),
    decreases stack.len(),
{
    if stack.len() > 0 {
        assert forall|i: int| 0 <= i < stack.drop_last().len() implies (#[trigger] stack.drop_last()[i] == '}' || stack.drop_last()[i] == ']') by {
            assert(stack.drop_last()[i] == stack[i]);
        }
        lemma_closing(stack.drop_last());
        let c = closing(stack);
        assert forall|i: int| 0 <= i < c.len() implies (#[trigger] c[i] == '}' || c[i] == ']') by {
            if i == 0 {
                assert(c[0] == stack.last());
                assert(stack.last() == stack[stack.len() - 1]);
            } else {
                assert(c[i] == closing(stack.drop_last())[i - 1]);
            }
        }
    }
}

/// Dropping separators keeps the first character and leaves no white space at
/// the end.
proof fn lemma_strip_ends(t: Seq<char>, c: char)
    requires
        t.len() == 0 || (t[0] == c && !is_white_space(t.last())),
    ensures
        strip_separators(t).len() == 0 || (strip_separators(t)[0] == c && !is_white_space(strip_separators(t).last())),
    decreases t.len(),
{
    if t.len() > 0 && t.last() == ',' {
        let v = trim_end(t.drop_last());
        lemma_trim_end_shape(t.drop_last());
        crate::text::lemma_trim_end_len(t.drop_last());
        if v.len() > 0 {
            assert(v[0] == t.drop_last()[0]);
        }
        lemma_strip_ends(v, c);
    } else if t.len() > 0 && t.last() == ':' {
        reveal_strlit(" null");
        let r = t + " null"@;
        assert(r[0] == t[0]);
        assert(r.last() == 'l');
    }
}

/// A repair candidate that is not empty starts and ends with a character other
/// than white space.
proof fn lemma_candidate_ends(text: Seq<char>)
    requires
        text.len() > 0,
        !is_white_space(text[0]),
        repair_candidate_spec(text).len() > 0,
    ensures
        !is_white_space(repair_candidate_spec(text)[0]),
        !is_white_space(repair_candidate_spec(text).last()),
{
    let st = scan(text);
    lemma_scan(text);
    let cs = close_string(st);
    if st.in_string {
        let base = if st.escape { st.out.drop_last() } else { st.out };
        assert(base.len() >= 1);
        assert(base[0] == text[0]);
        assert(cs[0] == text[0]);
    }
    assert(cs.len() > 0 && cs[0] == text[0]);
    lemma_trim_end_keeps_first(cs);
    lemma_trim_end_shape(cs);
    let u = trim_end(cs);
    lemma_strip_ends(u, text[0]);
    let r = strip_separators(u);
    lemma_closing(st.stack);
    let cl = closing(st.stack);
    let cand = r + cl;
    assert(cand == repair_candidate_spec(text));
    if r.len() > 0 {
        assert(cand[0] == r[0]);
    } else {
        assert(cand[0] == cl[0]);
    }
    if cl.len() > 0 {
        assert(cand.last() == cl[cl.len() - 1]);
    } else {
        assert(cand.last() == r.last());
    }
}

/// Given the answers of `serde_json` above, a repaired text always parses, and
/// text that trims to nothing is repaired to `null`.
pub proof fn law_repair_parses(input: Seq<char>)
    requires
        serde_json_answers(),
    ensures
        json_parses(repair_partial_json_spec(input)),
        trim(input).len() == 0 ==> repair_partial_json_spec(input) == "null"@,
{
    let text = trim(input);
    if text.len() > 0 && !json_parses(text) {
        let q = json_string_encoding(text);
        if q is Some {
            assert(json_parses(q->0));
        }
    }
}

/// Given the answers of `serde_json` above, repairing a repaired text again
/// gives it back unchanged.
pub proof fn law_repair_idempotent(input: Seq<char>)
    requires
        serde_json_answers(),
    ensures
        repair_partial_json_spec(repair_partial_json_spec(input)) == repair_partial_json_spec(input),
{
    law_repair_parses(input);
    let r = repair_partial_json_spec(input);
    let text = trim(input);
    reveal_strlit("null");
    reveal_strlit("{}");
    reveal_strlit("[]");
    reveal_strlit("\"\"");
    if text.len() == 0 {
        lemma_trim_fixed("null"@);
    } else {
        lemma_trim_ends(input);
        if json_parses(text) {
            lemma_trim_idempotent(input);
        } else {
            let candidate = repair_candidate_spec(text);
            if json_parses(candidate) {
                assert(candidate.len() > 0);
                lemma_candidate_ends(text);
                lemma_trim_fixed(candidate);
            } else if text[0] == '{' {
                lemma_trim_fixed("{}"@);
            } else if text[0] == '[' {
                lemma_trim_fixed("[]"@);
            } else {
                let q = json_string_encoding(text);
                if q is Some {
                    let qq = q->0;
                    assert(json_parses(qq) && qq.len() >= 2 && qq[0] == '"' && qq.last() == '"');
                    lemma_trim_fixed(qq);
                } else {
                    lemma_trim_fixed("\"\""@);
                }
            }
        }
    }
}

/// A text that ends outside any string with a key and its colon is repaired by
/// giving that key the value `null` and closing what is still open: the
/// candidate is the text, then ` null`, then the owed closing brackets, so
/// `{"key":` becomes `{"key": null}`; where the text itself does not parse and
/// that candidate does, it is the repair.
pub proof fn law_repair_completes_dangling_key(input: Seq<char>)
    requires
        trim(input).len() > 0,
        trim(input).last() == ':',
        !scan(trim(input)).in_string,
    ensures
        repair_candidate_spec(trim(input)) == trim(input) + " null"@ + closing(scan(trim(input)).stack),
        !json_parses(trim(input)) && json_parses(repair_candidate_spec(trim(input)))
            ==> repair_partial_json_spec(input) == trim(input) + " null"@ + closing(scan(trim(input)).stack),
{
    let text = trim(input);
    lemma_scan(text);
    let st = scan(text);
    assert(close_string(st) == text);
    assert(!is_white_space(':'));
    assert(trim_end(text) == text);
    assert(text.last() != ',');
    assert(strip_separators(text) == text + " null"@);
}

/// The closing brackets owed are those still open, innermost first: the stack
/// read backwards.
pub proof fn law_closing_reverses_stack(stack: Seq<char>)
    ensures
        closing(stack) == stack.reverse(),
    decreases stack.len(),
{
    if stack.len() > 0 {
        law_closing_reverses_stack(stack.drop_last());
        let c = closing(stack);
        let r = stack.reverse();
        assert(c.len() == stack.len());
        assert forall|i: int| 0 <= i < c.len() implies c[i] == r[i] by {
            if i == 0 {
                assert(c[0] == stack.last());
            } else {
                assert(c[i] == closing(stack.drop_last())[i - 1]);
                assert(stack.drop_last().reverse()[i - 1] == stack.drop_last()[stack.len() - 2 - (i - 1)]);
            }
        }
        assert(c =~= r);
    }
}

/// A text that ends inside a string is repaired by closing the string (a
/// dangling backslash dropped first) and then what is still open.
pub proof fn law_repair_closes_open_string(input: Seq<char>)
    requires
        scan(trim(input)).in_string,
    ensures
        !scan(trim(input)).escape ==> repair_candidate_spec(trim(input)) == trim(input) + "\""@ + closing(scan(trim(input)).stack),
        scan(trim(input)).escape ==> repair_candidate_spec(trim(input)) == trim(input).drop_last() + "\""@ + closing(scan(trim(input)).stack),
{
    let text = trim(input);
    lemma_scan(text);
    let st = scan(text);
    reveal_strlit("\"");
    let cs = close_string(st);
    assert(cs.last() == '"');
    assert(!is_white_space('"'));
    assert(trim_end(cs) == cs);
    assert(strip_separators(cs) == cs);
    if st.escape {
        assert(cs =~= text.drop_last() + "\""@);
    } else {
        assert(cs =~= text + "\""@);
    }
}

/// A text that ends outside any string with a trailing comma is repaired by
/// dropping the comma and closing what is still open: `[1, 2,` becomes
/// `[1, 2]`.
pub proof fn law_repair_drops_trailing_comma(input: Seq<char>, body: Seq<char>)
    requires
        trim(input) == body.push(','),
        !scan(trim(input)).in_string,
        body.len() > 0,
        !is_white_space(body.last()),
        body.last() != ',',
        body.last() != ':',
    ensures
        repair_candidate_spec(trim(input)) == body + closing(scan(trim(input)).stack),
{
    let text = trim(input);
    lemma_scan(text);
    let st = scan(text);
    assert(close_string(st) == text);
    assert(!is_white_space(','));
    assert(trim_end(text) == text);
    assert(text.drop_last() =~= body);
    assert(trim_end(body) == body);
    assert(strip_separators(body) == body);
    assert(strip_separators(text) == body);
}

} // verus!
