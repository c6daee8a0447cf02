//! Grouping token labels of a named-entity model into entity spans.
//!
//! A model labels each token with a BIOES tag (`B-` begins an entity, `I-`
//! continues it, `E-` ends it, `S-` is a one-token entity, `O` is outside any
//! entity). [`aggregate_spans`] groups the tokens into spans, and
//! [`entity_texts`] cuts each span's text out of the document by its byte offsets,
//! trims it, and drops spans with no text. Averaging the tokens' confidences (a
//! float) is left to the caller.
use vstd::prelude::*;
use crate::text::{chars_of, has_prefix, matches_at_exec, str_eq, string_of, substring_of, trim, trim_exec};
use vstd::utf8::{encode_scalar, encode_utf8};

verus! {

/// The position of a token in an entity.
#[derive(Debug, Clone, Copy, PartialEq, Eq, Structural)]
pub enum Tag {
    Outside,
    Single,
    Begin,
    Inside,
    End,
}

/// The tag and entity type of a label such as `B-PER`; `O` has an empty type.
pub open spec fn bio_label(l: Seq<char>) -> Option<(Tag, Seq<char>)> {
    if l == "O"@ {
        Some((Tag::Outside, Seq::empty()))
    } else if has_prefix(l, "B-"@) {
        Some((Tag::Begin, l.skip(2)))
    } else if has_prefix(l, "I-"@) {
        Some((Tag::Inside, l.skip(2)))
    } else if has_prefix(l, "E-"@) {
        Some((Tag::End, l.skip(2)))
    } else if has_prefix(l, "S-"@) {
        Some((Tag::Single, l.skip(2)))
    } else {
        None
    }
}

/// Reads a BIOES label.
pub fn parse_bio_label(label: &str) -> (r: Option<(Tag, String)>)
    ensures
        match r {
            Some((tag, ty)) => bio_label(label@) == Some((tag, ty@)),
            None => bio_label(label@) is None,
        },
{
    if str_eq(label, "O") {
        return Some((Tag::Outside, String::new()));
    }
    let v = chars_of(label);
    let b = chars_of("B-");
    let i = chars_of("I-");
    let e = chars_of("E-");
    let s = chars_of("S-");
    proof {
        reveal_strlit("B-");
        reveal_strlit("I-");
        reveal_strlit("E-");
        reveal_strlit("S-");
    }
    let tag = if matches_at_exec(&v, &b, 0) {
        Tag::Begin
    } else if matches_at_exec(&v, &i, 0) {
        Tag::Inside
    } else if matches_at_exec(&v, &e, 0) {
        Tag::End
    } else if matches_at_exec(&v, &s, 0) {
        Tag::Single
    } else {
        return None;
    };
    let ty = substring_of(&v, 2, v.len());
    assert(ty@ =~= label@.skip(2));
    Some((tag, ty))
}

/// A labelled token: its byte range in the text, its label, and whether it is a
/// special token of the tokenizer.
#[derive(Debug, Clone)]
pub struct TokenLabel {
    pub start: usize,
    pub end: usize,
    pub label: String,
    pub is_special: bool,
}

/// A candidate entity: its type, byte range, and the indices of its tokens.
#[derive(Debug, Clone)]
pub struct EntitySpan {
    pub entity_type: String,
    pub start: usize,
    pub end: usize,
    pub tokens: Vec<usize>,
}

/// A span as values: type, start, end and token indices.
pub type SpanView = (Seq<char>, nat, nat, Seq<usize>);

impl View for EntitySpan {
    type V = SpanView;

    open spec fn view(&self) -> SpanView {
        (self.entity_type@, self.start as nat, self.end as nat, self.tokens@)
    }
}

/// The spans found so far and the span being built.
pub type SpanState = (Seq<SpanView>, Option<SpanView>);

/// Closing the span being built.
pub open spec fn finalize(st: SpanState) -> Seq<SpanView> {
    match st.1 {
        Some(a) => st.0.push(a),
        None => st.0,
    }
}

/// Reading token `i`.
pub open spec fn span_step(st: SpanState, i: usize, t: TokenLabel) -> SpanState {
    let parsed = bio_label(t.label@);
    let fresh: SpanView = (
        match parsed {
            Some(p) => p.1,
            None => Seq::empty(),
        },
        t.start as nat,
        t.end as nat,
        seq![i],
    );
    if t.is_special || t.start >= t.end || parsed is None {
        (finalize(st), None)
    } else {
        let (tag, ty) = parsed->0;
        match tag {
            Tag::Outside => (finalize(st), None),
            Tag::Single => (finalize(st).push(fresh), None),
            Tag::Begin => (finalize(st), Some(fresh)),
            Tag::Inside => match st.1 {
                Some(a) => if a.0 == ty {
                    (st.0, Some((a.0, a.1, if t.end as nat > a.2 { t.end as nat } else { a.2 }, a.3.push(i))))
                } else {
                    (finalize(st), Some(fresh))
                },
                None => (finalize(st), Some(fresh)),
            },
            Tag::End => match st.1 {
                Some(a) => if a.0 == ty {
                    (st.0.push((a.0, a.1, if t.end as nat > a.2 { t.end as nat } else { a.2 }, a.3.push(i))), None)
                } else {
                    (finalize(st).push(fresh), None)
                },
                None => (finalize(st).push(fresh), None),
            },
        }
    }
}

/// The state after reading the first `n` tokens.
pub open spec fn spans_upto(ts: Seq<TokenLabel>, n: nat) -> SpanState
    decreases n,
{
    if n == 0 || n > ts.len() {
        (Seq::empty(), None)
    } else {
        span_step(spans_upto(ts, (n - 1) as nat), (n - 1) as usize, ts[n - 1])
    }
}

/// The entity spans of a labelled token sequence, in order.
pub open spec fn entity_spans(ts: Seq<TokenLabel>) -> Seq<SpanView> {
    finalize(spans_upto(ts, ts.len()))
}

/// A span covers a non-empty byte range and holds tokens in increasing order,
/// each read before position `n`.
pub open spec fn span_wf(sp: SpanView, n: nat) -> bool {
    &&& sp.1 < sp.2
    &&& sp.3.len() > 0
    &&& forall|a: int, b: int| 0 <= a < b < sp.3.len() ==> sp.3[a] < sp.3[b]
    &&& forall|a: int| 0 <= a < sp.3.len() ==> sp.3[a] < n
}

/// Span `x` holds only tokens that come before every token of span `y`.
pub open spec fn span_before(x: SpanView, y: SpanView) -> bool {
    x.3.last() < y.3[0]
}

/// Well-formed spans in token order.
pub open spec fn spans_ordered(done: Seq<SpanView>, n: nat) -> bool {
    &&& forall|k: int| 0 <= k < done.len() ==> span_wf(#[trigger] done[k], n)
    &&& forall|a: int, b: int| 0 <= a < b < done.len() ==> span_before(#[trigger] done[a], #[trigger] done[b])
}

/// A well-formed state after reading `n` tokens.
pub open spec fn state_wf(st: SpanState, n: nat) -> bool {
    &&& spans_ordered(st.0, n)
    &&& st.1 matches Some(a) ==> span_wf(a, n) && forall|k: int| 0 <= k < st.0.len() ==> span_before(
        #[trigger] st.0[k],
        a,
    )
}

proof fn lemma_wf_grow(st: SpanState, n: nat)
    requires
        state_wf(st, n),
    ensures
        state_wf(st, n + 1),
{
    assert forall|k: int| 0 <= k < st.0.len() implies span_wf(#[trigger] st.0[k], n + 1) by {
        assert(span_wf(st.0[k], n));
    }
}

proof fn lemma_finalize_ordered(st: SpanState, n: nat)
    requires
        state_wf(st, n),
    ensures
        spans_ordered(finalize(st), n),
{
    if let Some(a) = st.1 {
        let d = st.0.push(a);
        assert forall|k: int| 0 <= k < d.len() implies span_wf(#[trigger] d[k], n) by {
            if k < st.0.len() {
                assert(d[k] == st.0[k]);
            }
        }
        assert forall|x: int, y: int| 0 <= x < y < d.len() implies span_before(#[trigger] d[x], #[trigger] d[y]) by {
            assert(d[x] == st.0[x]);
            if y < st.0.len() {
                assert(d[y] == st.0[y]);
            }
        }
    }
}

/// Pushing a span whose tokens all come after those of `done`.
proof fn lemma_push_ordered(done: Seq<SpanView>, sp: SpanView, n: nat)
    requires
        spans_ordered(done, n),
        span_wf(sp, n),
        forall|k: int| 0 <= k < done.len() ==> span_before(#[trigger] done[k], sp),
    ensures
        spans_ordered(done.push(sp), n),
{
    let d = done.push(sp);
    assert forall|k: int| 0 <= k < d.len() implies span_wf(#[trigger] d[k], n) by {
        if k < done.len() {
            assert(d[k] == done[k]);
        }
    }
    assert forall|x: int, y: int| 0 <= x < y < d.len() implies span_before(#[trigger] d[x], #[trigger] d[y]) by {
        assert(d[x] == done[x]);
        if y < done.len() {
            assert(d[y] == done[y]);
        }
    }
}

/// Every span of `done` ends before token `n`.
proof fn lemma_all_before_fresh(done: Seq<SpanView>, n: nat, fresh: SpanView)
    requires
        spans_ordered(done, n),
        fresh.3.len() > 0,
        fresh.3[0] >= n,
    ensures
        forall|k: int| 0 <= k < done.len() ==> span_before(#[trigger] done[k], fresh),
{
    assert forall|k: int| 0 <= k < done.len() implies span_before(#[trigger] done[k], fresh) by {
        assert(span_wf(done[k], n));
        assert(done[k].3[done[k].3.len() - 1] < n);
    }
}

#[verifier::rlimit(40)]
proof fn lemma_step_wf(st: SpanState, i: usize, t: TokenLabel)
    requires
        state_wf(st, i as nat),
    ensures
        state_wf(span_step(st, i, t), (i + 1) as nat),
{
    let n = i as nat;
    lemma_wf_grow(st, n);
    lemma_finalize_ordered(st, n);
    lemma_finalize_ordered(st, n + 1);
    let parsed = bio_label(t.label@);
    let fresh: SpanView = (
        match parsed {
            Some(p) => p.1,
            None => Seq::empty(),
        },
        t.start as nat,
        t.end as nat,
        seq![i],
    );
    let fin = finalize(st);
    if !(t.is_special || t.start >= t.end || parsed is None) {
        assert(span_wf(fresh, n + 1));
        lemma_all_before_fresh(fin, n, fresh);
        let (tag, ty) = parsed->0;
        if let Some(a) = st.1 {
            let ext: SpanView = (a.0, a.1, if t.end as nat > a.2 { t.end as nat } else { a.2 }, a.3.push(i));
            assert(span_wf(a, n));
            assert(span_wf(ext, n + 1)) by {
                assert forall|x: int, y: int| 0 <= x < y < ext.3.len() implies ext.3[x] < ext.3[y] by {
                    if y == a.3.len() {
                        assert(a.3[x] < n);
                    }
                }
            }
            assert forall|k: int| 0 <= k < st.0.len() implies span_before(#[trigger] st.0[k], ext) by {
                assert(span_before(st.0[k], a));
                assert(ext.3[0] == a.3[0]);
            }
            match tag {
                Tag::End => {
                    if a.0 == ty {
                        lemma_push_ordered(st.0, ext, n + 1);
                    } else {
                        lemma_push_ordered(fin, fresh, n + 1);
                    }
                },
                Tag::Single => {
                    lemma_push_ordered(fin, fresh, n + 1);
                },
                _ => {},
            }
        } else {
            match tag {
                Tag::End => {
                    lemma_push_ordered(fin, fresh, n + 1);
                },
                Tag::Single => {
                    lemma_push_ordered(fin, fresh, n + 1);
                },
                _ => {},
            }
        }
    }
}

proof fn lemma_upto_wf(ts: Seq<TokenLabel>, n: nat)
    requires
        n <= ts.len() <= usize::MAX,
    ensures
        state_wf(spans_upto(ts, n), n),
    decreases n,
{
    if n > 0 {
        lemma_upto_wf(ts, (n - 1) as nat);
        lemma_step_wf(spans_upto(ts, (n - 1) as nat), (n - 1) as usize, ts[n - 1]);
    }
}

/// Law: the entity spans cover non-empty byte ranges, each holds its tokens in
/// increasing order, and the spans come in token order without sharing a token:
/// every token of a span precedes every token of the spans after it.
pub proof fn law_spans_ordered(ts: Seq<TokenLabel>)
    requires
        ts.len() <= usize::MAX,
    ensures
        spans_ordered(entity_spans(ts), ts.len()),
{
    lemma_upto_wf(ts, ts.len());
    lemma_finalize_ordered(spans_upto(ts, ts.len()), ts.len());
}

/// The spans `v` as values.
pub open spec fn spans_view(v: Seq<EntitySpan>) -> Seq<SpanView> {
    v.map_values(|s: EntitySpan| s@)
}

/// The optional span being built, as values.
pub open spec fn opt_span_view(o: Option<EntitySpan>) -> Option<SpanView> {
    match o {
        Some(s) => Some(s@),
        None => None,
    }
}

fn close_span(done: &mut Vec<EntitySpan>, cur: &mut Option<EntitySpan>)
    ensures
        spans_view(final(done)@) == finalize((spans_view(old(done)@), opt_span_view(*old(cur)))),
        *final(cur) is None,
{
    let taken = cur.take();
    match taken {
        Some(a) => {
            done.push(a);
            assert(spans_view(done@) =~= spans_view(old(done)@).push(a@));
        },
        None => {},
    }
}

/// Groups labelled tokens into entity spans.
pub fn aggregate_spans(tokens: &Vec<TokenLabel>) -> (r: Vec<EntitySpan>)
    ensures
        spans_view(r@) == entity_spans(tokens@),
{
    let mut done: Vec<EntitySpan> = Vec::new();
    let mut cur: Option<EntitySpan> = None;
    let mut i: usize = 0;
    assert(spans_view(done@) =~= Seq::<SpanView>::empty());
    while i < tokens.len()
        invariant
            i <= tokens@.len(),
            (spans_view(done@), opt_span_view(cur)) == spans_upto(tokens@, i as nat),
        decreases tokens.len() - i,
    {
        let t = &tokens[i];
        let parsed = parse_bio_label(t.label.as_str());
        let ghost before: SpanState = (spans_view(done@), opt_span_view(cur));
        proof {
            assert(spans_upto(tokens@, (i + 1) as nat) == span_step(before, i, tokens@[i as int]));
        }
        if t.is_special || t.start >= t.end || parsed.is_none() {
            close_span(&mut done, &mut cur);
        } else {
            let (tag, ty) = parsed.unwrap();
            let fresh = EntitySpan { entity_type: ty.clone(), start: t.start, end: t.end, tokens: vec![i] };
            assert(fresh.tokens@ =~= seq![i]);
            match tag {
                Tag::Outside => {
                    close_span(&mut done, &mut cur);
                },
                Tag::Single => {
                    close_span(&mut done, &mut cur);
                    let ghost mid = spans_view(done@);
                    done.push(fresh);
                    assert(spans_view(done@) =~= mid.push(fresh@));
                },
                Tag::Begin => {
                    close_span(&mut done, &mut cur);
                    cur = Some(fresh);
                },
                Tag::Inside => {
                    let same = match &cur {
                        Some(a) => str_eq(a.entity_type.as_str(), ty.as_str()),
                        None => false,
                    };
                    if same {
                        let mut a = cur.take().unwrap();
                        if t.end > a.end {
                            a.end = t.end;
                        }
                        a.tokens.push(i);
                        cur = Some(a);
                    } else {
                        close_span(&mut done, &mut cur);
                        cur = Some(fresh);
                    }
                },
                Tag::End => {
                    let same = match &cur {
                        Some(a) => str_eq(a.entity_type.as_str(), ty.as_str()),
                        None => false,
                    };
                    if same {
                        let mut a = cur.take().unwrap();
                        if t.end > a.end {
                            a.end = t.end;
                        }
                        a.tokens.push(i);
                        let ghost mid = spans_view(done@);
                        done.push(a);
                        assert(spans_view(done@) =~= mid.push(a@));
                    } else {
                        close_span(&mut done, &mut cur);
                        let ghost mid = spans_view(done@);
                        done.push(fresh);
                        assert(spans_view(done@) =~= mid.push(fresh@));
                    }
                },
            }
        }
        i = i + 1;
    }
    close_span(&mut done, &mut cur);
    done
}

/// Name for the matches, in order, of the regular expression
/// `\b[A-Z][a-z]+(?:\s+[A-Z][a-z]+)*\b` (capitalized words and phrases) in a text,
/// as the `regex` crate finds them.
pub uninterp spec fn capitalized_phrases(text: Seq<char>) -> Seq<Seq<char>>;

/// Name for the text of the first `<body>` element of a page (its text nodes
/// joined), as `scraper` parses the page; empty when there is none.
pub uninterp spec fn html_body_text(html: Seq<char>) -> Seq<char>;

/// Finds capitalized words and phrases with `regex::Regex::find_iter`. Claimed:
/// the result is `capitalized_phrases` of the text.
#[verifier::external_body]
fn find_capitalized(text: &str) -> (r: Vec<String>)
    ensures
        r@.map_values(|s: String| s@) == capitalized_phrases(text@),
{
    let re = regex::Regex::new(r"\b[A-Z][a-z]+(?:\s+[A-Z][a-z]+)*\b").expect("the pattern is valid");
    re.find_iter(text).map(|m| m.as_str().to_string()).collect()
}

/// Parses `html` with `scraper::Html::parse_document` and joins the text nodes of
/// its first `body` element. Claimed: the result is `html_body_text` of the page.
#[verifier::external_body]
fn body_text(html: &str) -> (r: String)
    ensures
        r@ == html_body_text(html@),
{
    let doc = scraper::Html::parse_document(html);
    let Ok(sel) = scraper::Selector::parse("body") else { return String::new() };
    doc.select(&sel).next().map(|b| b.text().collect::<String>()).unwrap_or_default()
}

/// The entities that the pattern fallback finds in a text: its capitalized words
/// and phrases.
pub fn extract_entities_regex(text: &str) -> (r: Vec<String>)
    ensures
        r@.map_values(|s: String| s@) == capitalized_phrases(text@),
{
    find_capitalized(text)
}

/// The entities of a page's body text, found by the pattern fallback.
pub fn annotate_html(html: &str) -> (r: Vec<String>)
    ensures
        r@.map_values(|s: String| s@) == capitalized_phrases(html_body_text(html@)),
{
    let text = body_text(html);
    find_capitalized(text.as_str())
}

// ------------------------------------------------------------ entity texts

/// The number of bytes of the UTF-8 encoding of the first `k` characters of `s`
/// (for a `&str`, a prefix of its `spec_bytes`).
pub open spec fn prefix_bytes(s: Seq<char>, k: int) -> nat {
    encode_utf8(s.take(k)).len()
}

/// The first character position at or after `k` where the encoding of `s` has
/// had exactly `b` bytes: a character boundary at byte `b`.
pub open spec fn boundary_from(s: Seq<char>, b: nat, k: int) -> Option<int>
    decreases s.len() + 1 - k,
{
    if k < 0 || k > s.len() {
        None
    } else if prefix_bytes(s, k) == b {
        Some(k)
    } else {
        boundary_from(s, b, k + 1)
    }
}

/// The characters between the bytes `start` and `end` of the encoding of `s`,
/// when both are character boundaries and `start <= end` (what `str::get` gives).
pub open spec fn byte_range_text(s: Seq<char>, start: nat, end: nat) -> Option<Seq<char>> {
    match (boundary_from(s, start, 0), boundary_from(s, end, 0)) {
        (Some(a), Some(b)) => if a <= b {
            Some(s.subrange(a, b))
        } else {
            None
        },
        _ => None,
    }
}

/// The trimmed text of a span, when it has one that is not blank.
pub open spec fn span_text(s: Seq<char>, sp: SpanView) -> Option<Seq<char>> {
    match byte_range_text(s, sp.1, sp.2) {
        Some(t) => if trim(t).len() > 0 {
            Some(trim(t))
        } else {
            None
        },
        None => None,
    }
}

/// An entity of a text: its type, its trimmed text, and the tokens it was read from.
pub type EntityTextView = (Seq<char>, Seq<char>, Seq<usize>);

/// The entities of the text `s` that the spans give, in order: one for each span
/// whose byte range is a range of characters holding more than whitespace.
pub open spec fn entities_of(s: Seq<char>, spans: Seq<SpanView>) -> Seq<EntityTextView>
    decreases spans.len(),
{
    if spans.len() == 0 {
        Seq::empty()
    } else {
        let rest = entities_of(s, spans.drop_last());
        let sp = spans.last();
        match span_text(s, sp) {
            Some(t) => rest.push((sp.0, t, sp.3)),
            None => rest,
        }
    }
}

/// An entity found in a text.
#[derive(Debug, Clone)]
pub struct EntityText {
    pub entity_type: String,
    pub text: String,
    /// The positions of the tokens it was read from.
    pub tokens: Vec<usize>,
}

impl View for EntityText {
    type V = EntityTextView;

    open spec fn view(&self) -> EntityTextView {
        (self.entity_type@, self.text@, self.tokens@)
    }
}

/// Encoding one more character adds the bytes of its encoding.
proof fn lemma_encode_push(t: Seq<char>, c: char)
    ensures
        encode_utf8(t.push(c)).len() == encode_utf8(t).len() + encode_scalar(c as u32).len(),
    decreases t.len(),
{
    if t.len() == 0 {
        assert(t.push(c).drop_first() =~= Seq::<char>::empty());
        assert(encode_utf8(Seq::<char>::empty()).len() == 0);
    } else {
        assert(t.push(c).drop_first() =~= t.drop_first().push(c));
        lemma_encode_push(t.drop_first(), c);
    }
}

/// The number of bytes of the UTF-8 encoding of a character.
fn utf8_width(c: char) -> (r: u128)
    ensures
        r == encode_scalar(c as u32).len(),
        r <= 4,
{
    let v = c as u32;
    proof {
        vstd::utf8::char_is_scalar(c);
    }
    if v <= 0x7F {
        1
    } else if v <= 0x7FF {
        2
    } else if v <= 0xFFFF {
        3
    } else {
        4
    }
}

/// The character position of `s` at which its encoding has had `b` bytes, if any.
fn boundary_at(v: &Vec<char>, b: usize) -> (r: Option<usize>)
    ensures
        match r {
            Some(k) => boundary_from(v@, b as nat, 0) == Some(k as int),
            None => boundary_from(v@, b as nat, 0) is None,
        },
        r matches Some(k) ==> k <= v@.len(),
{
    let mut k: usize = 0;
    let mut off: u128 = 0;
    assert(v@.take(0) =~= Seq::<char>::empty());
    loop
        invariant
            k <= v@.len(),
            off == prefix_bytes(v@, k as int),
            off <= 4 * k,
            boundary_from(v@, b as nat, 0) == boundary_from(v@, b as nat, k as int),
        decreases v@.len() - k,
    {
        if off == b as u128 {
            return Some(k);
        }
        if k == v.len() {
            assert(boundary_from(v@, b as nat, (k + 1) as int) is None);
            return None;
        }
        let w = utf8_width(v[k]);
        proof {
            assert(v@.take(k + 1) =~= v@.take(k as int).push(v@[k as int]));
            lemma_encode_push(v@.take(k as int), v@[k as int]);
        }
        off = off + w;
        k = k + 1;
    }
}

/// The entities of `text` that `spans` give: for each span in order, its type, the
/// text between its byte offsets (into the UTF-8 encoding of `text`) trimmed, and
/// its tokens; a span whose offsets are not character boundaries of `text`, or
/// whose text is blank, gives none.
pub fn entity_texts(text: &str, spans: &Vec<EntitySpan>) -> (r: Vec<EntityText>)
    ensures
        r@.map_values(|e: EntityText| e@) == entities_of(text@, spans_view(spans@)),
{
    let v = chars_of(text);
    let mut out: Vec<EntityText> = Vec::new();
    let mut i: usize = 0;
    while i < spans.len()
        invariant
            i <= spans@.len(),
            v@ == text@,
            out@.map_values(|e: EntityText| e@) == entities_of(text@, spans_view(spans@.take(i as int))),
        decreases spans.len() - i,
    {
        let sp = &spans[i];
        proof {
            assert(spans_view(spans@.take(i + 1)).drop_last() =~= spans_view(spans@.take(i as int)));
            assert(spans_view(spans@.take(i + 1)).last() == sp@);
        }
        match (boundary_at(&v, sp.start), boundary_at(&v, sp.end)) {
            (Some(a), Some(b)) => {
                if a <= b {
                    let piece = chars_of(substring_of(&v, a, b).as_str());
                    let t = trim_exec(&piece);
                    if t.len() > 0 {
                        let mut tokens: Vec<usize> = Vec::new();
                        let mut j: usize = 0;
                        while j < sp.tokens.len()
                            invariant
                                j <= sp.tokens@.len(),
                                tokens@ == sp.tokens@.take(j as int),
                            decreases sp.tokens.len() - j,
                        {
                            tokens.push(sp.tokens[j]);
                            assert(sp.tokens@.take(j + 1) =~= sp.tokens@.take(j as int).push(sp.tokens@[j as int]));
                            j = j + 1;
                        }
                        assert(sp.tokens@.take(sp.tokens@.len() as int) =~= sp.tokens@);
                        let e = EntityText { entity_type: sp.entity_type.clone(), text: string_of(t.as_slice()), tokens };
                        out.push(e);
                        assert(out@.map_values(|e: EntityText| e@) =~= entities_of(text@, spans_view(spans@.take(i as int))).push(
                            (sp@.0, trim(v@.subrange(a as int, b as int)), sp@.3),
                        ));
                    }
                }
            },
            _ => {},
        }
        i = i + 1;
    }
    assert(spans@.take(spans@.len() as int) =~= spans@);
    out
}

} // verus!
