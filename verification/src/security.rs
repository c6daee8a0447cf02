//! Input validation for HTML documents and SPARQL queries.
use vstd::prelude::*;
use crate::text::{
    chars_of, contains, contains_exec, find_from, find_from_exec, has_prefix, is_alnum,
    is_ascii_alnum, is_whitespace, is_ws, lemma_find_from, lemma_skip_ws_from, lowercased,
    matches_at, matches_at_exec, skip_ws_exec, skip_ws_from, string_of, to_lower, to_upper, trim, trim_exec,
    uppercased,
};

verus! {

/// Largest HTML document accepted, in bytes.
pub const MAX_HTML_BYTES: usize = 10_000_000;

/// Largest SPARQL query accepted, in bytes.
pub const MAX_SPARQL_BYTES: usize = 10_000;

pub open spec fn pat_iframe() -> Seq<char> { seq!['<', 'i', 'f', 'r', 'a', 'm', 'e'] }
pub open spec fn pat_object() -> Seq<char> { seq!['<', 'o', 'b', 'j', 'e', 'c', 't'] }
pub open spec fn pat_embed() -> Seq<char> { seq!['<', 'e', 'm', 'b', 'e', 'd'] }
pub open spec fn pat_script() -> Seq<char> { seq!['<', 's', 'c', 'r', 'i', 'p', 't'] }
pub open spec fn pat_javascript() -> Seq<char> {
    seq!['j', 'a', 'v', 'a', 's', 'c', 'r', 'i', 'p', 't', ':']
}
pub open spec fn pat_onload() -> Seq<char> { seq!['o', 'n', 'l', 'o', 'a', 'd', '='] }
pub open spec fn pat_onerror() -> Seq<char> { seq!['o', 'n', 'e', 'r', 'r', 'o', 'r', '='] }
pub open spec fn pat_eval() -> Seq<char> { seq!['e', 'v', 'a', 'l', '('] }
pub open spec fn pat_gt() -> Seq<char> { seq!['>'] }

/// `application/ld+json`
pub open spec fn ld_json() -> Seq<char> {
    seq!['a', 'p', 'p', 'l', 'i', 'c', 'a', 't', 'i', 'o', 'n', '/', 'l', 'd', '+', 'j', 's', 'o', 'n']
}

/// `type=` followed by the JSON-LD media type, double-quoted, single-quoted or bare.
pub open spec fn ld_type_dq() -> Seq<char> {
    seq!['t', 'y', 'p', 'e', '=', '"'] + ld_json() + seq!['"']
}
pub open spec fn ld_type_sq() -> Seq<char> {
    seq!['t', 'y', 'p', 'e', '=', '\''] + ld_json() + seq!['\'']
}
pub open spec fn ld_type_bare() -> Seq<char> {
    seq!['t', 'y', 'p', 'e', '='] + ld_json()
}

fn vec_iframe() -> (r: Vec<char>) ensures r@ == pat_iframe() {
    let r = vec!['<', 'i', 'f', 'r', 'a', 'm', 'e']; assert(r@ =~= pat_iframe()); r
}
fn vec_object() -> (r: Vec<char>) ensures r@ == pat_object() {
    let r = vec!['<', 'o', 'b', 'j', 'e', 'c', 't']; assert(r@ =~= pat_object()); r
}
fn vec_embed() -> (r: Vec<char>) ensures r@ == pat_embed() {
    let r = vec!['<', 'e', 'm', 'b', 'e', 'd']; assert(r@ =~= pat_embed()); r
}
fn vec_script() -> (r: Vec<char>) ensures r@ == pat_script() {
    let r = vec!['<', 's', 'c', 'r', 'i', 'p', 't']; assert(r@ =~= pat_script()); r
}
fn vec_javascript() -> (r: Vec<char>) ensures r@ == pat_javascript() {
    let r = vec!['j', 'a', 'v', 'a', 's', 'c', 'r', 'i', 'p', 't', ':'];
    assert(r@ =~= pat_javascript());
    r
}
fn vec_onload() -> (r: Vec<char>) ensures r@ == pat_onload() {
    let r = vec!['o', 'n', 'l', 'o', 'a', 'd', '=']; assert(r@ =~= pat_onload()); r
}
fn vec_onerror() -> (r: Vec<char>) ensures r@ == pat_onerror() {
    let r = vec!['o', 'n', 'e', 'r', 'r', 'o', 'r', '=']; assert(r@ =~= pat_onerror()); r
}
fn vec_eval() -> (r: Vec<char>) ensures r@ == pat_eval() {
    let r = vec!['e', 'v', 'a', 'l', '(']; assert(r@ =~= pat_eval()); r
}
fn vec_gt() -> (r: Vec<char>) ensures r@ == pat_gt() {
    let r = vec!['>']; assert(r@ =~= pat_gt()); r
}
fn vec_ld_type(quote: Option<char>) -> (r: Vec<char>)
    requires
        quote matches Some(q) ==> q == '"' || q == '\'',
    ensures
        r@ == match quote {
            Some(q) => if q == '"' { ld_type_dq() } else { ld_type_sq() },
            None => ld_type_bare(),
        },
{
    let mut r = vec!['t', 'y', 'p', 'e', '='];
    if let Some(q) = quote {
        r.push(q);
    }
    let tail = vec!['a', 'p', 'p', 'l', 'i', 'c', 'a', 't', 'i', 'o', 'n', '/', 'l', 'd', '+', 'j', 's', 'o', 'n'];
    let mut r2 = tail;
    let ghost head = r@;
    r.append(&mut r2);
    if let Some(q) = quote {
        r.push(q);
    }
    match quote {
        Some(q) => {
            if q == '"' {
                assert(r@ =~= ld_type_dq());
            } else {
                assert(r@ =~= ld_type_sq());
            }
        },
        None => {
            assert(r@ =~= ld_type_bare());
        },
    }
    r
}

/// The characters of `s` that are not whitespace, in order.
pub open spec fn without_ws(s: Seq<char>) -> Seq<char>
    decreases s.len(),
{
    if s.len() == 0 {
        Seq::empty()
    } else if is_ws(s.last()) {
        without_ws(s.drop_last())
    } else {
        without_ws(s.drop_last()).push(s.last())
    }
}

/// The attributes of a `<script` tag declare the JSON-LD media type.
pub open spec fn is_json_ld_tag(tag: Seq<char>) -> bool {
    let compact = without_ws(tag);
    contains(compact, ld_type_dq()) || contains(compact, ld_type_sq()) || contains(
        compact,
        ld_type_bare(),
    )
}

/// Every `<script` opening tag found from index `pos` on is closed by a `>` and
/// declares the JSON-LD media type. After a tag is checked the search resumes
/// right after its `<script`.
pub open spec fn scripts_json_ld_from(s: Seq<char>, pos: int) -> bool
    decreases s.len() + 1 - pos,
{
    if pos < 0 {
        false
    } else {
        match find_from(s, pat_script(), pos) {
            None => true,
            Some(i) => {
                proof {
                    lemma_find_from(s, pat_script(), pos);
                }
                let after = i + 7;
                match find_from(s, pat_gt(), after) {
                    None => false,
                    Some(e) => {
                        proof {
                            lemma_find_from(s, pat_gt(), after);
                        }
                        is_json_ld_tag(s.subrange(after, e)) && scripts_json_ld_from(s, after)
                    },
                }
            },
        }
    }
}

/// Every `<script` tag of `s` is a JSON-LD data block.
pub open spec fn all_scripts_json_ld(s: Seq<char>) -> bool {
    scripts_json_ld_from(s, 0)
}

/// Why an already lowercased HTML document of `byte_len` bytes is refused, if it is.
pub open spec fn html_rejection(byte_len: nat, lower: Seq<char>) -> Option<HtmlRejection> {
    if byte_len > MAX_HTML_BYTES {
        Some(HtmlRejection::TooLarge)
    } else if contains(lower, pat_iframe()) || contains(lower, pat_object()) || contains(
        lower,
        pat_embed(),
    ) {
        Some(HtmlRejection::EmbedTag)
    } else if !all_scripts_json_ld(lower) {
        Some(HtmlRejection::EmbedTag)
    } else if contains(lower, pat_javascript()) || contains(lower, pat_onload()) || contains(
        lower,
        pat_onerror(),
    ) || contains(lower, pat_eval()) {
        Some(HtmlRejection::DangerousAttribute)
    } else {
        None
    }
}

/// The three reasons for which an HTML document is refused.
pub enum HtmlRejection {
    TooLarge,
    EmbedTag,
    DangerousAttribute,
}

/// The message the validator answers a refusal with.
pub open spec fn html_message(r: HtmlRejection) -> &'static str {
    match r {
        HtmlRejection::TooLarge => "HTML too large",
        HtmlRejection::EmbedTag => "Potentially malicious HTML: script or embed tags detected",
        HtmlRejection::DangerousAttribute => "Potentially malicious HTML: dangerous attributes or functions detected",
    }
}

/// The characters of `v` from `a` to `b` with whitespace removed.
fn compact_range(v: &Vec<char>, a: usize, b: usize) -> (r: Vec<char>)
    requires
        a <= b <= v.len(),
    ensures
        r@ == without_ws(v@.subrange(a as int, b as int)),
{
    let mut r: Vec<char> = Vec::new();
    let mut k = a;
    assert(v@.subrange(a as int, a as int) =~= Seq::<char>::empty());
    while k < b
        invariant
            a <= k <= b <= v.len(),
            r@ == without_ws(v@.subrange(a as int, k as int)),
        decreases b - k,
    {
        let c = v[k];
        assert(v@.subrange(a as int, k + 1).drop_last() =~= v@.subrange(a as int, k as int));
        if !is_whitespace(c) {
            r.push(c);
        }
        k = k + 1;
    }
    r
}

/// Whether every `<script` tag of the (already lowercased) `lower` is a JSON-LD block.
fn all_scripts_are_json_ld(lower: &Vec<char>) -> (r: bool)
    ensures
        r == all_scripts_json_ld(lower@),
{
    let script = vec_script();
    let gt = vec_gt();
    let dq = vec_ld_type(Some('"'));
    let sq = vec_ld_type(Some('\''));
    let bare = vec_ld_type(None);
    let mut pos: usize = 0;
    loop
        invariant
            pos <= lower.len(),
            script@ == pat_script(),
            gt@ == pat_gt(),
            dq@ == ld_type_dq(),
            sq@ == ld_type_sq(),
            bare@ == ld_type_bare(),
            all_scripts_json_ld(lower@) == scripts_json_ld_from(lower@, pos as int),
        decreases lower.len() - pos,
    {
        match find_from_exec(lower, &script, pos) {
            None => {
                return true;
            },
            Some(i) => {
                proof {
                    lemma_find_from(lower@, pat_script(), pos as int);
                }
                let after = i + 7;
                match find_from_exec(lower, &gt, after) {
                    None => {
                        return false;
                    },
                    Some(e) => {
                        proof {
                            lemma_find_from(lower@, pat_gt(), after as int);
                        }
                        let compact = compact_range(lower, after, e);
                        let ok = contains_exec(&compact, &dq) || contains_exec(&compact, &sq)
                            || contains_exec(&compact, &bare);
                        if !ok {
                            return false;
                        }
                        pos = after;
                    },
                }
            },
        }
    }
}

/// The verdict on an HTML document of `byte_len` bytes whose lowercased characters
/// are `lower`.
pub fn validate_lowered_html(byte_len: usize, lower: &str) -> (r: Result<(), &'static str>)
    ensures
        match html_rejection(byte_len as nat, lower@) {
            None => r is Ok,
            Some(why) => r == Err::<(), &'static str>(html_message(why)),
        },
{
    if byte_len > MAX_HTML_BYTES {
        return Err("HTML too large");
    }
    let v = chars_of(lower);
    if contains_exec(&v, &vec_iframe()) || contains_exec(&v, &vec_object()) || contains_exec(
        &v,
        &vec_embed(),
    ) {
        return Err("Potentially malicious HTML: script or embed tags detected");
    }
    if !all_scripts_are_json_ld(&v) {
        return Err("Potentially malicious HTML: script or embed tags detected");
    }
    if contains_exec(&v, &vec_javascript()) || contains_exec(&v, &vec_onload())
        || contains_exec(&v, &vec_onerror()) || contains_exec(&v, &vec_eval()) {
        return Err("Potentially malicious HTML: dangerous attributes or functions detected");
    }
    Ok(())
}

/// Validate HTML input to prevent malicious content.
///
/// The document is refused when it is larger than `MAX_HTML_BYTES` bytes, when its
/// lowercased text holds an `<iframe`, `<object` or `<embed` tag, a `<script` tag
/// that is not a JSON-LD data block, or a `javascript:` URL, an `onload=` or
/// `onerror=` handler or an `eval(` call.
pub fn validate_html_input(html: &str) -> (r: Result<(), &'static str>)
    ensures
        match html_rejection(html.len() as nat, lowercased(html@)) {
            None => r is Ok,
            Some(why) => r == Err::<(), &'static str>(html_message(why)),
        },
{
    let byte_len = html.len();
    if byte_len > MAX_HTML_BYTES {
        return Err("HTML too large");
    }
    let lower = to_lower(html);
    validate_lowered_html(byte_len, lower.as_str())
}

// ---------------------------------------------------------------- SPARQL

/// Index just past the end of the string literal whose body starts at `j` and whose
/// closing quote is `q`; a backslash escapes the next character. An unterminated
/// literal runs to the end of `s`.
pub open spec fn literal_end(s: Seq<char>, j: int, q: char) -> int
    decreases s.len() + 2 - j,
{
    if j < 0 || j >= s.len() {
        s.len() as int
    } else if s[j] == '\\' {
        literal_end(s, j + 2, q)
    } else if s[j] == q {
        j + 1
    } else {
        literal_end(s, j + 1, q)
    }
}

/// Number of characters from `j` on up to (not including) the next `>` or `<`.
pub open spec fn span_len(s: Seq<char>, j: int) -> nat
    decreases s.len() - j,
{
    if j < 0 || j >= s.len() || s[j] == '>' || s[j] == '<' {
        0
    } else {
        1 + span_len(s, j + 1)
    }
}

/// `s.subrange(a, b)` holds a whitespace character.
pub open spec fn has_ws_in(s: Seq<char>, a: int, b: int) -> bool {
    exists|k: int| a <= k < b && is_ws(s[k])
}

pub proof fn lemma_literal_end(s: Seq<char>, j: int, q: char)
    requires
        0 <= j,
    ensures
        j <= s.len() ==> j <= literal_end(s, j, q),
        literal_end(s, j, q) <= s.len(),
    decreases s.len() + 2 - j,
{
    if 0 <= j < s.len() {
        if s[j] == '\\' {
            lemma_literal_end(s, j + 2, q);
        } else if s[j] != q {
            lemma_literal_end(s, j + 1, q);
        }
    }
}

pub proof fn lemma_span_len(s: Seq<char>, j: int)
    requires
        0 <= j <= s.len(),
    ensures
        j + span_len(s, j) <= s.len(),
    decreases s.len() - j,
{
    if j < s.len() && s[j] != '>' && s[j] != '<' {
        lemma_span_len(s, j + 1);
    }
}

/// What the keyword scan sees of `s` from index `i` on: `#` comments are dropped
/// (their closing newline kept), each quoted string literal becomes two spaces, and
/// an IRI `<...>` without whitespace becomes one space together with the character
/// that ends it. Every other character is kept.
pub open spec fn noise_from(s: Seq<char>, i: int) -> Seq<char>
    decreases s.len() + 2 - i,
{
    if i < 0 || i >= s.len() {
        Seq::empty()
    } else if s[i] == '#' {
        match find_from(s, seq!['\n'], i + 1) {
            None => Seq::empty(),
            Some(j) => {
                proof {
                    lemma_find_from(s, seq!['\n'], i + 1);
                }
                seq!['\n'] + noise_from(s, j + 1)
            },
        }
    } else if s[i] == '"' || s[i] == '\'' {
        proof {
            lemma_literal_end(s, i + 1, s[i]);
        }
        seq![' ', ' '] + noise_from(s, literal_end(s, i + 1, s[i]))
    } else if s[i] == '<' {
        let n = span_len(s, i + 1);
        if n > 0 && !has_ws_in(s, i + 1, i + 1 + n) {
            proof {
                lemma_span_len(s, i + 1);
            }
            seq![' '] + noise_from(s, i + 2 + n)
        } else {
            seq!['<'] + noise_from(s, i + 1)
        }
    } else {
        seq![s[i]] + noise_from(s, i + 1)
    }
}

/// `query` with comments, string literals and IRIs blanked out.
pub open spec fn sparql_noise_stripped(s: Seq<char>) -> Seq<char> {
    noise_from(s, 0)
}

/// `t` holds no comment sign and no quote.
pub open spec fn free_of_noise(t: Seq<char>) -> bool {
    forall|k: int| 0 <= k < t.len() ==> t[k] != '#' && t[k] != '"' && t[k] != '\''
}

proof fn lemma_noise_from_free(s: Seq<char>, i: int)
    ensures
        free_of_noise(noise_from(s, i)),
    decreases s.len() + 2 - i,
{
    if i < 0 || i >= s.len() {
    } else if s[i] == '#' {
        lemma_find_from(s, seq!['\n'], i + 1);
        match find_from(s, seq!['\n'], i + 1) {
            None => {},
            Some(j) => {
                lemma_noise_from_free(s, j + 1);
                let a = seq!['\n'];
                let b = noise_from(s, j + 1);
                assert forall|k: int| 0 <= k < (a + b).len() implies (a + b)[k] != '#' && (a + b)[k] != '"' && (a + b)[k] != '\'' by {
                    if k >= 1 {
                        assert((a + b)[k] == b[k - 1]);
                    }
                }
            },
        }
    } else if s[i] == '"' || s[i] == '\'' {
        lemma_literal_end(s, i + 1, s[i]);
        let e = literal_end(s, i + 1, s[i]);
        lemma_noise_from_free(s, e);
        let a = seq![' ', ' '];
        let b = noise_from(s, e);
        assert forall|k: int| 0 <= k < (a + b).len() implies (a + b)[k] != '#' && (a + b)[k] != '"' && (a + b)[k] != '\'' by {
            if k >= 2 {
                assert((a + b)[k] == b[k - 2]);
            }
        }
    } else if s[i] == '<' {
        let n = span_len(s, i + 1);
        if n > 0 && !has_ws_in(s, i + 1, i + 1 + n) {
            lemma_span_len(s, i + 1);
            lemma_noise_from_free(s, i + 2 + n);
            let a = seq![' '];
            let b = noise_from(s, i + 2 + n);
            assert forall|k: int| 0 <= k < (a + b).len() implies (a + b)[k] != '#' && (a + b)[k] != '"' && (a + b)[k] != '\'' by {
                if k >= 1 {
                    assert((a + b)[k] == b[k - 1]);
                }
            }
        } else {
            lemma_noise_from_free(s, i + 1);
            let a = seq!['<'];
            let b = noise_from(s, i + 1);
            assert forall|k: int| 0 <= k < (a + b).len() implies (a + b)[k] != '#' && (a + b)[k] != '"' && (a + b)[k] != '\'' by {
                if k >= 1 {
                    assert((a + b)[k] == b[k - 1]);
                }
            }
        }
    } else {
        lemma_noise_from_free(s, i + 1);
        let a = seq![s[i]];
        let b = noise_from(s, i + 1);
        assert forall|k: int| 0 <= k < (a + b).len() implies (a + b)[k] != '#' && (a + b)[k] != '"' && (a + b)[k] != '\'' by {
            if k >= 1 {
                assert((a + b)[k] == b[k - 1]);
            }
        }
    }
}

/// Law: what the keyword scan sees of a query holds no comment sign and no quote,
/// so no keyword can come from inside a comment's text or a string literal.
pub proof fn law_stripped_query_has_no_comments_or_literals(query: Seq<char>)
    ensures
        free_of_noise(sparql_noise_stripped(query)),
{
    lemma_noise_from_free(query, 0);
}

fn literal_end_exec(v: &Vec<char>, j: usize, q: char) -> (r: usize)
    requires
        q != '\\',
    ensures
        r == literal_end(v@, j as int, q),
{
    let mut k = j;
    while k < v.len() && v[k] != q
        invariant
            j <= k,
            literal_end(v@, j as int, q) == literal_end(v@, k as int, q),
        decreases v.len() - k,
    {
        if v[k] == '\\' {
            if k + 1 >= v.len() {
                assert(literal_end(v@, k + 2, q) == v.len());
                k = v.len();
            } else {
                k = k + 2;
            }
        } else {
            k = k + 1;
        }
    }
    if k >= v.len() {
        v.len()
    } else {
        k + 1
    }
}

fn span_len_exec(v: &Vec<char>, j: usize) -> (r: usize)
    requires
        j <= v.len(),
    ensures
        r == span_len(v@, j as int),
{
    let mut k = j;
    proof {
        lemma_span_len(v@, j as int);
    }
    while k < v.len() && v[k] != '>' && v[k] != '<'
        invariant
            j <= k <= v.len(),
            span_len(v@, j as int) == (k - j) + span_len(v@, k as int),
        decreases v.len() - k,
    {
        k = k + 1;
    }
    k - j
}

fn has_ws_in_exec(v: &Vec<char>, a: usize, b: usize) -> (r: bool)
    requires
        a <= b <= v.len(),
    ensures
        r == has_ws_in(v@, a as int, b as int),
{
    let mut k = a;
    while k < b
        invariant
            a <= k <= b <= v.len(),
            forall|m: int| a <= m < k ==> !is_ws(#[trigger] v@[m]),
        decreases b - k,
    {
        if is_whitespace(v[k]) {
            return true;
        }
        k = k + 1;
    }
    false
}

/// Remove `#` line comments, quoted string literals and IRIs from a SPARQL query,
/// so that keyword scanning sees only structural tokens.
pub fn strip_sparql_noise(query: &str) -> (r: String)
    ensures
        r@ == sparql_noise_stripped(query@),
{
    let v = chars_of(query);
    let newline = vec!['\n'];
    let mut out: Vec<char> = Vec::new();
    let mut i: usize = 0;
    while i < v.len()
        invariant
            i <= v.len(),
            newline@ == seq!['\n'],
            out@ + noise_from(v@, i as int) == noise_from(v@, 0),
        decreases v.len() - i,
    {
        let c = v[i];
        let ghost before = out@;
        if c == '#' {
            proof {
                lemma_find_from(v@, seq!['\n'], i + 1);
            }
            match find_from_exec(&v, &newline, i + 1) {
                None => {
                    assert(out@ + noise_from(v@, v.len() as int) =~= out@ + noise_from(v@, i as int));
                    i = v.len();
                },
                Some(j) => {
                    out.push('\n');
                    assert(out@ + noise_from(v@, j + 1) =~= before + noise_from(v@, i as int));
                    i = j + 1;
                },
            }
        } else if c == '"' || c == '\'' {
            let j = literal_end_exec(&v, i + 1, c);
            proof {
                lemma_literal_end(v@, i + 1, c);
            }
            out.push(' ');
            out.push(' ');
            assert(out@ + noise_from(v@, j as int) =~= before + noise_from(v@, i as int));
            i = j;
        } else if c == '<' {
            let n = span_len_exec(&v, i + 1);
            proof {
                lemma_span_len(v@, i + 1);
            }
            if n > 0 && !has_ws_in_exec(&v, i + 1, i + 1 + n) {
                out.push(' ');
                if i + 1 + n >= v.len() {
                    let ghost nxt: int = i + 2 + n;
                    assert(noise_from(v@, nxt) =~= Seq::<char>::empty());
                    assert(noise_from(v@, v.len() as int) =~= Seq::<char>::empty());
                    assert(out@ + noise_from(v@, v.len() as int) =~= before + noise_from(v@, i as int));
                    i = v.len();
                } else {
                    assert(out@ + noise_from(v@, i + 2 + n) =~= before + noise_from(v@, i as int));
                    i = i + 2 + n;
                }
            } else {
                out.push('<');
                assert(out@ + noise_from(v@, i + 1) =~= before + noise_from(v@, i as int));
                i = i + 1;
            }
        } else {
            out.push(c);
            assert(out@ + noise_from(v@, i + 1) =~= before + noise_from(v@, i as int));
            i = i + 1;
        }
    }
    assert(out@ =~= noise_from(v@, 0));
    string_of(out.as_slice())
}

/// End of the whitespace-free token that starts at `i`.
pub open spec fn token_end(s: Seq<char>, i: int) -> int
    decreases s.len() - i,
{
    if 0 <= i < s.len() && !is_ws(s[i]) {
        token_end(s, i + 1)
    } else {
        i
    }
}

pub proof fn lemma_token_end(s: Seq<char>, i: int)
    requires
        0 <= i <= s.len(),
    ensures
        i <= token_end(s, i) <= s.len(),
        i < s.len() && !is_ws(s[i]) ==> i < token_end(s, i),
    decreases s.len() - i,
{
    if i < s.len() && !is_ws(s[i]) {
        lemma_token_end(s, i + 1);
    }
}

pub open spec fn kw_prefix() -> Seq<char> { seq!['P', 'R', 'E', 'F', 'I', 'X'] }
pub open spec fn kw_base() -> Seq<char> { seq!['B', 'A', 'S', 'E'] }

/// A token of the `PREFIX`/`BASE` prologue: the two keywords, an IRI or a prefix label.
pub open spec fn is_prologue_token(t: Seq<char>) -> bool {
    t == kw_prefix() || t == kw_base() || (t.len() > 0 && (t[0] == '<' || t[0] == '@' || t.last()
        == ':'))
}

/// The first whitespace-separated token of `s` at or after `i` that is not part of
/// the prologue, or the empty sequence when there is none.
pub open spec fn first_op_from(s: Seq<char>, i: int) -> Seq<char>
    decreases s.len() - i,
{
    if i < 0 || i > s.len() {
        Seq::empty()
    } else {
        let a = skip_ws_from(s, i);
        if a >= s.len() {
            Seq::empty()
        } else {
            proof {
                lemma_skip_ws_from(s, i);
                lemma_token_end(s, a);
            }
            let b = token_end(s, a);
            let t = s.subrange(a, b);
            if is_prologue_token(t) {
                first_op_from(s, b)
            } else {
                t
            }
        }
    }
}

/// The SPARQL operations a query may perform.
pub open spec fn allowed_ops() -> Seq<Seq<char>> {
    seq![
        seq!['S', 'E', 'L', 'E', 'C', 'T'],
        seq!['I', 'N', 'S', 'E', 'R', 'T'],
        seq!['D', 'E', 'L', 'E', 'T', 'E'],
        seq!['C', 'O', 'N', 'S', 'T', 'R', 'U', 'C', 'T'],
        seq!['A', 'S', 'K'],
        seq!['D', 'E', 'S', 'C', 'R', 'I', 'B', 'E'],
    ]
}

/// Destructive graph-management keywords.
pub open spec fn danger_words() -> Seq<Seq<char>> {
    seq![seq!['D', 'R', 'O', 'P'], seq!['C', 'L', 'E', 'A', 'R'], seq!['L', 'O', 'A', 'D']]
}

/// `h.subrange(i, j)` is one of the pieces that splitting `h` at every character that
/// is not an ASCII letter or digit yields.
pub open spec fn is_word(h: Seq<char>, i: int, j: int) -> bool {
    &&& 0 <= i <= j <= h.len()
    &&& (i == 0 || !is_alnum(h[i - 1]))
    &&& (j == h.len() || !is_alnum(h[j]))
    &&& forall|k: int| i <= k < j ==> is_alnum(#[trigger] h[k])
}

/// `needle` is a whole word of `h`.
pub open spec fn has_word(h: Seq<char>, needle: Seq<char>) -> bool {
    exists|i: int, j: int| #[trigger] is_word(h, i, j) && h.subrange(i, j) == needle
}

/// Whether `needle` is one of the pieces of `haystack` split at every character
/// that is not an ASCII letter or digit.
pub fn contains_word(h: &Vec<char>, needle: &Vec<char>) -> (r: bool)
    ensures
        r == has_word(h@, needle@),
{
    let mut ws: usize = 0;
    let mut k: usize = 0;
    while k <= h.len()
        invariant
            ws <= k <= h.len() + 1,
            k <= h.len() ==> ws <= k,
            ws <= h.len(),
            ws == 0 || !is_alnum(h@[ws - 1]),
            forall|m: int| ws <= m < k && m < h.len() ==> is_alnum(#[trigger] h@[m]),
            forall|i: int, j: int|
                #![trigger is_word(h@, i, j)]
                is_word(h@, i, j) && j < k ==> h@.subrange(i, j) != needle@,
        decreases h.len() + 1 - k,
    {
        if k == h.len() || !is_ascii_alnum(h[k]) {
            // the piece from `ws` to `k`
            let same = k - ws == needle.len() && matches_at_exec(h, needle, ws);
            if same {
                assert(h@.subrange(ws as int, k as int) =~= needle@);
                assert(is_word(h@, ws as int, k as int));
                return true;
            }
            assert(h@.subrange(ws as int, k as int) != needle@) by {
                if h@.subrange(ws as int, k as int) == needle@ {
                    assert(k - ws == needle.len());
                    assert(matches_at(h@, needle@, ws as int));
                }
            }
            assert forall|i: int, j: int|
                #![trigger is_word(h@, i, j)]
                is_word(h@, i, j) && j < k + 1 implies h@.subrange(i, j) != needle@ by {
                if j == k {
                    if i < ws {
                        assert(is_alnum(h@[ws - 1]));
                    } else if i > ws {
                        assert(is_alnum(h@[i - 1]));
                    }
                }
            }
            if k == h.len() {
                assert forall|i: int, j: int| is_word(h@, i, j) implies h@.subrange(i, j) != needle@ by {
                    assert(j < k + 1);
                }
                return false;
            }
            ws = k + 1;
        }
        k = k + 1;
    }
    false
}

/// Why an already sanitized (noise-stripped, uppercased) SPARQL query is refused.
pub open spec fn sparql_rejection(sanitized: Seq<char>) -> Option<SparqlRejection> {
    let t = trim(sanitized);
    let first = first_op_from(t, 0);
    if !(exists|k: int|
        0 <= k < allowed_ops().len() && (has_prefix(t, #[trigger] allowed_ops()[k]) || first
            == allowed_ops()[k])) {
        Some(SparqlRejection::UnsupportedOperation)
    } else if exists|k: int| 0 <= k < danger_words().len() && has_word(t, #[trigger] danger_words()[k]) {
        Some(SparqlRejection::Dangerous)
    } else {
        None
    }
}

/// Law: the operations a SPARQL query may perform are exactly `SELECT`, `INSERT`,
/// `DELETE`, `CONSTRUCT`, `ASK` and `DESCRIBE`; a query of at most
/// `MAX_SPARQL_BYTES` bytes whose sanitized text (comments, strings and IRIs
/// blanked, uppercased, trimmed) starts with one of them and holds none of the
/// words `DROP`, `CLEAR`, `LOAD` is accepted.
pub proof fn law_allowed_operations_are_accepted(byte_len: nat, q: Seq<char>, op: Seq<char>)
    requires
        byte_len <= MAX_SPARQL_BYTES,
        op == seq!['S', 'E', 'L', 'E', 'C', 'T'] || op == seq!['I', 'N', 'S', 'E', 'R', 'T'] || op == seq![
            'D',
            'E',
            'L',
            'E',
            'T',
            'E',
        ] || op == seq!['C', 'O', 'N', 'S', 'T', 'R', 'U', 'C', 'T'] || op == seq!['A', 'S', 'K'] || op == seq![
            'D',
            'E',
            'S',
            'C',
            'R',
            'I',
            'B',
            'E',
        ],
        has_prefix(trim(uppercased(sparql_noise_stripped(q))), op),
        !has_word(trim(uppercased(sparql_noise_stripped(q))), seq!['D', 'R', 'O', 'P']),
        !has_word(trim(uppercased(sparql_noise_stripped(q))), seq!['C', 'L', 'E', 'A', 'R']),
        !has_word(trim(uppercased(sparql_noise_stripped(q))), seq!['L', 'O', 'A', 'D']),
    ensures
        sparql_query_rejection(byte_len, q) is None,
        allowed_ops().to_set() == set![
            seq!['S', 'E', 'L', 'E', 'C', 'T'],
            seq!['I', 'N', 'S', 'E', 'R', 'T'],
            seq!['D', 'E', 'L', 'E', 'T', 'E'],
            seq!['C', 'O', 'N', 'S', 'T', 'R', 'U', 'C', 'T'],
            seq!['A', 'S', 'K'],
            seq!['D', 'E', 'S', 'C', 'R', 'I', 'B', 'E'],
        ],
{
    let t = trim(uppercased(sparql_noise_stripped(q)));
    let k: int = if op == allowed_ops()[0] {
        0
    } else if op == allowed_ops()[1] {
        1
    } else if op == allowed_ops()[2] {
        2
    } else if op == allowed_ops()[3] {
        3
    } else if op == allowed_ops()[4] {
        4
    } else {
        5
    };
    assert(has_prefix(t, allowed_ops()[k]));
    assert(!(exists|j: int| 0 <= j < danger_words().len() && has_word(t, #[trigger] danger_words()[j])));
    assert(allowed_ops().to_set() =~= set![
        seq!['S', 'E', 'L', 'E', 'C', 'T'],
        seq!['I', 'N', 'S', 'E', 'R', 'T'],
        seq!['D', 'E', 'L', 'E', 'T', 'E'],
        seq!['C', 'O', 'N', 'S', 'T', 'R', 'U', 'C', 'T'],
        seq!['A', 'S', 'K'],
        seq!['D', 'E', 'S', 'C', 'R', 'I', 'B', 'E'],
    ]) by {
        assert forall|x: Seq<char>| allowed_ops().to_set().contains(x) implies set![
            seq!['S', 'E', 'L', 'E', 'C', 'T'],
            seq!['I', 'N', 'S', 'E', 'R', 'T'],
            seq!['D', 'E', 'L', 'E', 'T', 'E'],
            seq!['C', 'O', 'N', 'S', 'T', 'R', 'U', 'C', 'T'],
            seq!['A', 'S', 'K'],
            seq!['D', 'E', 'S', 'C', 'R', 'I', 'B', 'E'],
        ].contains(x) by {
            let j = choose|j: int| 0 <= j < allowed_ops().len() && allowed_ops()[j] == x;
        }
        assert(allowed_ops().contains(allowed_ops()[0]));
        assert(allowed_ops().contains(allowed_ops()[1]));
        assert(allowed_ops().contains(allowed_ops()[2]));
        assert(allowed_ops().contains(allowed_ops()[3]));
        assert(allowed_ops().contains(allowed_ops()[4]));
        assert(allowed_ops().contains(allowed_ops()[5]));
    }
}

/// The reasons for which a SPARQL query is refused.
pub enum SparqlRejection {
    TooLong,
    UnsupportedOperation,
    Dangerous,
}

/// The message the validator answers a refusal with.
pub open spec fn sparql_message(r: SparqlRejection) -> &'static str {
    match r {
        SparqlRejection::TooLong => "Query too long",
        SparqlRejection::UnsupportedOperation => "Unsupported SPARQL operation. Allowed: SELECT, INSERT, DELETE, CONSTRUCT, ASK, DESCRIBE",
        SparqlRejection::Dangerous => "Potentially dangerous SPARQL operation detected",
    }
}

/// Why a SPARQL query of `byte_len` bytes with characters `q` is refused.
pub open spec fn sparql_query_rejection(byte_len: nat, q: Seq<char>) -> Option<SparqlRejection> {
    if byte_len > MAX_SPARQL_BYTES {
        Some(SparqlRejection::TooLong)
    } else {
        sparql_rejection(uppercased(sparql_noise_stripped(q)))
    }
}

fn first_op_exec(t: &Vec<char>) -> (r: Vec<char>)
    ensures
        r@ == first_op_from(t@, 0),
{
    let mut i: usize = 0;
    loop
        invariant
            i <= t.len(),
            first_op_from(t@, 0) == first_op_from(t@, i as int),
        decreases t.len() - i,
    {
        let a = skip_ws_exec(t, i);
        proof {
            lemma_skip_ws_from(t@, i as int);
        }
        if a >= t.len() {
            return Vec::new();
        }
        proof {
            lemma_token_end(t@, a as int);
        }
        let mut b = a;
        while b < t.len() && !is_whitespace(t[b])
            invariant
                a <= b <= t.len(),
                token_end(t@, a as int) == token_end(t@, b as int),
            decreases t.len() - b,
        {
            b = b + 1;
        }
        let mut tok: Vec<char> = Vec::new();
        let mut k = a;
        while k < b
            invariant
                a <= k <= b <= t.len(),
                tok@ == t@.subrange(a as int, k as int),
            decreases b - k,
        {
            tok.push(t[k]);
            assert(t@.subrange(a as int, k + 1) =~= t@.subrange(a as int, k as int).push(t@[k as int]));
            k = k + 1;
        }
        let p = vec!['P', 'R', 'E', 'F', 'I', 'X'];
        let bs = vec!['B', 'A', 'S', 'E'];
        assert(p@ =~= kw_prefix());
        assert(bs@ =~= kw_base());
        let is_kw = (tok.len() == 6 && matches_at_exec(&tok, &p, 0)) || (tok.len() == 4
            && matches_at_exec(&tok, &bs, 0));
        proof {
            if tok@ == kw_prefix() {
                assert(tok@.subrange(0, 6) =~= tok@);
            }
            if tok@ == kw_base() {
                assert(tok@.subrange(0, 4) =~= tok@);
            }
            if tok.len() == 6 && matches_at(tok@, p@, 0) {
                assert(tok@.subrange(0, 6) =~= tok@);
            }
            if tok.len() == 4 && matches_at(tok@, bs@, 0) {
                assert(tok@.subrange(0, 4) =~= tok@);
            }
        }
        if is_kw || tok[0] == '<' || tok[0] == '@' || tok[tok.len() - 1] == ':' {
            i = b;
        } else {
            return tok;
        }
    }
}

fn vec_of_seq_ops(k: usize) -> (r: Vec<char>)
    requires
        k < 6,
    ensures
        r@ == allowed_ops()[k as int],
{
    let r = if k == 0 {
        vec!['S', 'E', 'L', 'E', 'C', 'T']
    } else if k == 1 {
        vec!['I', 'N', 'S', 'E', 'R', 'T']
    } else if k == 2 {
        vec!['D', 'E', 'L', 'E', 'T', 'E']
    } else if k == 3 {
        vec!['C', 'O', 'N', 'S', 'T', 'R', 'U', 'C', 'T']
    } else if k == 4 {
        vec!['A', 'S', 'K']
    } else {
        vec!['D', 'E', 'S', 'C', 'R', 'I', 'B', 'E']
    };
    assert(r@ =~= allowed_ops()[k as int]);
    r
}

fn vec_of_danger(k: usize) -> (r: Vec<char>)
    requires
        k < 3,
    ensures
        r@ == danger_words()[k as int],
{
    let r = if k == 0 {
        vec!['D', 'R', 'O', 'P']
    } else if k == 1 {
        vec!['C', 'L', 'E', 'A', 'R']
    } else {
        vec!['L', 'O', 'A', 'D']
    };
    assert(r@ =~= danger_words()[k as int]);
    r
}

fn seq_eq(a: &Vec<char>, b: &Vec<char>) -> (r: bool)
    ensures
        r == (a@ == b@),
{
    if a.len() != b.len() {
        return false;
    }
    let r = matches_at_exec(a, b, 0);
    proof {
        if r {
            assert(a@.subrange(0, b.len() as int) =~= a@);
        }
        if a@ == b@ {
            assert(a@.subrange(0, b.len() as int) =~= a@);
        }
    }
    r
}

/// The verdict on a SPARQL query whose comments, literals and IRIs are already
/// blanked out and whose letters are already uppercased.
#[verifier::loop_isolation(false)]
pub fn validate_sanitized_sparql(sanitized: &str) -> (r: Result<(), &'static str>)
    ensures
        match sparql_rejection(sanitized@) {
            None => r is Ok,
            Some(why) => r == Err::<(), &'static str>(sparql_message(why)),
        },
{
    let v = chars_of(sanitized);
    let t = trim_exec(&v);
    let first = first_op_exec(&t);
    let mut valid = false;
    let mut k: usize = 0;
    while k < 6
        invariant
            k <= 6,
            first@ == first_op_from(t@, 0),
            valid == exists|m: int|
                0 <= m < k && (has_prefix(t@, #[trigger] allowed_ops()[m]) || first@
                    == allowed_ops()[m]),
        decreases 6 - k,
    {
        let op = vec_of_seq_ops(k);
        if matches_at_exec(&t, &op, 0) || seq_eq(&first, &op) {
            valid = true;
        }
        k = k + 1;
    }
    assert(allowed_ops().len() == 6);
    assert(danger_words().len() == 3);
    if !valid {
        return Err("Unsupported SPARQL operation. Allowed: SELECT, INSERT, DELETE, CONSTRUCT, ASK, DESCRIBE");
    }
    let mut d: usize = 0;
    while d < 3
        invariant
            d <= 3,
            forall|m: int| 0 <= m < d ==> !has_word(t@, #[trigger] danger_words()[m]),
        decreases 3 - d,
    {
        let w = vec_of_danger(d);
        if contains_word(&t, &w) {
            assert(0 <= d < danger_words().len() && has_word(t@, danger_words()[d as int]));
            return Err("Potentially dangerous SPARQL operation detected");
        }
        d = d + 1;
    }
    Ok(())
}

/// Validate a SPARQL query to prevent injection or expensive queries.
///
/// The query is refused when it is longer than `MAX_SPARQL_BYTES` bytes, when (with
/// comments, string literals and IRIs blanked out, uppercased and trimmed) it neither
/// starts with nor has as its first non-prologue token one of SELECT, INSERT, DELETE,
/// CONSTRUCT, ASK, DESCRIBE, or when it holds DROP, CLEAR or LOAD as a whole word.
pub fn validate_sparql_query(query: &str) -> (r: Result<(), &'static str>)
    ensures
        match sparql_query_rejection(query.len() as nat, query@) {
            None => r is Ok,
            Some(why) => r == Err::<(), &'static str>(sparql_message(why)),
        },
{
    if query.len() > MAX_SPARQL_BYTES {
        return Err("Query too long");
    }
    let stripped = strip_sparql_noise(query);
    let upper = to_upper(stripped.as_str());
    validate_sanitized_sparql(upper.as_str())
}

} // verus!
