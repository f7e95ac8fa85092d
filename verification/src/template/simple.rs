//! The template texts this tool renders, the part of tera's syntax under
//! which tera's renderer cannot panic:
//! - plain text;
//! - comments, `{# ... #}`;
//! - raw blocks, `{% raw %} ... {% endraw %}`;
//! - variable tags that name one identifier, optionally passed through the
//!   string filters `upper`, `lower`, `trim`, `trim_start`, `trim_end`,
//!   `capitalize`, `title`, `escape`, `escape_xml` and `safe`, such as
//!   `{{ project_name | lower }}`;
//! - `{% if c %}`, `{% elif c %}`, `{% else %}` and `{% endif %}`, where the
//!   condition `c` is an identifier, optionally after `not`;
//! each tag with tera's optional `-` whitespace trims.
//!
//! Everything else is left out: the renderer unwraps `Number::from_f64` on
//! float literals and on the sums and differences of floats, which panics on
//! a literal too large for `f64` or on a sum that overflows; a remainder of
//! `i64::MIN` by `-1` panics; a `for` loop over a string counts characters
//! but takes grapheme clusters, and panics past the last cluster; function
//! calls (`now`, `get_random`, `get_env`) depend on the time, chance and the
//! environment; other filters, tests, macros, includes and inheritance
//! were not audited.
use vstd::prelude::*;

use crate::paths::to_chars;

verus! {

/// Whitespace as tera's grammar has it inside tags.
pub open spec fn is_tag_ws(c: char) -> bool {
    c == ' ' || c == '\t' || c == '\r' || c == '\n'
}

/// The characters an identifier may begin with.
pub open spec fn is_ident_start(c: char) -> bool {
    ('a' <= c && c <= 'z') || ('A' <= c && c <= 'Z') || c == '_'
}

/// The characters an identifier may continue with.
pub open spec fn is_ident_char(c: char) -> bool {
    is_ident_start(c) || ('0' <= c && c <= '9')
}

/// A tera tag (`{{`, `{%` or `{#`) opens at `i`.
pub open spec fn opens_tag_at(s: Seq<char>, i: int) -> bool {
    0 <= i && i + 1 < s.len() && s[i] == '{' && (s[i + 1] == '{' || s[i + 1] == '%' || s[i + 1]
        == '#')
}

/// The word `w` stands in `s` at `k`.
pub open spec fn word_at(s: Seq<char>, k: int, w: Seq<char>) -> bool {
    0 <= k && k + w.len() <= s.len() && s.subrange(k, k + w.len()) == w
}

/// Where the whitespace that starts at `k` ends.
pub open spec fn ws_end(s: Seq<char>, k: int) -> int
    decreases s.len() - k,
{
    if 0 <= k < s.len() && is_tag_ws(s[k]) {
        ws_end(s, k + 1)
    } else {
        k
    }
}

/// Where the identifier characters that start at `k` end.
pub open spec fn ident_end(s: Seq<char>, k: int) -> int
    decreases s.len() - k,
{
    if 0 <= k < s.len() && is_ident_char(s[k]) {
        ident_end(s, k + 1)
    } else {
        k
    }
}

/// Where a tag opened at `i` begins its body: after `{{`, `{%` or `{#`
/// and an optional `-`.
pub open spec fn after_open(s: Seq<char>, i: int) -> int {
    if i + 2 < s.len() && s[i + 2] == '-' {
        i + 3
    } else {
        i + 2
    }
}

/// Where a tag closed at `k` by `c}` or `-c}` ends.
pub open spec fn close_at(s: Seq<char>, k: int, c: char) -> Option<int> {
    if word_at(s, k, seq![c, '}']) {
        Some(k + 2)
    } else if word_at(s, k, seq!['-', c, '}']) {
        Some(k + 3)
    } else {
        None
    }
}

/// The string filters admitted in variable tags.
pub open spec fn is_safe_filter(name: Seq<char>) -> bool {
    ||| name == "upper"@
    ||| name == "lower"@
    ||| name == "trim"@
    ||| name == "trim_start"@
    ||| name == "trim_end"@
    ||| name == "capitalize"@
    ||| name == "title"@
    ||| name == "escape"@
    ||| name == "escape_xml"@
    ||| name == "safe"@
}

/// Where a chain of `| filter` parts that starts at `k` ends, each filter
/// admitted; `None` where a part is not of that form.
pub open spec fn filters_end(s: Seq<char>, k: int) -> Option<int>
    decreases s.len() - k,
{
    let k1 = ws_end(s, k);
    if 0 <= k1 < s.len() && s[k1] == '|' {
        let k2 = ws_end(s, k1 + 1);
        if 0 <= k2 < s.len() && is_ident_start(s[k2]) {
            let k3 = ident_end(s, k2 + 1);
            if k < k3 <= s.len() && is_safe_filter(s.subrange(k2, k3)) {
                filters_end(s, k3)
            } else {
                None
            }
        } else {
            None
        }
    } else {
        Some(k1)
    }
}

/// Where an admitted variable tag opened at `i` ends.
pub open spec fn variable_tag_end(s: Seq<char>, i: int) -> Option<int> {
    let k2 = ws_end(s, after_open(s, i));
    if !(0 <= k2 < s.len() && is_ident_start(s[k2])) {
        None
    } else {
        match filters_end(s, ident_end(s, k2 + 1)) {
            Some(k4) => close_at(s, k4, '}'),
            None => None,
        }
    }
}

/// Where the first `#}` at or after `k` ends.
pub open spec fn comment_close_from(s: Seq<char>, k: int) -> Option<int>
    decreases s.len() - k,
{
    if k < 0 || k + 1 >= s.len() {
        None
    } else if s[k] == '#' && s[k + 1] == '}' {
        Some(k + 2)
    } else {
        comment_close_from(s, k + 1)
    }
}

/// The keyword `w` stands at `k`, followed by whitespace.
pub open spec fn keyword_then_ws(s: Seq<char>, k: int, w: Seq<char>) -> bool {
    word_at(s, k, w) && k + w.len() < s.len() && is_tag_ws(s[k + w.len()])
}

/// Where an admitted condition after a keyword at `k` ends: whitespace,
/// optionally `not` and whitespace, and an identifier.
pub open spec fn condition_end(s: Seq<char>, k: int) -> Option<int> {
    let k1 = ws_end(s, k);
    let k2 = if keyword_then_ws(s, k1, "not"@) {
        ws_end(s, k1 + 3)
    } else {
        k1
    };
    if 0 <= k2 < s.len() && is_ident_start(s[k2]) {
        Some(ident_end(s, k2 + 1))
    } else {
        None
    }
}

/// Where the body of an admitted statement at `k` ends.
pub open spec fn statement_body_end(s: Seq<char>, k: int) -> Option<int> {
    if keyword_then_ws(s, k, "if"@) {
        condition_end(s, k + 2)
    } else if keyword_then_ws(s, k, "elif"@) {
        condition_end(s, k + 4)
    } else if word_at(s, k, "else"@) {
        Some(k + 4)
    } else if word_at(s, k, "endif"@) {
        Some(k + 5)
    } else {
        None
    }
}

/// Where a tag opened at `i` that holds the single word `w` ends.
pub open spec fn word_tag_end(s: Seq<char>, i: int, w: Seq<char>) -> Option<int> {
    let k2 = ws_end(s, after_open(s, i));
    if word_at(s, k2, w) {
        close_at(s, ws_end(s, k2 + w.len()), '%')
    } else {
        None
    }
}

/// The first `{%` at or after `k`.
pub open spec fn next_statement_open(s: Seq<char>, k: int) -> Option<int>
    decreases s.len() - k,
{
    if k < 0 || k + 1 >= s.len() {
        None
    } else if s[k] == '{' && s[k + 1] == '%' {
        Some(k)
    } else {
        next_statement_open(s, k + 1)
    }
}

/// Where an admitted statement tag opened at `i` ends; for `{% raw %}`,
/// where its block ends, at the `{% endraw %}` that must be the next `{%`.
pub open spec fn statement_tag_end(s: Seq<char>, i: int) -> Option<int> {
    match word_tag_end(s, i, "raw"@) {
        Some(j) => match next_statement_open(s, j) {
            Some(p) => word_tag_end(s, p, "endraw"@),
            None => None,
        },
        None => match statement_body_end(s, ws_end(s, after_open(s, i))) {
            Some(k) => close_at(s, ws_end(s, k), '%'),
            None => None,
        },
    }
}

/// Where an admitted tag opened at `i` ends.
pub open spec fn tag_end(s: Seq<char>, i: int) -> Option<int> {
    if s[i + 1] == '{' {
        variable_tag_end(s, i)
    } else if s[i + 1] == '#' {
        comment_close_from(s, i + 2)
    } else {
        statement_tag_end(s, i)
    }
}

/// The text from `i` on is plain text and admitted tags.
pub open spec fn simple_from(s: Seq<char>, i: int) -> bool
    decreases s.len() - i,
{
    if i < 0 || i >= s.len() {
        true
    } else if opens_tag_at(s, i) {
        match tag_end(s, i) {
            Some(j) => i < j <= s.len() && simple_from(s, j),
            None => false,
        }
    } else {
        simple_from(s, i + 1)
    }
}

/// A template text is simple: plain text and admitted tags only.
pub open spec fn simple_template(s: Seq<char>) -> bool {
    simple_from(s, 0)
}

fn is_tag_whitespace(c: char) -> (b: bool)
    ensures
        b == is_tag_ws(c),
{
    c == ' ' || c == '\t' || c == '\r' || c == '\n'
}

fn is_identifier_start(c: char) -> (b: bool)
    ensures
        b == is_ident_start(c),
{
    ('a' <= c && c <= 'z') || ('A' <= c && c <= 'Z') || c == '_'
}

fn is_identifier_char(c: char) -> (b: bool)
    ensures
        b == is_ident_char(c),
{
    is_identifier_start(c) || ('0' <= c && c <= '9')
}

fn skip_ws(s: &Vec<char>, k: usize) -> (end: usize)
    requires
        k <= s.len(),
    ensures
        end == ws_end(s@, k as int),
        k <= end <= s.len(),
{
    let mut j: usize = k;
    while j < s.len() && is_tag_whitespace(s[j])
        invariant
            k <= j <= s.len(),
            ws_end(s@, k as int) == ws_end(s@, j as int),
        decreases s.len() - j,
    {
        j = j + 1;
    }
    j
}

fn skip_ident(s: &Vec<char>, k: usize) -> (end: usize)
    requires
        k <= s.len(),
    ensures
        end == ident_end(s@, k as int),
        k <= end <= s.len(),
{
    let mut j: usize = k;
    while j < s.len() && is_identifier_char(s[j])
        invariant
            k <= j <= s.len(),
            ident_end(s@, k as int) == ident_end(s@, j as int),
        decreases s.len() - j,
    {
        j = j + 1;
    }
    j
}

fn word_at_exec(s: &Vec<char>, k: usize, w: &Vec<char>) -> (b: bool)
    requires
        k <= s.len(),
    ensures
        b == word_at(s@, k as int, w@),
{
    if w.len() > s.len() - k {
        return false;
    }
    let mut l: usize = 0;
    while l < w.len()
        invariant
            k + w.len() <= s.len(),
            l <= w.len(),
            forall|m: int| 0 <= m < l ==> s@[k + m] == w@[m],
        decreases w.len() - l,
    {
        if s[k + l] != w[l] {
            assert(s@.subrange(k as int, k + w.len())[l as int] != w@[l as int]);
            return false;
        }
        l = l + 1;
    }
    assert(s@.subrange(k as int, k + w.len()) =~= w@);
    true
}

fn after_open_exec(s: &Vec<char>, i: usize) -> (k: usize)
    requires
        i + 1 < s.len(),
    ensures
        k == after_open(s@, i as int),
        k <= s.len(),
{
    if i + 2 < s.len() && s[i + 2] == '-' {
        i + 3
    } else {
        i + 2
    }
}

fn close_at_exec(s: &Vec<char>, k: usize, c: char) -> (end: Option<usize>)
    requires
        k <= s.len(),
    ensures
        match end {
            Some(j) => close_at(s@, k as int, c) == Some(j as int) && k < j <= s.len(),
            None => close_at(s@, k as int, c) is None,
        },
{
    let mut two: Vec<char> = Vec::new();
    two.push(c);
    two.push('}');
    let mut three: Vec<char> = Vec::new();
    three.push('-');
    three.push(c);
    three.push('}');
    assert(two@ =~= seq![c, '}']);
    assert(three@ =~= seq!['-', c, '}']);
    if word_at_exec(s, k, &two) {
        Some(k + 2)
    } else if word_at_exec(s, k, &three) {
        Some(k + 3)
    } else {
        None
    }
}

fn is_safe_filter_span(s: &Vec<char>, a: usize, b: usize) -> (safe: bool)
    requires
        a <= b <= s.len(),
    ensures
        safe == is_safe_filter(s@.subrange(a as int, b as int)),
{
    let names = [
        "upper",
        "lower",
        "trim",
        "trim_start",
        "trim_end",
        "capitalize",
        "title",
        "escape",
        "escape_xml",
        "safe",
    ];
    let ghost span = s@.subrange(a as int, b as int);
    let mut n: usize = 0;
    while n < 10
        invariant
            a <= b <= s.len(),
            span == s@.subrange(a as int, b as int),
            n <= 10,
            names@ == seq![
                "upper",
                "lower",
                "trim",
                "trim_start",
                "trim_end",
                "capitalize",
                "title",
                "escape",
                "escape_xml",
                "safe",
            ],
            forall|m: int| 0 <= m < n ==> span != (#[trigger] names@[m])@,
        decreases 10 - n,
    {
        let w = to_chars(names[n]);
        if w.len() == b - a && word_at_exec(s, a, &w) {
            assert(span == names@[n as int]@);
            return true;
        }
        assert(span != names@[n as int]@) by {
            if span == names@[n as int]@ {
                assert(word_at(s@, a as int, w@));
            }
        }
        n = n + 1;
    }
    assert(!is_safe_filter(span)) by {
        assert(span != names@[0]@);
        assert(span != names@[1]@);
        assert(span != names@[2]@);
        assert(span != names@[3]@);
        assert(span != names@[4]@);
        assert(span != names@[5]@);
        assert(span != names@[6]@);
        assert(span != names@[7]@);
        assert(span != names@[8]@);
        assert(span != names@[9]@);
    }
    false
}

fn filters_end_exec(s: &Vec<char>, k: usize) -> (end: Option<usize>)
    requires
        k <= s.len(),
    ensures
        match end {
            Some(j) => filters_end(s@, k as int) == Some(j as int) && k <= j <= s.len(),
            None => filters_end(s@, k as int) is None,
        },
    decreases s.len() - k,
{
    let k1 = skip_ws(s, k);
    if k1 < s.len() && s[k1] == '|' {
        let k2 = skip_ws(s, k1 + 1);
        if k2 < s.len() && is_identifier_start(s[k2]) {
            let k3 = skip_ident(s, k2 + 1);
            if is_safe_filter_span(s, k2, k3) {
                filters_end_exec(s, k3)
            } else {
                None
            }
        } else {
            None
        }
    } else {
        Some(k1)
    }
}

fn variable_tag_end_exec(s: &Vec<char>, i: usize) -> (end: Option<usize>)
    requires
        i + 1 < s.len(),
    ensures
        match end {
            Some(j) => variable_tag_end(s@, i as int) == Some(j as int) && i < j <= s.len(),
            None => variable_tag_end(s@, i as int) is None,
        },
{
    let k2 = skip_ws(s, after_open_exec(s, i));
    if !(k2 < s.len() && is_identifier_start(s[k2])) {
        return None;
    }
    let k3 = skip_ident(s, k2 + 1);
    match filters_end_exec(s, k3) {
        Some(k4) => close_at_exec(s, k4, '}'),
        None => None,
    }
}

fn comment_close_exec(s: &Vec<char>, k: usize) -> (end: Option<usize>)
    requires
        k <= s.len(),
    ensures
        match end {
            Some(j) => comment_close_from(s@, k as int) == Some(j as int) && k < j <= s.len(),
            None => comment_close_from(s@, k as int) is None,
        },
{
    let mut p: usize = k;
    while p < s.len() && p + 1 < s.len()
        invariant
            k <= p <= s.len(),
            comment_close_from(s@, k as int) == comment_close_from(s@, p as int),
        decreases s.len() - p,
    {
        if s[p] == '#' && s[p + 1] == '}' {
            return Some(p + 2);
        }
        p = p + 1;
    }
    None
}

fn keyword_then_ws_exec(s: &Vec<char>, k: usize, w: &Vec<char>) -> (b: bool)
    requires
        k <= s.len(),
    ensures
        b == keyword_then_ws(s@, k as int, w@),
{
    word_at_exec(s, k, w) && k + w.len() < s.len() && is_tag_whitespace(s[k + w.len()])
}

fn condition_end_exec(s: &Vec<char>, k: usize) -> (end: Option<usize>)
    requires
        k <= s.len(),
    ensures
        match end {
            Some(j) => condition_end(s@, k as int) == Some(j as int) && k < j <= s.len(),
            None => condition_end(s@, k as int) is None,
        },
{
    let k1 = skip_ws(s, k);
    let not_word = to_chars("not");
    proof {
        reveal_strlit("not");
    }
    let k2 = if keyword_then_ws_exec(s, k1, &not_word) {
        skip_ws(s, k1 + 3)
    } else {
        k1
    };
    if k2 < s.len() && is_identifier_start(s[k2]) {
        Some(skip_ident(s, k2 + 1))
    } else {
        None
    }
}

fn statement_body_end_exec(s: &Vec<char>, k: usize) -> (end: Option<usize>)
    requires
        k <= s.len(),
    ensures
        match end {
            Some(j) => statement_body_end(s@, k as int) == Some(j as int) && k < j <= s.len(),
            None => statement_body_end(s@, k as int) is None,
        },
{
    proof {
        reveal_strlit("if");
        reveal_strlit("elif");
        reveal_strlit("else");
        reveal_strlit("endif");
    }
    if keyword_then_ws_exec(s, k, &to_chars("if")) {
        condition_end_exec(s, k + 2)
    } else if keyword_then_ws_exec(s, k, &to_chars("elif")) {
        condition_end_exec(s, k + 4)
    } else if word_at_exec(s, k, &to_chars("else")) {
        Some(k + 4)
    } else if word_at_exec(s, k, &to_chars("endif")) {
        Some(k + 5)
    } else {
        None
    }
}

fn word_tag_end_exec(s: &Vec<char>, i: usize, w: &Vec<char>) -> (end: Option<usize>)
    requires
        i + 1 < s.len(),
    ensures
        match end {
            Some(j) => word_tag_end(s@, i as int, w@) == Some(j as int) && i < j <= s.len(),
            None => word_tag_end(s@, i as int, w@) is None,
        },
{
    let k2 = skip_ws(s, after_open_exec(s, i));
    if word_at_exec(s, k2, w) {
        let k3 = skip_ws(s, k2 + w.len());
        close_at_exec(s, k3, '%')
    } else {
        None
    }
}

fn next_statement_open_exec(s: &Vec<char>, k: usize) -> (found: Option<usize>)
    requires
        k <= s.len(),
    ensures
        match found {
            Some(p) => next_statement_open(s@, k as int) == Some(p as int) && k <= p && p + 1
                < s.len(),
            None => next_statement_open(s@, k as int) is None,
        },
{
    let mut p: usize = k;
    while p < s.len() && p + 1 < s.len()
        invariant
            k <= p <= s.len(),
            next_statement_open(s@, k as int) == next_statement_open(s@, p as int),
        decreases s.len() - p,
    {
        if s[p] == '{' && s[p + 1] == '%' {
            return Some(p);
        }
        p = p + 1;
    }
    None
}

fn statement_tag_end_exec(s: &Vec<char>, i: usize) -> (end: Option<usize>)
    requires
        i + 1 < s.len(),
    ensures
        match end {
            Some(j) => statement_tag_end(s@, i as int) == Some(j as int) && i < j <= s.len(),
            None => statement_tag_end(s@, i as int) is None,
        },
{
    match word_tag_end_exec(s, i, &to_chars("raw")) {
        Some(j) => match next_statement_open_exec(s, j) {
            Some(p) => match word_tag_end_exec(s, p, &to_chars("endraw")) {
                Some(e) => Some(e),
                None => None,
            },
            None => None,
        },
        None => {
            let k2 = skip_ws(s, after_open_exec(s, i));
            match statement_body_end_exec(s, k2) {
                Some(k) => close_at_exec(s, skip_ws(s, k), '%'),
                None => None,
            }
        },
    }
}

/// Whether `text` is a simple template: plain text and admitted tags only.
pub fn is_simple_template(text: &str) -> (simple: bool)
    ensures
        simple == simple_template(text@),
{
    let s = to_chars(text);
    let n: usize = s.len();
    let mut i: usize = 0;
    while i < n
        invariant
            n == s.len(),
            s@ == text@,
            i <= n,
            simple_template(s@) == simple_from(s@, i as int),
        decreases n - i,
    {
        if i + 1 < n && s[i] == '{' && (s[i + 1] == '{' || s[i + 1] == '%' || s[i + 1] == '#') {
            let end = if s[i + 1] == '{' {
                variable_tag_end_exec(&s, i)
            } else if s[i + 1] == '#' {
                comment_close_exec(&s, i + 2)
            } else {
                statement_tag_end_exec(&s, i)
            };
            match end {
                Some(j) => {
                    i = j;
                },
                None => {
                    return false;
                },
            }
        } else {
            i = i + 1;
        }
    }
    true
}

/// `id` is an identifier.
pub open spec fn is_identifier(id: Seq<char>) -> bool {
    id.len() > 0 && is_ident_start(id[0]) && forall|j: int| 1 <= j < id.len() ==> is_ident_char(#[trigger] id[j])
}

/// `w` is whitespace only (possibly none).
pub open spec fn all_tag_ws(w: Seq<char>) -> bool {
    forall|j: int| 0 <= j < w.len() ==> is_tag_ws(#[trigger] w[j])
}

/// `p` is plain text: it holds no `{`, so no tag opens in it.
pub open spec fn is_plain(p: Seq<char>) -> bool {
    forall|j: int| 0 <= j < p.len() ==> #[trigger] p[j] != '{'
}

/// The variable tag `{{` + `w1` + `id` + `w2` + `}}`.
pub open spec fn variable_tag(w1: Seq<char>, id: Seq<char>, w2: Seq<char>) -> Seq<char> {
    seq!['{', '{'] + w1 + id + w2 + seq!['}', '}']
}

proof fn lemma_ws_run(s: Seq<char>, k: int, n: int)
    requires
        0 <= k,
        0 <= n,
        k + n <= s.len(),
        forall|m: int| k <= m < k + n ==> is_tag_ws(#[trigger] s[m]),
        k + n == s.len() || !is_tag_ws(s[k + n]),
    ensures
        ws_end(s, k) == k + n,
    decreases n,
{
    if n > 0 {
        lemma_ws_run(s, k + 1, n - 1);
    }
}

proof fn lemma_ident_run(s: Seq<char>, k: int, n: int)
    requires
        0 <= k,
        0 <= n,
        k + n <= s.len(),
        forall|m: int| k <= m < k + n ==> is_ident_char(#[trigger] s[m]),
        k + n == s.len() || !is_ident_char(s[k + n]),
    ensures
        ident_end(s, k) == k + n,
    decreases n,
{
    if n > 0 {
        lemma_ident_run(s, k + 1, n - 1);
    }
}

/// A variable tag naming one identifier is passed over whatever whitespace
/// stands around the identifier, none included: where `s` holds
/// `{{` + `w1` + `id` + `w2` + `}}` at `i`, the text from `i` on is simple
/// exactly when the text after the tag is.
pub proof fn lemma_variable_tag_admitted(
    s: Seq<char>,
    i: int,
    w1: Seq<char>,
    id: Seq<char>,
    w2: Seq<char>,
)
    requires
        0 <= i,
        i + variable_tag(w1, id, w2).len() <= s.len(),
        s.subrange(i, i + variable_tag(w1, id, w2).len()) == variable_tag(w1, id, w2),
        all_tag_ws(w1),
        is_identifier(id),
        all_tag_ws(w2),
    ensures
        simple_from(s, i) == simple_from(s, i + variable_tag(w1, id, w2).len()),
{
    let t = variable_tag(w1, id, w2);
    let n = t.len() as int;
    let a = i + 2 + w1.len();
    let b = a + id.len();
    let c = b + w2.len();
    assert(forall|m: int| 0 <= m < n ==> s[i + m] == #[trigger] t[m]) by {
        assert forall|m: int| 0 <= m < n implies s[i + m] == #[trigger] t[m] by {
            assert(s.subrange(i, i + n)[m] == s[i + m]);
        }
    }
    assert(s[i] == t[0] && s[i + 1] == t[1]);
    assert(forall|m: int| 0 <= m < w1.len() ==> s[i + 2 + m] == #[trigger] w1[m]) by {
        assert forall|m: int| 0 <= m < w1.len() implies s[i + 2 + m] == #[trigger] w1[m] by {
            assert(t[2 + m] == w1[m]);
        }
    }
    assert(forall|m: int| 0 <= m < id.len() ==> s[a + m] == #[trigger] id[m]) by {
        assert forall|m: int| 0 <= m < id.len() implies s[a + m] == #[trigger] id[m] by {
            assert(t[2 + w1.len() + m] == id[m]);
        }
    }
    assert(forall|m: int| 0 <= m < w2.len() ==> s[b + m] == #[trigger] w2[m]) by {
        assert forall|m: int| 0 <= m < w2.len() implies s[b + m] == #[trigger] w2[m] by {
            assert(t[2 + w1.len() + id.len() + m] == w2[m]);
        }
    }
    assert(s[c] == '}' && s[c + 1] == '}') by {
        assert(t[n - 2] == '}' && t[n - 1] == '}');
    }
    assert(opens_tag_at(s, i));
    assert(s[i + 2] != '-') by {
        if w1.len() > 0 {
            assert(s[i + 2 + 0] == w1[0]);
        } else {
            assert(s[a + 0] == id[0]);
        }
    }
    assert(after_open(s, i) == i + 2);
    assert(!is_tag_ws(s[a])) by {
        assert(s[a + 0] == id[0]);
    }
    assert forall|m: int| i + 2 <= m < a implies is_tag_ws(#[trigger] s[m]) by {
        assert(s[i + 2 + (m - i - 2)] == w1[m - i - 2]);
    }
    lemma_ws_run(s, i + 2, w1.len() as int);
    assert(is_ident_start(s[a])) by {
        assert(s[a + 0] == id[0]);
    }
    assert(!is_ident_char(s[b])) by {
        if w2.len() > 0 {
            assert(s[b + 0] == w2[0]);
        }
    }
    assert forall|m: int| a + 1 <= m < b implies is_ident_char(#[trigger] s[m]) by {
        assert(s[a + (m - a)] == id[m - a]);
    }
    lemma_ident_run(s, a + 1, id.len() - 1);
    assert forall|m: int| b <= m < c implies is_tag_ws(#[trigger] s[m]) by {
        assert(s[b + (m - b)] == w2[m - b]);
    }
    lemma_ws_run(s, b, w2.len() as int);
    assert(filters_end(s, b) == Some(c));
    assert(s.subrange(c, c + 2) =~= seq!['}', '}']);
    assert(close_at(s, c, '}') == Some(c + 2));
    assert(variable_tag_end(s, i) == Some(c + 2));
    assert(c + 2 == i + n);
}

/// Plain text is passed over: where `s` holds text without `{` from `i` to
/// `j`, the text from `i` on is simple exactly when the text from `j` on is.
pub proof fn lemma_plain_admitted(s: Seq<char>, i: int, j: int)
    requires
        0 <= i <= j <= s.len(),
        forall|m: int| i <= m < j ==> #[trigger] s[m] != '{',
    ensures
        simple_from(s, i) == simple_from(s, j),
    decreases j - i,
{
    if i < j {
        lemma_plain_admitted(s, i + 1, j);
    }
}

/// Every text made of plain text, one variable tag naming an identifier
/// with any whitespace around it or none, and plain text again is simple:
/// `{{name}}`, `{{ name }}` and `{{name }}` alike.
pub proof fn lemma_text_with_variable_is_simple(
    before: Seq<char>,
    w1: Seq<char>,
    id: Seq<char>,
    w2: Seq<char>,
    after: Seq<char>,
)
    requires
        is_plain(before),
        all_tag_ws(w1),
        is_identifier(id),
        all_tag_ws(w2),
        is_plain(after),
    ensures
        simple_template(before + variable_tag(w1, id, w2) + after),
{
    let t = variable_tag(w1, id, w2);
    let s = before + t + after;
    let i = before.len() as int;
    let j = i + t.len();
    assert forall|m: int| 0 <= m < i implies #[trigger] s[m] != '{' by {
        assert(s[m] == before[m]);
    }
    lemma_plain_admitted(s, 0, i);
    assert(s.subrange(i, j) =~= t);
    lemma_variable_tag_admitted(s, i, w1, id, w2);
    assert forall|m: int| j <= m < s.len() implies #[trigger] s[m] != '{' by {
        assert(s[m] == after[m - j]);
    }
    lemma_plain_admitted(s, j, s.len() as int);
}

} // verus!
