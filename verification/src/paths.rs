//! Text-level helpers with the semantics of Unix paths and of Rust's
//! whitespace trimming, stated over the characters of the strings.
use vstd::prelude::*;

verus! {

/// A path is absolute when it begins at the root.
pub open spec fn is_absolute(p: Seq<char>) -> bool {
    p.len() > 0 && p[0] == '/'
}

/// `base` joined with `path`: an absolute `path` replaces `base`; otherwise
/// a separator is put between them unless `base` is empty or already ends
/// with one.
pub open spec fn spec_join(base: Seq<char>, path: Seq<char>) -> Seq<char> {
    if is_absolute(path) {
        path
    } else if base.len() > 0 && base.last() != '/' {
        base + seq!['/'] + path
    } else {
        base + path
    }
}

/// Where the last component of `p` begins: just after its last `/`, or 0.
pub open spec fn segment_start(p: Seq<char>) -> int
    decreases p.len(),
{
    if p.len() == 0 {
        0
    } else if p.last() == '/' {
        p.len() as int
    } else {
        segment_start(p.drop_last())
    }
}

/// The index of the last `.` in `s`, or -1 when there is none.
pub open spec fn last_dot(s: Seq<char>) -> int
    decreases s.len(),
{
    if s.len() == 0 {
        -1
    } else if s.last() == '.' {
        s.len() - 1
    } else {
        last_dot(s.drop_last())
    }
}

/// Where the last component of `p` lies that is neither empty nor `.`,
/// as `Path::components` finds it from the back: trailing separators and
/// `.` components are passed over. `None` when there is no such component
/// (the path is empty, the root, or `.` components only).
pub open spec fn back_component(p: Seq<char>) -> Option<(int, int)>
    decreases p.len(),
{
    if p.len() == 0 {
        None
    } else {
        let st = segment_start(p);
        if st == p.len() || (st + 1 == p.len() && p[st] == '.') {
            if st == 0 {
                None
            } else {
                back_component(p.take(st - 1))
            }
        } else {
            Some((st, p.len() as int))
        }
    }
}

/// The span of `p`'s file name: its last component, unless that is `..`.
pub open spec fn file_name_span(p: Seq<char>) -> Option<(int, int)> {
    match back_component(p) {
        Some((a, b)) => if p.subrange(a, b) == seq!['.', '.'] {
            None
        } else {
            Some((a, b))
        },
        None => None,
    }
}

/// The length of a file name's stem: the name up to its last `.`, unless
/// that `.` is the first character or there is none.
pub open spec fn stem_len(name: Seq<char>) -> int {
    if last_dot(name) <= 0 {
        name.len() as int
    } else {
        last_dot(name)
    }
}

/// `p` with the extension of its file name removed, as
/// `PathBuf::set_extension("")` does on Unix: the path is cut right after
/// the stem of its file name; a path without a file name is left as it is.
pub open spec fn spec_remove_extension(p: Seq<char>) -> Seq<char> {
    match file_name_span(p) {
        Some((a, b)) => p.take(a + stem_len(p.subrange(a, b))),
        None => p,
    }
}

/// The characters that carry Unicode's `White_Space` property.
pub open spec fn is_ws(c: char) -> bool {
    let u: u32 = c as u32;
    ||| 0x9 <= u <= 0xd
    ||| u == 0x20
    ||| u == 0x85
    ||| u == 0xa0
    ||| u == 0x1680
    ||| 0x2000 <= u <= 0x200a
    ||| u == 0x2028
    ||| u == 0x2029
    ||| u == 0x202f
    ||| u == 0x205f
    ||| u == 0x3000
}

/// The number of whitespace characters at the start of `s`.
pub open spec fn leading_ws(s: Seq<char>) -> nat
    decreases s.len(),
{
    if s.len() > 0 && is_ws(s[0]) {
        1 + leading_ws(s.drop_first())
    } else {
        0
    }
}

/// The number of whitespace characters at the end of `s`.
pub open spec fn trailing_ws(s: Seq<char>) -> nat
    decreases s.len(),
{
    if s.len() > 0 && is_ws(s.last()) {
        1 + trailing_ws(s.drop_last())
    } else {
        0
    }
}

/// `s` without its leading and trailing whitespace.
pub open spec fn spec_trim(s: Seq<char>) -> Seq<char> {
    let t = s.skip(leading_ws(s) as int);
    t.take(t.len() - trailing_ws(t))
}

/// The characters of `s`, in order.
pub fn to_chars(s: &str) -> (v: Vec<char>)
    ensures
        v@ == s@,
{
    let mut v: Vec<char> = Vec::new();
    for c in it: s.chars()
        invariant
            v@ == it.seq().take(it.index()),
            it.seq() == s@,
    {
        v.push(c);
    }
    v
}

/// Joins `path` onto `base` as `Path::join` does on Unix.
pub fn join_path(base: &str, path: &str) -> (joined: String)
    ensures
        joined@ == spec_join(base@, path@),
{
    let b = to_chars(base);
    let p = to_chars(path);
    if p.len() > 0 && p[0] == '/' {
        path.to_owned()
    } else if b.len() > 0 && b[b.len() - 1] != '/' {
        proof {
            reveal_strlit("/");
        }
        base.to_owned().concat("/").concat(path)
    } else {
        base.to_owned().concat(path)
    }
}

/// Whether `c` is a whitespace character (`char::is_whitespace`).
pub fn is_whitespace(c: char) -> (b: bool)
    ensures
        b == is_ws(c),
{
    let u: u32 = c as u32;
    (0x9 <= u && u <= 0xd) || u == 0x20 || u == 0x85 || u == 0xa0 || u == 0x1680 || (0x2000 <= u
        && u <= 0x200a) || u == 0x2028 || u == 0x2029 || u == 0x202f || u == 0x205f || u == 0x3000
}

fn segment_start_of(v: &Vec<char>, end: usize) -> (seg: usize)
    requires
        end <= v.len(),
    ensures
        seg == segment_start(v@.take(end as int)),
        seg <= end,
{
    let mut seg: usize = 0;
    let mut i: usize = 0;
    while i < end
        invariant
            end <= v.len(),
            i <= end,
            seg <= i,
            seg == segment_start(v@.take(i as int)),
        decreases end - i,
    {
        assert(v@.take(i + 1).drop_last() =~= v@.take(i as int));
        if v[i] == '/' {
            seg = i + 1;
        }
        i = i + 1;
    }
    seg
}

fn back_component_of(v: &Vec<char>) -> (span: Option<(usize, usize)>)
    ensures
        match span {
            Some((a, b)) => back_component(v@) == Some((a as int, b as int)) && a < b <= v.len(),
            None => back_component(v@) is None,
        },
{
    let mut end: usize = v.len();
    assert(v@.take(end as int) =~= v@);
    loop
        invariant
            end <= v.len(),
            back_component(v@) == back_component(v@.take(end as int)),
        decreases end,
    {
        if end == 0 {
            return None;
        }
        let st = segment_start_of(v, end);
        let ghost p = v@.take(end as int);
        if st == end || (st + 1 == end && v[st] == '.') {
            if st == 0 {
                return None;
            }
            assert(p.take(st - 1) =~= v@.take(st - 1));
            end = st - 1;
        } else {
            return Some((st, end));
        }
    }
}

proof fn lemma_segment_start_bounds(p: Seq<char>)
    ensures
        0 <= segment_start(p) <= p.len(),
    decreases p.len(),
{
    if p.len() > 0 && p.last() != '/' {
        lemma_segment_start_bounds(p.drop_last());
    }
}

proof fn lemma_back_component_bounds(p: Seq<char>)
    ensures
        back_component(p) matches Some((a, b)) ==> 0 <= a < b <= p.len(),
    decreases p.len(),
{
    if p.len() > 0 {
        lemma_segment_start_bounds(p);
        let st = segment_start(p);
        if st == p.len() || (st + 1 == p.len() && p[st] == '.') {
            if st > 0 {
                lemma_back_component_bounds(p.take(st - 1));
            }
        }
    }
}

proof fn lemma_last_dot_bounds(s: Seq<char>)
    ensures
        -1 <= last_dot(s) < s.len(),
        last_dot(s) >= 0 ==> s[last_dot(s)] == '.',
    decreases s.len(),
{
    if s.len() > 0 && s.last() != '.' {
        lemma_last_dot_bounds(s.drop_last());
    }
}

/// `path` with the extension of its file name removed, as
/// `PathBuf::set_extension("")` does on Unix.
pub fn remove_extension(path: &str) -> (stripped: String)
    ensures
        stripped@ == spec_remove_extension(path@),
{
    let v = to_chars(path);
    match back_component_of(&v) {
        None => path.to_owned(),
        Some((a, b)) => {
            let ghost name = v@.subrange(a as int, b as int);
            let is_dotdot = b - a == 2 && v[a] == '.' && v[a + 1] == '.';
            assert(is_dotdot <==> name =~= seq!['.', '.']);
            if is_dotdot {
                return path.to_owned();
            }
            let mut found = false;
            let mut dot: usize = 0;
            let mut j: usize = a;
            while j < b
                invariant
                    a < b <= v.len(),
                    a <= j <= b,
                    name == v@.subrange(a as int, b as int),
                    found ==> a <= dot < j,
                    last_dot(name.take(j - a)) == (if found {
                        dot - a
                    } else {
                        -1
                    }),
                decreases b - j,
            {
                assert(name.take(j + 1 - a).drop_last() =~= name.take(j - a));
                if v[j] == '.' {
                    found = true;
                    dot = j;
                }
                j = j + 1;
            }
            assert(name.take(b - a) =~= name);
            let end: usize = if !found || dot == a {
                b
            } else {
                dot
            };
            assert(end == a + stem_len(name));
            assert(v@.take(end as int) =~= v@.subrange(0, end as int));
            path.substring_char(0, end).to_owned()
        },
    }
}

/// `s` without leading and trailing whitespace, as `str::trim` does.
pub fn trim(s: &str) -> (trimmed: String)
    ensures
        trimmed@ == spec_trim(s@),
{
    let v = to_chars(s);
    let n: usize = v.len();
    let mut a: usize = 0;
    while a < n && is_whitespace(v[a])
        invariant
            n == v.len(),
            a <= n,
            forall|i: int| 0 <= i < a ==> is_ws(#[trigger] v@[i]),
        decreases n - a,
    {
        a = a + 1;
    }
    let mut b: usize = n;
    while b > a && is_whitespace(v[b - 1])
        invariant
            n == v.len(),
            a <= b <= n,
            forall|i: int| b <= i < n ==> is_ws(#[trigger] v@[i]),
        decreases b,
    {
        b = b - 1;
    }
    proof {
        lemma_leading_ws(v@, a as int);
        let t = v@.skip(a as int);
        lemma_trailing_ws(t, b - a);
    }
    s.substring_char(a, b).to_owned()
}

proof fn lemma_leading_ws(s: Seq<char>, a: int)
    requires
        0 <= a <= s.len(),
        forall|i: int| 0 <= i < a ==> is_ws(#[trigger] s[i]),
        a == s.len() || !is_ws(s[a]),
    ensures
        leading_ws(s) == a,
    decreases a,
{
    if a > 0 {
        lemma_leading_ws(s.drop_first(), a - 1);
    }
}

proof fn lemma_trailing_ws(t: Seq<char>, b: int)
    requires
        0 <= b <= t.len(),
        forall|i: int| b <= i < t.len() ==> is_ws(#[trigger] t[i]),
        b == 0 || !is_ws(t[b - 1]),
    ensures
        trailing_ws(t) == t.len() - b,
    decreases t.len() - b,
{
    if b < t.len() {
        lemma_trailing_ws(t.drop_last(), b);
    }
}

proof fn lemma_leading_ws_facts(s: Seq<char>)
    ensures
        leading_ws(s) <= s.len(),
        leading_ws(s) < s.len() ==> !is_ws(s[leading_ws(s) as int]),
    decreases s.len(),
{
    if s.len() > 0 && is_ws(s[0]) {
        lemma_leading_ws_facts(s.drop_first());
    }
}

proof fn lemma_trailing_ws_facts(s: Seq<char>)
    ensures
        trailing_ws(s) <= s.len(),
        trailing_ws(s) < s.len() ==> !is_ws(s[s.len() - trailing_ws(s) - 1]),
    decreases s.len(),
{
    if s.len() > 0 && is_ws(s.last()) {
        lemma_trailing_ws_facts(s.drop_last());
    }
}

/// Trimming is idempotent: a trimmed string has no whitespace left at
/// either end.
pub proof fn lemma_trim_idempotent(s: Seq<char>)
    ensures
        spec_trim(spec_trim(s)) == spec_trim(s),
{
    let t = s.skip(leading_ws(s) as int);
    lemma_leading_ws_facts(s);
    lemma_trailing_ws_facts(t);
    let r = spec_trim(s);
    if r.len() > 0 {
        assert(r[0] == s[leading_ws(s) as int]);
        assert(leading_ws(r) == 0);
        assert(r.skip(0) =~= r);
        assert(r.last() == t[t.len() - trailing_ws(t) - 1]);
        assert(trailing_ws(r) == 0);
        assert(r.take(r.len() as int) =~= r);
    } else {
        assert(spec_trim(r) =~= r);
    }
}

/// A relative path joined onto a base keeps the base as its beginning and
/// the path as its end; an absolute path replaces the base.
pub proof fn lemma_join_parts(base: Seq<char>, path: Seq<char>)
    ensures
        is_absolute(path) ==> spec_join(base, path) == path,
        !is_absolute(path) ==> spec_join(base, path).take(base.len() as int) == base,
        spec_join(base, path).len() >= path.len(),
        spec_join(base, path).skip(spec_join(base, path).len() - path.len()) == path,
{
    let j = spec_join(base, path);
    if !is_absolute(path) {
        assert(j.take(base.len() as int) =~= base);
    }
    assert(j.skip(j.len() - path.len()) =~= path);
}

/// Removing an extension only shortens a path: what is left is a prefix of
/// it, and a file name without a `.` is left as it is.
pub proof fn lemma_remove_extension_prefix(p: Seq<char>)
    ensures
        spec_remove_extension(p).len() <= p.len(),
        spec_remove_extension(p) == p.take(spec_remove_extension(p).len() as int),
        file_name_span(p) matches Some((a, b)) ==> (last_dot(p.subrange(a, b)) < 0
            ==> spec_remove_extension(p) == p.take(b)),
{
    lemma_back_component_bounds(p);
    if let Some((a, b)) = file_name_span(p) {
        lemma_last_dot_bounds(p.subrange(a, b));
        let r = spec_remove_extension(p);
        assert(r =~= p.take(r.len() as int));
    } else {
        assert(p.take(p.len() as int) =~= p);
    }
}

} // verus!
