//! Character-level text operations used by the companion: trimming,
//! whitespace collapsing, markup stripping, substring search, replacement,
//! integer parsing and rendering.
use vstd::prelude::*;
use vstd::string::*;

verus! {

/// Unicode `White_Space` property (what `char::is_whitespace` tests).
pub open spec fn is_ws(c: char) -> bool {
    let u = c as u32;
    (0x9 <= u <= 0xd) || u == 0x20 || u == 0x85 || u == 0xa0 || u == 0x1680 || (0x2000 <= u
        <= 0x200a) || u == 0x2028 || u == 0x2029 || u == 0x202f || u == 0x205f || u == 0x3000
}

pub fn is_whitespace(c: char) -> (b: bool)
    ensures
        b == is_ws(c),
{
    let u = c as u32;
    (0x9 <= u && u <= 0xd) || u == 0x20 || u == 0x85 || u == 0xa0 || u == 0x1680 || (0x2000 <= u
        && u <= 0x200a) || u == 0x2028 || u == 0x2029 || u == 0x202f || u == 0x205f || u == 0x3000
}

/// Drops leading whitespace.
pub open spec fn trim_start(s: Seq<char>) -> Seq<char>
    decreases s.len(),
{
    if s.len() > 0 && is_ws(s[0]) {
        trim_start(s.drop_first())
    } else {
        s
    }
}

/// Drops trailing whitespace.
pub open spec fn trim_end(s: Seq<char>) -> Seq<char>
    decreases s.len(),
{
    if s.len() > 0 && is_ws(s.last()) {
        trim_end(s.drop_last())
    } else {
        s
    }
}

/// What `str::trim` returns.
pub open spec fn trimmed(s: Seq<char>) -> Seq<char> {
    trim_end(trim_start(s))
}

proof fn lemma_trim_start_skip(s: Seq<char>, i: int)
    requires
        0 <= i <= s.len(),
        forall|k: int| 0 <= k < i ==> is_ws(#[trigger] s[k]),
    ensures
        trim_start(s) == trim_start(s.subrange(i, s.len() as int)),
    decreases i,
{
    if i > 0 {
        let t = s.drop_first();
        assert(t.subrange(i - 1, t.len() as int) =~= s.subrange(i, s.len() as int));
        assert forall|k: int| 0 <= k < i - 1 implies is_ws(#[trigger] t[k]) by {
            assert(t[k] == s[k + 1]);
        }
        lemma_trim_start_skip(t, i - 1);
    } else {
        assert(s.subrange(0, s.len() as int) =~= s);
    }
}

proof fn lemma_trim_end_skip(s: Seq<char>, j: int)
    requires
        0 <= j <= s.len(),
        forall|k: int| j <= k < s.len() ==> is_ws(#[trigger] s[k]),
    ensures
        trim_end(s) == trim_end(s.subrange(0, j)),
    decreases s.len() - j,
{
    if j < s.len() {
        let t = s.drop_last();
        assert(t.subrange(0, j) =~= s.subrange(0, j));
        assert forall|k: int| j <= k < t.len() implies is_ws(#[trigger] t[k]) by {
            assert(t[k] == s[k]);
        }
        lemma_trim_end_skip(t, j);
    } else {
        assert(s.subrange(0, j) =~= s);
    }
}

proof fn lemma_trim_start_shape(s: Seq<char>)
    ensures
        trim_start(s).len() == 0 || !is_ws(trim_start(s)[0]),
    decreases s.len(),
{
    if s.len() > 0 && is_ws(s[0]) {
        lemma_trim_start_shape(s.drop_first());
    }
}

proof fn lemma_trim_end_shape(s: Seq<char>)
    ensures
        trim_end(s).len() <= s.len(),
        forall|k: int| 0 <= k < trim_end(s).len() ==> trim_end(s)[k] == s[k],
        trim_end(s).len() == 0 || !is_ws(trim_end(s).last()),
    decreases s.len(),
{
    if s.len() > 0 && is_ws(s.last()) {
        let t = s.drop_last();
        lemma_trim_end_shape(t);
        assert forall|k: int| 0 <= k < trim_end(s).len() implies trim_end(s)[k] == s[k] by {
            assert(trim_end(s)[k] == t[k]);
        }
    }
}

/// Text with no whitespace at either end is its own trim.
pub proof fn lemma_trim_fixed(s: Seq<char>)
    requires
        s.len() > 0 ==> !is_ws(s[0]) && !is_ws(s.last()),
    ensures
        trimmed(s) == s,
{
}

/// Trimming twice gives what trimming once gives.
pub proof fn lemma_trim_idempotent(s: Seq<char>)
    ensures
        trimmed(trimmed(s)) == trimmed(s),
{
    let t = trim_start(s);
    let u = trim_end(t);
    lemma_trim_start_shape(s);
    lemma_trim_end_shape(t);
    if u.len() > 0 {
        assert(u[0] == t[0]);
    }
    lemma_trim_fixed(u);
}

/// `str::trim`: the string without leading and trailing whitespace.
pub fn trim(s: &str) -> (r: &str)
    ensures
        r@ == trimmed(s@),
{
    let n = s.unicode_len();
    let mut i: usize = 0;
    while i < n && is_whitespace(s.get_char(i))
        invariant
            n == s@.len(),
            i <= n,
            forall|k: int| 0 <= k < i ==> is_ws(#[trigger] s@[k]),
        decreases n - i,
    {
        i = i + 1;
    }
    proof {
        lemma_trim_start_skip(s@, i as int);
        let t = s@.subrange(i as int, n as int);
        if i < n {
            assert(t[0] == s@[i as int]);
        }
        assert(trim_start(t) == t);
    }
    let mut j: usize = n;
    while j > i && is_whitespace(s.get_char(j - 1))
        invariant
            n == s@.len(),
            i <= j <= n,
            forall|k: int| j <= k < n ==> is_ws(#[trigger] s@[k]),
        decreases j,
    {
        j = j - 1;
    }
    proof {
        let t = s@.subrange(i as int, n as int);
        let jj = j - i;
        assert forall|k: int| jj <= k < t.len() implies is_ws(#[trigger] t[k]) by {
            assert(t[k] == s@[k + i]);
        }
        lemma_trim_end_skip(t, jj);
        let u = t.subrange(0, jj);
        assert(u =~= s@.subrange(i as int, j as int));
        if jj > 0 {
            assert(u.last() == s@[j - 1]);
        }
        assert(trim_end(u) == u);
    }
    s.substring_char(i, j)
}

/// True when `s` begins with `p`.
pub open spec fn has_prefix(s: Seq<char>, p: Seq<char>) -> bool {
    p.len() <= s.len() && s.subrange(0, p.len() as int) == p
}

/// True when `n` occurs in `h` as a contiguous piece.
pub open spec fn has_infix(h: Seq<char>, n: Seq<char>) -> bool {
    exists|i: int| 0 <= i && i + n.len() <= h.len() && #[trigger] h.subrange(i, i + n.len()) == n
}

/// Whether `p` occurs in `s` at position `at`.
fn matches_at(s: &str, at: usize, p: &str) -> (b: bool)
    requires
        at <= s@.len(),
    ensures
        b == (at + p@.len() <= s@.len() && s@.subrange(at as int, at + p@.len()) == p@),
{
    let n = s.unicode_len();
    let m = p.unicode_len();
    if m > n - at {
        return false;
    }
    let mut k: usize = 0;
    while k < m
        invariant
            n == s@.len(),
            m == p@.len(),
            at + m <= n,
            k <= m,
            forall|q: int| 0 <= q < k ==> s@[at + q] == p@[q],
        decreases m - k,
    {
        if s.get_char(at + k) != p.get_char(k) {
            proof {
                let w = s@.subrange(at as int, at + m);
                assert(w[k as int] != p@[k as int]);
            }
            return false;
        }
        k = k + 1;
    }
    assert(s@.subrange(at as int, at + m) =~= p@);
    true
}

/// `str::starts_with` for a string pattern.
pub fn starts_with(s: &str, p: &str) -> (b: bool)
    ensures
        b == has_prefix(s@, p@),
{
    matches_at(s, 0, p)
}

/// String equality by characters.
pub fn str_eq(a: &str, b: &str) -> (r: bool)
    ensures
        r == (a@ == b@),
{
    let n = a.unicode_len();
    let m = b.unicode_len();
    if n != m {
        return false;
    }
    let r = matches_at(a, 0, b);
    proof {
        if r {
            assert(a@ =~= a@.subrange(0, n as int));
        } else {
            assert(a@.subrange(0, n as int) =~= a@);
        }
    }
    r
}

/// `str::contains` for a string pattern.
pub fn contains(h: &str, n: &str) -> (r: bool)
    ensures
        r == has_infix(h@, n@),
{
    let hl = h.unicode_len();
    let nl = n.unicode_len();
    if nl > hl {
        return false;
    }
    let last = hl - nl;
    let mut i: usize = 0;
    loop
        invariant
            hl == h@.len(),
            nl == n@.len(),
            last == hl - nl,
            i <= last,
            forall|q: int| 0 <= q < i ==> #[trigger] h@.subrange(q, q + nl) != n@,
        decreases last - i,
    {
        if matches_at(h, i, n) {
            return true;
        }
        if i == last {
            return false;
        }
        i = i + 1;
    }
}

/// `trim_start_matches`: removes every leading repetition of `p` (non-empty).
pub open spec fn strip_prefixes(s: Seq<char>, p: Seq<char>) -> Seq<char>
    recommends
        p.len() > 0,
    decreases s.len(),
{
    if p.len() > 0 && has_prefix(s, p) {
        strip_prefixes(s.subrange(p.len() as int, s.len() as int), p)
    } else {
        s
    }
}

pub fn trim_start_matches<'a>(s: &'a str, p: &str) -> (r: &'a str)
    requires
        p@.len() > 0,
    ensures
        r@ == strip_prefixes(s@, p@),
{
    let n = s.unicode_len();
    let m = p.unicode_len();
    let mut i: usize = 0;
    assert(s@.subrange(0, n as int) =~= s@);
    while matches_at(s, i, p)
        invariant
            n == s@.len(),
            m == p@.len(),
            m > 0,
            i <= n,
            strip_prefixes(s@, p@) == strip_prefixes(s@.subrange(i as int, n as int), p@),
        decreases n - i,
    {
        proof {
            let t = s@.subrange(i as int, n as int);
            assert(t.subrange(0, m as int) =~= s@.subrange(i as int, i + m));
            assert(t.subrange(m as int, t.len() as int) =~= s@.subrange(i + m, n as int));
        }
        i = i + m;
    }
    proof {
        let t = s@.subrange(i as int, n as int);
        if m <= t.len() {
            assert(t.subrange(0, m as int) =~= s@.subrange(i as int, i + m));
        }
    }
    s.substring_char(i, n)
}

/// Characters removed before text is shown: markdown emphasis, headings and
/// code ticks, and with `quotes` also double quotes.
pub open spec fn is_markup(c: char, quotes: bool) -> bool {
    c == '*' || c == '#' || c == '`' || (quotes && c == '"')
}

/// Markup-free text with every run of whitespace turned into one space and no
/// space at either end. `pending` records whitespace seen since the last word
/// character, `started` whether any word character has been produced.
pub open spec fn clean(s: Seq<char>, quotes: bool, pending: bool, started: bool) -> Seq<char>
    decreases s.len(),
{
    if s.len() == 0 {
        Seq::empty()
    } else if is_markup(s[0], quotes) {
        clean(s.drop_first(), quotes, pending, started)
    } else if is_ws(s[0]) {
        clean(s.drop_first(), quotes, started, started)
    } else {
        (if pending {
            seq![' ']
        } else {
            Seq::empty()
        }) + seq![s[0]] + clean(s.drop_first(), quotes, false, true)
    }
}

/// Markup removed, then the words joined by single spaces.
pub open spec fn cleaned(s: Seq<char>, quotes: bool) -> Seq<char> {
    clean(s, quotes, false, false)
}

/// Removes markup characters, splits on whitespace and joins the words with
/// single spaces.
pub fn clean_text(s: &str, quotes: bool) -> (r: String)
    ensures
        r@ == cleaned(s@, quotes),
{
    proof {
        reveal_strlit(" ");
    }
    let n = s.unicode_len();
    let mut out = String::new();
    let mut pending = false;
    let mut started = false;
    let mut i: usize = 0;
    assert(s@.subrange(0, n as int) =~= s@);
    while i < n
        invariant
            n == s@.len(),
            i <= n,
            out@ + clean(s@.subrange(i as int, n as int), quotes, pending, started) == cleaned(
                s@,
                quotes,
            ),
        decreases n - i,
    {
        let c = s.get_char(i);
        let ghost t = s@.subrange(i as int, n as int);
        assert(t.drop_first() =~= s@.subrange(i + 1, n as int));
        assert(t[0] == c);
        if c == '*' || c == '#' || c == '`' || (quotes && c == '"') {
        } else if is_whitespace(c) {
            pending = started;
        } else {
            let ghost before = out@;
            if pending {
                proof {
                    reveal_strlit(" ");
                }
                out.append(" ");
                assert(out@ == before + seq![' ']);
            } else {
                assert(out@ =~= before + Seq::<char>::empty());
            }
            let ghost mid = out@;
            let piece = s.substring_char(i, i + 1);
            assert(piece@ =~= seq![c]);
            out.append(piece);
            assert(out@ == mid + seq![c]);
            pending = false;
            started = true;
        }
        i = i + 1;
    }
    assert(out@ + Seq::empty() =~= out@);
    out
}

/// Text as `clean` leaves it: no markup, and each whitespace is a single space
/// between two word characters (with `started`, one may also open the text).
pub open spec fn tidy(t: Seq<char>, quotes: bool, started: bool) -> bool
    decreases t.len(),
{
    if t.len() == 0 {
        true
    } else if is_markup(t[0], quotes) {
        false
    } else if is_ws(t[0]) {
        &&& t[0] == ' '
        &&& started
        &&& t.len() >= 2
        &&& !is_ws(t[1])
        &&& !is_markup(t[1], quotes)
        &&& tidy(t.drop_first().drop_first(), quotes, true)
    } else {
        tidy(t.drop_first(), quotes, true)
    }
}

proof fn lemma_clean_is_tidy(s: Seq<char>, quotes: bool, pending: bool, started: bool)
    requires
        pending ==> started,
    ensures
        tidy(clean(s, quotes, pending, started), quotes, started),
    decreases s.len(),
{
    if s.len() == 0 {
    } else if is_markup(s[0], quotes) {
        lemma_clean_is_tidy(s.drop_first(), quotes, pending, started);
    } else if is_ws(s[0]) {
        lemma_clean_is_tidy(s.drop_first(), quotes, started, started);
    } else {
        let rest = clean(s.drop_first(), quotes, false, true);
        lemma_clean_is_tidy(s.drop_first(), quotes, false, true);
        let r = clean(s, quotes, pending, started);
        assert(is_ws(' ')) by {
            assert(' ' as u32 == 0x20);
        }
        if pending {
            assert(r == seq![' '] + seq![s[0]] + rest);
            assert(r.drop_first().drop_first() =~= rest);
            assert(r[1] == s[0]);
        } else {
            assert(r =~= seq![s[0]] + rest);
            assert(r.drop_first() =~= rest);
        }
    }
}

proof fn lemma_tidy_is_clean(t: Seq<char>, quotes: bool, started: bool)
    requires
        tidy(t, quotes, started),
    ensures
        clean(t, quotes, false, started) == t,
    decreases t.len(),
{
    if t.len() == 0 {
    } else if is_ws(t[0]) {
        let u = t.drop_first();
        let w = u.drop_first();
        lemma_tidy_is_clean(w, quotes, true);
        assert(u[0] == t[1]);
        assert(clean(u, quotes, true, true) == seq![' '] + seq![u[0]] + clean(w, quotes, false, true));
        assert(t =~= seq![' '] + seq![u[0]] + w);
    } else {
        lemma_tidy_is_clean(t.drop_first(), quotes, true);
        assert(t =~= seq![t[0]] + t.drop_first());
    }
}

/// Cleaned text holds no markup, and its only whitespace is single spaces
/// between word characters.
pub proof fn lemma_cleaned_is_tidy(s: Seq<char>, quotes: bool)
    ensures
        tidy(cleaned(s, quotes), quotes, false),
{
    lemma_clean_is_tidy(s, quotes, false, false);
}

/// Cleaning text twice gives what cleaning it once gives.
pub proof fn lemma_clean_idempotent(s: Seq<char>, quotes: bool)
    ensures
        cleaned(cleaned(s, quotes), quotes) == cleaned(s, quotes),
{
    lemma_clean_is_tidy(s, quotes, false, false);
    lemma_tidy_is_clean(cleaned(s, quotes), quotes, false);
}

/// Non-overlapping left-to-right replacement of `p` (non-empty) by `r`.
pub open spec fn replaced(s: Seq<char>, p: Seq<char>, r: Seq<char>) -> Seq<char>
    recommends
        p.len() > 0,
    decreases s.len(),
{
    if s.len() == 0 || p.len() == 0 {
        s
    } else if has_prefix(s, p) {
        r + replaced(s.subrange(p.len() as int, s.len() as int), p, r)
    } else {
        seq![s[0]] + replaced(s.drop_first(), p, r)
    }
}

/// `str::replace` for a non-empty pattern.
pub fn replace(s: &str, p: &str, r: &str) -> (out: String)
    requires
        p@.len() > 0,
    ensures
        out@ == replaced(s@, p@, r@),
{
    let n = s.unicode_len();
    let m = p.unicode_len();
    let mut out = String::new();
    let mut i: usize = 0;
    assert(s@.subrange(0, n as int) =~= s@);
    while i < n
        invariant
            n == s@.len(),
            m == p@.len(),
            m > 0,
            i <= n,
            out@ + replaced(s@.subrange(i as int, n as int), p@, r@) == replaced(s@, p@, r@),
        decreases n - i,
    {
        let ghost t = s@.subrange(i as int, n as int);
        if matches_at(s, i, p) {
            assert(t.subrange(0, m as int) =~= s@.subrange(i as int, i + m));
            assert(t.subrange(m as int, t.len() as int) =~= s@.subrange(i + m, n as int));
            let ghost before = out@;
            out.append(r);
            assert(out@ == before + r@);
            i = i + m;
        } else {
            proof {
                if m <= t.len() {
                    assert(t.subrange(0, m as int) =~= s@.subrange(i as int, i + m));
                }
            }
            assert(t.drop_first() =~= s@.subrange(i + 1, n as int));
            let piece = s.substring_char(i, i + 1);
            assert(piece@ =~= seq![t[0]]);
            let ghost before = out@;
            out.append(piece);
            assert(out@ == before + seq![t[0]]);
            i = i + 1;
        }
    }
    assert(out@ + s@.subrange(n as int, n as int) =~= out@);
    out
}

/// `p` starts at no position of `s`.
pub open spec fn lacks(s: Seq<char>, p: Seq<char>) -> bool {
    forall|i: int| 0 <= i <= s.len() ==> !has_prefix(#[trigger] s.subrange(i, s.len() as int), p)
}

/// No character of `s` is an opening brace.
pub open spec fn brace_free(s: Seq<char>) -> bool {
    forall|k: int| 0 <= k < s.len() ==> #[trigger] s[k] != '{'
}

/// A placeholder: an opening brace, then characters that are no braces,
/// then a closing brace.
pub open spec fn placeholder_shaped(t: Seq<char>) -> bool {
    &&& t.len() >= 2
    &&& t[0] == '{'
    &&& t[t.len() - 1] == '}'
    &&& forall|i: int| 0 < i < t.len() - 1 ==> #[trigger] t[i] != '{' && t[i] != '}'
}

/// Replacing a pattern that occurs nowhere changes nothing.
pub proof fn lemma_replaced_absent(s: Seq<char>, p: Seq<char>, r: Seq<char>)
    requires
        p.len() > 0,
        lacks(s, p),
    ensures
        replaced(s, p, r) == s,
    decreases s.len(),
{
    if s.len() > 0 {
        assert(s.subrange(0, s.len() as int) =~= s);
        assert(!has_prefix(s.subrange(0, s.len() as int), p));
        let t = s.drop_first();
        assert forall|i: int| 0 <= i <= t.len() implies !has_prefix(
            #[trigger] t.subrange(i, t.len() as int),
            p,
        ) by {
            assert(t.subrange(i, t.len() as int) =~= s.subrange(i + 1, s.len() as int));
        }
        lemma_replaced_absent(t, p, r);
        assert(seq![s[0]] + t =~= s);
    }
}

/// A text that is exactly the pattern becomes the replacement.
pub proof fn lemma_replaced_whole(p: Seq<char>, r: Seq<char>)
    requires
        p.len() > 0,
    ensures
        replaced(p, p, r) == r,
{
    let rest = p.subrange(p.len() as int, p.len() as int);
    assert(p.subrange(0, p.len() as int) =~= p);
    assert(has_prefix(p, p));
    assert(rest.len() == 0);
    assert(replaced(rest, p, r) == rest);
    assert(replaced(p, p, r) == r + rest);
    assert(r + rest =~= r);
}

/// A pattern that starts with an opening brace occurs nowhere in a text
/// without one.
pub proof fn lemma_brace_free_lacks(s: Seq<char>, p: Seq<char>)
    requires
        brace_free(s),
        p.len() > 0,
        p[0] == '{',
    ensures
        lacks(s, p),
{
    assert forall|i: int| 0 <= i <= s.len() implies !has_prefix(
        #[trigger] s.subrange(i, s.len() as int),
        p,
    ) by {
        let u = s.subrange(i, s.len() as int);
        if has_prefix(u, p) {
            assert(u.subrange(0, p.len() as int)[0] == p[0]);
            assert(s[i] == '{');
        }
    }
}

/// One placeholder occurs nowhere in another.
pub proof fn lemma_placeholder_lacks(t: Seq<char>, p: Seq<char>)
    requires
        placeholder_shaped(t),
        placeholder_shaped(p),
        t != p,
    ensures
        lacks(t, p),
{
    assert forall|i: int| 0 <= i <= t.len() implies !has_prefix(
        #[trigger] t.subrange(i, t.len() as int),
        p,
    ) by {
        let u = t.subrange(i, t.len() as int);
        if has_prefix(u, p) {
            let n = p.len() as int;
            assert(u.subrange(0, n)[0] == p[0]);
            assert(t[i] == '{');
            assert(i == 0);
            assert(u.subrange(0, n)[n - 1] == p[n - 1]);
            assert(t[n - 1] == '}');
            assert(n == t.len());
            assert(u.subrange(0, n) =~= t);
        }
    }
}

/// Index of the first occurrence of `p` in `h` at or after `i`, or -1.
pub open spec fn find_from(h: Seq<char>, p: Seq<char>, i: int) -> int
    decreases h.len() - i,
{
    if i < 0 || i + p.len() > h.len() {
        -1
    } else if h.subrange(i, i + p.len()) == p {
        i
    } else if i >= h.len() {
        -1
    } else {
        find_from(h, p, i + 1)
    }
}

/// Index of the first occurrence of `p` in `h`.
pub fn find(h: &str, p: &str) -> (r: Option<usize>)
    ensures
        match r {
            Some(i) => i == find_from(h@, p@, 0),
            None => find_from(h@, p@, 0) == -1,
        },
{
    let n = h.unicode_len();
    let m = p.unicode_len();
    if m == 0 {
        assert(h@.subrange(0, 0) =~= p@);
        return Some(0);
    }
    let mut i: usize = 0;
    while i <= n
        invariant
            n == h@.len(),
            m == p@.len(),
            m > 0,
            i <= n + 1,
            find_from(h@, p@, 0) == find_from(h@, p@, i as int),
        decreases n + 1 - i,
    {
        if m > n - i {
            return None;
        }
        if matches_at(h, i, p) {
            return Some(i);
        }
        i = i + 1;
    }
    None
}

/// `str::split_once`: the text before and after the first occurrence of `p`.
pub fn split_once<'a>(s: &'a str, p: &str) -> (r: Option<(&'a str, &'a str)>)
    ensures
        find_from(s@, p@, 0) == -1 ==> r is None,
        find_from(s@, p@, 0) != -1 ==> (r matches Some((a, b)) && a@ == s@.subrange(
            0,
            find_from(s@, p@, 0),
        ) && b@ == s@.subrange(find_from(s@, p@, 0) + p@.len(), s@.len() as int)),
{
    match find(s, p) {
        None => None,
        Some(i) => {
            proof {
                lemma_find_from_bounds(s@, p@, 0);
            }
            let n = s.unicode_len();
            let m = p.unicode_len();
            Some((s.substring_char(0, i), s.substring_char(i + m, n)))
        },
    }
}

proof fn lemma_find_from_bounds(h: Seq<char>, p: Seq<char>, i: int)
    ensures
        find_from(h, p, i) == -1 || (i <= find_from(h, p, i) && find_from(h, p, i) + p.len()
            <= h.len()),
    decreases h.len() - i,
{
    if !(i < 0 || i + p.len() > h.len()) && h.subrange(i, i + p.len()) != p && i < h.len() {
        lemma_find_from_bounds(h, p, i + 1);
    }
}

pub open spec fn digit_char(d: int) -> char {
    ('0' as int + d) as char
}

/// Decimal digits of a natural number, most significant first.
pub open spec fn decimal_digits(n: nat) -> Seq<char>
    decreases n,
{
    if n < 10 {
        seq![digit_char(n as int)]
    } else {
        decimal_digits(n / 10) + seq![digit_char((n % 10) as int)]
    }
}

/// Decimal rendering of an integer, with a leading `-` when negative.
pub open spec fn decimal(n: int) -> Seq<char> {
    if n < 0 {
        seq!['-'] + decimal_digits((-n) as nat)
    } else {
        decimal_digits(n as nat)
    }
}

/// The one-character text of decimal digit `d`.
fn digit_text(d: u64) -> (t: &'static str)
    requires
        d < 10,
    ensures
        t@ == seq![digit_char(d as int)],
{
    proof {
        reveal_strlit("0");
        reveal_strlit("1");
        reveal_strlit("2");
        reveal_strlit("3");
        reveal_strlit("4");
        reveal_strlit("5");
        reveal_strlit("6");
        reveal_strlit("7");
        reveal_strlit("8");
        reveal_strlit("9");
    }
    let t = if d == 0 {
        "0"
    } else if d == 1 {
        "1"
    } else if d == 2 {
        "2"
    } else if d == 3 {
        "3"
    } else if d == 4 {
        "4"
    } else if d == 5 {
        "5"
    } else if d == 6 {
        "6"
    } else if d == 7 {
        "7"
    } else if d == 8 {
        "8"
    } else {
        "9"
    };
    assert(t@ =~= seq![digit_char(d as int)]);
    t
}

/// Renders an unsigned integer in decimal, as `u64`'s `Display` does.
pub fn u64_to_text(n: u64) -> (s: String)
    ensures
        s@ == decimal(n as int),
{
    let mut out = String::new();
    let mut m = n;
    assert(decimal_digits(n as nat) =~= decimal_digits(m as nat) + out@);
    while m >= 10
        invariant
            decimal_digits(n as nat) == decimal_digits(m as nat) + out@,
        decreases m,
    {
        let rest = out;
        out = String::from_str(digit_text(m % 10)).concat(rest.as_str());
        proof {
            assert(decimal_digits(m as nat) == decimal_digits((m / 10) as nat) + seq![digit_char(
                (m % 10) as int,
            )]);
            assert(decimal_digits(n as nat) =~= decimal_digits((m / 10) as nat) + out@);
        }
        m = m / 10;
    }
    let rest = out;
    out = String::from_str(digit_text(m)).concat(rest.as_str());
    assert(decimal_digits(n as nat) =~= out@);
    out
}

/// Renders an integer in decimal, with a leading minus sign when negative, as
/// `i64`'s `Display` does.
pub fn i64_to_text(n: i64) -> (s: String)
    ensures
        s@ == decimal(n as int),
{
    if n >= 0 {
        u64_to_text(n as u64)
    } else {
        let magnitude: u64 = if n == i64::MIN {
            9223372036854775808
        } else {
            (-n) as u64
        };
        let digits = u64_to_text(magnitude);
        proof {
            reveal_strlit("-");
        }
        let out = String::from_str("-").concat(digits.as_str());
        assert(out@ =~= decimal(n as int));
        out
    }
}

pub open spec fn is_digit(c: char) -> bool {
    48 <= c as u32 <= 57
}

/// Value of a string of decimal digits.
pub open spec fn digits_value(d: Seq<char>) -> int
    decreases d.len(),
{
    if d.len() == 0 {
        0
    } else {
        digits_value(d.drop_last()) * 10 + (d.last() as u32 - 48)
    }
}

pub open spec fn all_digits(d: Seq<char>) -> bool {
    d.len() > 0 && forall|k: int| 0 <= k < d.len() ==> is_digit(#[trigger] d[k])
}

/// What `str::parse::<i64>` accepts: an optional `+` or `-` followed by at
/// least one decimal digit, with the value inside the `i64` range.
pub open spec fn parsed_i64(s: Seq<char>) -> Option<int> {
    let signed = s.len() > 0 && (s[0] == '-' || s[0] == '+');
    let d = if signed {
        s.drop_first()
    } else {
        s
    };
    let v = if s.len() > 0 && s[0] == '-' {
        -digits_value(d)
    } else {
        digits_value(d)
    };
    if all_digits(d) && i64::MIN <= v <= i64::MAX {
        Some(v)
    } else {
        None
    }
}

proof fn lemma_digits_prefix_le(d: Seq<char>, i: int)
    requires
        0 <= i <= d.len(),
        forall|k: int| 0 <= k < d.len() ==> is_digit(#[trigger] d[k]),
    ensures
        0 <= digits_value(d.subrange(0, i)) <= digits_value(d),
    decreases d.len() - i,
{
    if i == d.len() {
        assert(d.subrange(0, i) =~= d);
        lemma_digits_nonneg(d);
    } else {
        lemma_digits_prefix_le(d, i + 1);
        let a = d.subrange(0, i + 1);
        assert(a.drop_last() =~= d.subrange(0, i));
        assert(is_digit(d[i]));
        assert(a.last() == d[i]);
        lemma_digits_nonneg(d.subrange(0, i));
    }
}

proof fn lemma_digits_nonneg(d: Seq<char>)
    requires
        forall|k: int| 0 <= k < d.len() ==> is_digit(#[trigger] d[k]),
    ensures
        digits_value(d) >= 0,
    decreases d.len(),
{
    if d.len() > 0 {
        let e = d.drop_last();
        assert forall|k: int| 0 <= k < e.len() implies is_digit(#[trigger] e[k]) by {
            assert(e[k] == d[k]);
        }
        lemma_digits_nonneg(e);
        assert(is_digit(d[d.len() - 1]));
    }
}

proof fn lemma_decimal_digits_value(k: nat)
    ensures
        all_digits(decimal_digits(k)),
        digits_value(decimal_digits(k)) == k,
    decreases k,
{
    let d = decimal_digits(k);
    if k < 10 {
        let c = digit_char(k as int);
        assert(c as u32 == 48 + k);
        assert(d.drop_last() =~= Seq::<char>::empty());
        assert(digits_value(d) == digits_value(d.drop_last()) * 10 + (d.last() as u32 - 48));
    } else {
        lemma_decimal_digits_value(k / 10);
        let c = digit_char((k % 10) as int);
        assert(c as u32 == 48 + k % 10);
        assert(d.drop_last() =~= decimal_digits(k / 10));
        assert(d.last() == c);
        assert(digits_value(d) == digits_value(d.drop_last()) * 10 + (d.last() as u32 - 48));
        assert(k == (k / 10) * 10 + k % 10);
        assert forall|i: int| 0 <= i < d.len() implies is_digit(#[trigger] d[i]) by {
            if i < d.len() - 1 {
                assert(d[i] == decimal_digits(k / 10)[i]);
            }
        }
    }
}

/// Reading back a rendered integer gives the integer.
pub proof fn lemma_parse_rendered(n: i64)
    ensures
        parsed_i64(decimal(n as int)) == Some(n as int),
{
    if n < 0 {
        let k = (-n) as nat;
        lemma_decimal_digits_value(k);
        assert(decimal(n as int).drop_first() =~= decimal_digits(k));
    } else {
        lemma_decimal_digits_value(n as nat);
        assert(is_digit(decimal_digits(n as nat)[0]));
    }
}

/// `str::parse::<i64>`.
pub fn parse_i64(s: &str) -> (r: Option<i64>)
    ensures
        match r {
            Some(v) => parsed_i64(s@) == Some(v as int),
            None => parsed_i64(s@) is None,
        },
{
    let n = s.unicode_len();
    let mut start: usize = 0;
    let mut negative = false;
    if n > 0 {
        let c = s.get_char(0);
        if c == '-' {
            negative = true;
            start = 1;
        } else if c == '+' {
            start = 1;
        }
    }
    let ghost d = if start == 1 {
        s@.drop_first()
    } else {
        s@
    };
    assert(d =~= s@.subrange(start as int, n as int));
    if start == n {
        return None;
    }
    let mut acc: u128 = 0;
    let mut i: usize = start;
    while i < n
        invariant
            n == s@.len(),
            start <= i <= n,
            d == s@.subrange(start as int, n as int),
            d == (if s@.len() > 0 && (s@[0] == '-' || s@[0] == '+') {
                s@.drop_first()
            } else {
                s@
            }),
            negative == (s@.len() > 0 && s@[0] == '-'),
            forall|k: int| 0 <= k < i - start ==> is_digit(#[trigger] d[k]),
            acc == digits_value(d.subrange(0, i - start)),
            acc <= 9223372036854775808,
        decreases n - i,
    {
        let c = s.get_char(i);
        assert(d[i - start] == c);
        let cu = c as u32;
        if !(48 <= cu && cu <= 57) {
            assert(!is_digit(d[i - start]));
            return None;
        }
        let digit = (cu - 48) as u128;
        let ghost pre = d.subrange(0, i - start);
        let ghost nxt = d.subrange(0, i - start + 1);
        assert(nxt.drop_last() =~= pre);
        assert(nxt.last() == c);
        acc = acc * 10 + digit;
        if acc > 9223372036854775808 {
            proof {
                if all_digits(d) {
                    lemma_digits_prefix_le(d, i - start + 1);
                }
            }
            return None;
        }
        i = i + 1;
    }
    assert(d.subrange(0, n - start) =~= d);
    assert(all_digits(d));
    if negative {
        if acc == 9223372036854775808 {
            Some(i64::MIN)
        } else {
            Some(-(acc as i64))
        }
    } else if acc > 9223372036854775807 {
        None
    } else {
        Some(acc as i64)
    }
}

/// Lower-case mapping of a string as `str::to_lowercase` computes it.
pub uninterp spec fn lowercase_of(s: Seq<char>) -> Seq<char>;

/// Calls `str::to_lowercase`, which maps every character to its Unicode
/// lower-case form; the result is a function of the input alone.
#[verifier::external_body]
pub fn to_lowercase(s: &str) -> (r: String)
    ensures
        r@ == lowercase_of(s@),
{
    s.to_lowercase()
}

/// Upper-case mapping of one character as `char::to_uppercase` computes it.
pub uninterp spec fn uppercase_of(c: char) -> Seq<char>;

/// Calls `char::to_uppercase` and collects the characters it yields.
#[verifier::external_body]
pub fn char_to_uppercase(c: char) -> (r: String)
    ensures
        r@ == uppercase_of(c),
{
    c.to_uppercase().collect::<String>()
}

/// The pieces of `parts` joined with `sep` between them.
pub open spec fn joined(parts: Seq<Seq<char>>, sep: Seq<char>) -> Seq<char>
    decreases parts.len(),
{
    if parts.len() == 0 {
        Seq::empty()
    } else if parts.len() == 1 {
        parts[0]
    } else {
        joined(parts.drop_last(), sep) + sep + parts.last()
    }
}

pub open spec fn views(v: Seq<String>) -> Seq<Seq<char>> {
    v.map_values(|x: String| x@)
}

/// `[String]::join`.
pub fn join(parts: &Vec<String>, sep: &str) -> (r: String)
    ensures
        r@ == joined(views(parts@), sep@),
{
    let mut out = String::new();
    let n = parts.len();
    let mut i: usize = 0;
    while i < n
        invariant
            n == parts@.len(),
            i <= n,
            out@ == joined(views(parts@).take(i as int), sep@),
        decreases n - i,
    {
        let ghost before = views(parts@).take(i as int);
        let ghost after = views(parts@).take(i + 1);
        assert(after.drop_last() =~= before);
        assert(after.last() == parts@[i as int]@);
        if i > 0 {
            out.append(sep);
        } else {
            assert(out@ =~= Seq::<char>::empty());
        }
        out.append(parts[i].as_str());
        i = i + 1;
    }
    assert(views(parts@).take(n as int) =~= views(parts@));
    out
}

/// `s` with its first character upper-cased.
pub open spec fn capitalized(s: Seq<char>) -> Seq<char> {
    if s.len() == 0 {
        Seq::empty()
    } else {
        uppercase_of(s[0]) + s.drop_first()
    }
}

pub fn capitalize(s: &str) -> (r: String)
    ensures
        r@ == capitalized(s@),
{
    let n = s.unicode_len();
    if n == 0 {
        return String::new();
    }
    let first = char_to_uppercase(s.get_char(0));
    let rest = s.substring_char(1, n);
    assert(rest@ =~= s@.drop_first());
    first.concat(rest)
}

} // verus!
