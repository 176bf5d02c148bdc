//! Unix path text, as `std::path` reads it.
//!
//! A path is a string of characters. `/` separates its segments; a path that
//! starts with `/` is absolute. Empty segments and `.` segments name nothing:
//! they are skipped wherever they stand, except that a relative path that
//! starts with a `.` segment keeps it as its first component.
use vstd::prelude::*;

verus! {

/// The path starts at the root.
pub open spec fn is_absolute(p: Seq<char>) -> bool {
    p.len() > 0 && p[0] == '/'
}

/// `base` with `p` appended: an absolute `p` replaces `base`; otherwise a
/// separator is put between the two unless `base` is empty or already ends
/// with one.
pub open spec fn pushed(base: Seq<char>, p: Seq<char>) -> Seq<char> {
    if is_absolute(p) {
        p
    } else if base.len() > 0 && base.last() != '/' {
        base + seq!['/'] + p
    } else {
        base + p
    }
}

/// Where the first named segment at or after position `i` starts: empty and
/// `.` segments are passed over. `p.len()` when there is none.
pub open spec fn skip_unnamed(p: Seq<char>, i: int) -> int
    decreases p.len() - i,
{
    if i >= p.len() {
        p.len() as int
    } else if p[i] == '/' {
        skip_unnamed(p, i + 1)
    } else if p[i] == '.' && (i + 1 == p.len() || p[i + 1] == '/') {
        skip_unnamed(p, i + 1)
    } else {
        i
    }
}

/// Where `p[lo..hi]` ends once its trailing empty and `.` segments are cut off.
pub open spec fn trim_end(p: Seq<char>, lo: int, hi: int) -> int
    decreases hi - lo,
{
    if hi <= lo {
        hi
    } else if p[hi - 1] == '/' {
        trim_end(p, lo, hi - 1)
    } else if p[hi - 1] == '.' && (hi - 1 == lo || p[hi - 2] == '/') {
        trim_end(p, lo, hi - 1)
    } else {
        hi
    }
}

/// Where the last segment of `p[lo..hi]` starts: just after its last
/// separator, or `lo` when it has none.
pub open spec fn segment_start(p: Seq<char>, lo: int, hi: int) -> int
    decreases hi - lo,
{
    if hi <= lo {
        lo
    } else if p[hi - 1] == '/' {
        hi
    } else {
        segment_start(p, lo, hi - 1)
    }
}

/// Where the segments of `p` begin: after the root of an absolute path, and
/// after a leading `.` segment of a relative path.
pub open spec fn body_start(p: Seq<char>) -> int {
    if is_absolute(p) {
        1
    } else if p.len() >= 1 && p[0] == '.' && (p.len() == 1 || p[1] == '/') {
        1
    } else {
        0
    }
}

/// `p` without its last component, as `PathBuf::pop` leaves it: what
/// precedes the last named segment, less the empty and `.` segments at its
/// end. A path with no named segment after its root or leading `.` has no
/// last component: a root stays as it is, `.` and the empty path become empty.
pub open spec fn popped(p: Seq<char>) -> Seq<char> {
    let lo: int = body_start(p);
    let e: int = trim_end(p, lo, p.len() as int);
    if e > lo {
        p.subrange(0, trim_end(p, lo, segment_start(p, lo, e)))
    } else if is_absolute(p) {
        p
    } else {
        Seq::empty()
    }
}

/// The first component of the path is `~`.
pub open spec fn starts_with_tilde(p: Seq<char>) -> bool {
    p.len() >= 1 && p[0] == '~' && (p.len() == 1 || p[1] == '/')
}

/// Where what follows the leading `~` of `p` starts, once empty and `.`
/// segments are passed over.
pub open spec fn tilde_rest_start(p: Seq<char>) -> int {
    skip_unnamed(
        p,
        if p.len() > 1 {
            2
        } else {
            1
        },
    )
}

/// What follows the leading `~` of `p`, without leading or trailing empty
/// and `.` segments (what `strip_prefix("~")` gives).
pub open spec fn tilde_rest(p: Seq<char>) -> Seq<char> {
    let a: int = tilde_rest_start(p);
    p.subrange(a, trim_end(p, a, p.len() as int))
}

/// `p` with a leading `~` component replaced by the home directory `home`:
/// a path that does not start with `~` is kept; `~` alone is the home
/// directory; otherwise the rest is put under the home directory (under the
/// root, only the `~` goes: `~/a` becomes `/a`). No home directory, no result.
pub open spec fn expanded(p: Seq<char>, home: Option<Seq<char>>) -> Option<Seq<char>> {
    if !starts_with_tilde(p) {
        Some(p)
    } else if tilde_rest_start(p) == p.len() {
        home
    } else {
        match home {
            None => None,
            Some(h) => Some(pushed(h, tilde_rest(p))),
        }
    }
}

/// A single named segment: not empty, no separator, not `.`.
pub open spec fn is_named_segment(f: Seq<char>) -> bool {
    f.len() > 0 && f != seq!['.'] && forall|i: int| 0 <= i < f.len() ==> f[i] != '/'
}

/// An absolute directory path that is the root or whose last segment is
/// named (no trailing separator, no trailing `.`), as a canonical path is.
pub open spec fn is_plain_absolute_dir(d: Seq<char>) -> bool {
    is_absolute(d) && (d.len() == 1 || (d.last() != '/' && !(d.last() == '.' && d[d.len() - 2]
        == '/')))
}

proof fn lemma_segment_start_found(p: Seq<char>, lo: int, k: int, hi: int)
    requires
        0 <= lo <= k <= hi <= p.len(),
        k == lo || p[k - 1] == '/',
        forall|i: int| k <= i < hi ==> p[i] != '/',
    ensures
        segment_start(p, lo, hi) == k,
    decreases hi - k,
{
    if hi > k {
        lemma_segment_start_found(p, lo, k, hi - 1);
    }
}

proof fn lemma_skip_unnamed_lands_on_name(p: Seq<char>, i: int)
    requires
        0 <= i,
    ensures
        skip_unnamed(p, i) <= p.len(),
        skip_unnamed(p, i) < p.len() ==> i <= skip_unnamed(p, i) && p[skip_unnamed(p, i)] != '/',
    decreases p.len() - i,
{
    if i < p.len() {
        if p[i] == '/' || (p[i] == '.' && (i + 1 == p.len() || p[i + 1] == '/')) {
            lemma_skip_unnamed_lands_on_name(p, i + 1);
        }
    }
}

proof fn lemma_trim_end_bounds(p: Seq<char>, lo: int, hi: int)
    requires
        lo <= hi,
    ensures
        lo <= trim_end(p, lo, hi) <= hi,
    decreases hi - lo,
{
    if hi > lo {
        lemma_trim_end_bounds(p, lo, hi - 1);
    }
}

/// Joining onto anything an absolute path gives that path.
pub proof fn lemma_join_absolute(base: Seq<char>, p: Seq<char>)
    requires
        is_absolute(p),
    ensures
        pushed(base, p) == p,
{
}

/// Popping a named segment that was just pushed onto a plain absolute
/// directory gives back that directory.
pub proof fn lemma_pop_after_push(d: Seq<char>, f: Seq<char>)
    requires
        is_plain_absolute_dir(d),
        is_named_segment(f),
    ensures
        popped(pushed(d, f)) == d,
{
    let p = pushed(d, f);
    assert(!is_absolute(f)) by {
        assert(f[0] != '/');
    }
    if d.len() == 1 {
        assert(p == d + f);
        assert(p[p.len() - 1] == f[f.len() - 1]);
        assert(p.len() >= 2 && p[p.len() - 2] != '/' ==> p[p.len() - 2] == f[f.len() - 2]);
        assert(trim_end(p, 1, p.len() as int) == p.len()) by {
            if f.len() == 1 {
                assert(f[0] != '.') by {
                    if f[0] == '.' {
                        assert(f =~= seq!['.']);
                    }
                }
            }
        }
        lemma_segment_start_found(p, 1, 1, p.len() as int);
        assert(p.subrange(0, 1) =~= d);
    } else {
        assert(p == d + seq!['/'] + f);
        let n: int = d.len() as int;
        assert(p[n] == '/');
        assert(p[p.len() - 1] == f[f.len() - 1]);
        assert(trim_end(p, 1, p.len() as int) == p.len()) by {
            if f.len() == 1 {
                assert(f[0] != '.') by {
                    if f[0] == '.' {
                        assert(f =~= seq!['.']);
                    }
                }
            } else {
                assert(p[p.len() - 2] == f[f.len() - 2]);
            }
        }
        assert forall|i: int| n + 1 <= i < p.len() implies p[i] != '/' by {
            assert(p[i] == f[i - n - 1]);
        }
        lemma_segment_start_found(p, 1, n + 1, p.len() as int);
        assert(p[n - 1] == d[n - 1]);
        assert(p[n - 2] == d[n - 2]);
        assert(trim_end(p, 1, n) == n);
        assert(p.subrange(0, n) =~= d);
    }
}

/// With an absolute home directory, expanding an expanded path changes
/// nothing more.
pub proof fn lemma_expand_idempotent(p: Seq<char>, h: Seq<char>)
    requires
        is_absolute(h),
    ensures
        expanded(p, Some(h)) matches Some(e) ==> expanded(e, Some(h)) == Some(e),
{
    if starts_with_tilde(p) && tilde_rest_start(p) != p.len() {
        let a: int = tilde_rest_start(p);
        lemma_skip_unnamed_lands_on_name(
            p,
            if p.len() > 1 {
                2
            } else {
                1
            },
        );
        lemma_trim_end_bounds(p, a, p.len() as int);
        let rest = tilde_rest(p);
        assert(rest.len() > 0 ==> rest[0] == p[a]);
        assert(!is_absolute(rest));
        let e = pushed(h, rest);
        assert(e[0] == h[0]);
    }
}

/// Joining a relative path keeps the base as it is at the front and the
/// path as it is at the back, with exactly one separator between them when
/// the base is not empty and does not already end with one, and none
/// otherwise: nothing else is added, dropped or repeated.
pub proof fn lemma_join_relative(base: Seq<char>, p: Seq<char>)
    requires
        !(p.len() > 0 && p[0] == '/'),
    ensures
        ({
            let r = pushed(base, p);
            let sep: int = if base.len() > 0 && base.last() != '/' {
                1
            } else {
                0
            };
            &&& r.len() == base.len() + sep + p.len()
            &&& r.subrange(0, base.len() as int) == base
            &&& r.subrange(base.len() + sep, r.len() as int) == p
            &&& sep == 1 ==> r[base.len() as int] == '/'
        }),
{
    let r = pushed(base, p);
    let sep: int = if base.len() > 0 && base.last() != '/' {
        1
    } else {
        0
    };
    assert(r.subrange(0, base.len() as int) =~= base);
    assert(r.subrange(base.len() + sep, r.len() as int) =~= p);
}

/// A path that starts with `~` and has more than the `~`, expanded under an
/// absolute home directory, is an absolute path that starts with that home
/// directory and ends with what followed the `~`: the `~` is gone.
pub proof fn lemma_tilde_under_home(p: Seq<char>, h: Seq<char>)
    requires
        starts_with_tilde(p),
        tilde_rest_start(p) < p.len(),
        h.len() > 0 && h[0] == '/',
    ensures
        expanded(p, Some(h)) matches Some(e) && e.len() > 0 && e[0] == '/' && e.subrange(
            0,
            h.len() as int,
        ) == h && e.subrange(e.len() - tilde_rest(p).len(), e.len() as int) == tilde_rest(p)
            && !starts_with_tilde(e),
{
    let a: int = tilde_rest_start(p);
    lemma_skip_unnamed_lands_on_name(
        p,
        if p.len() > 1 {
            2
        } else {
            1
        },
    );
    lemma_trim_end_bounds(p, a, p.len() as int);
    let rest = tilde_rest(p);
    assert(rest.len() > 0 ==> rest[0] == p[a]);
    lemma_join_relative(h, rest);
    let e = pushed(h, rest);
    assert(e[0] == e.subrange(0, h.len() as int)[0]);
}

/// The text of an optional string.
pub open spec fn text_of(s: Option<&str>) -> Option<Seq<char>> {
    match s {
        Some(t) => Some(t@),
        None => None,
    }
}

/// The text of an optional owned string.
pub open spec fn string_text_of(s: Option<String>) -> Option<Seq<char>> {
    match s {
        Some(t) => Some(t@),
        None => None,
    }
}

/// The characters of `s`, one by one.
fn chars_of(s: &str) -> (v: Vec<char>)
    ensures
        v@ == s@,
{
    let n: usize = s.unicode_len();
    let mut v: Vec<char> = Vec::new();
    let mut i: usize = 0;
    while i < n
        invariant
            n == s@.len(),
            i <= n,
            v@ == s@.subrange(0, i as int),
        decreases n - i,
    {
        let c = s.get_char(i);
        v.push(c);
        i = i + 1;
        assert(v@ =~= s@.subrange(0, i as int));
    }
    assert(v@ =~= s@);
    v
}

fn skip_unnamed_at(v: &Vec<char>, start: usize) -> (r: usize)
    requires
        start <= v.len(),
    ensures
        r as int == skip_unnamed(v@, start as int),
        start <= r <= v.len(),
{
    let n: usize = v.len();
    let mut i: usize = start;
    while i < n
        invariant
            n == v@.len(),
            start <= i <= n,
            skip_unnamed(v@, i as int) == skip_unnamed(v@, start as int),
        decreases n - i,
    {
        if v[i] == '/' || (v[i] == '.' && (i + 1 == n || v[i + 1] == '/')) {
            i = i + 1;
        } else {
            return i;
        }
    }
    i
}

fn trim_end_at(v: &Vec<char>, lo: usize, end: usize) -> (r: usize)
    requires
        lo <= end <= v.len(),
    ensures
        r as int == trim_end(v@, lo as int, end as int),
        lo <= r <= end,
{
    let mut hi: usize = end;
    while hi > lo
        invariant
            lo <= hi <= end <= v@.len(),
            trim_end(v@, lo as int, hi as int) == trim_end(v@, lo as int, end as int),
        decreases hi,
    {
        if v[hi - 1] == '/' || (v[hi - 1] == '.' && (hi - 1 == lo || v[hi - 2] == '/')) {
            hi = hi - 1;
        } else {
            return hi;
        }
    }
    hi
}

fn segment_start_at(v: &Vec<char>, lo: usize, end: usize) -> (r: usize)
    requires
        lo <= end <= v.len(),
    ensures
        r as int == segment_start(v@, lo as int, end as int),
        lo <= r <= end,
{
    let mut hi: usize = end;
    while hi > lo
        invariant
            lo <= hi <= end <= v@.len(),
            segment_start(v@, lo as int, hi as int) == segment_start(v@, lo as int, end as int),
        decreases hi,
    {
        if v[hi - 1] == '/' {
            return hi;
        }
        hi = hi - 1;
    }
    hi
}

/// Whether the first component of `p` is `~`.
pub fn path_starts_with_tilde(p: &str) -> (r: bool)
    ensures
        r == starts_with_tilde(p@),
{
    let n: usize = p.unicode_len();
    n >= 1 && p.get_char(0) == '~' && (n == 1 || p.get_char(1) == '/')
}

/// `dirs::home_dir`: the home directory of the user, if there is one. It
/// comes from the environment and the user database, so nothing is stated
/// of it; a path that is not valid Unicode has its invalid parts replaced.
#[verifier::external_body]
pub(crate) fn home_dir() -> (r: Option<String>) {
    match dirs::home_dir() {
        Some(p) => Some(p.to_string_lossy().into_owned()),
        None => None,
    }
}

/// `s[from..to]` as a new string.
fn substring(s: &str, from: usize, to: usize) -> (r: String)
    requires
        from <= to <= s@.len(),
    ensures
        r@ == s@.subrange(from as int, to as int),
{
    String::from_str(s.substring_char(from, to))
}

/// `base` joined with `p`, as `Path::join` does on Unix.
pub fn join(base: &str, p: &str) -> (r: String)
    ensures
        r@ == pushed(base@, p@),
        p@.len() > 0 && p@[0] == '/' ==> r@ == p@,
        !(p@.len() > 0 && p@[0] == '/') && base@.len() > 0 && base@.last() != '/' ==> r@ == base@
            + seq!['/'] + p@,
        !(p@.len() > 0 && p@[0] == '/') && (base@.len() == 0 || base@.last() == '/') ==> r@
            == base@ + p@,
{
    let pn: usize = p.unicode_len();
    if pn > 0 && p.get_char(0) == '/' {
        return String::from_str(p);
    }
    let bn: usize = base.unicode_len();
    let mut r = String::from_str(base);
    if bn > 0 && base.get_char(bn - 1) != '/' {
        r.append("/");
        proof {
            reveal_strlit("/");
        }
    }
    r.append(p);
    r
}

/// Whether `p` is absolute.
pub fn path_is_absolute(p: &str) -> (r: bool)
    ensures
        r == is_absolute(p@),
{
    p.unicode_len() > 0 && p.get_char(0) == '/'
}

/// The parent of `p`, as `PathBuf::pop` leaves it.
pub fn parent_dir(p: &str) -> (r: String)
    ensures
        r@ == popped(p@),
{
    let v = chars_of(p);
    let n: usize = v.len();
    let lo: usize = if n > 0 && v[0] == '/' {
        1
    } else if n >= 1 && v[0] == '.' && (n == 1 || v[1] == '/') {
        1
    } else {
        0
    };
    let e: usize = trim_end_at(&v, lo, n);
    if e > lo {
        let s: usize = segment_start_at(&v, lo, e);
        let keep: usize = trim_end_at(&v, lo, s);
        substring(p, 0, keep)
    } else if n > 0 && v[0] == '/' {
        String::from_str(p)
    } else {
        String::new()
    }
}

/// `p` with a leading `~` component replaced by the home directory. The
/// home directory is looked up only for a path that starts with `~`; what
/// it is the caller cannot know, so the outcome is stated for some home
/// directory, and exactly for a path without `~`.
pub fn expand_tilde(p: &str) -> (r: Option<String>)
    ensures
        exists|home: Option<Seq<char>>| string_text_of(r) == #[trigger] expanded(p@, home),
        !starts_with_tilde(p@) ==> string_text_of(r) == Some(p@),
{
    if !path_starts_with_tilde(p) {
        let r = Some(String::from_str(p));
        assert(string_text_of(r) == expanded(p@, None));
        return r;
    }
    let home = home_dir();
    let h: Option<&str> = match &home {
        Some(s) => Some(s.as_str()),
        None => None,
    };
    let r = expand_tilde_with_home(p, h);
    assert(string_text_of(r) == expanded(p@, text_of(h)));
    r
}

/// `p` with a leading `~` component replaced by `home`, the home directory
/// when there is one.
pub fn expand_tilde_with_home(p: &str, home: Option<&str>) -> (r: Option<String>)
    ensures
        string_text_of(r) == expanded(p@, text_of(home)),
{
    let v = chars_of(p);
    let n: usize = v.len();
    if !(n >= 1 && v[0] == '~' && (n == 1 || v[1] == '/')) {
        return Some(String::from_str(p));
    }
    let a: usize = skip_unnamed_at(
        &v,
        if n > 1 {
            2
        } else {
            1
        },
    );
    if a == n {
        return match home {
            Some(h) => Some(String::from_str(h)),
            None => None,
        };
    }
    match home {
        None => None,
        Some(h) => {
            let b: usize = trim_end_at(&v, a, n);
            let rest = substring(p, a, b);
            Some(join(h, rest.as_str()))
        },
    }
}

} // verus!
