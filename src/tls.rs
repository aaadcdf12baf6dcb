use vstd::prelude::*;

verus! {

/// The characters that `char::is_whitespace` accepts: those with the Unicode
/// `White_Space` property.
pub open spec fn is_ws(c: char) -> bool {
    let u = c as u32;
    (0x9 <= u && u <= 0xd) || u == 0x20 || u == 0x85 || u == 0xa0 || u == 0x1680 || (0x2000 <= u
        && u <= 0x200a) || u == 0x2028 || u == 0x2029 || u == 0x202f || u == 0x205f || u == 0x3000
}

/// `s` without leading whitespace.
pub open spec fn trim_start(s: Seq<char>) -> Seq<char>
    decreases s.len(),
{
    if s.len() > 0 && is_ws(s[0]) {
        trim_start(s.drop_first())
    } else {
        s
    }
}

/// `s` without trailing whitespace.
pub open spec fn trim_end(s: Seq<char>) -> Seq<char>
    decreases s.len(),
{
    if s.len() > 0 && is_ws(s.last()) {
        trim_end(s.drop_last())
    } else {
        s
    }
}

/// `s` without leading or trailing whitespace (what `str::trim` gives).
pub open spec fn trim_both(s: Seq<char>) -> Seq<char> {
    trim_end(trim_start(s))
}

/// `s` with every whitespace character removed.
pub open spec fn strip_ws(s: Seq<char>) -> Seq<char>
    decreases s.len(),
{
    if s.len() == 0 {
        s
    } else if is_ws(s.last()) {
        strip_ws(s.drop_last())
    } else {
        strip_ws(s.drop_last()).push(s.last())
    }
}

/// The first position `i >= from` where the two-character marker `..` starts.
pub open spec fn marker_from(pat: Seq<char>, from: int) -> Option<int>
    decreases pat.len() - from,
{
    if from < 0 || from + 1 >= pat.len() {
        None
    } else if pat[from] == '.' && pat[from + 1] == '.' {
        Some(from)
    } else {
        marker_from(pat, from + 1)
    }
}

/// Whether the characters of `pat` in `[i, m)`, dots skipped, match `t` from
/// position `k` on, one for one and in order.
pub open spec fn literals_match(pat: Seq<char>, t: Seq<char>, i: int, k: int, m: int) -> bool
    decreases m - i,
{
    if i >= m || i < 0 {
        true
    } else if pat[i] == '.' {
        literals_match(pat, t, i + 1, k, m)
    } else {
        0 <= k < t.len() && t[k] == pat[i] && literals_match(pat, t, i + 1, k + 1, m)
    }
}

/// The last position below `j` where `t` holds `c`.
pub open spec fn last_before(t: Seq<char>, c: char, j: int) -> Option<int>
    decreases j,
{
    if j <= 0 || j > t.len() {
        None
    } else if t[j - 1] == c {
        Some(j - 1)
    } else {
        last_before(t, c, j - 1)
    }
}

/// Whether `a` is a prefix of `b`.
pub open spec fn is_prefix(a: Seq<char>, b: Seq<char>) -> bool {
    a.len() <= b.len() && b.subrange(0, a.len() as int) == a
}

/// What `take` captures of already trimmed `t` with already trimmed `pat`.
pub open spec fn capture(t: Seq<char>, pat: Seq<char>) -> Option<Seq<char>> {
    if is_prefix(t, pat) {
        Some(Seq::empty())
    } else {
        match marker_from(pat, 0) {
            None => None,
            Some(m) => if !literals_match(pat, t, 0, 0, m) || m + 2 >= pat.len() {
                None
            } else {
                match last_before(t, pat[m + 2], t.len() as int) {
                    None => None,
                    Some(e) => if e < m {
                        None
                    } else {
                        Some(t.subrange(m, e))
                    },
                }
            },
        }
    }
}

/// What `take(t, pat)` returns.
pub open spec fn take_spec(t: Seq<char>, pat: Seq<char>) -> Option<Seq<char>> {
    capture(trim_both(t), trim_both(pat))
}

/// The blend expression that `mix_colors` builds.
pub open spec fn mix_spec(lhs: Seq<char>, rhs: Seq<char>) -> Seq<char> {
    if lhs.len() == 0 {
        rhs
    } else if rhs.len() == 0 {
        lhs
    } else {
        "mix("@ + rhs + ", vec4("@ + lhs + ".xyz, 1.0), "@ + rhs + ".w)"@
    }
}

/// Whether `c` is a whitespace character.
pub fn is_whitespace(c: char) -> (r: bool)
    ensures
        r == is_ws(c),
{
    let u = c as u32;
    (0x9 <= u && u <= 0xd) || u == 0x20 || u == 0x85 || u == 0xa0 || u == 0x1680 || (0x2000 <= u
        && u <= 0x200a) || u == 0x2028 || u == 0x2029 || u == 0x202f || u == 0x205f || u == 0x3000
}

/// Relies on `str::chars`, collected into a `Vec`: the characters of `s` in order.
#[verifier::external_body]
pub(crate) fn chars_of(s: &str) -> (r: Vec<char>)
    ensures
        r@ == s@,
{
    s.chars().collect()
}

/// Relies on `String`'s `FromIterator<&char>`: a string of the same characters.
#[verifier::external_body]
pub(crate) fn string_of(v: &Vec<char>) -> (r: String)
    ensures
        r@ == v@,
{
    v.iter().collect()
}

/// The characters of `v` in `[a, b)`.
pub(crate) fn sub_vec(v: &Vec<char>, a: usize, b: usize) -> (r: Vec<char>)
    requires
        a <= b <= v@.len(),
    ensures
        r@ == v@.subrange(a as int, b as int),
{
    let mut r: Vec<char> = Vec::new();
    let mut i: usize = a;
    while i < b
        invariant
            a <= i <= b <= v@.len(),
            r@ == v@.subrange(a as int, i as int),
        decreases b - i,
    {
        r.push(v[i]);
        i += 1;
        assert(r@ =~= v@.subrange(a as int, i as int));
    }
    r
}

/// `v` without leading or trailing whitespace.
pub(crate) fn trim_chars(v: &Vec<char>) -> (r: Vec<char>)
    ensures
        r@ == trim_both(v@),
{
    let n = v.len();
    let mut a: usize = 0;
    assert(v@.subrange(0, n as int) =~= v@);
    while a < n && is_whitespace(v[a])
        invariant
            a <= n == v@.len(),
            trim_start(v@) == trim_start(v@.subrange(a as int, n as int)),
        decreases n - a,
    {
        assert(v@.subrange(a as int, n as int).drop_first() =~= v@.subrange(a + 1, n as int));
        a += 1;
    }
    assert(trim_start(v@) == v@.subrange(a as int, n as int));
    let mut b: usize = n;
    while b > a && is_whitespace(v[b - 1])
        invariant
            a <= b <= n == v@.len(),
            trim_both(v@) == trim_end(v@.subrange(a as int, b as int)),
        decreases b,
    {
        assert(v@.subrange(a as int, b as int).drop_last() =~= v@.subrange(a as int, b - 1));
        b -= 1;
    }
    sub_vec(v, a, b)
}

/// Captures the part of `t` that stands where the marker `..` stands in `pat`.
///
/// Both arguments are first trimmed. The characters of `pat` before the marker,
/// dots skipped, must match the start of `t`; the capture runs from the
/// marker's position to the last occurrence in `t` of the character that
/// follows the marker. A `t` that `pat` starts with gives an empty capture.
pub fn take(t: &String, pat: &str) -> (r: Option<String>)
    ensures
        r matches Some(s) ==> take_spec(t@, pat@) == Some(s@),
        r is None ==> take_spec(t@, pat@) is None,
{
    let tv = trim_chars(&chars_of(t.as_str()));
    let pv = trim_chars(&chars_of(pat));
    let tn = tv.len();
    let pn = pv.len();
    if tn <= pn {
        let mut i: usize = 0;
        while i < tn && tv[i] == pv[i]
            invariant
                i <= tn <= pn,
                tn == tv@.len(),
                pn == pv@.len(),
                pv@.subrange(0, i as int) == tv@.subrange(0, i as int),
            decreases tn - i,
        {
            assert(pv@.subrange(0, i + 1) =~= pv@.subrange(0, i as int).push(pv@[i as int]));
            assert(tv@.subrange(0, i + 1) =~= tv@.subrange(0, i as int).push(tv@[i as int]));
            i += 1;
        }
        if i == tn {
            assert(tv@.subrange(0, tn as int) =~= tv@);
            return Some(String::new());
        }
        assert(pv@.subrange(0, tn as int)[i as int] != tv@[i as int]);
    }
    assert(!is_prefix(tv@, pv@));
    // find the marker
    let mut m: usize = 0;
    while m < pn && m + 1 < pn && !(pv[m] == '.' && pv[m + 1] == '.')
        invariant
            m <= pn == pv@.len(),
            marker_from(pv@, 0) == marker_from(pv@, m as int),
        decreases pn - m,
    {
        m += 1;
    }
    if m >= pn || m + 1 >= pn {
        return None;
    }
    assert(marker_from(pv@, 0) == Some(m as int));
    // match the literals before it
    let mut i: usize = 0;
    let mut k: usize = 0;
    while i < m
        invariant
            i <= m < pn == pv@.len(),
            k <= i,
            tn == tv@.len(),
            marker_from(pv@, 0) == Some(m as int),
            !is_prefix(tv@, pv@),
            tv@ == trim_both(t@),
            pv@ == trim_both(pat@),
            literals_match(pv@, tv@, 0, 0, m as int) == literals_match(
                pv@,
                tv@,
                i as int,
                k as int,
                m as int,
            ),
        decreases m - i,
    {
        if pv[i] != '.' {
            if k >= tn || tv[k] != pv[i] {
                assert(!literals_match(pv@, tv@, i as int, k as int, m as int));
                return None;
            }
            k += 1;
        }
        i += 1;
    }
    if m + 2 >= pn {
        return None;
    }
    let anchor = pv[m + 2];
    let mut e: usize = tn;
    while e > 0 && tv[e - 1] != anchor
        invariant
            e <= tn == tv@.len(),
            last_before(tv@, anchor, tn as int) == last_before(tv@, anchor, e as int),
        decreases e,
    {
        e -= 1;
    }
    if e == 0 || e - 1 < m {
        return None;
    }
    Some(string_of(&sub_vec(&tv, m, e - 1)))
}

/// `x` with every whitespace character removed.
pub fn trim(x: String) -> (r: String)
    ensures
        r@ == strip_ws(x@),
{
    let v = chars_of(x.as_str());
    let mut out: Vec<char> = Vec::new();
    let mut i: usize = 0;
    while i < v.len()
        invariant
            i <= v@.len(),
            out@ == strip_ws(v@.subrange(0, i as int)),
        decreases v@.len() - i,
    {
        assert(v@.subrange(0, i + 1).drop_last() =~= v@.subrange(0, i as int));
        if !is_whitespace(v[i]) {
            out.push(v[i]);
        }
        i += 1;
    }
    assert(v@.subrange(0, v@.len() as int) =~= v@);
    string_of(&out)
}

/// Blends the colour expression `lhs` into `rhs`, with `rhs`'s alpha as the
/// factor; an empty side gives the other one unchanged.
pub fn mix_colors(lhs: String, rhs: String) -> (r: String)
    ensures
        r@ == mix_spec(lhs@, rhs@),
{
    if lhs.as_str().is_empty() {
        rhs
    } else if rhs.as_str().is_empty() {
        lhs
    } else {
        let mut r = String::from_str("mix(");
        r.append(rhs.as_str());
        r.append(", vec4(");
        r.append(lhs.as_str());
        r.append(".xyz, 1.0), ");
        r.append(rhs.as_str());
        r.append(".w)");
        r
    }
}

} // verus!
