use vstd::prelude::*;

verus! {

/// An ASCII decimal digit.
pub open spec fn is_digit(c: char) -> bool {
    '0' <= c && c <= '9'
}

/// Every character of `s` in `[lo, hi)` is a digit.
pub open spec fn digits_in(s: Seq<char>, lo: int, hi: int) -> bool {
    forall|i: int| lo <= i < hi ==> is_digit(#[trigger] s[i])
}

/// The first position at or after `i` where `s` holds `a` or `b`, else `s.len()`.
pub open spec fn find_from(s: Seq<char>, a: char, b: char, i: int) -> int
    decreases s.len() - i,
{
    if i < 0 || i >= s.len() {
        s.len() as int
    } else if s[i] == a || s[i] == b {
        i
    } else {
        find_from(s, a, b, i + 1)
    }
}

/// `s` equals the lower-case word `w`, ignoring ASCII case.
pub open spec fn eq_ignore_case(s: Seq<char>, w: Seq<char>) -> bool {
    s.len() == w.len() && forall|i: int|
        0 <= i < s.len() ==> (#[trigger] s[i] == w[i] || s[i] as u32 + 32 == w[i] as u32)
}

/// The position after an optional leading sign.
pub open spec fn after_sign(s: Seq<char>, i: int) -> int {
    if i < s.len() && (s[i] == '+' || s[i] == '-') {
        i + 1
    } else {
        i
    }
}

/// `s[lo..hi]` is `Digit+ | Digit+ '.' Digit* | Digit* '.' Digit+`.
pub open spec fn is_mantissa(s: Seq<char>, lo: int, hi: int) -> bool {
    let d = find_from(s.subrange(lo, hi), '.', '.', 0) + lo;
    if d >= hi {
        lo < hi && digits_in(s, lo, hi)
    } else {
        digits_in(s, lo, d) && digits_in(s, d + 1, hi) && (lo < d || d + 1 < hi)
    }
}

/// `s[lo..]` is a decimal number: a mantissa and an optional exponent
/// `e Sign? Digit+` (either case of `e`).
pub open spec fn is_number(s: Seq<char>, lo: int) -> bool {
    let e = find_from(s, 'e', 'E', lo);
    is_mantissa(s, lo, e) && (e < s.len() ==> {
        let x = after_sign(s, e + 1);
        x < s.len() && digits_in(s, x, s.len() as int)
    })
}

/// Whether `f32::from_str` accepts `s`: a sign, then `inf`, `infinity`, `nan`
/// (any case) or a decimal number; no surrounding whitespace.
pub open spec fn is_float_literal(s: Seq<char>) -> bool {
    let b = after_sign(s, 0);
    let rest = s.subrange(b, s.len() as int);
    eq_ignore_case(rest, seq!['i', 'n', 'f']) || eq_ignore_case(
        rest,
        seq!['i', 'n', 'f', 'i', 'n', 'i', 't', 'y'],
    ) || eq_ignore_case(rest, seq!['n', 'a', 'n']) || is_number(s, b)
}

fn digits_between(s: &Vec<char>, lo: usize, hi: usize) -> (r: bool)
    requires
        lo <= hi <= s@.len(),
    ensures
        r == digits_in(s@, lo as int, hi as int),
{
    let mut i: usize = lo;
    while i < hi
        invariant
            lo <= i <= hi <= s@.len(),
            digits_in(s@, lo as int, i as int),
        decreases hi - i,
    {
        if !(s[i] >= '0' && s[i] <= '9') {
            return false;
        }
        i += 1;
    }
    true
}

fn find_either(s: &Vec<char>, a: char, b: char, from: usize, hi: usize) -> (r: usize)
    requires
        from <= hi <= s@.len(),
    ensures
        r as int == find_from(s@.subrange(0, hi as int), a, b, from as int),
        from <= r <= hi,
{
    let ghost t = s@.subrange(0, hi as int);
    let mut i: usize = from;
    while i < hi && s[i] != a && s[i] != b
        invariant
            from <= i <= hi <= s@.len(),
            t == s@.subrange(0, hi as int),
            find_from(t, a, b, from as int) == find_from(t, a, b, i as int),
        decreases hi - i,
    {
        i += 1;
    }
    i
}

fn equals_ignore_case(s: &Vec<char>, lo: usize, w: &Vec<char>) -> (r: bool)
    requires
        lo <= s@.len(),
        forall|i: int| 0 <= i < w@.len() ==> 'a' <= #[trigger] w@[i] <= 'z',
    ensures
        r == eq_ignore_case(s@.subrange(lo as int, s@.len() as int), w@),
{
    let ghost rest = s@.subrange(lo as int, s@.len() as int);
    let n = s.len();
    if n - lo != w.len() {
        return false;
    }
    let mut i: usize = 0;
    while i < w.len()
        invariant
            lo <= s@.len(),
            rest == s@.subrange(lo as int, s@.len() as int),
            rest.len() == w@.len(),
            lo + w@.len() == s@.len(),
            n == s@.len(),
            i <= w@.len(),
            forall|j: int| 0 <= j < w@.len() ==> 'a' <= #[trigger] w@[j] <= 'z',
            forall|j: int|
                0 <= j < i ==> (#[trigger] rest[j] == w@[j] || rest[j] as u32 + 32 == w@[j] as u32),
        decreases w@.len() - i,
    {
        let c = s[lo + i];
        let l = w[i];
        assert(rest[i as int] == c);
        if !(c == l || (l as u32 >= 32 && c as u32 == l as u32 - 32)) {
            assert(!(rest[i as int] == w@[i as int] || rest[i as int] as u32 + 32 == w@[i as int] as u32));
            return false;
        }
        i += 1;
    }
    true
}

/// Whether `s` is a number in the syntax that `f32::from_str` accepts.
pub fn is_float(s: &Vec<char>) -> (r: bool)
    ensures
        r == is_float_literal(s@),
{
    let n = s.len();
    let b: usize = if n > 0 && (s[0] == '+' || s[0] == '-') {
        1
    } else {
        0
    };
    if equals_ignore_case(s, b, &vec!['i', 'n', 'f']) || equals_ignore_case(
        s,
        b,
        &vec!['i', 'n', 'f', 'i', 'n', 'i', 't', 'y'],
    ) || equals_ignore_case(s, b, &vec!['n', 'a', 'n']) {
        return true;
    }
    assert(s@.subrange(0, n as int) =~= s@);
    let e = find_either(s, 'e', 'E', b, n);
    let d = find_either(s, '.', '.', b, e);
    proof {
        let m = s@.subrange(b as int, e as int);
        let t = s@.subrange(0, e as int);
        assert forall|k: int| b <= k <= e implies find_from(t, '.', '.', k) == find_from(
            m,
            '.',
            '.',
            k - b,
        ) + b by {
            lemma_find_shift(s@, b as int, e as int, k);
        }
    }
    let mantissa = if d >= e {
        b < e && digits_between(s, b, e)
    } else {
        digits_between(s, b, d) && digits_between(s, d + 1, e) && (b < d || d + 1 < e)
    };
    if !mantissa {
        return false;
    }
    if e < n {
        let x: usize = if e + 1 < n && (s[e + 1] == '+' || s[e + 1] == '-') {
            e + 2
        } else {
            e + 1
        };
        x < n && digits_between(s, x, n)
    } else {
        true
    }
}

proof fn lemma_find_shift(s: Seq<char>, lo: int, hi: int, k: int)
    requires
        0 <= lo <= k <= hi <= s.len(),
    ensures
        find_from(s.subrange(0, hi), '.', '.', k) == find_from(s.subrange(lo, hi), '.', '.', k - lo)
            + lo,
    decreases hi - k,
{
    if k < hi {
        lemma_find_shift(s, lo, hi, k + 1);
    }
}

} // verus!
