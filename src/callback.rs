use vstd::prelude::*;
use crate::tls::{chars_of, string_of, trim_both, trim_chars};

verus! {

/// The first position at or after `i` where `s` holds `c`.
pub open spec fn index_from(s: Seq<char>, c: char, i: int) -> Option<int>
    decreases s.len() - i,
{
    if i < 0 || i >= s.len() {
        None
    } else if s[i] == c {
        Some(i)
    } else {
        index_from(s, c, i + 1)
    }
}

/// The first position at or after `i` where `s` holds the word `fn`.
pub open spec fn fn_from(s: Seq<char>, i: int) -> Option<int>
    decreases s.len() - i,
{
    if i < 0 || i + 1 >= s.len() {
        None
    } else if s[i] == 'f' && s[i + 1] == 'n' {
        Some(i)
    } else {
        fn_from(s, i + 1)
    }
}

/// The registration spliced into the function's body: a start-up function
/// that hands the function's name to the handler `name`.
pub open spec fn registration(name: Seq<char>, fname: Seq<char>) -> Seq<char> {
    "{\n#[qqx::ctor::ctor]\nfn q() {\nqqx::callback::"@ + name + "("@ + fname + ")\n}\n}"@
}

/// What `callback` gives: the trimmed item with the registration inserted
/// after its first `{`; the function's name is what stands between the
/// character after `fn ` and the first `(`. `None` where the item has no
/// `{`, no `fn` or no `(` after the name's start.
pub open spec fn callback_spec(name: Seq<char>, function: Seq<char>) -> Option<Seq<char>> {
    let f = trim_both(function);
    match (index_from(f, '{', 0), fn_from(f, 0), index_from(f, '(', 0)) {
        (Some(b), Some(k), Some(p)) => if k + 3 <= p {
            Some(
                f.subrange(0, b + 1) + registration(name, f.subrange(k + 3, p)) + f.subrange(
                    b + 1,
                    f.len() as int,
                ),
            )
        } else {
            None
        },
        _ => None,
    }
}

fn find_char(s: &Vec<char>, c: char) -> (r: Option<usize>)
    ensures
        r matches Some(i) ==> index_from(s@, c, 0) == Some(i as int),
        r is None ==> index_from(s@, c, 0) is None,
        r matches Some(i) ==> i < s@.len(),
{
    let mut i: usize = 0;
    while i < s.len()
        invariant
            i <= s@.len(),
            index_from(s@, c, 0) == index_from(s@, c, i as int),
        decreases s@.len() - i,
    {
        if s[i] == c {
            return Some(i);
        }
        i += 1;
    }
    None
}

fn find_fn(s: &Vec<char>) -> (r: Option<usize>)
    ensures
        r matches Some(i) ==> fn_from(s@, 0) == Some(i as int),
        r is None ==> fn_from(s@, 0) is None,
        r matches Some(i) ==> i + 1 < s@.len(),
{
    let mut i: usize = 0;
    while i < s.len() && i + 1 < s.len()
        invariant
            i <= s@.len(),
            fn_from(s@, 0) == fn_from(s@, i as int),
        decreases s@.len() - i,
    {
        if s[i] == 'f' && s[i + 1] == 'n' {
            return Some(i);
        }
        i += 1;
    }
    None
}

/// Registers the function item `function` with the handler `name`: its body
/// gets a start-up function that calls `qqx::callback::name` with the
/// function. `None` where `function` is not a function item.
pub fn callback(name: String, function: String) -> (r: Option<String>)
    ensures
        match callback_spec(name@, function@) {
            Some(t) => r matches Some(s) && s@ == t,
            None => r is None,
        },
{
    let f = trim_chars(&chars_of(function.as_str()));
    let b = match find_char(&f, '{') {
        Some(b) => b,
        None => return None,
    };
    let k = match find_fn(&f) {
        Some(k) => k,
        None => return None,
    };
    let p = match find_char(&f, '(') {
        Some(p) => p,
        None => return None,
    };
    if k > p || p - k < 3 {
        assert(!(k + 3 <= p));
        return None;
    }
    let n = f.len();
    let fname = string_of(&crate::tls::sub_vec(&f, k + 3, p));
    let mut r = string_of(&crate::tls::sub_vec(&f, 0, b + 1));
    r.append("{\n#[qqx::ctor::ctor]\nfn q() {\nqqx::callback::");
    r.append(name.as_str());
    r.append("(");
    r.append(fname.as_str());
    r.append(")\n}\n}");
    r.append(string_of(&crate::tls::sub_vec(&f, b + 1, f.len())).as_str());
    Some(r)
}

} // verus!
