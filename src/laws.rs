use vstd::prelude::*;
use crate::polygon::{named, pos_dim, scan, unknown_from, validate, Field, PolygonError};
use crate::polygon::ItemModel;
use crate::synth::{
    act_col_spec, act_pos_spec, digit_text, handler_spec, movable, padding, position_spec,
    size_of, slots_spec, FieldKind,
};
use crate::tls::{
    capture, is_prefix, is_ws, last_before, literals_match, marker_from, mix_spec, strip_ws,
    trim_both, trim_end, trim_start,
};

verus! {

/// With neither field uniform, the uniform storage has no slot and neither
/// action handler has a body.
pub proof fn lemma_no_uniforms()
    ensures
        slots_spec(false, false).len() == 0,
        act_pos_spec(false).len() == 0,
        act_col_spec(false, false).len() == 0,
{
}

/// With exactly one field uniform, the storage has one slot, for that field;
/// its handler is present, and `Move` is taken for a position and refused for
/// a colour.
pub proof fn lemma_one_uniform(pos_u: bool, col_u: bool)
    requires
        pos_u != col_u,
    ensures
        slots_spec(pos_u, col_u).len() == 1,
        pos_u ==> slots_spec(pos_u, col_u)[0] == FieldKind::Pos && act_pos_spec(pos_u)
            == handler_spec(FieldKind::Pos, "0"@) && act_col_spec(pos_u, col_u).len() == 0,
        col_u ==> slots_spec(pos_u, col_u)[0] == FieldKind::Color && act_col_spec(pos_u, col_u)
            == handler_spec(FieldKind::Color, "0"@) && act_pos_spec(pos_u).len() == 0,
        movable(FieldKind::Pos),
        !movable(FieldKind::Color),
{
}

/// An empty side of a blend gives the other side; two non-empty sides give
/// `mix(rhs, vec4(lhs.xyz, 1.0), rhs.w)`.
pub proof fn lemma_mix_cases(lhs: Seq<char>, rhs: Seq<char>)
    ensures
        mix_spec(Seq::empty(), rhs) == rhs,
        mix_spec(lhs, Seq::empty()) == lhs,
        lhs.len() > 0 && rhs.len() > 0 ==> mix_spec(lhs, rhs) == "mix("@ + rhs + ", vec4("@ + lhs
            + ".xyz, 1.0), "@ + rhs + ".w)"@,
{
}

/// A field with a name other than `pos` and `color` makes the record fail
/// with an unknown-field error, whatever the other fields are.
pub proof fn lemma_unknown_field_fails(fields: Seq<Field>, i: int)
    requires
        0 <= i < fields.len(),
        fields[i].name is Some,
        !named(fields[i], "pos"@),
        !named(fields[i], "color"@),
    ensures
        validate(fields) matches Err(PolygonError::UnknownField(j)) && j <= i,
{
    lemma_unknown_from(fields, 0, i);
}

proof fn lemma_unknown_from(fields: Seq<Field>, k: int, i: int)
    requires
        0 <= k <= i < fields.len(),
        fields[i].name is Some,
        !named(fields[i], "pos"@),
        !named(fields[i], "color"@),
    ensures
        unknown_from(fields, k) matches Some(j) && k <= j <= i,
    decreases i - k,
{
    if k < i {
        lemma_unknown_from(fields, k + 1, i);
    }
}

/// The position types of size five and of size zero are refused.
pub proof fn lemma_bad_pos_sizes()
    ensures
        pos_dim("qqx::Vec5<f32>"@) is None,
        pos_dim("qqx::Vec0<f32>"@) is None,
{
    reveal_strlit("qqx::Vec5<f32>");
    reveal_strlit("qqx::Vec0<f32>");
    reveal_strlit("qqx::Vec1<f32>");
    reveal_strlit("qqx::Vec2<f32>");
    reveal_strlit("qqx::Vec3<f32>");
    reveal_strlit("qqx::Vec4<f32>");
    lemma_strip_no_ws("qqx::Vec5<f32>"@);
    lemma_strip_no_ws("qqx::Vec0<f32>"@);
    assert("qqx::Vec5<f32>"@[8] != "qqx::Vec1<f32>"@[8]);
    assert("qqx::Vec5<f32>"@[8] != "qqx::Vec2<f32>"@[8]);
    assert("qqx::Vec5<f32>"@[8] != "qqx::Vec3<f32>"@[8]);
    assert("qqx::Vec5<f32>"@[8] != "qqx::Vec4<f32>"@[8]);
    assert("qqx::Vec0<f32>"@[8] != "qqx::Vec1<f32>"@[8]);
    assert("qqx::Vec0<f32>"@[8] != "qqx::Vec2<f32>"@[8]);
    assert("qqx::Vec0<f32>"@[8] != "qqx::Vec3<f32>"@[8]);
    assert("qqx::Vec0<f32>"@[8] != "qqx::Vec4<f32>"@[8]);
}

proof fn lemma_strip_no_ws(s: Seq<char>)
    requires
        forall|i: int| 0 <= i < s.len() ==> !crate::tls::is_ws(#[trigger] s[i]),
    ensures
        strip_ws(s) == s,
    decreases s.len(),
{
    if s.len() > 0 {
        lemma_strip_no_ws(s.drop_last());
        assert(s.drop_last().push(s.last()) =~= s);
    }
}

/// A record whose fields are all named `pos` or `color`, with a `pos` whose
/// type is refused (such as a size of five or zero), fails with a type
/// mismatch.
pub proof fn lemma_bad_pos_fails(fields: Seq<Field>, i: int)
    requires
        0 <= i < fields.len(),
        forall|k: int| 0 <= k < fields.len() ==> named(#[trigger] fields[k], "pos"@) || named(fields[k], "color"@),
        named(fields[i], "pos"@),
        fields[i].ty matches Some(t) && pos_dim(t@) is None,
    ensures
        validate(fields) matches Err(PolygonError::TypeMismatch(_)),
{
    lemma_no_unknown(fields, 0);
    lemma_scan_mismatch(fields, i);
}

proof fn lemma_no_unknown(fields: Seq<Field>, k: int)
    requires
        0 <= k <= fields.len(),
        forall|j: int| 0 <= j < fields.len() ==> named(#[trigger] fields[j], "pos"@) || named(fields[j], "color"@),
    ensures
        unknown_from(fields, k) is None,
    decreases fields.len() - k,
{
    if k < fields.len() {
        lemma_no_unknown(fields, k + 1);
    }
}

proof fn lemma_scan_mismatch(fields: Seq<Field>, i: int)
    requires
        0 <= i < fields.len(),
        forall|k: int| 0 <= k < fields.len() ==> named(#[trigger] fields[k], "pos"@) || named(fields[k], "color"@),
        named(fields[i], "pos"@),
        fields[i].ty matches Some(t) && pos_dim(t@) is None,
    ensures
        scan(fields) matches Err(PolygonError::TypeMismatch(_)),
    decreases fields.len(),
{
    let pre = fields.drop_last();
    if i < fields.len() - 1 {
        assert forall|k: int| 0 <= k < pre.len() implies named(#[trigger] pre[k], "pos"@) || named(pre[k], "color"@) by {
            assert(pre[k] == fields[k]);
        }
        lemma_scan_mismatch(pre, i);
    } else {
        match scan(pre) {
            Ok(_) => {
                assert(fields.last() == fields[i]);
            },
            Err(e) => {
                lemma_scan_err_kind(pre);
            },
        }
    }
}

/// With every field named `pos` or `color`, a failed read is a type mismatch.
proof fn lemma_scan_err_kind(fields: Seq<Field>)
    requires
        forall|k: int| 0 <= k < fields.len() ==> named(#[trigger] fields[k], "pos"@) || named(fields[k], "color"@),
    ensures
        scan(fields) is Err ==> scan(fields) matches Err(PolygonError::TypeMismatch(_)),
    decreases fields.len(),
{
    if fields.len() > 0 {
        let pre = fields.drop_last();
        assert forall|k: int| 0 <= k < pre.len() implies named(#[trigger] pre[k], "pos"@) || named(pre[k], "color"@) by {
            assert(pre[k] == fields[k]);
        }
        lemma_scan_err_kind(pre);
        assert(named(fields[fields.len() - 1], "pos"@) || named(fields[fields.len() - 1], "color"@));
        reveal_strlit("pos");
        reveal_strlit("color");
    }
}

/// The fixed components that complete a position: `0.0`, `0.0`, `1.0`.
pub open spec fn default_components() -> Seq<Seq<char>> {
    seq!["0.0"@, "0.0"@, "1.0"@]
}

/// The texts joined by commas.
pub open spec fn join_commas(parts: Seq<Seq<char>>) -> Seq<char>
    decreases parts.len(),
{
    if parts.len() == 0 {
        Seq::empty()
    } else if parts.len() == 1 {
        parts[0]
    } else {
        join_commas(parts.drop_last()) + ","@ + parts.last()
    }
}

/// A shader position of dimension `n` from one to four becomes a four
/// component vector: itself where `n` is four, else itself followed by the
/// last `4 - n` of the fixed components `0.0, 0.0, 1.0`, so that the fourth
/// component is `1.0`.
pub proof fn lemma_position_padding(n: nat, u: bool)
    requires
        1 <= n <= 4,
    ensures
        ({
            let tail = default_components().subrange(n - 1, 3);
            &&& n + tail.len() == 4
            &&& position_spec(ItemModel::Shader(digit_text(n), u)) == if n == 4 {
                "pos"@
            } else {
                "vec4(pos,"@ + join_commas(tail) + ")"@
            }
            &&& n < 4 ==> tail.last() == "1.0"@
        }),
{
    reveal_strlit("1");
    reveal_strlit("2");
    reveal_strlit("3");
    reveal_strlit("4");
    reveal_strlit("0.0");
    reveal_strlit("1.0");
    reveal_strlit(",");
    reveal_strlit("0.0,1.0");
    reveal_strlit("0.0,0.0,1.0");
    reveal_strlit("0.0,0.0");
    assert("1"@[0] == '1' && "2"@[0] == '2' && "3"@[0] == '3' && "4"@[0] == '4');
    assert(size_of(ItemModel::Shader(digit_text(n), u)) == n);
    let d = default_components();
    if n == 3 {
        assert(d.subrange(2, 3) =~= seq!["1.0"@]);
    } else if n == 2 {
        let t = d.subrange(1, 3);
        assert(t.drop_last() =~= seq!["0.0"@]);
        assert(join_commas(t.drop_last()) == "0.0"@);
        assert(join_commas(t) == "0.0"@ + ","@ + "1.0"@);
        assert("0.0"@ + ","@ + "1.0"@ =~= "0.0,1.0"@);
    } else if n == 1 {
        let t = d.subrange(0, 3);
        assert(t.drop_last() =~= seq!["0.0"@, "0.0"@]);
        assert(t.drop_last().drop_last() =~= seq!["0.0"@]);
        assert(join_commas(t.drop_last().drop_last()) == "0.0"@);
        assert(join_commas(t.drop_last()) == "0.0"@ + ","@ + "0.0"@);
        assert(join_commas(t) == "0.0"@ + ","@ + "0.0"@ + ","@ + "1.0"@);
        assert("0.0"@ + ","@ + "0.0"@ + ","@ + "1.0"@ =~= "0.0,0.0,1.0"@);
    }
}

/// Neither end of `s` is whitespace.
pub open spec fn is_trimmed(s: Seq<char>) -> bool {
    s.len() == 0 || (!is_ws(s[0]) && !is_ws(s.last()))
}

proof fn lemma_trimmed(s: Seq<char>)
    requires
        is_trimmed(s),
    ensures
        trim_both(s) == s,
{
}

proof fn lemma_marker_at(pat: Seq<char>, p: Seq<char>, k: int)
    requires
        0 <= k <= p.len(),
        p.len() + 2 <= pat.len(),
        pat.subrange(0, p.len() as int) == p,
        pat[p.len() as int] == '.',
        pat[p.len() as int + 1] == '.',
        forall|i: int| 0 <= i < p.len() ==> #[trigger] p[i] != '.',
    ensures
        marker_from(pat, k) == Some(p.len() as int),
    decreases p.len() - k,
{
    if k < p.len() {
        assert(pat[k] == p[k]);
        lemma_marker_at(pat, p, k + 1);
    }
}

proof fn lemma_literals_equal(pat: Seq<char>, t: Seq<char>, k: int, m: int)
    requires
        0 <= k <= m <= t.len(),
        m <= pat.len(),
        forall|i: int| k <= i < m ==> #[trigger] pat[i] != '.' && pat[i] == t[i],
    ensures
        literals_match(pat, t, k, k, m),
    decreases m - k,
{
    if k < m {
        lemma_literals_equal(pat, t, k + 1, m);
    }
}

proof fn lemma_literals_differ(pat: Seq<char>, t: Seq<char>, k: int, j: int, m: int)
    requires
        0 <= k <= j < m <= pat.len(),
        j < t.len(),
        t[j] != pat[j],
        forall|i: int| k <= i < m ==> #[trigger] pat[i] != '.',
    ensures
        !literals_match(pat, t, k, k, m),
    decreases j - k,
{
    assert(pat[k] != '.');
    if k < j {
        lemma_literals_differ(pat, t, k + 1, j, m);
    }
}

proof fn lemma_last_before(t: Seq<char>, c: char, e: int, j: int)
    requires
        0 <= e < j <= t.len(),
        t[e] == c,
        forall|i: int| e < i < j ==> #[trigger] t[i] != c,
    ensures
        last_before(t, c, j) == Some(e),
    decreases j,
{
    if j - 1 > e {
        lemma_last_before(t, c, e, j - 1);
    }
}

/// A pattern `p..suf` (literal prefix `p` without dots, then the marker,
/// then a suffix whose first character, not a dot, occurs in it only there)
/// applied to the text `p s suf` captures exactly `s`, both sides trimmed
/// and `s` not the marker itself.
pub proof fn lemma_take_round_trip(p: Seq<char>, s: Seq<char>, suf: Seq<char>)
    requires
        forall|i: int| 0 <= i < p.len() ==> #[trigger] p[i] != '.',
        suf.len() > 0,
        suf[0] != '.',
        forall|i: int| 0 < i < suf.len() ==> #[trigger] suf[i] != suf[0],
        s != seq!['.', '.'],
        is_trimmed(p + s + suf),
        is_trimmed(p + seq!['.', '.'] + suf),
    ensures
        crate::tls::take_spec(p + s + suf, p + seq!['.', '.'] + suf) == Some(s),
{
    let t = p + s + suf;
    let pat = p + seq!['.', '.'] + suf;
    let m = p.len() as int;
    lemma_trimmed(t);
    lemma_trimmed(pat);
    assert(pat.subrange(0, m) =~= p);
    lemma_marker_at(pat, p, 0);
    lemma_literals_equal(pat, t, 0, m);
    let e = m + s.len();
    assert(t[e] == suf[0]);
    assert(pat[m + 2] == suf[0]);
    assert forall|i: int| e < i < t.len() implies #[trigger] t[i] != suf[0] by {
        assert(t[i] == suf[i - e]);
    }
    lemma_last_before(t, suf[0], e, t.len() as int);
    assert(t.subrange(m, e) =~= s);
    if is_prefix(t, pat) {
        if s.len() < 2 {
            assert(pat.subrange(0, t.len() as int)[e] == pat[e]);
            assert(pat[e] == '.');
        } else {
            assert(s.len() == 2);
            assert(pat.subrange(0, t.len() as int)[m] == pat[m]);
            assert(pat.subrange(0, t.len() as int)[m + 1] == pat[m + 1]);
            assert(s =~= seq!['.', '.']);
        }
    }
}

/// A text that differs from the pattern's literal prefix at some position
/// gives no capture.
pub proof fn lemma_take_mismatch(t: Seq<char>, p: Seq<char>, suf: Seq<char>, j: int)
    requires
        forall|i: int| 0 <= i < p.len() ==> #[trigger] p[i] != '.',
        0 <= j < p.len(),
        j < t.len(),
        t[j] != p[j],
        is_trimmed(t),
        is_trimmed(p + seq!['.', '.'] + suf),
    ensures
        crate::tls::take_spec(t, p + seq!['.', '.'] + suf) is None,
{
    let pat = p + seq!['.', '.'] + suf;
    let m = p.len() as int;
    lemma_trimmed(t);
    lemma_trimmed(pat);
    assert(pat.subrange(0, m) =~= p);
    lemma_marker_at(pat, p, 0);
    if is_prefix(t, pat) {
        assert(pat.subrange(0, t.len() as int)[j] == pat[j]);
    }
    assert(pat[j] == p[j]);
    assert forall|i: int| 0 <= i < m implies #[trigger] pat[i] != '.' by {
        assert(pat[i] == p[i]);
    }
    lemma_literals_differ(pat, t, 0, j, m);
}

} // verus!
