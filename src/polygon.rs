use vstd::prelude::*;
use crate::number::{is_float, is_float_literal};
use crate::synth::{
    builder, builder_spec, digit_string, digit_text, fragment_source, fragment_spec, interface,
    interface_spec, opt, vertex_source, vertex_spec, FieldKind,
};
use crate::tls::{chars_of, is_prefix, string_of, strip_ws, trim};

verus! {

/// How one of the two recognised fields, `pos` and `color`, is supplied.
pub enum Item {
    /// Not given in any way yet.
    No,
    /// Given as a default value list in the attribute's parameters.
    Specified(String),
    /// A per-vertex input of the shader, with its dimension and whether it
    /// also has a uniform offset.
    Shader(String, bool),
    /// A field of the type whose shader value is fixed; whether it is uniform.
    DummyShader(bool),
}

/// The mathematical value of an [`Item`].
pub enum ItemModel {
    No,
    Specified(Seq<char>),
    Shader(Seq<char>, bool),
    DummyShader(bool),
}

impl View for Item {
    type V = ItemModel;

    open spec fn view(&self) -> ItemModel {
        match self {
            Item::No => ItemModel::No,
            Item::Specified(s) => ItemModel::Specified(s@),
            Item::Shader(s, u) => ItemModel::Shader(s@, *u),
            Item::DummyShader(u) => ItemModel::DummyShader(*u),
        }
    }
}

/// Whether the item is an input of the shader.
pub open spec fn shader_of(m: ItemModel) -> bool {
    m is Shader || m is DummyShader
}

/// Whether the item has a uniform binding.
pub open spec fn uniform_of(m: ItemModel) -> bool {
    match m {
        ItemModel::Shader(_, u) => u,
        ItemModel::DummyShader(u) => u,
        _ => false,
    }
}

/// The text an item carries, where it carries one.
pub open spec fn data_of(m: ItemModel) -> Seq<char> {
    match m {
        ItemModel::Specified(s) => s,
        ItemModel::Shader(s, _) => s,
        _ => Seq::empty(),
    }
}

impl Item {
    pub fn is_shader(&self) -> (r: bool)
        ensures
            r == shader_of(self@),
    {
        match self {
            Item::Shader(_, _) | Item::DummyShader(_) => true,
            _ => false,
        }
    }

    pub fn is_no(&self) -> (r: bool)
        ensures
            r == (self@ is No),
    {
        match self {
            Item::No => true,
            _ => false,
        }
    }

    pub fn is_uniform(&self) -> (r: bool)
        ensures
            r == uniform_of(self@),
    {
        match self {
            Item::Shader(_, x) => *x,
            Item::DummyShader(x) => *x,
            _ => false,
        }
    }

    /// The default value list, or the dimension of a shader input.
    pub fn data(&self) -> (r: &String)
        requires
            self@ is Specified || self@ is Shader,
        ensures
            r@ == data_of(self@),
    {
        match self {
            Item::Specified(x) => x,
            Item::Shader(x, _) => x,
            _ => vstd::pervasive::unreached(),
        }
    }
}

/// Why a default value list was refused.
#[derive(PartialEq, Eq, Structural, Clone, Copy, Debug)]
pub enum DefaultError {
    /// No parameter gives the field's default.
    MissingDefault,
    /// The list has another number of components than the field needs.
    ArityMismatch,
    /// A component is not a number.
    NumericParse,
}

/// The views of a list of strings.
pub open spec fn views(v: Seq<String>) -> Seq<Seq<char>> {
    v.map_values(|s: String| s@)
}

/// The first parameter at or after `i` that starts with `key`.
pub open spec fn entry_from(params: Seq<Seq<char>>, key: Seq<char>, i: int) -> Option<int>
    decreases params.len() - i,
{
    if i < 0 || i >= params.len() {
        None
    } else if is_prefix(key, params[i]) {
        Some(i)
    } else {
        entry_from(params, key, i + 1)
    }
}

/// `s` cut at each `sep`.
pub open spec fn split_on(s: Seq<char>, sep: char) -> Seq<Seq<char>>
    decreases s.len(),
{
    if s.len() == 0 {
        seq![Seq::empty()]
    } else {
        let p = split_on(s.drop_last(), sep);
        if s.last() == sep {
            p.push(Seq::empty())
        } else {
            p.update(p.len() - 1, p.last().push(s.last()))
        }
    }
}

/// `|` written as `,`.
pub open spec fn bar_to_comma(c: char) -> char {
    if c == '|' {
        ','
    } else {
        c
    }
}

/// The components of the default that `params` gives for `name`: the text
/// after `name=` in the first parameter that starts so.
pub open spec fn default_text(params: Seq<Seq<char>>, name: Seq<char>, i: int) -> Seq<char> {
    let key = name.push('=');
    params[i].subrange(key.len() as int, params[i].len() as int)
}

/// Every component is a number.
pub open spec fn all_numbers(parts: Seq<Seq<char>>) -> bool {
    forall|k: int| 0 <= k < parts.len() ==> is_float_literal(#[trigger] parts[k])
}

/// What looking up the default of `name` with `num` components gives.
pub open spec fn default_result(params: Seq<Seq<char>>, name: Seq<char>, num: nat) -> Result<
    (int, Seq<char>),
    DefaultError,
> {
    match entry_from(params, name.push('='), 0) {
        None => Err(DefaultError::MissingDefault),
        Some(i) => {
            let text = default_text(params, name, i);
            let parts = split_on(text, '|');
            if !all_numbers(parts) {
                Err(DefaultError::NumericParse)
            } else if parts.len() != num {
                Err(DefaultError::ArityMismatch)
            } else {
                Ok((i, text.map_values(|c: char| bar_to_comma(c))))
            }
        },
    }
}

/// Whether `v` starts with `key`.
fn starts_with(v: &Vec<char>, key: &Vec<char>) -> (r: bool)
    ensures
        r == is_prefix(key@, v@),
{
    if key.len() > v.len() {
        return false;
    }
    let mut i: usize = 0;
    while i < key.len()
        invariant
            key@.len() <= v@.len(),
            i <= key@.len(),
            forall|j: int| 0 <= j < i ==> key@[j] == v@[j],
        decreases key@.len() - i,
    {
        if key[i] != v[i] {
            assert(v@.subrange(0, key@.len() as int)[i as int] != key@[i as int]);
            return false;
        }
        i += 1;
    }
    assert(v@.subrange(0, key@.len() as int) =~= key@);
    true
}

/// Parses the value list `text` (components split at `|`): whether every
/// component is a number, how many there are, and the list with `,` between
/// the components.
fn parse_values(text: &Vec<char>) -> (r: (bool, usize, Vec<char>))
    ensures
        r.0 == all_numbers(split_on(text@, '|')),
        r.1 + 1 == split_on(text@, '|').len(),
        r.2@ == text@.map_values(|c: char| bar_to_comma(c)),
{
    let mut ok = true;
    let mut count: usize = 0;
    let mut cur: Vec<char> = Vec::new();
    let mut out: Vec<char> = Vec::new();
    let ghost mut done: Seq<Seq<char>> = Seq::empty();
    let mut j: usize = 0;
    while j < text.len()
        invariant
            j <= text@.len(),
            split_on(text@.subrange(0, j as int), '|') == done.push(cur@),
            count == done.len(),
            count <= j,
            ok == all_numbers(done),
            out@ == text@.subrange(0, j as int).map_values(|c: char| bar_to_comma(c)),
        decreases text@.len() - j,
    {
        let c = text[j];
        let ghost pre = text@.subrange(0, j as int);
        assert(text@.subrange(0, j + 1).drop_last() =~= pre);
        if c == '|' {
            let f = is_float(&cur);
            proof {
                lemma_all_numbers_push(done, cur@);
                done = done.push(cur@);
            }
            ok = ok && f;
            count += 1;
            cur = Vec::new();
        } else {
            cur.push(c);
            proof {
                assert(done.push(cur@) =~= split_on(pre, '|').update(done.len() as int, split_on(pre, '|').last().push(c)));
            }
        }
        out.push(bar_to_comma_exec(c));
        assert(out@ =~= text@.subrange(0, j + 1).map_values(|c: char| bar_to_comma(c)));
        j += 1;
    }
    assert(text@.subrange(0, text@.len() as int) =~= text@);
    let f = is_float(&cur);
    proof {
        lemma_all_numbers_push(done, cur@);
    }
    (ok && f, count, out)
}

proof fn lemma_all_numbers_push(d: Seq<Seq<char>>, x: Seq<char>)
    ensures
        all_numbers(d.push(x)) == (all_numbers(d) && is_float_literal(x)),
{
    if all_numbers(d.push(x)) {
        assert(d.push(x)[d.len() as int] == x);
        assert forall|k: int| 0 <= k < d.len() implies is_float_literal(#[trigger] d[k]) by {
            assert(d.push(x)[k] == d[k]);
        }
    }
    if all_numbers(d) && is_float_literal(x) {
        assert forall|k: int| 0 <= k < d.push(x).len() implies is_float_literal(
            #[trigger] d.push(x)[k],
        ) by {
            if k < d.len() {
                assert(d.push(x)[k] == d[k]);
            }
        }
    }
}

fn bar_to_comma_exec(c: char) -> (r: char)
    ensures
        r == bar_to_comma(c),
{
    if c == '|' {
        ','
    } else {
        c
    }
}

/// Resolves the default of the field `name` from the parameter list: the
/// first entry `name=v1|...|vk` must have `num` numeric components. On
/// success the entry is removed and `to` holds the components joined by `,`;
/// on failure nothing changes.
pub fn polygon_default_check(params: &mut Vec<String>, to: &mut Item, name: &str, num: usize) -> (r:
    Result<(), DefaultError>)
    ensures
        match default_result(views(old(params)@), name@, num as nat) {
            Ok((i, text)) => r is Ok && views(final(params)@) == views(old(params)@).remove(i)
                && final(to)@ == ItemModel::Specified(text),
            Err(e) => r == Err::<(), DefaultError>(e) && final(params)@ == old(params)@
                && final(to)@ == old(to)@,
        },
{
    let mut key = chars_of(name);
    key.push('=');
    let ghost ps = views(params@);
    let mut i: usize = 0;
    while i < params.len()
        invariant
            i <= params@.len(),
            ps == views(params@),
            params@ == old(params)@,
            to@ == old(to)@,
            key@ == name@.push('='),
            entry_from(ps, key@, 0) == entry_from(ps, key@, i as int),
        decreases params@.len() - i,
    {
        let entry = chars_of(params[i].as_str());
        assert(entry@ == ps[i as int]);
        if starts_with(&entry, &key) {
            let text = crate::tls::sub_vec(&entry, key.len(), entry.len());
            let (ok, count, joined) = parse_values(&text);
            assert(entry_from(ps, key@, 0) == Some(i as int));
            assert(text@ == default_text(ps, name@, i as int));
            if !ok {
                return Err(DefaultError::NumericParse);
            }
            if num == 0 || count != num - 1 {
                return Err(DefaultError::ArityMismatch);
            }
            *to = Item::Specified(string_of(&joined));
            params.remove(i);
            assert(views(params@) =~= ps.remove(i as int));
            return Ok(());
        }
        i += 1;
    }
    Err(DefaultError::MissingDefault)
}

/// One field of the input record: its name (a tuple field has none), the
/// text of its type where that type is a path, and the text of each of its
/// attributes.
pub struct Field {
    pub name: Option<String>,
    pub ty: Option<String>,
    pub attrs: Vec<String>,
}

/// The input record: its visibility, its name and its fields in order.
pub struct Record {
    pub vis: String,
    pub name: String,
    pub fields: Vec<Field>,
}

/// Why a shape could not be generated.
#[derive(PartialEq, Eq, Structural, Clone, Copy, Debug)]
pub enum PolygonError {
    /// The input is not a record with named fields.
    NotARecord,
    /// The field at this index is neither `pos` nor `color`.
    UnknownField(usize),
    /// The field's type is not the one it must have.
    TypeMismatch(FieldKind),
    /// The field is absent and no parameter gives its default.
    MissingDefault(FieldKind),
    /// The field's default has the wrong number of components.
    ArityMismatch(FieldKind),
    /// A component of the field's default is not a number.
    NumericParse(FieldKind),
}

/// Whether the field carries the `#[mutable]` marker.
pub open spec fn is_mutable(f: Field) -> bool {
    exists|i: int| 0 <= i < f.attrs@.len() && (#[trigger] f.attrs@[i])@ == "#[mutable]"@
}

/// The dimension that a `pos` type spells: `qqx::VecN<f32>` with `N` from
/// one to four, whitespace ignored.
pub open spec fn pos_dim(ty: Seq<char>) -> Option<nat> {
    let t = strip_ws(ty);
    if t == "qqx::Vec1<f32>"@ {
        Some(1)
    } else if t == "qqx::Vec2<f32>"@ {
        Some(2)
    } else if t == "qqx::Vec3<f32>"@ {
        Some(3)
    } else if t == "qqx::Vec4<f32>"@ {
        Some(4)
    } else {
        None
    }
}

/// Whether a `color` type is the colour alias, whitespace ignored.
pub open spec fn is_color_type(ty: Seq<char>) -> bool {
    strip_ws(ty) == "qqx::Color"@
}

/// Whether the field has the name `n`.
pub open spec fn named(f: Field, n: Seq<char>) -> bool {
    f.name matches Some(x) && x@ == n
}

/// The first field at or after `i` with a name other than `pos` and `color`.
pub open spec fn unknown_from(fields: Seq<Field>, i: int) -> Option<int>
    decreases fields.len() - i,
{
    if i < 0 || i >= fields.len() {
        None
    } else if fields[i].name is Some && !named(fields[i], "pos"@) && !named(fields[i], "color"@) {
        Some(i)
    } else {
        unknown_from(fields, i + 1)
    }
}

/// The items that the fields give, read in order (a later field of the same
/// name wins), with the first malformed field's error.
pub open spec fn scan(fields: Seq<Field>) -> Result<(ItemModel, ItemModel), PolygonError>
    decreases fields.len(),
{
    if fields.len() == 0 {
        Ok((ItemModel::No, ItemModel::No))
    } else {
        match scan(fields.drop_last()) {
            Err(e) => Err(e),
            Ok((p, c)) => {
                let f = fields.last();
                if f.name is None {
                    Err(PolygonError::NotARecord)
                } else if named(f, "pos"@) {
                    match f.ty {
                        Some(t) => match pos_dim(t@) {
                            Some(d) => Ok((ItemModel::Shader(digit_text(d), is_mutable(f)), c)),
                            None => Err(PolygonError::TypeMismatch(FieldKind::Pos)),
                        },
                        None => Err(PolygonError::TypeMismatch(FieldKind::Pos)),
                    }
                } else if named(f, "color"@) {
                    match f.ty {
                        Some(t) => if is_color_type(t@) {
                            Ok((p, ItemModel::DummyShader(is_mutable(f))))
                        } else {
                            Err(PolygonError::TypeMismatch(FieldKind::Color))
                        },
                        None => Err(PolygonError::TypeMismatch(FieldKind::Color)),
                    }
                } else {
                    Err(PolygonError::UnknownField((fields.len() - 1) as usize))
                }
            },
        }
    }
}

/// The schema of a record: an unknown field name is refused before anything
/// else is looked at; then the fields are read in order.
pub open spec fn validate(fields: Seq<Field>) -> Result<(ItemModel, ItemModel), PolygonError> {
    match unknown_from(fields, 0) {
        Some(i) => Err(PolygonError::UnknownField(i as usize)),
        None => scan(fields),
    }
}

/// The declaration of one field in the generated type.
pub open spec fn field_decl(f: Field) -> Seq<char> {
    if named(f, "pos"@) {
        "pos: qqx::Vec"@ + digit_text(pos_dim(f.ty->Some_0@)->Some_0) + "<f32>,"@
    } else {
        "color: qqx::Vec4 <f32>,"@
    }
}

/// The declarations of the fields in the generated type, in order.
pub open spec fn field_decls(fields: Seq<Field>) -> Seq<char>
    decreases fields.len(),
{
    if fields.len() == 0 {
        Seq::empty()
    } else {
        field_decls(fields.drop_last()) + field_decl(fields.last())
    }
}

/// Whether the field carries the `#[mutable]` marker.
fn has_mutable(f: &Field) -> (r: bool)
    ensures
        r == is_mutable(*f),
{
    let marker = String::from_str("#[mutable]");
    let mut i: usize = 0;
    while i < f.attrs.len()
        invariant
            i <= f.attrs@.len(),
            marker@ == "#[mutable]"@,
            forall|j: int| 0 <= j < i ==> (#[trigger] f.attrs@[j])@ != "#[mutable]"@,
        decreases f.attrs@.len() - i,
    {
        if f.attrs[i] == marker {
            return true;
        }
        i += 1;
    }
    false
}

/// The dimension that a `pos` type spells, if it is a valid one.
pub fn pos_type_dim(ty: &String) -> (r: Option<usize>)
    ensures
        match pos_dim(ty@) {
            Some(d) => r == Some(d as usize),
            None => r is None,
        },
{
    let t = trim(ty.clone());
    if t == String::from_str("qqx::Vec1<f32>") {
        Some(1)
    } else if t == String::from_str("qqx::Vec2<f32>") {
        Some(2)
    } else if t == String::from_str("qqx::Vec3<f32>") {
        Some(3)
    } else if t == String::from_str("qqx::Vec4<f32>") {
        Some(4)
    } else {
        None
    }
}

/// Whether a `color` type is the colour alias.
pub fn color_type_ok(ty: &String) -> (r: bool)
    ensures
        r == is_color_type(ty@),
{
    trim(ty.clone()) == String::from_str("qqx::Color")
}

fn name_is(name: &Option<String>, n: &str) -> (r: bool)
    ensures
        r == (name matches Some(x) && x@ == n@),
{
    match name {
        Some(x) => *x == String::from_str(n),
        None => false,
    }
}

/// The index of the first field whose name is neither `pos` nor `color`.
pub fn find_unknown_field(fields: &Vec<Field>) -> (r: Option<usize>)
    ensures
        match unknown_from(fields@, 0) {
            Some(i) => r == Some(i as usize),
            None => r is None,
        },
{
    let mut i: usize = 0;
    while i < fields.len()
        invariant
            i <= fields@.len(),
            unknown_from(fields@, 0) == unknown_from(fields@, i as int),
        decreases fields@.len() - i,
    {
        let f = &fields[i];
        if f.name.is_some() && !name_is(&f.name, "pos") && !name_is(&f.name, "color") {
            return Some(i);
        }
        i += 1;
    }
    None
}

/// A successful read gives a shader position or none, and a colour field or
/// none.
proof fn lemma_scan_shape(fields: Seq<Field>)
    ensures
        scan(fields) matches Ok((p, c)) ==> (p is No || p is Shader) && (c is No || c is DummyShader),
    decreases fields.len(),
{
    if fields.len() > 0 {
        lemma_scan_shape(fields.drop_last());
    }
}

/// Reads the fields in order into the two items and the field declarations
/// of the generated type.
fn read_fields(fields: &Vec<Field>) -> (r: Result<(Item, Item, String), PolygonError>)
    ensures
        match scan(fields@) {
            Ok((p, c)) => r matches Ok((rp, rc, d)) && rp@ == p && rc@ == c && d@ == field_decls(
                fields@,
            ),
            Err(e) => r == Err::<(Item, Item, String), PolygonError>(e),
        },
{
    let mut pos = Item::No;
    let mut color = Item::No;
    let mut decls = String::new();
    let mut i: usize = 0;
    while i < fields.len()
        invariant
            i <= fields@.len(),
            scan(fields@.subrange(0, i as int)) == Ok::<(ItemModel, ItemModel), PolygonError>(
                (pos@, color@),
            ),
            decls@ == field_decls(fields@.subrange(0, i as int)),
        decreases fields@.len() - i,
    {
        let ghost pre = fields@.subrange(0, i as int);
        assert(fields@.subrange(0, i + 1).drop_last() =~= pre);
        assert(fields@.subrange(0, i + 1).last() == fields@[i as int]);
        let f = &fields[i];
        if f.name.is_none() {
            proof {
                lemma_scan_prefix_err(fields@, i as int, PolygonError::NotARecord);
            }
            return Err(PolygonError::NotARecord);
        }
        let uniform = has_mutable(f);
        if name_is(&f.name, "pos") {
            let d = match &f.ty {
                Some(t) => pos_type_dim(t),
                None => None,
            };
            match d {
                Some(n) => {
                    pos = Item::Shader(digit_string(n), uniform);
                    decls.append("pos: qqx::Vec");
                    decls.append(digit_string(n).as_str());
                    decls.append("<f32>,");
                },
                None => {
                    proof {
                        lemma_scan_prefix_err(fields@, i as int, PolygonError::TypeMismatch(FieldKind::Pos));
                    }
                    return Err(PolygonError::TypeMismatch(FieldKind::Pos));
                },
            }
        } else if name_is(&f.name, "color") {
            let ok = match &f.ty {
                Some(t) => color_type_ok(t),
                None => false,
            };
            if !ok {
                proof {
                    lemma_scan_prefix_err(fields@, i as int, PolygonError::TypeMismatch(FieldKind::Color));
                }
                return Err(PolygonError::TypeMismatch(FieldKind::Color));
            }
            color = Item::DummyShader(uniform);
            decls.append("color: qqx::Vec4 <f32>,");
        } else {
            proof {
                lemma_scan_prefix_err(fields@, i as int, PolygonError::UnknownField(i));
            }
            return Err(PolygonError::UnknownField(i));
        }
        i += 1;
    }
    assert(fields@.subrange(0, fields@.len() as int) =~= fields@);
    Ok((pos, color, decls))
}

/// An error met in a prefix of the fields is the error of all of them.
proof fn lemma_scan_prefix_err(fields: Seq<Field>, i: int, e: PolygonError)
    requires
        0 <= i < fields.len(),
        scan(fields.subrange(0, i + 1)) == Err::<(ItemModel, ItemModel), PolygonError>(e),
    ensures
        scan(fields) == Err::<(ItemModel, ItemModel), PolygonError>(e),
    decreases fields.len() - i,
{
    if i + 1 < fields.len() {
        assert(fields.subrange(0, i + 2).drop_last() =~= fields.subrange(0, i + 1));
        lemma_scan_prefix_err(fields, i + 1, e);
    } else {
        assert(fields.subrange(0, i + 1) =~= fields);
    }
}

/// Each text with its whitespace removed.
pub open spec fn strip_each(d: Seq<Seq<char>>) -> Seq<Seq<char>> {
    d.map_values(|e: Seq<char>| strip_ws(e))
}

/// The entries of the parameter text: cut at each `,`, whitespace removed.
pub open spec fn param_list(params: Seq<char>) -> Seq<Seq<char>> {
    strip_each(split_on(params, ','))
}

/// Cuts the parameter text into its entries.
pub fn split_params(params: &String) -> (r: Vec<String>)
    ensures
        views(r@) == param_list(params@),
{
    let text = chars_of(params.as_str());
    let mut r: Vec<String> = Vec::new();
    let mut cur: Vec<char> = Vec::new();
    let ghost mut done: Seq<Seq<char>> = Seq::empty();
    let mut j: usize = 0;
    while j < text.len()
        invariant
            j <= text@.len(),
            split_on(text@.subrange(0, j as int), ',') == done.push(cur@),
            views(r@) == strip_each(done),
        decreases text@.len() - j,
    {
        let c = text[j];
        let ghost pre = text@.subrange(0, j as int);
        assert(text@.subrange(0, j + 1).drop_last() =~= pre);
        if c == ',' {
            let e = trim(string_of(&cur));
            let ghost old_r = r@;
            r.push(e);
            assert(views(r@) =~= views(old_r).push(e@));
            assert(strip_each(done.push(cur@)) =~= strip_each(done).push(strip_ws(cur@)));
            proof {
                done = done.push(cur@);
            }
            cur = Vec::new();
        } else {
            cur.push(c);
            assert(split_on(text@.subrange(0, j + 1), ',') =~= done.push(cur@));
        }
        j += 1;
    }
    assert(text@.subrange(0, text@.len() as int) =~= text@);
    let e = trim(string_of(&cur));
    let ghost old_r = r@;
    r.push(e);
    assert(views(r@) =~= views(old_r).push(e@));
    assert(strip_each(done.push(cur@)) =~= strip_each(done).push(strip_ws(cur@)));
    r
}

/// The error of a default lookup, for a field.
pub open spec fn lift(e: DefaultError, k: FieldKind) -> PolygonError {
    match e {
        DefaultError::MissingDefault => PolygonError::MissingDefault(k),
        DefaultError::ArityMismatch => PolygonError::ArityMismatch(k),
        DefaultError::NumericParse => PolygonError::NumericParse(k),
    }
}

fn lift_error(e: DefaultError, k: FieldKind) -> (r: PolygonError)
    ensures
        r == lift(e, k),
{
    match e {
        DefaultError::MissingDefault => PolygonError::MissingDefault(k),
        DefaultError::ArityMismatch => PolygonError::ArityMismatch(k),
        DefaultError::NumericParse => PolygonError::NumericParse(k),
    }
}

/// An item that the record left out takes its default from the parameters,
/// whose entry is then used up; another item stays as it is.
pub open spec fn resolve(
    params: Seq<Seq<char>>,
    it: ItemModel,
    name: Seq<char>,
    num: nat,
    k: FieldKind,
) -> Result<(ItemModel, Seq<Seq<char>>), PolygonError> {
    if it is No {
        match default_result(params, name, num) {
            Ok((i, text)) => Ok((ItemModel::Specified(text), params.remove(i))),
            Err(e) => Err(lift(e, k)),
        }
    } else {
        Ok((it, params))
    }
}

/// The generated source for a record with resolved items.
pub open spec fn output_spec(rec: Record, p: ItemModel, c: ItemModel) -> Seq<char> {
    "#[derive(Copy, Clone)]\n"@ + rec.vis@ + " struct "@ + rec.name@ + " {"@ + field_decls(
        rec.fields@,
    ) + "}\nqqx::glium::implement_vertex!{"@ + rec.name@ + ","@ + opt(shader_of(p), "pos,"@)
        + opt(shader_of(c), "color,"@) + "}"@ + interface_spec(
        rec.name@,
        p,
        c,
        vertex_spec(p, c),
        fragment_spec(c),
    ) + builder_spec(rec.name@, p, c)
}

/// What `polygon` gives for the parameter text and the input.
pub open spec fn polygon_spec(params: Seq<char>, input: Option<Record>) -> Result<Seq<char>, PolygonError> {
    match input {
        None => Err(PolygonError::NotARecord),
        Some(rec) => match validate(rec.fields@) {
            Err(e) => Err(e),
            Ok((p0, c0)) => match resolve(param_list(params), p0, "pos"@, 3, FieldKind::Pos) {
                Err(e) => Err(e),
                Ok((p, ps)) => match resolve(ps, c0, "color"@, 4, FieldKind::Color) {
                    Err(e) => Err(e),
                    Ok((c, _)) => Ok(output_spec(rec, p, c)),
                },
            },
        },
    }
}

/// Generates the vertex type, its shaders, its rendering interface and its
/// builder from a record (`None` where the input is not a record) and the
/// attribute's parameter text.
pub fn polygon(params: String, input: Option<Record>) -> (r: Result<String, PolygonError>)
    ensures
        match polygon_spec(params@, input) {
            Ok(t) => r matches Ok(s) && s@ == t,
            Err(e) => r == Err::<String, PolygonError>(e),
        },
{
    let rec = match input {
        Some(rec) => rec,
        None => return Err(PolygonError::NotARecord),
    };
    match find_unknown_field(&rec.fields) {
        Some(i) => return Err(PolygonError::UnknownField(i)),
        None => {},
    }
    let (mut pos, mut color, decls) = match read_fields(&rec.fields) {
        Ok(x) => x,
        Err(e) => return Err(e),
    };
    proof {
        lemma_scan_shape(rec.fields@);
    }
    let mut result = String::from_str("#[derive(Copy, Clone)]\n");
    result.append(rec.vis.as_str());
    result.append(" struct ");
    result.append(rec.name.as_str());
    result.append(" {");
    result.append(decls.as_str());
    result.append("}\nqqx::glium::implement_vertex!{");
    result.append(rec.name.as_str());
    result.append(",");
    crate::synth::append_if(&mut result, pos.is_shader(), "pos,");
    crate::synth::append_if(&mut result, color.is_shader(), "color,");
    result.append("}");

    let mut list = split_params(&params);
    if pos.is_no() {
        match polygon_default_check(&mut list, &mut pos, "pos", 3) {
            Ok(()) => {},
            Err(e) => return Err(lift_error(e, FieldKind::Pos)),
        }
    }
    if color.is_no() {
        match polygon_default_check(&mut list, &mut color, "color", 4) {
            Ok(()) => {},
            Err(e) => return Err(lift_error(e, FieldKind::Color)),
        }
    }
    let vs = vertex_source(&pos, &color);
    let fs = fragment_source(&color);
    result.append(interface(&rec.name, &pos, &color, &vs, &fs).as_str());
    result.append(builder(&rec.name, &pos, &color).as_str());
    Ok(result)
}

} // verus!
