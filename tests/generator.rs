use qqx::callback::callback;
use qqx::number::is_float;
use qqx::polygon::{polygon, polygon_default_check, DefaultError, Field, Item, PolygonError, Record};
use qqx::synth::{handler, position_expr, storage_type, uniform_slots, FieldKind};
use qqx::tls::{mix_colors, take, trim};
use qqx::{parse_attribute, Attribute};

fn s(x: &str) -> String {
    x.to_string()
}

fn field(name: &str, ty: &str, mutable: bool) -> Field {
    Field {
        name: Some(s(name)),
        ty: Some(s(ty)),
        attrs: if mutable { vec![s("#[mutable]")] } else { vec![] },
    }
}

fn record(fields: Vec<Field>) -> Record {
    Record { vis: s("pub"), name: s("Shape"), fields }
}

fn chars(x: &str) -> Vec<char> {
    x.chars().collect()
}

#[test]
fn take_captures_between_affixes() {
    assert_eq!(take(&s("polygon(pos=1.0)"), "polygon(..)"), Some(s("pos=1.0")));
    assert_eq!(take(&s("  callback(on_tick)\n"), " callback(..) "), Some(s("on_tick")));
}

#[test]
fn take_capture_ends_at_last_anchor() {
    assert_eq!(take(&s("polygon(a(b))"), "polygon(..)"), Some(s("a(b)")));
}

#[test]
fn take_rejects_literal_mismatch() {
    assert_eq!(take(&s("polygan(x)"), "polygon(..)"), None);
    assert_eq!(take(&s("callback(x)"), "polygon(..)"), None);
}

#[test]
fn take_without_anchor_gives_nothing() {
    assert_eq!(take(&s("polygon(abc"), "polygon(..)"), None);
}

#[test]
fn take_text_that_starts_the_pattern_is_empty() {
    assert_eq!(take(&s("poly"), "polygon(..)"), Some(s("")));
    assert_eq!(take(&s(""), "polygon(..)"), Some(s("")));
}

#[test]
fn trim_removes_all_whitespace() {
    assert_eq!(trim(s(" qqx :: Vec2 < f32 >\t\n")), s("qqx::Vec2<f32>"));
    assert_eq!(trim(s("")), s(""));
}

#[test]
fn mix_colors_cases() {
    assert_eq!(mix_colors(s(""), s("col_u")), s("col_u"));
    assert_eq!(mix_colors(s("f_color"), s("")), s("f_color"));
    assert_eq!(
        mix_colors(s("f_color"), s("col_u")),
        s("mix(col_u, vec4(f_color.xyz, 1.0), col_u.w)")
    );
}

#[test]
fn float_literals() {
    for ok in ["1.0", "2", "-3.5", "+.5", "5.", "1e5", "1.5E-3", "inf", "-Infinity", "NaN"] {
        assert!(is_float(&chars(ok)), "{}", ok);
    }
    for bad in ["", "x", ".", "e5", "1e", "1.0.0", " 1.0", "1,0", "--1", "infin"] {
        assert!(!is_float(&chars(bad)), "{}", bad);
    }
}

#[test]
fn default_for_pos_resolves() {
    let mut params = vec![s("pos=1.0|2.0|3.0")];
    let mut to = Item::No;
    assert_eq!(polygon_default_check(&mut params, &mut to, "pos", 3), Ok(()));
    assert!(params.is_empty());
    assert!(matches!(&to, Item::Specified(x) if x == "1.0,2.0,3.0"));
}

#[test]
fn default_with_wrong_arity() {
    let mut params = vec![s("pos=1.0|2.0")];
    let mut to = Item::No;
    assert_eq!(
        polygon_default_check(&mut params, &mut to, "pos", 3),
        Err(DefaultError::ArityMismatch)
    );
    assert!(to.is_no());
}

#[test]
fn default_with_bad_number() {
    let mut params = vec![s("pos=1.0|x|3.0")];
    let mut to = Item::No;
    assert_eq!(
        polygon_default_check(&mut params, &mut to, "pos", 3),
        Err(DefaultError::NumericParse)
    );
}

#[test]
fn default_missing() {
    let mut params = vec![s("color=1|1|1|1")];
    let mut to = Item::No;
    assert_eq!(
        polygon_default_check(&mut params, &mut to, "pos", 3),
        Err(DefaultError::MissingDefault)
    );
    assert_eq!(params.len(), 1);
}

#[test]
fn default_takes_first_matching_entry_only() {
    let mut params = vec![s("size=2"), s("color=0|0|1|1"), s("color=1|1|1|1")];
    let mut to = Item::No;
    assert_eq!(polygon_default_check(&mut params, &mut to, "color", 4), Ok(()));
    assert_eq!(params, vec![s("size=2"), s("color=1|1|1|1")]);
    assert_eq!(to.data(), "0,0,1,1");
}

#[test]
fn item_queries() {
    let p = Item::Shader(s("2"), true);
    assert!(p.is_shader() && p.is_uniform() && !p.is_no());
    assert_eq!(p.data(), "2");
    let c = Item::DummyShader(false);
    assert!(c.is_shader() && !c.is_uniform());
    let d = Item::Specified(s("1,2,3"));
    assert!(!d.is_shader() && !d.is_uniform());
    assert!(Item::No.is_no());
}

#[test]
fn position_padding_by_dimension() {
    assert_eq!(position_expr(&Item::Shader(s("1"), false)), s("vec4(pos,0.0,0.0,1.0)"));
    assert_eq!(position_expr(&Item::Shader(s("2"), false)), s("vec4(pos,0.0,1.0)"));
    assert_eq!(position_expr(&Item::Shader(s("3"), true)), s("vec4(pos,1.0)"));
    assert_eq!(position_expr(&Item::Shader(s("4"), false)), s("pos"));
    assert_eq!(position_expr(&Item::Specified(s("1.0,2.0,3.0"))), s("vec4(1.0,2.0,3.0,1.)"));
}

#[test]
fn no_uniforms_no_slots() {
    let p = Item::Shader(s("2"), false);
    let c = Item::DummyShader(false);
    assert!(uniform_slots(&p, &c).is_empty());
    assert_eq!(storage_type(false, false, &s("2")), s("qqx::glium::uniforms::EmptyUniforms"));
    let out = polygon(s(""), Some(record(vec![field("pos", "qqx::Vec2<f32>", false), field("color", "qqx::Color", false)]))).unwrap();
    assert!(!out.contains("match action"));
}

#[test]
fn one_uniform_one_slot() {
    let p = Item::Shader(s("3"), true);
    let c = Item::DummyShader(false);
    assert_eq!(uniform_slots(&p, &c), vec![FieldKind::Pos]);
    let p = Item::Shader(s("3"), false);
    let c = Item::DummyShader(true);
    assert_eq!(uniform_slots(&p, &c), vec![FieldKind::Color]);
    assert!(handler(FieldKind::Pos, "0").contains("Move(x) => u.0 += x"));
    assert!(handler(FieldKind::Color, "0").contains("Move(_) => unreachable!()"));
}

#[test]
fn both_uniform_slot_order() {
    let p = Item::Shader(s("2"), true);
    let c = Item::DummyShader(true);
    assert_eq!(uniform_slots(&p, &c), vec![FieldKind::Pos, FieldKind::Color]);
    assert_eq!(
        storage_type(true, true, &s("2")),
        s("qqx::glium::uniforms::UniformsStorage <'static, qqx::Color, qqx::glium::uniforms::UniformsStorage <'static, qqx::Vec2 <f32>, qqx::glium::uniforms::EmptyUniforms>>")
    );
}

#[test]
fn unknown_field_is_refused_first() {
    let r = record(vec![field("pos", "qqx::Vec9<f32>", false), field("velocity", "f32", false)]);
    assert_eq!(polygon(s(""), Some(r)), Err(PolygonError::UnknownField(1)));
}

#[test]
fn pos_of_size_five_or_zero_is_refused() {
    let r = record(vec![field("pos", "qqx::Vec5<f32>", false)]);
    assert_eq!(polygon(s(""), Some(r)), Err(PolygonError::TypeMismatch(FieldKind::Pos)));
    let r = record(vec![field("pos", "qqx :: Vec0 < f32 >", false)]);
    assert_eq!(polygon(s(""), Some(r)), Err(PolygonError::TypeMismatch(FieldKind::Pos)));
}

#[test]
fn wrong_color_type_is_refused() {
    let r = record(vec![field("color", "qqx::Vec4<f32>", false)]);
    assert_eq!(polygon(s(""), Some(r)), Err(PolygonError::TypeMismatch(FieldKind::Color)));
}

#[test]
fn non_record_is_refused() {
    assert_eq!(polygon(s(""), None), Err(PolygonError::NotARecord));
    let r = record(vec![Field { name: None, ty: Some(s("f32")), attrs: vec![] }]);
    assert_eq!(polygon(s(""), Some(r)), Err(PolygonError::NotARecord));
}

#[test]
fn missing_defaults_are_refused() {
    let r = record(vec![field("color", "qqx::Color", false)]);
    assert_eq!(polygon(s(""), Some(r)), Err(PolygonError::MissingDefault(FieldKind::Pos)));
    let r = record(vec![field("pos", "qqx::Vec2<f32>", false)]);
    assert_eq!(polygon(s("color=1|1|1"), Some(r)), Err(PolygonError::ArityMismatch(FieldKind::Color)));
    let r = record(vec![]);
    assert_eq!(polygon(s("pos=1|2|3, color=1|a|1|1"), Some(r)), Err(PolygonError::NumericParse(FieldKind::Color)));
}

#[test]
fn generates_shape_with_uniform_pos_and_default_color() {
    let r = record(vec![field("pos", "qqx::Vec2<f32>", true)]);
    let out = polygon(s(" color = 1.0|0.0|0.0|1.0 "), Some(r)).unwrap();
    assert!(out.starts_with("#[derive(Copy, Clone)]\npub struct Shape {pos: qqx::Vec2<f32>,}"));
    assert!(out.contains("qqx::glium::implement_vertex!{Shape,pos,}"));
    assert!(out.contains("in vec2 pos;\n"));
    assert!(out.contains("uniform vec2 pos_u;\n"));
    assert!(out.contains("vec2 pos = pos + pos_u;"));
    assert!(out.contains("gl_Position = vec4(pos,0.0,1.0);"));
    assert!(out.contains("color = vec4(1.0,0.0,0.0,1.0);"));
    assert!(out.contains("const MOVABLE: bool = true;"));
    assert!(out.contains("const COLORABLE: bool = false;"));
    assert!(out.contains("type Move = qqx::Vec2 <f32>;"));
    assert!(out.contains("Move(x) => u.0 += x"));
    assert!(out.contains("pub fn pos(mut self, pos: qqx::Vec2 <f32>) -> Self"));
    assert!(!out.contains("pub fn color("));
}

#[test]
fn generates_shape_with_uniform_color_and_default_pos() {
    let r = record(vec![field("color", "qqx::Color", true)]);
    let out = polygon(s("pos=0.5|0.5|0"), Some(r)).unwrap();
    assert!(out.contains("gl_Position = vec4(0.5,0.5,0,1.);"));
    assert!(out.contains("in vec4 color;\nout vec4 f_color;\n"));
    assert!(out.contains("uniform vec4 col_u;"));
    assert!(out.contains("color = mix(col_u, vec4(f_color.xyz, 1.0), col_u.w);"));
    assert!(out.contains("glium::uniform!{  col_u: u.0 }"));
    assert!(out.contains("Move(_) => unreachable!()"));
    assert!(out.contains("color: Default::default(),"));
}

#[test]
fn callback_registration_is_spliced() {
    let out = callback(s("on_start"), s("  fn foo() { bar(); }\n"));
    assert_eq!(
        out,
        Some(s("fn foo() {{\n#[qqx::ctor::ctor]\nfn q() {\nqqx::callback::on_start(foo)\n}\n} bar(); }"))
    );
}

#[test]
fn callback_on_non_function_is_refused() {
    assert_eq!(callback(s("h"), s("struct A;")), None);
    assert_eq!(callback(s("h"), s("const X: u8 = (1);")), None);
}

#[test]
fn attributes_are_routed() {
    assert!(matches!(parse_attribute(&s("polygon(pos=1|2|3)")), Attribute::Polygon(x) if x == "pos=1|2|3"));
    assert!(matches!(parse_attribute(&s("callback(on_key)")), Attribute::Callback(x) if x == "on_key"));
    assert!(matches!(parse_attribute(&s("shape(x)")), Attribute::Unknown));
}
