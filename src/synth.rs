use vstd::prelude::*;
use crate::polygon::{data_of, shader_of, uniform_of, Item, ItemModel};
use crate::tls::{mix_colors, mix_spec};

verus! {

/// `x` where `c` holds, else nothing.
pub open spec fn opt(c: bool, x: Seq<char>) -> Seq<char> {
    if c {
        x
    } else {
        Seq::empty()
    }
}

pub(crate) fn append_if(r: &mut String, c: bool, x: &str)
    ensures
        final(r)@ == old(r)@ + opt(c, x@),
{
    if c {
        r.append(x);
    } else {
        assert(old(r)@ + opt(c, x@) =~= old(r)@);
    }
}

/// The decimal text of a dimension from one to four.
pub open spec fn digit_text(n: nat) -> Seq<char> {
    if n == 1 {
        "1"@
    } else if n == 2 {
        "2"@
    } else if n == 4 {
        "4"@
    } else {
        "3"@
    }
}

pub(crate) fn digit_string(n: usize) -> (r: String)
    ensures
        r@ == digit_text(n as nat),
{
    if n == 1 {
        String::from_str("1")
    } else if n == 2 {
        String::from_str("2")
    } else if n == 4 {
        String::from_str("4")
    } else {
        String::from_str("3")
    }
}

/// The dimension of the position: that of a shader input, else three.
pub open spec fn size_of(p: ItemModel) -> nat {
    match p {
        ItemModel::Shader(t, _) => if t == "1"@ {
            1
        } else if t == "2"@ {
            2
        } else if t == "4"@ {
            4
        } else {
            3
        },
        _ => 3,
    }
}

/// The dimension of the position (see `size_of`).
pub fn pos_size(pos: &Item) -> (r: usize)
    ensures
        r == size_of(pos@),
        1 <= r <= 4,
{
    match pos {
        Item::Shader(t, _) => {
            let one = String::from_str("1");
            let two = String::from_str("2");
            let four = String::from_str("4");
            if *t == one {
                1
            } else if *t == two {
                2
            } else if *t == four {
                4
            } else {
                3
            }
        },
        _ => 3,
    }
}

/// The fixed components that complete a position of dimension `n` to four,
/// joined by commas: the tail of `0.0, 0.0, 1.0`.
pub open spec fn padding(n: nat) -> Seq<char> {
    if n == 1 {
        "0.0,0.0,1.0"@
    } else if n == 2 {
        "0.0,1.0"@
    } else if n == 3 {
        "1.0"@
    } else {
        Seq::empty()
    }
}

/// The homogeneous position that the vertex stage computes.
pub open spec fn position_spec(p: ItemModel) -> Seq<char> {
    if shader_of(p) {
        if size_of(p) == 4 {
            "pos"@
        } else {
            "vec4(pos,"@ + padding(size_of(p)) + ")"@
        }
    } else {
        "vec4("@ + data_of(p) + ",1.)"@
    }
}

/// Builds the homogeneous position expression of the vertex stage.
pub fn position_expr(pos: &Item) -> (r: String)
    requires
        pos@ is Shader || pos@ is Specified,
    ensures
        r@ == position_spec(pos@),
{
    if pos.is_shader() {
        let size = pos_size(pos);
        if size == 4 {
            String::from_str("pos")
        } else {
            let mut s = String::from_str("vec4(pos,");
            if size == 1 {
                s.append("0.0,0.0,1.0");
            } else if size == 2 {
                s.append("0.0,1.0");
            } else {
                s.append("1.0");
            }
            s.append(")");
            s
        }
    } else {
        let mut s = String::from_str("vec4(");
        s.append(pos.data().as_str());
        s.append(",1.)");
        s
    }
}

/// The vertex stage's source.
pub open spec fn vertex_spec(p: ItemModel, c: ItemModel) -> Seq<char> {
    "\n#version 140\n"@ + opt(shader_of(p), "in vec"@ + data_of(p) + " pos;\n"@) + opt(
        shader_of(c),
        "in vec4 color;\nout vec4 f_color;\n"@,
    ) + opt(uniform_of(p), "uniform vec"@ + data_of(p) + " pos_u;\n"@) + "void main() {\n"@ + opt(
        uniform_of(p),
        "vec"@ + data_of(p) + " pos = pos + pos_u"@,
    ) + ";\ngl_Position = "@ + position_spec(p) + ";\n"@ + opt(shader_of(c), "f_color = color"@)
        + ";\n}\n"@
}

/// Builds the vertex stage's source.
pub fn vertex_source(pos: &Item, color: &Item) -> (r: String)
    requires
        pos@ is Shader || pos@ is Specified,
        !uniform_of(pos@) || pos@ is Shader,
    ensures
        r@ == vertex_spec(pos@, color@),
{
    let mut r = String::from_str("\n#version 140\n");
    let dim = if pos.is_shader() {
        pos.data().clone()
    } else {
        String::new()
    };
    assert(shader_of(pos@) ==> dim@ == data_of(pos@));
    let mut decl = String::from_str("in vec");
    decl.append(dim.as_str());
    decl.append(" pos;\n");
    append_if(&mut r, pos.is_shader(), decl.as_str());
    append_if(&mut r, color.is_shader(), "in vec4 color;\nout vec4 f_color;\n");
    let mut udecl = String::from_str("uniform vec");
    udecl.append(dim.as_str());
    udecl.append(" pos_u;\n");
    append_if(&mut r, pos.is_uniform(), udecl.as_str());
    r.append("void main() {\n");
    let mut shift = String::from_str("vec");
    shift.append(dim.as_str());
    shift.append(" pos = pos + pos_u");
    append_if(&mut r, pos.is_uniform(), shift.as_str());
    r.append(";\ngl_Position = ");
    let p = position_expr(pos);
    r.append(p.as_str());
    r.append(";\n");
    append_if(&mut r, color.is_shader(), "f_color = color");
    r.append(";\n}\n");
    r
}

/// The colour that the fragment stage starts from.
pub open spec fn color_base(c: ItemModel) -> Seq<char> {
    if shader_of(c) {
        "f_color"@
    } else {
        "vec4("@ + data_of(c) + ")"@
    }
}

/// The fragment stage's source.
pub open spec fn fragment_spec(c: ItemModel) -> Seq<char> {
    "\n#version 140\nout vec4 color;\n"@ + opt(shader_of(c), "in vec4 f_color;"@) + "\n"@ + opt(
        uniform_of(c),
        "uniform vec4 col_u;"@,
    ) + "\nvoid main() {\ncolor = "@ + mix_spec(color_base(c), opt(uniform_of(c), "col_u"@))
        + ";\n}\n"@
}

/// Builds the fragment stage's source.
pub fn fragment_source(color: &Item) -> (r: String)
    requires
        color@ is DummyShader || color@ is Shader || color@ is Specified,
    ensures
        r@ == fragment_spec(color@),
{
    let mut r = String::from_str("\n#version 140\nout vec4 color;\n");
    append_if(&mut r, color.is_shader(), "in vec4 f_color;");
    r.append("\n");
    append_if(&mut r, color.is_uniform(), "uniform vec4 col_u;");
    r.append("\nvoid main() {\ncolor = ");
    let base = if color.is_shader() {
        String::from_str("f_color")
    } else {
        let mut b = String::from_str("vec4(");
        b.append(color.data().as_str());
        b.append(")");
        b
    };
    let mut u = String::new();
    append_if(&mut u, color.is_uniform(), "col_u");
    assert(u@ =~= opt(uniform_of(color@), "col_u"@));
    let m = mix_colors(base, u);
    r.append(m.as_str());
    r.append(";\n}\n");
    r
}

/// One of the two recognised fields.
#[derive(PartialEq, Eq, Structural, Clone, Copy, Debug)]
pub enum FieldKind {
    Pos,
    Color,
}

/// The uniform slots of the generated storage, in the order of its tuple:
/// the position before the colour.
pub open spec fn slots_spec(pos_u: bool, col_u: bool) -> Seq<FieldKind> {
    if pos_u && col_u {
        seq![FieldKind::Pos, FieldKind::Color]
    } else if pos_u {
        seq![FieldKind::Pos]
    } else if col_u {
        seq![FieldKind::Color]
    } else {
        Seq::empty()
    }
}

/// The uniform slots for a position and a colour.
pub fn uniform_slots(pos: &Item, color: &Item) -> (r: Vec<FieldKind>)
    ensures
        r@ == slots_spec(uniform_of(pos@), uniform_of(color@)),
{
    let mut r: Vec<FieldKind> = Vec::new();
    if pos.is_uniform() {
        r.push(FieldKind::Pos);
    }
    if color.is_uniform() {
        r.push(FieldKind::Color);
    }
    assert(r@ =~= slots_spec(uniform_of(pos@), uniform_of(color@)));
    r
}

/// The text of one slot's type.
pub open spec fn slot_type(k: FieldKind, size: Seq<char>) -> Seq<char> {
    match k {
        FieldKind::Pos => "qqx::Vec"@ + size + " <f32>"@,
        FieldKind::Color => "qqx::Color"@,
    }
}

/// The uniform storage type: one nested `UniformsStorage` per slot, the
/// colour outermost.
pub open spec fn storage_spec(pos_u: bool, col_u: bool, size: Seq<char>) -> Seq<char> {
    let empty = "qqx::glium::uniforms::EmptyUniforms"@;
    let wrap = "qqx::glium::uniforms::UniformsStorage <'static, "@;
    if pos_u && col_u {
        wrap + slot_type(FieldKind::Color, size) + ", "@ + wrap + slot_type(FieldKind::Pos, size)
            + ", "@ + empty + ">>"@
    } else if pos_u {
        wrap + slot_type(FieldKind::Pos, size) + ", "@ + empty + ">"@
    } else if col_u {
        wrap + slot_type(FieldKind::Color, size) + ", "@ + empty + ">"@
    } else {
        empty
    }
}

fn slot_type_string(k: FieldKind, size: &String) -> (r: String)
    ensures
        r@ == slot_type(k, size@),
{
    match k {
        FieldKind::Pos => {
            let mut r = String::from_str("qqx::Vec");
            r.append(size.as_str());
            r.append(" <f32>");
            r
        },
        FieldKind::Color => String::from_str("qqx::Color"),
    }
}

/// Builds the uniform storage type.
pub fn storage_type(pos_u: bool, col_u: bool, size: &String) -> (r: String)
    ensures
        r@ == storage_spec(pos_u, col_u, size@),
{
    if !pos_u && !col_u {
        return String::from_str("qqx::glium::uniforms::EmptyUniforms");
    }
    let mut r = String::from_str("qqx::glium::uniforms::UniformsStorage <'static, ");
    if col_u {
        r.append(slot_type_string(FieldKind::Color, size).as_str());
    } else {
        r.append(slot_type_string(FieldKind::Pos, size).as_str());
    }
    r.append(", ");
    if pos_u && col_u {
        r.append("qqx::glium::uniforms::UniformsStorage <'static, ");
        r.append(slot_type_string(FieldKind::Pos, size).as_str());
        r.append(", ");
        r.append("qqx::glium::uniforms::EmptyUniforms");
        r.append(">>");
    } else {
        r.append("qqx::glium::uniforms::EmptyUniforms");
        r.append(">");
    }
    r
}

/// The tuple type that holds the uniform values.
pub open spec fn tuple_spec(pos_u: bool, col_u: bool, size: Seq<char>) -> Seq<char> {
    "("@ + opt(pos_u, slot_type(FieldKind::Pos, size) + ","@) + " "@ + opt(col_u, "qqx::Color"@)
        + ")"@
}

/// Builds the tuple type that holds the uniform values.
pub fn tuple_type(pos_u: bool, col_u: bool, size: &String) -> (r: String)
    ensures
        r@ == tuple_spec(pos_u, col_u, size@),
{
    let mut r = String::from_str("(");
    let mut p = slot_type_string(FieldKind::Pos, size);
    p.append(",");
    append_if(&mut r, pos_u, p.as_str());
    r.append(" ");
    append_if(&mut r, col_u, "qqx::Color");
    r.append(")");
    r
}

/// Whether a slot of this kind takes `Move`: a position can be moved, a
/// colour cannot.
pub open spec fn movable(k: FieldKind) -> bool {
    k == FieldKind::Pos
}

/// Whether a slot of this kind takes `Move`.
pub fn accepts_move(k: FieldKind) -> (r: bool)
    ensures
        r == movable(k),
{
    match k {
        FieldKind::Pos => true,
        FieldKind::Color => false,
    }
}

/// The handler of the actions on the tuple element `idx`: `Move` adds a
/// delta where the slot is movable and is unreachable otherwise; `Set`,
/// `Get` and `Reset` replace, read and reset the value.
pub open spec fn handler_spec(k: FieldKind, idx: Seq<char>) -> Seq<char> {
    let a = "qqx::BoundPolygonInterfaceAction::"@;
    "\nmatch action {\n"@ + a + (if movable(k) {
        "Move(x) => u."@ + idx + " += x,\n"@
    } else {
        "Move(_) => unreachable!(),\n"@
    }) + a + "Set(x) => u."@ + idx + " = x,\n"@ + a + "Get(x) => unsafe { *x = u."@ + idx
        + " },\n"@ + a + "Reset => u."@ + idx + " = Default::default()\n}\n"@
}

/// Builds the handler of the actions on the tuple element `idx`.
pub fn handler(k: FieldKind, idx: &str) -> (r: String)
    ensures
        r@ == handler_spec(k, idx@),
{
    let mut r = String::from_str("\nmatch action {\n");
    r.append("qqx::BoundPolygonInterfaceAction::");
    if accepts_move(k) {
        let mut m = String::from_str("Move(x) => u.");
        m.append(idx);
        m.append(" += x,\n");
        r.append(m.as_str());
    } else {
        r.append("Move(_) => unreachable!(),\n");
    }
    r.append("qqx::BoundPolygonInterfaceAction::");
    r.append("Set(x) => u.");
    r.append(idx);
    r.append(" = x,\n");
    r.append("qqx::BoundPolygonInterfaceAction::");
    r.append("Get(x) => unsafe { *x = u.");
    r.append(idx);
    r.append(" },\n");
    r.append("qqx::BoundPolygonInterfaceAction::");
    r.append("Reset => u.");
    r.append(idx);
    r.append(" = Default::default()\n}\n");
    r
}

/// The tuple element that holds the colour.
pub open spec fn color_index(pos_u: bool) -> Seq<char> {
    if pos_u {
        "1"@
    } else {
        "0"@
    }
}

/// The body of `act_pos`: the position's handler where it is uniform.
pub open spec fn act_pos_spec(pos_u: bool) -> Seq<char> {
    opt(pos_u, handler_spec(FieldKind::Pos, "0"@))
}

/// The body of `act_col`: the colour's handler where it is uniform.
pub open spec fn act_col_spec(pos_u: bool, col_u: bool) -> Seq<char> {
    opt(col_u, handler_spec(FieldKind::Color, color_index(pos_u)))
}

/// The body of `uniforms`.
pub open spec fn uniforms_spec(pos_u: bool, col_u: bool, storage: Seq<char>) -> Seq<char> {
    if !pos_u && !col_u {
        storage
    } else {
        "glium::uniform!{ "@ + opt(pos_u, "pos_u: u.0,"@) + " "@ + opt(
            col_u,
            "col_u: u."@ + color_index(pos_u),
        ) + " }"@
    }
}

/// The implementation of the rendering interface.
pub open spec fn interface_spec(name: Seq<char>, p: ItemModel, c: ItemModel, vs: Seq<char>, fs: Seq<char>) -> Seq<char> {
    let pu = uniform_of(p);
    let cu = uniform_of(c);
    let size = digit_text(size_of(p));
    let con = tuple_spec(pu, cu, size);
    let uni = storage_spec(pu, cu, size);
    "\nimpl qqx::BoundPolygonInterface <"@ + con + "> for "@ + name + " {\nconst MOVABLE: bool = "@
        + (if pu { "true"@ } else { "false"@ }) + ";\nconst COLORABLE: bool = "@ + (if cu {
        "true"@
    } else {
        "false"@
    }) + ";\ntype Move = qqx::Vec"@ + size + " <f32>;\ntype Uniform = "@ + uni
        + ";\nfn program(dpy: &qqx::glium::Display) -> &'static qqx::glium::Program {\n"@
        + "static PROGRAM: std::sync::OnceLock<qqx::glium::Program> = std::sync::OnceLock::new();\n"@
        + "PROGRAM.get_or_init(|| qqx::glium::Program::from_source(dpy, \""@ + vs + "\", \""@ + fs
        + "\", None).unwrap())\n}\nfn uniforms(u: &"@ + con + ") -> "@ + uni + " {\n"@
        + uniforms_spec(pu, cu, uni) + "\n}\nfn act_pos(u: &mut "@ + con
        + ", action: qqx::BoundPolygonInterfaceAction <Self::Move>) {"@ + act_pos_spec(pu)
        + "}\nfn act_col(u: &mut "@ + con
        + ", action: qqx::BoundPolygonInterfaceAction <qqx::Color>) {"@ + act_col_spec(pu, cu)
        + "}\n}\n"@
}

fn bool_text(b: bool) -> (r: &'static str)
    ensures
        r@ == (if b {
            "true"@
        } else {
            "false"@
        }),
{
    if b {
        "true"
    } else {
        "false"
    }
}

fn uniforms_body(pos_u: bool, col_u: bool, storage: &String) -> (r: String)
    ensures
        r@ == uniforms_spec(pos_u, col_u, storage@),
{
    if !pos_u && !col_u {
        return storage.clone();
    }
    let mut r = String::from_str("glium::uniform!{ ");
    append_if(&mut r, pos_u, "pos_u: u.0,");
    r.append(" ");
    let mut c = String::from_str("col_u: u.");
    c.append(if pos_u { "1" } else { "0" });
    append_if(&mut r, col_u, c.as_str());
    r.append(" }");
    r
}

/// Builds the implementation of the rendering interface for the type `name`
/// from the two stage sources.
pub fn interface(name: &String, pos: &Item, color: &Item, vs: &String, fs: &String) -> (r: String)
    ensures
        r@ == interface_spec(name@, pos@, color@, vs@, fs@),
{
    let pu = pos.is_uniform();
    let cu = color.is_uniform();
    let size = digit_string(pos_size(pos));
    let con = tuple_type(pu, cu, &size);
    let uni = storage_type(pu, cu, &size);
    let mut r = String::from_str("\nimpl qqx::BoundPolygonInterface <");
    r.append(con.as_str());
    r.append("> for ");
    r.append(name.as_str());
    r.append(" {\nconst MOVABLE: bool = ");
    r.append(bool_text(pu));
    r.append(";\nconst COLORABLE: bool = ");
    r.append(bool_text(cu));
    r.append(";\ntype Move = qqx::Vec");
    r.append(size.as_str());
    r.append(" <f32>;\ntype Uniform = ");
    r.append(uni.as_str());
    r.append(";\nfn program(dpy: &qqx::glium::Display) -> &'static qqx::glium::Program {\n");
    r.append(
        "static PROGRAM: std::sync::OnceLock<qqx::glium::Program> = std::sync::OnceLock::new();\n",
    );
    r.append("PROGRAM.get_or_init(|| qqx::glium::Program::from_source(dpy, \"");
    r.append(vs.as_str());
    r.append("\", \"");
    r.append(fs.as_str());
    r.append("\", None).unwrap())\n}\nfn uniforms(u: &");
    r.append(con.as_str());
    r.append(") -> ");
    r.append(uni.as_str());
    r.append(" {\n");
    r.append(uniforms_body(pu, cu, &uni).as_str());
    r.append("\n}\nfn act_pos(u: &mut ");
    r.append(con.as_str());
    r.append(", action: qqx::BoundPolygonInterfaceAction <Self::Move>) {");
    let mut hp = String::new();
    append_if(&mut hp, pu, handler(FieldKind::Pos, "0").as_str());
    r.append(hp.as_str());
    r.append("}\nfn act_col(u: &mut ");
    r.append(con.as_str());
    r.append(", action: qqx::BoundPolygonInterfaceAction <qqx::Color>) {");
    let mut hc = String::new();
    append_if(&mut hc, cu, handler(FieldKind::Color, if pu { "1" } else { "0" }).as_str());
    r.append(hc.as_str());
    r.append("}\n}\n");
    assert(hp@ =~= act_pos_spec(pu));
    assert(hc@ =~= act_col_spec(pu, cu));
    r
}

/// The setters and the constructor of the generated type: a setter for
/// each shader field, and `new` with every such field at its default.
pub open spec fn builder_spec(name: Seq<char>, p: ItemModel, c: ItemModel) -> Seq<char> {
    "\nimpl "@ + name + " {\n"@ + opt(
        shader_of(c),
        "#[inline]\npub fn color(mut self, color: qqx::Color) -> Self {\nself.color = color.into();\nself\n}\n"@,
    ) + opt(
        shader_of(p),
        "#[inline]\npub fn pos(mut self, pos: qqx::Vec"@ + data_of(p)
            + " <f32>) -> Self {\nself.pos = pos;\nself\n}\n"@,
    ) + "pub fn new() -> Self {\nSelf {\n"@ + opt(shader_of(p), "pos: Default::default(),"@)
        + opt(shader_of(c), "color: Default::default(),"@) + "\n}\n}\n}\n"@
}

/// Builds the setters and the constructor of the generated type.
pub fn builder(name: &String, pos: &Item, color: &Item) -> (r: String)
    ensures
        r@ == builder_spec(name@, pos@, color@),
{
    let mut r = String::from_str("\nimpl ");
    r.append(name.as_str());
    r.append(" {\n");
    append_if(
        &mut r,
        color.is_shader(),
        "#[inline]\npub fn color(mut self, color: qqx::Color) -> Self {\nself.color = color.into();\nself\n}\n",
    );
    let mut ps = String::from_str("#[inline]\npub fn pos(mut self, pos: qqx::Vec");
    match pos {
        Item::Shader(d, _) => ps.append(d.as_str()),
        _ => {},
    }
    ps.append(" <f32>) -> Self {\nself.pos = pos;\nself\n}\n");
    append_if(&mut r, pos.is_shader(), ps.as_str());
    r.append("pub fn new() -> Self {\nSelf {\n");
    append_if(&mut r, pos.is_shader(), "pos: Default::default(),");
    append_if(&mut r, color.is_shader(), "color: Default::default(),");
    r.append("\n}\n}\n}\n");
    r
}

} // verus!
