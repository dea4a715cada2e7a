//! The declaration filter and type translator.
//!
//! A function is rendered as a C prototype when it both keeps its name
//! (`NoMangle`) and uses the C calling convention; a structure is rendered
//! as a C struct definition when it asks for C layout and has a brace-style
//! field list. Everything else is passed over in silence. Type expressions
//! are rewritten by a pure, total mapping; a type outside the mapped subset
//! degrades to a visible `unknown ...` placeholder instead of failing.

use vstd::prelude::*;
use vstd::string::StringExecFns;
use crate::ast::AttrKind;
use crate::ast::Attr;
use crate::ast::Abi;
use crate::ast::TypeExpr;
use crate::ast::PatExpr;
use crate::ast::Arg;
use crate::ast::Field;
use crate::ast::Item;
use crate::ast::has_marker;

verus! {

/// Extraction fails only when a C-layout structure declares a field
/// without a name: such a structure has no C rendering.
#[derive(Clone, Copy, PartialEq, Eq, Structural, Debug)]
pub enum EmitError {
    UnnamedField,
}

/// The C spelling of a named source type. The handful of primitive names
/// with a fixed C equivalent are translated; every other name passes
/// through unchanged.
pub open spec fn spec_map_name(n: Seq<char>) -> Seq<char> {
    if n == "usize"@ {
        "size_t"@
    } else if n == "u8"@ {
        "uint8_t"@
    } else if n == "u32"@ {
        "uint32_t"@
    } else if n == "f32"@ {
        "float"@
    } else if n == "c_void"@ {
        "void"@
    } else {
        n
    }
}

/// The C spelling of a type expression. Pointers and references both map
/// to a C pointer to the mapped inner type; an unmapped shape yields a
/// placeholder that embeds its debug spelling.
pub open spec fn spec_map_ty(t: TypeExpr) -> Seq<char>
    decreases t,
{
    match t {
        TypeExpr::Named { name } => spec_map_name(name@),
        TypeExpr::Ptr { inner } => spec_map_ty(*inner) + "*"@,
        TypeExpr::Ref { inner } => spec_map_ty(*inner) + "*"@,
        TypeExpr::Other { rendered } => "unknown "@ + rendered@,
    }
}

/// A missing return type renders as C `void`.
pub open spec fn spec_map_return(ret: Option<TypeExpr>) -> Seq<char> {
    match ret {
        Option::Some(t) => spec_map_ty(t),
        Option::None => "void"@,
    }
}

/// A parameter name; a pattern that is not a plain identifier degrades to
/// a placeholder embedding its debug spelling.
pub open spec fn spec_map_pat(p: PatExpr) -> Seq<char> {
    match p {
        PatExpr::Ident { name } => name@,
        PatExpr::Other { rendered } => "unknown "@ + rendered@,
    }
}

/// One rendered parameter: mapped type, a space, then the name.
pub open spec fn spec_map_arg(a: Arg) -> Seq<char> {
    match a {
        Arg::Captured { pat, ty } => spec_map_ty(ty) + " "@ + spec_map_pat(pat),
        Arg::Other => "unknown"@,
    }
}

/// The parameter list joined by `, `, in declaration order.
pub open spec fn spec_join_args(args: Seq<Arg>) -> Seq<char>
    decreases args.len(),
{
    if args.len() == 0 {
        Seq::empty()
    } else if args.len() == 1 {
        spec_map_arg(args[0])
    } else {
        spec_join_args(args.drop_last()) + ", "@ + spec_map_arg(args.last())
    }
}

/// The body placeholder of a prototype: one spelling for functions marked
/// safe under a destructor context, a default spelling otherwise.
pub open spec fn spec_wr_body(attrs: Seq<Attr>) -> Seq<char> {
    if has_marker(attrs, AttrKind::DestructorSafe) {
        "WR_DESTRUCTOR_SAFE_FUNC"@
    } else {
        "WR_FUNC"@
    }
}

/// Whether a declared calling convention is the named C convention.
pub open spec fn spec_is_c_abi(abi: Option<Abi>) -> bool {
    match abi {
        Option::Some(a) => match a {
            Abi::Named { name } => name@ == "C"@,
            Abi::Rust => false,
        },
        Option::None => false,
    }
}

/// Tests whether `attrs` carries the marker `target` as an outer attribute.
pub fn has_attribute(target: AttrKind, attrs: &Vec<Attr>) -> (r: bool)
    ensures
        r == has_marker(attrs@, target),
{
    let mut i: usize = 0;
    while i < attrs.len()
        invariant
            i <= attrs@.len(),
            forall|j: int| 0 <= j < i ==> !(attrs@[j].outer && attrs@[j].kind == target),
        decreases attrs@.len() - i,
    {
        if attrs[i].outer && attrs[i].kind == target {
            return true;
        }
        i += 1;
    }
    false
}

/// Whether the declaration keeps its name across the foreign boundary.
pub fn has_no_mangle(attrs: &Vec<Attr>) -> (r: bool)
    ensures
        r == has_marker(attrs@, AttrKind::NoMangle),
{
    has_attribute(AttrKind::NoMangle, attrs)
}

/// Whether the structure asks for C-compatible layout.
pub fn is_repr_c(attrs: &Vec<Attr>) -> (r: bool)
    ensures
        r == has_marker(attrs@, AttrKind::ReprC),
{
    has_attribute(AttrKind::ReprC, attrs)
}

/// Whether the function's calling convention is the C convention.
pub fn is_c_abi(abi: &Option<Abi>) -> (r: bool)
    ensures
        r == spec_is_c_abi(*abi),
{
    match abi {
        Option::Some(Abi::Named { name }) => eq_str(name, "C"),
        _ => false,
    }
}

/// The body placeholder chosen for a prototype.
pub fn wr_func_body(attrs: &Vec<Attr>) -> (r: String)
    ensures
        r@ == spec_wr_body(attrs@),
{
    if has_attribute(AttrKind::DestructorSafe, attrs) {
        "WR_DESTRUCTOR_SAFE_FUNC".to_owned()
    } else {
        "WR_FUNC".to_owned()
    }
}

/// String comparison against a literal.
fn eq_str(s: &String, t: &str) -> (r: bool)
    ensures
        r == (s@ == t@),
{
    *s == t.to_owned()
}

/// Maps a named type to its C spelling.
pub fn map_path(name: &String) -> (r: String)
    ensures
        r@ == spec_map_name(name@),
{
    if eq_str(name, "usize") {
        "size_t".to_owned()
    } else if eq_str(name, "u8") {
        "uint8_t".to_owned()
    } else if eq_str(name, "u32") {
        "uint32_t".to_owned()
    } else if eq_str(name, "f32") {
        "float".to_owned()
    } else if eq_str(name, "c_void") {
        "void".to_owned()
    } else {
        name.clone()
    }
}

/// Maps a type expression to its C spelling.
pub fn map_ty(t: &TypeExpr) -> (r: String)
    ensures
        r@ == spec_map_ty(*t),
    decreases *t,
{
    match t {
        TypeExpr::Named { name } => map_path(name),
        TypeExpr::Ptr { inner } => {
            let mut s = map_ty(&**inner);
            s.append("*");
            s
        }
        TypeExpr::Ref { inner } => {
            let mut s = map_ty(&**inner);
            s.append("*");
            s
        }
        TypeExpr::Other { rendered } => {
            let mut s = "unknown ".to_owned();
            s.append(rendered.as_str());
            s
        }
    }
}

/// Maps a return type, rendering a missing one as `void`.
pub fn map_return_type(ret: &Option<TypeExpr>) -> (r: String)
    ensures
        r@ == spec_map_return(*ret),
{
    match ret {
        Option::Some(t) => map_ty(t),
        Option::None => "void".to_owned(),
    }
}

/// Maps a parameter pattern to the name it binds.
pub fn map_pat(pat: &PatExpr) -> (r: String)
    ensures
        r@ == spec_map_pat(*pat),
{
    match pat {
        PatExpr::Ident { name } => name.clone(),
        PatExpr::Other { rendered } => {
            let mut s = "unknown ".to_owned();
            s.append(rendered.as_str());
            s
        }
    }
}

/// Maps one parameter to `type name`.
pub fn map_arg(a: &Arg) -> (r: String)
    ensures
        r@ == spec_map_arg(*a),
{
    match a {
        Arg::Captured { pat, ty } => {
            let mut s = map_ty(ty);
            s.append(" ");
            let p = map_pat(pat);
            s.append(p.as_str());
            s
        }
        Arg::Other => "unknown".to_owned(),
    }
}

/// Renders the whole parameter list, joined by `, `.
pub fn map_args(args: &Vec<Arg>) -> (r: String)
    ensures
        r@ == spec_join_args(args@),
{
    let mut s = String::new();
    let mut i: usize = 0;
    while i < args.len()
        invariant
            i <= args@.len(),
            s@ == spec_join_args(args@.take(i as int)),
        decreases args@.len() - i,
    {
        if i > 0 {
            s.append(", ");
        }
        let a = map_arg(&args[i]);
        s.append(a.as_str());
        proof {
            assert(args@.take(i as int + 1).drop_last() =~= args@.take(i as int));
            assert(args@.take(i as int + 1).last() == args@[i as int]);
            if i == 0 {
                assert(Seq::<char>::empty() + spec_map_arg(args@[0]) =~= spec_map_arg(args@[0]));
            }
        }
        i += 1;
    }
    proof {
        assert(args@.take(args@.len() as int) =~= args@);
    }
    s
}

/// One rendered field line: two spaces, mapped type, a space, the field
/// name, then `;` and a newline. Defined for named fields only.
pub open spec fn spec_field_line(f: Field) -> Seq<char> {
    "  "@ + spec_map_ty(f.ty) + " "@ + f.name->0@ + ";\n"@
}

/// All field lines of a structure, in declaration order.
pub open spec fn spec_fields_text(fields: Seq<Field>) -> Seq<char>
    decreases fields.len(),
{
    if fields.len() == 0 {
        Seq::empty()
    } else {
        spec_fields_text(fields.drop_last()) + spec_field_line(fields.last())
    }
}

/// Whether every field of the list carries a name.
pub open spec fn all_fields_named(fields: Seq<Field>) -> bool {
    forall|i: int| 0 <= i < fields.len() ==> fields[i].name is Some
}

/// A whole prototype block: `WR_INLINE`, the mapped return type, the
/// name, the joined parameters, and the chosen body placeholder.
pub open spec fn spec_fn_block(
    name: Seq<char>,
    attrs: Seq<Attr>,
    args: Seq<Arg>,
    ret: Option<TypeExpr>,
) -> Seq<char> {
    "WR_INLINE "@ + spec_map_return(ret) + "\n"@ + name + "("@ + spec_join_args(args) + ")\n"@
        + spec_wr_body(attrs) + ";\n"@
}

/// A whole structure block: header line, one line per field in
/// declaration order, and the closing brace.
pub open spec fn spec_struct_block(name: Seq<char>, fields: Seq<Field>) -> Seq<char> {
    "struct "@ + name + " {\n"@ + spec_fields_text(fields) + "};\n"@
}

/// A function is exported exactly when it both keeps its name and uses
/// the C calling convention.
pub open spec fn spec_is_exported_fn(item: Item) -> bool {
    match item {
        Item::Function { attrs, abi, .. } => has_marker(attrs@, AttrKind::NoMangle)
            && spec_is_c_abi(abi),
        _ => false,
    }
}

/// A structure is rendered exactly when it asks for C layout and has a
/// brace-style field list.
pub open spec fn spec_is_layout_struct(item: Item) -> bool {
    match item {
        Item::Struct { attrs, fields, .. } => fields is Some && has_marker(
            attrs@,
            AttrKind::ReprC,
        ),
        _ => false,
    }
}

/// The one fatal shape: a rendered structure with an unnamed field.
pub open spec fn spec_fatal(item: Item) -> bool {
    match item {
        Item::Struct { attrs, fields, .. } => match fields {
            Option::Some(fs) => has_marker(attrs@, AttrKind::ReprC) && !all_fields_named(fs@),
            Option::None => false,
        },
        _ => false,
    }
}

/// What one declaration contributes to the output: a prototype block for
/// an exported function, a structure block for a C-layout structure with
/// named fields, and nothing at all otherwise.
pub open spec fn spec_block_of(item: Item) -> Option<Seq<char>> {
    match item {
        Item::Function { name, attrs, abi, args, ret } => if has_marker(
            attrs@,
            AttrKind::NoMangle,
        ) && spec_is_c_abi(abi) {
            Option::Some(spec_fn_block(name@, attrs@, args@, ret))
        } else {
            Option::None
        },
        Item::Struct { name, attrs, fields } => match fields {
            Option::Some(fs) => if has_marker(attrs@, AttrKind::ReprC) && all_fields_named(fs@) {
                Option::Some(spec_struct_block(name@, fs@))
            } else {
                Option::None
            },
            Option::None => Option::None,
        },
        _ => Option::None,
    }
}

/// What a module body yields: the blocks of its declarations up to (and
/// not including) the first fatal one, and whether a fatal one was met.
/// Output already produced before the fatal declaration stands.
pub open spec fn spec_emit_module(items: Seq<Item>) -> (Seq<Seq<char>>, Option<EmitError>)
    decreases items.len(),
{
    if items.len() == 0 {
        (Seq::empty(), Option::None)
    } else if spec_fatal(items[0]) {
        (Seq::empty(), Option::Some(EmitError::UnnamedField))
    } else {
        let rest = spec_emit_module(items.drop_first());
        let head: Seq<Seq<char>> = match spec_block_of(items[0]) {
            Option::Some(b) => seq![b],
            Option::None => Seq::empty(),
        };
        (head + rest.0, rest.1)
    }
}

/// Renders one field line. The field must be named.
pub fn map_field(f: &Field) -> (r: String)
    requires
        f.name is Some,
    ensures
        r@ == spec_field_line(*f),
{
    let mut s = "  ".to_owned();
    let t = map_ty(&f.ty);
    s.append(t.as_str());
    s.append(" ");
    match &f.name {
        Option::Some(n) => s.append(n.as_str()),
        Option::None => {}
    }
    s.append(";\n");
    s
}

/// Renders one declaration, or nothing for a declaration that is not
/// FFI-relevant. Fails exactly on a C-layout structure with an unnamed
/// field.
#[verifier::loop_isolation(false)]
pub fn emit_item(item: &Item) -> (r: Result<Option<String>, EmitError>)
    ensures
        (match r {
            Result::Ok(opt) => !spec_fatal(*item) && (match opt {
                Option::Some(s) => spec_block_of(*item) == Option::Some(s@),
                Option::None => spec_block_of(*item) is None,
            }),
            Result::Err(e) => spec_fatal(*item) && e == EmitError::UnnamedField,
        }),
{
    match item {
        Item::Function { name, attrs, abi, args, ret } => {
            if has_no_mangle(attrs) && is_c_abi(abi) {
                let mut s = "WR_INLINE ".to_owned();
                let rt = map_return_type(ret);
                s.append(rt.as_str());
                s.append("\n");
                s.append(name.as_str());
                s.append("(");
                let aj = map_args(args);
                s.append(aj.as_str());
                s.append(")\n");
                let b = wr_func_body(attrs);
                s.append(b.as_str());
                s.append(";\n");
                Result::Ok(Option::Some(s))
            } else {
                Result::Ok(Option::None)
            }
        }
        Item::Struct { name, attrs, fields } => {
            if is_repr_c(attrs) {
                match fields {
                    Option::Some(fs) => {
                        let mut text = String::new();
                        let mut i: usize = 0;
                        while i < fs.len()
                            invariant
                                i <= fs@.len(),
                                all_fields_named(fs@.take(i as int)),
                                text@ == spec_fields_text(fs@.take(i as int)),
                                has_marker(attrs@, AttrKind::ReprC),
                            decreases fs@.len() - i,
                        {
                            match &fs[i].name {
                                Option::Some(_) => {}
                                Option::None => {
                                    proof {
                                        assert(fs@[i as int].name is None);
                                        assert(!all_fields_named(fs@));
                                    }
                                    return Result::Err(EmitError::UnnamedField);
                                }
                            }
                            let line = map_field(&fs[i]);
                            text.append(line.as_str());
                            proof {
                                assert(fs@.take(i as int + 1).drop_last() =~= fs@.take(i as int));
                                assert(fs@.take(i as int + 1).last() == fs@[i as int]);
                            }
                            i += 1;
                        }
                        proof {
                            assert(fs@.take(fs@.len() as int) =~= fs@);
                        }
                        let mut s = "struct ".to_owned();
                        s.append(name.as_str());
                        s.append(" {\n");
                        s.append(text.as_str());
                        s.append("};\n");
                        Result::Ok(Option::Some(s))
                    }
                    Option::None => Result::Ok(Option::None),
                }
            } else {
                Result::Ok(Option::None)
            }
        }
        _ => Result::Ok(Option::None),
    }
}

/// Renders a whole module body: the blocks of its declarations in
/// declaration order, stopping at the first fatal declaration. The blocks
/// already rendered are returned beside the error, since output written
/// before a fatal stop stands.
pub fn emit_module(items: &Vec<Item>) -> (r: (Vec<String>, Option<EmitError>))
    ensures
        r.0.deep_view() == spec_emit_module(items@).0,
        r.1 == spec_emit_module(items@).1,
{
    let mut out: Vec<String> = Vec::new();
    let mut i: usize = 0;
    proof {
        assert(items@.skip(0) =~= items@);
        assert(out.deep_view() =~= Seq::<Seq<char>>::empty());
        assert(Seq::<Seq<char>>::empty() + spec_emit_module(items@).0 =~= spec_emit_module(
            items@,
        ).0);
    }
    while i < items.len()
        invariant
            i <= items@.len(),
            out.deep_view() + spec_emit_module(items@.skip(i as int)).0 == spec_emit_module(
                items@,
            ).0,
            spec_emit_module(items@.skip(i as int)).1 == spec_emit_module(items@).1,
        decreases items@.len() - i,
    {
        proof {
            assert(items@.skip(i as int)[0] == items@[i as int]);
            assert(items@.skip(i as int).drop_first() =~= items@.skip(i as int + 1));
        }
        let ghost pre = out.deep_view();
        match emit_item(&items[i]) {
            Result::Ok(Option::Some(s)) => {
                out.push(s);
                proof {
                    assert(out.deep_view() =~= pre.push(s@));
                    assert(pre.push(s@) + spec_emit_module(items@.skip(i as int + 1)).0 =~= pre + (
                    seq![s@] + spec_emit_module(items@.skip(i as int + 1)).0));
                }
            }
            Result::Ok(Option::None) => {
                proof {
                    assert(pre + spec_emit_module(items@.skip(i as int + 1)).0 =~= pre + (
                    Seq::<Seq<char>>::empty() + spec_emit_module(items@.skip(i as int + 1)).0));
                }
            }
            Result::Err(e) => {
                proof {
                    assert(spec_emit_module(items@.skip(i as int)).0 =~= Seq::<Seq<char>>::empty());
                    assert(out.deep_view() + Seq::<Seq<char>>::empty() =~= out.deep_view());
                }
                return (out, Option::Some(e));
            }
        }
        i += 1;
    }
    proof {
        assert(items@.skip(items@.len() as int) =~= Seq::<Item>::empty());
        assert(out.deep_view() + Seq::<Seq<char>>::empty() =~= out.deep_view());
    }
    (out, Option::None)
}

/// Law: the type mapping composes over pointers and references — the C
/// spelling of a pointer type is the spelling of what it points to,
/// followed by `*`, however deeply pointers nest.
pub proof fn lemma_map_ty_pointer(p: TypeExpr)
    requires
        p is Ptr || p is Ref,
    ensures
        (match p {
            TypeExpr::Ptr { inner } => spec_map_ty(p) == spec_map_ty(*inner) + "*"@,
            TypeExpr::Ref { inner } => spec_map_ty(p) == spec_map_ty(*inner) + "*"@,
            _ => true,
        }),
{
}

/// Law: a declaration is rendered exactly once when it is an exported
/// function, or a C-layout structure whose fields are all named; it is
/// fatal exactly when it is a C-layout structure with an unnamed field;
/// every other declaration contributes nothing.
pub proof fn lemma_block_exactly_when(item: Item)
    ensures
        spec_block_of(item) is Some <==> (spec_is_exported_fn(item) || (spec_is_layout_struct(item)
            && !spec_fatal(item))),
        spec_fatal(item) ==> spec_block_of(item) is None,
{
}

/// Law: a function missing either the no-mangle marker or the C calling
/// convention never contributes output and never fails extraction.
pub proof fn lemma_unexported_fn_silent(item: Item)
    requires
        item is Function,
        !spec_is_exported_fn(item),
    ensures
        spec_block_of(item) is None,
        !spec_fatal(item),
{
}

/// Law: a structure without the C-layout marker never contributes output
/// and never fails extraction.
pub proof fn lemma_unmarked_struct_silent(item: Item)
    requires
        item is Struct,
        !spec_is_layout_struct(item),
    ensures
        spec_block_of(item) is None,
        !spec_fatal(item),
{
}

} // verus!
