use hdrgen::ast::Abi;
use hdrgen::ast::Arg;
use hdrgen::ast::Attr;
use hdrgen::ast::AttrKind;
use hdrgen::ast::Field;
use hdrgen::ast::Item;
use hdrgen::ast::PatExpr;
use hdrgen::ast::TypeExpr;
use hdrgen::extract::emit_item;
use hdrgen::extract::emit_module;
use hdrgen::extract::has_attribute;
use hdrgen::extract::is_c_abi;
use hdrgen::extract::map_arg;
use hdrgen::extract::map_args;
use hdrgen::extract::map_field;
use hdrgen::extract::map_pat;
use hdrgen::extract::map_path;
use hdrgen::extract::map_return_type;
use hdrgen::extract::map_ty;
use hdrgen::extract::wr_func_body;
use hdrgen::extract::EmitError;

fn outer(kind: AttrKind) -> Attr {
    Attr { outer: true, kind }
}

fn named_ty(n: &str) -> TypeExpr {
    TypeExpr::Named { name: n.to_string() }
}

fn captured(n: &str, t: TypeExpr) -> Arg {
    Arg::Captured { pat: PatExpr::Ident { name: n.to_string() }, ty: t }
}

fn c_abi() -> Option<Abi> {
    Some(Abi::Named { name: "C".to_string() })
}

fn exported_fn(name: &str, attrs: Vec<Attr>, args: Vec<Arg>, ret: Option<TypeExpr>) -> Item {
    Item::Function { name: name.to_string(), attrs, abi: c_abi(), args, ret }
}

fn named_field(n: &str, t: TypeExpr) -> Field {
    Field { name: Some(n.to_string()), ty: t }
}

#[test]
fn add_function_prototype() {
    let item = exported_fn(
        "add",
        vec![outer(AttrKind::NoMangle)],
        vec![captured("a", named_ty("u32")), captured("b", named_ty("u32"))],
        Some(named_ty("u32")),
    );
    let r = emit_item(&item);
    assert_eq!(
        r,
        Ok(Some("WR_INLINE uint32_t\nadd(uint32_t a, uint32_t b)\nWR_FUNC;\n".to_string()))
    );
}

#[test]
fn destructor_safe_picks_other_body() {
    let item = exported_fn(
        "free_it",
        vec![outer(AttrKind::NoMangle), outer(AttrKind::DestructorSafe)],
        vec![captured("p", TypeExpr::Ptr { inner: Box::new(named_ty("c_void")) })],
        None,
    );
    let r = emit_item(&item);
    assert_eq!(
        r,
        Ok(Some("WR_INLINE void\nfree_it(void* p)\nWR_DESTRUCTOR_SAFE_FUNC;\n".to_string()))
    );
    assert_eq!(wr_func_body(&vec![outer(AttrKind::DestructorSafe)]), "WR_DESTRUCTOR_SAFE_FUNC");
    assert_eq!(wr_func_body(&vec![outer(AttrKind::NoMangle)]), "WR_FUNC");
}

#[test]
fn point_struct_layout() {
    let item = Item::Struct {
        name: "Point".to_string(),
        attrs: vec![outer(AttrKind::ReprC)],
        fields: Some(vec![named_field("x", named_ty("f32")), named_field("y", named_ty("f32"))]),
    };
    let r = emit_item(&item);
    assert_eq!(r, Ok(Some("struct Point {\n  float x;\n  float y;\n};\n".to_string())));
}

#[test]
fn function_missing_either_marker_is_silent() {
    let only_mangle = exported_fn("f", vec![], vec![], None);
    assert_eq!(emit_item(&only_mangle), Ok(None));
    let no_abi = Item::Function {
        name: "g".to_string(),
        attrs: vec![outer(AttrKind::NoMangle)],
        abi: None,
        args: vec![],
        ret: None,
    };
    assert_eq!(emit_item(&no_abi), Ok(None));
    let rust_abi = Item::Function {
        name: "h".to_string(),
        attrs: vec![outer(AttrKind::NoMangle)],
        abi: Some(Abi::Rust),
        args: vec![],
        ret: None,
    };
    assert_eq!(emit_item(&rust_abi), Ok(None));
    let inner_attr_only = Item::Function {
        name: "i".to_string(),
        attrs: vec![Attr { outer: false, kind: AttrKind::NoMangle }],
        abi: c_abi(),
        args: vec![],
        ret: None,
    };
    assert_eq!(emit_item(&inner_attr_only), Ok(None));
}

#[test]
fn struct_without_layout_marker_is_silent() {
    let plain = Item::Struct {
        name: "P".to_string(),
        attrs: vec![outer(AttrKind::NoMangle)],
        fields: Some(vec![named_field("x", named_ty("u8"))]),
    };
    assert_eq!(emit_item(&plain), Ok(None));
    let tuple_body = Item::Struct {
        name: "T".to_string(),
        attrs: vec![outer(AttrKind::ReprC)],
        fields: None,
    };
    assert_eq!(emit_item(&tuple_body), Ok(None));
}

#[test]
fn other_items_are_silent() {
    assert_eq!(emit_item(&Item::Other), Ok(None));
    assert_eq!(
        emit_item(&Item::ExternCrate { name: "dep".to_string() }),
        Ok(None)
    );
}

#[test]
fn unnamed_field_is_fatal() {
    let item = Item::Struct {
        name: "Bad".to_string(),
        attrs: vec![outer(AttrKind::ReprC)],
        fields: Some(vec![
            named_field("x", named_ty("u8")),
            Field { name: None, ty: named_ty("u8") },
        ]),
    };
    assert_eq!(emit_item(&item), Err(EmitError::UnnamedField));
}

#[test]
fn primitive_names_map_to_c() {
    assert_eq!(map_path(&"usize".to_string()), "size_t");
    assert_eq!(map_path(&"u8".to_string()), "uint8_t");
    assert_eq!(map_path(&"u32".to_string()), "uint32_t");
    assert_eq!(map_path(&"f32".to_string()), "float");
    assert_eq!(map_path(&"c_void".to_string()), "void");
    assert_eq!(map_path(&"WrState".to_string()), "WrState");
}

#[test]
fn pointers_compose_with_star() {
    let nested = TypeExpr::Ptr {
        inner: Box::new(TypeExpr::Ptr { inner: Box::new(named_ty("u8")) }),
    };
    assert_eq!(map_ty(&nested), "uint8_t**");
    let reference = TypeExpr::Ref { inner: Box::new(named_ty("usize")) };
    assert_eq!(map_ty(&reference), "size_t*");
    let mixed = TypeExpr::Ref { inner: Box::new(TypeExpr::Ptr { inner: Box::new(named_ty("f32")) }) };
    assert_eq!(map_ty(&mixed), "float**");
}

#[test]
fn unmapped_type_degrades_visibly() {
    let arr = TypeExpr::Other { rendered: "Array(u8, 4)".to_string() };
    assert_eq!(map_ty(&arr), "unknown Array(u8, 4)");
}

#[test]
fn missing_return_type_is_void() {
    assert_eq!(map_return_type(&None), "void");
    assert_eq!(map_return_type(&Some(named_ty("u32"))), "uint32_t");
}

#[test]
fn unknown_patterns_and_args() {
    assert_eq!(map_pat(&PatExpr::Other { rendered: "Wild".to_string() }), "unknown Wild");
    assert_eq!(map_arg(&Arg::Other), "unknown");
    assert_eq!(map_args(&vec![]), "");
    assert_eq!(
        map_args(&vec![captured("n", named_ty("usize"))]),
        "size_t n"
    );
}

#[test]
fn field_line_shape() {
    assert_eq!(map_field(&named_field("w", named_ty("u32"))), "  uint32_t w;\n");
}

#[test]
fn attribute_lookup_needs_outer() {
    let attrs = vec![Attr { outer: false, kind: AttrKind::ReprC }, outer(AttrKind::Other)];
    assert!(!has_attribute(AttrKind::ReprC, &attrs));
    assert!(has_attribute(AttrKind::Other, &attrs));
    assert!(is_c_abi(&c_abi()));
    assert!(!is_c_abi(&Some(Abi::Named { name: "stdcall".to_string() })));
    assert!(!is_c_abi(&None));
}

#[test]
fn module_blocks_keep_declaration_order() {
    let items = vec![
        exported_fn("first", vec![outer(AttrKind::NoMangle)], vec![], None),
        Item::Other,
        exported_fn("second", vec![outer(AttrKind::NoMangle)], vec![], None),
    ];
    let (blocks, err) = emit_module(&items);
    assert_eq!(err, None);
    assert_eq!(
        blocks,
        vec![
            "WR_INLINE void\nfirst()\nWR_FUNC;\n".to_string(),
            "WR_INLINE void\nsecond()\nWR_FUNC;\n".to_string(),
        ]
    );
}

#[test]
fn module_output_before_fatal_item_stands() {
    let items = vec![
        exported_fn("early", vec![outer(AttrKind::NoMangle)], vec![], None),
        Item::Struct {
            name: "Bad".to_string(),
            attrs: vec![outer(AttrKind::ReprC)],
            fields: Some(vec![Field { name: None, ty: named_ty("u8") }]),
        },
        exported_fn("late", vec![outer(AttrKind::NoMangle)], vec![], None),
    ];
    let (blocks, err) = emit_module(&items);
    assert_eq!(err, Some(EmitError::UnnamedField));
    assert_eq!(blocks, vec!["WR_INLINE void\nearly()\nWR_FUNC;\n".to_string()]);
}
