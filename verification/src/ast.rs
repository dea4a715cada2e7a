//! A structural model of the declarations the generator reads.
//!
//! Only the parts of a parsed source tree that header extraction looks at
//! are kept: names, marker attributes, calling conventions, parameter and
//! field lists, and the shape of type expressions. Everything else in a
//! declaration collapses into an `Other` variant.

use vstd::prelude::*;

verus! {

/// The marker attributes the extractor recognizes on a declaration.
/// Any attribute outside this vocabulary is `Other`.
#[derive(Clone, Copy, PartialEq, Eq, Structural, Debug)]
pub enum AttrKind {
    /// The declaration keeps its name across the foreign boundary.
    NoMangle,
    /// The function may run in a destructor context.
    DestructorSafe,
    /// The structure's memory layout follows the C rules.
    ReprC,
    /// Any attribute that is not one of the recognized markers.
    Other,
}

/// One attribute applied to a declaration. Only outer attributes
/// (written above the declaration) act as markers.
#[derive(Clone, Copy, PartialEq, Eq, Structural, Debug)]
pub struct Attr {
    pub outer: bool,
    pub kind: AttrKind,
}

/// The shapes of type expression the mapper distinguishes. A type outside
/// the mapped subset carries a pre-rendered debug spelling, so that its
/// placeholder in the output names what was not understood.
#[derive(Debug)]
pub enum TypeExpr {
    Named { name: String },
    Ptr { inner: Box<TypeExpr> },
    Ref { inner: Box<TypeExpr> },
    Other { rendered: String },
}

/// A parameter's binding pattern: a plain identifier, or anything else
/// (again with a pre-rendered debug spelling).
#[derive(Debug)]
pub enum PatExpr {
    Ident { name: String },
    Other { rendered: String },
}

/// One function parameter.
#[derive(Debug)]
pub enum Arg {
    Captured { pat: PatExpr, ty: TypeExpr },
    Other,
}

/// One structure field. A field may lack a name (tuple-style); a C-layout
/// structure with such a field cannot be rendered and is a fatal error.
#[derive(Debug)]
pub struct Field {
    pub name: Option<String>,
    pub ty: TypeExpr,
}

/// A function's declared calling convention.
#[derive(Debug)]
pub enum Abi {
    Named { name: String },
    Rust,
}

/// One top-level declaration of a module body.
#[derive(Debug)]
pub enum Item {
    Function {
        name: String,
        attrs: Vec<Attr>,
        abi: Option<Abi>,
        args: Vec<Arg>,
        ret: Option<TypeExpr>,
    },
    /// `fields` is `Some` for a brace-style body with a field list and
    /// `None` for tuple-style or unit bodies, which are never rendered.
    Struct { name: String, attrs: Vec<Attr>, fields: Option<Vec<Field>> },
    /// `body` is `Some` for a submodule declared inline and `None` for a
    /// submodule that lives in its own file.
    Module { name: String, body: Option<Vec<Item>> },
    ExternCrate { name: String },
    Other,
}

/// A marker is present when some outer attribute carries it.
pub open spec fn has_marker(attrs: Seq<Attr>, kind: AttrKind) -> bool {
    exists|i: int| 0 <= i < attrs.len() && attrs[i].outer && attrs[i].kind == kind
}

} // verus!
