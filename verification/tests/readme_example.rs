#![allow(non_snake_case)]
#![allow(dead_code)]

// The example of the crate documentation: the library expands it, and the
// parts of the expansion the example uses are written out below.

use opaque_enum::args::ArgToken;
use opaque_enum::expand::{opaque_enum as expand, SourceItem};
use opaque_enum::model::{
    Attr, EnumDef, Fields, FnDef, FnInput, Generics, ImplDef, ImplMember, MemberKind, NamedField,
    Pattern, ReturnTy, SelfTy, TraitRef, TypePath, TypeShape, Variant, Vis,
};
use std::fmt::{self, Display, Formatter};

fn s(t: &str) -> String {
    t.to_owned()
}

fn database_error(boxed: bool) -> (Vec<ArgToken>, EnumDef) {
    let attr = if boxed {
        vec![ArgToken::Ident(s("wrapper")), ArgToken::Punct('='), ArgToken::Ident(s("Box"))]
    } else {
        Vec::new()
    };
    let item = EnumDef {
        attrs: vec![Attr { ident: Some(s("derive")), text: s("#[derive(Debug)]") }],
        vis: Vis::Public,
        ident: s("DatabaseError"),
        generics: Generics { params: Vec::new(), where_clause: String::new() },
        variants: vec![
            Variant {
                attrs: Vec::new(),
                ident: s("ConnectionFailed"),
                fields: Fields::Unnamed(vec![s("String")]),
                text: s("ConnectionFailed(String)"),
            },
            Variant {
                attrs: Vec::new(),
                ident: s("QueryFailed"),
                fields: Fields::Named(vec![
                    NamedField { name: s("query"), ty: s("String") },
                    NamedField { name: s("reason"), ty: s("String") },
                ]),
                text: s("QueryFailed { query: String, reason: String }"),
            },
            Variant {
                attrs: Vec::new(),
                ident: s("PermissionDenied"),
                fields: Fields::Unit,
                text: s("PermissionDenied"),
            },
        ],
    };
    (attr, item)
}

fn display_impl() -> ImplDef {
    ImplDef {
        attrs: Vec::new(),
        inner_attrs: Vec::new(),
        defaultness: false,
        unsafety: false,
        generics: Generics { params: Vec::new(), where_clause: String::new() },
        trait_: Some(TraitRef { bang: false, path: s("Display") }),
        self_ty: SelfTy::Path(TypePath {
            prefix: String::new(),
            ident: s("DatabaseError"),
            args: String::new(),
        }),
        items: vec![ImplMember {
            kind: MemberKind::Fn(FnDef {
                attrs: Vec::new(),
                vis: Vis::Inherited,
                defaultness: false,
                asyncness: false,
                constness: false,
                ident: s("fmt"),
                sig: s("fn fmt(&self, f: &mut Formatter<'_>) -> fmt::Result"),
                inputs: vec![FnInput::Receiver, FnInput::Typed(Pattern::Ident(s("f")))],
                output: ReturnTy::Type(TypeShape::Path { ident: None }),
            }),
            text: s("fn fmt(&self, f: &mut Formatter<'_>) -> fmt::Result { match self { .. } }"),
        }],
    }
}

pub struct DatabaseError {
    inner: DatabaseErrorInner,
}

#[derive(Debug)]
enum DatabaseErrorInner {
    ConnectionFailed(String),
    QueryFailed { query: String, reason: String },
    PermissionDenied,
}

impl DatabaseError {
    #[allow(non_snake_case)]
    pub(crate) fn ConnectionFailed(field_0: String) -> Self {
        DatabaseError::from(DatabaseErrorInner::ConnectionFailed(field_0))
    }
    #[allow(non_snake_case)]
    pub(crate) fn QueryFailed(query: String, reason: String) -> Self {
        DatabaseError::from(DatabaseErrorInner::QueryFailed { query, reason })
    }
    #[allow(non_snake_case)]
    pub(crate) fn PermissionDenied() -> Self {
        DatabaseError::from(DatabaseErrorInner::PermissionDenied)
    }
    fn __opaque_as_inner(&self) -> &DatabaseErrorInner {
        &self.inner
    }
}

impl ::std::convert::From<DatabaseErrorInner> for DatabaseError {
    fn from(inner: DatabaseErrorInner) -> Self {
        Self { inner }
    }
}

impl<'__opaque> ::opaque_enum::OpaqueProject<DatabaseErrorInner> for &'__opaque DatabaseError {
    type Output = &'__opaque DatabaseErrorInner;
    fn project(self) -> Self::Output {
        self.__opaque_as_inner()
    }
}

impl Display for DatabaseError {
    fn fmt(&self, f: &mut Formatter<'_>) -> fmt::Result {
        <DatabaseErrorInner as Display>::fmt(
            ::opaque_enum::OpaqueProject::<DatabaseErrorInner>::project(self),
            f,
        )
    }
}

impl Display for DatabaseErrorInner {
    fn fmt(&self, f: &mut Formatter<'_>) -> fmt::Result {
        match self {
            Self::ConnectionFailed(err) => f.write_str(&format!("connection failed: {err}")),
            Self::QueryFailed { query, reason } => {
                f.write_str(&format!("query `{query}` failed: {reason}"))
            }
            Self::PermissionDenied => f.write_str("permission denied"),
        }
    }
}

#[test]
fn documented_example_displays_through_the_wrapper() {
    let (attr, item) = database_error(false);
    let text = expand(&attr, SourceItem::Enum(item)).unwrap();
    assert!(text.contains(
        "pub(crate) fn ConnectionFailed(field_0: String) -> Self { DatabaseError::from(DatabaseErrorInner::ConnectionFailed(field_0)) }"
    ));
    assert!(text.contains(
        "pub(crate) fn QueryFailed(query: String, reason: String) -> Self { DatabaseError::from(DatabaseErrorInner::QueryFailed { query, reason }) }"
    ));
    let display = expand(&Vec::new(), SourceItem::Impl(display_impl())).unwrap();
    assert!(display.contains(
        "fn fmt(&self, f: &mut Formatter<'_>) -> fmt::Result { <DatabaseErrorInner as Display>::fmt(::opaque_enum::OpaqueProject::<DatabaseErrorInner>::project(self), f) }"
    ));

    let err = DatabaseError::ConnectionFailed("timeout".to_owned());
    assert_eq!(err.to_string(), "connection failed: timeout");
    let err = DatabaseError::QueryFailed("q".to_owned(), "r".to_owned());
    assert_eq!(err.to_string(), "query `q` failed: r");
    assert_eq!(DatabaseError::PermissionDenied().to_string(), "permission denied");
}

#[test]
fn documented_boxed_example_holds_a_box() {
    let (attr, item) = database_error(true);
    let text = expand(&attr, SourceItem::Enum(item)).unwrap();
    assert!(text.starts_with(
        "#[derive(Debug)] pub struct DatabaseError  { inner: ::std::boxed::Box<DatabaseErrorInner>, } "
    ));
    assert!(text.contains("fn __opaque_as_inner(&self) -> &DatabaseErrorInner { self.inner.as_ref() }"));
    assert!(!text.contains("::std::rc::Rc"));
}
