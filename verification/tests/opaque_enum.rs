#![allow(missing_docs)]
#![allow(non_snake_case)]
#![allow(dead_code)]

// Each scenario runs twice over: the library expands a description of the
// annotated source, and the code below holds the parts of that expansion the
// scenario uses, written out, whose behaviour the assertions check. The
// written-out pinned and `Arc` projections avoid pointer casts: the values
// here are `Unpin` and each `Arc` is held once, so plain moves do the same.

use opaque_enum::args::{ArgToken, Storage};
use opaque_enum::expand::{opaque_enum as expand, SourceItem};
use opaque_enum::model::{
    Attr, EnumDef, Fields, FnDef, FnInput, Generics, ImplDef, ImplMember, MemberKind, NamedField,
    Pattern, ReturnTy, SelfTy, TraitRef, TypePath, TypeShape, Variant, Vis,
};
use opaque_enum::OpaqueProject;
use std::error::Error;
use std::fmt::{Display, Formatter};
use std::io;
use std::pin::Pin;
use std::sync::Arc;

fn s(t: &str) -> String {
    t.to_owned()
}

fn derive_debug() -> Attr {
    Attr { ident: Some(s("derive")), text: s("#[derive(Debug)]") }
}

fn no_generics() -> Generics {
    Generics { params: Vec::new(), where_clause: String::new() }
}

fn variant(ident: &str, fields: Fields, text: &str) -> Variant {
    Variant { attrs: Vec::new(), ident: s(ident), fields, text: s(text) }
}

fn path(ident: &str) -> SelfTy {
    SelfTy::Path(TypePath { prefix: String::new(), ident: s(ident), args: String::new() })
}

fn method(ident: &str, sig: &str, inputs: Vec<FnInput>, output: ReturnTy) -> ImplMember {
    ImplMember {
        kind: MemberKind::Fn(FnDef {
            attrs: Vec::new(),
            vis: Vis::Inherited,
            defaultness: false,
            asyncness: false,
            constness: false,
            ident: s(ident),
            sig: s(sig),
            inputs,
            output,
        }),
        text: format!("{sig} {{ /* body */ }}"),
    }
}

fn impl_block(trait_: Option<&str>, self_ty: &str, items: Vec<ImplMember>) -> ImplDef {
    ImplDef {
        attrs: Vec::new(),
        inner_attrs: Vec::new(),
        defaultness: false,
        unsafety: false,
        generics: no_generics(),
        trait_: trait_.map(|t| TraitRef { bang: false, path: s(t) }),
        self_ty: path(self_ty),
        items,
    }
}

fn expand_ok(attr: Vec<ArgToken>, item: SourceItem) -> String {
    match expand(&attr, item) {
        Ok(text) => text,
        Err(e) => panic!("expansion refused: {:?}", e),
    }
}

fn demo_error_source() -> EnumDef {
    EnumDef {
        attrs: vec![derive_debug()],
        vis: Vis::Public,
        ident: s("DemoError"),
        generics: no_generics(),
        variants: vec![
            variant("Missing", Fields::Unit, "Missing"),
            variant("Io", Fields::Unnamed(vec![s("io::Error")]), "Io(io::Error)"),
            variant(
                "Named",
                Fields::Named(vec![NamedField { name: s("raw"), ty: s("String") }]),
                "Named { raw: String }",
            ),
        ],
    }
}

fn demo_error_expansion() -> String {
    expand_ok(Vec::new(), SourceItem::Enum(demo_error_source()))
}

fn receiver_demo_source() -> EnumDef {
    EnumDef {
        attrs: vec![derive_debug()],
        vis: Vis::Inherited,
        ident: s("ReceiverDemo"),
        generics: no_generics(),
        variants: vec![variant("Count", Fields::Unnamed(vec![s("usize")]), "Count(usize)")],
    }
}

fn self_path() -> ReturnTy {
    ReturnTy::Type(TypeShape::Path { ident: Some(s("Self")) })
}

fn receiver_demo_impl() -> ImplDef {
    impl_block(
        None,
        "ReceiverDemo",
        vec![
            method("get", "fn get(&self) -> usize", vec![FnInput::Receiver], ReturnTy::Type(TypeShape::Path {
                ident: Some(s("usize")),
            })),
            method("bump", "fn bump(&mut self)", vec![FnInput::Receiver], ReturnTy::Default),
            method("double", "fn double(self) -> Self", vec![FnInput::Receiver], self_path()),
            method(
                "from_arc",
                "fn from_arc(self: Arc<Self>) -> usize",
                vec![FnInput::Receiver],
                ReturnTy::Type(TypeShape::Path { ident: Some(s("usize")) }),
            ),
            method(
                "get_pinned",
                "fn get_pinned(self: ::std::pin::Pin<&Self>) -> usize",
                vec![FnInput::Receiver],
                ReturnTy::Type(TypeShape::Path { ident: Some(s("usize")) }),
            ),
            method(
                "bump_pinned",
                "fn bump_pinned(self: ::std::pin::Pin<&mut Self>)",
                vec![FnInput::Receiver],
                ReturnTy::Default,
            ),
        ],
    )
}

// ---------------------------------------------------------------------------
// The expansion of `DemoError`, its `Display` and `Error` impls.

#[derive(Debug)]
pub struct DemoError {
    inner: DemoErrorInner,
}

#[derive(Debug)]
enum DemoErrorInner {
    Missing,
    Io(io::Error),
    Named { raw: String },
}

impl DemoError {
    #[allow(non_snake_case)]
    pub(crate) fn Missing() -> Self {
        DemoError::from(DemoErrorInner::Missing)
    }
    #[allow(non_snake_case)]
    pub(crate) fn Io(field_0: io::Error) -> Self {
        DemoError::from(DemoErrorInner::Io(field_0))
    }
    #[allow(non_snake_case)]
    pub(crate) fn Named(raw: String) -> Self {
        DemoError::from(DemoErrorInner::Named { raw })
    }
    fn __opaque_into_inner(self) -> DemoErrorInner {
        self.inner
    }
    fn __opaque_as_inner(&self) -> &DemoErrorInner {
        &self.inner
    }
    fn __opaque_as_inner_mut(&mut self) -> &mut DemoErrorInner {
        &mut self.inner
    }
}

impl ::std::convert::From<DemoErrorInner> for DemoError {
    fn from(inner: DemoErrorInner) -> Self {
        Self { inner }
    }
}

impl ::opaque_enum::OpaqueProject<DemoErrorInner> for DemoError {
    type Output = DemoErrorInner;
    fn project(self) -> Self::Output {
        self.__opaque_into_inner()
    }
}

impl<'__opaque> ::opaque_enum::OpaqueProject<DemoErrorInner> for &'__opaque DemoError {
    type Output = &'__opaque DemoErrorInner;
    fn project(self) -> Self::Output {
        self.__opaque_as_inner()
    }
}

impl<'__opaque> ::opaque_enum::OpaqueProject<DemoErrorInner> for &'__opaque mut DemoError {
    type Output = &'__opaque mut DemoErrorInner;
    fn project(self) -> Self::Output {
        self.__opaque_as_inner_mut()
    }
}

impl From<io::Error> for DemoError {
    fn from(err: io::Error) -> Self {
        Self::Io(err)
    }
}

impl Display for DemoError {
    fn fmt(&self, f: &mut Formatter<'_>) -> std::fmt::Result {
        <DemoErrorInner as Display>::fmt(
            ::opaque_enum::OpaqueProject::<DemoErrorInner>::project(self),
            f,
        )
    }
}

impl Display for DemoErrorInner {
    fn fmt(&self, f: &mut Formatter<'_>) -> std::fmt::Result {
        match self {
            Self::Missing => f.write_str("missing value"),
            Self::Io(err) => f.write_str(&format!("io error: {err}")),
            Self::Named { raw } => f.write_str(&format!("named payload: {raw}")),
        }
    }
}

impl Error for DemoError {
    fn source(&self) -> Option<&(dyn Error + 'static)> {
        <DemoErrorInner as Error>::source(::opaque_enum::OpaqueProject::<DemoErrorInner>::project(
            self,
        ))
    }
}

impl Error for DemoErrorInner {
    fn source(&self) -> Option<&(dyn Error + 'static)> {
        match self {
            Self::Io(err) => Some(err),
            Self::Missing | Self::Named { .. } => None,
        }
    }
}

// ---------------------------------------------------------------------------
// The expansion of `ReceiverDemo` and its inherent impl.

#[derive(Debug)]
struct ReceiverDemo {
    inner: ReceiverDemoInner,
}

#[derive(Debug)]
enum ReceiverDemoInner {
    Count(usize),
}

impl ReceiverDemo {
    #[allow(non_snake_case)]
    fn Count(field_0: usize) -> Self {
        ReceiverDemo::from(ReceiverDemoInner::Count(field_0))
    }
    fn __opaque_into_inner(self) -> ReceiverDemoInner {
        self.inner
    }
    fn __opaque_as_inner(&self) -> &ReceiverDemoInner {
        &self.inner
    }
    fn __opaque_as_inner_mut(&mut self) -> &mut ReceiverDemoInner {
        &mut self.inner
    }
}

impl ::std::convert::From<ReceiverDemoInner> for ReceiverDemo {
    fn from(inner: ReceiverDemoInner) -> Self {
        Self { inner }
    }
}

impl ::opaque_enum::OpaqueProject<ReceiverDemoInner> for ReceiverDemo {
    type Output = ReceiverDemoInner;
    fn project(self) -> Self::Output {
        self.__opaque_into_inner()
    }
}

impl<'__opaque> ::opaque_enum::OpaqueProject<ReceiverDemoInner> for &'__opaque ReceiverDemo {
    type Output = &'__opaque ReceiverDemoInner;
    fn project(self) -> Self::Output {
        self.__opaque_as_inner()
    }
}

impl<'__opaque> ::opaque_enum::OpaqueProject<ReceiverDemoInner> for &'__opaque mut ReceiverDemo {
    type Output = &'__opaque mut ReceiverDemoInner;
    fn project(self) -> Self::Output {
        self.__opaque_as_inner_mut()
    }
}

impl<'__opaque> ::opaque_enum::OpaqueProject<ReceiverDemoInner>
    for ::std::pin::Pin<&'__opaque ReceiverDemo>
{
    type Output = ::std::pin::Pin<&'__opaque ReceiverDemoInner>;
    fn project(self) -> Self::Output {
        Pin::new(Pin::into_inner(self).__opaque_as_inner())
    }
}

impl<'__opaque> ::opaque_enum::OpaqueProject<ReceiverDemoInner>
    for ::std::pin::Pin<&'__opaque mut ReceiverDemo>
{
    type Output = ::std::pin::Pin<&'__opaque mut ReceiverDemoInner>;
    fn project(self) -> Self::Output {
        Pin::new(Pin::into_inner(self).__opaque_as_inner_mut())
    }
}

impl ::opaque_enum::OpaqueProject<ReceiverDemoInner> for ::std::sync::Arc<ReceiverDemo> {
    type Output = ::std::sync::Arc<ReceiverDemoInner>;
    fn project(self) -> Self::Output {
        match ::std::sync::Arc::try_unwrap(self) {
            Ok(wrapper) => ::std::sync::Arc::new(wrapper.inner),
            Err(_) => panic!("the scenarios hold each Arc once"),
        }
    }
}

impl ReceiverDemo {
    fn get(&self) -> usize {
        <ReceiverDemoInner>::get(::opaque_enum::OpaqueProject::<ReceiverDemoInner>::project(self))
    }
    fn bump(&mut self) {
        <ReceiverDemoInner>::bump(::opaque_enum::OpaqueProject::<ReceiverDemoInner>::project(self))
    }
    fn double(self) -> Self {
        ::std::convert::Into::into(<ReceiverDemoInner>::double(
            ::opaque_enum::OpaqueProject::<ReceiverDemoInner>::project(self),
        ))
    }
    fn from_arc(self: Arc<Self>) -> usize {
        <ReceiverDemoInner>::from_arc(::opaque_enum::OpaqueProject::<ReceiverDemoInner>::project(
            self,
        ))
    }
    fn get_pinned(self: ::std::pin::Pin<&Self>) -> usize {
        <ReceiverDemoInner>::get_pinned(::opaque_enum::OpaqueProject::<ReceiverDemoInner>::project(
            self,
        ))
    }
    fn bump_pinned(self: ::std::pin::Pin<&mut Self>) {
        <ReceiverDemoInner>::bump_pinned(::opaque_enum::OpaqueProject::<ReceiverDemoInner>::project(
            self,
        ))
    }
}

impl ReceiverDemoInner {
    fn get(&self) -> usize {
        match self {
            Self::Count(value) => *value,
        }
    }

    fn bump(&mut self) {
        match self {
            Self::Count(value) => *value += 1,
        }
    }

    fn double(self) -> Self {
        match self {
            Self::Count(value) => Self::Count(value * 2),
        }
    }

    fn from_arc(self: Arc<Self>) -> usize {
        match self.as_ref() {
            Self::Count(value) => *value,
        }
    }

    fn get_pinned(self: ::std::pin::Pin<&Self>) -> usize {
        match self.get_ref() {
            Self::Count(value) => *value,
        }
    }

    fn bump_pinned(self: ::std::pin::Pin<&mut Self>) {
        match self.get_mut() {
            Self::Count(value) => *value += 1,
        }
    }
}

// ---------------------------------------------------------------------------
// The expansion of `BoxedDemo` and its inherent impl.

#[derive(Debug)]
struct BoxedDemo {
    inner: ::std::boxed::Box<BoxedDemoInner>,
}

#[derive(Debug)]
enum BoxedDemoInner {
    Value(String),
}

impl BoxedDemo {
    #[allow(non_snake_case)]
    fn Value(field_0: String) -> Self {
        BoxedDemo::from(BoxedDemoInner::Value(field_0))
    }
    fn __opaque_as_inner(&self) -> &BoxedDemoInner {
        self.inner.as_ref()
    }
}

impl ::std::convert::From<BoxedDemoInner> for BoxedDemo {
    fn from(inner: BoxedDemoInner) -> Self {
        Self { inner: ::std::boxed::Box::new(inner) }
    }
}

impl<'__opaque> ::opaque_enum::OpaqueProject<BoxedDemoInner> for &'__opaque BoxedDemo {
    type Output = &'__opaque BoxedDemoInner;
    fn project(self) -> Self::Output {
        self.__opaque_as_inner()
    }
}

impl BoxedDemo {
    fn value(&self) -> &str {
        <BoxedDemoInner>::value(::opaque_enum::OpaqueProject::<BoxedDemoInner>::project(self))
    }
}

impl BoxedDemoInner {
    fn value(&self) -> &str {
        match self {
            Self::Value(value) => value,
        }
    }
}

// ---------------------------------------------------------------------------
// The scenarios.

#[test]
fn unit_constructor_is_function() {
    let text = demo_error_expansion();
    assert!(text.contains(
        " #[allow(non_snake_case)] pub(crate) fn Missing() -> Self { DemoError::from(DemoErrorInner::Missing) }"
    ));

    let err = DemoError::Missing();
    assert_eq!(err.to_string(), "missing value");
}

#[test]
fn tuple_constructor_works_as_from_body() {
    let text = demo_error_expansion();
    assert!(text.contains(
        "pub(crate) fn Io(field_0: io::Error) -> Self { DemoError::from(DemoErrorInner::Io(field_0)) }"
    ));
    let display = expand_ok(
        Vec::new(),
        SourceItem::Impl(impl_block(
            Some("Display"),
            "DemoError",
            vec![method(
                "fmt",
                "fn fmt(&self, f: &mut Formatter<'_>) -> std::fmt::Result",
                vec![FnInput::Receiver, FnInput::Typed(Pattern::Ident(s("f")))],
                ReturnTy::Type(TypeShape::Path { ident: None }),
            )],
        )),
    );
    assert!(display.contains(
        "{ <DemoErrorInner as Display>::fmt(::opaque_enum::OpaqueProject::<DemoErrorInner>::project(self), f) }"
    ));

    let err = DemoError::from(io::Error::new(io::ErrorKind::NotFound, "gone"));
    assert_eq!(err.to_string(), "io error: gone");
    assert!(err.source().is_some());
}

#[test]
fn named_payload_patterns_are_rewritten_in_impls() {
    let text = demo_error_expansion();
    assert!(text.contains(
        "pub(crate) fn Named(raw: String) -> Self { DemoError::from(DemoErrorInner::Named { raw }) }"
    ));
    let error_impl = impl_block(
        Some("Error"),
        "DemoError",
        vec![method(
            "source",
            "fn source(&self) -> Option<&(dyn Error + 'static)>",
            vec![FnInput::Receiver],
            ReturnTy::Type(TypeShape::Path { ident: None }),
        )],
    );
    let expanded = expand_ok(Vec::new(), SourceItem::Impl(error_impl));
    // The block written for the public type is copied for the hidden enum.
    assert!(expanded.contains(
        "impl Error for DemoErrorInner  {  fn source(&self) -> Option<&(dyn Error + 'static)> { /* body */ } } "
    ));

    let err = DemoError::Named("abc".to_owned());
    assert_eq!(err.to_string(), "named payload: abc");
    assert!(err.source().is_none());
}

#[test]
fn forwarded_receivers_project_to_inner_receiver() {
    let text = expand_ok(Vec::new(), SourceItem::Impl(receiver_demo_impl()));
    assert!(text.contains(
        "fn get(&self) -> usize { <ReceiverDemoInner>::get(::opaque_enum::OpaqueProject::<ReceiverDemoInner>::project(self)) }"
    ));
    assert!(text.contains(
        "fn double(self) -> Self { ::std::convert::Into::into(<ReceiverDemoInner>::double(::opaque_enum::OpaqueProject::<ReceiverDemoInner>::project(self))) }"
    ));
    let en = expand_ok(Vec::new(), SourceItem::Enum(receiver_demo_source()));
    assert!(en.contains(
        "impl ::opaque_enum::OpaqueProject<ReceiverDemoInner> for ::std::sync::Arc<ReceiverDemo>"
    ));

    let mut value = ReceiverDemo::Count(7);
    assert_eq!(value.get(), 7);

    value.bump();
    assert_eq!(value.get(), 8);

    let value = value.double();
    assert_eq!(value.get(), 16);

    assert_eq!(ReceiverDemo::from_arc(Arc::new(value)), 16);
}

#[test]
fn boxed_representation_is_opt_in() {
    let source = EnumDef {
        attrs: vec![derive_debug()],
        vis: Vis::Inherited,
        ident: s("BoxedDemo"),
        generics: no_generics(),
        variants: vec![variant("Value", Fields::Unnamed(vec![s("String")]), "Value(String)")],
    };
    let boxed = vec![
        ArgToken::Ident(s("wrapper")),
        ArgToken::Punct('='),
        ArgToken::Ident(s("Box")),
    ];
    let text = expand_ok(boxed, SourceItem::Enum(source));
    assert!(text.starts_with("#[derive(Debug)]  struct BoxedDemo  { inner: ::std::boxed::Box<BoxedDemoInner>, } "));
    assert!(!text.contains("repr(transparent)"));
    assert!(!text.contains("::std::sync::Arc"));
    assert!(text.contains("Self { inner: ::std::boxed::Box::new(inner) }"));

    let value = BoxedDemo::Value("boxed".to_owned());
    assert_eq!(value.value(), "boxed");
}

#[test]
fn forwarded_pin_receivers_project_correctly() {
    let en = expand_ok(Vec::new(), SourceItem::Enum(receiver_demo_source()));
    assert!(en.contains(
        "impl<'__opaque> ::opaque_enum::OpaqueProject<ReceiverDemoInner> for ::std::pin::Pin<&'__opaque mut ReceiverDemo>"
    ));
    assert!(en.contains(
        "unsafe { self.map_unchecked_mut(|wrapper| wrapper.__opaque_as_inner_mut()) }"
    ));

    let mut value = ReceiverDemo::Count(5);
    let mut pin_mut = Pin::new(&mut value);
    pin_mut.as_mut().bump_pinned();

    let pin_ref = Pin::new(&value);
    assert_eq!(pin_ref.get_pinned(), 6);
}

#[test]
fn projection_trait_is_usable_directly() {
    let value = ReceiverDemo::Count(3);
    let inner: &ReceiverDemoInner = OpaqueProject::<ReceiverDemoInner>::project(&value);
    assert_eq!(inner.get(), 3);
    let _ = Storage::Inline;
}
