use opaque_enum::args::{ArgErrorKind, ArgSite, ArgToken, OpaqueArgs, Storage};
use opaque_enum::enum_expand::{
    constructor, constructor_vis, doc_attrs, expand_enum, inner_ident, projections, public_attrs,
    Projection,
};
use opaque_enum::error::{ExpandError, MemberFault};
use opaque_enum::expand::{opaque_enum as expand, SourceItem};
use opaque_enum::impl_expand::{
    function_args, has_receiver, inner_ty, returns_self, wrapper_fn,
};
use opaque_enum::model::{
    render_generics, render_ref_generics, Attr, EnumDef, Fields, FnDef, FnInput, GenericParam,
    Generics, GenericsForm, ImplDef, ImplMember, MemberKind, Pattern, ReturnTy, SelfTy, TraitRef,
    TypePath, TypeShape, Variant, Vis,
};
use opaque_enum::text::decimal_string;

fn s(t: &str) -> String {
    t.to_owned()
}

fn ident(t: &str) -> ArgToken {
    ArgToken::Ident(s(t))
}

fn parse(tokens: Vec<ArgToken>) -> Result<OpaqueArgs, (ArgErrorKind, ArgSite, String)> {
    OpaqueArgs::parse(&tokens).map_err(|e| (e.kind, e.site, e.message(&tokens)))
}

fn fn_def(inputs: Vec<FnInput>, output: ReturnTy) -> FnDef {
    FnDef {
        attrs: Vec::new(),
        vis: Vis::Inherited,
        defaultness: false,
        asyncness: false,
        constness: false,
        ident: s("run"),
        sig: s("fn run(&self, a: u8)"),
        inputs,
        output,
    }
}

fn member(f: FnDef) -> ImplMember {
    ImplMember { kind: MemberKind::Fn(f), text: s("fn run(&self, a: u8) {}") }
}

fn plain_impl(items: Vec<ImplMember>) -> ImplDef {
    ImplDef {
        attrs: Vec::new(),
        inner_attrs: Vec::new(),
        defaultness: false,
        unsafety: false,
        generics: Generics { params: Vec::new(), where_clause: String::new() },
        trait_: None,
        self_ty: SelfTy::Path(TypePath { prefix: String::new(), ident: s("Foo"), args: String::new() }),
        items,
    }
}

fn generic_params() -> Vec<GenericParam> {
    vec![
        GenericParam { decl: s("'a"), bound: s("'a"), arg: s("'a") },
        GenericParam { decl: s("T: Clone = u8"), bound: s("T: Clone"), arg: s("T") },
    ]
}

#[test]
fn no_arguments_keep_the_enum_inline() {
    assert_eq!(parse(Vec::new()), Ok(OpaqueArgs { storage: Storage::Inline }));
}

#[test]
fn wrapper_box_boxes_the_enum() {
    let toks = vec![ident("wrapper"), ArgToken::Punct('='), ident("Box")];
    assert_eq!(parse(toks), Ok(OpaqueArgs { storage: Storage::Boxed }));
    let toks = vec![ident("wrapper"), ArgToken::Punct('='), ident("Box"), ArgToken::Punct(',')];
    assert_eq!(parse(toks), Ok(OpaqueArgs { storage: Storage::Boxed }));
}

#[test]
fn argument_errors_point_at_the_offending_token() {
    assert_eq!(
        parse(vec![ident("wrap"), ArgToken::Punct('='), ident("Box")]),
        Err((ArgErrorKind::UnknownKey, ArgSite::Token(0), s("expected `wrapper = Box` or no arguments")))
    );
    assert_eq!(
        parse(vec![ident("wrapper"), ArgToken::Punct('='), ident("Rc")]),
        Err((
            ArgErrorKind::UnsupportedWrapper,
            ArgSite::Token(2),
            s("only `wrapper = Box` is currently supported")
        ))
    );
    assert_eq!(
        parse(vec![ident("wrapper"), ident("Box")]),
        Err((ArgErrorKind::ExpectedEq, ArgSite::Token(1), s("expected `=`")))
    );
    assert_eq!(
        parse(vec![ident("wrapper")]),
        Err((ArgErrorKind::ExpectedEq, ArgSite::End, s("expected `=`")))
    );
    assert_eq!(
        parse(vec![ident("wrapper"), ArgToken::Punct('=')]),
        Err((
            ArgErrorKind::ExpectedIdent,
            ArgSite::End,
            s("unexpected end of input, expected identifier")
        ))
    );
    assert_eq!(
        parse(vec![ArgToken::Literal(s("\"x\""))]),
        Err((ArgErrorKind::ExpectedIdent, ArgSite::Token(0), s("expected identifier")))
    );
    assert_eq!(
        parse(vec![ident("wrapper"), ArgToken::Punct('='), ident("Box"), ident("x")]),
        Err((ArgErrorKind::ExpectedComma, ArgSite::Token(3), s("expected `,`")))
    );
    assert_eq!(
        parse(vec![
            ident("wrapper"),
            ArgToken::Punct('='),
            ident("Box"),
            ArgToken::Punct(','),
            ident("x"),
        ]),
        Err((
            ArgErrorKind::ExtraArguments,
            ArgSite::Token(4),
            s("unexpected extra opaque_enum arguments")
        ))
    );
}

#[test]
fn keywords_are_not_identifiers() {
    assert_eq!(
        parse(vec![ident("type"), ArgToken::Punct('='), ident("Box")]),
        Err((
            ArgErrorKind::FoundKeyword,
            ArgSite::Token(0),
            s("expected identifier, found keyword `type`")
        ))
    );
    assert_eq!(
        parse(vec![ident("wrapper"), ArgToken::Punct('='), ident("self")]),
        Err((
            ArgErrorKind::FoundKeyword,
            ArgSite::Token(2),
            s("expected identifier, found keyword `self`")
        ))
    );
    // A raw identifier is an identifier, but it is not `wrapper`.
    assert_eq!(
        parse(vec![ident("r#type"), ArgToken::Punct('='), ident("Box")]),
        Err((ArgErrorKind::UnknownKey, ArgSite::Token(0), s("expected `wrapper = Box` or no arguments")))
    );
}

#[test]
fn hidden_enum_name_appends_inner() {
    assert_eq!(inner_ident(&s("Foo")), "FooInner");
    assert_ne!(inner_ident(&s("Foo")), inner_ident(&s("Bar")));
}

#[test]
fn public_constructors_become_crate_visible() {
    assert!(matches!(constructor_vis(&Vis::Public), Vis::Restricted(t) if t == "pub(crate)"));
    assert!(matches!(constructor_vis(&Vis::Inherited), Vis::Inherited));
    assert!(matches!(constructor_vis(&Vis::Restricted(s("pub(super)"))), Vis::Restricted(t) if t == "pub(super)"));
}

#[test]
fn generics_are_written_in_three_forms() {
    let ps = generic_params();
    assert_eq!(render_generics(&ps, GenericsForm::Decl), "<'a, T: Clone = u8>");
    assert_eq!(render_generics(&ps, GenericsForm::Impl), "<'a, T: Clone>");
    assert_eq!(render_generics(&ps, GenericsForm::Args), "<'a, T>");
    assert_eq!(render_ref_generics(&ps), "<'__opaque, 'a, T: Clone>");
    assert_eq!(render_generics(&Vec::new(), GenericsForm::Decl), "");
    assert_eq!(render_ref_generics(&Vec::new()), "<'__opaque>");
}

#[test]
fn positional_fields_are_numbered() {
    let v = Variant {
        attrs: vec![
            Attr { ident: Some(s("doc")), text: s("#[doc = \" Eleven.\"]") },
            Attr { ident: Some(s("serde")), text: s("#[serde(skip)]") },
        ],
        ident: s("Many"),
        fields: Fields::Unnamed(vec![s("u8"); 11]),
        text: String::new(),
    };
    let c = constructor(&Vis::Inherited, &s("E"), &s("EInner"), &v);
    assert!(c.starts_with("#[doc = \" Eleven.\"] #[allow(non_snake_case)]  fn Many(field_0: u8, "));
    assert!(c.contains("field_10: u8) -> Self { E::from(EInner::Many(field_0, field_1,"));
    assert!(c.ends_with("field_9, field_10)) }"));
    assert!(!c.contains("serde"));
    assert_eq!(decimal_string(0), "0");
    assert_eq!(decimal_string(1234), "1234");
}

#[test]
fn only_repr_leaves_the_public_struct() {
    let attrs = vec![
        Attr { ident: Some(s("repr")), text: s("#[repr(u8)]") },
        Attr { ident: Some(s("derive")), text: s("#[derive(Debug)]") },
        Attr { ident: Some(s("doc")), text: s("#[doc = \" x\"]") },
        Attr { ident: None, text: s("#[a::repr]") },
    ];
    assert_eq!(public_attrs(&attrs), vec![s("#[derive(Debug)]"), s("#[doc = \" x\"]"), s("#[a::repr]")]);
    assert_eq!(doc_attrs(&attrs), vec![s("#[doc = \" x\"]")]);
}

#[test]
fn shared_pointer_projections_need_inline_storage() {
    assert_eq!(
        projections(Storage::Inline),
        vec![
            Projection::Owned,
            Projection::Ref,
            Projection::RefMut,
            Projection::PinRef,
            Projection::PinMut,
            Projection::Arc,
            Projection::Rc,
        ]
    );
    assert_eq!(projections(Storage::Boxed).len(), 5);
}

#[test]
fn generic_enum_expansion() {
    let item = EnumDef {
        attrs: vec![Attr { ident: Some(s("repr")), text: s("#[repr(C)]") }],
        vis: Vis::Public,
        ident: s("Holder"),
        generics: Generics { params: generic_params(), where_clause: s("where T: Send") },
        variants: vec![Variant {
            attrs: Vec::new(),
            ident: s("Item"),
            fields: Fields::Named(vec![opaque_enum::model::NamedField { name: s("value"), ty: s("&'a T") }]),
            text: s("Item { value: &'a T }"),
        }],
    };
    let text = expand_enum(OpaqueArgs { storage: Storage::Inline }, &item);
    assert!(text.starts_with(
        "#[repr(transparent)]  pub struct Holder<'a, T: Clone = u8> where T: Send { inner: HolderInner<'a, T>, } "
    ));
    assert!(text.contains("#[repr(C)] enum HolderInner<'a, T: Clone = u8> where T: Send { Item { value: &'a T } } "));
    assert!(text.contains("impl<'a, T: Clone> Holder<'a, T> where T: Send { "));
    assert!(text.contains(
        "pub(crate) fn Item(value: &'a T) -> Self { Holder::from(HolderInner::Item { value }) }"
    ));
    assert!(text.contains(
        "impl<'__opaque, 'a, T: Clone> ::opaque_enum::OpaqueProject<HolderInner<'a, T>> for &'__opaque Holder<'a, T> where T: Send"
    ));
    assert!(text.ends_with(
        "impl<'a, T: Clone> ::opaque_enum::OpaqueProject<HolderInner<'a, T>> for ::std::rc::Rc<Holder<'a, T>> where T: Send { type Output = ::std::rc::Rc<HolderInner<'a, T>>; fn project(self) -> Self::Output { let ptr = ::std::rc::Rc::into_raw(self); unsafe { ::std::rc::Rc::from_raw(ptr.cast::<HolderInner<'a, T>>()) } } }"
    ));
}

#[test]
fn inner_type_renames_the_last_segment() {
    let tp = TypePath { prefix: s("crate::errors::"), ident: s("Fault"), args: s("<T>") };
    let it = inner_ty(&tp);
    assert_eq!(it.prefix, "crate::errors::");
    assert_eq!(it.ident, "FaultInner");
    assert_eq!(it.args, "<T>");
}

#[test]
fn receivers_and_arguments_are_forwarded() {
    let f = fn_def(
        vec![
            FnInput::Receiver,
            FnInput::Typed(Pattern::Ident(s("a"))),
            FnInput::Typed(Pattern::Ident(s("b"))),
        ],
        ReturnTy::Default,
    );
    assert!(has_receiver(&f));
    assert_eq!(function_args(&f), Ok(vec![s("a"), s("b")]));
    let w = wrapper_fn(&Some(TraitRef { bang: false, path: s("Tr") }), &s("FooInner"), &f).unwrap();
    assert_eq!(
        w,
        "  fn run(&self, a: u8) { <FooInner as Tr>::run(::opaque_enum::OpaqueProject::<FooInner>::project(self), a, b) }"
    );
    let g = fn_def(vec![FnInput::Typed(Pattern::Ident(s("x")))], ReturnTy::Default);
    assert!(!has_receiver(&g));
    assert_eq!(wrapper_fn(&None, &s("FooInner"), &g).unwrap(), "  fn run(&self, a: u8) { <FooInner>::run(x) }");
}

#[test]
fn only_a_bare_self_return_is_converted() {
    assert!(returns_self(&ReturnTy::Type(TypeShape::Path { ident: Some(s("Self")) })));
    assert!(!returns_self(&ReturnTy::Type(TypeShape::Path { ident: None })));
    assert!(!returns_self(&ReturnTy::Type(TypeShape::Path { ident: Some(s("Other")) })));
    assert!(!returns_self(&ReturnTy::Type(TypeShape::Other)));
    assert!(!returns_self(&ReturnTy::Default));
}

#[test]
fn impl_errors_name_the_member() {
    let ok = member(fn_def(vec![FnInput::Receiver], ReturnTy::Default));
    let other = ImplMember { kind: MemberKind::Other, text: s("const X: u8 = 1;") };
    let e = expand(&Vec::new(), SourceItem::Impl(plain_impl(vec![ok, other]))).unwrap_err();
    assert_eq!(e, ExpandError::Member { index: 1, fault: MemberFault::NotMethod });
    assert_eq!(e.message(&Vec::new()), "`#[opaque_enum]` impl blocks currently support methods only");

    let mut f = fn_def(vec![FnInput::Receiver], ReturnTy::Default);
    f.asyncness = true;
    let e = expand(&Vec::new(), SourceItem::Impl(plain_impl(vec![member(f)]))).unwrap_err();
    assert_eq!(e, ExpandError::Member { index: 0, fault: MemberFault::Async });
    assert_eq!(e.message(&Vec::new()), "`#[opaque_enum]` does not yet support async methods");

    let mut f = fn_def(vec![FnInput::Receiver], ReturnTy::Default);
    f.constness = true;
    let e = expand(&Vec::new(), SourceItem::Impl(plain_impl(vec![member(f)]))).unwrap_err();
    assert_eq!(e, ExpandError::Member { index: 0, fault: MemberFault::Const });
    assert_eq!(e.message(&Vec::new()), "`#[opaque_enum]` does not yet support const methods");

    let f = fn_def(
        vec![FnInput::Receiver, FnInput::Typed(Pattern::Ident(s("a"))), FnInput::Typed(Pattern::Other)],
        ReturnTy::Default,
    );
    let e = expand(&Vec::new(), SourceItem::Impl(plain_impl(vec![member(f)]))).unwrap_err();
    assert_eq!(e, ExpandError::Member { index: 0, fault: MemberFault::ComplexArgument(2) });
    assert_eq!(e.message(&Vec::new()), "`#[opaque_enum]` forwarding requires simple identifier arguments");

    let mut item = plain_impl(Vec::new());
    item.self_ty = SelfTy::Other(s("&'static Foo"));
    let e = expand(&Vec::new(), SourceItem::Impl(item)).unwrap_err();
    assert_eq!(e, ExpandError::SelfTypeNotPath);
    assert_eq!(e.message(&Vec::new()), "`#[opaque_enum]` impl target must be a plain type path");
}

#[test]
fn other_items_are_refused_after_the_arguments() {
    let e = expand(&Vec::new(), SourceItem::Other).unwrap_err();
    assert_eq!(e, ExpandError::UnsupportedItem);
    assert_eq!(e.message(&Vec::new()), "`#[opaque_enum]` can only be applied to enums and impl blocks");
    let bad = vec![ident("nope")];
    let e = expand(&bad, SourceItem::Other).unwrap_err();
    assert!(matches!(e, ExpandError::Args(a) if a.kind == ArgErrorKind::UnknownKey));
    assert_eq!(e.message(&bad), "expected `wrapper = Box` or no arguments");
}

#[test]
fn trait_impl_headers_are_kept() {
    let mut item = plain_impl(vec![member(fn_def(vec![FnInput::Receiver], ReturnTy::Default))]);
    item.attrs = vec![s("#[allow(unused)]")];
    item.unsafety = true;
    item.trait_ = Some(TraitRef { bang: false, path: s("Marker") });
    item.generics = Generics {
        params: vec![GenericParam { decl: s("T"), bound: s("T"), arg: s("T") }],
        where_clause: s("where T: Copy"),
    };
    let text = expand(&Vec::new(), SourceItem::Impl(item)).unwrap();
    // Both the forwarding impl and the copy for the hidden enum keep the
    // `where` clause.
    assert!(text.starts_with("#[allow(unused)] unsafe impl<T> Marker for Foo where T: Copy { "));
    assert!(text.contains(" } #[allow(unused)] unsafe impl<T> Marker for FooInner where T: Copy {  fn run(&self, a: u8) {} } "));
}

#[test]
fn boxed_arguments_are_ignored_on_impls() {
    let item = || plain_impl(vec![member(fn_def(vec![FnInput::Receiver], ReturnTy::Default))]);
    let boxed = vec![ident("wrapper"), ArgToken::Punct('='), ident("Box")];
    assert_eq!(
        expand(&boxed, SourceItem::Impl(item())).unwrap(),
        expand(&Vec::new(), SourceItem::Impl(item())).unwrap()
    );
}

#[test]
fn every_method_gets_one_forwarder() {
    let items = vec![
        member(fn_def(vec![FnInput::Receiver], ReturnTy::Default)),
        member(fn_def(vec![FnInput::Receiver], ReturnTy::Default)),
        member(fn_def(vec![FnInput::Receiver], ReturnTy::Default)),
    ];
    let text = expand(&Vec::new(), SourceItem::Impl(plain_impl(items))).unwrap();
    assert_eq!(text.matches("::opaque_enum::OpaqueProject::<FooInner>::project(self)").count(), 3);
    assert_eq!(text.matches("fn run(&self, a: u8) {}").count(), 3);
}

#[test]
fn attributes_without_repr_are_all_kept() {
    let attrs = vec![
        Attr { ident: Some(s("derive")), text: s("#[derive(Clone)]") },
        Attr { ident: None, text: s("#[serde::rename = \"x\"]") },
    ];
    assert_eq!(public_attrs(&attrs), vec![s("#[derive(Clone)]"), s("#[serde::rename = \"x\"]")]);
}
