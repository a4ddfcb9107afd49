// The generated text must be Rust that parses as a sequence of items.

use opaque_enum::args::{ArgToken, OpaqueArgs, Storage};
use opaque_enum::enum_expand::expand_enum;
use opaque_enum::expand::{opaque_enum as expand, SourceItem};
use opaque_enum::model::{
    Attr, EnumDef, Fields, FnDef, FnInput, GenericParam, Generics, ImplDef, ImplMember, MemberKind,
    NamedField, Pattern, ReturnTy, SelfTy, TraitRef, TypePath, TypeShape, Variant, Vis,
};

fn s(t: &str) -> String {
    t.to_owned()
}

fn parses(text: &str) {
    if let Err(e) = syn::parse_str::<syn::File>(text) {
        panic!("generated text does not parse: {e}\n{text}");
    }
}

fn sample_enum(generic: bool) -> EnumDef {
    let generics = if generic {
        Generics {
            params: vec![
                GenericParam { decl: s("'a"), bound: s("'a"), arg: s("'a") },
                GenericParam { decl: s("T: Clone = u8"), bound: s("T: Clone"), arg: s("T") },
                GenericParam { decl: s("const N: usize = 3"), bound: s("const N: usize"), arg: s("N") },
            ],
            where_clause: s("where T: Send"),
        }
    } else {
        Generics { params: Vec::new(), where_clause: String::new() }
    };
    EnumDef {
        attrs: vec![
            Attr { ident: Some(s("derive")), text: s("#[derive(Debug)]") },
            Attr { ident: Some(s("repr")), text: s("#[repr(u8)]") },
        ],
        vis: Vis::Public,
        ident: s("Sample"),
        generics,
        variants: vec![
            Variant {
                attrs: vec![Attr { ident: Some(s("doc")), text: s("#[doc = \" Nothing.\"]") }],
                ident: s("Empty"),
                fields: Fields::Unit,
                text: s("#[doc = \" Nothing.\"] Empty"),
            },
            Variant {
                attrs: Vec::new(),
                ident: s("Pair"),
                fields: Fields::Unnamed(vec![s("u8"), s("String")]),
                text: s("Pair(u8, String)"),
            },
            Variant {
                attrs: Vec::new(),
                ident: s("Named"),
                fields: Fields::Named(vec![
                    NamedField { name: s("a"), ty: s("u8") },
                    NamedField { name: s("b"), ty: s("Vec<u8>") },
                ]),
                text: s("Named { a: u8, b: Vec<u8> }"),
            },
        ],
    }
}

fn sample_impl(trait_: Option<&str>) -> ImplDef {
    let method = |ident: &str, sig: &str, inputs: Vec<FnInput>, output: ReturnTy| ImplMember {
        kind: MemberKind::Fn(FnDef {
            attrs: vec![s("#[inline]")],
            vis: if trait_.is_some() { Vis::Inherited } else { Vis::Public },
            defaultness: false,
            asyncness: false,
            constness: false,
            ident: s(ident),
            sig: s(sig),
            inputs,
            output,
        }),
        text: format!("#[inline] {sig} {{ loop {{}} }}"),
    };
    ImplDef {
        attrs: vec![s("#[allow(unused)]")],
        inner_attrs: Vec::new(),
        defaultness: false,
        unsafety: false,
        generics: Generics { params: Vec::new(), where_clause: String::new() },
        trait_: trait_.map(|t| TraitRef { bang: false, path: s(t) }),
        self_ty: SelfTy::Path(TypePath { prefix: s("crate::"), ident: s("Sample"), args: String::new() }),
        items: vec![
            method("new", "fn new(a: u8) -> Self", vec![FnInput::Typed(Pattern::Ident(s("a")))], ReturnTy::Type(
                TypeShape::Path { ident: Some(s("Self")) },
            )),
            method(
                "get",
                "fn get(&self, i: usize) -> u8",
                vec![FnInput::Receiver, FnInput::Typed(Pattern::Ident(s("i")))],
                ReturnTy::Type(TypeShape::Path { ident: Some(s("u8")) }),
            ),
        ],
    }
}

#[test]
fn enum_expansions_parse() {
    for storage in [Storage::Inline, Storage::Boxed] {
        for generic in [false, true] {
            parses(&expand_enum(OpaqueArgs { storage }, &sample_enum(generic)));
        }
    }
}

#[test]
fn impl_expansions_parse() {
    parses(&expand(&Vec::new(), SourceItem::Impl(sample_impl(None))).unwrap());
    parses(&expand(&Vec::new(), SourceItem::Impl(sample_impl(Some("Tr")))).unwrap());
    let boxed = vec![ArgToken::Ident(s("wrapper")), ArgToken::Punct('='), ArgToken::Ident(s("Box")), ArgToken::Punct(',')];
    parses(&expand(&boxed, SourceItem::Enum(sample_enum(true))).unwrap());
}
