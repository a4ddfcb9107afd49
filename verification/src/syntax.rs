//! The calls into syn that read the annotated item, and the plain values
//! the item is read into: each call parses one piece of source text and hands
//! back its parts as texts, flags and positions, one level at a time; nested
//! pieces come back as text and are read in turn (see `reading`).
use vstd::prelude::*;
use quote::ToTokens;
use syn::parse::Parser;
use syn::AttrStyle::Outer;
use syn::{parse_str, FnArg, ImplItemFn, ItemEnum, ItemImpl, Pat, ReturnType, Signature, Type};
use crate::model::{Attr, Fields, NamedField, TraitRef, Variant};

verus! {

/// Which kind of item a text holds.
#[derive(Clone, Copy, Debug, PartialEq, Eq, Structural)]
pub enum ItemKind {
    /// An enum.
    Enum,
    /// An impl block.
    Impl,
    /// Any other item.
    Other,
}

/// The parts of an enum, its attributes, generic parameters and variants
/// still as text.
#[derive(Debug)]
pub struct EnumSyntax {
    /// Each attribute, as written.
    pub attrs: Vec<String>,
    /// The visibility, as text (empty when none is written).
    pub vis: String,
    /// The name.
    pub ident: String,
    /// Each generic parameter, as written, in source order.
    pub params: Vec<String>,
    /// The `where` clause, or empty.
    pub where_clause: String,
    /// Each variant, as written, in order.
    pub variants: Vec<String>,
}

/// The kind of a generic parameter.
#[derive(Clone, Copy, Debug, PartialEq, Eq, Structural)]
pub enum ParamKind {
    /// A lifetime parameter.
    Lifetime,
    /// A type parameter.
    Type,
    /// A const parameter.
    Const,
}

/// A generic parameter in parts.
#[derive(Debug)]
pub struct RawParam {
    /// Its kind.
    pub kind: ParamKind,
    /// Its attributes, each as written.
    pub attrs: Vec<String>,
    /// The lifetime or the name.
    pub name: String,
    /// The bounds (lifetime and type parameters, empty when none), or the
    /// type (const parameters).
    pub bounds: String,
    /// The default, when one is written.
    pub default: Option<String>,
}

/// An attribute of an impl block with its style.
#[derive(Debug)]
pub struct RawAttr {
    /// Outer (`#[..]`) rather than inner (`#![..]`).
    pub outer: bool,
    /// The attribute as written.
    pub text: String,
}

/// The parts of an impl block, nested pieces still as text, in the order
/// they are written: the attributes in source order, each with whether it is
/// outer (`#[..]`) rather than inner (`#![..]`); whether the impl is marked
/// `default`; whether it is `unsafe`; each generic parameter as written; the
/// `where` clause, or empty; the implemented trait, by whether it is negated
/// (`!Trait`) and its path; the self type as written; each item as written.
#[derive(Debug)]
pub struct ImplSyntax(
    pub Vec<(bool, String)>,
    pub bool,
    pub bool,
    pub Vec<String>,
    pub String,
    pub Option<(bool, String)>,
    pub String,
    pub Vec<String>,
);

impl ImplSyntax {
    /// The attributes, each with whether it is outer, in source order.
    pub open spec fn styled_attrs(self) -> Seq<(bool, String)> {
        self.0@
    }

    /// Whether the impl is marked `default`.
    pub open spec fn defaultness(self) -> bool {
        self.1
    }

    /// Whether the impl is `unsafe`.
    pub open spec fn unsafety(self) -> bool {
        self.2
    }

    /// Each generic parameter, as written.
    pub open spec fn params(self) -> Seq<String> {
        self.3@
    }

    /// The `where` clause, or empty.
    pub open spec fn where_clause(self) -> String {
        self.4
    }

    /// The implemented trait: whether it is negated, and its path.
    pub open spec fn trait_(self) -> Option<(bool, String)> {
        self.5
    }

    /// The self type, as written.
    pub open spec fn self_ty(self) -> String {
        self.6
    }

    /// Each item, as written.
    pub open spec fn items(self) -> Seq<String> {
        self.7@
    }
}

/// The parts of a method, its signature still as text.
#[derive(Debug)]
pub struct MethodSyntax {
    /// The attributes, each as written.
    pub attrs: Vec<String>,
    /// The visibility, as text.
    pub vis: String,
    /// Whether it is marked `default`.
    pub defaultness: bool,
    /// The whole signature, as written.
    pub sig: String,
}

/// The parts of a signature, its inputs and return type still as text.
#[derive(Debug)]
pub struct SignatureSyntax {
    /// Whether it is `async`.
    pub asyncness: bool,
    /// Whether it is `const`.
    pub constness: bool,
    /// The function's name.
    pub ident: String,
    /// Each input, as written.
    pub inputs: Vec<String>,
    /// The return type, when one is written.
    pub output: Option<String>,
}

/// The parts of a variant, its attributes still as text.
#[derive(Debug)]
pub struct VariantSyntax {
    /// Each attribute, as written.
    pub attrs: Vec<String>,
    /// The name.
    pub ident: String,
    /// The fields.
    pub fields: Fields,
}

/// One input of a signature.
#[derive(Debug)]
pub enum RawInput {
    /// A `self` receiver.
    Receiver,
    /// A typed parameter, with the name it binds when its pattern is a plain
    /// identifier.
    Typed(Option<String>),
}

/// A segment of a path.
#[derive(Debug)]
pub struct RawSegment {
    /// The segment's name.
    pub ident: String,
    /// The segment's arguments, as written; empty when it has none.
    pub args: String,
}

/// The qualified self of a path such as `<T as Tr>::Item`.
#[derive(Debug)]
pub struct RawQSelf {
    /// The self type, as written.
    pub ty: String,
    /// How many segments belong to the trait.
    pub position: usize,
}

/// A type path in parts.
#[derive(Debug)]
pub struct RawTypePath {
    /// The qualified self, if any.
    pub qself: Option<RawQSelf>,
    /// Whether the path starts with `::`.
    pub leading_colon: bool,
    /// The segments, in order.
    pub segments: Vec<RawSegment>,
}

/// A type, as far as the expansion looks into it.
#[derive(Debug)]
pub enum RawType {
    /// A type path.
    Path(RawTypePath),
    /// Any other type.
    Other,
}

/// What syn read from a text, together with that text. Only the calls into
/// syn below make one, so the text it holds is the text syn was given.
#[derive(Debug)]
pub struct Parsed<T> {
    source: String,
    value: T,
}

impl<T> Parsed<T> {
    /// The text syn was given.
    pub closed spec fn source(self) -> Seq<char> {
        self.source@
    }

    /// What syn read from it.
    pub closed spec fn value(self) -> T {
        self.value
    }

    /// Borrows what syn read.
    pub fn value_ref(&self) -> (r: &T)
        ensures
            *r == self.value(),
    {
        &self.value
    }

    /// Gives up the text and what syn read from it.
    pub fn into_parts(self) -> (r: (String, T))
        ensures
            r.0@ == self.source(),
            r.1 == self.value(),
    {
        (self.source, self.value)
    }
}

fn parsed<T>(text: &str, value: T) -> (r: Parsed<T>)
    ensures
        r.source() == text@,
        r.value() == value,
{
    Parsed { source: String::from_str(text), value }
}

/// Calls `syn::parse_str::<syn::Item>` and reports which kind of item it
/// read. Claimed: what is read was read from `text`, which is not empty.
#[verifier::external_body]
pub(crate) fn parse_item_kind(text: &str) -> (r: Option<Parsed<ItemKind>>)
    ensures
        r matches Some(p) ==> p.source() == text@ && text@.len() > 0,
{
    match parse_str::<syn::Item>(text).ok()? {
        syn::Item::Enum(_) => Some(parsed(text, ItemKind::Enum)),
        syn::Item::Impl(_) => Some(parsed(text, ItemKind::Impl)),
        _ => Some(parsed(text, ItemKind::Other)),
    }
}

/// Calls `syn::Attribute::parse_outer` on `text` and hands back each
/// attribute read, with its path when that is one identifier. Claimed: what
/// is read was read from `text`.
#[verifier::external_body]
pub(crate) fn parse_outer_attrs(text: &str) -> (r: Option<Parsed<Vec<Attr>>>)
    ensures
        r matches Some(p) ==> p.source() == text@,
{
    let attrs = Parser::parse_str(syn::Attribute::parse_outer, text).ok()?;
    Some(parsed(text, attrs.iter().map(|a| Attr { ident: a.path().get_ident().map(|i| i.to_string()), text: a.to_token_stream().to_string() }).collect()))
}

/// Calls `syn::parse_str::<syn::ItemEnum>` and hands back its fields.
/// Claimed: what is read was read from `text`, which is not empty.
#[verifier::external_body]
pub(crate) fn parse_enum(text: &str) -> (r: Option<Parsed<EnumSyntax>>)
    ensures
        r matches Some(p) ==> p.source() == text@ && text@.len() > 0,
{
    let e: ItemEnum = parse_str(text).ok()?;
    Some(parsed(text, EnumSyntax {
        attrs: e.attrs.iter().map(|a| a.to_token_stream().to_string()).collect(),
        vis: e.vis.to_token_stream().to_string(),
        ident: e.ident.to_string(),
        params: e.generics.params.iter().map(|p| p.to_token_stream().to_string()).collect(),
        where_clause: e.generics.where_clause.to_token_stream().to_string(),
        variants: e.variants.iter().map(|v| v.to_token_stream().to_string()).collect(),
    }))
}

/// Calls `syn::parse_str::<syn::Variant>` and hands back its fields.
/// Claimed: what is read was read from `text`.
#[verifier::external_body]
pub(crate) fn parse_variant(text: &str) -> (r: Option<Parsed<VariantSyntax>>)
    ensures
        r matches Some(p) ==> p.source() == text@,
{
    let v: syn::Variant = parse_str(text).ok()?;
    let fields = match &v.fields {
        syn::Fields::Unit => Fields::Unit,
        syn::Fields::Unnamed(f) => Fields::Unnamed(f.unnamed.iter().map(|f| f.ty.to_token_stream().to_string()).collect()),
        syn::Fields::Named(f) => Fields::Named(f.named.iter().map(|f| NamedField { name: f.ident.to_token_stream().to_string(), ty: f.ty.to_token_stream().to_string() }).collect()),
    };
    Some(parsed(text, VariantSyntax { attrs: v.attrs.iter().map(|a| a.to_token_stream().to_string()).collect(), ident: v.ident.to_string(), fields }))
}

/// Calls `syn::parse_str::<syn::LifetimeParam>` and hands back its fields.
/// Claimed: what is read was read from `text`, and is a lifetime parameter
/// without default.
#[verifier::external_body]
pub(crate) fn parse_lifetime_param(text: &str) -> (r: Option<Parsed<RawParam>>)
    ensures
        r matches Some(p) ==> p.source() == text@ && p.value().kind == ParamKind::Lifetime && p.value().default is None,
{
    let p: syn::LifetimeParam = parse_str(text).ok()?;
    let attrs = p.attrs.iter().map(|a| a.to_token_stream().to_string()).collect();
    Some(parsed(text, RawParam { kind: ParamKind::Lifetime, attrs, name: p.lifetime.to_string(), bounds: p.bounds.to_token_stream().to_string(), default: None }))
}

/// Calls `syn::parse_str::<syn::TypeParam>` and hands back its fields.
/// Claimed: what is read was read from `text`, and is a type parameter.
#[verifier::external_body]
pub(crate) fn parse_type_param(text: &str) -> (r: Option<Parsed<RawParam>>)
    ensures
        r matches Some(p) ==> p.source() == text@ && p.value().kind == ParamKind::Type,
{
    let p: syn::TypeParam = parse_str(text).ok()?;
    let attrs = p.attrs.iter().map(|a| a.to_token_stream().to_string()).collect();
    let default = p.default.as_ref().map(|d| d.to_token_stream().to_string());
    Some(parsed(text, RawParam { kind: ParamKind::Type, attrs, name: p.ident.to_string(), bounds: p.bounds.to_token_stream().to_string(), default }))
}

/// Calls `syn::parse_str::<syn::ConstParam>` and hands back its fields, the
/// parameter's type in `bounds`. Claimed: what is read was read from `text`,
/// and is a const parameter.
#[verifier::external_body]
pub(crate) fn parse_const_param(text: &str) -> (r: Option<Parsed<RawParam>>)
    ensures
        r matches Some(p) ==> p.source() == text@ && p.value().kind == ParamKind::Const,
{
    let p: syn::ConstParam = parse_str(text).ok()?;
    let attrs = p.attrs.iter().map(|a| a.to_token_stream().to_string()).collect();
    let default = p.default.as_ref().map(|d| d.to_token_stream().to_string());
    Some(parsed(text, RawParam { kind: ParamKind::Const, attrs, name: p.ident.to_string(), bounds: p.ty.to_token_stream().to_string(), default }))
}

/// Calls `syn::parse_str::<syn::ItemImpl>` and hands back its fields.
/// Claimed: what is read was read from `text`, which is not empty.
#[verifier::external_body]
pub(crate) fn parse_impl(text: &str) -> (r: Option<Parsed<ImplSyntax>>)
    ensures
        r matches Some(p) ==> p.source() == text@ && text@.len() > 0,
{
    let i: ItemImpl = parse_str(text).ok()?;
    Some(parsed(text, ImplSyntax(
        i.attrs.iter().map(|a| (matches!(a.style, Outer), a.to_token_stream().to_string())).collect(),
        i.defaultness.is_some(),
        i.unsafety.is_some(),
        i.generics.params.iter().map(|p| p.to_token_stream().to_string()).collect(),
        i.generics.where_clause.to_token_stream().to_string(),
        i.trait_.map(|t| (t.0.is_some(), t.1.to_token_stream().to_string())),
        i.self_ty.to_token_stream().to_string(),
        i.items.iter().map(|m| m.to_token_stream().to_string()).collect(),
    )))
}

/// Calls `syn::parse_str::<syn::ImplItemFn>` (a method with a body) and hands
/// back its fields. Claimed: what is read was read from `text`.
#[verifier::external_body]
pub(crate) fn parse_method(text: &str) -> (r: Option<Parsed<MethodSyntax>>)
    ensures
        r matches Some(p) ==> p.source() == text@,
{
    let f: ImplItemFn = parse_str(text).ok()?;
    let attrs = f.attrs.iter().map(|a| a.to_token_stream().to_string()).collect();
    Some(parsed(text, MethodSyntax { attrs, vis: f.vis.to_token_stream().to_string(), defaultness: f.defaultness.is_some(), sig: f.sig.to_token_stream().to_string() }))
}

/// Calls `syn::parse_str::<syn::Signature>` and hands back its fields.
/// Claimed: what is read was read from `text`.
#[verifier::external_body]
pub(crate) fn parse_signature(text: &str) -> (r: Option<Parsed<SignatureSyntax>>)
    ensures
        r matches Some(p) ==> p.source() == text@,
{
    let g: Signature = parse_str(text).ok()?;
    let output = match &g.output {
        ReturnType::Default => None,
        ReturnType::Type(_, t) => Some(t.to_token_stream().to_string()),
    };
    let inputs = g.inputs.iter().map(|i| i.to_token_stream().to_string()).collect();
    Some(parsed(text, SignatureSyntax { asyncness: g.asyncness.is_some(), constness: g.constness.is_some(), ident: g.ident.to_string(), inputs, output }))
}

/// Calls `syn::parse_str::<syn::FnArg>` and reports a receiver, or the
/// identifier a typed parameter binds. Claimed: what is read was read from
/// `text`.
#[verifier::external_body]
pub(crate) fn parse_fn_arg(text: &str) -> (r: Option<Parsed<RawInput>>)
    ensures
        r matches Some(p) ==> p.source() == text@,
{
    match parse_str::<FnArg>(text).ok()? {
        FnArg::Receiver(_) => Some(parsed(text, RawInput::Receiver)),
        FnArg::Typed(t) => match *t.pat {
            Pat::Ident(p) => Some(parsed(text, RawInput::Typed(Some(p.ident.to_string())))),
            _ => Some(parsed(text, RawInput::Typed(None))),
        },
    }
}

/// Calls `syn::parse_str::<syn::Type>` and hands back a type path in parts.
/// Claimed: what is read was read from `text`.
#[verifier::external_body]
pub(crate) fn parse_type(text: &str) -> (r: Option<Parsed<RawType>>)
    ensures
        r matches Some(p) ==> p.source() == text@,
{
    match parse_str::<Type>(text).ok()? {
        Type::Path(tp) => Some(parsed(text, RawType::Path(RawTypePath {
            qself: tp.qself.map(|q| RawQSelf { ty: q.ty.to_token_stream().to_string(), position: q.position }),
            leading_colon: tp.path.leading_colon.is_some(),
            segments: tp.path.segments.iter().map(|s| RawSegment { ident: s.ident.to_string(), args: s.arguments.to_token_stream().to_string() }).collect(),
        }))),
        _ => Some(parsed(text, RawType::Other)),
    }
}

/// An enum read in full.
#[derive(Debug)]
pub struct RawEnum {
    /// The attributes.
    pub attrs: Vec<Attr>,
    /// The visibility, as text.
    pub vis: String,
    /// The name.
    pub ident: String,
    /// The generic parameters, in source order.
    pub params: Vec<RawParam>,
    /// The `where` clause, or empty.
    pub where_clause: String,
    /// The variants.
    pub variants: Vec<Variant>,
}

/// A method read in full.
#[derive(Debug)]
pub struct RawMethod {
    /// The method's parts.
    pub syntax: MethodSyntax,
    /// The parts of its signature.
    pub signature: SignatureSyntax,
    /// The inputs, in order.
    pub inputs: Vec<RawInput>,
    /// The return type, when one is written.
    pub output: Option<RawType>,
}

/// One item of an impl block: its text, and the method it is, if it is one.
#[derive(Debug)]
pub struct RawMember {
    /// The item as written.
    pub text: String,
    /// The method, when the item is one with a body.
    pub method: Option<RawMethod>,
}

/// An impl block read in full.
#[derive(Debug)]
pub struct RawImpl {
    /// The attributes with their style, in source order.
    pub attrs: Vec<RawAttr>,
    /// Whether the impl is marked `default`.
    pub defaultness: bool,
    /// Whether the impl is `unsafe`.
    pub unsafety: bool,
    /// The generic parameters, in source order.
    pub params: Vec<RawParam>,
    /// The `where` clause, or empty.
    pub where_clause: String,
    /// The implemented trait.
    pub trait_: Option<TraitRef>,
    /// The self type, as written.
    pub self_text: String,
    /// The self type in parts.
    pub self_ty: RawType,
    /// The items, in order.
    pub items: Vec<RawMember>,
}

/// An annotated item read in full.
#[derive(Debug)]
pub enum RawItem {
    /// An enum.
    Enum(RawEnum),
    /// An impl block.
    Impl(RawImpl),
    /// Any other item.
    Other,
}

} // verus!
