//! The parts of an annotated item that the expansion reads, held as plain
//! values, and how the shared ones are written back as Rust source text.
use vstd::prelude::*;
use crate::text::{join, join_strings, views};

verus! {

/// An item's visibility.
#[derive(Debug)]
pub enum Vis {
    /// `pub`.
    Public,
    /// A restricted visibility such as `pub(crate)`, by its text.
    Restricted(String),
    /// No visibility written.
    Inherited,
}

/// The text of a visibility.
pub open spec fn vis_text(v: Vis) -> Seq<char> {
    match v {
        Vis::Public => "pub"@,
        Vis::Restricted(t) => t@,
        Vis::Inherited => Seq::empty(),
    }
}

/// Writes a visibility.
pub fn render_vis(v: &Vis) -> (r: String)
    ensures
        r@ == vis_text(*v),
{
    match v {
        Vis::Public => String::from_str("pub"),
        Vis::Restricted(t) => t.clone(),
        Vis::Inherited => String::new(),
    }
}

/// A copy of a visibility.
pub fn copy_vis(v: &Vis) -> (r: Vis)
    ensures
        r == *v,
{
    match v {
        Vis::Public => Vis::Public,
        Vis::Restricted(t) => Vis::Restricted(t.clone()),
        Vis::Inherited => Vis::Inherited,
    }
}

/// An outer attribute.
#[derive(Debug)]
pub struct Attr {
    /// The attribute's path when it is one plain identifier (such as `doc`
    /// or `repr`), and `None` for any other path.
    pub ident: Option<String>,
    /// The whole attribute, `#[...]` included.
    pub text: String,
}

/// Whether the attribute's path is exactly the identifier `name`.
pub open spec fn attr_named(a: Attr, name: Seq<char>) -> bool {
    match a.ident {
        Some(i) => i@ == name,
        None => false,
    }
}

/// The texts of the attributes whose path is (`keep_named`) or is not
/// (`!keep_named`) the identifier `name`, in their order.
pub open spec fn selected_attrs(attrs: Seq<Attr>, name: Seq<char>, keep_named: bool) -> Seq<Seq<char>>
    decreases attrs.len(),
{
    if attrs.len() == 0 {
        Seq::empty()
    } else {
        let rest = selected_attrs(attrs.drop_last(), name, keep_named);
        if attr_named(attrs.last(), name) == keep_named {
            rest.push(attrs.last().text@)
        } else {
            rest
        }
    }
}

fn is_named(a: &Attr, name: &str) -> (r: bool)
    ensures
        r == attr_named(*a, name@),
{
    match &a.ident {
        Some(i) => *i == String::from_str(name),
        None => false,
    }
}

/// Picks the texts of the attributes whose path is, or is not, `name`.
pub fn select_attrs(attrs: &Vec<Attr>, name: &str, keep_named: bool) -> (r: Vec<String>)
    ensures
        views(r@) == selected_attrs(attrs@, name@, keep_named),
{
    let mut r: Vec<String> = Vec::new();
    let mut i: usize = 0;
    while i < attrs.len()
        invariant
            i <= attrs.len(),
            views(r@) == selected_attrs(attrs@.take(i as int), name@, keep_named),
        decreases attrs.len() - i,
    {
        proof {
            assert(attrs@.take(i + 1).drop_last() =~= attrs@.take(i as int));
            assert(attrs@.take(i + 1).last() == attrs@[i as int]);
        }
        if is_named(&attrs[i], name) == keep_named {
            r.push(attrs[i].text.clone());
            proof {
                assert(views(r@) =~= selected_attrs(attrs@.take(i as int), name@, keep_named).push(
                    attrs@[i as int].text@,
                ));
            }
        }
        i += 1;
    }
    assert(attrs@.take(attrs.len() as int) =~= attrs@);
    r
}

/// The texts of all attributes, in order.
pub open spec fn attr_texts(attrs: Seq<Attr>) -> Seq<Seq<char>> {
    attrs.map_values(|a: Attr| a.text@)
}

/// The texts of all attributes.
pub fn all_attrs(attrs: &Vec<Attr>) -> (r: Vec<String>)
    ensures
        views(r@) == attr_texts(attrs@),
{
    let mut r: Vec<String> = Vec::new();
    let mut i: usize = 0;
    while i < attrs.len()
        invariant
            i <= attrs.len(),
            r@.len() == i,
            forall|k: int| 0 <= k < i ==> #[trigger] r@[k]@ == attrs@[k].text@,
        decreases attrs.len() - i,
    {
        r.push(attrs[i].text.clone());
        i += 1;
    }
    assert(views(r@) =~= attr_texts(attrs@));
    r
}

/// One generic parameter, in the three forms Rust writes it in.
#[derive(Debug)]
pub struct GenericParam {
    /// As declared, defaults included (`T: Clone = u8`).
    pub decl: String,
    /// As an `impl` header writes it: bounds kept, defaults left off (`T: Clone`).
    pub bound: String,
    /// As a type's argument: the name alone (`T`, `'a`, `N`).
    pub arg: String,
}

/// An item's generics. The parameters are listed lifetimes first, the order
/// in which Rust writes them back.
#[derive(Debug)]
pub struct Generics {
    /// The parameters.
    pub params: Vec<GenericParam>,
    /// The `where` clause, or empty when there is none.
    pub where_clause: String,
}

/// The three forms of a generic parameter list.
#[derive(Clone, Copy, Debug, PartialEq, Eq, Structural)]
pub enum GenericsForm {
    /// As declared on the item.
    Decl,
    /// As an `impl` header introduces them.
    Impl,
    /// As arguments of the item's type.
    Args,
}

/// A parameter in the given form.
pub open spec fn param_text(p: GenericParam, form: GenericsForm) -> Seq<char> {
    match form {
        GenericsForm::Decl => p.decl@,
        GenericsForm::Impl => p.bound@,
        GenericsForm::Args => p.arg@,
    }
}

/// The parameters in the given form, each in its own form.
pub open spec fn param_texts(params: Seq<GenericParam>, form: GenericsForm) -> Seq<Seq<char>> {
    params.map_values(|p: GenericParam| param_text(p, form))
}

/// `<...>` around the parameters in the given form, or nothing when there
/// are none.
pub open spec fn generics_text(params: Seq<GenericParam>, form: GenericsForm) -> Seq<char> {
    if params.len() == 0 {
        Seq::empty()
    } else {
        "<"@ + join(param_texts(params, form), ", "@) + ">"@
    }
}

/// The `impl` header parameters with the lifetime `'__opaque` placed first.
pub open spec fn ref_generics_text(params: Seq<GenericParam>) -> Seq<char> {
    if params.len() == 0 {
        "<'__opaque>"@
    } else {
        "<'__opaque, "@ + join(param_texts(params, GenericsForm::Impl), ", "@) + ">"@
    }
}

fn param_texts_exec(params: &Vec<GenericParam>, form: GenericsForm) -> (r: Vec<String>)
    ensures
        views(r@) == param_texts(params@, form),
{
    let mut r: Vec<String> = Vec::new();
    let mut i: usize = 0;
    while i < params.len()
        invariant
            i <= params.len(),
            r@.len() == i,
            forall|k: int| 0 <= k < i ==> #[trigger] r@[k]@ == param_text(params@[k], form),
        decreases params.len() - i,
    {
        let p = &params[i];
        let t = match form {
            GenericsForm::Decl => p.decl.clone(),
            GenericsForm::Impl => p.bound.clone(),
            GenericsForm::Args => p.arg.clone(),
        };
        r.push(t);
        i += 1;
    }
    assert(views(r@) =~= param_texts(params@, form));
    r
}

/// Writes the parameters in the given form.
pub fn render_generics(params: &Vec<GenericParam>, form: GenericsForm) -> (r: String)
    ensures
        r@ == generics_text(params@, form),
{
    if params.len() == 0 {
        return String::new();
    }
    let texts = param_texts_exec(params, form);
    let mut r = String::from_str("<");
    let inner = join_strings(&texts, ", ");
    r.append(inner.as_str());
    r.append(">");
    r
}

/// Writes the `impl` header parameters with `'__opaque` placed first.
pub fn render_ref_generics(params: &Vec<GenericParam>) -> (r: String)
    ensures
        r@ == ref_generics_text(params@),
{
    if params.len() == 0 {
        return String::from_str("<'__opaque>");
    }
    let texts = param_texts_exec(params, GenericsForm::Impl);
    let mut r = String::from_str("<'__opaque, ");
    let inner = join_strings(&texts, ", ");
    r.append(inner.as_str());
    r.append(">");
    r
}

/// A named field of a variant.
#[derive(Debug)]
pub struct NamedField {
    /// The field's name.
    pub name: String,
    /// The field's type, as text.
    pub ty: String,
}

/// The fields of a variant.
#[derive(Debug)]
pub enum Fields {
    /// No fields.
    Unit,
    /// Positional fields, by their types.
    Unnamed(Vec<String>),
    /// Named fields.
    Named(Vec<NamedField>),
}

/// One variant of the annotated enum.
#[derive(Debug)]
pub struct Variant {
    /// The variant's attributes.
    pub attrs: Vec<Attr>,
    /// The variant's name.
    pub ident: String,
    /// The variant's fields.
    pub fields: Fields,
    /// The whole variant as written, attributes and discriminant included.
    pub text: String,
}

/// An enum annotated with `#[opaque_enum]`.
#[derive(Debug)]
pub struct EnumDef {
    /// The enum's attributes.
    pub attrs: Vec<Attr>,
    /// The enum's visibility.
    pub vis: Vis,
    /// The enum's name.
    pub ident: String,
    /// The enum's generics.
    pub generics: Generics,
    /// The enum's variants, in order.
    pub variants: Vec<Variant>,
}

/// A type path such as `a::b::Foo<T>`, split around its last segment's name.
#[derive(Debug)]
pub struct TypePath {
    /// Everything before the last segment's name (`a::b::`, a qualified
    /// self `<T as Tr>::`, or nothing).
    pub prefix: String,
    /// The last segment's name.
    pub ident: String,
    /// The last segment's arguments (`<T>`), or nothing.
    pub args: String,
}

/// The text of a type path.
pub open spec fn type_path_text(p: TypePath) -> Seq<char> {
    p.prefix@ + p.ident@ + p.args@
}

/// Writes a type path.
pub fn render_type_path(p: &TypePath) -> (r: String)
    ensures
        r@ == type_path_text(*p),
{
    let mut r = p.prefix.clone();
    r.append(p.ident.as_str());
    r.append(p.args.as_str());
    r
}

/// The type an impl block is for.
#[derive(Debug)]
pub enum SelfTy {
    /// A type path.
    Path(TypePath),
    /// Any other type, by its text.
    Other(String),
}

/// The text of an impl's self type.
pub open spec fn self_ty_text(t: SelfTy) -> Seq<char> {
    match t {
        SelfTy::Path(p) => type_path_text(p),
        SelfTy::Other(s) => s@,
    }
}

/// Writes an impl's self type.
pub fn render_self_ty(t: &SelfTy) -> (r: String)
    ensures
        r@ == self_ty_text(*t),
{
    match t {
        SelfTy::Path(p) => render_type_path(p),
        SelfTy::Other(s) => s.clone(),
    }
}

/// The trait an impl block implements.
#[derive(Debug)]
pub struct TraitRef {
    /// Whether the impl is negative (`impl !Trait for ..`).
    pub bang: bool,
    /// The trait's path, as text.
    pub path: String,
}

/// A parameter's pattern.
#[derive(Debug)]
pub enum Pattern {
    /// A plain binding, by its identifier.
    Ident(String),
    /// Any other pattern.
    Other,
}

/// One input of a method's signature.
#[derive(Debug)]
pub enum FnInput {
    /// The `self` receiver, in any of its forms.
    Receiver,
    /// A typed parameter, by its pattern.
    Typed(Pattern),
}

/// The shape of a type, as far as the expansion looks at it.
#[derive(Debug)]
pub enum TypeShape {
    /// A type path; `ident` holds the path when it is one plain identifier.
    Path { ident: Option<String> },
    /// Any other type.
    Other,
}

/// A method's return type.
#[derive(Debug)]
pub enum ReturnTy {
    /// No return type written.
    Default,
    /// A written return type.
    Type(TypeShape),
}

/// A method of an annotated impl block.
#[derive(Debug)]
pub struct FnDef {
    /// The method's attributes, each as written.
    pub attrs: Vec<String>,
    /// The method's visibility.
    pub vis: Vis,
    /// Whether the method is marked `default`.
    pub defaultness: bool,
    /// Whether the method is `async`.
    pub asyncness: bool,
    /// Whether the method is `const`.
    pub constness: bool,
    /// The method's name.
    pub ident: String,
    /// The whole signature, as written.
    pub sig: String,
    /// The signature's inputs, in order.
    pub inputs: Vec<FnInput>,
    /// The signature's return type.
    pub output: ReturnTy,
}

/// What an item of an impl block is.
#[derive(Debug)]
pub enum MemberKind {
    /// A method or associated function.
    Fn(FnDef),
    /// Any other item (constant, type, macro).
    Other,
}

/// One item of an annotated impl block.
#[derive(Debug)]
pub struct ImplMember {
    /// What the item is.
    pub kind: MemberKind,
    /// The whole item, as written.
    pub text: String,
}

/// An impl block annotated with `#[opaque_enum]`.
#[derive(Debug)]
pub struct ImplDef {
    /// The outer attributes, each as written.
    pub attrs: Vec<String>,
    /// The inner attributes (`#![...]`), each as written.
    pub inner_attrs: Vec<String>,
    /// Whether the impl is marked `default`.
    pub defaultness: bool,
    /// Whether the impl is `unsafe`.
    pub unsafety: bool,
    /// The impl's generics.
    pub generics: Generics,
    /// The implemented trait, for a trait impl.
    pub trait_: Option<TraitRef>,
    /// The type the impl is for.
    pub self_ty: SelfTy,
    /// The impl's items, in order.
    pub items: Vec<ImplMember>,
}

} // verus!
