//! What `#[opaque_enum]` turns an enum into: a wrapper struct holding the
//! renamed enum, one constructor per variant, conversions, and the receiver
//! projections that forwarding impls rely on.
use vstd::prelude::*;
use crate::args::{OpaqueArgs, Storage};
use crate::model::{
    all_attrs, attr_texts, copy_vis, generics_text, ref_generics_text, render_generics, render_ref_generics, render_vis,
    Generics, GenericsForm, select_attrs, selected_attrs, vis_text, Attr, EnumDef, Fields, NamedField, Variant,
    Vis,
};
use crate::text::{decimal, decimal_string, join, join_strings, views};

verus! {

/// The name of the hidden enum behind the public type `ident`.
pub open spec fn inner_name(ident: Seq<char>) -> Seq<char> {
    ident + "Inner"@
}

/// Names the hidden enum behind the public type `ident`: `ident` followed by
/// `Inner`.
pub fn inner_ident(ident: &String) -> (r: String)
    ensures
        r@ == inner_name(ident@),
{
    let mut r = ident.clone();
    r.append("Inner");
    r
}

/// The visibility given to the generated constructors: a public enum's
/// constructors are demoted to `pub(crate)`, any other visibility is kept.
pub fn constructor_vis(public_vis: &Vis) -> (r: Vis)
    ensures
        *public_vis is Public ==> (r matches Vis::Restricted(t) && t@ == "pub(crate)"@),
        !(*public_vis is Public) ==> r == *public_vis,
{
    match public_vis {
        Vis::Public => Vis::Restricted(String::from_str("pub(crate)")),
        other => copy_vis(other),
    }
}

/// The text of the constructors' visibility.
pub open spec fn constructor_vis_text(v: Vis) -> Seq<char> {
    if v is Public {
        "pub(crate)"@
    } else {
        vis_text(v)
    }
}

/// The attributes the public struct keeps: all but `repr`.
pub fn public_attrs(attrs: &Vec<Attr>) -> (r: Vec<String>)
    ensures
        views(r@) == selected_attrs(attrs@, "repr"@, false),
{
    select_attrs(attrs, "repr", false)
}

/// The attributes a constructor keeps from its variant: the `doc` ones.
pub fn doc_attrs(attrs: &Vec<Attr>) -> (r: Vec<String>)
    ensures
        views(r@) == selected_attrs(attrs@, "doc"@, true),
{
    select_attrs(attrs, "doc", true)
}

/// The type of the wrapper's one field.
pub open spec fn storage_field_text(storage: Storage, inner: Seq<char>, ty_args: Seq<char>) -> Seq<char> {
    match storage {
        Storage::Inline => inner + ty_args,
        Storage::Boxed => "::std::boxed::Box<"@ + inner + ty_args + ">"@,
    }
}

/// Writes the type of the wrapper's one field.
pub fn storage_field(storage: Storage, inner_ident: &String, ty_generics: &String) -> (r: String)
    ensures
        r@ == storage_field_text(storage, inner_ident@, ty_generics@),
{
    match storage {
        Storage::Inline => {
            let mut r = inner_ident.clone();
            r.append(ty_generics.as_str());
            r
        },
        Storage::Boxed => {
            let mut r = String::from_str("::std::boxed::Box<");
            r.append(inner_ident.as_str());
            r.append(ty_generics.as_str());
            r.append(">");
            r
        },
    }
}

/// The body of `From<Inner>` for the wrapper.
pub open spec fn from_body_text(storage: Storage) -> Seq<char> {
    match storage {
        Storage::Inline => "Self { inner }"@,
        Storage::Boxed => "Self { inner: ::std::boxed::Box::new(inner) }"@,
    }
}

/// Writes the body of `From<Inner>` for the wrapper.
pub fn from_body(storage: Storage) -> (r: String)
    ensures
        r@ == from_body_text(storage),
{
    match storage {
        Storage::Inline => String::from_str("Self { inner }"),
        Storage::Boxed => String::from_str("Self { inner: ::std::boxed::Box::new(inner) }"),
    }
}

/// The body of the by-value accessor.
pub open spec fn into_inner_body_text(storage: Storage) -> Seq<char> {
    match storage {
        Storage::Inline => "self.inner"@,
        Storage::Boxed => "*self.inner"@,
    }
}

/// Writes the body of the by-value accessor.
pub fn into_inner_body(storage: Storage) -> (r: String)
    ensures
        r@ == into_inner_body_text(storage),
{
    match storage {
        Storage::Inline => String::from_str("self.inner"),
        Storage::Boxed => String::from_str("*self.inner"),
    }
}

/// The body of the shared accessor.
pub open spec fn as_inner_body_text(storage: Storage) -> Seq<char> {
    match storage {
        Storage::Inline => "&self.inner"@,
        Storage::Boxed => "self.inner.as_ref()"@,
    }
}

/// Writes the body of the shared accessor.
pub fn as_inner_body(storage: Storage) -> (r: String)
    ensures
        r@ == as_inner_body_text(storage),
{
    match storage {
        Storage::Inline => String::from_str("&self.inner"),
        Storage::Boxed => String::from_str("self.inner.as_ref()"),
    }
}

/// The body of the mutable accessor.
pub open spec fn as_inner_mut_body_text(storage: Storage) -> Seq<char> {
    match storage {
        Storage::Inline => "&mut self.inner"@,
        Storage::Boxed => "self.inner.as_mut()"@,
    }
}

/// Writes the body of the mutable accessor.
pub fn as_inner_mut_body(storage: Storage) -> (r: String)
    ensures
        r@ == as_inner_mut_body_text(storage),
{
    match storage {
        Storage::Inline => String::from_str("&mut self.inner"),
        Storage::Boxed => String::from_str("self.inner.as_mut()"),
    }
}

/// The name of the constructor parameter for positional field `i`.
pub open spec fn field_name(i: nat) -> Seq<char> {
    "field_"@ + decimal(i)
}

/// The constructor's parameter list for the given fields.
pub open spec fn ctor_params_text(fields: Fields) -> Seq<char> {
    match fields {
        Fields::Unit => Seq::empty(),
        Fields::Unnamed(tys) => join(
            Seq::new(tys@.len(), |i: int| field_name(i as nat) + ": "@ + tys@[i]@),
            ", "@,
        ),
        Fields::Named(fs) => join(fs@.map_values(|f: NamedField| f.name@ + ": "@ + f.ty@), ", "@),
    }
}

/// What follows the variant's path in the constructor's body.
pub open spec fn ctor_value_text(fields: Fields) -> Seq<char> {
    match fields {
        Fields::Unit => Seq::empty(),
        Fields::Unnamed(tys) => "("@ + join(Seq::new(tys@.len(), |i: int| field_name(i as nat)), ", "@)
            + ")"@,
        Fields::Named(fs) => " { "@ + join(fs@.map_values(|f: NamedField| f.name@), ", "@) + " }"@,
    }
}

/// The constructor generated for variant `v`: a function named like the
/// variant, taking its fields as parameters, that builds the variant of the
/// inner enum and converts it into the public type.
pub open spec fn constructor_text(vis: Seq<char>, public: Seq<char>, inner: Seq<char>, v: Variant) -> Seq<
    char,
> {
    join(selected_attrs(v.attrs@, "doc"@, true), " "@) + " #[allow(non_snake_case)] "@ + vis + " fn "@
        + v.ident@ + "("@ + ctor_params_text(v.fields) + ") -> Self { "@ + public + "::from("@ + inner
        + "::"@ + v.ident@ + ctor_value_text(v.fields) + ") }"@
}

fn ctor_params(fields: &Fields) -> (r: String)
    ensures
        r@ == ctor_params_text(*fields),
{
    match fields {
        Fields::Unit => String::new(),
        Fields::Unnamed(tys) => {
            let ghost want = Seq::new(tys@.len(), |i: int| field_name(i as nat) + ": "@ + tys@[i]@);
            let mut parts: Vec<String> = Vec::new();
            let mut i: usize = 0;
            while i < tys.len()
                invariant
                    i <= tys.len(),
                    want == Seq::new(tys@.len(), |i: int| field_name(i as nat) + ": "@ + tys@[i]@),
                    parts@.len() == i,
                    forall|k: int| 0 <= k < i ==> #[trigger] parts@[k]@ == want[k],
                decreases tys.len() - i,
            {
                let mut p = String::from_str("field_");
                let n = decimal_string(i);
                p.append(n.as_str());
                p.append(": ");
                p.append(tys[i].as_str());
                parts.push(p);
                i += 1;
            }
            assert(views(parts@) =~= want);
            join_strings(&parts, ", ")
        },
        Fields::Named(fs) => {
            let ghost want = fs@.map_values(|f: NamedField| f.name@ + ": "@ + f.ty@);
            let mut parts: Vec<String> = Vec::new();
            let mut i: usize = 0;
            while i < fs.len()
                invariant
                    i <= fs.len(),
                    want == fs@.map_values(|f: NamedField| f.name@ + ": "@ + f.ty@),
                    parts@.len() == i,
                    forall|k: int| 0 <= k < i ==> #[trigger] parts@[k]@ == want[k],
                decreases fs.len() - i,
            {
                let mut p = fs[i].name.clone();
                p.append(": ");
                p.append(fs[i].ty.as_str());
                parts.push(p);
                i += 1;
            }
            assert(views(parts@) =~= want);
            join_strings(&parts, ", ")
        },
    }
}

fn ctor_value(fields: &Fields) -> (r: String)
    ensures
        r@ == ctor_value_text(*fields),
{
    match fields {
        Fields::Unit => String::new(),
        Fields::Unnamed(tys) => {
            let ghost want = Seq::new(tys@.len(), |i: int| field_name(i as nat));
            let mut parts: Vec<String> = Vec::new();
            let mut i: usize = 0;
            while i < tys.len()
                invariant
                    i <= tys.len(),
                    want == Seq::new(tys@.len(), |i: int| field_name(i as nat)),
                    parts@.len() == i,
                    forall|k: int| 0 <= k < i ==> #[trigger] parts@[k]@ == want[k],
                decreases tys.len() - i,
            {
                let mut p = String::from_str("field_");
                let n = decimal_string(i);
                p.append(n.as_str());
                parts.push(p);
                i += 1;
            }
            assert(views(parts@) =~= want);
            let mut r = String::from_str("(");
            let inner = join_strings(&parts, ", ");
            r.append(inner.as_str());
            r.append(")");
            r
        },
        Fields::Named(fs) => {
            let ghost want = fs@.map_values(|f: NamedField| f.name@);
            let mut parts: Vec<String> = Vec::new();
            let mut i: usize = 0;
            while i < fs.len()
                invariant
                    i <= fs.len(),
                    want == fs@.map_values(|f: NamedField| f.name@),
                    parts@.len() == i,
                    forall|k: int| 0 <= k < i ==> #[trigger] parts@[k]@ == want[k],
                decreases fs.len() - i,
            {
                parts.push(fs[i].name.clone());
                i += 1;
            }
            assert(views(parts@) =~= want);
            let mut r = String::from_str(" { ");
            let inner = join_strings(&parts, ", ");
            r.append(inner.as_str());
            r.append(" }");
            r
        },
    }
}

/// Writes the constructor for one variant.
pub fn constructor(vis: &Vis, public_ident: &String, inner_ident: &String, variant: &Variant) -> (r: String)
    ensures
        r@ == constructor_text(vis_text(*vis), public_ident@, inner_ident@, *variant),
{
    let docs = doc_attrs(&variant.attrs);
    let mut r = join_strings(&docs, " ");
    r.append(" #[allow(non_snake_case)] ");
    let v = render_vis(vis);
    r.append(v.as_str());
    r.append(" fn ");
    r.append(variant.ident.as_str());
    r.append("(");
    let params = ctor_params(&variant.fields);
    r.append(params.as_str());
    r.append(") -> Self { ");
    r.append(public_ident.as_str());
    r.append("::from(");
    r.append(inner_ident.as_str());
    r.append("::");
    r.append(variant.ident.as_str());
    let value = ctor_value(&variant.fields);
    r.append(value.as_str());
    r.append(") }");
    r
}

/// A receiver form from which forwarding impls reach the inner enum.
#[derive(Clone, Copy, Debug, PartialEq, Eq, Structural)]
pub enum Projection {
    /// `self` by value.
    Owned,
    /// `&self`.
    Ref,
    /// `&mut self`.
    RefMut,
    /// `self: Pin<&Self>`.
    PinRef,
    /// `self: Pin<&mut Self>`.
    PinMut,
    /// `self: Arc<Self>`.
    Arc,
    /// `self: Rc<Self>`.
    Rc,
}

/// The receivers that get a projection, in the order they are emitted: the
/// value, reference and pinned forms always; the shared-pointer forms only
/// when the wrapper holds the inner enum inline, since only then is the
/// wrapper laid out exactly like it.
pub open spec fn projections_for(storage: Storage) -> Seq<Projection> {
    let core = seq![
        Projection::Owned,
        Projection::Ref,
        Projection::RefMut,
        Projection::PinRef,
        Projection::PinMut,
    ];
    match storage {
        Storage::Inline => core + seq![Projection::Arc, Projection::Rc],
        Storage::Boxed => core,
    }
}

/// Lists the receivers that get a projection.
pub fn projections(storage: Storage) -> (r: Vec<Projection>)
    ensures
        r@ == projections_for(storage),
{
    let mut r: Vec<Projection> = Vec::new();
    r.push(Projection::Owned);
    r.push(Projection::Ref);
    r.push(Projection::RefMut);
    r.push(Projection::PinRef);
    r.push(Projection::PinMut);
    if storage == Storage::Inline {
        r.push(Projection::Arc);
        r.push(Projection::Rc);
    }
    r
}

/// The generics an impl for receiver `p` introduces: the item's own, plus
/// the lifetime `'__opaque` for borrowed receivers.
pub open spec fn projection_generics_text(p: Projection, impl_generics: Seq<char>, ref_generics: Seq<char>) -> Seq<char> {
    match p {
        Projection::Owned | Projection::Arc | Projection::Rc => impl_generics,
        _ => ref_generics,
    }
}

/// The receiver type for `p`, wrapping the type `t`.
pub open spec fn projection_receiver_text(p: Projection, t: Seq<char>) -> Seq<char> {
    match p {
        Projection::Owned => t,
        Projection::Ref => "&'__opaque "@ + t,
        Projection::RefMut => "&'__opaque mut "@ + t,
        Projection::PinRef => "::std::pin::Pin<&'__opaque "@ + t + ">"@,
        Projection::PinMut => "::std::pin::Pin<&'__opaque mut "@ + t + ">"@,
        Projection::Arc => "::std::sync::Arc<"@ + t + ">"@,
        Projection::Rc => "::std::rc::Rc<"@ + t + ">"@,
    }
}

/// The body of `project` for receiver `p`; `inner_ty` is the inner enum's type.
pub open spec fn projection_body_text(p: Projection, inner_ty: Seq<char>) -> Seq<char> {
    match p {
        Projection::Owned => "self.__opaque_into_inner()"@,
        Projection::Ref => "self.__opaque_as_inner()"@,
        Projection::RefMut => "self.__opaque_as_inner_mut()"@,
        Projection::PinRef => "unsafe { self.map_unchecked(|wrapper| wrapper.__opaque_as_inner()) }"@,
        Projection::PinMut => "unsafe { self.map_unchecked_mut(|wrapper| wrapper.__opaque_as_inner_mut()) }"@,
        Projection::Arc => "let ptr = ::std::sync::Arc::into_raw(self); unsafe { ::std::sync::Arc::from_raw(ptr.cast::<"@
            + inner_ty + ">()) }"@,
        Projection::Rc => "let ptr = ::std::rc::Rc::into_raw(self); unsafe { ::std::rc::Rc::from_raw(ptr.cast::<"@
            + inner_ty + ">()) }"@,
    }
}

/// The `OpaqueProject` impl for receiver `p`: it maps the receiver on the
/// public type `public_ty` to the same receiver on the inner type `inner_ty`.
pub open spec fn projection_text(
    p: Projection,
    impl_generics: Seq<char>,
    ref_generics: Seq<char>,
    public_ty: Seq<char>,
    inner_ty: Seq<char>,
    where_clause: Seq<char>,
) -> Seq<char> {
    "impl"@ + projection_generics_text(p, impl_generics, ref_generics) + " ::opaque_enum::OpaqueProject<"@
        + inner_ty + "> for "@ + projection_receiver_text(p, public_ty) + " "@ + where_clause
        + " { type Output = "@ + projection_receiver_text(p, inner_ty)
        + "; fn project(self) -> Self::Output { "@ + projection_body_text(p, inner_ty) + " } }"@
}

fn projection_receiver(p: Projection, t: &String) -> (r: String)
    ensures
        r@ == projection_receiver_text(p, t@),
{
    match p {
        Projection::Owned => t.clone(),
        Projection::Ref => {
            let mut r = String::from_str("&'__opaque ");
            r.append(t.as_str());
            r
        },
        Projection::RefMut => {
            let mut r = String::from_str("&'__opaque mut ");
            r.append(t.as_str());
            r
        },
        Projection::PinRef => {
            let mut r = String::from_str("::std::pin::Pin<&'__opaque ");
            r.append(t.as_str());
            r.append(">");
            r
        },
        Projection::PinMut => {
            let mut r = String::from_str("::std::pin::Pin<&'__opaque mut ");
            r.append(t.as_str());
            r.append(">");
            r
        },
        Projection::Arc => {
            let mut r = String::from_str("::std::sync::Arc<");
            r.append(t.as_str());
            r.append(">");
            r
        },
        Projection::Rc => {
            let mut r = String::from_str("::std::rc::Rc<");
            r.append(t.as_str());
            r.append(">");
            r
        },
    }
}

fn projection_body(p: Projection, inner_ty: &String) -> (r: String)
    ensures
        r@ == projection_body_text(p, inner_ty@),
{
    match p {
        Projection::Owned => String::from_str("self.__opaque_into_inner()"),
        Projection::Ref => String::from_str("self.__opaque_as_inner()"),
        Projection::RefMut => String::from_str("self.__opaque_as_inner_mut()"),
        Projection::PinRef => String::from_str(
            "unsafe { self.map_unchecked(|wrapper| wrapper.__opaque_as_inner()) }",
        ),
        Projection::PinMut => String::from_str(
            "unsafe { self.map_unchecked_mut(|wrapper| wrapper.__opaque_as_inner_mut()) }",
        ),
        Projection::Arc => {
            let mut r = String::from_str(
                "let ptr = ::std::sync::Arc::into_raw(self); unsafe { ::std::sync::Arc::from_raw(ptr.cast::<",
            );
            r.append(inner_ty.as_str());
            r.append(">()) }");
            r
        },
        Projection::Rc => {
            let mut r = String::from_str(
                "let ptr = ::std::rc::Rc::into_raw(self); unsafe { ::std::rc::Rc::from_raw(ptr.cast::<",
            );
            r.append(inner_ty.as_str());
            r.append(">()) }");
            r
        },
    }
}

/// Writes the `OpaqueProject` impl for one receiver.
pub fn projection_impl(
    p: Projection,
    impl_generics: &String,
    ref_generics: &String,
    public_ty: &String,
    inner_ty: &String,
    where_clause: &String,
) -> (r: String)
    ensures
        r@ == projection_text(p, impl_generics@, ref_generics@, public_ty@, inner_ty@, where_clause@),
{
    let mut r = String::from_str("impl");
    match p {
        Projection::Owned | Projection::Arc | Projection::Rc => r.append(impl_generics.as_str()),
        _ => r.append(ref_generics.as_str()),
    }
    r.append(" ::opaque_enum::OpaqueProject<");
    r.append(inner_ty.as_str());
    r.append("> for ");
    let recv = projection_receiver(p, public_ty);
    r.append(recv.as_str());
    r.append(" ");
    r.append(where_clause.as_str());
    r.append(" { type Output = ");
    let out = projection_receiver(p, inner_ty);
    r.append(out.as_str());
    r.append("; fn project(self) -> Self::Output { ");
    let body = projection_body(p, inner_ty);
    r.append(body.as_str());
    r.append(" } }");
    r
}

/// All projection impls for an enum, one per receiver of
/// [`projections_for`], in that order.
pub open spec fn projection_impls_text(storage: Storage, ident: Seq<char>, inner: Seq<char>, g: Generics) -> Seq<char> {
    let ig = generics_text(g.params@, GenericsForm::Impl);
    let rg = ref_generics_text(g.params@);
    let tg = generics_text(g.params@, GenericsForm::Args);
    join(
        projections_for(storage).map_values(
            |p: Projection| projection_text(p, ig, rg, ident + tg, inner + tg, g.where_clause@),
        ),
        " "@,
    )
}

/// Writes the projection impls for an enum.
pub fn projection_impls(storage: Storage, ident: &String, inner_ident: &String, generics: &Generics) -> (r: String)
    ensures
        r@ == projection_impls_text(storage, ident@, inner_ident@, *generics),
{
    let ig = render_generics(&generics.params, GenericsForm::Impl);
    let rg = render_ref_generics(&generics.params);
    let tg = render_generics(&generics.params, GenericsForm::Args);
    let mut public_ty = ident.clone();
    public_ty.append(tg.as_str());
    let mut inner_ty = inner_ident.clone();
    inner_ty.append(tg.as_str());
    let ps = projections(storage);
    let ghost want = projections_for(storage).map_values(
        |p: Projection| projection_text(p, ig@, rg@, public_ty@, inner_ty@, generics.where_clause@),
    );
    let mut parts: Vec<String> = Vec::new();
    let mut i: usize = 0;
    while i < ps.len()
        invariant
            i <= ps.len(),
            ps@ == projections_for(storage),
            want == projections_for(storage).map_values(
                |p: Projection| projection_text(p, ig@, rg@, public_ty@, inner_ty@, generics.where_clause@),
            ),
            parts@.len() == i,
            forall|k: int| 0 <= k < i ==> #[trigger] parts@[k]@ == want[k],
        decreases ps.len() - i,
    {
        let part = projection_impl(ps[i], &ig, &rg, &public_ty, &inner_ty, &generics.where_clause);
        parts.push(part);
        i += 1;
    }
    assert(views(parts@) =~= want);
    join_strings(&parts, " ")
}

/// The `#[repr(transparent)]` marker, present only for inline storage.
pub open spec fn repr_text(storage: Storage) -> Seq<char> {
    match storage {
        Storage::Inline => "#[repr(transparent)] "@,
        Storage::Boxed => Seq::empty(),
    }
}

/// The public struct: the enum's attributes but `repr`, its visibility, name
/// and generics, and one private field `inner` holding the hidden enum.
pub open spec fn wrapper_struct_text(storage: Storage, item: EnumDef) -> Seq<char> {
    let inner = inner_name(item.ident@);
    let g = item.generics;
    repr_text(storage) + join(selected_attrs(item.attrs@, "repr"@, false), " "@) + " "@ + vis_text(item.vis)
        + " struct "@ + item.ident@ + generics_text(g.params@, GenericsForm::Decl) + " "@ + g.where_clause@
        + " { inner: "@ + storage_field_text(storage, inner, generics_text(g.params@, GenericsForm::Args))
        + ", } "@
}

/// The hidden enum: all of the enum's attributes, no visibility, the name
/// with `Inner` appended, and the variants as written.
pub open spec fn inner_enum_text(item: EnumDef) -> Seq<char> {
    let g = item.generics;
    join(attr_texts(item.attrs@), " "@) + " enum "@ + inner_name(item.ident@) + generics_text(
        g.params@,
        GenericsForm::Decl,
    ) + " "@ + g.where_clause@ + " { "@ + join(item.variants@.map_values(|v: Variant| v.text@), ", "@)
        + " } "@
}

/// The constructors of all variants, in order.
pub open spec fn constructors_text(item: EnumDef) -> Seq<char> {
    let vis = constructor_vis_text(item.vis);
    let public = item.ident@;
    let inner = inner_name(item.ident@);
    join(item.variants@.map_values(|v: Variant| constructor_text(vis, public, inner, v)), " "@)
}

/// The inherent impl of the public type: the constructors and the three
/// hidden accessors to the inner enum.
pub open spec fn inherent_impl_text(storage: Storage, item: EnumDef) -> Seq<char> {
    let g = item.generics;
    let tg = generics_text(g.params@, GenericsForm::Args);
    let it = inner_name(item.ident@) + tg;
    "impl"@ + generics_text(g.params@, GenericsForm::Impl) + " "@ + item.ident@ + tg + " "@ + g.where_clause@
        + " { "@ + constructors_text(item) + " #[doc(hidden)] fn __opaque_into_inner(self) -> "@ + it + " { "@
        + into_inner_body_text(storage) + " } #[doc(hidden)] fn __opaque_as_inner(&self) -> &"@ + it
        + " { "@ + as_inner_body_text(storage) + " } #[doc(hidden)] fn __opaque_as_inner_mut(&mut self) -> &mut "@
        + it + " { "@ + as_inner_mut_body_text(storage) + " } } "@
}

/// `From<Inner>` for the public type.
pub open spec fn from_impl_text(storage: Storage, item: EnumDef) -> Seq<char> {
    let g = item.generics;
    let tg = generics_text(g.params@, GenericsForm::Args);
    let it = inner_name(item.ident@) + tg;
    "impl"@ + generics_text(g.params@, GenericsForm::Impl) + " ::std::convert::From<"@ + it + "> for "@
        + item.ident@ + tg + " "@ + g.where_clause@ + " { fn from(inner: "@ + it + ") -> Self { "@
        + from_body_text(storage) + " } } "@
}

/// Everything an annotated enum expands to.
pub open spec fn enum_expansion(args: OpaqueArgs, item: EnumDef) -> Seq<char> {
    let inner = inner_name(item.ident@);
    wrapper_struct_text(args.storage, item) + inner_enum_text(item) + inherent_impl_text(args.storage, item)
        + from_impl_text(args.storage, item) + projection_impls_text(
        args.storage,
        item.ident@,
        inner,
        item.generics,
    )
}

fn wrapper_struct(storage: Storage, item: &EnumDef, inner: &String, ty_generics: &String) -> (r: String)
    requires
        inner@ == inner_name(item.ident@),
        ty_generics@ == generics_text(item.generics.params@, GenericsForm::Args),
    ensures
        r@ == wrapper_struct_text(storage, *item),
{
    let mut r = String::new();
    if storage == Storage::Inline {
        r.append("#[repr(transparent)] ");
    }
    let attrs = public_attrs(&item.attrs);
    let attrs_text = join_strings(&attrs, " ");
    r.append(attrs_text.as_str());
    r.append(" ");
    let vis = render_vis(&item.vis);
    r.append(vis.as_str());
    r.append(" struct ");
    r.append(item.ident.as_str());
    let dg = render_generics(&item.generics.params, GenericsForm::Decl);
    r.append(dg.as_str());
    r.append(" ");
    r.append(item.generics.where_clause.as_str());
    r.append(" { inner: ");
    let field = storage_field(storage, inner, ty_generics);
    r.append(field.as_str());
    r.append(", } ");
    r
}

fn inner_enum(item: &EnumDef, inner: &String) -> (r: String)
    requires
        inner@ == inner_name(item.ident@),
    ensures
        r@ == inner_enum_text(*item),
{
    let attrs = all_attrs(&item.attrs);
    let mut r = join_strings(&attrs, " ");
    r.append(" enum ");
    r.append(inner.as_str());
    let dg = render_generics(&item.generics.params, GenericsForm::Decl);
    r.append(dg.as_str());
    r.append(" ");
    r.append(item.generics.where_clause.as_str());
    r.append(" { ");
    let ghost want = item.variants@.map_values(|v: Variant| v.text@);
    let mut texts: Vec<String> = Vec::new();
    let mut i: usize = 0;
    while i < item.variants.len()
        invariant
            i <= item.variants.len(),
            want == item.variants@.map_values(|v: Variant| v.text@),
            texts@.len() == i,
            forall|k: int| 0 <= k < i ==> #[trigger] texts@[k]@ == want[k],
        decreases item.variants.len() - i,
    {
        texts.push(item.variants[i].text.clone());
        i += 1;
    }
    assert(views(texts@) =~= want);
    let body = join_strings(&texts, ", ");
    r.append(body.as_str());
    r.append(" } ");
    r
}

fn constructors(item: &EnumDef, inner: &String) -> (r: String)
    requires
        inner@ == inner_name(item.ident@),
    ensures
        r@ == constructors_text(*item),
{
    let vis = constructor_vis(&item.vis);
    let ghost vt = constructor_vis_text(item.vis);
    assert(vis_text(vis) == vt);
    let ghost want = item.variants@.map_values(|v: Variant| constructor_text(vt, item.ident@, inner@, v));
    let mut parts: Vec<String> = Vec::new();
    let mut i: usize = 0;
    while i < item.variants.len()
        invariant
            i <= item.variants.len(),
            vis_text(vis) == vt,
            want == item.variants@.map_values(|v: Variant| constructor_text(vt, item.ident@, inner@, v)),
            parts@.len() == i,
            forall|k: int| 0 <= k < i ==> #[trigger] parts@[k]@ == want[k],
        decreases item.variants.len() - i,
    {
        let c = constructor(&vis, &item.ident, inner, &item.variants[i]);
        parts.push(c);
        i += 1;
    }
    assert(views(parts@) =~= want);
    join_strings(&parts, " ")
}

fn inherent_impl(storage: Storage, item: &EnumDef, inner: &String, ty_generics: &String) -> (r: String)
    requires
        inner@ == inner_name(item.ident@),
        ty_generics@ == generics_text(item.generics.params@, GenericsForm::Args),
    ensures
        r@ == inherent_impl_text(storage, *item),
{
    let mut it = inner.clone();
    it.append(ty_generics.as_str());
    let mut r = String::from_str("impl");
    let ig = render_generics(&item.generics.params, GenericsForm::Impl);
    r.append(ig.as_str());
    r.append(" ");
    r.append(item.ident.as_str());
    r.append(ty_generics.as_str());
    r.append(" ");
    r.append(item.generics.where_clause.as_str());
    r.append(" { ");
    let ctors = constructors(item, inner);
    r.append(ctors.as_str());
    r.append(" #[doc(hidden)] fn __opaque_into_inner(self) -> ");
    r.append(it.as_str());
    r.append(" { ");
    let b1 = into_inner_body(storage);
    r.append(b1.as_str());
    r.append(" } #[doc(hidden)] fn __opaque_as_inner(&self) -> &");
    r.append(it.as_str());
    r.append(" { ");
    let b2 = as_inner_body(storage);
    r.append(b2.as_str());
    r.append(" } #[doc(hidden)] fn __opaque_as_inner_mut(&mut self) -> &mut ");
    r.append(it.as_str());
    r.append(" { ");
    let b3 = as_inner_mut_body(storage);
    r.append(b3.as_str());
    r.append(" } } ");
    r
}

fn from_impl(storage: Storage, item: &EnumDef, inner: &String, ty_generics: &String) -> (r: String)
    requires
        inner@ == inner_name(item.ident@),
        ty_generics@ == generics_text(item.generics.params@, GenericsForm::Args),
    ensures
        r@ == from_impl_text(storage, *item),
{
    let mut it = inner.clone();
    it.append(ty_generics.as_str());
    let mut r = String::from_str("impl");
    let ig = render_generics(&item.generics.params, GenericsForm::Impl);
    r.append(ig.as_str());
    r.append(" ::std::convert::From<");
    r.append(it.as_str());
    r.append("> for ");
    r.append(item.ident.as_str());
    r.append(ty_generics.as_str());
    r.append(" ");
    r.append(item.generics.where_clause.as_str());
    r.append(" { fn from(inner: ");
    r.append(it.as_str());
    r.append(") -> Self { ");
    let b = from_body(storage);
    r.append(b.as_str());
    r.append(" } } ");
    r
}

/// Expands an annotated enum.
pub fn expand_enum(args: OpaqueArgs, item: &EnumDef) -> (r: String)
    ensures
        r@ == enum_expansion(args, *item),
{
    let inner = inner_ident(&item.ident);
    let tg = render_generics(&item.generics.params, GenericsForm::Args);
    let mut r = wrapper_struct(args.storage, item, &inner, &tg);
    let e = inner_enum(item, &inner);
    r.append(e.as_str());
    let h = inherent_impl(args.storage, item, &inner, &tg);
    r.append(h.as_str());
    let f = from_impl(args.storage, item, &inner, &tg);
    r.append(f.as_str());
    let p = projection_impls(args.storage, &item.ident, &inner, &item.generics);
    r.append(p.as_str());
    r
}

} // verus!
