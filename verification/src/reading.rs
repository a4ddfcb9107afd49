//! Reading the annotated item in two steps. First every piece of its source
//! text goes to syn and what syn gives back is kept as is, beside the text it
//! was given (the readings). Then the item is assembled from the readings:
//! which reading of a generic parameter counts, which item members are
//! methods, and when the item as a whole does not read.
use vstd::prelude::*;
use crate::model::{Attr, TraitRef, Variant};
use crate::syntax::{
    parse_const_param, parse_enum, parse_fn_arg, parse_impl, parse_item_kind, parse_lifetime_param,
    parse_method, parse_outer_attrs, parse_signature, parse_type, parse_type_param, parse_variant,
    EnumSyntax, ImplSyntax, ItemKind, MethodSyntax, Parsed, RawAttr, RawEnum, RawImpl, RawInput,
    RawItem, RawMember, RawMethod, RawParam, RawType, SignatureSyntax, VariantSyntax,
};
use crate::text::views;

verus! {

/// What syn gave for one attribute's text.
#[derive(Debug)]
pub struct AttrReading {
    /// The text handed to syn.
    pub text: String,
    /// The attributes read from it, if it read.
    pub attrs: Option<Parsed<Vec<Attr>>>,
}

/// What syn gave for one generic parameter's text, read as each kind.
#[derive(Debug)]
pub struct ParamReading {
    /// The text handed to syn.
    pub text: String,
    /// Read as a lifetime parameter.
    pub lifetime: Option<Parsed<RawParam>>,
    /// Read as a const parameter.
    pub konst: Option<Parsed<RawParam>>,
    /// Read as a type parameter.
    pub ty: Option<Parsed<RawParam>>,
}

/// What syn gave for one variant's text and, when it read, for each of the
/// variant's attributes.
#[derive(Debug)]
pub struct VariantReading {
    /// The text handed to syn.
    pub text: String,
    /// The variant's parts, if it read.
    pub syntax: Option<Parsed<VariantSyntax>>,
    /// The readings of the variant's attributes.
    pub attrs: Vec<AttrReading>,
}

/// What syn gave for an enum and for each of its pieces.
#[derive(Debug)]
pub struct EnumReading {
    /// The enum's parts.
    pub syntax: Parsed<EnumSyntax>,
    /// The readings of its attributes.
    pub attrs: Vec<AttrReading>,
    /// The readings of its generic parameters.
    pub params: Vec<ParamReading>,
    /// The readings of its variants.
    pub variants: Vec<VariantReading>,
}

/// What syn gave for one input of a signature.
#[derive(Debug)]
pub struct InputReading {
    /// The text handed to syn.
    pub text: String,
    /// The input, if it read.
    pub input: Option<Parsed<RawInput>>,
}

/// What syn gave for one type.
#[derive(Debug)]
pub struct TypeReading {
    /// The text handed to syn.
    pub text: String,
    /// The type, if it read.
    pub ty: Option<Parsed<RawType>>,
}

/// What syn gave for one item of an impl block read as a method: the method,
/// its signature, and the signature's inputs and return type.
#[derive(Debug)]
pub struct MemberReading {
    /// The text handed to syn.
    pub text: String,
    /// The method's parts, if it read as a method with a body.
    pub method: Option<Parsed<MethodSyntax>>,
    /// The signature's parts, if the method's signature read.
    pub signature: Option<Parsed<SignatureSyntax>>,
    /// The readings of the signature's inputs.
    pub inputs: Vec<InputReading>,
    /// The reading of the return type, when one is written.
    pub output: Option<TypeReading>,
}

/// What syn gave for an impl block and for each of its pieces.
#[derive(Debug)]
pub struct ImplReading {
    /// The impl block's parts.
    pub syntax: Parsed<ImplSyntax>,
    /// The readings of its generic parameters.
    pub params: Vec<ParamReading>,
    /// The reading of its self type.
    pub self_ty: TypeReading,
    /// The readings of its items.
    pub items: Vec<MemberReading>,
}

/// What syn gave for the annotated item: the kind it reported, and the
/// readings of an enum's or impl block's pieces.
#[derive(Debug)]
pub enum ItemReading {
    /// An enum.
    Enum(Parsed<ItemKind>, EnumReading),
    /// An impl block.
    Impl(Parsed<ItemKind>, ImplReading),
    /// Any other item.
    Other(Parsed<ItemKind>),
}

/// The text the item was read from.
pub open spec fn item_reading_source(rd: ItemReading) -> Seq<char> {
    match rd {
        ItemReading::Enum(k, _) => k.source(),
        ItemReading::Impl(k, _) => k.source(),
        ItemReading::Other(k) => k.source(),
    }
}

/// The texts the attribute readings were made from.
pub open spec fn attr_reading_texts(rs: Seq<AttrReading>) -> Seq<Seq<char>> {
    rs.map_values(|r: AttrReading| r.text@)
}

/// The texts the parameter readings were made from.
pub open spec fn param_reading_texts(rs: Seq<ParamReading>) -> Seq<Seq<char>> {
    rs.map_values(|r: ParamReading| r.text@)
}

/// The texts the variant readings were made from.
pub open spec fn variant_reading_texts(rs: Seq<VariantReading>) -> Seq<Seq<char>> {
    rs.map_values(|r: VariantReading| r.text@)
}

/// The texts the input readings were made from.
pub open spec fn input_reading_texts(rs: Seq<InputReading>) -> Seq<Seq<char>> {
    rs.map_values(|r: InputReading| r.text@)
}

/// The texts the member readings were made from.
pub open spec fn member_reading_texts(rs: Seq<MemberReading>) -> Seq<Seq<char>> {
    rs.map_values(|r: MemberReading| r.text@)
}

/// What syn read, if anything, was read from `text`.
pub open spec fn read_from<T>(p: Option<Parsed<T>>, text: Seq<char>) -> bool {
    p matches Some(x) ==> x.source() == text
}

/// An attribute reading was read from its text.
pub open spec fn attr_shaped(r: AttrReading) -> bool {
    read_from(r.attrs, r.text@)
}

/// One attribute reading per text, in order, each read from its text.
pub open spec fn attrs_shaped(rs: Seq<AttrReading>, texts: Seq<String>) -> bool {
    &&& attr_reading_texts(rs) == views(texts)
    &&& forall|i: int| 0 <= i < rs.len() ==> attr_shaped(#[trigger] rs[i])
}

/// Each reading of a parameter was read from its text.
pub open spec fn param_shaped(r: ParamReading) -> bool {
    read_from(r.lifetime, r.text@) && read_from(r.konst, r.text@) && read_from(r.ty, r.text@)
}

/// One parameter reading per text, in order, each read from its text.
pub open spec fn params_shaped(rs: Seq<ParamReading>, texts: Seq<String>) -> bool {
    &&& param_reading_texts(rs) == views(texts)
    &&& forall|i: int| 0 <= i < rs.len() ==> param_shaped(#[trigger] rs[i])
}

/// A variant reading was read from its text, and holds one attribute
/// reading per attribute text of the variant, none when it did not read.
pub open spec fn variant_shaped(r: VariantReading) -> bool {
    match r.syntax {
        Some(v) => v.source() == r.text@ && attrs_shaped(r.attrs@, v.value().attrs@),
        None => r.attrs@.len() == 0,
    }
}

/// An enum reading holds one reading per attribute, parameter and variant
/// text of the enum, in order, each read from its text.
pub open spec fn enum_shaped(r: EnumReading) -> bool {
    let e = r.syntax.value();
    &&& attrs_shaped(r.attrs@, e.attrs@)
    &&& params_shaped(r.params@, e.params@)
    &&& variant_reading_texts(r.variants@) == views(e.variants@)
    &&& forall|i: int| 0 <= i < r.variants@.len() ==> variant_shaped(#[trigger] r.variants@[i])
}

/// An input reading was read from its text.
pub open spec fn input_shaped(r: InputReading) -> bool {
    read_from(r.input, r.text@)
}

/// A type reading was read from its text.
pub open spec fn type_shaped(r: TypeReading) -> bool {
    read_from(r.ty, r.text@)
}

/// A member reading goes as far as syn read, each piece read from its text:
/// the method from the item's text, the signature from the method's, and
/// one reading per input and of the return type from the signature's.
pub open spec fn member_shaped(m: MemberReading) -> bool {
    &&& read_from(m.method, m.text@)
    &&& match m.signature {
        Some(g) => {
            &&& m.method matches Some(f) && g.source() == f.value().sig@
            &&& input_reading_texts(m.inputs@) == views(g.value().inputs@)
            &&& forall|i: int| 0 <= i < m.inputs@.len() ==> input_shaped(#[trigger] m.inputs@[i])
            &&& match g.value().output {
                Some(t) => m.output matches Some(o) && o.text@ == t@ && type_shaped(o),
                None => m.output is None,
            }
        },
        None => m.inputs@.len() == 0 && m.output is None,
    }
}

/// An impl reading holds one reading per parameter and item text of the
/// impl block, in order, and the reading of its self type, each read from
/// its text.
pub open spec fn impl_shaped(r: ImplReading) -> bool {
    let i = r.syntax.value();
    &&& params_shaped(r.params@, i.params())
    &&& r.self_ty.text@ == i.self_ty()@
    &&& type_shaped(r.self_ty)
    &&& member_reading_texts(r.items@) == views(i.items())
    &&& forall|k: int| 0 <= k < r.items@.len() ==> member_shaped(#[trigger] r.items@[k])
}

/// An item reading was read from one text: the kind syn reported and, for
/// an enum or an impl block, its pieces, the whole read from that text.
pub open spec fn item_shaped(r: ItemReading) -> bool {
    match r {
        ItemReading::Enum(k, e) => k.value() == ItemKind::Enum && e.syntax.source() == k.source() && enum_shaped(e),
        ItemReading::Impl(k, i) => k.value() == ItemKind::Impl && i.syntax.source() == k.source() && impl_shaped(i),
        ItemReading::Other(k) => k.value() == ItemKind::Other,
    }
}

/// The attributes read from all attribute texts, in order, or `None` when
/// one of them did not read.
pub open spec fn attrs_read(rs: Seq<AttrReading>) -> Option<Seq<Attr>>
    decreases rs.len(),
{
    if rs.len() == 0 {
        Some(Seq::empty())
    } else {
        match (attrs_read(rs.drop_last()), rs.last().attrs) {
            (Some(a), Some(v)) => Some(a + v.value()@),
            _ => None,
        }
    }
}

/// What syn read, if anything.
pub open spec fn value_of<T>(p: Option<Parsed<T>>) -> Option<T> {
    match p {
        Some(x) => Some(x.value()),
        None => None,
    }
}

/// A generic parameter: the first of its lifetime, const and type readings
/// that read.
pub open spec fn first_reading(p: ParamReading) -> Option<RawParam> {
    match p.lifetime {
        Some(l) => Some(l.value()),
        None => match p.konst {
            Some(c) => Some(c.value()),
            None => value_of(p.ty),
        },
    }
}

/// Every parameter read.
pub open spec fn params_readable(ps: Seq<ParamReading>) -> bool {
    forall|i: int| 0 <= i < ps.len() ==> (#[trigger] first_reading(ps[i])) is Some
}

/// `out` holds the parameters read, one per reading, in order.
pub open spec fn params_read(ps: Seq<ParamReading>, out: Seq<RawParam>) -> bool {
    &&& out.len() == ps.len()
    &&& forall|i: int| 0 <= i < ps.len() ==> #[trigger] first_reading(ps[i]) == Some(out[i])
}

/// A variant reads when it and all its attributes read.
pub open spec fn variant_readable(r: VariantReading) -> bool {
    r.syntax is Some && attrs_read(r.attrs@) is Some
}

/// `v` is the variant assembled from its reading: the attributes read, the
/// name and fields syn gave, and the text handed to syn.
pub open spec fn variant_from(r: VariantReading, v: Variant) -> bool {
    &&& attrs_read(r.attrs@) == Some(v.attrs@)
    &&& r.syntax matches Some(s) && v.ident == s.value().ident && v.fields == s.value().fields
    &&& v.text == r.text
}

/// An enum reads when its attributes, parameters and variants all read.
pub open spec fn enum_readable(e: EnumReading) -> bool {
    &&& attrs_read(e.attrs@) is Some
    &&& params_readable(e.params@)
    &&& forall|i: int| 0 <= i < e.variants@.len() ==> variant_readable(#[trigger] e.variants@[i])
}

/// `re` is the enum assembled from its reading.
pub open spec fn enum_from(e: EnumReading, re: RawEnum) -> bool {
    &&& attrs_read(e.attrs@) == Some(re.attrs@)
    &&& re.vis == e.syntax.value().vis
    &&& re.ident == e.syntax.value().ident
    &&& params_read(e.params@, re.params@)
    &&& re.where_clause == e.syntax.value().where_clause
    &&& re.variants@.len() == e.variants@.len()
    &&& forall|i: int| 0 <= i < e.variants@.len() ==> variant_from(e.variants@[i], #[trigger] re.variants@[i])
}

/// The return type read: none written, a type that read, or `None` when
/// the written one did not read.
pub open spec fn output_read(o: Option<TypeReading>) -> Option<Option<RawType>> {
    match o {
        None => Some(None),
        Some(t) => match t.ty {
            Some(x) => Some(Some(x.value())),
            None => None,
        },
    }
}

/// An impl item is a method when it read as one, with its signature, every
/// input and its return type.
pub open spec fn method_readable(m: MemberReading) -> bool {
    &&& m.method is Some
    &&& m.signature is Some
    &&& forall|i: int| 0 <= i < m.inputs@.len() ==> (#[trigger] m.inputs@[i]).input is Some
    &&& output_read(m.output) is Some
}

/// `rm` is the impl item assembled from its reading: its text, and the
/// method when it reads as one.
pub open spec fn member_from(m: MemberReading, rm: RawMember) -> bool {
    &&& rm.text == m.text
    &&& (rm.method is Some <==> method_readable(m))
    &&& rm.method matches Some(x) ==> {
        &&& value_of(m.method) == Some(x.syntax)
        &&& value_of(m.signature) == Some(x.signature)
        &&& x.inputs@.len() == m.inputs@.len()
        &&& forall|i: int| 0 <= i < m.inputs@.len() ==> value_of(#[trigger] m.inputs@[i].input) == Some(x.inputs@[i])
        &&& output_read(m.output) == Some(x.output)
    }
}

/// An impl block reads when its parameters and its self type read.
pub open spec fn impl_readable(i: ImplReading) -> bool {
    params_readable(i.params@) && i.self_ty.ty is Some
}

/// `ri` is the impl block assembled from its reading: the attributes with
/// their styles, the flags, the `where` clause, the trait and the self type's
/// text as syn gave them, the parameters and self type read, and one item
/// per item reading.
pub open spec fn impl_from(i: ImplReading, ri: RawImpl) -> bool {
    let s = i.syntax.value();
    &&& ri.attrs@.len() == s.styled_attrs().len()
    &&& forall|k: int|
        0 <= k < ri.attrs@.len() ==> (#[trigger] ri.attrs@[k]).outer == s.styled_attrs()[k].0 && ri.attrs@[k].text
            == s.styled_attrs()[k].1
    &&& ri.defaultness == s.defaultness()
    &&& ri.unsafety == s.unsafety()
    &&& params_read(i.params@, ri.params@)
    &&& ri.where_clause == s.where_clause()
    &&& match s.trait_() {
        Some((bang, path)) => ri.trait_ == Some(TraitRef { bang, path }),
        None => ri.trait_ is None,
    }
    &&& ri.self_text == s.self_ty()
    &&& value_of(i.self_ty.ty) == Some(ri.self_ty)
    &&& ri.items@.len() == i.items@.len()
    &&& forall|k: int| 0 <= k < i.items@.len() ==> member_from(i.items@[k], #[trigger] ri.items@[k])
}

/// `r` is the item assembled from its reading: `None` exactly when a piece
/// that must read did not.
pub open spec fn item_from(rd: ItemReading, r: Option<RawItem>) -> bool {
    match rd {
        ItemReading::Enum(_, e) => if enum_readable(e) {
            r matches Some(RawItem::Enum(re)) && enum_from(e, re)
        } else {
            r is None
        },
        ItemReading::Impl(_, i) => if impl_readable(i) {
            r matches Some(RawItem::Impl(ri)) && impl_from(i, ri)
        } else {
            r is None
        },
        ItemReading::Other(_) => r matches Some(RawItem::Other),
    }
}

proof fn lemma_attrs_unread_stays(rs: Seq<AttrReading>, k: int)
    requires
        0 <= k <= rs.len(),
        attrs_read(rs.take(k)) is None,
    ensures
        attrs_read(rs) is None,
    decreases rs.len() - k,
{
    if k < rs.len() {
        assert(rs.take(k + 1).drop_last() =~= rs.take(k));
        lemma_attrs_unread_stays(rs, k + 1);
    } else {
        assert(rs.take(k) =~= rs);
    }
}

/// The attributes read from their readings.
pub fn attrs_from(rs: Vec<AttrReading>) -> (r: Option<Vec<Attr>>)
    ensures
        match r {
            Some(v) => attrs_read(rs@) == Some(v@),
            None => attrs_read(rs@) is None,
        },
{
    let ghost orig = rs@;
    assert(orig.len() == rs.len());
    let mut rest = rs;
    let mut out: Vec<Attr> = Vec::new();
    let mut k: usize = 0;
    assert(orig.take(0) =~= Seq::<AttrReading>::empty());
    while rest.len() > 0
        invariant
            k <= orig.len() <= usize::MAX,
            orig == rs@,
            rest@ == orig.skip(k as int),
            attrs_read(orig.take(k as int)) == Some(out@),
        decreases rest.len(),
    {
        let a = rest.remove(0);
        assert(rest@ =~= orig.skip(k + 1));
        assert(a == orig[k as int]);
        assert(orig.take(k + 1).drop_last() =~= orig.take(k as int));
        assert(orig.take(k + 1).last() == orig[k as int]);
        match a.attrs {
            Some(p) => {
                let (_, mut v) = p.into_parts();
                let ghost before = out@;
                let ghost vs = v@;
                out.append(&mut v);
                assert(out@ =~= before + vs);
            },
            None => {
                proof {
                    assert(attrs_read(orig.take(k + 1)) is None);
                    lemma_attrs_unread_stays(orig, k + 1);
                }
                return None;
            },
        }
        k += 1;
    }
    assert(orig.take(k as int) =~= orig);
    Some(out)
}

fn value_from<T>(p: Option<Parsed<T>>) -> (r: Option<T>)
    ensures
        r == value_of(p),
{
    match p {
        Some(x) => Some(x.into_parts().1),
        None => None,
    }
}

/// A generic parameter from its readings: the first that read.
pub fn param_from(p: ParamReading) -> (r: Option<RawParam>)
    ensures
        r == first_reading(p),
{
    let ParamReading { text: _, lifetime, konst, ty } = p;
    match lifetime {
        Some(l) => Some(l.into_parts().1),
        None => match konst {
            Some(c) => Some(c.into_parts().1),
            None => value_from(ty),
        },
    }
}

/// The generic parameters from their readings.
pub fn params_from(ps: Vec<ParamReading>) -> (r: Option<Vec<RawParam>>)
    ensures
        match r {
            Some(v) => params_read(ps@, v@),
            None => !params_readable(ps@),
        },
{
    let ghost orig = ps@;
    assert(orig.len() == ps.len());
    let mut rest = ps;
    let mut out: Vec<RawParam> = Vec::new();
    let mut k: usize = 0;
    while rest.len() > 0
        invariant
            k <= orig.len() <= usize::MAX,
            orig == ps@,
            rest@ == orig.skip(k as int),
            out@.len() == k,
            forall|i: int| 0 <= i < k ==> #[trigger] first_reading(orig[i]) == Some(out@[i]),
        decreases rest.len(),
    {
        let p = rest.remove(0);
        assert(rest@ =~= orig.skip(k + 1));
        assert(p == orig[k as int]);
        match param_from(p) {
            Some(x) => out.push(x),
            None => {
                assert(first_reading(orig[k as int]) is None);
                assert(!params_readable(orig));
                return None;
            },
        }
        k += 1;
    }
    Some(out)
}

/// A variant from its reading.
pub fn variant_from_reading(r: VariantReading) -> (v: Option<Variant>)
    ensures
        match v {
            Some(v) => variant_from(r, v),
            None => !variant_readable(r),
        },
{
    let VariantReading { text, syntax, attrs } = r;
    let syntax = match syntax {
        Some(s) => s,
        None => return None,
    };
    let attrs = attrs_from(attrs)?;
    let (_, VariantSyntax { attrs: _, ident, fields }) = syntax.into_parts();
    Some(Variant { attrs, ident, fields, text })
}

/// An enum from its reading.
pub fn enum_from_reading(e: EnumReading) -> (r: Option<RawEnum>)
    ensures
        match r {
            Some(re) => enum_readable(e) && enum_from(e, re),
            None => !enum_readable(e),
        },
{
    let EnumReading { syntax, attrs, params, variants } = e;
    let attrs = attrs_from(attrs)?;
    let params = params_from(params)?;
    let ghost orig = variants@;
    assert(orig.len() == variants.len());
    let mut rest = variants;
    let mut out: Vec<Variant> = Vec::new();
    let mut k: usize = 0;
    while rest.len() > 0
        invariant
            k <= orig.len() <= usize::MAX,
            orig == e.variants@,
            params_readable(e.params@),
            attrs_read(e.attrs@) is Some,
            rest@ == orig.skip(k as int),
            out@.len() == k,
            forall|i: int| 0 <= i < k ==> variant_from(orig[i], #[trigger] out@[i]),
            forall|i: int| 0 <= i < k ==> variant_readable(#[trigger] orig[i]),
        decreases rest.len(),
    {
        let v = rest.remove(0);
        assert(rest@ =~= orig.skip(k + 1));
        assert(v == orig[k as int]);
        match variant_from_reading(v) {
            Some(x) => out.push(x),
            None => {
                assert(!variant_readable(orig[k as int]));
                return None;
            },
        }
        k += 1;
    }
    let (_, EnumSyntax { attrs: _, vis, ident, params: _, where_clause, variants: _ }) = syntax.into_parts();
    Some(RawEnum { attrs, vis, ident, params, where_clause, variants: out })
}

/// An impl item from its reading: a method when it reads as one, else kept
/// as an item that is not.
pub fn member_from_reading(m: MemberReading) -> (r: RawMember)
    ensures
        member_from(m, r),
{
    let MemberReading { text, method, signature, inputs, output } = m;
    let method = match (method, signature) {
        (Some(ms), Some(g)) => {
            let ghost orig = inputs@;
            assert(orig.len() == inputs.len());
            let mut rest = inputs;
            let mut xs: Vec<RawInput> = Vec::new();
            let mut k: usize = 0;
            let mut ok = true;
            while rest.len() > 0
                invariant
                    k <= orig.len() <= usize::MAX,
                    orig == m.inputs@,
                    rest@ == orig.skip(k as int),
                    ok ==> xs@.len() == k,
                    ok ==> forall|i: int| 0 <= i < k ==> #[trigger] value_of(orig[i].input) == Some(xs@[i]),
                    !ok ==> exists|i: int| 0 <= i < orig.len() && (#[trigger] orig[i]).input is None,
                decreases rest.len(),
            {
                let x = rest.remove(0);
                assert(rest@ =~= orig.skip(k + 1));
                assert(x == orig[k as int]);
                match x.input {
                    Some(a) => {
                        let (_, v) = a.into_parts();
                        if ok {
                            xs.push(v);
                        }
                    },
                    None => {
                        ok = false;
                    },
                }
                k += 1;
            }
            let out = match output {
                None => Some(None),
                Some(t) => match t.ty {
                    Some(y) => Some(Some(y.into_parts().1)),
                    None => None,
                },
            };
            match out {
                Some(o) => {
                    if ok {
                        let (_, syntax) = ms.into_parts();
                        let (_, signature) = g.into_parts();
                        let rm = RawMethod { syntax, signature, inputs: xs, output: o };
                        proof {
                            assert(k == orig.len());
                            assert forall|i: int| 0 <= i < m.inputs@.len() implies value_of(
                                #[trigger] m.inputs@[i].input,
                            ) == Some(rm.inputs@[i]) by {
                                assert(value_of(orig[i].input) == Some(xs@[i]));
                            }
                            assert(method_readable(m));
                        }
                        Some(rm)
                    } else {
                        assert(!method_readable(m));
                        None
                    }
                },
                None => {
                    assert(!method_readable(m));
                    None
                },
            }
        },
        _ => {
            assert(!method_readable(m));
            None
        },
    };
    RawMember { text, method }
}

/// An impl block from its reading.
pub fn impl_from_reading(i: ImplReading) -> (r: Option<RawImpl>)
    ensures
        match r {
            Some(ri) => impl_readable(i) && impl_from(i, ri),
            None => !impl_readable(i),
        },
{
    let ImplReading { syntax, params, self_ty, items } = i;
    let (_, ImplSyntax(styled, defaultness, unsafety, _, where_clause, trait_, self_text, _)) = syntax.into_parts();
    let params = params_from(params)?;
    let self_ty = match self_ty.ty {
        Some(t) => t.into_parts().1,
        None => return None,
    };
    let ghost sorig = styled@;
    assert(sorig.len() == styled.len());
    let mut srest = styled;
    let mut attrs: Vec<RawAttr> = Vec::new();
    let mut j: usize = 0;
    while srest.len() > 0
        invariant
            j <= sorig.len() <= usize::MAX,
            srest@ == sorig.skip(j as int),
            attrs@.len() == j,
            forall|k: int|
                0 <= k < j ==> (#[trigger] attrs@[k]).outer == sorig[k].0 && attrs@[k].text == sorig[k].1,
        decreases srest.len(),
    {
        let (outer, text) = srest.remove(0);
        assert(srest@ =~= sorig.skip(j + 1));
        attrs.push(RawAttr { outer, text });
        j += 1;
    }
    let ghost orig = items@;
    assert(orig.len() == items.len());
    let mut rest = items;
    let mut out: Vec<RawMember> = Vec::new();
    let mut k: usize = 0;
    while rest.len() > 0
        invariant
            k <= orig.len() <= usize::MAX,
            rest@ == orig.skip(k as int),
            out@.len() == k,
            forall|n: int| 0 <= n < k ==> member_from(orig[n], #[trigger] out@[n]),
        decreases rest.len(),
    {
        let m = rest.remove(0);
        assert(rest@ =~= orig.skip(k + 1));
        assert(m == orig[k as int]);
        out.push(member_from_reading(m));
        k += 1;
    }
    let trait_ = match trait_ {
        Some((bang, path)) => Some(TraitRef { bang, path }),
        None => None,
    };
    Some(RawImpl {
        attrs,
        defaultness,
        unsafety,
        params,
        where_clause,
        trait_,
        self_text,
        self_ty,
        items: out,
    })
}

/// The annotated item from its reading.
pub fn item_from_reading(rd: ItemReading) -> (r: Option<RawItem>)
    ensures
        item_from(rd, r),
{
    match rd {
        ItemReading::Enum(_, e) => match enum_from_reading(e) {
            Some(re) => Some(RawItem::Enum(re)),
            None => None,
        },
        ItemReading::Impl(_, i) => match impl_from_reading(i) {
            Some(ri) => Some(RawItem::Impl(ri)),
            None => None,
        },
        ItemReading::Other(_) => Some(RawItem::Other),
    }
}

fn gather_attrs(texts: &Vec<String>) -> (r: Vec<AttrReading>)
    ensures
        attrs_shaped(r@, texts@),
{
    let mut out: Vec<AttrReading> = Vec::new();
    let mut i: usize = 0;
    while i < texts.len()
        invariant
            i <= texts.len(),
            out@.len() == i,
            forall|k: int| 0 <= k < i ==> (#[trigger] out@[k]).text@ == texts@[k]@ && attr_shaped(out@[k]),
        decreases texts.len() - i,
    {
        let attrs = parse_outer_attrs(texts[i].as_str());
        out.push(AttrReading { text: texts[i].clone(), attrs });
        i += 1;
    }
    assert(attr_reading_texts(out@) =~= views(texts@));
    out
}

fn gather_params(texts: &Vec<String>) -> (r: Vec<ParamReading>)
    ensures
        params_shaped(r@, texts@),
{
    let mut out: Vec<ParamReading> = Vec::new();
    let mut i: usize = 0;
    while i < texts.len()
        invariant
            i <= texts.len(),
            out@.len() == i,
            forall|k: int| 0 <= k < i ==> (#[trigger] out@[k]).text@ == texts@[k]@ && param_shaped(out@[k]),
        decreases texts.len() - i,
    {
        let t = texts[i].as_str();
        let lifetime = parse_lifetime_param(t);
        let konst = parse_const_param(t);
        let ty = parse_type_param(t);
        out.push(ParamReading { text: texts[i].clone(), lifetime, konst, ty });
        i += 1;
    }
    assert(param_reading_texts(out@) =~= views(texts@));
    out
}

fn gather_variant(text: &String) -> (r: VariantReading)
    ensures
        r.text@ == text@,
        variant_shaped(r),
{
    let syntax = parse_variant(text.as_str());
    let attrs = match &syntax {
        Some(v) => gather_attrs(&v.value_ref().attrs),
        None => Vec::new(),
    };
    VariantReading { text: text.clone(), syntax, attrs }
}

/// Hands the enum written as `text`, and each of its pieces, to syn, and
/// keeps what syn gives back, each beside the text it was read from.
pub fn gather_enum(text: &str) -> (r: Option<EnumReading>)
    ensures
        r matches Some(e) ==> e.syntax.source() == text@ && enum_shaped(e),
{
    let syntax = parse_enum(text)?;
    let e = syntax.value_ref();
    let attrs = gather_attrs(&e.attrs);
    let params = gather_params(&e.params);
    let mut variants: Vec<VariantReading> = Vec::new();
    let mut i: usize = 0;
    while i < e.variants.len()
        invariant
            i <= e.variants.len(),
            variants@.len() == i,
            forall|k: int|
                0 <= k < i ==> (#[trigger] variants@[k]).text@ == e.variants@[k]@ && variant_shaped(
                    variants@[k],
                ),
        decreases e.variants.len() - i,
    {
        variants.push(gather_variant(&e.variants[i]));
        i += 1;
    }
    assert(variant_reading_texts(variants@) =~= views(e.variants@));
    Some(EnumReading { syntax, attrs, params, variants })
}

fn gather_type(text: &String) -> (r: TypeReading)
    ensures
        r.text@ == text@,
        type_shaped(r),
{
    TypeReading { text: text.clone(), ty: parse_type(text.as_str()) }
}

fn gather_member(text: &String) -> (r: MemberReading)
    ensures
        r.text@ == text@,
        member_shaped(r),
{
    let method = parse_method(text.as_str());
    let signature = match &method {
        Some(m) => parse_signature(m.value_ref().sig.as_str()),
        None => None,
    };
    let mut inputs: Vec<InputReading> = Vec::new();
    let mut output: Option<TypeReading> = None;
    match &signature {
        Some(gp) => {
            let g = gp.value_ref();
            let mut i: usize = 0;
            while i < g.inputs.len()
                invariant
                    i <= g.inputs.len(),
                    inputs@.len() == i,
                    forall|k: int|
                        0 <= k < i ==> (#[trigger] inputs@[k]).text@ == g.inputs@[k]@ && input_shaped(inputs@[k]),
                decreases g.inputs.len() - i,
            {
                let input = parse_fn_arg(g.inputs[i].as_str());
                inputs.push(InputReading { text: g.inputs[i].clone(), input });
                i += 1;
            }
            assert(input_reading_texts(inputs@) =~= views(g.inputs@));
            output = match &g.output {
                Some(t) => Some(gather_type(t)),
                None => None,
            };
        },
        None => {},
    }
    MemberReading { text: text.clone(), method, signature, inputs, output }
}

/// Hands the impl block written as `text`, and each of its pieces, to syn,
/// and keeps what syn gives back, each beside the text it was read from.
pub fn gather_impl(text: &str) -> (r: Option<ImplReading>)
    ensures
        r matches Some(i) ==> i.syntax.source() == text@ && impl_shaped(i),
{
    let syntax = parse_impl(text)?;
    let s = syntax.value_ref();
    let params = gather_params(&s.3);
    let self_ty = gather_type(&s.6);
    let mut items: Vec<MemberReading> = Vec::new();
    let mut i: usize = 0;
    while i < s.7.len()
        invariant
            i <= s.7.len(),
            items@.len() == i,
            forall|k: int| 0 <= k < i ==> (#[trigger] items@[k]).text@ == s.7@[k]@ && member_shaped(items@[k]),
        decreases s.7.len() - i,
    {
        items.push(gather_member(&s.7[i]));
        i += 1;
    }
    assert(member_reading_texts(items@) =~= views(s.7@));
    assert(self_ty.text@ == s.6@);
    Some(ImplReading { syntax, params, self_ty, items })
}

/// Hands the item written as `text`, and each of its pieces, to syn, and
/// keeps what syn gives back, the whole read from `text`; `None` when syn
/// does not read the text as an item of the kind it first reported.
pub fn gather_item(text: &str) -> (r: Option<ItemReading>)
    ensures
        r is Some ==> text@.len() > 0,
        r matches Some(rd) ==> item_reading_source(rd) == text@ && item_shaped(rd),
{
    let k = parse_item_kind(text)?;
    let kind = *k.value_ref();
    match kind {
        ItemKind::Enum => Some(ItemReading::Enum(k, gather_enum(text)?)),
        ItemKind::Impl => Some(ItemReading::Impl(k, gather_impl(text)?)),
        ItemKind::Other => Some(ItemReading::Other(k)),
    }
}

} // verus!
