//! From the pieces of syntax read off the annotated item to the description
//! the expansion works on: generic parameters in the order Rust writes them
//! (lifetimes first) and in their three forms, an impl's attributes split by
//! style, and a self type split around its last segment's name.
use vstd::prelude::*;
use crate::args::{ArgError, OpaqueArgs};
use crate::enum_expand::enum_expansion;
use crate::expand::{expansion_from, SourceItem};
use crate::impl_expand::{
    impl_expansion, is_self_return, spec_function_args, spec_has_receiver, spec_wrapper_fn,
    spec_wrappers,
};
use crate::model::{
    generics_text, param_text, param_texts, ref_generics_text, vis_text, EnumDef, FnDef, FnInput,
    GenericParam, Generics, GenericsForm, ImplDef, ImplMember, MemberKind, Pattern, ReturnTy,
    SelfTy, TraitRef, TypePath, TypeShape, Vis,
};
use crate::syntax::{
    ParamKind, RawAttr, RawEnum, RawImpl, RawInput, RawItem, RawMember, RawMethod, RawParam,
    RawSegment, RawType, RawTypePath,
};
use crate::text::{join, join_strings, views};

verus! {

/// The visibility written as `text`: `pub`, nothing, or a restricted one.
pub open spec fn vis_of(v: Vis, text: Seq<char>) -> bool {
    if text == "pub"@ {
        v is Public
    } else if text.len() == 0 {
        v is Inherited
    } else {
        v matches Vis::Restricted(t) && t@ == text
    }
}

/// Each attribute followed by a space.
pub open spec fn attrs_prefix(attrs: Seq<Seq<char>>) -> Seq<char>
    decreases attrs.len(),
{
    if attrs.len() == 0 {
        Seq::empty()
    } else {
        attrs_prefix(attrs.drop_last()) + attrs.last() + " "@
    }
}

/// `name: bounds`, or the name alone when there are no bounds.
pub open spec fn bounded_text(name: Seq<char>, bounds: Seq<char>) -> Seq<char> {
    if bounds.len() == 0 {
        name
    } else {
        name + ": "@ + bounds
    }
}

/// A parameter as an `impl` header introduces it: attributes, name and
/// bounds (`const N: usize` for a const parameter), no default.
pub open spec fn param_bound_text(p: RawParam) -> Seq<char> {
    attrs_prefix(views(p.attrs@)) + match p.kind {
        ParamKind::Const => "const "@ + p.name@ + ": "@ + p.bounds@,
        _ => bounded_text(p.name@, p.bounds@),
    }
}

/// ` = default` for a parameter that has one, else nothing.
pub open spec fn default_part(d: Option<String>) -> Seq<char> {
    match d {
        Some(d) => " = "@ + d@,
        None => Seq::empty(),
    }
}

/// A parameter as declared: its `impl` form and its default.
pub open spec fn param_decl_text(p: RawParam) -> Seq<char> {
    param_bound_text(p) + default_part(p.default)
}

/// `g` holds the three forms of `p`.
pub open spec fn param_of(p: RawParam, g: GenericParam) -> bool {
    &&& g.decl@ == param_decl_text(p)
    &&& g.bound@ == param_bound_text(p)
    &&& g.arg@ == p.name@
}

/// The lifetime parameters (`lifetimes`) or the others (`!lifetimes`), in
/// their order.
pub open spec fn params_of_kind(ps: Seq<RawParam>, lifetimes: bool) -> Seq<RawParam>
    decreases ps.len(),
{
    if ps.len() == 0 {
        Seq::empty()
    } else {
        let rest = params_of_kind(ps.drop_last(), lifetimes);
        if (ps.last().kind is Lifetime) == lifetimes {
            rest.push(ps.last())
        } else {
            rest
        }
    }
}

/// The parameters in the order Rust writes them: lifetimes first, then the
/// others, each group in source order.
pub open spec fn ordered_params(ps: Seq<RawParam>) -> Seq<RawParam> {
    params_of_kind(ps, true) + params_of_kind(ps, false)
}

/// `g` describes the parameters `ps` and the `where` clause.
pub open spec fn generics_of(ps: Seq<RawParam>, where_clause: Seq<char>, g: Generics) -> bool {
    let o = ordered_params(ps);
    &&& g.params@.len() == o.len()
    &&& forall|i: int| 0 <= i < o.len() ==> param_of(o[i], #[trigger] g.params@[i])
    &&& g.where_clause@ == where_clause
}

/// The texts of the attributes of one style (`outer` or inner), in order.
pub open spec fn styled_attrs(attrs: Seq<RawAttr>, outer: bool) -> Seq<Seq<char>>
    decreases attrs.len(),
{
    if attrs.len() == 0 {
        Seq::empty()
    } else {
        let rest = styled_attrs(attrs.drop_last(), outer);
        if attrs.last().outer == outer {
            rest.push(attrs.last().text@)
        } else {
            rest
        }
    }
}

/// A path segment written out.
pub open spec fn segment_text(s: RawSegment) -> Seq<char> {
    s.ident@ + s.args@
}

/// The segments written out.
pub open spec fn segment_texts(segs: Seq<RawSegment>) -> Seq<Seq<char>> {
    segs.map_values(|s: RawSegment| segment_text(s))
}

/// Each segment followed by `::`.
pub open spec fn segments_prefix(segs: Seq<RawSegment>) -> Seq<char>
    decreases segs.len(),
{
    if segs.len() == 0 {
        Seq::empty()
    } else {
        segments_prefix(segs.drop_last()) + segment_text(segs.last()) + "::"@
    }
}

/// `::` for a path with a leading colon, else nothing.
pub open spec fn leading_text(leading_colon: bool) -> Seq<char> {
    if leading_colon {
        "::"@
    } else {
        Seq::empty()
    }
}

/// Whether a type path has a last segment that follows its qualified self.
pub open spec fn splittable(tp: RawTypePath) -> bool {
    &&& tp.segments@.len() > 0
    &&& match tp.qself {
        Some(q) => q.position < tp.segments@.len(),
        None => true,
    }
}

/// Everything of a type path before its last segment's name: the qualified
/// self `<T as a::Tr>::` when there is one, the leading `::`, and the
/// segments before the last one, each followed by `::`.
pub open spec fn path_prefix(tp: RawTypePath) -> Seq<char> {
    let n = tp.segments@.len();
    match tp.qself {
        Some(q) => "<"@ + q.ty@ + (if q.position > 0 {
            " as "@ + leading_text(tp.leading_colon) + join(
                segment_texts(tp.segments@.take(q.position as int)),
                "::"@,
            )
        } else {
            Seq::empty()
        }) + ">::"@ + segments_prefix(tp.segments@.subrange(q.position as int, n - 1)),
        None => leading_text(tp.leading_colon) + segments_prefix(tp.segments@.take(n - 1)),
    }
}

/// `s` is the self type written as `text` and read as `t`: a type path split
/// around its last segment's name, or any other type by its text.
pub open spec fn self_ty_of(t: RawType, text: Seq<char>, s: SelfTy) -> bool {
    match t {
        RawType::Path(tp) => if splittable(tp) {
            s matches SelfTy::Path(p) && p.prefix@ == path_prefix(tp) && p.ident@
                == tp.segments@.last().ident@ && p.args@ == tp.segments@.last().args@
        } else {
            s matches SelfTy::Other(o) && o@ == text
        },
        RawType::Other => s matches SelfTy::Other(o) && o@ == text,
    }
}

/// Whether a type path is one plain identifier: no leading `::`, one
/// segment, no arguments.
pub open spec fn plain_ident(tp: RawTypePath) -> bool {
    !tp.leading_colon && tp.segments@.len() == 1 && tp.segments@[0].args@.len() == 0
}

/// `x` is the shape of the return type `o`.
pub open spec fn output_of(o: Option<RawType>, x: ReturnTy) -> bool {
    match o {
        None => x is Default,
        Some(RawType::Other) => x matches ReturnTy::Type(TypeShape::Other),
        Some(RawType::Path(tp)) => x matches ReturnTy::Type(TypeShape::Path { ident }) && if plain_ident(
            tp,
        ) {
            ident matches Some(i) && i@ == tp.segments@[0].ident@
        } else {
            ident is None
        },
    }
}

/// `x` describes the input `r`.
pub open spec fn input_of(r: RawInput, x: FnInput) -> bool {
    match r {
        RawInput::Receiver => x is Receiver,
        RawInput::Typed(None) => x matches FnInput::Typed(Pattern::Other),
        RawInput::Typed(Some(n)) => x matches FnInput::Typed(Pattern::Ident(m)) && m@ == n@,
    }
}

/// `f` describes the method `m`.
pub open spec fn fn_def_of(m: RawMethod, f: FnDef) -> bool {
    &&& f.attrs == m.syntax.attrs
    &&& vis_of(f.vis, m.syntax.vis@)
    &&& f.defaultness == m.syntax.defaultness
    &&& f.asyncness == m.signature.asyncness
    &&& f.constness == m.signature.constness
    &&& f.ident == m.signature.ident
    &&& f.sig == m.syntax.sig
    &&& f.inputs@.len() == m.inputs@.len()
    &&& forall|k: int| 0 <= k < m.inputs@.len() ==> input_of(m.inputs@[k], #[trigger] f.inputs@[k])
    &&& output_of(m.output, f.output)
}

/// `x` describes the impl item `m`: a method when it read as one.
pub open spec fn member_of(m: RawMember, x: ImplMember) -> bool {
    &&& x.text == m.text
    &&& match m.method {
        Some(f) => x.kind matches MemberKind::Fn(g) && fn_def_of(f, g),
        None => x.kind is Other,
    }
}

/// `d` describes the enum `e`.
pub open spec fn enum_def_of(e: RawEnum, d: EnumDef) -> bool {
    &&& d.attrs == e.attrs
    &&& vis_of(d.vis, e.vis@)
    &&& d.ident == e.ident
    &&& generics_of(e.params@, e.where_clause@, d.generics)
    &&& d.variants == e.variants
}

/// `d` describes the impl block `i`.
pub open spec fn impl_def_of(i: RawImpl, d: ImplDef) -> bool {
    &&& views(d.attrs@) == styled_attrs(i.attrs@, true)
    &&& views(d.inner_attrs@) == styled_attrs(i.attrs@, false)
    &&& d.defaultness == i.defaultness
    &&& d.unsafety == i.unsafety
    &&& generics_of(i.params@, i.where_clause@, d.generics)
    &&& d.trait_ == i.trait_
    &&& self_ty_of(i.self_ty, i.self_text@, d.self_ty)
    &&& d.items@.len() == i.items@.len()
    &&& forall|k: int| 0 <= k < i.items@.len() ==> member_of(i.items@[k], #[trigger] d.items@[k])
}

/// `s` describes the item `raw`.
pub open spec fn source_of(raw: RawItem, s: SourceItem) -> bool {
    match raw {
        RawItem::Enum(e) => s matches SourceItem::Enum(d) && enum_def_of(e, d),
        RawItem::Impl(i) => s matches SourceItem::Impl(d) && impl_def_of(i, d),
        RawItem::Other => s is Other,
    }
}

fn vis_from(text: String) -> (v: Vis)
    ensures
        vis_of(v, text@),
{
    if text == String::from_str("pub") {
        Vis::Public
    } else if text.as_str().is_empty() {
        Vis::Inherited
    } else {
        Vis::Restricted(text)
    }
}

fn write_attrs(attrs: &Vec<String>) -> (r: String)
    ensures
        r@ == attrs_prefix(views(attrs@)),
{
    let mut r = String::new();
    let mut i: usize = 0;
    while i < attrs.len()
        invariant
            i <= attrs.len(),
            r@ == attrs_prefix(views(attrs@).take(i as int)),
        decreases attrs.len() - i,
    {
        proof {
            assert(views(attrs@).take(i + 1).drop_last() =~= views(attrs@).take(i as int));
        }
        let ghost before = r@;
        r.append(attrs[i].as_str());
        r.append(" ");
        assert(r@ =~= before + attrs@[i as int]@ + " "@);
        i += 1;
    }
    assert(views(attrs@).take(attrs.len() as int) =~= views(attrs@));
    r
}

/// The three forms of a generic parameter.
pub fn generic_param(p: &RawParam) -> (g: GenericParam)
    ensures
        param_of(*p, g),
{
    let prefix = write_attrs(&p.attrs);
    let mut bound = prefix.clone();
    match p.kind {
        ParamKind::Const => {
            bound.append("const ");
            bound.append(p.name.as_str());
            bound.append(": ");
            bound.append(p.bounds.as_str());
            assert(bound@ =~= prefix@ + ("const "@ + p.name@ + ": "@ + p.bounds@));
        },
        _ => {
            bound.append(p.name.as_str());
            if !p.bounds.as_str().is_empty() {
                bound.append(": ");
                bound.append(p.bounds.as_str());
            }
            assert(bound@ =~= prefix@ + bounded_text(p.name@, p.bounds@));
        },
    }
    let mut decl = bound.clone();
    match &p.default {
        Some(d) => {
            decl.append(" = ");
            decl.append(d.as_str());
            assert(decl@ =~= bound@ + (" = "@ + d@));
        },
        None => {
            assert(decl@ =~= bound@ + Seq::<char>::empty());
        },
    }
    GenericParam { decl, bound, arg: p.name.clone() }
}

/// The generics of an item, its parameters placed lifetimes first.
pub fn generics_from(params: &Vec<RawParam>, where_clause: String) -> (g: Generics)
    ensures
        generics_of(params@, where_clause@, g),
{
    let ghost lts = params_of_kind(params@, true);
    let ghost others = params_of_kind(params@, false);
    let mut out: Vec<GenericParam> = Vec::new();
    let mut i: usize = 0;
    while i < params.len()
        invariant
            i <= params.len(),
            out@.len() == params_of_kind(params@.take(i as int), true).len(),
            forall|k: int|
                0 <= k < out@.len() ==> param_of(
                    params_of_kind(params@.take(i as int), true)[k],
                    #[trigger] out@[k],
                ),
        decreases params.len() - i,
    {
        proof {
            assert(params@.take(i + 1).drop_last() =~= params@.take(i as int));
        }
        if matches!(params[i].kind, ParamKind::Lifetime) {
            out.push(generic_param(&params[i]));
        }
        i += 1;
    }
    assert(params@.take(params.len() as int) =~= params@);
    let n = out.len();
    let mut j: usize = 0;
    while j < params.len()
        invariant
            j <= params.len(),
            n == lts.len(),
            lts == params_of_kind(params@, true),
            out@.len() == n + params_of_kind(params@.take(j as int), false).len(),
            forall|k: int| 0 <= k < n ==> param_of(lts[k], #[trigger] out@[k]),
            forall|k: int|
                0 <= k < params_of_kind(params@.take(j as int), false).len() ==> param_of(
                    params_of_kind(params@.take(j as int), false)[k],
                    #[trigger] out@[n + k],
                ),
        decreases params.len() - j,
    {
        proof {
            assert(params@.take(j + 1).drop_last() =~= params@.take(j as int));
        }
        if !matches!(params[j].kind, ParamKind::Lifetime) {
            let ghost before = out@;
            out.push(generic_param(&params[j]));
            proof {
                let ghost m = params_of_kind(params@.take(j as int), false).len();
                assert forall|k: int| 0 <= k < m + 1 implies param_of(
                    params_of_kind(params@.take(j + 1), false)[k],
                    #[trigger] out@[n + k],
                ) by {
                    if k < m {
                        assert(out@[n + k] == before[n + k]);
                    }
                }
            }
        }
        j += 1;
    }
    assert(params@.take(params.len() as int) =~= params@);
    proof {
        let o = ordered_params(params@);
        assert forall|k: int| 0 <= k < o.len() implies param_of(o[k], #[trigger] out@[k]) by {
            if k >= n {
                assert(out@[n + (k - n)] == out@[k]);
            }
        }
    }
    Generics { params: out, where_clause }
}

fn split_attrs(attrs: &Vec<RawAttr>, outer: bool) -> (r: Vec<String>)
    ensures
        views(r@) == styled_attrs(attrs@, outer),
{
    let mut r: Vec<String> = Vec::new();
    let mut i: usize = 0;
    while i < attrs.len()
        invariant
            i <= attrs.len(),
            views(r@) == styled_attrs(attrs@.take(i as int), outer),
        decreases attrs.len() - i,
    {
        proof {
            assert(attrs@.take(i + 1).drop_last() =~= attrs@.take(i as int));
            assert(attrs@.take(i + 1).last() == attrs@[i as int]);
        }
        if attrs[i].outer == outer {
            r.push(attrs[i].text.clone());
            proof {
                assert(views(r@) =~= styled_attrs(attrs@.take(i as int), outer).push(
                    attrs@[i as int].text@,
                ));
            }
        }
        i += 1;
    }
    assert(attrs@.take(attrs.len() as int) =~= attrs@);
    r
}

fn segments_text(segs: &Vec<RawSegment>, from: usize, to: usize) -> (r: String)
    requires
        from <= to <= segs.len(),
    ensures
        r@ == segments_prefix(segs@.subrange(from as int, to as int)),
{
    let mut r = String::new();
    let mut i: usize = from;
    while i < to
        invariant
            from <= i <= to,
            to <= segs.len(),
            r@ == segments_prefix(segs@.subrange(from as int, i as int)),
        decreases to - i,
    {
        proof {
            assert(segs@.subrange(from as int, i + 1).drop_last() =~= segs@.subrange(
                from as int,
                i as int,
            ));
        }
        let ghost before = r@;
        r.append(segs[i].ident.as_str());
        r.append(segs[i].args.as_str());
        r.append("::");
        assert(r@ =~= before + segment_text(segs@[i as int]) + "::"@);
        i += 1;
    }
    r
}

fn segment_list(segs: &Vec<RawSegment>, n: usize) -> (r: Vec<String>)
    requires
        n <= segs.len(),
    ensures
        views(r@) == segment_texts(segs@.take(n as int)),
{
    let mut r: Vec<String> = Vec::new();
    let mut i: usize = 0;
    while i < n
        invariant
            i <= n <= segs.len(),
            r@.len() == i,
            forall|k: int| 0 <= k < i ==> #[trigger] r@[k]@ == segment_text(segs@[k]),
        decreases n - i,
    {
        let mut t = segs[i].ident.clone();
        t.append(segs[i].args.as_str());
        r.push(t);
        i += 1;
    }
    assert(views(r@) =~= segment_texts(segs@.take(n as int)));
    r
}

/// A type path split around its last segment's name, when it has a last
/// segment after its qualified self.
pub fn split_type_path(tp: &RawTypePath) -> (r: Option<TypePath>)
    ensures
        splittable(*tp) ==> (r matches Some(p) && p.prefix@ == path_prefix(*tp) && p.ident@
            == tp.segments@.last().ident@ && p.args@ == tp.segments@.last().args@),
        !splittable(*tp) ==> r is None,
{
    let n = tp.segments.len();
    if n == 0 {
        return None;
    }
    let lead = if tp.leading_colon {
        String::from_str("::")
    } else {
        String::new()
    };
    assert(lead@ == leading_text(tp.leading_colon));
    let mut prefix = String::new();
    let mut start: usize = 0;
    match &tp.qself {
        Some(q) => {
            if q.position >= n {
                return None;
            }
            prefix.append("<");
            prefix.append(q.ty.as_str());
            let mut head = String::new();
            if q.position > 0 {
                head.append(" as ");
                head.append(lead.as_str());
                let texts = segment_list(&tp.segments, q.position);
                let joined = join_strings(&texts, "::");
                head.append(joined.as_str());
            }
            prefix.append(head.as_str());
            prefix.append(">::");
            start = q.position;
        },
        None => {
            prefix.append(lead.as_str());
        },
    }
    let rest = segments_text(&tp.segments, start, n - 1);
    prefix.append(rest.as_str());
    assert(prefix@ =~= path_prefix(*tp));
    let last = &tp.segments[n - 1];
    Some(TypePath { prefix, ident: last.ident.clone(), args: last.args.clone() })
}

fn self_ty_from(t: &RawType, text: String) -> (s: SelfTy)
    ensures
        self_ty_of(*t, text@, s),
{
    match t {
        RawType::Path(tp) => match split_type_path(tp) {
            Some(p) => SelfTy::Path(p),
            None => SelfTy::Other(text),
        },
        RawType::Other => SelfTy::Other(text),
    }
}

fn output_from(o: &Option<RawType>) -> (x: ReturnTy)
    ensures
        output_of(*o, x),
{
    match o {
        None => ReturnTy::Default,
        Some(RawType::Other) => ReturnTy::Type(TypeShape::Other),
        Some(RawType::Path(tp)) => {
            if !tp.leading_colon && tp.segments.len() == 1 && tp.segments[0].args.as_str().is_empty() {
                ReturnTy::Type(TypeShape::Path { ident: Some(tp.segments[0].ident.clone()) })
            } else {
                ReturnTy::Type(TypeShape::Path { ident: None })
            }
        },
    }
}

fn input_from(r: &RawInput) -> (x: FnInput)
    ensures
        input_of(*r, x),
{
    match r {
        RawInput::Receiver => FnInput::Receiver,
        RawInput::Typed(None) => FnInput::Typed(Pattern::Other),
        RawInput::Typed(Some(n)) => FnInput::Typed(Pattern::Ident(n.clone())),
    }
}

/// The description of a method.
pub fn fn_def(m: RawMethod) -> (f: FnDef)
    ensures
        fn_def_of(m, f),
{
    let RawMethod { syntax, signature, inputs, output } = m;
    let mut xs: Vec<FnInput> = Vec::new();
    let mut i: usize = 0;
    while i < inputs.len()
        invariant
            i <= inputs.len(),
            xs@.len() == i,
            forall|k: int| 0 <= k < i ==> input_of(inputs@[k], #[trigger] xs@[k]),
        decreases inputs.len() - i,
    {
        xs.push(input_from(&inputs[i]));
        i += 1;
    }
    let out = output_from(&output);
    FnDef {
        attrs: syntax.attrs,
        vis: vis_from(syntax.vis),
        defaultness: syntax.defaultness,
        asyncness: signature.asyncness,
        constness: signature.constness,
        ident: signature.ident,
        sig: syntax.sig,
        inputs: xs,
        output: out,
    }
}

fn member_from(m: RawMember) -> (x: ImplMember)
    ensures
        member_of(m, x),
{
    let RawMember { text, method } = m;
    let kind = match method {
        Some(f) => MemberKind::Fn(fn_def(f)),
        None => MemberKind::Other,
    };
    ImplMember { kind, text }
}

/// The description of an enum.
pub fn enum_def(e: RawEnum) -> (d: EnumDef)
    ensures
        enum_def_of(e, d),
{
    let RawEnum { attrs, vis, ident, params, where_clause, variants } = e;
    let generics = generics_from(&params, where_clause);
    EnumDef { attrs, vis: vis_from(vis), ident, generics, variants }
}

/// The description of an impl block.
pub fn impl_def(i: RawImpl) -> (d: ImplDef)
    ensures
        impl_def_of(i, d),
{
    let RawImpl {
        attrs,
        defaultness,
        unsafety,
        params,
        where_clause,
        trait_,
        self_text,
        self_ty,
        items,
    } = i;
    let outer = split_attrs(&attrs, true);
    let inner = split_attrs(&attrs, false);
    let generics = generics_from(&params, where_clause);
    let st = self_ty_from(&self_ty, self_text);
    let ghost orig = items@;
    assert(orig.len() == items.len());
    let mut rest = items;
    let mut out: Vec<ImplMember> = Vec::new();
    let mut k: usize = 0;
    while rest.len() > 0
        invariant
            k <= orig.len() <= usize::MAX,
            rest@ == orig.skip(k as int),
            out@.len() == k,
            forall|j: int| 0 <= j < k ==> member_of(orig[j], #[trigger] out@[j]),
        decreases rest.len(),
    {
        let m = rest.remove(0);
        assert(rest@ =~= orig.skip(k + 1));
        out.push(member_from(m));
        k += 1;
    }
    assert(k == orig.len());
    ImplDef {
        attrs: outer,
        inner_attrs: inner,
        defaultness,
        unsafety,
        generics,
        trait_,
        self_ty: st,
        items: out,
    }
}

/// The description of the annotated item that the expansion works on.
pub fn source_item(raw: RawItem) -> (s: SourceItem)
    ensures
        source_of(raw, s),
{
    match raw {
        RawItem::Enum(e) => SourceItem::Enum(enum_def(e)),
        RawItem::Impl(i) => SourceItem::Impl(impl_def(i)),
        RawItem::Other => SourceItem::Other,
    }
}

/// A visibility read from its text is written back as that text.
pub proof fn lemma_vis_text(v: Vis, t: Seq<char>)
    requires
        vis_of(v, t),
    ensures
        vis_text(v) == t,
        (v is Public) <==> t == "pub"@,
{
    reveal_strlit("pub");
    if v is Inherited {
        assert(t =~= Seq::<char>::empty());
    }
}

/// Two descriptions of the same generics write the same texts.
pub proof fn lemma_generics_texts(ps: Seq<RawParam>, w: Seq<char>, g1: Generics, g2: Generics)
    requires
        generics_of(ps, w, g1),
        generics_of(ps, w, g2),
    ensures
        forall|f: GenericsForm| #[trigger] param_texts(g1.params@, f) == param_texts(g2.params@, f),
        forall|f: GenericsForm| #[trigger] generics_text(g1.params@, f) == generics_text(g2.params@, f),
        ref_generics_text(g1.params@) == ref_generics_text(g2.params@),
        g1.where_clause@ == g2.where_clause@,
{
    assert forall|f: GenericsForm| #[trigger] param_texts(g1.params@, f) == param_texts(g2.params@, f) by {
        let o = ordered_params(ps);
        assert forall|i: int| 0 <= i < g1.params@.len() implies param_text(g1.params@[i], f)
            == param_text(g2.params@[i], f) by {
            assert(param_of(o[i], g1.params@[i]));
            assert(param_of(o[i], g2.params@[i]));
        }
        assert(param_texts(g1.params@, f) =~= param_texts(g2.params@, f));
    }
    assert(param_texts(g1.params@, GenericsForm::Impl) == param_texts(g2.params@, GenericsForm::Impl));
}

/// Two descriptions of the same enum expand alike.
pub proof fn lemma_enum_description_expands_alike(e: RawEnum, d1: EnumDef, d2: EnumDef, args: OpaqueArgs)
    requires
        enum_def_of(e, d1),
        enum_def_of(e, d2),
    ensures
        enum_expansion(args, d1) == enum_expansion(args, d2),
{
    lemma_vis_text(d1.vis, e.vis@);
    lemma_vis_text(d2.vis, e.vis@);
    lemma_generics_texts(e.params@, e.where_clause@, d1.generics, d2.generics);
    assert(generics_text(d1.generics.params@, GenericsForm::Decl) == generics_text(d2.generics.params@, GenericsForm::Decl));
    assert(generics_text(d1.generics.params@, GenericsForm::Impl) == generics_text(d2.generics.params@, GenericsForm::Impl));
    assert(generics_text(d1.generics.params@, GenericsForm::Args) == generics_text(d2.generics.params@, GenericsForm::Args));
}

proof fn lemma_function_args_alike(raw: Seq<RawInput>, a: Seq<FnInput>, b: Seq<FnInput>)
    requires
        a.len() == raw.len(),
        b.len() == raw.len(),
        forall|k: int| 0 <= k < raw.len() ==> input_of(raw[k], #[trigger] a[k]),
        forall|k: int| 0 <= k < raw.len() ==> input_of(raw[k], #[trigger] b[k]),
    ensures
        spec_function_args(a) == spec_function_args(b),
        spec_has_receiver(a) == spec_has_receiver(b),
    decreases raw.len(),
{
    if raw.len() > 0 {
        assert(input_of(raw[0], a[0]) && input_of(raw[0], b[0]));
        let n = raw.len() - 1;
        assert forall|k: int| 0 <= k < n implies input_of(raw.drop_last()[k], #[trigger] a.drop_last()[k]) by {
            assert(input_of(raw[k], a[k]));
        }
        assert forall|k: int| 0 <= k < n implies input_of(raw.drop_last()[k], #[trigger] b.drop_last()[k]) by {
            assert(input_of(raw[k], b[k]));
        }
        lemma_function_args_alike(raw.drop_last(), a.drop_last(), b.drop_last());
        assert(input_of(raw[n], a[n]) && input_of(raw[n], b[n]));
    }
}

proof fn lemma_method_wraps_alike(m: RawMethod, f1: FnDef, f2: FnDef, t: Option<TraitRef>, it: Seq<char>)
    requires
        fn_def_of(m, f1),
        fn_def_of(m, f2),
    ensures
        spec_wrapper_fn(t, it, f1) == spec_wrapper_fn(t, it, f2),
{
    lemma_vis_text(f1.vis, m.syntax.vis@);
    lemma_vis_text(f2.vis, m.syntax.vis@);
    lemma_function_args_alike(m.inputs@, f1.inputs@, f2.inputs@);
    assert(is_self_return(f1.output) == is_self_return(f2.output));
}

proof fn lemma_wrappers_alike(
    raw: Seq<RawMember>,
    a: Seq<ImplMember>,
    b: Seq<ImplMember>,
    t: Option<TraitRef>,
    it: Seq<char>,
)
    requires
        a.len() == raw.len(),
        b.len() == raw.len(),
        forall|k: int| 0 <= k < raw.len() ==> member_of(raw[k], #[trigger] a[k]),
        forall|k: int| 0 <= k < raw.len() ==> member_of(raw[k], #[trigger] b[k]),
    ensures
        spec_wrappers(t, it, a) == spec_wrappers(t, it, b),
    decreases raw.len(),
{
    if raw.len() > 0 {
        let n = raw.len() - 1;
        assert forall|k: int| 0 <= k < n implies member_of(raw.drop_last()[k], #[trigger] a.drop_last()[k]) by {
            assert(member_of(raw[k], a[k]));
        }
        assert forall|k: int| 0 <= k < n implies member_of(raw.drop_last()[k], #[trigger] b.drop_last()[k]) by {
            assert(member_of(raw[k], b[k]));
        }
        lemma_wrappers_alike(raw.drop_last(), a.drop_last(), b.drop_last(), t, it);
        assert(member_of(raw[n], a[n]) && member_of(raw[n], b[n]));
        match raw[n].method {
            Some(f) => {
                let (g1, g2) = (a[n].kind->Fn_0, b[n].kind->Fn_0);
                lemma_method_wraps_alike(f, g1, g2, t, it);
            },
            None => {},
        }
    }
}

/// Two descriptions of the same impl block expand alike.
pub proof fn lemma_impl_description_expands_alike(i: RawImpl, d1: ImplDef, d2: ImplDef)
    requires
        impl_def_of(i, d1),
        impl_def_of(i, d2),
    ensures
        impl_expansion(d1) == impl_expansion(d2),
{
    lemma_generics_texts(i.params@, i.where_clause@, d1.generics, d2.generics);
    assert(generics_text(d1.generics.params@, GenericsForm::Decl) == generics_text(d2.generics.params@, GenericsForm::Decl));
    assert(d1.items@.map_values(|m: ImplMember| m.text@) =~= d2.items@.map_values(|m: ImplMember| m.text@)) by {
        assert forall|k: int| 0 <= k < d1.items@.len() implies d1.items@[k].text@ == d2.items@[k].text@ by {
            assert(member_of(i.items@[k], d1.items@[k]));
            assert(member_of(i.items@[k], d2.items@[k]));
        }
    }
    match (d1.self_ty, d2.self_ty) {
        (SelfTy::Path(p1), SelfTy::Path(p2)) => {
            lemma_wrappers_alike(i.items@, d1.items@, d2.items@, d1.trait_, p1.prefix@ + crate::enum_expand::inner_name(p1.ident@) + p1.args@);
        },
        _ => {},
    }
}

/// Two descriptions of the same item expand alike, whatever the arguments.
pub proof fn lemma_description_expands_alike(raw: RawItem, s1: SourceItem, s2: SourceItem, args: Result<OpaqueArgs, ArgError>)
    requires
        source_of(raw, s1),
        source_of(raw, s2),
    ensures
        expansion_from(args, s1) == expansion_from(args, s2),
{
    match raw {
        RawItem::Enum(e) => {
            if let Ok(a) = args {
                lemma_enum_description_expands_alike(e, s1->Enum_0, s2->Enum_0, a);
            }
        },
        RawItem::Impl(i) => {
            lemma_impl_description_expands_alike(i, s1->Impl_0, s2->Impl_0);
        },
        RawItem::Other => {},
    }
}

} // verus!
