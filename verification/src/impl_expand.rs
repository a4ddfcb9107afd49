//! What `#[opaque_enum]` turns an impl block into: the same impl for the
//! hidden enum, and an impl for the public type whose methods project their
//! receiver and forward to it.
use vstd::prelude::*;
use crate::enum_expand::inner_name;
use crate::error::{ExpandError, MemberFault};
use crate::model::{
    generics_text, render_generics, render_self_ty, render_type_path, render_vis, self_ty_text,
    type_path_text, vis_text, FnDef, FnInput, GenericsForm, ImplDef, ImplMember, MemberKind, Pattern,
    ReturnTy, SelfTy, TraitRef, TypePath, TypeShape,
};
use crate::text::{join, join_strings, lemma_views_push, views};

verus! {

/// The impl block's self type, when it is a type path.
pub fn self_type_path(ty: &SelfTy) -> (r: Option<&TypePath>)
    ensures
        match *ty {
            SelfTy::Path(p) => r == Some(&p),
            SelfTy::Other(_) => r is None,
        },
{
    match ty {
        SelfTy::Path(p) => Some(p),
        SelfTy::Other(_) => None,
    }
}

/// The hidden enum's type for a public type path: the same path with
/// `Inner` appended to the last segment's name, arguments kept.
pub fn inner_ty(type_path: &TypePath) -> (r: TypePath)
    ensures
        r.prefix == type_path.prefix,
        r.ident@ == inner_name(type_path.ident@),
        r.args == type_path.args,
{
    let mut ident = type_path.ident.clone();
    ident.append("Inner");
    TypePath { prefix: type_path.prefix.clone(), ident, args: type_path.args.clone() }
}

/// The impl block retargeted at the hidden enum: everything as written but
/// the self type.
pub fn inner_impl(item: ImplDef, inner_ty: TypePath) -> (r: ImplDef)
    ensures
        r.attrs == item.attrs,
        r.inner_attrs == item.inner_attrs,
        r.defaultness == item.defaultness,
        r.unsafety == item.unsafety,
        r.generics == item.generics,
        r.trait_ == item.trait_,
        r.items == item.items,
        r.self_ty == SelfTy::Path(inner_ty),
{
    ImplDef {
        attrs: item.attrs,
        inner_attrs: item.inner_attrs,
        defaultness: item.defaultness,
        unsafety: item.unsafety,
        generics: item.generics,
        trait_: item.trait_,
        self_ty: SelfTy::Path(inner_ty),
        items: item.items,
    }
}

/// Whether a signature starts with a `self` receiver.
pub open spec fn spec_has_receiver(inputs: Seq<FnInput>) -> bool {
    inputs.len() > 0 && inputs[0] is Receiver
}

/// Whether the method takes a `self` receiver.
pub fn has_receiver(function: &FnDef) -> (r: bool)
    ensures
        r == spec_has_receiver(function.inputs@),
{
    function.inputs.len() > 0 && matches!(function.inputs[0], FnInput::Receiver)
}

/// Whether a type is exactly the path `Self`.
pub open spec fn is_self_type(t: TypeShape) -> bool {
    match t {
        TypeShape::Path { ident: Some(i) } => i@ == "Self"@,
        _ => false,
    }
}

/// Whether a return type is exactly `Self`; `&Self`, `Option<Self>` and the
/// like are not.
pub open spec fn is_self_return(o: ReturnTy) -> bool {
    match o {
        ReturnTy::Type(t) => is_self_type(t),
        ReturnTy::Default => false,
    }
}

/// Tells whether a type is exactly the path `Self`.
pub fn type_is_self(ty: &TypeShape) -> (r: bool)
    ensures
        r == is_self_type(*ty),
{
    match ty {
        TypeShape::Path { ident: Some(i) } => *i == String::from_str("Self"),
        _ => false,
    }
}

/// Tells whether a return type is exactly `Self`.
pub fn returns_self(output: &ReturnTy) -> (r: bool)
    ensures
        r == is_self_return(*output),
{
    match output {
        ReturnTy::Type(t) => type_is_self(t),
        ReturnTy::Default => false,
    }
}

/// The names of a signature's typed parameters, in order; or the index of
/// the first input whose pattern is not a plain identifier.
pub open spec fn spec_function_args(inputs: Seq<FnInput>) -> Result<Seq<Seq<char>>, usize>
    decreases inputs.len(),
{
    if inputs.len() == 0 {
        Ok(Seq::empty())
    } else {
        match spec_function_args(inputs.drop_last()) {
            Err(j) => Err(j),
            Ok(names) => match inputs.last() {
                FnInput::Receiver => Ok(names),
                FnInput::Typed(Pattern::Ident(s)) => Ok(names.push(s@)),
                FnInput::Typed(Pattern::Other) => Err((inputs.len() - 1) as usize),
            },
        }
    }
}

proof fn lemma_function_args_error_stays(inputs: Seq<FnInput>, k: int, j: usize)
    requires
        0 <= k <= inputs.len(),
        spec_function_args(inputs.take(k)) == Err::<Seq<Seq<char>>, usize>(j),
    ensures
        spec_function_args(inputs) == Err::<Seq<Seq<char>>, usize>(j),
    decreases inputs.len() - k,
{
    if k < inputs.len() {
        assert(inputs.take(k + 1).drop_last() =~= inputs.take(k));
        lemma_function_args_error_stays(inputs, k + 1, j);
    } else {
        assert(inputs.take(k) =~= inputs);
    }
}

/// The names the forwarding call passes on, or the index of the first
/// input that is not a plain identifier.
pub fn function_args(function: &FnDef) -> (r: Result<Vec<String>, usize>)
    ensures
        match r {
            Ok(v) => spec_function_args(function.inputs@) == Ok::<Seq<Seq<char>>, usize>(views(v@)),
            Err(j) => spec_function_args(function.inputs@) == Err::<Seq<Seq<char>>, usize>(j),
        },
{
    let inputs = &function.inputs;
    let mut names: Vec<String> = Vec::new();
    assert(views(names@) =~= Seq::<Seq<char>>::empty());
    let mut i: usize = 0;
    while i < inputs.len()
        invariant
            i <= inputs.len(),
            inputs@ == function.inputs@,
            spec_function_args(inputs@.take(i as int)) == Ok::<Seq<Seq<char>>, usize>(views(names@)),
        decreases inputs.len() - i,
    {
        proof {
            assert(inputs@.take(i + 1).drop_last() =~= inputs@.take(i as int));
            assert(inputs@.take(i + 1).last() == inputs@[i as int]);
        }
        match &inputs[i] {
            FnInput::Receiver => {},
            FnInput::Typed(Pattern::Ident(s)) => {
                let ghost before = names@;
                let c = s.clone();
                names.push(c);
                proof {
                    lemma_views_push(before, c);
                }
            },
            FnInput::Typed(Pattern::Other) => {
                proof {
                    lemma_function_args_error_stays(inputs@, i + 1, i);
                }
                return Err(i);
            },
        }
        i += 1;
    }
    assert(inputs@.take(inputs.len() as int) =~= inputs@);
    Ok(names)
}

/// The argument that hands the receiver to the inner method: the receiver
/// projected onto the hidden enum's type.
pub open spec fn receiver_arg_text(inner_ty: Seq<char>) -> Seq<char> {
    "::opaque_enum::OpaqueProject::<"@ + inner_ty + ">::project(self)"@
}

/// The arguments of the forwarding call.
pub open spec fn call_args(inner_ty: Seq<char>, receiver: bool, args: Seq<Seq<char>>) -> Seq<Seq<char>> {
    if receiver {
        seq![receiver_arg_text(inner_ty)] + args
    } else {
        args
    }
}

/// The call of the inner method, through the trait when the impl is a trait
/// impl.
pub open spec fn inner_call_text(
    trait_: Option<TraitRef>,
    inner_ty: Seq<char>,
    method: Seq<char>,
    receiver: bool,
    args: Seq<Seq<char>>,
) -> Seq<char> {
    let callee = match trait_ {
        Some(t) => "<"@ + inner_ty + " as "@ + t.path@ + ">::"@,
        None => "<"@ + inner_ty + ">::"@,
    };
    callee + method + "("@ + join(call_args(inner_ty, receiver, args), ", "@) + ")"@
}

/// Writes the call of the inner method.
pub fn inner_call(
    trait_: &Option<TraitRef>,
    inner_ty: &String,
    method: &String,
    receiver: bool,
    args: &Vec<String>,
) -> (r: String)
    ensures
        r@ == inner_call_text(*trait_, inner_ty@, method@, receiver, views(args@)),
{
    let mut parts: Vec<String> = Vec::new();
    if receiver {
        let mut a = String::from_str("::opaque_enum::OpaqueProject::<");
        a.append(inner_ty.as_str());
        a.append(">::project(self)");
        parts.push(a);
    }
    let ghost head = views(parts@);
    assert(views(parts@) =~= head + views(args@).take(0));
    let mut i: usize = 0;
    while i < args.len()
        invariant
            i <= args.len(),
            views(parts@) == head + views(args@).take(i as int),
        decreases args.len() - i,
    {
        let ghost before = parts@;
        let c = args[i].clone();
        parts.push(c);
        proof {
            assert(views(args@).take(i + 1) =~= views(args@).take(i as int).push(args@[i as int]@));
            lemma_views_push(before, c);
        }
        i += 1;
    }
    assert(views(args@).take(args.len() as int) =~= views(args@));
    assert(views(parts@) =~= call_args(inner_ty@, receiver, views(args@)));
    let mut r = String::from_str("<");
    r.append(inner_ty.as_str());
    match trait_ {
        Some(t) => {
            r.append(" as ");
            r.append(t.path.as_str());
            r.append(">::");
        },
        None => {
            r.append(">::");
        },
    }
    r.append(method.as_str());
    r.append("(");
    let joined = join_strings(&parts, ", ");
    r.append(joined.as_str());
    r.append(")");
    r
}

/// The body of a forwarding method: the call, converted into the public
/// type when the method returns `Self`.
pub open spec fn wrapper_body_text(call: Seq<char>, wraps: bool) -> Seq<char> {
    if wraps {
        "{ ::std::convert::Into::into("@ + call + ") }"@
    } else {
        "{ "@ + call + " }"@
    }
}

/// The forwarding method for `f`, or why there is none.
pub open spec fn spec_wrapper_fn(trait_: Option<TraitRef>, inner_ty: Seq<char>, f: FnDef) -> Result<
    Seq<char>,
    MemberFault,
> {
    if f.asyncness {
        Err(MemberFault::Async)
    } else if f.constness {
        Err(MemberFault::Const)
    } else {
        match spec_function_args(f.inputs@) {
            Err(j) => Err(MemberFault::ComplexArgument(j)),
            Ok(args) => Ok(
                join(views(f.attrs@), " "@) + " "@ + default_text(f.defaultness) + vis_text(f.vis) + " "@ + f.sig@ + " "@ + wrapper_body_text(
                    inner_call_text(trait_, inner_ty, f.ident@, spec_has_receiver(f.inputs@), args),
                    is_self_return(f.output),
                ),
            ),
        }
    }
}

/// Writes the forwarding method: the same attributes, visibility and
/// signature, with a body that projects the receiver and calls the method of
/// the hidden enum.
pub fn wrapper_fn(trait_: &Option<TraitRef>, inner_ty: &String, function: &FnDef) -> (r: Result<
    String,
    MemberFault,
>)
    ensures
        match r {
            Ok(s) => spec_wrapper_fn(*trait_, inner_ty@, *function) == Ok::<Seq<char>, MemberFault>(s@),
            Err(e) => spec_wrapper_fn(*trait_, inner_ty@, *function) == Err::<Seq<char>, MemberFault>(e),
        },
{
    if function.asyncness {
        return Err(MemberFault::Async);
    }
    if function.constness {
        return Err(MemberFault::Const);
    }
    let args = match function_args(function) {
        Ok(a) => a,
        Err(j) => return Err(MemberFault::ComplexArgument(j)),
    };
    let receiver = has_receiver(function);
    let call = inner_call(trait_, inner_ty, &function.ident, receiver, &args);
    let mut r = join_strings(&function.attrs, " ");
    r.append(" ");
    if function.defaultness {
        r.append("default ");
    }
    let vis = render_vis(&function.vis);
    r.append(vis.as_str());
    r.append(" ");
    r.append(function.sig.as_str());
    r.append(" ");
    if returns_self(&function.output) {
        r.append("{ ::std::convert::Into::into(");
        r.append(call.as_str());
        r.append(") }");
    } else {
        r.append("{ ");
        r.append(call.as_str());
        r.append(" }");
    }
    assert(r@ =~= join(views(function.attrs@), " "@) + " "@ + default_text(function.defaultness) + vis_text(
        function.vis,
    ) + " "@ + function.sig@ + " "@ + wrapper_body_text(call@, is_self_return(function.output)));
    Ok(r)
}

/// The forwarding item for one member of the impl block, or why there is none.
pub open spec fn spec_wrapper_item(trait_: Option<TraitRef>, inner_ty: Seq<char>, m: ImplMember) -> Result<
    Seq<char>,
    MemberFault,
> {
    match m.kind {
        MemberKind::Fn(f) => spec_wrapper_fn(trait_, inner_ty, f),
        MemberKind::Other => Err(MemberFault::NotMethod),
    }
}

/// Writes the forwarding item for one member of the impl block; only methods
/// can be forwarded.
pub fn wrapper_item(trait_: &Option<TraitRef>, inner_ty: &String, item: &ImplMember) -> (r: Result<
    String,
    MemberFault,
>)
    ensures
        match r {
            Ok(s) => spec_wrapper_item(*trait_, inner_ty@, *item) == Ok::<Seq<char>, MemberFault>(s@),
            Err(e) => spec_wrapper_item(*trait_, inner_ty@, *item) == Err::<Seq<char>, MemberFault>(e),
        },
{
    match &item.kind {
        MemberKind::Fn(f) => wrapper_fn(trait_, inner_ty, f),
        MemberKind::Other => Err(MemberFault::NotMethod),
    }
}

/// The forwarding items of all members, or the first member (by index) that
/// cannot be forwarded and why.
pub open spec fn spec_wrappers(trait_: Option<TraitRef>, inner_ty: Seq<char>, items: Seq<ImplMember>) -> Result<
    Seq<Seq<char>>,
    (usize, MemberFault),
>
    decreases items.len(),
{
    if items.len() == 0 {
        Ok(Seq::empty())
    } else {
        match spec_wrappers(trait_, inner_ty, items.drop_last()) {
            Err(e) => Err(e),
            Ok(ws) => match spec_wrapper_item(trait_, inner_ty, items.last()) {
                Err(f) => Err(((items.len() - 1) as usize, f)),
                Ok(w) => Ok(ws.push(w)),
            },
        }
    }
}

proof fn lemma_wrappers_error_stays(
    trait_: Option<TraitRef>,
    inner_ty: Seq<char>,
    items: Seq<ImplMember>,
    k: int,
    e: (usize, MemberFault),
)
    requires
        0 <= k <= items.len(),
        spec_wrappers(trait_, inner_ty, items.take(k)) == Err::<Seq<Seq<char>>, (usize, MemberFault)>(e),
    ensures
        spec_wrappers(trait_, inner_ty, items) == Err::<Seq<Seq<char>>, (usize, MemberFault)>(e),
    decreases items.len() - k,
{
    if k < items.len() {
        assert(items.take(k + 1).drop_last() =~= items.take(k));
        lemma_wrappers_error_stays(trait_, inner_ty, items, k + 1, e);
    } else {
        assert(items.take(k) =~= items);
    }
}

/// `default ` for an item marked `default`, else nothing.
pub open spec fn default_text(present: bool) -> Seq<char> {
    if present {
        "default "@
    } else {
        Seq::empty()
    }
}

/// `unsafe ` for an `unsafe` impl, else nothing.
pub open spec fn unsafe_text(present: bool) -> Seq<char> {
    if present {
        "unsafe "@
    } else {
        Seq::empty()
    }
}

/// The trait part of an impl header: `Trait for `, `!Trait for `, or nothing.
pub open spec fn trait_part_text(t: Option<TraitRef>) -> Seq<char> {
    match t {
        Some(t) => (if t.bang {
            "!"@
        } else {
            Seq::empty()
        }) + t.path@ + " for "@,
        None => Seq::empty(),
    }
}

/// An impl header up to its self type.
pub open spec fn impl_head_text(item: ImplDef) -> Seq<char> {
    default_text(item.defaultness) + unsafe_text(item.unsafety) + "impl"@
        + generics_text(item.generics.params@, GenericsForm::Decl) + " "@ + trait_part_text(item.trait_)
}

/// The impl for the public type: every attribute, the same header with its
/// `where` clause, and the forwarding methods.
pub open spec fn public_impl_text(item: ImplDef, wrappers: Seq<Seq<char>>) -> Seq<char> {
    join(views(item.attrs@) + views(item.inner_attrs@), " "@) + " "@ + impl_head_text(item) + self_ty_text(
        item.self_ty,
    ) + " "@ + item.generics.where_clause@ + " { "@ + join(wrappers, " "@) + " } "@
}

/// The impl block as written, with `self_ty` standing for its self type.
pub open spec fn impl_text_for(item: ImplDef, self_ty: Seq<char>) -> Seq<char> {
    join(views(item.attrs@), " "@) + " "@ + impl_head_text(item) + self_ty + " "@ + item.generics.where_clause@
        + " { "@ + join(views(item.inner_attrs@), " "@) + " "@ + join(
        item.items@.map_values(|m: ImplMember| m.text@),
        " "@,
    ) + " } "@
}

/// The impl block as written.
pub open spec fn impl_text(item: ImplDef) -> Seq<char> {
    impl_text_for(item, self_ty_text(item.self_ty))
}

/// The text of the hidden enum's type behind a public type path.
pub open spec fn inner_path_text(p: TypePath) -> Seq<char> {
    p.prefix@ + inner_name(p.ident@) + p.args@
}

/// Everything an annotated impl block expands to, or why it is refused: the
/// self type must be a type path and every member a forwardable method.
pub open spec fn impl_expansion(item: ImplDef) -> Result<Seq<char>, ExpandError> {
    match item.self_ty {
        SelfTy::Other(_) => Err(ExpandError::SelfTypeNotPath),
        SelfTy::Path(p) => {
            let it = inner_path_text(p);
            match spec_wrappers(item.trait_, it, item.items@) {
                Err(e) => Err(ExpandError::Member { index: e.0, fault: e.1 }),
                Ok(ws) => Ok(public_impl_text(item, ws) + impl_text_for(item, it)),
            }
        },
    }
}

fn render_head(item: &ImplDef) -> (r: String)
    ensures
        r@ == impl_head_text(*item),
{
    let mut r = String::new();
    if item.defaultness {
        r.append("default ");
    }
    if item.unsafety {
        r.append("unsafe ");
    }
    r.append("impl");
    let g = render_generics(&item.generics.params, GenericsForm::Decl);
    r.append(g.as_str());
    r.append(" ");
    match &item.trait_ {
        Some(t) => {
            if t.bang {
                r.append("!");
            }
            r.append(t.path.as_str());
            r.append(" for ");
        },
        None => {},
    }
    r
}

fn concat_vecs(a: &Vec<String>, b: &Vec<String>) -> (r: Vec<String>)
    ensures
        views(r@) == views(a@) + views(b@),
{
    let mut r: Vec<String> = Vec::new();
    assert(views(r@) =~= views(a@).take(0));
    let mut i: usize = 0;
    while i < a.len()
        invariant
            i <= a.len(),
            views(r@) == views(a@).take(i as int),
        decreases a.len() - i,
    {
        let ghost before = r@;
        let c = a[i].clone();
        r.push(c);
        proof {
            assert(views(a@).take(i + 1) =~= views(a@).take(i as int).push(a@[i as int]@));
            lemma_views_push(before, c);
        }
        i += 1;
    }
    assert(views(a@).take(a.len() as int) =~= views(a@));
    assert(views(r@) =~= views(a@) + views(b@).take(0));
    let mut j: usize = 0;
    while j < b.len()
        invariant
            j <= b.len(),
            views(r@) == views(a@) + views(b@).take(j as int),
        decreases b.len() - j,
    {
        let ghost before = r@;
        let c = b[j].clone();
        r.push(c);
        proof {
            assert(views(b@).take(j + 1) =~= views(b@).take(j as int).push(b@[j as int]@));
            lemma_views_push(before, c);
        }
        j += 1;
    }
    assert(views(b@).take(b.len() as int) =~= views(b@));
    r
}

/// Writes the impl block as written.
pub fn render_impl(item: &ImplDef) -> (r: String)
    ensures
        r@ == impl_text(*item),
{
    let mut r = join_strings(&item.attrs, " ");
    r.append(" ");
    let head = render_head(item);
    r.append(head.as_str());
    let st = render_self_ty(&item.self_ty);
    r.append(st.as_str());
    r.append(" ");
    r.append(item.generics.where_clause.as_str());
    r.append(" { ");
    let ia = join_strings(&item.inner_attrs, " ");
    r.append(ia.as_str());
    r.append(" ");
    let ghost want = item.items@.map_values(|m: ImplMember| m.text@);
    let mut texts: Vec<String> = Vec::new();
    let mut i: usize = 0;
    while i < item.items.len()
        invariant
            i <= item.items.len(),
            want == item.items@.map_values(|m: ImplMember| m.text@),
            texts@.len() == i,
            forall|k: int| 0 <= k < i ==> #[trigger] texts@[k]@ == want[k],
        decreases item.items.len() - i,
    {
        texts.push(item.items[i].text.clone());
        i += 1;
    }
    assert(views(texts@) =~= want);
    let body = join_strings(&texts, " ");
    r.append(body.as_str());
    r.append(" } ");
    r
}

/// Expands an annotated impl block.
pub fn expand_impl(item: ImplDef) -> (r: Result<String, ExpandError>)
    ensures
        match r {
            Ok(s) => impl_expansion(item) == Ok::<Seq<char>, ExpandError>(s@),
            Err(e) => impl_expansion(item) == Err::<Seq<char>, ExpandError>(e),
        },
{
    let ity = match self_type_path(&item.self_ty) {
        Some(tp) => inner_ty(tp),
        None => return Err(ExpandError::SelfTypeNotPath),
    };
    let it = render_type_path(&ity);
    let ghost p = item.self_ty->Path_0;
    assert(it@ == inner_path_text(p));
    let mut wrappers: Vec<String> = Vec::new();
    assert(views(wrappers@) =~= Seq::<Seq<char>>::empty());
    let mut i: usize = 0;
    while i < item.items.len()
        invariant
            i <= item.items.len(),
            item.self_ty is Path,
            it@ == inner_path_text(item.self_ty->Path_0),
            spec_wrappers(item.trait_, it@, item.items@.take(i as int)) == Ok::<
                Seq<Seq<char>>,
                (usize, MemberFault),
            >(views(wrappers@)),
        decreases item.items.len() - i,
    {
        proof {
            assert(item.items@.take(i + 1).drop_last() =~= item.items@.take(i as int));
            assert(item.items@.take(i + 1).last() == item.items@[i as int]);
        }
        match wrapper_item(&item.trait_, &it, &item.items[i]) {
            Ok(w) => {
                let ghost before = wrappers@;
                let ghost wv = w;
                wrappers.push(w);
                proof {
                    lemma_views_push(before, wv);
                }
            },
            Err(f) => {
                proof {
                    lemma_wrappers_error_stays(item.trait_, it@, item.items@, i + 1, (i, f));
                }
                return Err(ExpandError::Member { index: i, fault: f });
            },
        }
        i += 1;
    }
    assert(item.items@.take(item.items.len() as int) =~= item.items@);
    let all = concat_vecs(&item.attrs, &item.inner_attrs);
    let mut r = join_strings(&all, " ");
    r.append(" ");
    let head = render_head(&item);
    r.append(head.as_str());
    let st = render_self_ty(&item.self_ty);
    r.append(st.as_str());
    r.append(" ");
    r.append(item.generics.where_clause.as_str());
    r.append(" { ");
    let ws = join_strings(&wrappers, " ");
    r.append(ws.as_str());
    r.append(" } ");
    let ghost written = item;
    let inner = inner_impl(item, ity);
    assert(impl_text(inner) == impl_text_for(written, it@));
    let inner_text = render_impl(&inner);
    r.append(inner_text.as_str());
    assert(r@ =~= public_impl_text(written, views(wrappers@)) + impl_text_for(written, it@));
    Ok(r)
}

} // verus!
