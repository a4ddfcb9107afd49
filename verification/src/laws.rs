//! Properties of the expansion as a whole.
use vstd::prelude::*;
use crate::args::{
    ascii_word, classify_token, word_char, idents_are_ascii_words, spec_parse_args, spec_parse_lexemes, syn_keyword,
    ArgError, ArgErrorKind, ArgSite, ArgToken, Lexeme, OpaqueArgs, Storage,
};
use crate::enum_expand::{
    constructor_text, constructors_text, field_name, inner_name, projections_for, repr_text, Projection,
};
use crate::error::MemberFault;
use crate::expand::{expansion, SourceItem};
use crate::impl_expand::{
    impl_expansion, inner_path_text, spec_function_args, spec_wrapper_item, spec_wrappers,
};
use crate::model::{
    attr_named, attr_texts, selected_attrs, Attr, EnumDef, ImplDef, ImplMember, MemberKind, TraitRef,
    Variant,
};
use crate::text::{decimal, digit_text, join, views};
use crate::enum_expand::{ctor_params_text, ctor_value_text, storage_field_text};
use crate::impl_expand::{default_text, spec_wrapper_fn};
use crate::model::{vis_text, Fields, FnDef, NamedField, Vis};
use crate::reading::{attrs_read, enum_from, AttrReading, EnumReading};
use crate::syntax::RawEnum;

verus! {

/// Whether the token is the identifier `text`.
pub open spec fn is_word(t: Lexeme, text: Seq<char>) -> bool {
    t matches Lexeme::Word { text: w, reserved } && w@ == text && !reserved
}

/// The argument list is accepted exactly when it is empty, which keeps the
/// enum inline, or is `wrapper = Box` with at most one trailing comma, which
/// boxes it.
pub proof fn law_accepted_arguments(toks: Seq<Lexeme>)
    ensures
        spec_parse_lexemes(toks) is Ok <==> {
            ||| toks.len() == 0
            ||| {
                &&& (toks.len() == 3 || (toks.len() == 4 && toks[3] == Lexeme::Punct(',')))
                &&& is_word(toks[0], "wrapper"@)
                &&& toks[1] == Lexeme::Punct('=')
                &&& is_word(toks[2], "Box"@)
            }
        },
        toks.len() == 0 ==> spec_parse_lexemes(toks) == Ok::<OpaqueArgs, ArgError>(
            OpaqueArgs { storage: Storage::Inline },
        ),
        toks.len() > 0 && spec_parse_lexemes(toks) is Ok ==> spec_parse_lexemes(toks) == Ok::<OpaqueArgs, ArgError>(OpaqueArgs { storage: Storage::Boxed }),
{
}

/// Distinct enums get distinct hidden enums.
pub proof fn law_inner_name_injective(a: Seq<char>, b: Seq<char>)
    ensures
        inner_name(a) == inner_name(b) ==> a == b,
{
    if inner_name(a) == inner_name(b) {
        assert(inner_name(a).len() == a.len() + "Inner"@.len());
        assert(inner_name(b).len() == b.len() + "Inner"@.len());
        assert(a.len() == b.len());
        assert forall|i: int| 0 <= i < a.len() implies a[i] == b[i] by {
            assert(inner_name(a)[i] == a[i]);
            assert(inner_name(b)[i] == b[i]);
        }
        assert(a =~= b);
    }
}

/// Values, references and pinned references are projected whatever the
/// storage; `Arc` and `Rc` only when the enum is held inline.
pub proof fn law_projection_receivers(storage: Storage)
    ensures
        projections_for(storage).contains(Projection::Owned),
        projections_for(storage).contains(Projection::Ref),
        projections_for(storage).contains(Projection::RefMut),
        projections_for(storage).contains(Projection::PinRef),
        projections_for(storage).contains(Projection::PinMut),
        projections_for(storage).contains(Projection::Arc) <==> storage == Storage::Inline,
        projections_for(storage).contains(Projection::Rc) <==> storage == Storage::Inline,
{
    let s = projections_for(storage);
    assert(s[0] == Projection::Owned);
    assert(s[1] == Projection::Ref);
    assert(s[2] == Projection::RefMut);
    assert(s[3] == Projection::PinRef);
    assert(s[4] == Projection::PinMut);
    if storage == Storage::Inline {
        assert(s[5] == Projection::Arc);
        assert(s[6] == Projection::Rc);
    } else {
        assert(!s.contains(Projection::Arc));
        assert(!s.contains(Projection::Rc));
    }
}

/// Shared-pointer projections reinterpret a pointer to the wrapper as a
/// pointer to the enum; they are emitted only beside `#[repr(transparent)]`.
pub proof fn law_pointer_casts_only_with_transparent_layout(storage: Storage)
    ensures
        projections_for(storage).contains(Projection::Arc) ==> repr_text(storage)
            == "#[repr(transparent)] "@,
        projections_for(storage).contains(Projection::Rc) ==> repr_text(storage)
            == "#[repr(transparent)] "@,
{
    law_projection_receivers(storage);
}

/// The constructors of a public enum are `pub(crate)`: callers outside the
/// crate cannot build its variants.
pub proof fn law_public_constructors_are_crate_visible(item: EnumDef)
    requires
        item.vis is Public,
    ensures
        constructors_text(item) == join(
            item.variants@.map_values(
                |v: Variant| constructor_text("pub(crate)"@, item.ident@, inner_name(item.ident@), v),
            ),
            " "@,
        ),
{
}

/// The public struct keeps every attribute of an enum that has no `repr`.
pub proof fn law_attrs_without_repr_all_kept(attrs: Seq<Attr>)
    requires
        forall|i: int| 0 <= i < attrs.len() ==> !attr_named(#[trigger] attrs[i], "repr"@),
    ensures
        selected_attrs(attrs, "repr"@, false) == attr_texts(attrs),
    decreases attrs.len(),
{
    if attrs.len() > 0 {
        let rest = attrs.drop_last();
        assert forall|i: int| 0 <= i < rest.len() implies !attr_named(#[trigger] rest[i], "repr"@) by {
            assert(rest[i] == attrs[i]);
        }
        law_attrs_without_repr_all_kept(rest);
        assert(!attr_named(attrs[attrs.len() - 1], "repr"@));
        assert(attr_texts(attrs) =~= attr_texts(rest).push(attrs.last().text@));
    } else {
        assert(attr_texts(attrs) =~= Seq::<Seq<char>>::empty());
    }
}

/// When an impl block is accepted, each of its items becomes exactly one
/// forwarding method, in order.
pub proof fn law_one_wrapper_per_item(trait_: Option<TraitRef>, inner_ty: Seq<char>, items: Seq<ImplMember>)
    ensures
        spec_wrappers(trait_, inner_ty, items) matches Ok(ws) ==> {
            &&& ws.len() == items.len()
            &&& forall|i: int|
                0 <= i < items.len() ==> spec_wrapper_item(trait_, inner_ty, #[trigger] items[i])
                    == Ok::<Seq<char>, MemberFault>(ws[i])
        },
    decreases items.len(),
{
    if items.len() > 0 {
        let rest = items.drop_last();
        law_one_wrapper_per_item(trait_, inner_ty, rest);
        if let Ok(ws) = spec_wrappers(trait_, inner_ty, items) {
            assert forall|i: int| 0 <= i < items.len() implies spec_wrapper_item(
                trait_,
                inner_ty,
                #[trigger] items[i],
            ) == Ok::<Seq<char>, MemberFault>(ws[i]) by {
                if i < items.len() - 1 {
                    assert(rest[i] == items[i]);
                }
            }
        }
    }
}

/// An impl block is forwarded only when every item is a method that is
/// neither `async` nor `const` and binds each parameter to a plain name.
pub proof fn law_accepted_impls_hold_plain_methods(item: ImplDef)
    ensures
        impl_expansion(item) is Ok ==> forall|i: int|
            0 <= i < item.items@.len() ==> match (#[trigger] item.items@[i]).kind {
                MemberKind::Fn(f) => !f.asyncness && !f.constness && spec_function_args(f.inputs@) is Ok,
                MemberKind::Other => false,
            },
{
    if impl_expansion(item) is Ok {
        let p = item.self_ty->Path_0;
        let it = inner_path_text(p);
        law_one_wrapper_per_item(item.trait_, it, item.items@);
        assert forall|i: int| 0 <= i < item.items@.len() implies match (#[trigger] item.items@[i]).kind {
            MemberKind::Fn(f) => !f.asyncness && !f.constness && spec_function_args(f.inputs@) is Ok,
            MemberKind::Other => false,
        } by {
            assert(spec_wrapper_item(item.trait_, it, item.items@[i]) is Ok);
        }
    }
}

/// The arguments decide nothing for an impl block beyond being well formed.
pub proof fn law_impl_ignores_arguments(attr: Seq<ArgToken>, item: ImplDef)
    requires
        spec_parse_args(attr) is Ok,
    ensures
        expansion(attr, SourceItem::Impl(item)) == impl_expansion(item),
{
}

proof fn lemma_digit_text(d: nat)
    requires
        d < 10,
    ensures
        digit_text(d).len() == 1,
        forall|e: nat| e < 10 && e != d ==> digit_text(e) != digit_text(d),
{
    reveal_strlit("0");
    reveal_strlit("1");
    reveal_strlit("2");
    reveal_strlit("3");
    reveal_strlit("4");
    reveal_strlit("5");
    reveal_strlit("6");
    reveal_strlit("7");
    reveal_strlit("8");
    reveal_strlit("9");
    assert forall|e: nat| e < 10 && e != d implies digit_text(e) != digit_text(d) by {
        assert(digit_text(e)[0] != digit_text(d)[0]);
    }
}

proof fn lemma_decimal_len(n: nat)
    ensures
        decimal(n).len() >= 1,
        n < 10 <==> decimal(n).len() == 1,
    decreases n,
{
    if n < 10 {
        lemma_digit_text(n);
    } else {
        lemma_decimal_len(n / 10);
        lemma_digit_text(n % 10);
    }
}

proof fn lemma_decimal_injective(i: nat, j: nat)
    ensures
        decimal(i) == decimal(j) ==> i == j,
    decreases i,
{
    lemma_decimal_len(i);
    lemma_decimal_len(j);
    if decimal(i) == decimal(j) {
        if i < 10 {
            lemma_digit_text(i);
            lemma_digit_text(j);
        } else {
            let (a, b) = (decimal(i / 10), decimal(j / 10));
            lemma_digit_text(i % 10);
            lemma_digit_text(j % 10);
            lemma_decimal_len(i / 10);
            lemma_decimal_len(j / 10);
            assert(decimal(i) == a + digit_text(i % 10));
            assert(decimal(j) == b + digit_text(j % 10));
            assert(a.len() == b.len());
            assert(a =~= decimal(i).take(a.len() as int));
            assert(b =~= decimal(j).take(b.len() as int));
            assert(digit_text(i % 10) =~= decimal(i).skip(a.len() as int));
            assert(digit_text(j % 10) =~= decimal(j).skip(b.len() as int));
            lemma_decimal_injective(i / 10, j / 10);
        }
    }
}

/// The parameters of a generated constructor never clash: distinct
/// positions get distinct names.
pub proof fn law_field_names_distinct(i: nat, j: nat)
    ensures
        i != j ==> field_name(i) != field_name(j),
{
    if field_name(i) == field_name(j) {
        let p = "field_"@;
        assert(decimal(i) =~= field_name(i).skip(p.len() as int));
        assert(decimal(j) =~= field_name(j).skip(p.len() as int));
        lemma_decimal_injective(i, j);
    }
}

#[verifier::rlimit(50)]
proof fn lemma_plain_wrapper()
    ensures
        ascii_word("wrapper"@),
        !syn_keyword("wrapper"@),
{
    reveal_strlit("_");
    reveal_strlit("abstract");
    reveal_strlit("as");
    reveal_strlit("async");
    reveal_strlit("await");
    reveal_strlit("become");
    reveal_strlit("box");
    reveal_strlit("break");
    reveal_strlit("const");
    reveal_strlit("continue");
    reveal_strlit("crate");
    reveal_strlit("do");
    reveal_strlit("dyn");
    reveal_strlit("else");
    reveal_strlit("enum");
    reveal_strlit("extern");
    reveal_strlit("false");
    reveal_strlit("final");
    reveal_strlit("fn");
    reveal_strlit("for");
    reveal_strlit("if");
    reveal_strlit("impl");
    reveal_strlit("in");
    reveal_strlit("let");
    reveal_strlit("loop");
    reveal_strlit("macro");
    reveal_strlit("match");
    reveal_strlit("mod");
    reveal_strlit("move");
    reveal_strlit("mut");
    reveal_strlit("override");
    reveal_strlit("priv");
    reveal_strlit("pub");
    reveal_strlit("ref");
    reveal_strlit("return");
    reveal_strlit("Self");
    reveal_strlit("self");
    reveal_strlit("static");
    reveal_strlit("struct");
    reveal_strlit("super");
    reveal_strlit("trait");
    reveal_strlit("true");
    reveal_strlit("try");
    reveal_strlit("type");
    reveal_strlit("typeof");
    reveal_strlit("unsafe");
    reveal_strlit("unsized");
    reveal_strlit("use");
    reveal_strlit("virtual");
    reveal_strlit("where");
    reveal_strlit("while");
    reveal_strlit("yield");
    reveal_strlit("wrapper");
    assert("wrapper"@[0] != "unsized"@[0]);
    assert("wrapper"@[0] != "virtual"@[0]);
    assert forall|i: int| 0 <= i < "wrapper"@.len() implies word_char(#[trigger] "wrapper"@[i]) by {
        assert(i == 0 || i == 1 || i == 2 || i == 3 || i == 4 || i == 5 || i == 6);
    }
}

#[verifier::rlimit(50)]
proof fn lemma_plain_box()
    ensures
        ascii_word("Box"@),
        !syn_keyword("Box"@),
{
    reveal_strlit("_");
    reveal_strlit("abstract");
    reveal_strlit("as");
    reveal_strlit("async");
    reveal_strlit("await");
    reveal_strlit("become");
    reveal_strlit("box");
    reveal_strlit("break");
    reveal_strlit("const");
    reveal_strlit("continue");
    reveal_strlit("crate");
    reveal_strlit("do");
    reveal_strlit("dyn");
    reveal_strlit("else");
    reveal_strlit("enum");
    reveal_strlit("extern");
    reveal_strlit("false");
    reveal_strlit("final");
    reveal_strlit("fn");
    reveal_strlit("for");
    reveal_strlit("if");
    reveal_strlit("impl");
    reveal_strlit("in");
    reveal_strlit("let");
    reveal_strlit("loop");
    reveal_strlit("macro");
    reveal_strlit("match");
    reveal_strlit("mod");
    reveal_strlit("move");
    reveal_strlit("mut");
    reveal_strlit("override");
    reveal_strlit("priv");
    reveal_strlit("pub");
    reveal_strlit("ref");
    reveal_strlit("return");
    reveal_strlit("Self");
    reveal_strlit("self");
    reveal_strlit("static");
    reveal_strlit("struct");
    reveal_strlit("super");
    reveal_strlit("trait");
    reveal_strlit("true");
    reveal_strlit("try");
    reveal_strlit("type");
    reveal_strlit("typeof");
    reveal_strlit("unsafe");
    reveal_strlit("unsized");
    reveal_strlit("use");
    reveal_strlit("virtual");
    reveal_strlit("where");
    reveal_strlit("while");
    reveal_strlit("yield");
    reveal_strlit("Box");
    assert("Box"@[0] != "box"@[0]);
    assert("Box"@[0] != "dyn"@[0]);
    assert("Box"@[0] != "for"@[0]);
    assert("Box"@[0] != "let"@[0]);
    assert("Box"@[0] != "mod"@[0]);
    assert("Box"@[0] != "mut"@[0]);
    assert("Box"@[0] != "pub"@[0]);
    assert("Box"@[0] != "ref"@[0]);
    assert("Box"@[0] != "try"@[0]);
    assert("Box"@[0] != "use"@[0]);
    assert forall|i: int| 0 <= i < "Box"@.len() implies word_char(#[trigger] "Box"@[i]) by {
        assert(i == 0 || i == 1 || i == 2);
    }
}

#[verifier::rlimit(50)]
proof fn lemma_plain_rc()
    ensures
        ascii_word("Rc"@),
        !syn_keyword("Rc"@),
{
    reveal_strlit("_");
    reveal_strlit("abstract");
    reveal_strlit("as");
    reveal_strlit("async");
    reveal_strlit("await");
    reveal_strlit("become");
    reveal_strlit("box");
    reveal_strlit("break");
    reveal_strlit("const");
    reveal_strlit("continue");
    reveal_strlit("crate");
    reveal_strlit("do");
    reveal_strlit("dyn");
    reveal_strlit("else");
    reveal_strlit("enum");
    reveal_strlit("extern");
    reveal_strlit("false");
    reveal_strlit("final");
    reveal_strlit("fn");
    reveal_strlit("for");
    reveal_strlit("if");
    reveal_strlit("impl");
    reveal_strlit("in");
    reveal_strlit("let");
    reveal_strlit("loop");
    reveal_strlit("macro");
    reveal_strlit("match");
    reveal_strlit("mod");
    reveal_strlit("move");
    reveal_strlit("mut");
    reveal_strlit("override");
    reveal_strlit("priv");
    reveal_strlit("pub");
    reveal_strlit("ref");
    reveal_strlit("return");
    reveal_strlit("Self");
    reveal_strlit("self");
    reveal_strlit("static");
    reveal_strlit("struct");
    reveal_strlit("super");
    reveal_strlit("trait");
    reveal_strlit("true");
    reveal_strlit("try");
    reveal_strlit("type");
    reveal_strlit("typeof");
    reveal_strlit("unsafe");
    reveal_strlit("unsized");
    reveal_strlit("use");
    reveal_strlit("virtual");
    reveal_strlit("where");
    reveal_strlit("while");
    reveal_strlit("yield");
    reveal_strlit("Rc");
    assert("Rc"@[0] != "as"@[0]);
    assert("Rc"@[0] != "do"@[0]);
    assert("Rc"@[0] != "fn"@[0]);
    assert("Rc"@[0] != "if"@[0]);
    assert("Rc"@[0] != "in"@[0]);
    assert forall|i: int| 0 <= i < "Rc"@.len() implies word_char(#[trigger] "Rc"@[i]) by {
        assert(i == 0 || i == 1);
    }
}

#[verifier::rlimit(50)]
proof fn lemma_plain_storage()
    ensures
        ascii_word("storage"@),
        !syn_keyword("storage"@),
{
    reveal_strlit("_");
    reveal_strlit("abstract");
    reveal_strlit("as");
    reveal_strlit("async");
    reveal_strlit("await");
    reveal_strlit("become");
    reveal_strlit("box");
    reveal_strlit("break");
    reveal_strlit("const");
    reveal_strlit("continue");
    reveal_strlit("crate");
    reveal_strlit("do");
    reveal_strlit("dyn");
    reveal_strlit("else");
    reveal_strlit("enum");
    reveal_strlit("extern");
    reveal_strlit("false");
    reveal_strlit("final");
    reveal_strlit("fn");
    reveal_strlit("for");
    reveal_strlit("if");
    reveal_strlit("impl");
    reveal_strlit("in");
    reveal_strlit("let");
    reveal_strlit("loop");
    reveal_strlit("macro");
    reveal_strlit("match");
    reveal_strlit("mod");
    reveal_strlit("move");
    reveal_strlit("mut");
    reveal_strlit("override");
    reveal_strlit("priv");
    reveal_strlit("pub");
    reveal_strlit("ref");
    reveal_strlit("return");
    reveal_strlit("Self");
    reveal_strlit("self");
    reveal_strlit("static");
    reveal_strlit("struct");
    reveal_strlit("super");
    reveal_strlit("trait");
    reveal_strlit("true");
    reveal_strlit("try");
    reveal_strlit("type");
    reveal_strlit("typeof");
    reveal_strlit("unsafe");
    reveal_strlit("unsized");
    reveal_strlit("use");
    reveal_strlit("virtual");
    reveal_strlit("where");
    reveal_strlit("while");
    reveal_strlit("yield");
    reveal_strlit("storage");
    assert("storage"@[0] != "unsized"@[0]);
    assert("storage"@[0] != "virtual"@[0]);
    assert forall|i: int| 0 <= i < "storage"@.len() implies word_char(#[trigger] "storage"@[i]) by {
        assert(i == 0 || i == 1 || i == 2 || i == 3 || i == 4 || i == 5 || i == 6);
    }
}

proof fn lemma_example_words()
    ensures
        ascii_word("wrapper"@) && !syn_keyword("wrapper"@),
        ascii_word("Box"@) && !syn_keyword("Box"@),
        ascii_word("Rc"@) && !syn_keyword("Rc"@),
        ascii_word("storage"@) && !syn_keyword("storage"@),
        "storage"@ != "wrapper"@,
        "Rc"@ != "Box"@,
{
    lemma_plain_wrapper();
    lemma_plain_box();
    lemma_plain_rc();
    lemma_plain_storage();
    reveal_strlit("wrapper");
    reveal_strlit("storage");
    reveal_strlit("Rc");
    reveal_strlit("Box");
    assert("storage"@[0] != "wrapper"@[0]);
    assert("Rc"@[0] != "Box"@[0]);
}

/// Three argument lists of one identifier, `=` and another identifier:
/// `wrapper = Box` boxes the enum, `wrapper = Rc` is refused at `Rc`, and
/// `storage = Box` is refused at `storage`. All three are plain words, so
/// `OpaqueArgs::parse` gives exactly these outcomes.
pub proof fn law_argument_examples(tokens: Seq<ArgToken>, key: String, value: String)
    requires
        tokens == seq![ArgToken::Ident(key), ArgToken::Punct('='), ArgToken::Ident(value)],
        key@ == "wrapper"@ || key@ == "storage"@,
        value@ == "Box"@ || value@ == "Rc"@,
    ensures
        idents_are_ascii_words(tokens),
        key@ == "wrapper"@ && value@ == "Box"@ ==> spec_parse_args(tokens) == Ok::<OpaqueArgs, ArgError>(
            OpaqueArgs { storage: Storage::Boxed },
        ),
        key@ == "wrapper"@ && value@ == "Rc"@ ==> spec_parse_args(tokens) == Err::<OpaqueArgs, ArgError>(
            ArgError { kind: ArgErrorKind::UnsupportedWrapper, site: ArgSite::Token(2) },
        ),
        key@ == "storage"@ ==> spec_parse_args(tokens) == Err::<OpaqueArgs, ArgError>(
            ArgError { kind: ArgErrorKind::UnknownKey, site: ArgSite::Token(0) },
        ),
{
    lemma_example_words();
    let lx = tokens.map_values(|t: ArgToken| classify_token(t));
    assert(lx[0] == classify_token(tokens[0]));
    assert(lx[1] == classify_token(tokens[1]));
    assert(lx[2] == classify_token(tokens[2]));
    assert forall|i: int| 0 <= i < tokens.len() implies (#[trigger] tokens[i] matches ArgToken::Ident(s)
        ==> ascii_word(s@)) by {
        assert(i == 0 || i == 1 || i == 2);
    }
}

/// Boxing changes only where the hidden enum lives, not which type it is:
/// the boxed wrapper's field is a `Box` of exactly the inline field's type,
/// the hidden enum applied to the enum's type arguments.
pub proof fn law_boxed_field_boxes_the_inline_field(inner: Seq<char>, ty_args: Seq<char>)
    ensures
        storage_field_text(Storage::Boxed, inner, ty_args) == "::std::boxed::Box<"@ + storage_field_text(
            Storage::Inline,
            inner,
            ty_args,
        ) + ">"@,
        storage_field_text(Storage::Inline, inner, ty_args) == inner + ty_args,
{
    assert(storage_field_text(Storage::Boxed, inner, ty_args) =~= "::std::boxed::Box<"@ + (inner + ty_args)
        + ">"@);
}

/// A forwarding method is written with all of the method's attributes, in
/// order, then its `default` marker, its own visibility (restricted ones
/// included) and its signature, as written.
pub proof fn law_forwarding_method_keeps_its_header(t: Option<TraitRef>, it: Seq<char>, f: FnDef, w: Seq<char>)
    requires
        spec_wrapper_fn(t, it, f) == Ok::<Seq<char>, MemberFault>(w),
    ensures
        ({
            let head = join(views(f.attrs@), " "@) + " "@ + default_text(f.defaultness) + vis_text(f.vis) + " "@
                + f.sig@;
            w.len() >= head.len() && w.take(head.len() as int) == head
        }),
        f.vis matches Vis::Restricted(v) ==> ({
            let head = join(views(f.attrs@), " "@) + " "@ + default_text(f.defaultness) + v@ + " "@ + f.sig@;
            w.len() >= head.len() && w.take(head.len() as int) == head
        }),
{
    let head = join(views(f.attrs@), " "@) + " "@ + default_text(f.defaultness) + vis_text(f.vis) + " "@ + f.sig@;
    let rest = w.skip(head.len() as int);
    assert(w =~= head + w.skip(head.len() as int)) by {
        let args = spec_function_args(f.inputs@)->Ok_0;
        assert(w == head + " "@ + crate::impl_expand::wrapper_body_text(
            crate::impl_expand::inner_call_text(t, it, f.ident@, crate::impl_expand::spec_has_receiver(f.inputs@), args),
            crate::impl_expand::is_self_return(f.output),
        ));
    }
    assert(w.take(head.len() as int) =~= head);
}

/// A tuple variant's constructor declares, as its `k`-th parameter, the name
/// it passes as the variant's `k`-th field, with the `k`-th field's type.
pub proof fn law_tuple_constructor_takes_each_field(tys: Vec<String>)
    ensures
        exists|names: Seq<Seq<char>>|
            names.len() == tys@.len() && ctor_value_text(Fields::Unnamed(tys)) == "("@ + join(names, ", "@)
                + ")"@ && #[trigger] ctor_params_text(Fields::Unnamed(tys)) == join(
                Seq::new(tys@.len(), |k: int| names[k] + ": "@ + tys@[k]@),
                ", "@,
            ),
{
    let names = Seq::new(tys@.len(), |i: int| field_name(i as nat));
    assert(Seq::new(tys@.len(), |k: int| names[k] + ": "@ + tys@[k]@) =~= Seq::new(
        tys@.len(),
        |i: int| field_name(i as nat) + ": "@ + tys@[i]@,
    ));
    assert(names.len() == tys@.len() && ctor_value_text(Fields::Unnamed(tys)) == "("@ + join(names, ", "@)
        + ")"@);
}

/// A struct-like variant's constructor declares, as its `k`-th parameter,
/// the `k`-th field's name with that field's type, and builds the variant by
/// the same names, in the same order.
pub proof fn law_named_constructor_takes_each_field(fs: Vec<NamedField>)
    ensures
        ctor_params_text(Fields::Named(fs)) == join(
            Seq::new(fs@.len(), |k: int| fs@[k].name@ + ": "@ + fs@[k].ty@),
            ", "@,
        ),
        ctor_value_text(Fields::Named(fs)) == " { "@ + join(Seq::new(fs@.len(), |k: int| fs@[k].name@), ", "@)
            + " }"@,
{
    assert(Seq::new(fs@.len(), |k: int| fs@[k].name@ + ": "@ + fs@[k].ty@) =~= fs@.map_values(
        |f: NamedField| f.name@ + ": "@ + f.ty@,
    ));
    assert(Seq::new(fs@.len(), |k: int| fs@[k].name@) =~= fs@.map_values(|f: NamedField| f.name@));
}

/// Reading attributes keeps all of them, in order: the attributes read from
/// two runs of attribute texts are those of the first run followed by those
/// of the second, and nothing is read when either run fails.
pub proof fn law_attribute_readings_concatenate(a: Seq<AttrReading>, b: Seq<AttrReading>)
    ensures
        attrs_read(a + b) == match (attrs_read(a), attrs_read(b)) {
            (Some(x), Some(y)) => Some(x + y),
            _ => None::<Seq<Attr>>,
        },
    decreases b.len(),
{
    if b.len() == 0 {
        assert(a + b =~= a);
        if let Some(x) = attrs_read(a) {
            assert(x + Seq::<Attr>::empty() =~= x);
        }
    } else {
        law_attribute_readings_concatenate(a, b.drop_last());
        assert((a + b).drop_last() =~= a + b.drop_last());
        assert((a + b).last() == b.last());
        match (attrs_read(a), attrs_read(b.drop_last()), b.last().attrs) {
            (Some(x), Some(y), Some(v)) => {
                assert(x + y + v.value()@ =~= x + (y + v.value()@));
            },
            _ => {},
        }
    }
}

/// One attribute text reads as what syn read from it.
pub proof fn law_one_attribute_reading(r: AttrReading)
    ensures
        attrs_read(seq![r]) == match r.attrs {
            Some(p) => Some(p.value()@),
            None => None::<Seq<Attr>>,
        },
{
    assert(seq![r].drop_last() =~= Seq::<AttrReading>::empty());
    assert(attrs_read(Seq::<AttrReading>::empty()) == Some(Seq::<Attr>::empty()));
    assert(attrs_read(seq![r].drop_last()) == Some(Seq::<Attr>::empty()));
    assert(seq![r].last() == r);
    if let Some(p) = r.attrs {
        assert(Seq::<Attr>::empty() + p.value()@ =~= p.value()@);
    }
}

proof fn lemma_one_attribute_per_text(rs: Seq<AttrReading>, x: Seq<Attr>)
    requires
        attrs_read(rs) == Some(x),
        forall|i: int| 0 <= i < rs.len() ==> ((#[trigger] rs[i]).attrs matches Some(p) && p.value()@.len() == 1),
    ensures
        x.len() == rs.len(),
    decreases rs.len(),
{
    if rs.len() > 0 {
        let y = attrs_read(rs.drop_last())->Some_0;
        assert forall|i: int| 0 <= i < rs.drop_last().len() implies ((#[trigger] rs.drop_last()[i]).attrs matches Some(
            p,
        ) && p.value()@.len() == 1) by {
            assert(rs.drop_last()[i] == rs[i]);
        }
        lemma_one_attribute_per_text(rs.drop_last(), y);
        assert(rs[rs.len() - 1] == rs.last());
    }
}

/// An enum read from its readings keeps one attribute per attribute text,
/// when each text reads as one attribute.
pub proof fn law_enum_keeps_every_attribute(e: EnumReading, re: RawEnum)
    requires
        enum_from(e, re),
        forall|i: int| 0 <= i < e.attrs@.len() ==> ((#[trigger] e.attrs@[i]).attrs matches Some(p) && p.value()@.len() == 1),
    ensures
        re.attrs@.len() == e.attrs@.len(),
{
    lemma_one_attribute_per_text(e.attrs@, re.attrs@);
}

} // verus!
