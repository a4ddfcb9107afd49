//! The attribute itself: parse the arguments, then expand the item it is on.
use vstd::prelude::*;
use crate::args::{
    classification_of, idents_are_ascii_words, spec_parse_args, spec_parse_lexemes, ArgError,
    ArgToken, Lexeme, OpaqueArgs,
};
use crate::enum_expand::{enum_expansion, expand_enum};
use crate::error::ExpandError;
use crate::impl_expand::{expand_impl, impl_expansion};
use crate::model::{EnumDef, ImplDef};
use crate::source::{lemma_description_expands_alike, source_item, source_of};
use crate::reading::{gather_item, item_from, item_from_reading, item_reading_source, item_shaped, ItemReading};
use crate::syntax::RawItem;

verus! {

/// The item `#[opaque_enum]` is placed on.
#[derive(Debug)]
pub enum SourceItem {
    /// An enum.
    Enum(EnumDef),
    /// An impl block.
    Impl(ImplDef),
    /// Any other item.
    Other,
}

/// What the attribute gives for `item` once its arguments have been parsed
/// to `args`. The arguments are checked first, whatever the item; they only
/// matter for enums.
pub open spec fn expansion_from(args: Result<OpaqueArgs, ArgError>, item: SourceItem) -> Result<
    Seq<char>,
    ExpandError,
> {
    match args {
        Err(e) => Err(ExpandError::Args(e)),
        Ok(args) => match item {
            SourceItem::Enum(e) => Ok(enum_expansion(args, e)),
            SourceItem::Impl(i) => impl_expansion(i),
            SourceItem::Other => Err(ExpandError::UnsupportedItem),
        },
    }
}

/// What `#[opaque_enum(attr)]` on `item` expands to, or why it is refused,
/// for arguments whose identifiers are plain ASCII words.
pub open spec fn expansion(attr: Seq<ArgToken>, item: SourceItem) -> Result<Seq<char>, ExpandError> {
    expansion_from(spec_parse_args(attr), item)
}

/// An executable outcome carries the text, or the error, of a specified one.
pub open spec fn outcome_matches(r: Result<String, ExpandError>, e: Result<Seq<char>, ExpandError>) -> bool {
    match r {
        Ok(s) => e == Ok::<Seq<char>, ExpandError>(s@),
        Err(x) => e == Err::<Seq<char>, ExpandError>(x),
    }
}

/// `r` is what `#[opaque_enum(attr)]` gives on `item`: exactly
/// [`expansion`] when the argument identifiers are plain ASCII words, and in
/// any case the expansion for some classification of the argument tokens.
pub open spec fn expands_to(attr: Seq<ArgToken>, item: SourceItem, r: Result<String, ExpandError>) -> bool {
    &&& idents_are_ascii_words(attr) ==> outcome_matches(r, expansion(attr, item))
    &&& exists|lx: Seq<Lexeme>|
        classification_of(attr, lx) && outcome_matches(
            r,
            #[trigger] expansion_from(spec_parse_lexemes(lx), item),
        )
}

/// Hides enum variants behind an opaque struct wrapper.
///
/// On an enum, emits a struct of the same name holding the renamed enum,
/// a constructor per variant, `From` and the receiver projections. On an
/// impl block, emits the block retargeted at the hidden enum and a
/// forwarding impl for the public type. The result is Rust source text.
pub fn opaque_enum(attr: &Vec<ArgToken>, item: SourceItem) -> (r: Result<String, ExpandError>)
    ensures
        expands_to(attr@, item, r),
{
    let parsed = OpaqueArgs::parse(attr);
    let ghost lx = choose|lx: Seq<Lexeme>| classification_of(attr@, lx) && parsed == #[trigger] spec_parse_lexemes(lx);
    let args = match parsed {
        Ok(a) => a,
        Err(e) => {
            assert(outcome_matches(Err(ExpandError::Args(e)), expansion_from(spec_parse_lexemes(lx), item)));
            return Err(ExpandError::Args(e));
        },
    };
    let r = match item {
        SourceItem::Enum(e) => Ok(expand_enum(args, &e)),
        SourceItem::Impl(i) => expand_impl(i),
        SourceItem::Other => Err(ExpandError::UnsupportedItem),
    };
    assert(outcome_matches(r, expansion_from(spec_parse_lexemes(lx), item)));
    r
}

/// `r` is what the attribute gives on the item read as `raw`: the item has
/// a description, and on every description of it the outcome is `r`.
pub open spec fn expands_raw(attr: Seq<ArgToken>, raw: RawItem, r: Result<String, ExpandError>) -> bool {
    &&& exists|s: SourceItem| #[trigger] source_of(raw, s)
    &&& forall|s: SourceItem| #[trigger] source_of(raw, s) ==> expands_to(attr, s, r)
}

/// Expands the item read as `raw`: what the attribute gives on the
/// description of `raw`.
pub fn expand_source(attr: &Vec<ArgToken>, raw: RawItem) -> (r: Result<String, ExpandError>)
    ensures
        expands_raw(attr@, raw, r),
{
    let s = source_item(raw);
    let ghost s0 = s;
    let r = opaque_enum(attr, s);
    proof {
        assert(source_of(raw, s0));
        assert forall|s1: SourceItem| #[trigger] source_of(raw, s1) implies expands_to(attr@, s1, r) by {
            lemma_description_expands_alike(raw, s0, s1, spec_parse_args(attr@));
            let lx = choose|lx: Seq<Lexeme>|
                classification_of(attr@, lx) && outcome_matches(r, #[trigger] expansion_from(spec_parse_lexemes(lx), s0));
            lemma_description_expands_alike(raw, s0, s1, spec_parse_lexemes(lx));
            assert(classification_of(attr@, lx) && outcome_matches(r, expansion_from(spec_parse_lexemes(lx), s1)));
        }
    }
    r
}

/// Expands the item from what syn gave for each of its pieces. The
/// arguments are checked first; then the item is refused as
/// [`ExpandError::Unparsable`] exactly when a piece of it that must read did
/// not; otherwise the outcome is that of [`expand_source`] on the item
/// assembled from the readings.
pub fn expand_reading(attr: &Vec<ArgToken>, rd: ItemReading) -> (r: Result<String, ExpandError>)
    ensures
        match spec_parse_args(attr@) {
            Err(e) => idents_are_ascii_words(attr@) ==> r == Err::<String, ExpandError>(ExpandError::Args(e)),
            Ok(_) => idents_are_ascii_words(attr@) && item_from(rd, None) ==> r == Err::<String, ExpandError>(
                ExpandError::Unparsable,
            ),
        },
        !item_from(rd, None) ==> r != Err::<String, ExpandError>(ExpandError::Unparsable),
        r == Err::<String, ExpandError>(ExpandError::Unparsable) ==> exists|lx: Seq<Lexeme>|
            classification_of(attr@, lx) && (#[trigger] spec_parse_lexemes(lx)) is Ok,
        r matches Err(ExpandError::Args(e)) ==> exists|lx: Seq<Lexeme>|
            classification_of(attr@, lx) && #[trigger] spec_parse_lexemes(lx) == Err::<OpaqueArgs, ArgError>(e),
        r != Err::<String, ExpandError>(ExpandError::Unparsable) && !(r matches Err(ExpandError::Args(_)))
            ==> exists|raw: RawItem| #[trigger] item_from(rd, Some(raw)) && expands_raw(attr@, raw, r),
{
    match OpaqueArgs::parse(attr) {
        Err(e) => return Err(ExpandError::Args(e)),
        Ok(_) => {},
    }
    let raw = match item_from_reading(rd) {
        Some(raw) => raw,
        None => return Err(ExpandError::Unparsable),
    };
    let ghost raw0 = raw;
    let r = expand_source(attr, raw);
    proof {
        assert(expands_raw(attr@, raw0, r));
        let s = choose|s: SourceItem| #[trigger] source_of(raw0, s);
        assert(expands_to(attr@, s, r));
        let lx = choose|lx: Seq<Lexeme>|
            classification_of(attr@, lx) && outcome_matches(r, #[trigger] expansion_from(spec_parse_lexemes(lx), s));
        assert(r != Err::<String, ExpandError>(ExpandError::Unparsable));
    }
    r
}

/// Expands `#[opaque_enum(attr)]` on the item written as `item`, and gives
/// the expansion as Rust source text: the item and each of its pieces go to
/// syn ([`gather_item`]), and the outcome is that of [`expand_reading`] on
/// what syn gave back. An item text that syn does not read is refused as
/// [`ExpandError::Unparsable`] (an empty text always is); which texts read,
/// and as what, is syn's parser's to say.
pub fn opaque_enum_text(attr: &Vec<ArgToken>, item: &str) -> (r: Result<String, ExpandError>)
    ensures
        match spec_parse_args(attr@) {
            Err(e) => idents_are_ascii_words(attr@) ==> r == Err::<String, ExpandError>(ExpandError::Args(e)),
            Ok(_) => idents_are_ascii_words(attr@) && item@.len() == 0 ==> r == Err::<String, ExpandError>(
                ExpandError::Unparsable,
            ),
        },
        r == Err::<String, ExpandError>(ExpandError::Unparsable) ==> exists|lx: Seq<Lexeme>|
            classification_of(attr@, lx) && (#[trigger] spec_parse_lexemes(lx)) is Ok,
        r matches Err(ExpandError::Args(e)) ==> exists|lx: Seq<Lexeme>|
            classification_of(attr@, lx) && #[trigger] spec_parse_lexemes(lx) == Err::<OpaqueArgs, ArgError>(e),
        r != Err::<String, ExpandError>(ExpandError::Unparsable) && !(r matches Err(ExpandError::Args(_)))
            ==> exists|rd: ItemReading, raw: RawItem|
            item_reading_source(rd) == item@ && item_shaped(rd) && #[trigger] item_from(rd, Some(raw))
                && expands_raw(attr@, raw, r),
{
    let rd = match gather_item(item) {
        Some(rd) => rd,
        None => {
            match OpaqueArgs::parse(attr) {
                Err(e) => return Err(ExpandError::Args(e)),
                Ok(_) => return Err(ExpandError::Unparsable),
            }
        },
    };
    let ghost rd0 = rd;
    let r = expand_reading(attr, rd);
    proof {
        if r != Err::<String, ExpandError>(ExpandError::Unparsable) && !(r matches Err(ExpandError::Args(_))) {
            let raw = choose|raw: RawItem| #[trigger] item_from(rd0, Some(raw)) && expands_raw(attr@, raw, r);
            assert(item_reading_source(rd0) == item@ && item_shaped(rd0) && item_from(rd0, Some(raw))
                && expands_raw(attr@, raw, r));
        }
    }
    r
}

} // verus!
