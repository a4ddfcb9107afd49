//! The attribute's own arguments: nothing, or `wrapper = Box` with an optional
//! trailing comma.
use vstd::prelude::*;

verus! {

/// Where the inner enum lives inside the public wrapper struct.
#[derive(Clone, Copy, Debug, PartialEq, Eq, Structural)]
pub enum Storage {
    /// The wrapper holds the inner enum directly (`#[repr(transparent)]`).
    Inline,
    /// The wrapper holds a `Box` of the inner enum.
    Boxed,
}

/// The parsed arguments of `#[opaque_enum(...)]`.
#[derive(Clone, Copy, Debug, PartialEq, Eq, Structural)]
pub struct OpaqueArgs {
    /// The chosen representation.
    pub storage: Storage,
}

/// One token of the attribute's argument list, as the compiler hands it over.
#[derive(Debug)]
pub enum ArgToken {
    /// An identifier or keyword, by its text (`r#` included for raw ones).
    Ident(String),
    /// A punctuation character.
    Punct(char),
    /// A literal, by its text.
    Literal(String),
    /// A delimited group, by its text.
    Group(String),
}

/// An argument token after identifiers have been told apart from keywords.
#[derive(Debug)]
pub enum Lexeme {
    /// An identifier-like token; `reserved` when it is a keyword that cannot
    /// stand where an identifier is expected.
    Word { text: String, reserved: bool },
    /// A punctuation character.
    Punct(char),
    /// A literal or a group.
    Other,
}

/// The token that an argument error points at.
#[derive(Clone, Copy, Debug, PartialEq, Eq, Structural)]
pub enum ArgSite {
    /// The token at this index.
    Token(usize),
    /// The end of the argument list.
    End,
}

/// What went wrong in the argument list.
#[derive(Clone, Copy, Debug, PartialEq, Eq, Structural)]
pub enum ArgErrorKind {
    /// An identifier was expected.
    ExpectedIdent,
    /// A keyword stands where an identifier was expected.
    FoundKeyword,
    /// The key is not `wrapper`.
    UnknownKey,
    /// The wrapper is not `Box`.
    UnsupportedWrapper,
    /// `=` was expected after `wrapper`.
    ExpectedEq,
    /// `,` was expected after `wrapper = Box`.
    ExpectedComma,
    /// Something follows `wrapper = Box,`.
    ExtraArguments,
}

/// An error in the argument list, with the token it points at.
#[derive(Clone, Copy, Debug, PartialEq, Eq, Structural)]
pub struct ArgError {
    /// What went wrong.
    pub kind: ArgErrorKind,
    /// Where it went wrong.
    pub site: ArgSite,
}

/// The words syn refuses where an identifier is expected (`_` and the
/// keywords of its list).
pub open spec fn syn_keyword(t: Seq<char>) -> bool {
    ||| t == "_"@
        ||| t == "abstract"@
        ||| t == "as"@
        ||| t == "async"@
        ||| t == "await"@
        ||| t == "become"@
        ||| t == "box"@
        ||| t == "break"@
        ||| t == "const"@
        ||| t == "continue"@
        ||| t == "crate"@
        ||| t == "do"@
        ||| t == "dyn"@
        ||| t == "else"@
        ||| t == "enum"@
        ||| t == "extern"@
        ||| t == "false"@
        ||| t == "final"@
        ||| t == "fn"@
        ||| t == "for"@
        ||| t == "if"@
        ||| t == "impl"@
        ||| t == "in"@
        ||| t == "let"@
        ||| t == "loop"@
        ||| t == "macro"@
        ||| t == "match"@
        ||| t == "mod"@
        ||| t == "move"@
        ||| t == "mut"@
        ||| t == "override"@
        ||| t == "priv"@
        ||| t == "pub"@
        ||| t == "ref"@
        ||| t == "return"@
        ||| t == "Self"@
        ||| t == "self"@
        ||| t == "static"@
        ||| t == "struct"@
        ||| t == "super"@
        ||| t == "trait"@
        ||| t == "true"@
        ||| t == "try"@
        ||| t == "type"@
        ||| t == "typeof"@
        ||| t == "unsafe"@
        ||| t == "unsized"@
        ||| t == "use"@
        ||| t == "virtual"@
        ||| t == "where"@
        ||| t == "while"@
        ||| t == "yield"@
}

/// A character that may start a plain ASCII word.
pub open spec fn word_start(c: char) -> bool {
    ('a' <= c && c <= 'z') || ('A' <= c && c <= 'Z') || c == '_'
}

/// A character that may continue a plain ASCII word.
pub open spec fn word_char(c: char) -> bool {
    word_start(c) || ('0' <= c && c <= '9')
}

/// A word of ASCII letters, digits and `_` that does not start with a digit.
/// Every Rust lexer reads such a text as one identifier token.
pub open spec fn ascii_word(t: Seq<char>) -> bool {
    &&& t.len() > 0
    &&& word_start(t[0])
    &&& forall|i: int| 0 <= i < t.len() ==> word_char(#[trigger] t[i])
}

/// Calls `syn::parse_str::<syn::Ident>`, which lexes `text` and accepts it when
/// it is one identifier that syn's keyword list does not hold. Claimed only for
/// plain ASCII words, which all lexers agree on: such a word is accepted
/// exactly when it is not in that list. For any other text (raw identifiers,
/// non-ASCII letters) nothing is claimed, since whether it lexes as an
/// identifier depends on the Unicode tables of the lexer that runs.
#[verifier::external_body]
fn is_identifier(text: &str) -> (r: bool)
    ensures
        ascii_word(text@) ==> (r <==> !syn_keyword(text@)),
{
    syn::parse_str::<syn::Ident>(text).is_ok()
}

/// The classified form of one token, when its identifier text is a plain
/// ASCII word (see [`classified_as`] for the others).
pub open spec fn classify_token(t: ArgToken) -> Lexeme {
    match t {
        ArgToken::Ident(s) => Lexeme::Word { text: s, reserved: syn_keyword(s@) },
        ArgToken::Punct(c) => Lexeme::Punct(c),
        ArgToken::Literal(_) => Lexeme::Other,
        ArgToken::Group(_) => Lexeme::Other,
    }
}

/// `l` is a classification of `t`: same text and kind, and for a plain ASCII
/// word, reserved exactly when it is a keyword.
pub open spec fn classified_as(t: ArgToken, l: Lexeme) -> bool {
    match t {
        ArgToken::Ident(s) => l matches Lexeme::Word { text, reserved } && text == s && (ascii_word(s@)
            ==> reserved == syn_keyword(s@)),
        ArgToken::Punct(c) => l == Lexeme::Punct(c),
        ArgToken::Literal(_) => l is Other,
        ArgToken::Group(_) => l is Other,
    }
}

/// Every identifier token is a plain ASCII word.
pub open spec fn idents_are_ascii_words(tokens: Seq<ArgToken>) -> bool {
    forall|i: int| 0 <= i < tokens.len() ==> (#[trigger] tokens[i] matches ArgToken::Ident(s) ==> ascii_word(s@))
}

/// `lx` classifies `tokens` one for one.
pub open spec fn classification_of(tokens: Seq<ArgToken>, lx: Seq<Lexeme>) -> bool {
    lx.len() == tokens.len() && forall|i: int| 0 <= i < tokens.len() ==> classified_as(#[trigger] tokens[i], lx[i])
}

/// The site of token `i`, or the end of the list past its last token.
pub open spec fn site_at(toks: Seq<Lexeme>, i: int) -> ArgSite {
    if 0 <= i < toks.len() {
        ArgSite::Token(i as usize)
    } else {
        ArgSite::End
    }
}

/// Reading an identifier at position `i`.
pub open spec fn ident_at(toks: Seq<Lexeme>, i: int) -> Result<Seq<char>, ArgError> {
    if i >= toks.len() {
        Err(ArgError { kind: ArgErrorKind::ExpectedIdent, site: ArgSite::End })
    } else {
        match toks[i] {
            Lexeme::Word { text, reserved } => if reserved {
                Err(ArgError { kind: ArgErrorKind::FoundKeyword, site: ArgSite::Token(i as usize) })
            } else {
                Ok(text@)
            },
            _ => Err(ArgError { kind: ArgErrorKind::ExpectedIdent, site: ArgSite::Token(i as usize) }),
        }
    }
}

/// Whether the token at `i` is the punctuation `c`.
pub open spec fn punct_at(toks: Seq<Lexeme>, i: int, c: char) -> bool {
    0 <= i < toks.len() && toks[i] == Lexeme::Punct(c)
}

/// The outcome of parsing the argument list: no tokens give the inline
/// representation; `wrapper = Box`, optionally followed by one comma, gives the
/// boxed one; anything else is the first error met from the left.
pub open spec fn spec_parse_lexemes(toks: Seq<Lexeme>) -> Result<OpaqueArgs, ArgError> {
    if toks.len() == 0 {
        Ok(OpaqueArgs { storage: Storage::Inline })
    } else {
        match ident_at(toks, 0) {
            Err(e) => Err(e),
            Ok(key) => if key != ("wrapper"@) {
                Err(ArgError { kind: ArgErrorKind::UnknownKey, site: ArgSite::Token(0) })
            } else if !punct_at(toks, 1, '=') {
                Err(ArgError { kind: ArgErrorKind::ExpectedEq, site: site_at(toks, 1) })
            } else {
                match ident_at(toks, 2) {
                    Err(e) => Err(e),
                    Ok(value) => if value != ("Box"@) {
                        Err(ArgError { kind: ArgErrorKind::UnsupportedWrapper, site: ArgSite::Token(2) })
                    } else if toks.len() == 3 {
                        Ok(OpaqueArgs { storage: Storage::Boxed })
                    } else if !punct_at(toks, 3, ',') {
                        Err(ArgError { kind: ArgErrorKind::ExpectedComma, site: ArgSite::Token(3) })
                    } else if toks.len() == 4 {
                        Ok(OpaqueArgs { storage: Storage::Boxed })
                    } else {
                        Err(ArgError { kind: ArgErrorKind::ExtraArguments, site: ArgSite::Token(4) })
                    }
                }
            },
        }
    }
}

/// The outcome of parsing raw argument tokens whose identifiers are plain
/// ASCII words.
pub open spec fn spec_parse_args(tokens: Seq<ArgToken>) -> Result<OpaqueArgs, ArgError> {
    spec_parse_lexemes(tokens.map_values(|t: ArgToken| classify_token(t)))
}

fn is_punct(toks: &Vec<Lexeme>, i: usize, c: char) -> (r: bool)
    ensures
        r == punct_at(toks@, i as int, c),
{
    if i < toks.len() {
        match &toks[i] {
            Lexeme::Punct(p) => *p == c,
            _ => false,
        }
    } else {
        false
    }
}

fn read_ident(toks: &Vec<Lexeme>, i: usize) -> (r: Result<&String, ArgError>)
    ensures
        match r {
            Ok(s) => ident_at(toks@, i as int) == Ok::<Seq<char>, ArgError>(s@),
            Err(e) => ident_at(toks@, i as int) == Err::<Seq<char>, ArgError>(e),
        },
{
    if i >= toks.len() {
        return Err(ArgError { kind: ArgErrorKind::ExpectedIdent, site: ArgSite::End });
    }
    match &toks[i] {
        Lexeme::Word { text, reserved } => if *reserved {
            Err(ArgError { kind: ArgErrorKind::FoundKeyword, site: ArgSite::Token(i) })
        } else {
            Ok(text)
        },
        _ => Err(ArgError { kind: ArgErrorKind::ExpectedIdent, site: ArgSite::Token(i) }),
    }
}

impl OpaqueArgs {
    /// Parses an argument list whose identifiers are already classified.
    pub fn parse_lexemes(toks: &Vec<Lexeme>) -> (r: Result<OpaqueArgs, ArgError>)
        ensures
            r == spec_parse_lexemes(toks@),
    {
        if toks.len() == 0 {
            return Ok(OpaqueArgs { storage: Storage::Inline });
        }
        let key = read_ident(toks, 0)?;
        if *key != String::from_str("wrapper") {
            return Err(ArgError { kind: ArgErrorKind::UnknownKey, site: ArgSite::Token(0) });
        }
        if !is_punct(toks, 1, '=') {
            let site = if 1 < toks.len() { ArgSite::Token(1) } else { ArgSite::End };
            return Err(ArgError { kind: ArgErrorKind::ExpectedEq, site });
        }
        let value = read_ident(toks, 2)?;
        if *value != String::from_str("Box") {
            return Err(ArgError { kind: ArgErrorKind::UnsupportedWrapper, site: ArgSite::Token(2) });
        }
        if toks.len() > 3 {
            if !is_punct(toks, 3, ',') {
                return Err(ArgError { kind: ArgErrorKind::ExpectedComma, site: ArgSite::Token(3) });
            }
            if toks.len() > 4 {
                return Err(ArgError { kind: ArgErrorKind::ExtraArguments, site: ArgSite::Token(4) });
            }
        }
        Ok(OpaqueArgs { storage: Storage::Boxed })
    }

    /// Parses the argument list of `#[opaque_enum(...)]`. When every
    /// identifier is a plain ASCII word the outcome is exactly
    /// [`spec_parse_args`]; in any case it is the parse of some classification
    /// of the tokens.
    pub fn parse(tokens: &Vec<ArgToken>) -> (r: Result<OpaqueArgs, ArgError>)
        ensures
            idents_are_ascii_words(tokens@) ==> r == spec_parse_args(tokens@),
            exists|lx: Seq<Lexeme>| classification_of(tokens@, lx) && r == #[trigger] spec_parse_lexemes(lx),
    {
        let toks = classify(tokens);
        proof {
            if idents_are_ascii_words(tokens@) {
                assert forall|i: int| 0 <= i < tokens@.len() implies toks@[i] == classify_token(
                    tokens@[i],
                ) by {
                    assert(classified_as(tokens@[i], toks@[i]));
                    if let ArgToken::Ident(s) = tokens@[i] {
                        assert(ascii_word(s@));
                    }
                }
                assert(toks@ =~= tokens@.map_values(|t: ArgToken| classify_token(t)));
            }
        }
        OpaqueArgs::parse_lexemes(&toks)
    }
}

/// Tells identifiers apart from keywords in an argument list.
pub fn classify(tokens: &Vec<ArgToken>) -> (r: Vec<Lexeme>)
    ensures
        classification_of(tokens@, r@),
{
    let mut out: Vec<Lexeme> = Vec::new();
    let mut i: usize = 0;
    while i < tokens.len()
        invariant
            i <= tokens.len(),
            out@.len() == i,
            forall|k: int| 0 <= k < i ==> classified_as(#[trigger] tokens@[k], out@[k]),
        decreases tokens.len() - i,
    {
        let lex = match &tokens[i] {
            ArgToken::Ident(s) => {
                let ok = is_identifier(s.as_str());
                Lexeme::Word { text: s.clone(), reserved: !ok }
            },
            ArgToken::Punct(c) => Lexeme::Punct(*c),
            ArgToken::Literal(_) => Lexeme::Other,
            ArgToken::Group(_) => Lexeme::Other,
        };
        out.push(lex);
        i += 1;
    }
    out
}

/// The message of an argument error; `tokens` is the argument list it came
/// from, whose keyword the message quotes where one stands for an identifier.
pub open spec fn arg_error_message(e: ArgError, tokens: Seq<ArgToken>) -> Seq<char> {
    match e.kind {
        ArgErrorKind::ExpectedIdent => if e.site == ArgSite::End {
            "unexpected end of input, expected identifier"@
        } else {
            "expected identifier"@
        },
        ArgErrorKind::FoundKeyword => "expected identifier, found keyword `"@ + site_text(e.site, tokens)
            + "`"@,
        ArgErrorKind::UnknownKey => "expected `wrapper = Box` or no arguments"@,
        ArgErrorKind::UnsupportedWrapper => "only `wrapper = Box` is currently supported"@,
        ArgErrorKind::ExpectedEq => "expected `=`"@,
        ArgErrorKind::ExpectedComma => "expected `,`"@,
        ArgErrorKind::ExtraArguments => "unexpected extra opaque_enum arguments"@,
    }
}

/// The text of the identifier token at `site`, empty for anything else.
pub open spec fn site_text(site: ArgSite, tokens: Seq<ArgToken>) -> Seq<char> {
    match site {
        ArgSite::Token(i) => if i < tokens.len() {
            match tokens[i as int] {
                ArgToken::Ident(s) => s@,
                _ => Seq::empty(),
            }
        } else {
            Seq::empty()
        },
        ArgSite::End => Seq::empty(),
    }
}

impl ArgError {
    /// The message reported for this error.
    pub fn message(&self, tokens: &Vec<ArgToken>) -> (r: String)
        ensures
            r@ == arg_error_message(*self, tokens@),
    {
        match self.kind {
            ArgErrorKind::ExpectedIdent => match self.site {
                ArgSite::End => String::from_str("unexpected end of input, expected identifier"),
                ArgSite::Token(_) => String::from_str("expected identifier"),
            },
            ArgErrorKind::FoundKeyword => {
                let mut r = String::from_str("expected identifier, found keyword `");
                if let ArgSite::Token(i) = self.site {
                    if i < tokens.len() {
                        if let ArgToken::Ident(s) = &tokens[i] {
                            r.append(s.as_str());
                        }
                    }
                }
                r.append("`");
                r
            },
            ArgErrorKind::UnknownKey => String::from_str("expected `wrapper = Box` or no arguments"),
            ArgErrorKind::UnsupportedWrapper => String::from_str(
                "only `wrapper = Box` is currently supported",
            ),
            ArgErrorKind::ExpectedEq => String::from_str("expected `=`"),
            ArgErrorKind::ExpectedComma => String::from_str("expected `,`"),
            ArgErrorKind::ExtraArguments => String::from_str("unexpected extra opaque_enum arguments"),
        }
    }
}

} // verus!
