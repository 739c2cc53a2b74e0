//! The two file-content call forms: one that resolves to the text of a file,
//! one that resolves to its raw bytes.
//!
//! Each form matches a call expression whose keyword is exactly its own, and
//! carries the argument fragment uninterpreted; deriving the file path from
//! that fragment is a separate step that demands a single string literal.
//! Reading the file itself is the caller's task: the library derives the
//! path, and decodes the bytes the caller read for the text form.

use vstd::prelude::*;

use crate::syntax::{
    ok_view, path_is_ident, duplicate_strings, ArgTokens, ArgTokensView, MacroCallExpr,
    MacroCallView, ShapeError,
};
use crate::utils::to_tokens_function_like_macro_parenthesis;

verus! {

/// The keyword of the text-inclusion call form.
pub open spec fn text_macro_keyword() -> Seq<char> {
    "inclu"@ + "de_str"@
}

/// The keyword of the byte-inclusion call form.
pub open spec fn bytes_macro_keyword() -> Seq<char> {
    "inclu"@ + "de_bytes"@
}

/// The keyword of the text-inclusion call form, as an owned string.
pub fn text_macro_keyword_string() -> (r: String)
    ensures
        r@ == text_macro_keyword(),
{
    String::from_str("inclu").concat("de_str")
}

/// The keyword of the byte-inclusion call form, as an owned string.
pub fn bytes_macro_keyword_string() -> (r: String)
    ensures
        r@ == bytes_macro_keyword(),
{
    String::from_str("inclu").concat("de_bytes")
}

/// An error that is either an I/O failure or a shape mismatch. The two are
/// never conflated: a caller can always tell "this is not the form I
/// expected" from "this is the right form but its target is unavailable".
#[derive(Debug)]
pub enum IOOrParseError {
    /// A file read or a decode of its content failed; the payload describes
    /// the failure.
    IO(String),
    /// A syntax shape did not match the expected form.
    Parse(ShapeError),
}

/// The single string literal an inclusion argument must be; its decoded
/// value is the file path.
pub open spec fn lit_str_of(tokens: ArgTokensView) -> Result<Seq<char>, ShapeError> {
    match tokens {
        ArgTokensView::StrLit(s) => Ok(s),
        _ => Err(ShapeError::ExpectedStringLiteral),
    }
}

/// A call form that carries a reference to an external file. The argument
/// fragment stays uninterpreted until a path is derived from it.
pub trait InclusionMacro: Sized {
    /// The view of the argument fragment this form carries.
    spec fn inner_tokens_view(&self) -> ArgTokensView;

    /// The argument fragment, duplicated.
    fn get_inner_tokens(&self) -> (r: ArgTokens)
        ensures
            r@ == self.inner_tokens_view(),
    ;

    /// The single string literal the argument fragment must be.
    fn get_lit_str(&self) -> (r: Result<String, ShapeError>)
        ensures
            ok_view(r) == lit_str_of(self.inner_tokens_view()),
    {
        match self.get_inner_tokens() {
            ArgTokens::StrLit(s) => Ok(s),
            _ => Err(ShapeError::ExpectedStringLiteral),
        }
    }

    /// The file path this form points at, taken from its string literal
    /// argument as it stands: no normalization, and no resolution against
    /// the defining source file.
    fn get_string(&self) -> (r: Result<String, ShapeError>)
        ensures
            ok_view(r) == lit_str_of(self.inner_tokens_view()),
    {
        self.get_lit_str()
    }
}

/// Spec-level view of a text-inclusion call.
#[verifier::ext_equal]
pub ghost struct InclusionStrMacroView {
    pub attributes: Seq<Seq<char>>,
    pub path: ArgTokensView,
}

/// A text-inclusion call: it resolves to the decoded text of the file its
/// argument names.
#[derive(Debug)]
pub struct InclusionStrMacro {
    /// Leading annotations on the call, carried verbatim.
    pub attributes: Vec<String>,
    /// The argument fragment naming the file.
    pub path: ArgTokens,
}

impl View for InclusionStrMacro {
    type V = InclusionStrMacroView;

    open spec fn view(&self) -> InclusionStrMacroView {
        InclusionStrMacroView {
            attributes: crate::syntax::strings_view(self.attributes@),
            path: self.path@,
        }
    }
}

/// The decision whether a call expression is a text-inclusion call: the
/// keyword must equal the text-inclusion keyword exactly; the leading
/// annotations and the argument fragment are kept verbatim.
pub open spec fn inclusion_str_parse(m: MacroCallView) -> Result<InclusionStrMacroView, ShapeError> {
    if path_is_ident(m.path, text_macro_keyword()) {
        Ok(InclusionStrMacroView { attributes: m.attributes, path: m.tokens })
    } else {
        Err(ShapeError::ExpectedInclusionStrCall)
    }
}

impl InclusionMacro for InclusionStrMacro {
    open spec fn inner_tokens_view(&self) -> ArgTokensView {
        self.path@
    }

    fn get_inner_tokens(&self) -> (r: ArgTokens)
        ensures
            r@ == self.inner_tokens_view(),
    {
        self.path.duplicate()
    }
}

impl InclusionStrMacro {
    /// The emitted surface syntax of a text-inclusion call: its keyword and
    /// parenthesized argument, preceded by its leading annotations; never
    /// the resolved content.
    pub open spec fn emission(v: InclusionStrMacroView) -> MacroCallView {
        MacroCallView {
            attributes: v.attributes,
            path: seq![text_macro_keyword()],
            tokens: v.path,
        }
    }

    /// Matches a call expression, consuming it.
    pub fn try_from(value: MacroCallExpr) -> (r: Result<InclusionStrMacro, ShapeError>)
        ensures
            ok_view(r) == inclusion_str_parse(value@),
    {
        let keyword = text_macro_keyword_string();
        if !crate::syntax::path_matches_keyword(&value.path, &keyword) {
            return Err(ShapeError::ExpectedInclusionStrCall);
        }
        Ok(InclusionStrMacro { attributes: value.attributes, path: value.tokens })
    }

    /// Matches a call expression without consuming it; the result holds
    /// duplicates of the parts it keeps.
    pub fn try_from_ref(value: &MacroCallExpr) -> (r: Result<InclusionStrMacro, ShapeError>)
        ensures
            ok_view(r) == inclusion_str_parse(value@),
    {
        let keyword = text_macro_keyword_string();
        if !crate::syntax::path_matches_keyword(&value.path, &keyword) {
            return Err(ShapeError::ExpectedInclusionStrCall);
        }
        Ok(InclusionStrMacro {
            attributes: duplicate_strings(&value.attributes),
            path: value.tokens.duplicate(),
        })
    }

    /// Regenerates the call's surface syntax.
    pub fn to_tokens(&self) -> (r: MacroCallExpr)
        ensures
            r@ == InclusionStrMacro::emission(self@),
    {
        to_tokens_function_like_macro_parenthesis(
            text_macro_keyword_string(),
            self.path.duplicate(),
            duplicate_strings(&self.attributes),
        )
    }

    /// Decodes the bytes of the file this form points at, as read by the
    /// caller. Succeeds exactly on the UTF-8 encoding of a character
    /// sequence; anything else is an I/O failure, never a shape mismatch.
    pub fn text_from_bytes(bytes: Vec<u8>) -> (r: Result<String, IOOrParseError>)
        ensures
            match r {
                Ok(s) => bytes@ == vstd::utf8::encode_utf8(s@),
                Err(e) => e matches IOOrParseError::IO(_) && (forall|cs: Seq<char>|
                    bytes@ != #[trigger] vstd::utf8::encode_utf8(cs)),
            },
    {
        match decode_utf8(bytes) {
            Some(s) => Ok(s),
            None => Err(IOOrParseError::IO(String::from_str("content is not valid UTF-8"))),
        }
    }
}

/// Relies on `String::from_utf8`: it succeeds exactly when the bytes are the
/// UTF-8 encoding of a character sequence, and returns that sequence.
#[verifier::external_body]
fn decode_utf8(bytes: Vec<u8>) -> (r: Option<String>)
    ensures
        match r {
            Some(s) => bytes@ == vstd::utf8::encode_utf8(s@),
            None => forall|cs: Seq<char>| bytes@ != #[trigger] vstd::utf8::encode_utf8(cs),
        },
{
    match String::from_utf8(bytes) {
        Ok(s) => Some(s),
        Err(_) => None,
    }
}

/// Spec-level view of a byte-inclusion call.
#[verifier::ext_equal]
pub ghost struct InclusionBytesMacroView {
    pub attributes: Seq<Seq<char>>,
    pub path: ArgTokensView,
}

/// A byte-inclusion call: it resolves to the raw bytes of the file its
/// argument names, with no transformation.
#[derive(Debug)]
pub struct InclusionBytesMacro {
    /// Leading annotations on the call, carried verbatim.
    pub attributes: Vec<String>,
    /// The argument fragment naming the file.
    pub path: ArgTokens,
}

impl View for InclusionBytesMacro {
    type V = InclusionBytesMacroView;

    open spec fn view(&self) -> InclusionBytesMacroView {
        InclusionBytesMacroView {
            attributes: crate::syntax::strings_view(self.attributes@),
            path: self.path@,
        }
    }
}

/// The decision whether a call expression is a byte-inclusion call.
pub open spec fn inclusion_bytes_parse(m: MacroCallView) -> Result<
    InclusionBytesMacroView,
    ShapeError,
> {
    if path_is_ident(m.path, bytes_macro_keyword()) {
        Ok(InclusionBytesMacroView { attributes: m.attributes, path: m.tokens })
    } else {
        Err(ShapeError::ExpectedInclusionBytesCall)
    }
}

impl InclusionMacro for InclusionBytesMacro {
    open spec fn inner_tokens_view(&self) -> ArgTokensView {
        self.path@
    }

    fn get_inner_tokens(&self) -> (r: ArgTokens)
        ensures
            r@ == self.inner_tokens_view(),
    {
        self.path.duplicate()
    }
}

impl InclusionBytesMacro {
    /// The emitted surface syntax of a byte-inclusion call.
    pub open spec fn emission(v: InclusionBytesMacroView) -> MacroCallView {
        MacroCallView {
            attributes: v.attributes,
            path: seq![bytes_macro_keyword()],
            tokens: v.path,
        }
    }

    /// Matches a call expression, consuming it.
    pub fn try_from(value: MacroCallExpr) -> (r: Result<InclusionBytesMacro, ShapeError>)
        ensures
            ok_view(r) == inclusion_bytes_parse(value@),
    {
        let keyword = bytes_macro_keyword_string();
        if !crate::syntax::path_matches_keyword(&value.path, &keyword) {
            return Err(ShapeError::ExpectedInclusionBytesCall);
        }
        Ok(InclusionBytesMacro { attributes: value.attributes, path: value.tokens })
    }

    /// Matches a call expression without consuming it.
    pub fn try_from_ref(value: &MacroCallExpr) -> (r: Result<InclusionBytesMacro, ShapeError>)
        ensures
            ok_view(r) == inclusion_bytes_parse(value@),
    {
        let keyword = bytes_macro_keyword_string();
        if !crate::syntax::path_matches_keyword(&value.path, &keyword) {
            return Err(ShapeError::ExpectedInclusionBytesCall);
        }
        Ok(InclusionBytesMacro {
            attributes: duplicate_strings(&value.attributes),
            path: value.tokens.duplicate(),
        })
    }

    /// Regenerates the call's surface syntax.
    pub fn to_tokens(&self) -> (r: MacroCallExpr)
        ensures
            r@ == InclusionBytesMacro::emission(self@),
    {
        to_tokens_function_like_macro_parenthesis(
            bytes_macro_keyword_string(),
            self.path.duplicate(),
            duplicate_strings(&self.attributes),
        )
    }
}

/// Keyword matching is exact: a call whose keyword is anything but the
/// text-inclusion keyword — a longer name, a different case, a qualified
/// path — never matches the text-inclusion form, and the byte-inclusion
/// form behaves the same way with its own keyword.
pub proof fn lemma_keyword_matching_is_exact(m: MacroCallView)
    ensures
        !path_is_ident(m.path, text_macro_keyword()) ==> inclusion_str_parse(m) == Err::<
            InclusionStrMacroView,
            ShapeError,
        >(ShapeError::ExpectedInclusionStrCall),
        !path_is_ident(m.path, bytes_macro_keyword()) ==> inclusion_bytes_parse(m) == Err::<
            InclusionBytesMacroView,
            ShapeError,
        >(ShapeError::ExpectedInclusionBytesCall),
{
}

/// A well-formed inclusion call survives a round trip: emitting it and
/// matching the emitted syntax yields the call back, keyword and argument
/// fragment unchanged.
pub proof fn lemma_inclusion_round_trip(v: InclusionStrMacroView, w: InclusionBytesMacroView)
    ensures
        inclusion_str_parse(InclusionStrMacro::emission(v)) == Ok::<
            InclusionStrMacroView,
            ShapeError,
        >(v),
        inclusion_bytes_parse(InclusionBytesMacro::emission(w)) == Ok::<
            InclusionBytesMacroView,
            ShapeError,
        >(w),
{
}

} // verus!
