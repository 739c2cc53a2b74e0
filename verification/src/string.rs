//! The stringification call form: a call whose sole argument must be one
//! bare identifier, and whose resolution is that identifier's spelling.

use vstd::prelude::*;

use crate::syntax::{
    duplicate_strings, ok_view, path_is_ident, ArgTokens, ArgTokensView, MacroCallExpr,
    MacroCallView, ShapeError,
};
use crate::utils::to_tokens_function_like_macro_parenthesis;

verus! {

/// The keyword of the stringification call form.
pub open spec fn stringify_keyword() -> Seq<char> {
    "stringify"@
}

/// The stringification keyword, as an owned string.
pub fn stringify_keyword_string() -> (r: String)
    ensures
        r@ == stringify_keyword(),
{
    String::from_str("stringify")
}

/// Spec-level view of a stringification call.
#[verifier::ext_equal]
pub ghost struct StringifyMacroView {
    pub attributes: Seq<Seq<char>>,
    pub content: Seq<char>,
}

/// A stringification call: it resolves to the spelling of the one bare
/// identifier between its parentheses.
#[derive(Debug)]
#[non_exhaustive]
pub struct StringifyMacro {
    /// Leading annotations on the call, carried verbatim.
    pub attributes: Vec<String>,
    /// The spelling of the identifier argument.
    pub content: String,
}

impl View for StringifyMacro {
    type V = StringifyMacroView;

    open spec fn view(&self) -> StringifyMacroView {
        StringifyMacroView {
            attributes: crate::syntax::strings_view(self.attributes@),
            content: self.content@,
        }
    }
}

/// The decision whether a call expression is a stringification call: the
/// keyword must equal the stringification keyword exactly, and the argument
/// fragment must be one bare identifier — not a qualified path, not a
/// literal, not any other expression.
pub open spec fn stringify_parse(m: MacroCallView) -> Result<StringifyMacroView, ShapeError> {
    if !path_is_ident(m.path, stringify_keyword()) {
        Err(ShapeError::ExpectedStringifyCall)
    } else {
        match m.tokens {
            ArgTokensView::Word(id) => Ok(StringifyMacroView { attributes: m.attributes, content: id }),
            _ => Err(ShapeError::ExpectedIdent),
        }
    }
}

impl StringifyMacro {
    /// The emitted surface syntax of a stringification call: keyword and
    /// parenthesized identifier, preceded by its leading annotations.
    pub open spec fn emission(v: StringifyMacroView) -> MacroCallView {
        MacroCallView {
            attributes: v.attributes,
            path: seq![stringify_keyword()],
            tokens: ArgTokensView::Word(v.content),
        }
    }

    /// Matches a call expression, consuming it.
    pub fn try_from(value: MacroCallExpr) -> (r: Result<StringifyMacro, ShapeError>)
        ensures
            ok_view(r) == stringify_parse(value@),
    {
        let keyword = stringify_keyword_string();
        if !crate::syntax::path_matches_keyword(&value.path, &keyword) {
            return Err(ShapeError::ExpectedStringifyCall);
        }
        match value.tokens {
            ArgTokens::Word(id) => Ok(StringifyMacro { attributes: value.attributes, content: id }),
            _ => Err(ShapeError::ExpectedIdent),
        }
    }

    /// Matches a call expression without consuming it.
    pub fn try_from_ref(value: &MacroCallExpr) -> (r: Result<StringifyMacro, ShapeError>)
        ensures
            ok_view(r) == stringify_parse(value@),
    {
        let keyword = stringify_keyword_string();
        if !crate::syntax::path_matches_keyword(&value.path, &keyword) {
            return Err(ShapeError::ExpectedStringifyCall);
        }
        match &value.tokens {
            ArgTokens::Word(id) => Ok(
                StringifyMacro {
                    attributes: duplicate_strings(&value.attributes),
                    content: id.clone(),
                },
            ),
            _ => Err(ShapeError::ExpectedIdent),
        }
    }

    /// The resolved string: the identifier's spelling. Resolution never
    /// fails once the call has matched, and performs no I/O.
    pub fn get_string(&self) -> (r: String)
        ensures
            r@ == self.content@,
    {
        self.content.clone()
    }

    /// The resolved string as the value of a string literal.
    pub fn get_lit_str(&self) -> (r: String)
        ensures
            r@ == self.content@,
    {
        self.get_string()
    }

    /// Regenerates the call's surface syntax.
    pub fn to_tokens(&self) -> (r: MacroCallExpr)
        ensures
            r@ == StringifyMacro::emission(self@),
    {
        to_tokens_function_like_macro_parenthesis(
            stringify_keyword_string(),
            ArgTokens::Word(self.content.clone()),
            duplicate_strings(&self.attributes),
        )
    }
}

/// A well-formed stringification call survives a round trip, and its
/// resolved string is exactly the identifier it was built from; a call
/// whose argument is anything but one bare identifier — in particular a
/// qualified path — never matches.
pub proof fn lemma_stringify_round_trip(v: StringifyMacroView, m: MacroCallView)
    ensures
        stringify_parse(StringifyMacro::emission(v)) == Ok::<StringifyMacroView, ShapeError>(v),
        (path_is_ident(m.path, stringify_keyword()) && !(m.tokens is Word)) ==> stringify_parse(m)
            == Err::<StringifyMacroView, ShapeError>(ShapeError::ExpectedIdent),
{
}

} // verus!
