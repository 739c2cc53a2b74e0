//! The model of the surface syntax this library classifies.
//!
//! An annotation attached to a declaration is reduced to the parts the
//! classifier reads: the segments of its name path, and the shape of its
//! payload (a `name = value` pair, a parenthesized list, or a bare name).
//! Everything the classifier never interprets is carried verbatim as text,
//! so that an unrecognized annotation survives a round trip unchanged.

use vstd::prelude::*;

verus! {

/// Spec-level view of a sequence of strings as a sequence of character
/// sequences.
pub open spec fn strings_view(v: Seq<String>) -> Seq<Seq<char>> {
    v.map_values(|s: String| s@)
}

/// True when a name path is exactly the given bare identifier: one segment,
/// equal to the keyword letter for letter. A qualified path never matches.
pub open spec fn path_is_ident(path: Seq<Seq<char>>, keyword: Seq<char>) -> bool {
    path.len() == 1 && path[0] == keyword
}

/// Spec-level view of one argument fragment.
#[verifier::ext_equal]
pub ghost enum ArgTokensView {
    StrLit(Seq<char>),
    Word(Seq<char>),
    Segments(Seq<Seq<char>>),
    Other(Seq<char>),
}

/// Spec-level view of a macro-like call expression.
#[verifier::ext_equal]
pub ghost struct MacroCallView {
    pub attributes: Seq<Seq<char>>,
    pub path: Seq<Seq<char>>,
    pub tokens: ArgTokensView,
}

/// Spec-level view of the value of a `name = value` annotation.
#[verifier::ext_equal]
pub ghost enum ValueExprView {
    StrLit(Seq<char>),
    MacroCall(MacroCallView),
    OtherExpr(Seq<char>),
}

/// Spec-level view of the payload shape of an annotation.
#[verifier::ext_equal]
pub ghost enum MetaShapeView {
    NameValue(ValueExprView),
    List(ArgTokensView),
    Bare,
}

/// Spec-level view of one whole annotation.
#[verifier::ext_equal]
pub ghost struct AttrView {
    pub path: Seq<Seq<char>>,
    pub shape: MetaShapeView,
}

/// The argument fragment of a call form, left uninterpreted until a concrete
/// form gives it a meaning.
#[derive(Debug)]
pub enum ArgTokens {
    /// Exactly one string literal; the payload is its decoded value.
    StrLit(String),
    /// Exactly one bare identifier; the payload is its spelling.
    Word(String),
    /// A qualified path of two or more segments.
    Segments(Vec<String>),
    /// Any other token text, carried verbatim.
    Other(String),
}

impl View for ArgTokens {
    type V = ArgTokensView;

    open spec fn view(&self) -> ArgTokensView {
        match self {
            ArgTokens::StrLit(s) => ArgTokensView::StrLit(s@),
            ArgTokens::Word(w) => ArgTokensView::Word(w@),
            ArgTokens::Segments(p) => ArgTokensView::Segments(strings_view(p@)),
            ArgTokens::Other(t) => ArgTokensView::Other(t@),
        }
    }
}

/// A macro-like call expression: leading annotations (verbatim), the call
/// keyword's name path, and the parenthesized argument fragment.
#[derive(Debug)]
pub struct MacroCallExpr {
    /// Leading annotations on the call, carried verbatim as source text.
    pub attributes: Vec<String>,
    /// The segments of the call keyword's name path.
    pub path: Vec<String>,
    /// The argument fragment between the parentheses.
    pub tokens: ArgTokens,
}

impl View for MacroCallExpr {
    type V = MacroCallView;

    open spec fn view(&self) -> MacroCallView {
        MacroCallView {
            attributes: strings_view(self.attributes@),
            path: strings_view(self.path@),
            tokens: self.tokens@,
        }
    }
}

/// The value of a `name = value` annotation, reduced to what the classifier
/// reads.
#[derive(Debug)]
pub enum ValueExpr {
    /// A plain string literal; the payload is its decoded value.
    StrLit(String),
    /// A macro-like call expression.
    MacroCall(MacroCallExpr),
    /// Any other expression, carried verbatim as source text.
    OtherExpr(String),
}

impl View for ValueExpr {
    type V = ValueExprView;

    open spec fn view(&self) -> ValueExprView {
        match self {
            ValueExpr::StrLit(s) => ValueExprView::StrLit(s@),
            ValueExpr::MacroCall(m) => ValueExprView::MacroCall(m@),
            ValueExpr::OtherExpr(t) => ValueExprView::OtherExpr(t@),
        }
    }
}

/// The payload shape of an annotation.
#[derive(Debug)]
pub enum MetaShape {
    /// `name = value`.
    NameValue(ValueExpr),
    /// `name(tokens)`.
    List(ArgTokens),
    /// A bare name with no payload.
    Bare,
}

impl View for MetaShape {
    type V = MetaShapeView;

    open spec fn view(&self) -> MetaShapeView {
        match self {
            MetaShape::NameValue(v) => MetaShapeView::NameValue(v@),
            MetaShape::List(t) => MetaShapeView::List(t@),
            MetaShape::Bare => MetaShapeView::Bare,
        }
    }
}

/// One annotation attached to a declaration, reduced to the parts the
/// classifier reads.
#[derive(Debug)]
pub struct Attr {
    /// The segments of the annotation's name path.
    pub path: Vec<String>,
    /// The shape of the annotation's payload.
    pub shape: MetaShape,
}

impl View for Attr {
    type V = AttrView;

    open spec fn view(&self) -> AttrView {
        AttrView { path: strings_view(self.path@), shape: self.shape@ }
    }
}

/// The ways a syntax shape can fail to match an expected form. Each variant
/// names the shape that was expected at the point of failure.
#[derive(Clone, Copy, Debug, PartialEq, Eq, Structural)]
pub enum ShapeError {
    /// The annotation's name is not the doc keyword, or its payload shape is
    /// not one the classifier knows.
    ExpectedDocAttribute,
    /// The value of a `name = value` annotation is neither a string literal
    /// nor a known text-inclusion call.
    ExpectedStringOrInclusionCall,
    /// The sole argument of a list annotation is not the `inline` keyword.
    ExpectedInline,
    /// The call keyword is not the text-inclusion keyword.
    ExpectedInclusionStrCall,
    /// The call keyword is not the byte-inclusion keyword.
    ExpectedInclusionBytesCall,
    /// The call keyword is not the stringification keyword.
    ExpectedStringifyCall,
    /// The argument fragment is not a single string literal.
    ExpectedStringLiteral,
    /// The argument fragment is not a single bare identifier.
    ExpectedIdent,
}

/// The view of a result whose error is a shape mismatch: the success value
/// is replaced by its view, the error kept as it is.
pub open spec fn ok_view<T: View>(r: Result<T, ShapeError>) -> Result<T::V, ShapeError> {
    match r {
        Ok(t) => Ok(t@),
        Err(e) => Err(e),
    }
}

/// An explicit deep copy of a vector of strings.
pub fn duplicate_strings(v: &Vec<String>) -> (r: Vec<String>)
    ensures
        r@ == v@,
{
    let mut r: Vec<String> = Vec::new();
    let mut i: usize = 0;
    while i < v.len()
        invariant
            i <= v.len(),
            r@ =~= v@.subrange(0, i as int),
        decreases v.len() - i,
    {
        let s = v[i].clone();
        r.push(s);
        i = i + 1;
    }
    proof {
        assert(r@ =~= v@);
    }
    r
}

impl ArgTokens {
    /// An explicit deep copy; the borrowed value stays usable.
    pub fn duplicate(&self) -> (r: ArgTokens)
        ensures
            r@ == self@,
    {
        match self {
            ArgTokens::StrLit(s) => ArgTokens::StrLit(s.clone()),
            ArgTokens::Word(w) => ArgTokens::Word(w.clone()),
            ArgTokens::Segments(p) => ArgTokens::Segments(duplicate_strings(p)),
            ArgTokens::Other(t) => ArgTokens::Other(t.clone()),
        }
    }
}

impl MacroCallExpr {
    /// An explicit deep copy; the borrowed value stays usable.
    pub fn duplicate(&self) -> (r: MacroCallExpr)
        ensures
            r@ == self@,
    {
        MacroCallExpr {
            attributes: duplicate_strings(&self.attributes),
            path: duplicate_strings(&self.path),
            tokens: self.tokens.duplicate(),
        }
    }
}

impl ValueExpr {
    /// An explicit deep copy; the borrowed value stays usable.
    pub fn duplicate(&self) -> (r: ValueExpr)
        ensures
            r@ == self@,
    {
        match self {
            ValueExpr::StrLit(s) => ValueExpr::StrLit(s.clone()),
            ValueExpr::MacroCall(m) => ValueExpr::MacroCall(m.duplicate()),
            ValueExpr::OtherExpr(t) => ValueExpr::OtherExpr(t.clone()),
        }
    }
}

impl MetaShape {
    /// An explicit deep copy; the borrowed value stays usable.
    pub fn duplicate(&self) -> (r: MetaShape)
        ensures
            r@ == self@,
    {
        match self {
            MetaShape::NameValue(v) => MetaShape::NameValue(v.duplicate()),
            MetaShape::List(t) => MetaShape::List(t.duplicate()),
            MetaShape::Bare => MetaShape::Bare,
        }
    }
}

impl Attr {
    /// An explicit deep copy; the borrowed value stays usable.
    pub fn duplicate(&self) -> (r: Attr)
        ensures
            r@ == self@,
    {
        Attr { path: duplicate_strings(&self.path), shape: self.shape.duplicate() }
    }
}

/// True when the name path of an annotation or call is exactly the given
/// bare keyword.
pub fn path_matches_keyword(path: &Vec<String>, keyword: &String) -> (r: bool)
    ensures
        r == path_is_ident(strings_view(path@), keyword@),
{
    if path.len() != 1 {
        return false;
    }
    path[0] == *keyword
}

} // verus!
