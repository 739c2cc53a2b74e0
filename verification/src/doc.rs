//! The doc-annotation classifier: the decision procedure that turns one raw
//! annotation into a typed variant, its batch forms, and the round-trip
//! emission back to surface syntax.
//!
//! Classification comes in two deliberate flavors. The consuming flavor is
//! strict: a `name = value` annotation whose value is neither a string
//! literal nor a known text-inclusion call is a failure. The borrowing
//! flavor is lenient: the same annotation falls back to an opaque variant
//! that carries the input unchanged. Callers pick the flavor they need; the
//! two must never be unified silently.

use vstd::prelude::*;

use crate::inclusion::{
    inclusion_str_parse, lit_str_of, text_macro_keyword, InclusionMacro, InclusionStrMacro,
    InclusionStrMacroView,
};
use crate::syntax::{
    ok_view, path_is_ident, Attr, AttrView, ArgTokens, ArgTokensView, MacroCallView, MetaShape,
    MetaShapeView, ShapeError, ValueExpr, ValueExprView,
};

verus! {

/// The keyword that makes an annotation a doc annotation.
pub open spec fn doc_keyword() -> Seq<char> {
    "doc"@
}

/// The keyword of the zero-argument marker form.
pub open spec fn inline_keyword() -> Seq<char> {
    "inline"@
}

/// The doc keyword, as an owned string.
pub fn doc_keyword_string() -> (r: String)
    ensures
        r@ == doc_keyword(),
{
    String::from_str("doc")
}

/// The marker keyword, as an owned string.
pub fn inline_keyword_string() -> (r: String)
    ensures
        r@ == inline_keyword(),
{
    String::from_str("inline")
}

/// True when the annotation's name is exactly the doc keyword.
pub open spec fn is_doc_attr(a: AttrView) -> bool {
    path_is_ident(a.path, doc_keyword())
}

/// Spec-level view of a classified doc annotation.
#[verifier::ext_equal]
pub ghost enum DocAttributeView {
    LitStr(Seq<char>),
    InclusionStr(InclusionStrMacroView),
    Inline,
    Other(AttrView),
}

/// A doc annotation, classified into a closed set of variants.
#[derive(Debug)]
#[non_exhaustive]
pub enum DocAttribute {
    /// A plain textual value: `doc = "text"`.
    LitStr(String),
    /// A text-inclusion call: the value is the text of an external file.
    InclusionStr(InclusionStrMacro),
    /// The zero-argument marker: `doc(inline)`.
    Inline,
    /// An annotation that matches no known shape, preserved verbatim. Never
    /// a reconstruction of a matched form: a last-resort fallback only.
    Other(Attr),
}

impl View for DocAttribute {
    type V = DocAttributeView;

    open spec fn view(&self) -> DocAttributeView {
        match self {
            DocAttribute::LitStr(s) => DocAttributeView::LitStr(s@),
            DocAttribute::InclusionStr(m) => DocAttributeView::InclusionStr(m@),
            DocAttribute::Inline => DocAttributeView::Inline,
            DocAttribute::Other(a) => DocAttributeView::Other(a@),
        }
    }
}

/// The strict classification: the decision procedure of the consuming
/// flavor. A doc annotation must be fully understood or it is a failure.
pub open spec fn strict_classification(a: AttrView) -> Result<DocAttributeView, ShapeError> {
    if !is_doc_attr(a) {
        Err(ShapeError::ExpectedDocAttribute)
    } else {
        match a.shape {
            MetaShapeView::NameValue(v) => match v {
                ValueExprView::StrLit(s) => Ok(DocAttributeView::LitStr(s)),
                ValueExprView::MacroCall(m) => if path_is_ident(m.path, text_macro_keyword()) {
                    match inclusion_str_parse(m) {
                        Ok(im) => Ok(DocAttributeView::InclusionStr(im)),
                        Err(e) => Err(e),
                    }
                } else {
                    Err(ShapeError::ExpectedStringOrInclusionCall)
                },
                ValueExprView::OtherExpr(_) => Err(ShapeError::ExpectedStringOrInclusionCall),
            },
            MetaShapeView::List(t) => if t == ArgTokensView::Word(inline_keyword()) {
                Ok(DocAttributeView::Inline)
            } else {
                Err(ShapeError::ExpectedInline)
            },
            MetaShapeView::Bare => Err(ShapeError::ExpectedDocAttribute),
        }
    }
}

/// The lenient classification: the decision procedure of the borrowing
/// flavor. It differs from the strict one in exactly one place: a
/// `name = value` annotation whose value is neither a string literal nor a
/// known text-inclusion call falls back to the opaque variant, carrying the
/// whole annotation unchanged, instead of failing.
pub open spec fn lenient_classification(a: AttrView) -> Result<DocAttributeView, ShapeError> {
    if !is_doc_attr(a) {
        Err(ShapeError::ExpectedDocAttribute)
    } else {
        match a.shape {
            MetaShapeView::NameValue(v) => match v {
                ValueExprView::StrLit(s) => Ok(DocAttributeView::LitStr(s)),
                ValueExprView::MacroCall(m) => if path_is_ident(m.path, text_macro_keyword()) {
                    match inclusion_str_parse(m) {
                        Ok(im) => Ok(DocAttributeView::InclusionStr(im)),
                        Err(e) => Err(e),
                    }
                } else {
                    Ok(DocAttributeView::Other(a))
                },
                ValueExprView::OtherExpr(_) => Ok(DocAttributeView::Other(a)),
            },
            MetaShapeView::List(t) => if t == ArgTokensView::Word(inline_keyword()) {
                Ok(DocAttributeView::Inline)
            } else {
                Err(ShapeError::ExpectedInline)
            },
            MetaShapeView::Bare => Err(ShapeError::ExpectedDocAttribute),
        }
    }
}

impl DocAttribute {
    /// Classifies one annotation, consuming it: the strict flavor.
    pub fn classify_owned(attribute: Attr) -> (r: Result<DocAttribute, ShapeError>)
        ensures
            ok_view(r) == strict_classification(attribute@),
    {
        let doc_kw = doc_keyword_string();
        if !crate::syntax::path_matches_keyword(&attribute.path, &doc_kw) {
            return Err(ShapeError::ExpectedDocAttribute);
        }
        match attribute.shape {
            MetaShape::NameValue(v) => match v {
                ValueExpr::StrLit(s) => Ok(DocAttribute::LitStr(s)),
                ValueExpr::MacroCall(m) => {
                    let keyword = crate::inclusion::text_macro_keyword_string();
                    if crate::syntax::path_matches_keyword(&m.path, &keyword) {
                        match InclusionStrMacro::try_from(m) {
                            Ok(im) => Ok(DocAttribute::InclusionStr(im)),
                            Err(e) => Err(e),
                        }
                    } else {
                        Err(ShapeError::ExpectedStringOrInclusionCall)
                    }
                },
                ValueExpr::OtherExpr(_) => Err(ShapeError::ExpectedStringOrInclusionCall),
            },
            MetaShape::List(t) => {
                let inline_kw = inline_keyword_string();
                match t {
                    ArgTokens::Word(w) => if w == inline_kw {
                        Ok(DocAttribute::Inline)
                    } else {
                        Err(ShapeError::ExpectedInline)
                    },
                    _ => Err(ShapeError::ExpectedInline),
                }
            },
            MetaShape::Bare => Err(ShapeError::ExpectedDocAttribute),
        }
    }

    /// Classifies one annotation without consuming it: the lenient flavor.
    /// An unknown `name = value` shape is tolerated and passed through as
    /// the opaque variant, duplicated from the input.
    pub fn classify(attribute: &Attr) -> (r: Result<DocAttribute, ShapeError>)
        ensures
            ok_view(r) == lenient_classification(attribute@),
    {
        let doc_kw = doc_keyword_string();
        if !crate::syntax::path_matches_keyword(&attribute.path, &doc_kw) {
            return Err(ShapeError::ExpectedDocAttribute);
        }
        match &attribute.shape {
            MetaShape::NameValue(v) => match v {
                ValueExpr::StrLit(s) => Ok(DocAttribute::LitStr(s.clone())),
                ValueExpr::MacroCall(m) => {
                    let keyword = crate::inclusion::text_macro_keyword_string();
                    if crate::syntax::path_matches_keyword(&m.path, &keyword) {
                        match InclusionStrMacro::try_from_ref(m) {
                            Ok(im) => Ok(DocAttribute::InclusionStr(im)),
                            Err(e) => Err(e),
                        }
                    } else {
                        Ok(DocAttribute::Other(attribute.duplicate()))
                    }
                },
                ValueExpr::OtherExpr(_) => Ok(DocAttribute::Other(attribute.duplicate())),
            },
            MetaShape::List(t) => {
                let inline_kw = inline_keyword_string();
                match t {
                    ArgTokens::Word(w) => if *w == inline_kw {
                        Ok(DocAttribute::Inline)
                    } else {
                        Err(ShapeError::ExpectedInline)
                    },
                    _ => Err(ShapeError::ExpectedInline),
                }
            },
            MetaShape::Bare => Err(ShapeError::ExpectedDocAttribute),
        }
    }
}

/// Spec-level view of a sequence of annotations.
pub open spec fn attrs_view(v: Seq<Attr>) -> Seq<AttrView> {
    v.map_values(|a: Attr| a@)
}

/// Spec-level view of a sequence of per-annotation classification results.
pub open spec fn results_view(v: Seq<Result<DocAttribute, ShapeError>>) -> Seq<
    Result<DocAttributeView, ShapeError>,
> {
    v.map_values(|r: Result<DocAttribute, ShapeError>| ok_view(r))
}

/// The doc annotations of a list, in input order; the others are not even
/// considered.
pub open spec fn doc_filter(attrs: Seq<AttrView>) -> Seq<AttrView>
    decreases attrs.len(),
{
    if attrs.len() == 0 {
        Seq::empty()
    } else {
        let rest = doc_filter(attrs.drop_last());
        if is_doc_attr(attrs.last()) {
            rest.push(attrs.last())
        } else {
            rest
        }
    }
}

/// The batch form of the strict classification: one result per doc
/// annotation, in input order, failures collected per item so that one
/// failure never hides the diagnostics of its siblings.
pub open spec fn strict_batch(attrs: Seq<AttrView>) -> Seq<Result<DocAttributeView, ShapeError>>
    decreases attrs.len(),
{
    if attrs.len() == 0 {
        Seq::empty()
    } else {
        let rest = strict_batch(attrs.drop_last());
        if is_doc_attr(attrs.last()) {
            rest.push(strict_classification(attrs.last()))
        } else {
            rest
        }
    }
}

/// The batch form of the lenient classification, collected the same way.
pub open spec fn lenient_batch(attrs: Seq<AttrView>) -> Seq<Result<DocAttributeView, ShapeError>>
    decreases attrs.len(),
{
    if attrs.len() == 0 {
        Seq::empty()
    } else {
        let rest = lenient_batch(attrs.drop_last());
        if is_doc_attr(attrs.last()) {
            rest.push(lenient_classification(attrs.last()))
        } else {
            rest
        }
    }
}

impl DocAttribute {
    /// Filters the doc annotations out of a declaration's annotation list,
    /// consuming it, and classifies each with the strict flavor.
    pub fn parse_inner(attributes: Vec<Attr>) -> (r: Vec<Result<DocAttribute, ShapeError>>)
        ensures
            results_view(r@) == strict_batch(attrs_view(attributes@)),
    {
        let doc_kw = doc_keyword_string();
        let mut r: Vec<Result<DocAttribute, ShapeError>> = Vec::new();
        let mut i: usize = 0;
        while i < attributes.len()
            invariant
                i <= attributes.len(),
                doc_kw@ == doc_keyword(),
                results_view(r@) =~= strict_batch(attrs_view(attributes@).subrange(0, i as int)),
            decreases attributes.len() - i,
        {
            let ghost pre = attrs_view(attributes@).subrange(0, i as int);
            let ghost cur = attrs_view(attributes@).subrange(0, i as int + 1);
            proof {
                assert(cur.drop_last() =~= pre);
                assert(cur.last() == attributes@[i as int]@);
            }
            if crate::syntax::path_matches_keyword(&attributes[i].path, &doc_kw) {
                let a = attributes[i].duplicate();
                let c = DocAttribute::classify_owned(a);
                r.push(c);
            }
            proof {
                assert(results_view(r@) =~= strict_batch(cur));
            }
            i = i + 1;
        }
        proof {
            assert(attrs_view(attributes@).subrange(0, attributes@.len() as int) =~= attrs_view(
                attributes@,
            ));
        }
        r
    }

    /// Regenerates the annotation's surface syntax: its shape, never any
    /// resolved content, with an opaque variant emitted as the very
    /// annotation it carries.
    pub fn to_tokens(&self) -> (r: Attr)
        ensures
            r@ == emission(self@),
    {
        match self {
            DocAttribute::LitStr(s) => doc_attr_of(
                MetaShape::NameValue(ValueExpr::StrLit(s.clone())),
            ),
            DocAttribute::InclusionStr(m) => doc_attr_of(
                MetaShape::NameValue(ValueExpr::MacroCall(m.to_tokens())),
            ),
            DocAttribute::Inline => doc_attr_of(
                MetaShape::List(ArgTokens::Word(inline_keyword_string())),
            ),
            DocAttribute::Other(a) => a.duplicate(),
        }
    }

    /// Where this annotation's comment text comes from: the literal variant
    /// carries it itself, the inclusion variant names the file holding it,
    /// and the remaining variants carry none. An inclusion whose argument is
    /// not a single string literal is a shape mismatch.
    pub fn text_source(&self) -> (r: Result<TextSource, ShapeError>)
        ensures
            ok_view(r) == text_source_spec(self@),
    {
        match self {
            DocAttribute::LitStr(s) => Ok(TextSource::Literal(s.clone())),
            DocAttribute::InclusionStr(m) => match m.get_lit_str() {
                Ok(p) => Ok(TextSource::FileAt(p)),
                Err(e) => Err(e),
            },
            DocAttribute::Inline => Ok(TextSource::Absent),
            DocAttribute::Other(_) => Ok(TextSource::Absent),
        }
    }
}

/// An annotation whose name path is the doc keyword and whose payload is
/// the given shape.
fn doc_attr_of(shape: MetaShape) -> (r: Attr)
    ensures
        r@ == (AttrView { path: seq![doc_keyword()], shape: shape@ }),
{
    let mut path: Vec<String> = Vec::new();
    path.push(doc_keyword_string());
    let r = Attr { path, shape };
    proof {
        assert(crate::syntax::strings_view(r.path@) =~= seq![doc_keyword()]);
    }
    r
}

/// The emitted surface syntax of a classified doc annotation.
pub open spec fn emission(d: DocAttributeView) -> AttrView {
    match d {
        DocAttributeView::LitStr(s) => AttrView {
            path: seq![doc_keyword()],
            shape: MetaShapeView::NameValue(ValueExprView::StrLit(s)),
        },
        DocAttributeView::InclusionStr(m) => AttrView {
            path: seq![doc_keyword()],
            shape: MetaShapeView::NameValue(
                ValueExprView::MacroCall(InclusionStrMacro::emission(m)),
            ),
        },
        DocAttributeView::Inline => AttrView {
            path: seq![doc_keyword()],
            shape: MetaShapeView::List(ArgTokensView::Word(inline_keyword())),
        },
        DocAttributeView::Other(a) => a,
    }
}

/// Spec-level view of a comment-text source.
pub ghost enum TextSourceView {
    Literal(Seq<char>),
    FileAt(Seq<char>),
    Absent,
}

/// Where the comment text of a classified annotation comes from.
#[derive(Debug)]
pub enum TextSource {
    /// The text itself.
    Literal(String),
    /// The text is the decoded content of the file at this path.
    FileAt(String),
    /// The variant carries no comment text.
    Absent,
}

impl View for TextSource {
    type V = TextSourceView;

    open spec fn view(&self) -> TextSourceView {
        match self {
            TextSource::Literal(s) => TextSourceView::Literal(s@),
            TextSource::FileAt(p) => TextSourceView::FileAt(p@),
            TextSource::Absent => TextSourceView::Absent,
        }
    }
}

/// The comment-text source of each variant.
pub open spec fn text_source_spec(d: DocAttributeView) -> Result<TextSourceView, ShapeError> {
    match d {
        DocAttributeView::LitStr(s) => Ok(TextSourceView::Literal(s)),
        DocAttributeView::InclusionStr(m) => match lit_str_of(m.path) {
            Ok(p) => Ok(TextSourceView::FileAt(p)),
            Err(e) => Err(e),
        },
        DocAttributeView::Inline => Ok(TextSourceView::Absent),
        DocAttributeView::Other(_) => Ok(TextSourceView::Absent),
    }
}

/// Filters the doc annotations out of an annotation list, without
/// classifying them, in input order.
pub fn get_comment_attributes(attrs: &Vec<Attr>) -> (r: Vec<Attr>)
    ensures
        attrs_view(r@) == doc_filter(attrs_view(attrs@)),
{
    let doc_kw = doc_keyword_string();
    let mut r: Vec<Attr> = Vec::new();
    let mut i: usize = 0;
    while i < attrs.len()
        invariant
            i <= attrs.len(),
            doc_kw@ == doc_keyword(),
            attrs_view(r@) =~= doc_filter(attrs_view(attrs@).subrange(0, i as int)),
        decreases attrs.len() - i,
    {
        let ghost pre = attrs_view(attrs@).subrange(0, i as int);
        let ghost cur = attrs_view(attrs@).subrange(0, i as int + 1);
        proof {
            assert(cur.drop_last() =~= pre);
            assert(cur.last() == attrs@[i as int]@);
        }
        if crate::syntax::path_matches_keyword(&attrs[i].path, &doc_kw) {
            r.push(attrs[i].duplicate());
        }
        proof {
            assert(attrs_view(r@) =~= doc_filter(cur));
        }
        i = i + 1;
    }
    proof {
        assert(attrs_view(attrs@).subrange(0, attrs@.len() as int) =~= attrs_view(attrs@));
    }
    r
}

/// Filters the doc annotations out of an annotation list and classifies
/// each with the lenient flavor, in input order, failures collected per
/// item.
pub fn parse_doc_attributes(attrs: &Vec<Attr>) -> (r: Vec<Result<DocAttribute, ShapeError>>)
    ensures
        results_view(r@) == lenient_batch(attrs_view(attrs@)),
{
    let doc_kw = doc_keyword_string();
    let mut r: Vec<Result<DocAttribute, ShapeError>> = Vec::new();
    let mut i: usize = 0;
    while i < attrs.len()
        invariant
            i <= attrs.len(),
            doc_kw@ == doc_keyword(),
            results_view(r@) =~= lenient_batch(attrs_view(attrs@).subrange(0, i as int)),
        decreases attrs.len() - i,
    {
        let ghost pre = attrs_view(attrs@).subrange(0, i as int);
        let ghost cur = attrs_view(attrs@).subrange(0, i as int + 1);
        proof {
            assert(cur.drop_last() =~= pre);
            assert(cur.last() == attrs@[i as int]@);
        }
        if crate::syntax::path_matches_keyword(&attrs[i].path, &doc_kw) {
            let c = DocAttribute::classify(&attrs[i]);
            r.push(c);
        }
        proof {
            assert(results_view(r@) =~= lenient_batch(cur));
        }
        i = i + 1;
    }
    proof {
        assert(attrs_view(attrs@).subrange(0, attrs@.len() as int) =~= attrs_view(attrs@));
    }
    r
}

/// A string-literal doc annotation classifies, in both flavors, to the
/// literal variant carrying the same text, and emitting that result
/// reproduces an annotation that classifies back to an equal literal.
pub proof fn lemma_literal_text_round_trip(a: AttrView, s: Seq<char>)
    ensures
        (is_doc_attr(a) && a.shape == MetaShapeView::NameValue(ValueExprView::StrLit(s)))
            ==> strict_classification(a) == Ok::<DocAttributeView, ShapeError>(
            DocAttributeView::LitStr(s),
        ) && lenient_classification(a) == Ok::<DocAttributeView, ShapeError>(
            DocAttributeView::LitStr(s),
        ),
        strict_classification(emission(DocAttributeView::LitStr(s))) == Ok::<
            DocAttributeView,
            ShapeError,
        >(DocAttributeView::LitStr(s)),
        lenient_classification(emission(DocAttributeView::LitStr(s))) == Ok::<
            DocAttributeView,
            ShapeError,
        >(DocAttributeView::LitStr(s)),
{
}

/// A well-formed text-inclusion doc annotation classifies, in both flavors,
/// to the inclusion variant carrying the same call, emission reproduces an
/// annotation that classifies back to an equal result, and the file path
/// the call names is preserved exactly.
pub proof fn lemma_inclusion_round_trip_through_doc(a: AttrView, c: MacroCallView, m: InclusionStrMacroView)
    ensures
        (is_doc_attr(a) && a.shape == MetaShapeView::NameValue(ValueExprView::MacroCall(c))
            && path_is_ident(c.path, text_macro_keyword())) ==> strict_classification(a) == Ok::<
            DocAttributeView,
            ShapeError,
        >(
            DocAttributeView::InclusionStr(
                InclusionStrMacroView { attributes: c.attributes, path: c.tokens },
            ),
        ) && lenient_classification(a) == strict_classification(a),
        strict_classification(emission(DocAttributeView::InclusionStr(m))) == Ok::<
            DocAttributeView,
            ShapeError,
        >(DocAttributeView::InclusionStr(m)),
        lenient_classification(emission(DocAttributeView::InclusionStr(m))) == Ok::<
            DocAttributeView,
            ShapeError,
        >(DocAttributeView::InclusionStr(m)),
        lit_str_of(InclusionStrMacro::emission(m).tokens) == lit_str_of(m.path),
{
}

/// A doc list annotation whose sole argument is the `inline` keyword
/// classifies to the marker variant in the strict and in the lenient
/// flavor alike, and emitting the marker round-trips it.
pub proof fn lemma_inline_marker(a: AttrView)
    ensures
        (is_doc_attr(a) && a.shape == MetaShapeView::List(ArgTokensView::Word(inline_keyword())))
            ==> strict_classification(a) == Ok::<DocAttributeView, ShapeError>(
            DocAttributeView::Inline,
        ) && lenient_classification(a) == Ok::<DocAttributeView, ShapeError>(
            DocAttributeView::Inline,
        ),
        strict_classification(emission(DocAttributeView::Inline)) == Ok::<
            DocAttributeView,
            ShapeError,
        >(DocAttributeView::Inline),
        lenient_classification(emission(DocAttributeView::Inline)) == Ok::<
            DocAttributeView,
            ShapeError,
        >(DocAttributeView::Inline),
{
}

/// The load-bearing asymmetry of the two flavors: a doc `name = value`
/// annotation whose value is a call to anything but the text-inclusion
/// keyword fails the strict flavor with a shape mismatch, while the lenient
/// flavor yields the opaque variant wrapping the annotation unchanged.
pub proof fn lemma_strict_lenient_asymmetry(a: AttrView, m: MacroCallView)
    requires
        is_doc_attr(a),
        a.shape == MetaShapeView::NameValue(ValueExprView::MacroCall(m)),
        !path_is_ident(m.path, text_macro_keyword()),
    ensures
        strict_classification(a) == Err::<DocAttributeView, ShapeError>(
            ShapeError::ExpectedStringOrInclusionCall,
        ),
        lenient_classification(a) == Ok::<DocAttributeView, ShapeError>(
            DocAttributeView::Other(a),
        ),
{
}

/// The two flavors agree everywhere but in the lenient fallback: on every
/// annotation they yield the same result, except that where the strict
/// flavor fails for want of a string literal or a known inclusion call, the
/// lenient flavor yields the opaque variant wrapping the annotation
/// unchanged.
pub proof fn lemma_flavors_agree_except_opaque(a: AttrView)
    ensures
        lenient_classification(a) == strict_classification(a) || (strict_classification(a)
            == Err::<DocAttributeView, ShapeError>(ShapeError::ExpectedStringOrInclusionCall)
            && lenient_classification(a) == Ok::<DocAttributeView, ShapeError>(
            DocAttributeView::Other(a),
        )),
{
}

/// Round-trip stability for unknown shapes: whenever the lenient flavor
/// classifies an annotation as opaque, the opaque payload is the annotation
/// itself, and classifying the emitted syntax of that result yields the
/// same opaque classification again.
pub proof fn lemma_opaque_idempotent(a: AttrView, o: AttrView)
    requires
        lenient_classification(a) == Ok::<DocAttributeView, ShapeError>(DocAttributeView::Other(o)),
    ensures
        o == a,
        lenient_classification(emission(DocAttributeView::Other(o))) == Ok::<
            DocAttributeView,
            ShapeError,
        >(DocAttributeView::Other(o)),
{
}

} // verus!
