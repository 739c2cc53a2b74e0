use doc_attrs::doc::{parse_doc_attributes, get_comment_attributes, DocAttribute, TextSource};
use doc_attrs::syntax::{ArgTokens, Attr, MacroCallExpr, MetaShape, ShapeError, ValueExpr};

fn doc_path() -> Vec<String> {
    vec!["doc".to_string()]
}

fn lit_attr(text: &str) -> Attr {
    Attr {
        path: doc_path(),
        shape: MetaShape::NameValue(ValueExpr::StrLit(text.to_string())),
    }
}

fn call_value_attr(name: &str, tokens: ArgTokens) -> Attr {
    Attr {
        path: doc_path(),
        shape: MetaShape::NameValue(ValueExpr::MacroCall(MacroCallExpr {
            attributes: vec![],
            path: vec![name.to_string()],
            tokens,
        })),
    }
}

fn inclusion_attr(path: &str) -> Attr {
    call_value_attr("include_str", ArgTokens::StrLit(path.to_string()))
}

fn inline_attr() -> Attr {
    Attr {
        path: doc_path(),
        shape: MetaShape::List(ArgTokens::Word("inline".to_string())),
    }
}

#[test]
fn test_get_comments_borrowed() {
    let doc_attribute = lit_attr("Hello World");
    let comments = parse_doc_attributes(&vec![doc_attribute]);
    assert_eq!(comments.len(), 1);
    assert!(matches!(&comments[0], Ok(DocAttribute::LitStr(s)) if s == "Hello World"));
}

#[test]
fn test_parse_to_doc_type() {
    let doc_attribute: Vec<Attr> = vec![
        inclusion_attr("../test_data/include_tests.txt"),
        lit_attr("Hello World"),
        inline_attr(),
        Attr { path: vec!["async_trait".to_string()], shape: MetaShape::Bare },
    ];
    let doc_type = parse_doc_attributes(&doc_attribute);
    assert_eq!(doc_type.len(), 3);
    assert!(matches!(&doc_type[0], Ok(DocAttribute::InclusionStr(_))));
    assert!(matches!(&doc_type[1], Ok(DocAttribute::LitStr(s)) if s == "Hello World"));
    assert!(matches!(&doc_type[2], Ok(DocAttribute::Inline)));
}

#[test]
fn literal_classifies_in_both_flavors() {
    let strict = DocAttribute::classify_owned(lit_attr("some text")).unwrap();
    assert!(matches!(&strict, DocAttribute::LitStr(s) if s == "some text"));
    let lenient = DocAttribute::classify(&lit_attr("some text")).unwrap();
    assert!(matches!(&lenient, DocAttribute::LitStr(s) if s == "some text"));
}

#[test]
fn literal_emission_reclassifies_equal() {
    let classified = DocAttribute::classify(&lit_attr("round trip")).unwrap();
    let emitted = classified.to_tokens();
    assert_eq!(emitted.path, doc_path());
    let again = DocAttribute::classify(&emitted).unwrap();
    assert!(matches!(&again, DocAttribute::LitStr(s) if s == "round trip"));
}

#[test]
fn inclusion_emission_keeps_keyword_and_path() {
    let classified = DocAttribute::classify(&inclusion_attr("a/b.txt")).unwrap();
    let emitted = classified.to_tokens();
    match &emitted.shape {
        MetaShape::NameValue(ValueExpr::MacroCall(m)) => {
            assert_eq!(m.path, vec!["include_str".to_string()]);
            assert!(matches!(&m.tokens, ArgTokens::StrLit(p) if p == "a/b.txt"));
        }
        other => panic!("unexpected emitted shape: {:?}", other),
    }
    let again = DocAttribute::classify(&emitted).unwrap();
    match again {
        DocAttribute::InclusionStr(m) => {
            assert!(matches!(&m.path, ArgTokens::StrLit(p) if p == "a/b.txt"));
        }
        other => panic!("unexpected reclassification: {:?}", other),
    }
}

#[test]
fn inline_marker_in_both_flavors() {
    let strict = DocAttribute::classify_owned(inline_attr()).unwrap();
    assert!(matches!(strict, DocAttribute::Inline));
    let lenient = DocAttribute::classify(&inline_attr()).unwrap();
    assert!(matches!(lenient, DocAttribute::Inline));
    let again = DocAttribute::classify(&DocAttribute::Inline.to_tokens()).unwrap();
    assert!(matches!(again, DocAttribute::Inline));
}

#[test]
fn unknown_call_value_is_asymmetric() {
    let attr = call_value_attr("some_other_macro", ArgTokens::Word("x".to_string()));
    let strict = DocAttribute::classify_owned(attr.duplicate());
    assert!(matches!(strict, Err(ShapeError::ExpectedStringOrInclusionCall)));
    let lenient = DocAttribute::classify(&attr).unwrap();
    match lenient {
        DocAttribute::Other(kept) => {
            assert_eq!(kept.path, attr.path);
            match (&kept.shape, &attr.shape) {
                (
                    MetaShape::NameValue(ValueExpr::MacroCall(a)),
                    MetaShape::NameValue(ValueExpr::MacroCall(b)),
                ) => {
                    assert_eq!(a.path, b.path);
                    assert!(matches!(&a.tokens, ArgTokens::Word(w) if w == "x"));
                    assert!(matches!(&b.tokens, ArgTokens::Word(w) if w == "x"));
                }
                other => panic!("unexpected shapes: {:?}", other),
            }
        }
        other => panic!("expected the opaque variant, got {:?}", other),
    }
}

#[test]
fn opaque_round_trip_is_stable() {
    let attr = call_value_attr("some_other_macro", ArgTokens::Word("x".to_string()));
    let first = DocAttribute::classify(&attr).unwrap();
    let emitted = first.to_tokens();
    assert_eq!(emitted.path, attr.path);
    let second = DocAttribute::classify(&emitted).unwrap();
    match (first, second) {
        (DocAttribute::Other(a), DocAttribute::Other(b)) => {
            assert_eq!(a.path, b.path);
        }
        other => panic!("expected two opaque results, got {:?}", other),
    }
}

#[test]
fn other_expression_value_is_asymmetric() {
    let attr = Attr {
        path: doc_path(),
        shape: MetaShape::NameValue(ValueExpr::OtherExpr("1 + 2".to_string())),
    };
    let strict = DocAttribute::classify_owned(attr.duplicate());
    assert!(matches!(strict, Err(ShapeError::ExpectedStringOrInclusionCall)));
    let lenient = DocAttribute::classify(&attr).unwrap();
    assert!(matches!(lenient, DocAttribute::Other(_)));
}

#[test]
fn non_inline_list_fails_in_both_flavors() {
    let attr = Attr {
        path: doc_path(),
        shape: MetaShape::List(ArgTokens::Word("hidden".to_string())),
    };
    assert!(matches!(
        DocAttribute::classify_owned(attr.duplicate()),
        Err(ShapeError::ExpectedInline)
    ));
    assert!(matches!(DocAttribute::classify(&attr), Err(ShapeError::ExpectedInline)));
}

#[test]
fn bare_doc_annotation_fails() {
    let attr = Attr { path: doc_path(), shape: MetaShape::Bare };
    assert!(matches!(
        DocAttribute::classify_owned(attr.duplicate()),
        Err(ShapeError::ExpectedDocAttribute)
    ));
    assert!(matches!(DocAttribute::classify(&attr), Err(ShapeError::ExpectedDocAttribute)));
}

#[test]
fn non_doc_annotation_is_rejected_by_classify() {
    let attr = Attr { path: vec!["serde".to_string()], shape: MetaShape::Bare };
    assert!(matches!(DocAttribute::classify(&attr), Err(ShapeError::ExpectedDocAttribute)));
}

#[test]
fn batch_collects_failures_per_item() {
    let attrs = vec![
        lit_attr("first"),
        Attr { path: doc_path(), shape: MetaShape::List(ArgTokens::Word("no".to_string())) },
        lit_attr("third"),
    ];
    let results = parse_doc_attributes(&attrs);
    assert_eq!(results.len(), 3);
    assert!(matches!(&results[0], Ok(DocAttribute::LitStr(s)) if s == "first"));
    assert!(matches!(&results[1], Err(ShapeError::ExpectedInline)));
    assert!(matches!(&results[2], Ok(DocAttribute::LitStr(s)) if s == "third"));
}

#[test]
fn parse_inner_is_strict_and_filters() {
    let attrs = vec![
        Attr { path: vec!["allow".to_string()], shape: MetaShape::Bare },
        call_value_attr("some_other_macro", ArgTokens::Word("x".to_string())),
        lit_attr("kept"),
    ];
    let results = DocAttribute::parse_inner(attrs);
    assert_eq!(results.len(), 2);
    assert!(matches!(&results[0], Err(ShapeError::ExpectedStringOrInclusionCall)));
    assert!(matches!(&results[1], Ok(DocAttribute::LitStr(s)) if s == "kept"));
}

#[test]
fn comment_attributes_are_filtered_in_order() {
    let attrs = vec![
        Attr { path: vec!["allow".to_string()], shape: MetaShape::Bare },
        lit_attr("one"),
        inline_attr(),
    ];
    let kept = get_comment_attributes(&attrs);
    assert_eq!(kept.len(), 2);
    assert_eq!(kept[0].path, doc_path());
    assert!(matches!(
        &kept[0].shape,
        MetaShape::NameValue(ValueExpr::StrLit(s)) if s == "one"
    ));
    assert!(matches!(&kept[1].shape, MetaShape::List(ArgTokens::Word(w)) if w == "inline"));
}

#[test]
fn empty_annotation_list_gives_empty_batch() {
    let none: Vec<Attr> = vec![];
    assert_eq!(parse_doc_attributes(&none).len(), 0);
    assert_eq!(get_comment_attributes(&none).len(), 0);
    assert_eq!(DocAttribute::parse_inner(none).len(), 0);
}

#[test]
fn text_source_of_each_variant() {
    let lit = DocAttribute::classify(&lit_attr("the text")).unwrap();
    assert!(matches!(lit.text_source(), Ok(TextSource::Literal(s)) if s == "the text"));

    let incl = DocAttribute::classify(&inclusion_attr("notes.txt")).unwrap();
    assert!(matches!(incl.text_source(), Ok(TextSource::FileAt(p)) if p == "notes.txt"));

    let inline = DocAttribute::classify(&inline_attr()).unwrap();
    assert!(matches!(inline.text_source(), Ok(TextSource::Absent)));

    let bad = DocAttribute::classify(&call_value_attr(
        "include_str",
        ArgTokens::Word("not_a_literal".to_string()),
    ))
    .unwrap();
    assert!(matches!(bad.text_source(), Err(ShapeError::ExpectedStringLiteral)));
}
