use kdl_fmt::error::FmtError;
use kdl_fmt::kdl::{format_document, FormatOptions, KdlVersion};

fn options(ensure_version: Option<KdlVersion>) -> FormatOptions {
    FormatOptions {
        ensure_version,
        assume_version: None,
        no_format: false,
        strip_comments: false,
        indent_level: 4,
    }
}

#[test]
fn test_format_document() {
    let input = "\nworld prop=\"value\" {\nchild 1\nchild 2\n}";
    let exp = "world prop=\"value\" {\n    child 1\n    child 2\n}\n";
    let res = format_document(input, &options(None));
    assert!(res.is_ok());
    let res = res.unwrap();
    assert_eq!(res, exp);
}

#[test]
fn test_format_document_keeps_comments() {
    let input = "\nworld prop=\"value\" {\nchild 1\n// some comment\nchild 2\n}";
    let exp = "world prop=\"value\" {\n    child 1\n    // some comment\n    child 2\n}\n";
    let res = format_document(input, &options(None));
    assert!(res.is_ok());
    let res = res.unwrap();
    assert_eq!(res, exp);
}

#[test]
fn test_format_document_ensure_v2() {
    let input = "\nworld prop=\"value\" {\nchild null\n// some comment\nchild 2\n}";
    let exp = "world prop=value {\n    child #null\n    // some comment\n    child 2\n}\n";
    let res = format_document(input, &options(Some(KdlVersion::V2)));
    assert!(res.is_ok());
    let res = res.unwrap();
    assert_eq!(res, exp);
}

#[test]
fn test_format_document_ensure_v1() {
    let input = "\nworld prop=\"value\" {\nchild #null\n// some comment\nchild #true\n}";
    let exp = "world prop=\"value\" {\n    child null\n    // some comment\n    child true\n}\n";
    let res = format_document(input, &options(Some(KdlVersion::V1)));
    assert!(res.is_ok());
    let res = res.unwrap();
    assert_eq!(res, exp);
}

#[test]
fn test_defaults_example() {
    let input = "world prop=\"value\" {\nchild 1\nchild 2\n}";
    let exp = "world prop=\"value\" {\n    child 1\n    child 2\n}\n";
    assert_eq!(format_document(input, &options(None)).unwrap(), exp);
}

#[test]
fn test_strip_comments_removes_comments() {
    let input = "// leading comment\nworld prop=\"value\" {\nchild 1\n// some comment\nchild 2\n}";
    let exp = "world prop=\"value\" {\n    child 1\n    child 2\n}\n";
    let opts = FormatOptions {
        strip_comments: true,
        ..options(None)
    };
    assert_eq!(format_document(input, &opts).unwrap(), exp);
}

#[test]
fn test_indent_level_two() {
    let input = "world prop=\"value\" {\nchild 1\nchild 2\n}";
    let exp = "world prop=\"value\" {\n  child 1\n  child 2\n}\n";
    let opts = FormatOptions {
        indent_level: 2,
        ..options(None)
    };
    assert_eq!(format_document(input, &opts).unwrap(), exp);
}

#[test]
fn test_empty_input_is_accepted_and_stable() {
    let res = format_document("", &options(None));
    assert!(res.is_ok());
    let once = res.unwrap();
    let twice = format_document(&once, &options(None)).unwrap();
    assert_eq!(once, twice);
}

#[test]
fn test_indent_level_zero() {
    let input = "world prop=\"value\" {\nchild 1\nchild 2\n}";
    let exp = "world prop=\"value\" {\nchild 1\nchild 2\n}\n";
    let opts = FormatOptions {
        indent_level: 0,
        ..options(None)
    };
    assert_eq!(format_document(input, &opts).unwrap(), exp);
}

#[test]
fn test_format_twice_is_identity() {
    let input = "\nworld prop=\"value\" {\nchild 1\n// some comment\nchild 2\n}";
    let once = format_document(input, &options(None)).unwrap();
    let twice = format_document(&once, &options(None)).unwrap();
    assert_eq!(once, twice);
}

#[test]
fn test_v2_only_document_is_not_detected_as_v1() {
    // #true is v2-only syntax, so detection must settle on v2 and the
    // output must keep the v2 literal style.
    let input = "world #true\n";
    let exp = "world #true\n";
    assert_eq!(format_document(input, &options(None)).unwrap(), exp);
}

#[test]
fn test_v1_only_document_is_detected_as_v1() {
    // a bare null is v1-only syntax, so detection must settle on v1 and the
    // output must keep the v1 literal style.
    let input = "world null\n";
    let exp = "world null\n";
    assert_eq!(format_document(input, &options(None)).unwrap(), exp);
}

#[test]
fn test_assumed_version_governs_parse() {
    // under an explicit v2 assumption, a v1-only document is a parse error
    // even though it would parse under v1.
    let input = "world null\n";
    let opts = FormatOptions {
        assume_version: Some(KdlVersion::V2),
        ..options(None)
    };
    let res = format_document(input, &opts);
    assert!(matches!(res, Err(FmtError::InputParseFailed(_))));
}

#[test]
fn test_unparseable_input_fails() {
    let res = format_document("world {", &options(None));
    assert!(matches!(res, Err(FmtError::InputParseFailed(_))));
}

#[test]
fn test_no_format_keeps_layout() {
    let input = "world prop=\"value\" {\nchild 1\nchild 2\n}\n";
    let opts = FormatOptions {
        no_format: true,
        ..options(None)
    };
    assert_eq!(format_document(input, &opts).unwrap(), input);
}

fn doc_values(doc: &kdl::KdlDocument) -> Vec<(String, Vec<kdl::KdlValue>, usize)> {
    doc.nodes()
        .iter()
        .map(|node| {
            (
                node.name().value().to_string(),
                node.entries()
                    .iter()
                    .map(|entry| entry.value().clone())
                    .collect(),
                node.children().map(|c| c.nodes().len()).unwrap_or(0),
            )
        })
        .collect()
}

#[test]
fn test_round_trip_v1_v2_v1_preserves_content() {
    let input = "world prop=\"value\" {\n    child null\n    child true\n}\n";
    let no_format_to = |ensure_version| FormatOptions {
        no_format: true,
        ..options(ensure_version)
    };
    let as_v2 = format_document(input, &no_format_to(Some(KdlVersion::V2))).unwrap();
    let back = format_document(&as_v2, &no_format_to(Some(KdlVersion::V1))).unwrap();

    let original = kdl::KdlDocument::parse_v1(input).unwrap();
    let returned = kdl::KdlDocument::parse_v1(&back).unwrap();
    assert_eq!(doc_values(&original), doc_values(&returned));
    let original_children = doc_values(original.get("world").unwrap().children().unwrap());
    let returned_children = doc_values(returned.get("world").unwrap().children().unwrap());
    assert_eq!(original_children, returned_children);
}
