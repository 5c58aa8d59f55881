use vstd::prelude::*;

use crate::error::FmtError;

verus! {

// --- The outside kdl crate, declared for Verus ------------------------------

/// kdl::KdlDocument, the outside parser's document tree, held opaquely.
#[verifier::external_type_specification]
#[verifier::external_body]
pub struct ExKdlDocument(kdl::KdlDocument);

/// kdl::KdlError, the outside parser's diagnostic for a failed parse.
#[verifier::external_type_specification]
#[verifier::external_body]
pub struct ExKdlError(kdl::KdlError);

// --- Names for what the outside calls return ---------------------------------
//
// A `kdl::KdlDocument` is format-preserving: everything it holds (nodes,
// values, comments, whitespace) is written back out by its `Display`
// implementation, so a document is modelled here by the text it renders to.

/// The text that a document renders to (what `Display` writes).
pub uninterp spec fn doc_model(d: kdl::KdlDocument) -> Seq<char>;

/// What `kdl::KdlDocument::parse_v1` yields on the given text: `None` when the
/// text is not a v1 document, otherwise the rendering of the parsed document.
pub uninterp spec fn v1_parse_of(s: Seq<char>) -> Option<Seq<char>>;

/// What `kdl::KdlDocument::parse_v2` yields on the given text: `None` when the
/// text is not a v2 document, otherwise the rendering of the parsed document.
pub uninterp spec fn v2_parse_of(s: Seq<char>) -> Option<Seq<char>>;

/// The rendering of a document after `kdl::KdlDocument::autoformat_config`
/// with the given comment-stripping switch and indentation unit.
pub uninterp spec fn autoformatted(doc: Seq<char>, strip_comments: bool, indent: Seq<char>) -> Seq<
    char,
>;

/// The rendering of a document after `kdl::KdlDocument::ensure_v1`.
pub uninterp spec fn ensured_v1(doc: Seq<char>) -> Seq<char>;

/// The rendering of a document after `kdl::KdlDocument::ensure_v2`.
pub uninterp spec fn ensured_v2(doc: Seq<char>) -> Seq<char>;

// --- Trusted wrappers over the outside calls ---------------------------------

/// Relies on kdl::KdlDocument::parse_v1: deterministic parse of the text as
/// KDL v1, failing exactly on non-v1 input.
#[verifier::external_body]
fn parse_v1(input: &str) -> (r: Result<kdl::KdlDocument, kdl::KdlError>)
    ensures
        r is Ok <==> v1_parse_of(input@) is Some,
        r is Ok ==> Some(doc_model(r->Ok_0)) == v1_parse_of(input@),
{
    kdl::KdlDocument::parse_v1(input)
}

/// Relies on kdl::KdlDocument::parse_v2: deterministic parse of the text as
/// KDL v2, failing exactly on non-v2 input.
#[verifier::external_body]
pub(crate) fn parse_v2(input: &str) -> (r: Result<kdl::KdlDocument, kdl::KdlError>)
    ensures
        r is Ok <==> v2_parse_of(input@) is Some,
        r is Ok ==> Some(doc_model(r->Ok_0)) == v2_parse_of(input@),
{
    kdl::KdlDocument::parse_v2(input)
}

/// Relies on kdl::KdlDocument::autoformat_config, with a configuration built
/// by kdl::FormatConfigBuilder (`no_comments`, `indent`): rewrites the
/// document in place as a function of its contents and these two settings.
#[verifier::external_body]
fn autoformat(doc: &mut kdl::KdlDocument, strip_comments: bool, indent: &str)
    ensures
        doc_model(*final(doc)) == autoformatted(doc_model(*old(doc)), strip_comments, indent@),
{
    let config = kdl::FormatConfigBuilder::new().no_comments(strip_comments).indent(indent);
    doc.autoformat_config(&config.build());
}

/// Relies on kdl::KdlDocument::ensure_v1: rewrites the document's tokens into
/// v1 syntax in place, as a function of its contents alone.
#[verifier::external_body]
fn ensure_v1(doc: &mut kdl::KdlDocument)
    ensures
        doc_model(*final(doc)) == ensured_v1(doc_model(*old(doc))),
{
    doc.ensure_v1();
}

/// Relies on kdl::KdlDocument::ensure_v2: rewrites the document's tokens into
/// v2 syntax in place, as a function of its contents alone.
#[verifier::external_body]
fn ensure_v2(doc: &mut kdl::KdlDocument)
    ensures
        doc_model(*final(doc)) == ensured_v2(doc_model(*old(doc))),
{
    doc.ensure_v2();
}

/// Relies on kdl::KdlDocument's Display implementation: writes the document's
/// full contents back out as text.
#[verifier::external_body]
fn render(doc: &kdl::KdlDocument) -> (r: String)
    ensures
        r@ == doc_model(*doc),
{
    doc.to_string()
}

/// Relies on str::repeat: the one-character string repeated `n` times.
#[verifier::external_body]
fn spaces(n: usize) -> (r: String)
    ensures
        r@ == indent_unit(n as nat),
{
    " ".repeat(n)
}

// --- The version-detection and format pipeline -------------------------------

/// One of the two mutually incompatible dialects of the KDL document grammar.
#[derive(PartialEq, Eq, Structural, Debug, Copy, Clone)]
pub enum KdlVersion {
    V1,
    V2,
}

/// How one run of the pipeline treats its input document.
pub struct FormatOptions {
    // input format
    pub assume_version: Option<KdlVersion>,
    pub ensure_version: Option<KdlVersion>,
    // dry-run for validation only
    pub no_format: bool,
    // further formatting options
    pub strip_comments: bool,
    pub indent_level: usize,
}

/// The grammar version a run works under: an explicit assumption is final;
/// otherwise the version is V1 exactly when the v1 parse succeeds, and V2 in
/// every other case.
pub open spec fn detected_version(s: Seq<char>, assume_version: Option<KdlVersion>) -> KdlVersion {
    match assume_version {
        Some(v) => v,
        None => if v1_parse_of(s) is Some {
            KdlVersion::V1
        } else {
            KdlVersion::V2
        },
    }
}

/// What parsing the text under the given grammar version yields.
pub open spec fn parse_of(v: KdlVersion, s: Seq<char>) -> Option<Seq<char>> {
    match v {
        KdlVersion::V1 => v1_parse_of(s),
        KdlVersion::V2 => v2_parse_of(s),
    }
}

/// The version the output is rendered under: the requested one where a request
/// was made, the detected one otherwise.
pub open spec fn target_version(detected: KdlVersion, ensure_version: Option<KdlVersion>) -> KdlVersion {
    match ensure_version {
        Some(v) => v,
        None => detected,
    }
}

/// An indentation unit of `n` spaces.
pub open spec fn indent_unit(n: nat) -> Seq<char> {
    Seq::new(n, |i: int| ' ')
}

/// The text one pipeline run produces on input that parses: parse under the
/// detected version, normalize unless disabled, then render under the target
/// version.
pub open spec fn pipeline_output(s: Seq<char>, options: FormatOptions) -> Seq<char>
    recommends
        parse_of(detected_version(s, options.assume_version), s) is Some,
{
    let detected = detected_version(s, options.assume_version);
    let parsed = parse_of(detected, s)->Some_0;
    let formatted = if options.no_format {
        parsed
    } else {
        autoformatted(parsed, options.strip_comments, indent_unit(options.indent_level as nat))
    };
    match target_version(detected, options.ensure_version) {
        KdlVersion::V1 => ensured_v1(formatted),
        KdlVersion::V2 => ensured_v2(formatted),
    }
}

/// Detect-or-assume the input's grammar version, then parse it under that
/// version.  The error is the parser's diagnostic for that version: when both
/// grammars fail, detection settles on V2, so the V2 diagnostic is returned.
fn parse_document(input: &str, assume_version: &Option<KdlVersion>) -> (r: Result<
    (kdl::KdlDocument, KdlVersion),
    FmtError,
>)
    ensures
        r is Ok <==> parse_of(detected_version(input@, *assume_version), input@) is Some,
        r is Ok ==> {
            &&& r->Ok_0.1 == detected_version(input@, *assume_version)
            &&& Some(doc_model(r->Ok_0.0)) == parse_of(detected_version(input@, *assume_version), input@)
        },
        r is Err ==> r->Err_0 is InputParseFailed,
{
    let version = match assume_version {
        Some(version) => *version,
        None => match parse_v1(input) {
            Ok(_) => KdlVersion::V1,
            Err(_) => KdlVersion::V2,
        },
    };

    match version {
        KdlVersion::V1 => match parse_v1(input) {
            Ok(doc) => Ok((doc, KdlVersion::V1)),
            Err(e) => Err(FmtError::InputParseFailed(e)),
        },
        KdlVersion::V2 => match parse_v2(input) {
            Ok(doc) => Ok((doc, KdlVersion::V2)),
            Err(e) => Err(FmtError::InputParseFailed(e)),
        },
    }
}

/// One full pipeline run: detect-or-assume the version, parse, normalize
/// unless disabled, and render under the target version.  Succeeds exactly
/// when the input parses under the version that detection settles on.
pub fn format_document(input: &str, options: &FormatOptions) -> (r: Result<String, FmtError>)
    ensures
        r is Ok <==> parse_of(detected_version(input@, options.assume_version), input@) is Some,
        r is Ok ==> r->Ok_0@ == pipeline_output(input@, *options),
        r is Err ==> r->Err_0 is InputParseFailed,
{
    let parsed = match parse_document(input, &options.assume_version) {
        Ok(p) => p,
        Err(e) => {
            return Err(e);
        },
    };
    let mut doc = parsed.0;
    let version = parsed.1;

    let indent = spaces(options.indent_level);

    if !options.no_format {
        autoformat(&mut doc, options.strip_comments, indent.as_str());
    }

    match options.ensure_version {
        Some(KdlVersion::V1) => ensure_v1(&mut doc),
        Some(KdlVersion::V2) => ensure_v2(&mut doc),
        None => match version {
            // use the detected format, if no conversion is required
            KdlVersion::V1 => ensure_v1(&mut doc),
            KdlVersion::V2 => ensure_v2(&mut doc),
        },
    }

    Ok(render(&doc))
}

/// Detection never misreports a version: a document that parses only under
/// one grammar is detected as that grammar, and an explicit assumption is
/// taken as it stands.
pub proof fn lemma_detection_sound(s: Seq<char>, v: KdlVersion)
    ensures
        v1_parse_of(s) is Some && v2_parse_of(s) is None ==> detected_version(s, None)
            == KdlVersion::V1,
        v2_parse_of(s) is Some && v1_parse_of(s) is None ==> detected_version(s, None)
            == KdlVersion::V2,
        detected_version(s, Some(v)) == v,
{
}

} // verus!
