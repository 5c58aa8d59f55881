use vstd::prelude::*;

use crate::error::FmtError;
use crate::kdl::KdlVersion;
use crate::kdl::doc_model;
use crate::kdl::v2_parse_of;

verus! {

/// The partial configuration a project configuration document expresses.
/// Every field is optional: an entry that is absent, or whose first value has
/// the wrong kind, leaves its field unset.
pub struct ConfigFileConfig {
    pub assume_version: Option<KdlVersion>,
    pub ensure_version: Option<KdlVersion>,
    pub strip_comments: Option<bool>,
    pub indent_level: Option<usize>,
}

// --- Names for the entry lookups in a parsed document ------------------------

/// The first entry of the first node with the given name, where that entry is
/// a string value; `None` when no such node, entry or string exists.
pub uninterp spec fn first_string_arg_of(doc: Seq<char>, name: Seq<char>) -> Option<Seq<char>>;

/// The first entry of the first node with the given name, where that entry is
/// a boolean value; `None` when no such node, entry or boolean exists.
pub uninterp spec fn first_bool_arg_of(doc: Seq<char>, name: Seq<char>) -> Option<bool>;

/// The first entry of the first node with the given name, where that entry is
/// an integer value; `None` when no such node, entry or integer exists.
pub uninterp spec fn first_int_arg_of(doc: Seq<char>, name: Seq<char>) -> Option<i128>;

// --- Trusted wrappers over the lookups ---------------------------------------

/// Relies on kdl::KdlDocument::get (first node of that name), then
/// kdl::KdlNode::entries, kdl::KdlEntry::value and kdl::KdlValue::as_string on
/// that node's first entry: a lookup determined by the document's contents.
#[verifier::external_body]
fn first_string_arg(doc: &kdl::KdlDocument, name: &str) -> (r: Option<String>)
    ensures
        r is Some <==> first_string_arg_of(doc_model(*doc), name@) is Some,
        r is Some ==> Some(r->Some_0@) == first_string_arg_of(doc_model(*doc), name@),
{
    doc.get(name).and_then(|node| node.entries().iter().next())
        .and_then(|entry| entry.value().as_string())
        .map(|s| s.to_owned())
}

/// Relies on kdl::KdlDocument::get (first node of that name), then
/// kdl::KdlNode::entries, kdl::KdlEntry::value and kdl::KdlValue::as_bool on
/// that node's first entry: a lookup determined by the document's contents.
#[verifier::external_body]
fn first_bool_arg(doc: &kdl::KdlDocument, name: &str) -> (r: Option<bool>)
    ensures
        r == first_bool_arg_of(doc_model(*doc), name@),
{
    doc.get(name).and_then(|node| node.entries().iter().next())
        .and_then(|entry| entry.value().as_bool())
}

/// Relies on kdl::KdlDocument::get (first node of that name), then
/// kdl::KdlNode::entries, kdl::KdlEntry::value and kdl::KdlValue::as_integer
/// on that node's first entry: a lookup determined by the document's contents.
#[verifier::external_body]
fn first_int_arg(doc: &kdl::KdlDocument, name: &str) -> (r: Option<i128>)
    ensures
        r == first_int_arg_of(doc_model(*doc), name@),
{
    doc.get(name).and_then(|node| node.entries().iter().next())
        .and_then(|entry| entry.value().as_integer())
}

// --- Entry extraction ---------------------------------------------------------

/// The version a version token selects: exactly the literal tokens "v1" and
/// "v2"; any other string selects nothing.
pub open spec fn version_of_token(s: Seq<char>) -> Option<KdlVersion> {
    if s == "v1"@ {
        Some(KdlVersion::V1)
    } else if s == "v2"@ {
        Some(KdlVersion::V2)
    } else {
        None
    }
}

/// The version entry a document holds under the given node name, if any.
pub open spec fn version_entry_of(doc: Seq<char>, name: Seq<char>) -> Option<KdlVersion> {
    match first_string_arg_of(doc, name) {
        Some(token) => version_of_token(token),
        None => None,
    }
}

/// The indentation entry a document holds, with the original's conversion of
/// the integer value to a machine word.
pub open spec fn indent_entry_of(doc: Seq<char>) -> Option<usize> {
    match first_int_arg_of(doc, "indent_level"@) {
        Some(i) => Some(i as usize),
        None => None,
    }
}

/// The full partial configuration a parsed configuration document expresses.
pub open spec fn config_of_document(doc: Seq<char>) -> ConfigFileConfig {
    ConfigFileConfig {
        assume_version: version_entry_of(doc, "assume_version"@),
        ensure_version: version_entry_of(doc, "ensure_version"@),
        strip_comments: first_bool_arg_of(doc, "strip_comments"@),
        indent_level: indent_entry_of(doc),
    }
}

/// The version named by the first string entry of the node with the given
/// name: `"v1"` and `"v2"` exactly; anything else, or a missing node or
/// entry, names no version.
pub fn get_kdl_version_from_node(doc: &kdl::KdlDocument, node_name: &str) -> (r: Option<
    KdlVersion,
>)
    ensures
        r == version_entry_of(doc_model(*doc), node_name@),
{
    match first_string_arg(doc, node_name) {
        Some(version) => {
            if version == "v1".to_owned() {
                Some(KdlVersion::V1)
            } else if version == "v2".to_owned() {
                Some(KdlVersion::V2)
            } else {
                None
            }
        },
        None => None,
    }
}

/// Parse a project configuration document and extract the partial
/// configuration it expresses.  A text that is not valid KDL v2 is fatal;
/// a malformed individual entry merely leaves its field unset.
pub fn get_config_file(content: &str) -> (r: Result<ConfigFileConfig, FmtError>)
    ensures
        r is Ok <==> v2_parse_of(content@) is Some,
        r is Ok ==> r->Ok_0 == config_of_document(v2_parse_of(content@)->Some_0),
        r is Err ==> r->Err_0 is ConfigDocumentInvalid,
{
    let doc = match crate::kdl::parse_v2(content) {
        Ok(doc) => doc,
        Err(e) => {
            return Err(FmtError::ConfigDocumentInvalid(e));
        },
    };

    let indent_level = match first_int_arg(&doc, "indent_level") {
        Some(level) => Some(#[verifier::truncate] (level as usize)),
        None => None,
    };

    let strip_comments = first_bool_arg(&doc, "strip_comments");

    Ok(
        ConfigFileConfig {
            assume_version: get_kdl_version_from_node(&doc, "assume_version"),
            ensure_version: get_kdl_version_from_node(&doc, "ensure_version"),
            strip_comments,
            indent_level,
        },
    )
}

} // verus!
