use vstd::prelude::*;

use crate::kdl::KdlVersion;

verus! {

/// The partial configuration expressed by one command invocation.  Every
/// field is a plain value; the flag-binding layer fills it in and hands it
/// over.  A `false` flag or a `None` level means the invocation expresses no
/// opinion for that field, except for `no_format` and `in_place`, which the
/// invocation always settles.
pub struct Args {
    /// Output the KDL document as v1 spec.
    pub to_v1: bool,
    /// Output the KDL document as v2 spec.
    pub to_v2: bool,
    /// Format a given file in place, instead of printing the formatted document.
    pub in_place: bool,
    /// Remove all comments.
    pub strip_comments: bool,
    /// Number of spaces to indent.
    pub indent_level: Option<usize>,
    /// Just parse and validate the document.
    pub no_format: bool,
    /// Force the use of the v1 parser.
    pub from_v1: bool,
    /// Force the use of the v2 parser.
    pub from_v2: bool,
}

/// The version a pair of version flags selects: the v1 flag wins over the v2
/// flag, and with neither set nothing is selected.
pub open spec fn version_from_flags(v1: bool, v2: bool) -> Option<KdlVersion> {
    if v1 {
        Some(KdlVersion::V1)
    } else if v2 {
        Some(KdlVersion::V2)
    } else {
        None
    }
}

pub fn get_version_from_flags(v1: bool, v2: bool) -> (r: Option<KdlVersion>)
    ensures
        r == version_from_flags(v1, v2),
{
    if v1 {
        return Some(KdlVersion::V1);
    }

    if v2 {
        return Some(KdlVersion::V2);
    }

    None
}

} // verus!
