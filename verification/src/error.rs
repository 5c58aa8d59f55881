use vstd::prelude::*;

verus! {

/// Why a run was refused: either the invocation itself is inconsistent, a
/// configuration document is unusable, or the input failed to parse.  Parse
/// failures carry the parser's own diagnostic so the caller can surface it
/// verbatim.
#[derive(Debug)]
pub enum FmtError {
    /// Both output-version flags were set at once.
    ConflictingOptions,
    /// In-place output was requested but the input has no filename.
    MissingTargetForInPlace,
    /// The project configuration document exists but is not valid KDL v2.
    ConfigDocumentInvalid(kdl::KdlError),
    /// The input document does not parse under the applicable grammar version.
    InputParseFailed(kdl::KdlError),
}

impl FmtError {
    /// A short description of the failure, for callers that print diagnostics.
    pub fn message(&self) -> (r: &'static str)
        ensures
            r@ == match *self {
                FmtError::ConflictingOptions => "cannot output in v1 and v2 spec at the same time"@,
                FmtError::MissingTargetForInPlace => "cannot format STDIN with --in-place, due to missing filename"@,
                FmtError::ConfigDocumentInvalid(_) => "the configuration file is not a valid KDL v2 document"@,
                FmtError::InputParseFailed(_) => "the input is not a valid KDL document"@,
            },
    {
        match self {
            FmtError::ConflictingOptions => "cannot output in v1 and v2 spec at the same time",
            FmtError::MissingTargetForInPlace => {
                "cannot format STDIN with --in-place, due to missing filename"
            },
            FmtError::ConfigDocumentInvalid(_) => {
                "the configuration file is not a valid KDL v2 document"
            },
            FmtError::InputParseFailed(_) => "the input is not a valid KDL document",
        }
    }
}

} // verus!
