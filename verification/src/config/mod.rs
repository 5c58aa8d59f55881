use vstd::prelude::*;

use crate::error::FmtError;
use crate::kdl::KdlVersion;
use crate::kdl::v2_parse_of;

pub mod args;
pub mod file;

use args::Args;
use args::version_from_flags;
use file::ConfigFileConfig;
use file::config_of_document;

verus! {

/// The fully resolved configuration of one run: the merge of the built-in
/// defaults, the project configuration document and the invocation flags, in
/// that precedence order, together with the run's input.
#[derive(Clone)]
pub struct Config {
    // version constraints
    pub assume_format: Option<KdlVersion>,
    pub ensure_format: Option<KdlVersion>,
    // input
    pub content: String,
    pub filename: Option<String>,
    // format config
    pub strip_comments: bool,
    pub indent_level: usize,
    // misc. config
    pub no_format: bool,
    pub in_place: bool,
}

/// The mathematical value of a `Config`, with the text fields as character
/// sequences.
pub struct ConfigModel {
    pub assume_format: Option<KdlVersion>,
    pub ensure_format: Option<KdlVersion>,
    pub content: Seq<char>,
    pub filename: Option<Seq<char>>,
    pub strip_comments: bool,
    pub indent_level: usize,
    pub no_format: bool,
    pub in_place: bool,
}

/// The character sequence behind an optional string.
pub open spec fn filename_model(o: Option<String>) -> Option<Seq<char>> {
    match o {
        Some(s) => Some(s@),
        None => None,
    }
}

impl View for Config {
    type V = ConfigModel;

    open spec fn view(&self) -> ConfigModel {
        ConfigModel {
            assume_format: self.assume_format,
            ensure_format: self.ensure_format,
            content: self.content@,
            filename: filename_model(self.filename),
            strip_comments: self.strip_comments,
            indent_level: self.indent_level,
            no_format: self.no_format,
            in_place: self.in_place,
        }
    }
}

/// The built-in defaults: auto-detect the version, keep it on output, keep
/// comments, indent by four spaces, normalize, print to standard output.
pub open spec fn default_config() -> ConfigModel {
    ConfigModel {
        assume_format: None,
        ensure_format: None,
        content: Seq::<char>::empty(),
        filename: None,
        strip_comments: false,
        indent_level: 4,
        no_format: false,
        in_place: false,
    }
}

/// A configuration overlaid with every field the project configuration
/// document sets.  The two version fields are taken from the document as
/// they stand (an absent entry sets them back to "detect" / "keep"), which
/// coincides with overlaying since the base in use holds no version either.
pub open spec fn project_overlaid(base: ConfigModel, project: Option<ConfigFileConfig>) -> ConfigModel {
    match project {
        None => base,
        Some(p) => ConfigModel {
            assume_format: p.assume_version,
            ensure_format: p.ensure_version,
            strip_comments: match p.strip_comments {
                Some(strip) => strip,
                None => base.strip_comments,
            },
            indent_level: match p.indent_level {
                Some(level) => level,
                None => base.indent_level,
            },
            ..base
        },
    }
}

/// A configuration overlaid with every field the invocation sets.  The two
/// always-settled flags (`no_format`, `in_place`) are taken as they stand.
pub open spec fn args_overlaid(base: ConfigModel, a: Args) -> ConfigModel {
    ConfigModel {
        assume_format: if a.from_v1 || a.from_v2 {
            version_from_flags(a.from_v1, a.from_v2)
        } else {
            base.assume_format
        },
        ensure_format: if a.to_v1 || a.to_v2 {
            version_from_flags(a.to_v1, a.to_v2)
        } else {
            base.ensure_format
        },
        strip_comments: if a.strip_comments {
            true
        } else {
            base.strip_comments
        },
        indent_level: match a.indent_level {
            Some(level) => level,
            None => base.indent_level,
        },
        no_format: a.no_format,
        in_place: a.in_place,
        ..base
    }
}

/// The full three-layer merge: defaults, then the project configuration
/// document, then the invocation.
pub open spec fn resolved(project: Option<ConfigFileConfig>, a: Args) -> ConfigModel {
    args_overlaid(project_overlaid(default_config(), project), a)
}

/// The value behind an optional reference.
pub open spec fn option_deref<T>(o: Option<&T>) -> Option<T> {
    match o {
        Some(t) => Some(*t),
        None => None,
    }
}

impl Config {
    /// The defaults, with every field the project configuration sets
    /// overlaid on top.
    pub fn from_config_file_or_default(project: Option<&ConfigFileConfig>) -> (r: Self)
        ensures
            r@ == project_overlaid(default_config(), option_deref(project)),
    {
        let mut conf = Config::default();

        if let Some(config_file_config) = project {
            conf.assume_format = config_file_config.assume_version;
            conf.ensure_format = config_file_config.ensure_version;

            if let Some(indent_level) = config_file_config.indent_level {
                conf.indent_level = indent_level;
            }

            if let Some(strip_comments) = config_file_config.strip_comments {
                conf.strip_comments = strip_comments;
            }
        }

        conf
    }

    /// Overlay every field the invocation sets onto this configuration.
    pub fn merge_args(&mut self, a: &Args) -> (r: &mut Self)
        ensures
            (*r)@ == args_overlaid(old(self)@, *a),
            *final(self) == *final(r),
    {
        if a.from_v1 || a.from_v2 {
            self.assume_format = args::get_version_from_flags(a.from_v1, a.from_v2);
        }

        if a.to_v1 || a.to_v2 {
            self.ensure_format = args::get_version_from_flags(a.to_v1, a.to_v2);
        }

        if a.strip_comments {
            self.strip_comments = true;
        }

        if let Some(level) = a.indent_level {
            self.indent_level = level;
        }

        self.no_format = a.no_format;
        self.in_place = a.in_place;
        self
    }

    /// The full three-layer merge, from the already-extracted project
    /// configuration and the invocation.
    pub fn new(a: &Args, project: Option<&ConfigFileConfig>) -> (r: Self)
        ensures
            r@ == resolved(option_deref(project), *a),
    {
        let mut conf = Self::from_config_file_or_default(project);
        conf.merge_args(a);
        conf
    }
}

impl Default for Config {
    /// The built-in defaults.
    fn default() -> (r: Self)
        ensures
            r@ == default_config(),
    {
        Config {
            assume_format: None,
            ensure_format: None,
            content: new_string(),
            filename: None,
            strip_comments: false,
            indent_level: 4,
            no_format: false,
            in_place: false,
        }
    }
}

fn new_string() -> (r: String)
    ensures
        r@ == Seq::<char>::empty(),
{
    String::new()
}

/// The partial configuration the optional project document expresses, for a
/// document that parses.
pub open spec fn project_of_file(config_file: Option<&str>) -> Option<ConfigFileConfig> {
    match config_file {
        Some(text) => Some(config_of_document(v2_parse_of(text@)->Some_0)),
        None => None,
    }
}

/// Resolve one invocation in full: validate the mutually exclusive
/// output-version flags and the in-place target, extract the project
/// configuration if a document was found, and merge the three layers.
///
/// Exactly one of four outcomes holds, checked in this order: both output
/// flags set; in-place without a filename; a project configuration document
/// that does not parse; the resolved configuration.
pub fn get_config(a: &Args, config_file: Option<&str>, content: String, filename: Option<String>) -> (r:
    Result<Config, FmtError>)
    ensures
        (r is Err && r->Err_0 is ConflictingOptions) <==> a.to_v1 && a.to_v2,
        (r is Err && r->Err_0 is MissingTargetForInPlace) <==> !(a.to_v1 && a.to_v2) && a.in_place
            && filename is None,
        (r is Err && r->Err_0 is ConfigDocumentInvalid) <==> !(a.to_v1 && a.to_v2) && !(a.in_place
            && filename is None) && config_file is Some && v2_parse_of(config_file->Some_0@) is None,
        r is Ok <==> !(a.to_v1 && a.to_v2) && !(a.in_place && filename is None) && (
        config_file is Some ==> v2_parse_of(config_file->Some_0@) is Some),
        r is Ok ==> r->Ok_0@ == (ConfigModel {
            content: content@,
            filename: filename_model(filename),
            ..resolved(project_of_file(config_file), *a)
        }),
{
    if a.to_v1 && a.to_v2 {
        return Err(FmtError::ConflictingOptions);
    }

    if filename.is_none() && a.in_place {
        return Err(FmtError::MissingTargetForInPlace);
    }

    let project = match config_file {
        Some(text) => match file::get_config_file(text) {
            Ok(p) => Some(p),
            Err(e) => {
                return Err(e);
            },
        },
        None => None,
    };

    let mut conf = Config::new(a, project.as_ref());

    conf.content = content;
    conf.filename = filename;

    Ok(conf)
}

/// Invocation flags override the project configuration document, which
/// overrides the defaults, independently for every field.
pub proof fn lemma_merge_precedence(p: ConfigFileConfig, a: Args)
    ensures
        ({
            let c = resolved(Some(p), a);
            &&& (a.indent_level is Some ==> c.indent_level == a.indent_level->Some_0)
            &&& (a.indent_level is None && p.indent_level is Some ==> c.indent_level
                == p.indent_level->Some_0)
            &&& (a.indent_level is None && p.indent_level is None ==> c.indent_level == 4)
            &&& (a.strip_comments ==> c.strip_comments)
            &&& (!a.strip_comments && p.strip_comments is Some ==> c.strip_comments
                == p.strip_comments->Some_0)
            &&& (!a.strip_comments && p.strip_comments is None ==> !c.strip_comments)
            &&& (a.from_v1 || a.from_v2 ==> c.assume_format == version_from_flags(
                a.from_v1,
                a.from_v2,
            ))
            &&& (!(a.from_v1 || a.from_v2) ==> c.assume_format == p.assume_version)
            &&& (a.to_v1 || a.to_v2 ==> c.ensure_format == version_from_flags(a.to_v1, a.to_v2))
            &&& (!(a.to_v1 || a.to_v2) ==> c.ensure_format == p.ensure_version)
            &&& c.no_format == a.no_format
            &&& c.in_place == a.in_place
        }),
{
}

} // verus!
