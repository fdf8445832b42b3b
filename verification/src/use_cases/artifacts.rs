//! Decisions of the `artifacts` use case: which source-set a release artifact
//! is built from, where it may be published, and what the result reports.
//!
//! The caller inspects the filesystem, runs the Designer export and publishes
//! the staged file; the functions here decide from what it found.

use vstd::prelude::*;
use vstd::string::StringSliceAdditionalSpecFns;
use sha2::{Digest, Sha256};
use crate::config::model::{AppConfig, BuilderBackend, SourceFormat, SourceSetConfig, SourceSetPurpose};
use crate::domain::artifact::{ArtifactRef, ArtifactSet};
use crate::domain::artifacts::{ArtifactBuildMetadata, ArtifactBuildMode, ArtifactsResult, mode_extension};
use crate::domain::execution::{ExecutionError, ExecutionOutcome, ExecutionStatus};
use crate::path::{extension, extension_seq, file_name, file_name_seq, join, join_seq, parent, parent_seq};
use crate::platform::result::PlatformCommandResult;
use crate::support::error::AppError;
use crate::text::{
    bytes_to_hex, contains_str, decimal, occurs_at, is_empty_text, find_from, hex, hex_bytes, i32_to_decimal, is_blank, is_first_occurrence,
    join_strings, joined, signed_decimal, str_eq, to_chars, trim, trim_seq, u64_to_decimal, u64_to_hex, views_of,
    string_from_range, contains_seq,
};
use crate::use_cases::init_project::{derefs, of_purpose};
use crate::use_cases::request::{ArtifactsModeRequest, ArtifactsRequest, RunnerKind};
use crate::use_cases::result::{app_error_kind, app_error_message, UseCaseErrorKind};

verus! {

/// The error reported when the configuration or the request selects a
/// backend other than Designer.
pub const SUPPORTED_ARTIFACTS_ERROR: &'static str =
    "artifacts currently supports only builder=DESIGNER with designer backend profile";

/// How old, in seconds, a leftover temporary file must be before it is removed.
pub const ORPHAN_TTL_SECS: u64 = 86400;

/// The artifact kind a request builds.
pub open spec fn mode_of(m: ArtifactsModeRequest) -> ArtifactBuildMode {
    match m {
        ArtifactsModeRequest::ConfigurationCf => ArtifactBuildMode::ConfigurationCf,
        ArtifactsModeRequest::ExtensionCfe => ArtifactBuildMode::ExtensionCfe,
    }
}

/// The artifact built is the kind requested: its file extension is the one
/// the output path must carry for that request, and different requests build
/// different kinds.
pub proof fn lemma_mode_keeps_the_kind(a: ArtifactsModeRequest, b: ArtifactsModeRequest)
    ensures
        mode_extension(mode_of(a)) == expected_extension(a),
        a != b ==> mode_of(a) != mode_of(b),
        mode_of(a) != ArtifactBuildMode::Unknown,
{
    reveal_strlit("cf");
    reveal_strlit("cfe");
    reveal_strlit("epf");
    reveal_strlit("erf");
    reveal_strlit("unknown");
}

/// Maps the requested mode to the artifact kind.
pub fn map_mode(mode: ArtifactsModeRequest) -> (m: ArtifactBuildMode)
    ensures
        m == mode_of(mode),
        mode_extension(m) == expected_extension(mode),
{
    proof { lemma_mode_keeps_the_kind(mode, mode); }
    match mode {
        ArtifactsModeRequest::ConfigurationCf => ArtifactBuildMode::ConfigurationCf,
        ArtifactsModeRequest::ExtensionCfe => ArtifactBuildMode::ExtensionCfe,
    }
}

/// Whether the configuration and the request's profile select the Designer
/// backend and the runner of the requested kind.
pub open spec fn supported(config: AppConfig, args: ArtifactsRequest) -> bool {
    &&& config.builder == BuilderBackend::Designer
    &&& args.profile.backend_hint matches Some(h) && h@ == "designer"@
    &&& args.profile.kind == (match args.mode {
        ArtifactsModeRequest::ConfigurationCf => RunnerKind::Cf,
        ArtifactsModeRequest::ExtensionCfe => RunnerKind::Cfe,
    })
}

/// Refuses a configuration or profile that does not select Designer.
pub fn validate_supported_matrix(config: &AppConfig, args: &ArtifactsRequest) -> (r: Option<AppError>)
    ensures
        supported(*config, *args) <==> r is None,
        r matches Some(e) ==> (e matches AppError::Validation(m) && m@ == SUPPORTED_ARTIFACTS_ERROR@),
{
    let unsupported = Some(AppError::Validation(String::from_str(SUPPORTED_ARTIFACTS_ERROR)));
    if config.builder != BuilderBackend::Designer {
        return unsupported;
    }
    let designer_hint = match &args.profile.backend_hint {
        Some(h) => str_eq(h.as_str(), "designer"),
        None => false,
    };
    if !designer_hint {
        return unsupported;
    }
    let expected = match args.mode {
        ArtifactsModeRequest::ConfigurationCf => RunnerKind::Cf,
        ArtifactsModeRequest::ExtensionCfe => RunnerKind::Cfe,
    };
    if args.profile.kind != expected {
        return unsupported;
    }
    None
}

/// The extension an output file must have for a mode.
pub open spec fn expected_extension(m: ArtifactsModeRequest) -> Seq<char> {
    match m {
        ArtifactsModeRequest::ConfigurationCf => "cf"@,
        ArtifactsModeRequest::ExtensionCfe => "cfe"@,
    }
}

/// What checking the output path yields: the trimmed path, or the reason it
/// is refused. `output_is_dir` tells whether the trimmed path is a directory.
pub open spec fn output_path_check(args: ArtifactsRequest, output_is_dir: bool) -> Result<Seq<char>, Seq<char>> {
    let output = trim_seq(args.output_path@);
    if output.len() == 0 {
        Err("artifacts requires non-empty --output"@)
    } else if extension_seq(output) != Some(expected_extension(args.mode)) {
        Err("artifacts output must end with ."@ + expected_extension(args.mode))
    } else if output_is_dir {
        Err("artifacts output must be a file, got directory '"@ + output + "'"@)
    } else {
        Ok(output)
    }
}

/// Checks the requested output path: not blank, with the extension of the
/// mode, and not a directory.
pub fn validate_output_path(args: &ArtifactsRequest, output_is_dir: bool) -> (r: Result<String, AppError>)
    ensures
        match output_path_check(*args, output_is_dir) {
            Ok(p) => r matches Ok(s) && s@ == p,
            Err(m) => r matches Err(AppError::Validation(s)) && s@ == m,
        },
{
    let output = trim(args.output_path.as_str());
    if is_empty_text(output.as_str()) {
        return Err(AppError::Validation(String::from_str("artifacts requires non-empty --output")));
    }
    let expected = match args.mode {
        ArtifactsModeRequest::ConfigurationCf => "cf",
        ArtifactsModeRequest::ExtensionCfe => "cfe",
    };
    let matches = match extension(output.as_str()) {
        Some(e) => str_eq(e.as_str(), expected),
        None => false,
    };
    if !matches {
        return Err(AppError::Validation(String::from_str("artifacts output must end with .").concat(expected)));
    }
    if output_is_dir {
        return Err(AppError::Validation(String::from_str("artifacts output must be a file, got directory '")
            .concat(output.as_str()).concat("'")));
    }
    Ok(output)
}

/// The text between the first `<tag>` and the first `</tag>` after it, trimmed.
pub open spec fn xml_tag_text(contents: Seq<char>, tag: Seq<char>) -> Option<Seq<char>> {
    let open = "<"@ + tag + ">"@;
    let close = "</"@ + tag + ">"@;
    if !contains_seq(contents, open) {
        None
    } else {
        let i = choose|i: int| is_first_occurrence(contents, open, 0, i);
        let start = i + open.len();
        let rest = contents.subrange(start, contents.len() as int);
        if !contains_seq(rest, close) {
            None
        } else {
            let j = choose|j: int| is_first_occurrence(rest, close, 0, j);
            Some(trim_seq(rest.subrange(0, j)))
        }
    }
}

/// Extracts the trimmed text of the first `<tag>...</tag>` element.
pub fn extract_xml_tag_text(contents: &str, tag_name: &str) -> (r: Option<String>)
    ensures
        match xml_tag_text(contents@, tag_name@) {
            Some(t) => r matches Some(s) && s@ == t,
            None => r is None,
        },
{
    let open = String::from_str("<").concat(tag_name).concat(">");
    let close = String::from_str("</").concat(tag_name).concat(">");
    let hay = to_chars(contents);
    let open_v = to_chars(open.as_str());
    let close_v = to_chars(close.as_str());
    let i = match find_from(&hay, &open_v, 0) {
        None => {
            proof { assert(!contains_seq(contents@, open@)); }
            return None;
        },
        Some(i) => i,
    };
    proof {
        crate::text::lemma_first_occurrence_unique(hay@, open_v@, 0, i as int);
        assert(occurs_at(hay@, open_v@, i as int));
        assert(i + open_v@.len() <= hay@.len());
    }
    assert(i + open_v.len() <= hay.len());
    let start = i + open_v.len();
    let rest = string_from_range(&hay, start, hay.len());
    let rest_v = to_chars(rest.as_str());
    let j = match find_from(&rest_v, &close_v, 0) {
        None => {
            proof { assert(!contains_seq(rest_v@, close@)); }
            return None;
        },
        Some(j) => j,
    };
    proof { crate::text::lemma_first_occurrence_unique(rest_v@, close_v@, 0, j as int); }
    let inner = string_from_range(&rest_v, 0, j);
    Some(trim(inner.as_str()))
}

/// The `.project` file of an EDT source-set.
pub fn project_file_path(config: &AppConfig, source_set: &SourceSetConfig) -> (r: String)
    ensures
        r@ == join_seq(join_seq(config.base_path@, source_set.path@), ".project"@),
{
    let dir = join(config.base_path.as_str(), source_set.path.as_str());
    join(dir.as_str(), ".project")
}

/// The extension name of a source-set: its name in a Designer project; in an
/// EDT project the non-empty `<name>` of its `.project` file when the file
/// could be read (`project_contents`), else its name.
pub open spec fn extension_name_of(format: SourceFormat, name: Seq<char>, project_contents: Option<Seq<char>>) -> Seq<char> {
    if format != SourceFormat::Edt {
        name
    } else {
        match project_contents {
            Some(c) => match xml_tag_text(c, "name"@) {
                Some(n) => if n.len() > 0 { n } else { name },
                None => name,
            },
            None => name,
        }
    }
}

/// Resolves the extension name of a source-set.
pub fn resolve_extension_name(config: &AppConfig, source_set: &SourceSetConfig, project_contents: Option<String>) -> (r: String)
    ensures
        r@ == extension_name_of(config.format, source_set.name@, match project_contents {
            Some(c) => Some(c@),
            None => None,
        }),
{
    if config.format != SourceFormat::Edt {
        return source_set.name.clone();
    }
    match project_contents {
        Some(c) => match extract_xml_tag_text(c.as_str(), "name") {
            Some(n) => {
                if is_empty_text(n.as_str()) {
                    source_set.name.clone()
                } else {
                    n
                }
            },
            None => source_set.name.clone(),
        },
        None => source_set.name.clone(),
    }
}

/// The position of the last source-set with this name (a later entry with
/// the same name shadows an earlier one).
pub open spec fn last_named(s: Seq<SourceSetConfig>, name: Seq<char>) -> Option<int>
    decreases s.len(),
{
    if s.len() == 0 {
        None
    } else if s.last().name@ == name {
        Some(s.len() - 1)
    } else {
        last_named(s.drop_last(), name)
    }
}

fn find_last_named(s: &Vec<SourceSetConfig>, name: &str) -> (r: Option<usize>)
    ensures
        r matches Some(i) ==> i < s.len() && last_named(s@, name@) == Some(i as int),
        r is None ==> last_named(s@, name@) is None,
{
    let mut k: usize = s.len();
    proof { assert(s@.take(s.len() as int) =~= s@); }
    while k > 0
        invariant
            k <= s.len(),
            last_named(s@, name@) == last_named(s@.take(k as int), name@),
        decreases k,
    {
        proof {
            assert(s@.take(k as int).drop_last() =~= s@.take(k as int - 1));
            assert(s@.take(k as int).last() == s@[k as int - 1]);
        }
        if str_eq(s[k - 1].name.as_str(), name) {
            return Some(k - 1);
        }
        k = k - 1;
    }
    None
}

/// The names of some source-sets.
pub open spec fn names_of(s: Seq<SourceSetConfig>) -> Seq<Seq<char>> {
    s.map_values(|x: SourceSetConfig| x.name@)
}

/// The configuration source-set used when none is named: the only one.
pub open spec fn single_configuration(s: Seq<SourceSetConfig>) -> Result<SourceSetConfig, Seq<char>> {
    let c = of_purpose(s, SourceSetPurpose::Configuration);
    if c.len() != 1 {
        Err("artifacts cf export requires exactly one configuration source-set when --source-set is omitted; found ["@
            + joined(names_of(c), ", "@) + "]"@)
    } else {
        Ok(c[0])
    }
}

fn names_of_refs(v: &Vec<&SourceSetConfig>) -> (r: Vec<String>)
    ensures
        views_of(r@) == names_of(derefs(v@)),
{
    let mut r: Vec<String> = Vec::new();
    let mut i: usize = 0;
    while i < v.len()
        invariant
            i <= v.len(),
            views_of(r@) == names_of(derefs(v@.take(i as int))),
        decreases v.len() - i,
    {
        let ghost before = r@;
        r.push(v[i].name.clone());
        proof {
            assert(derefs(v@.take(i as int + 1)) =~= derefs(v@.take(i as int)).push(*v@[i as int]));
            assert(views_of(r@) =~= views_of(before).push(v@[i as int].name@));
        }
        i = i + 1;
    }
    proof { assert(v@.take(v.len() as int) =~= v@); }
    r
}

/// The configuration source-set of a project that has exactly one.
pub fn resolve_single_configuration_source_set(config: &AppConfig) -> (r: Result<&SourceSetConfig, AppError>)
    ensures
        match single_configuration(config.source_sets@) {
            Ok(c) => r matches Ok(x) && *x == c,
            Err(m) => r matches Err(AppError::Validation(s)) && s@ == m,
        },
{
    let ghost s = config.source_sets@;
    let mut found: Vec<&SourceSetConfig> = Vec::new();
    let mut i: usize = 0;
    while i < config.source_sets.len()
        invariant
            s == config.source_sets@,
            i <= s.len(),
            derefs(found@) == of_purpose(s.take(i as int), SourceSetPurpose::Configuration),
        decreases s.len() - i,
    {
        let ss = &config.source_sets[i];
        proof {
            assert(s.take(i as int + 1) =~= s.take(i as int).push(s[i as int]));
            s.take(i as int).lemma_filter_push(s[i as int], |x: SourceSetConfig| x.purpose == SourceSetPurpose::Configuration);
        }
        if ss.purpose == SourceSetPurpose::Configuration {
            let ghost before = found@;
            found.push(ss);
            proof { assert(derefs(found@) =~= derefs(before).push(*ss)); }
        }
        i = i + 1;
    }
    proof { assert(s.take(s.len() as int) =~= s); }
    if found.len() != 1 {
        let names = names_of_refs(&found);
        let listed = join_strings(&names, ", ");
        return Err(AppError::Validation(String::from_str(
            "artifacts cf export requires exactly one configuration source-set when --source-set is omitted; found [")
            .concat(listed.as_str()).concat("]")));
    }
    proof { assert(derefs(found@)[0] == *found@[0]); }
    Ok(found[0])
}

/// The names of the extension source-sets, among the first `n`, whose
/// extension name is `requested`.
pub open spec fn matching_extensions(s: Seq<SourceSetConfig>, ext: Seq<Seq<char>>, requested: Seq<char>, n: int) -> Seq<Seq<char>>
    decreases n,
{
    if n <= 0 {
        Seq::empty()
    } else if s[n - 1].purpose == SourceSetPurpose::Extension && ext[n - 1] == requested {
        matching_extensions(s, ext, requested, n - 1).push(s[n - 1].name@)
    } else {
        matching_extensions(s, ext, requested, n - 1)
    }
}

/// `name=>extension` for each extension source-set among the first `n`.
pub open spec fn available_extensions(s: Seq<SourceSetConfig>, ext: Seq<Seq<char>>, n: int) -> Seq<Seq<char>>
    decreases n,
{
    if n <= 0 {
        Seq::empty()
    } else if s[n - 1].purpose == SourceSetPurpose::Extension {
        available_extensions(s, ext, n - 1).push(s[n - 1].name@ + "=>"@ + ext[n - 1])
    } else {
        available_extensions(s, ext, n - 1)
    }
}

/// Which source-set, and which extension, an artifacts request builds.
/// `ext` holds the extension name of each configured source-set. Every
/// refusal is a validation error with this message.
pub open spec fn artifacts_target(config: AppConfig, args: ArtifactsRequest, ext: Seq<Seq<char>>) -> Result<(Seq<char>, Option<Seq<char>>), Seq<char>> {
    let s = config.source_sets@;
    match args.mode {
        ArtifactsModeRequest::ConfigurationCf => match args.source_set {
            Some(name) => match last_named(s, name@) {
                None => Err("unknown source-set '"@ + name@ + "'"@),
                Some(i) => if s[i].purpose != SourceSetPurpose::Configuration {
                    Err("source-set '"@ + name@ + "' is not a configuration source-set"@)
                } else {
                    Ok((s[i].name@, None))
                },
            },
            None => match single_configuration(s) {
                Ok(c) => Ok((c.name@, None)),
                Err(m) => Err(m),
            },
        },
        ArtifactsModeRequest::ExtensionCfe => {
            let requested = match args.extension {
                Some(e) => trim_seq(e@),
                None => Seq::empty(),
            };
            if requested.len() == 0 {
                Err("artifacts cfe export requires non-empty --extension"@)
            } else {
                match args.source_set {
                    Some(name) => match last_named(s, name@) {
                        None => Err("unknown source-set '"@ + name@ + "'"@),
                        Some(i) => if s[i].purpose != SourceSetPurpose::Extension {
                            Err("source-set '"@ + name@ + "' is not an extension source-set"@)
                        } else if ext[i] != requested {
                            Err("source-set '"@ + name@ + "' resolves to extension '"@ + ext[i] + "', expected '"@ + requested + "'"@)
                        } else {
                            Ok((name@, Some(requested)))
                        },
                    },
                    None => {
                        let m = matching_extensions(s, ext, requested, s.len() as int);
                        if m.len() == 0 {
                            Err("no extension source-set resolves to '"@ + requested + "'; candidates ["@
                                + joined(available_extensions(s, ext, s.len() as int), ", "@) + "]"@)
                        } else if m.len() != 1 {
                            Err("extension '"@ + requested + "' is ambiguous; matching source-sets ["@ + joined(m, ", "@) + "]"@)
                        } else {
                            Ok((m[0], Some(requested)))
                        }
                    },
                }
            }
        },
    }
}

fn validation(message: String) -> (e: AppError)
    ensures
        e == AppError::Validation(message),
{
    AppError::Validation(message)
}

/// Resolves the source-set and extension an artifacts request builds.
/// `extension_names[i]` is the extension name of the `i`-th source-set.
pub fn resolve_artifacts_source_set(config: &AppConfig, args: &ArtifactsRequest, extension_names: &Vec<String>)
    -> (r: Result<(String, Option<String>), AppError>)
    requires
        extension_names.len() == config.source_sets.len(),
    ensures
        match artifacts_target(*config, *args, views_of(extension_names@)) {
            Ok((name, ext)) => r matches Ok((n, e)) && n@ == name && (match ext {
                Some(x) => e matches Some(y) && y@ == x,
                None => e is None,
            }),
            Err(m) => r matches Err(AppError::Validation(s)) && s@ == m,
        },
{
    let s = &config.source_sets;
    let ghost ext = views_of(extension_names@);
    match args.mode {
        ArtifactsModeRequest::ConfigurationCf => {
            match &args.source_set {
                Some(name) => {
                    match find_last_named(s, name.as_str()) {
                        None => Err(validation(String::from_str("unknown source-set '").concat(name.as_str()).concat("'"))),
                        Some(i) => {
                            if s[i].purpose != SourceSetPurpose::Configuration {
                                Err(validation(String::from_str("source-set '").concat(name.as_str())
                                    .concat("' is not a configuration source-set")))
                            } else {
                                Ok((s[i].name.clone(), None))
                            }
                        },
                    }
                },
                None => match resolve_single_configuration_source_set(config) {
                    Ok(c) => Ok((c.name.clone(), None)),
                    Err(e) => Err(e),
                },
            }
        },
        ArtifactsModeRequest::ExtensionCfe => {
            let requested = match &args.extension {
                Some(e) => trim(e.as_str()),
                None => String::new(),
            };
            if is_empty_text(requested.as_str()) {
                return Err(validation(String::from_str("artifacts cfe export requires non-empty --extension")));
            }
            match &args.source_set {
                Some(name) => {
                    match find_last_named(s, name.as_str()) {
                        None => Err(validation(String::from_str("unknown source-set '").concat(name.as_str()).concat("'"))),
                        Some(i) => {
                            if s[i].purpose != SourceSetPurpose::Extension {
                                Err(validation(String::from_str("source-set '").concat(name.as_str())
                                    .concat("' is not an extension source-set")))
                            } else if !str_eq(extension_names[i].as_str(), requested.as_str()) {
                                proof { assert(ext[i as int] == extension_names@[i as int]@); }
                                Err(validation(String::from_str("source-set '").concat(name.as_str())
                                    .concat("' resolves to extension '").concat(extension_names[i].as_str())
                                    .concat("', expected '").concat(requested.as_str()).concat("'")))
                            } else {
                                proof { assert(ext[i as int] == extension_names@[i as int]@); }
                                Ok((name.clone(), Some(requested)))
                            }
                        },
                    }
                },
                None => {
                    let mut matching: Vec<String> = Vec::new();
                    let mut available: Vec<String> = Vec::new();
                    let mut i: usize = 0;
                    while i < s.len()
                        invariant
                            s == &config.source_sets,
                            extension_names.len() == s.len(),
                            ext == views_of(extension_names@),
                            i <= s.len(),
                            views_of(matching@) == matching_extensions(s@, ext, requested@, i as int),
                            views_of(available@) == available_extensions(s@, ext, i as int),
                        decreases s.len() - i,
                    {
                        let ss = &s[i];
                        proof { assert(ext[i as int] == extension_names@[i as int]@); }
                        if ss.purpose == SourceSetPurpose::Extension {
                            let ghost m0 = matching@;
                            let ghost a0 = available@;
                            if str_eq(extension_names[i].as_str(), requested.as_str()) {
                                matching.push(ss.name.clone());
                                proof { assert(views_of(matching@) =~= views_of(m0).push(ss.name@)); }
                            }
                            let entry = ss.name.clone().concat("=>").concat(extension_names[i].as_str());
                            available.push(entry);
                            proof { assert(views_of(available@) =~= views_of(a0).push(ss.name@ + "=>"@ + ext[i as int])); }
                        }
                        i = i + 1;
                    }
                    if matching.len() == 0 {
                        let listed = join_strings(&available, ", ");
                        return Err(validation(String::from_str("no extension source-set resolves to '").concat(requested.as_str())
                            .concat("'; candidates [").concat(listed.as_str()).concat("]")));
                    }
                    if matching.len() != 1 {
                        let listed = join_strings(&matching, ", ");
                        return Err(validation(String::from_str("extension '").concat(requested.as_str())
                            .concat("' is ambiguous; matching source-sets [").concat(listed.as_str()).concat("]")));
                    }
                    let chosen = matching[0].clone();
                    proof { assert(views_of(matching@)[0] == matching@[0]@); }
                    Ok((chosen, Some(requested)))
                },
            }
        },
    }
}

/// What the caller found about the publish target: the canonical output path
/// resolved earlier and again now (or the I/O error's text), the canonical
/// base and work paths, and whether the output exists as a directory.
#[derive(Debug, PartialEq, Eq)]
pub struct PublishFacts {
    pub output_path: String,
    pub canonical_output: String,
    pub recanonicalized_output: Result<String, String>,
    pub canonical_base: String,
    pub canonical_work: String,
    pub output_is_existing_dir: bool,
}

/// Why the publish target is refused, if it is: an error's class (validation
/// or runtime) and message.
pub open spec fn publish_refusal(f: PublishFacts) -> Option<(bool, Seq<char>)> {
    match f.recanonicalized_output {
        Err(e) => Some((false, "failed to re-canonicalize output path: "@ + e@)),
        Ok(again) => if f.canonical_output@ != again@ {
            Some((true, "output path changed during artifacts resolution: "@ + f.output_path@))
        } else if f.canonical_output@ == f.canonical_base@ {
            Some((true, "artifacts output must not equal basePath"@))
        } else if f.canonical_output@ == f.canonical_work@ {
            Some((true, "artifacts output must not equal workPath"@))
        } else if f.canonical_output@ == "/"@ {
            Some((true, "artifacts output must not equal filesystem root"@))
        } else if f.output_is_existing_dir {
            Some((true, "artifacts output conflicts with existing directory '"@ + f.output_path@ + "'"@))
        } else {
            None
        },
    }
}

/// Refuses to publish over a moved target, the base or work directory, the
/// filesystem root or an existing directory.
pub fn validate_publish_target(facts: &PublishFacts) -> (r: Result<(), AppError>)
    ensures
        match publish_refusal(*facts) {
            None => r is Ok,
            Some((true, m)) => r matches Err(AppError::Validation(s)) && s@ == m,
            Some((false, m)) => r matches Err(AppError::Runtime(s)) && s@ == m,
        },
{
    let again = match &facts.recanonicalized_output {
        Err(e) => {
            return Err(AppError::Runtime(String::from_str("failed to re-canonicalize output path: ").concat(e.as_str())));
        },
        Ok(a) => a,
    };
    if !str_eq(facts.canonical_output.as_str(), again.as_str()) {
        return Err(validation(String::from_str("output path changed during artifacts resolution: ").concat(facts.output_path.as_str())));
    }
    if str_eq(facts.canonical_output.as_str(), facts.canonical_base.as_str()) {
        return Err(validation(String::from_str("artifacts output must not equal basePath")));
    }
    if str_eq(facts.canonical_output.as_str(), facts.canonical_work.as_str()) {
        return Err(validation(String::from_str("artifacts output must not equal workPath")));
    }
    if str_eq(facts.canonical_output.as_str(), "/") {
        return Err(validation(String::from_str("artifacts output must not equal filesystem root")));
    }
    if facts.output_is_existing_dir {
        return Err(validation(String::from_str("artifacts output conflicts with existing directory '")
            .concat(facts.output_path.as_str()).concat("'")));
    }
    Ok(())
}

/// The SHA-256 digest of some bytes.
pub uninterp spec fn sha256_of(data: Seq<u8>) -> Seq<u8>;

/// Calls `Sha256::digest` of the `sha2` crate: the 32-byte SHA-256 digest of
/// the data.
#[verifier::external_body]
fn sha256(data: &[u8]) -> (d: Vec<u8>)
    ensures
        d@ == sha256_of(data@),
        d@.len() == 32,
{
    Sha256::digest(data).to_vec()
}

/// The identity of a canonical target path: the first 16 bytes of the
/// SHA-256 digest of its UTF-8 bytes, in lower-case hexadecimal.
pub fn hash_path(path: &str) -> (r: String)
    ensures
        r@ == hex_bytes(sha256_of(path.spec_bytes()).take(16)),
{
    let digest = sha256(path.as_bytes());
    let mut head: Vec<u8> = Vec::new();
    let mut i: usize = 0;
    while i < 16
        invariant
            digest@.len() == 32,
            i <= 16,
            head@ == digest@.take(i as int),
        decreases 16 - i,
    {
        head.push(digest[i]);
        proof { assert(head@ =~= digest@.take(i as int + 1)); }
        i = i + 1;
    }
    bytes_to_hex(head.as_slice())
}

/// The advisory lock file of a target: `.artifacts-<identity>.lock` beside
/// the canonical output.
pub fn lock_path_for(canonical_output: &str, identity: &str) -> (r: Result<String, AppError>)
    ensures
        match parent_seq(canonical_output@) {
            Some(p) => r matches Ok(s) && s@ == join_seq(p, ".artifacts-"@ + identity@ + ".lock"@),
            None => r matches Err(AppError::Runtime(s)) && s@ == "canonical output path has no parent: "@ + canonical_output@,
        },
{
    match parent(canonical_output) {
        None => Err(AppError::Runtime(String::from_str("canonical output path has no parent: ").concat(canonical_output))),
        Some(p) => {
            let name = String::from_str(".artifacts-").concat(identity).concat(".lock");
            Ok(join(p.as_str(), name.as_str()))
        },
    }
}

/// The run identifier of one export: the process id, a dash and the
/// timestamp in nanoseconds in hexadecimal (a negative timestamp as its
/// two's-complement bits).
pub fn make_run_id(pid: u32, timestamp_nanos: i64) -> (r: String)
    ensures
        r@ == decimal(pid as nat) + "-"@ + hex((timestamp_nanos as u64) as nat),
{
    let bits = timestamp_nanos as u64;
    u64_to_decimal(pid as u64).concat("-").concat(u64_to_hex(bits).as_str())
}

/// The staging file of an export, beside the target:
/// `.artifacts-stage-<run id>.<extension>`.
pub fn staging_file_name(run_id: &str, mode: ArtifactBuildMode) -> (r: String)
    ensures
        r@ == ".artifacts-stage-"@ + run_id@ + "."@ + mode_extension(mode),
{
    String::from_str(".artifacts-stage-").concat(run_id).concat(".").concat(mode.file_extension())
}

/// The platform log file of an export: `artifacts-<source-set>-<extension>.log`.
pub fn export_log_file_name(source_set_name: &str, mode: ArtifactBuildMode) -> (r: String)
    ensures
        r@ == "artifacts-"@ + source_set_name@ + "-"@ + mode_extension(mode) + ".log"@,
{
    String::from_str("artifacts-").concat(source_set_name).concat("-").concat(mode.file_extension()).concat(".log")
}

/// Whether a file beside the target may be a leftover of an earlier export:
/// a staging file or a backup.
pub fn is_temp_candidate(file_name: &str) -> (b: bool)
    ensures
        b == (occurs_at(file_name@, ".artifacts-stage-"@, 0) || contains_seq(file_name@, ".backup-"@)),
{
    let v = to_chars(file_name);
    let prefix = to_chars(".artifacts-stage-");
    let starts = crate::text::occurs_at_exec(&v, &prefix, 0);
    starts || contains_str(file_name, ".backup-")
}

/// Whether a leftover temporary file is to be removed: written by this tool
/// for the same target, at least a day ago (`age_secs` is its age in whole
/// seconds, none when it claims to come from the future).
pub fn is_stale_temp(tool: &str, identity: &str, target_identity: &str, age_secs: Option<u64>) -> (b: bool)
    ensures
        b == (tool@ == "v8-test-runner"@ && identity@ == target_identity@
            && (age_secs matches Some(a) && a >= ORPHAN_TTL_SECS)),
{
    if !str_eq(tool, "v8-test-runner") || !str_eq(identity, target_identity) {
        return false;
    }
    match age_secs {
        Some(a) => a >= ORPHAN_TTL_SECS,
        None => false,
    }
}

/// The details of a failed export, in the order they are reported.
pub open spec fn export_failure_details(source_set_name: Seq<char>, result: PlatformCommandResult) -> Seq<Seq<char>> {
    let head = seq!["designer artifact export failed for source-set '"@ + source_set_name + "' with exit code "@
        + signed_decimal(result.process.exit_code as int)];
    let out = if trim_seq(result.process.stdout@).len() > 0 { seq!["stdout: "@ + trim_seq(result.process.stdout@)] } else { Seq::empty() };
    let err = if trim_seq(result.process.stderr@).len() > 0 { seq!["stderr: "@ + trim_seq(result.process.stderr@)] } else { Seq::empty() };
    let log_text = match result.platform_log {
        Some(l) => trim_seq(l@),
        None => Seq::empty(),
    };
    let log = if log_text.len() > 0 {
        seq!["platform log: "@ + log_text]
    } else {
        match result.platform_log_path {
            Some(p) => seq!["platform log path: "@ + p@],
            None => Seq::empty(),
        }
    };
    let read_error = match result.platform_log_read_error {
        Some(e) => seq![e@],
        None => Seq::empty(),
    };
    head + out + err + log + read_error
}

/// Turns a failed export into a platform error listing its exit code, output
/// and log (or, without a readable log, the log's path).
pub fn ensure_export_success(source_set_name: &str, result: &PlatformCommandResult) -> (r: Result<(), AppError>)
    ensures
        result.process.exit_code == 0 <==> r is Ok,
        r matches Err(e) ==> e matches AppError::Platform(m) && m@ == joined(export_failure_details(source_set_name@, *result), "; "@),
{
    if result.process.exit_code == 0 {
        return Ok(());
    }
    let ghost spec_details = export_failure_details(source_set_name@, *result);
    let mut details: Vec<String> = Vec::new();
    let code = i32_to_decimal(result.process.exit_code);
    details.push(String::from_str("designer artifact export failed for source-set '").concat(source_set_name)
        .concat("' with exit code ").concat(code.as_str()));
    if !is_blank(result.process.stdout.as_str()) {
        details.push(String::from_str("stdout: ").concat(trim(result.process.stdout.as_str()).as_str()));
    }
    if !is_blank(result.process.stderr.as_str()) {
        details.push(String::from_str("stderr: ").concat(trim(result.process.stderr.as_str()).as_str()));
    }
    let log_text = match &result.platform_log {
        Some(l) => trim(l.as_str()),
        None => String::new(),
    };
    if !is_empty_text(log_text.as_str()) {
        details.push(String::from_str("platform log: ").concat(log_text.as_str()));
    } else {
        match &result.platform_log_path {
            Some(p) => {
                details.push(String::from_str("platform log path: ").concat(p.as_str()));
            },
            None => {},
        }
    }
    match &result.platform_log_read_error {
        Some(e) => {
            details.push(e.clone());
        },
        None => {},
    }
    proof {
        reveal_strlit("stdout: ");
        reveal_strlit("stderr: ");
        reveal_strlit("platform log: ");
        reveal_strlit("platform log path: ");
        assert(views_of(details@) =~= spec_details);
    }
    Err(AppError::Platform(join_strings(&details, "; ")))
}

/// The file names an output path contributes to the build metadata.
pub open spec fn output_file_names(output_path: Seq<char>) -> Seq<Seq<char>> {
    match file_name_seq(output_path) {
        Some(n) => seq![n],
        None => Seq::empty(),
    }
}

fn file_names_of(output_path: &str) -> (r: Vec<String>)
    ensures
        views_of(r@) == output_file_names(output_path@),
{
    let mut r: Vec<String> = Vec::new();
    match file_name(output_path) {
        Some(n) => {
            r.push(n);
        },
        None => {},
    }
    proof { assert(views_of(r@) =~= output_file_names(output_path@)); }
    r
}

/// The result of an export that did not publish anything: failed, with the
/// unpublished metadata and, when given, the message as its diagnostic.
pub fn empty_result(
    mode: ArtifactBuildMode,
    duration_ms: u64,
    source_set: Option<String>,
    extension: Option<String>,
    output_path: &str,
    message: Option<String>,
) -> (r: ArtifactsResult)
    ensures
        r.mode == mode,
        r.source_set == source_set,
        r.extension == extension,
        r.duration_ms == duration_ms,
        r.execution.status == ExecutionStatus::Failed,
        r.execution.errors@.len() == 0,
        r.execution.diagnostics@ == (match message {
            Some(m) => seq![m],
            None => Seq::<String>::empty(),
        }),
        r.execution.artifacts is None,
        r.execution.payload matches Some(p) && {
            &&& p.artifact_type == mode
            &&& p.output_path@ == output_path@
            &&& views_of(p.file_names@) == output_file_names(output_path@)
            &&& !p.published
        },
{
    let metadata = ArtifactBuildMetadata {
        artifact_type: mode,
        output_path: String::from_str(output_path),
        file_names: file_names_of(output_path),
        published: false,
    };
    let mut diagnostics: Vec<String> = Vec::new();
    match message {
        Some(m) => {
            diagnostics.push(m);
        },
        None => {},
    }
    proof {
        assert(diagnostics@ =~= (match message {
            Some(m) => seq![m],
            None => Seq::<String>::empty(),
        }));
    }
    ArtifactsResult {
        mode,
        source_set,
        extension,
        duration_ms,
        execution: ExecutionOutcome::new(ExecutionStatus::Failed).with_diagnostics(diagnostics).with_payload(metadata),
    }
}

/// The result of a published export: succeeded, with the published
/// artifacts and metadata.
pub fn published_result(
    mode: ArtifactBuildMode,
    duration_ms: u64,
    source_set: String,
    extension: Option<String>,
    output_path: &str,
    artifacts: ArtifactSet,
    cleanup_warning: Option<String>,
) -> (r: ArtifactsResult)
    ensures
        r.mode == mode,
        r.source_set == Some(source_set),
        r.extension == extension,
        r.duration_ms == duration_ms,
        r.execution.status == ExecutionStatus::Succeeded,
        r.execution.errors@.len() == 0,
        r.execution.diagnostics@ == (match cleanup_warning {
            Some(m) => seq![m],
            None => Seq::<String>::empty(),
        }),
        r.execution.artifacts == Some(artifacts),
        r.execution.payload matches Some(p) && {
            &&& p.artifact_type == mode
            &&& p.output_path@ == output_path@
            &&& views_of(p.file_names@) == output_file_names(output_path@)
            &&& p.published
        },
{
    let metadata = ArtifactBuildMetadata {
        artifact_type: mode,
        output_path: String::from_str(output_path),
        file_names: file_names_of(output_path),
        published: true,
    };
    let mut diagnostics: Vec<String> = Vec::new();
    match cleanup_warning {
        Some(m) => {
            diagnostics.push(m);
        },
        None => {},
    }
    proof {
        assert(diagnostics@ =~= (match cleanup_warning {
            Some(m) => seq![m],
            None => Seq::<String>::empty(),
        }));
    }
    ArtifactsResult {
        mode,
        source_set: Some(source_set),
        extension,
        duration_ms,
        execution: ExecutionOutcome::new(ExecutionStatus::Succeeded)
            .with_diagnostics(diagnostics)
            .with_artifacts(artifacts)
            .with_payload(metadata),
    }
}

/// The result of a failed export: failed, with a `designer_export_failed`
/// error carrying the message and the diagnostic artifact, the artifacts
/// kept, and the unpublished metadata.
pub fn export_failed_result(
    mode: ArtifactBuildMode,
    duration_ms: u64,
    source_set: String,
    extension: Option<String>,
    output_path: &str,
    message: String,
    artifacts: ArtifactSet,
    diagnostic: Option<ArtifactRef>,
) -> (r: ArtifactsResult)
    ensures
        r.mode == mode,
        r.source_set == Some(source_set),
        r.extension == extension,
        r.duration_ms == duration_ms,
        r.execution.status == ExecutionStatus::Failed,
        r.execution.errors@.len() == 1,
        r.execution.errors@[0].code@ == "designer_export_failed"@,
        r.execution.errors@[0].message == message,
        r.execution.errors@[0].details@.len() == 0,
        r.execution.errors@[0].artifact == diagnostic,
        !r.execution.errors@[0].retryable,
        r.execution.artifacts == Some(artifacts),
        r.execution.payload matches Some(p) && {
            &&& p.artifact_type == mode
            &&& p.output_path@ == output_path@
            &&& views_of(p.file_names@) == output_file_names(output_path@)
            &&& !p.published
        },
{
    let metadata = ArtifactBuildMetadata {
        artifact_type: mode,
        output_path: String::from_str(output_path),
        file_names: file_names_of(output_path),
        published: false,
    };
    let mut errors: Vec<ExecutionError> = Vec::new();
    errors.push(ExecutionError {
        code: String::from_str("designer_export_failed"),
        message,
        details: Vec::new(),
        artifact: diagnostic,
        retryable: false,
    });
    ArtifactsResult {
        mode,
        source_set: Some(source_set),
        extension,
        duration_ms,
        execution: ExecutionOutcome::new(ExecutionStatus::Failed)
            .with_errors(errors)
            .with_artifacts(artifacts)
            .with_payload(metadata),
    }
}


/// How a Designer export run ends: published, with the cleanup warning if
/// any, or failed with an error.
pub type ExportOutcome = Result<Option<String>, AppError>;

/// Where an artifacts run stands once its target was resolved and checked.
#[derive(Debug)]
pub enum ArtifactsPhase {
    LocatingTool,
    Locking,
    CleaningOrphans,
    EnsuringParent,
    WritingMetadata,
    Exporting,
    Publishing,
    /// The outcome is known; the lock is being released.
    Releasing(ExportOutcome),
    /// The run is over with this outcome.
    Finished(ExportOutcome),
}

/// The state of an artifacts run: the source-set exported, the lock file,
/// the staging file beside the target and the phase.
#[derive(Debug)]
pub struct ArtifactsRun {
    pub source_set_name: String,
    pub lock_path: String,
    pub staging_file: String,
    pub phase: ArtifactsPhase,
}

/// What happened to the last action of an artifacts run.
#[derive(Debug, Clone)]
pub enum ArtifactsEvent {
    ToolReady,
    ToolFailed(String),
    LockAcquired,
    LockFailed(String),
    OrphansCleaned,
    CleanupFailed(AppError),
    ParentReady,
    ParentFailed(String),
    MetadataWritten,
    MetadataFailed(String),
    /// Designer ran the export into the staging file; whether the file is there.
    Exported { result: PlatformCommandResult, staged: bool },
    /// Designer could not be set up or asked to export.
    ExportError(AppError),
    Published { cleanup_warning: Option<String> },
    PublishFailed(String),
    LockReleased,
}

/// What the caller does next in an artifacts run.
#[derive(Debug, Clone, Copy, PartialEq, Eq, Structural)]
pub enum ArtifactsAction {
    LocateTool,
    AcquireLock,
    CleanOrphans,
    EnsureParent,
    WriteMetadata,
    Export,
    /// Replace the target by the staging file.
    Publish,
    ReleaseLock,
    /// The run is over: report the outcome its phase holds.
    Finish,
}

/// The run now releases the lock, having failed with an error of this kind
/// and message.
pub open spec fn releases_failing(r2: ArtifactsRun, a: ArtifactsAction, kind: UseCaseErrorKind, message: Seq<char>) -> bool {
    &&& a == ArtifactsAction::ReleaseLock
    &&& r2.phase matches ArtifactsPhase::Releasing(Err(e))
    &&& app_error_kind(e) == kind
    &&& app_error_message(e) == message
}

/// The run is over without the lock, failed with an error of this kind and message.
pub open spec fn ends_failing(r2: ArtifactsRun, a: ArtifactsAction, kind: UseCaseErrorKind, message: Seq<char>) -> bool {
    &&& a == ArtifactsAction::Finish
    &&& r2.phase matches ArtifactsPhase::Finished(Err(e))
    &&& app_error_kind(e) == kind
    &&& app_error_message(e) == message
}

/// What follows `event` in artifacts run `r`. Designer is located, then the
/// lock taken, orphans cleaned, the staging file prepared and the export
/// run. The target is replaced only after an export that succeeded and left
/// its staging file; every failure keeps the target. Once the lock is taken,
/// every path releases it before the run ends; before that, a failure ends
/// the run at once.
pub open spec fn artifacts_step_holds(r: ArtifactsRun, event: ArtifactsEvent, r2: ArtifactsRun, a: ArtifactsAction) -> bool {
    &&& r2.source_set_name == r.source_set_name && r2.lock_path == r.lock_path && r2.staging_file == r.staging_file
    &&& match (r.phase, event) {
        (ArtifactsPhase::LocatingTool, ArtifactsEvent::ToolReady) =>
            r2.phase matches ArtifactsPhase::Locking && a == ArtifactsAction::AcquireLock,
        (ArtifactsPhase::LocatingTool, ArtifactsEvent::ToolFailed(m)) => ends_failing(r2, a, UseCaseErrorKind::Platform, m@),
        (ArtifactsPhase::Locking, ArtifactsEvent::LockAcquired) =>
            r2.phase matches ArtifactsPhase::CleaningOrphans && a == ArtifactsAction::CleanOrphans,
        (ArtifactsPhase::Locking, ArtifactsEvent::LockFailed(m)) =>
            ends_failing(r2, a, UseCaseErrorKind::Runtime, "failed to acquire artifacts lock '"@ + r.lock_path@ + "': "@ + m@),
        (ArtifactsPhase::CleaningOrphans, ArtifactsEvent::OrphansCleaned) =>
            r2.phase matches ArtifactsPhase::EnsuringParent && a == ArtifactsAction::EnsureParent,
        (ArtifactsPhase::CleaningOrphans, ArtifactsEvent::CleanupFailed(e)) =>
            r2.phase == ArtifactsPhase::Releasing(Err(e)) && a == ArtifactsAction::ReleaseLock,
        (ArtifactsPhase::EnsuringParent, ArtifactsEvent::ParentReady) =>
            r2.phase matches ArtifactsPhase::WritingMetadata && a == ArtifactsAction::WriteMetadata,
        (ArtifactsPhase::EnsuringParent, ArtifactsEvent::ParentFailed(m)) =>
            releases_failing(r2, a, UseCaseErrorKind::Runtime, "failed to create target parent dir: "@ + m@),
        (ArtifactsPhase::WritingMetadata, ArtifactsEvent::MetadataWritten) =>
            r2.phase matches ArtifactsPhase::Exporting && a == ArtifactsAction::Export,
        (ArtifactsPhase::WritingMetadata, ArtifactsEvent::MetadataFailed(m)) =>
            releases_failing(r2, a, UseCaseErrorKind::Runtime, "failed to write staging metadata: "@ + m@),
        (ArtifactsPhase::Exporting, ArtifactsEvent::Exported { result, staged }) =>
            if result.process.exit_code != 0 {
                releases_failing(r2, a, UseCaseErrorKind::Platform, joined(export_failure_details(r.source_set_name@, result), "; "@))
            } else if !staged {
                releases_failing(r2, a, UseCaseErrorKind::Platform, "designer did not produce artifact file '"@ + r.staging_file@ + "'"@)
            } else {
                r2.phase matches ArtifactsPhase::Publishing && a == ArtifactsAction::Publish
            },
        (ArtifactsPhase::Exporting, ArtifactsEvent::ExportError(e)) =>
            r2.phase == ArtifactsPhase::Releasing(Err(e)) && a == ArtifactsAction::ReleaseLock,
        (ArtifactsPhase::Publishing, ArtifactsEvent::Published { cleanup_warning }) =>
            r2.phase == ArtifactsPhase::Releasing(Ok(cleanup_warning)) && a == ArtifactsAction::ReleaseLock,
        (ArtifactsPhase::Publishing, ArtifactsEvent::PublishFailed(m)) =>
            releases_failing(r2, a, UseCaseErrorKind::Runtime, "failed to publish staged artifact: "@ + m@),
        (ArtifactsPhase::Releasing(o), ArtifactsEvent::LockReleased) =>
            r2.phase == ArtifactsPhase::Finished(o) && a == ArtifactsAction::Finish,
        _ => r2.phase == r.phase && a == artifacts_pending(r.phase),
    }
}

/// The action an artifacts run waits on in each phase.
pub open spec fn artifacts_pending(p: ArtifactsPhase) -> ArtifactsAction {
    match p {
        ArtifactsPhase::LocatingTool => ArtifactsAction::LocateTool,
        ArtifactsPhase::Locking => ArtifactsAction::AcquireLock,
        ArtifactsPhase::CleaningOrphans => ArtifactsAction::CleanOrphans,
        ArtifactsPhase::EnsuringParent => ArtifactsAction::EnsureParent,
        ArtifactsPhase::WritingMetadata => ArtifactsAction::WriteMetadata,
        ArtifactsPhase::Exporting => ArtifactsAction::Export,
        ArtifactsPhase::Publishing => ArtifactsAction::Publish,
        ArtifactsPhase::Releasing(_) => ArtifactsAction::ReleaseLock,
        ArtifactsPhase::Finished(_) => ArtifactsAction::Finish,
    }
}

/// Starts an artifacts run on a resolved target: locate Designer.
pub fn artifacts_begin(source_set_name: String, lock_path: String, staging_file: String) -> (r: (ArtifactsRun, ArtifactsAction))
    ensures
        r.0.source_set_name == source_set_name && r.0.lock_path == lock_path && r.0.staging_file == staging_file,
        r.0.phase matches ArtifactsPhase::LocatingTool,
        r.1 == ArtifactsAction::LocateTool,
{
    (ArtifactsRun { source_set_name, lock_path, staging_file, phase: ArtifactsPhase::LocatingTool }, ArtifactsAction::LocateTool)
}

/// Decides what follows `event` in an artifacts run, as
/// `artifacts_step_holds` states.
pub fn artifacts_next(run: ArtifactsRun, event: ArtifactsEvent) -> (r: (ArtifactsRun, ArtifactsAction))
    ensures
        artifacts_step_holds(run, event, r.0, r.1),
{
    let ArtifactsRun { source_set_name, lock_path, staging_file, phase } = run;
    let (next, action) = match (phase, event) {
        (ArtifactsPhase::LocatingTool, ArtifactsEvent::ToolReady) => (ArtifactsPhase::Locking, ArtifactsAction::AcquireLock),
        (ArtifactsPhase::LocatingTool, ArtifactsEvent::ToolFailed(m)) =>
            (ArtifactsPhase::Finished(Err(AppError::Platform(m))), ArtifactsAction::Finish),
        (ArtifactsPhase::Locking, ArtifactsEvent::LockAcquired) => (ArtifactsPhase::CleaningOrphans, ArtifactsAction::CleanOrphans),
        (ArtifactsPhase::Locking, ArtifactsEvent::LockFailed(m)) => {
            let message = String::from_str("failed to acquire artifacts lock '").concat(lock_path.as_str()).concat("': ").concat(m.as_str());
            (ArtifactsPhase::Finished(Err(AppError::Runtime(message))), ArtifactsAction::Finish)
        },
        (ArtifactsPhase::CleaningOrphans, ArtifactsEvent::OrphansCleaned) => (ArtifactsPhase::EnsuringParent, ArtifactsAction::EnsureParent),
        (ArtifactsPhase::CleaningOrphans, ArtifactsEvent::CleanupFailed(e)) => (ArtifactsPhase::Releasing(Err(e)), ArtifactsAction::ReleaseLock),
        (ArtifactsPhase::EnsuringParent, ArtifactsEvent::ParentReady) => (ArtifactsPhase::WritingMetadata, ArtifactsAction::WriteMetadata),
        (ArtifactsPhase::EnsuringParent, ArtifactsEvent::ParentFailed(m)) => {
            let message = String::from_str("failed to create target parent dir: ").concat(m.as_str());
            (ArtifactsPhase::Releasing(Err(AppError::Runtime(message))), ArtifactsAction::ReleaseLock)
        },
        (ArtifactsPhase::WritingMetadata, ArtifactsEvent::MetadataWritten) => (ArtifactsPhase::Exporting, ArtifactsAction::Export),
        (ArtifactsPhase::WritingMetadata, ArtifactsEvent::MetadataFailed(m)) => {
            let message = String::from_str("failed to write staging metadata: ").concat(m.as_str());
            (ArtifactsPhase::Releasing(Err(AppError::Runtime(message))), ArtifactsAction::ReleaseLock)
        },
        (ArtifactsPhase::Exporting, ArtifactsEvent::Exported { result, staged }) => {
            match ensure_export_success(source_set_name.as_str(), &result) {
                Err(e) => (ArtifactsPhase::Releasing(Err(e)), ArtifactsAction::ReleaseLock),
                Ok(()) => {
                    if !staged {
                        let message = String::from_str("designer did not produce artifact file '").concat(staging_file.as_str()).concat("'");
                        (ArtifactsPhase::Releasing(Err(AppError::Platform(message))), ArtifactsAction::ReleaseLock)
                    } else {
                        (ArtifactsPhase::Publishing, ArtifactsAction::Publish)
                    }
                },
            }
        },
        (ArtifactsPhase::Exporting, ArtifactsEvent::ExportError(e)) => (ArtifactsPhase::Releasing(Err(e)), ArtifactsAction::ReleaseLock),
        (ArtifactsPhase::Publishing, ArtifactsEvent::Published { cleanup_warning }) =>
            (ArtifactsPhase::Releasing(Ok(cleanup_warning)), ArtifactsAction::ReleaseLock),
        (ArtifactsPhase::Publishing, ArtifactsEvent::PublishFailed(m)) => {
            let message = String::from_str("failed to publish staged artifact: ").concat(m.as_str());
            (ArtifactsPhase::Releasing(Err(AppError::Runtime(message))), ArtifactsAction::ReleaseLock)
        },
        (ArtifactsPhase::Releasing(o), ArtifactsEvent::LockReleased) => (ArtifactsPhase::Finished(o), ArtifactsAction::Finish),
        (p, _) => {
            let action = match &p {
                ArtifactsPhase::LocatingTool => ArtifactsAction::LocateTool,
                ArtifactsPhase::Locking => ArtifactsAction::AcquireLock,
                ArtifactsPhase::CleaningOrphans => ArtifactsAction::CleanOrphans,
                ArtifactsPhase::EnsuringParent => ArtifactsAction::EnsureParent,
                ArtifactsPhase::WritingMetadata => ArtifactsAction::WriteMetadata,
                ArtifactsPhase::Exporting => ArtifactsAction::Export,
                ArtifactsPhase::Publishing => ArtifactsAction::Publish,
                ArtifactsPhase::Releasing(_) => ArtifactsAction::ReleaseLock,
                ArtifactsPhase::Finished(_) => ArtifactsAction::Finish,
            };
            (p, action)
        },
    };
    (ArtifactsRun { source_set_name, lock_path, staging_file, phase: next }, action)
}

/// Whether the run holds the lock in this phase.
pub open spec fn holds_lock(p: ArtifactsPhase) -> bool {
    match p {
        ArtifactsPhase::LocatingTool | ArtifactsPhase::Locking | ArtifactsPhase::Finished(_) => false,
        _ => true,
    }
}

/// The lock is released on every path: a run that holds the lock never
/// finishes in one step, and a run finishes straight after releasing it or
/// before it took it. The target is replaced only right after an export
/// that succeeded and staged its file.
pub proof fn lemma_artifacts_lock_and_publish(r: ArtifactsRun, event: ArtifactsEvent, r2: ArtifactsRun, a: ArtifactsAction)
    requires
        artifacts_step_holds(r, event, r2, a),
    ensures
        r2.phase matches ArtifactsPhase::Finished(_) && !(r.phase matches ArtifactsPhase::Finished(_)) ==>
            (r.phase matches ArtifactsPhase::Releasing(_) && event matches ArtifactsEvent::LockReleased)
            || r.phase matches ArtifactsPhase::LocatingTool || r.phase matches ArtifactsPhase::Locking,
        a == ArtifactsAction::Publish ==>
            (r.phase matches ArtifactsPhase::Exporting && event matches ArtifactsEvent::Exported { result, staged }
                && result.process.exit_code == 0 && staged)
            || r.phase matches ArtifactsPhase::Publishing,
{
}

} // verus!
