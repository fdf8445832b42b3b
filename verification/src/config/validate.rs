//! Consistency checks of the application configuration.
//!
//! The checks that look at the filesystem take what was found there as
//! [`ValidationFacts`]; `validate` then decides from the configuration and
//! those facts alone.

use vstd::prelude::*;
use crate::config::model::{AppConfig, SourceFormat, BuilderBackend, SourceSetPurpose, resolved_source_set_path, resolve_source_set_path};

use crate::text::{to_chars, is_blank, trim_seq};
use crate::path::ascii_lower_char;
use crate::path::ascii_lower;
use crate::probe::{PathFacts, probed_exists, probed_canonical, exists_in, canonical_in};

verus! {

/// Why a configuration is refused.
#[derive(Debug, Clone)]
pub enum ConfigValidationError {
    BasePathInvalid(String),
    WorkPathInvalid(String),
    NoConfigurationSourceSet,
    SourceSetPathInvalid { name: String, path: String },
    DuplicateSourceSetName(String),
    InvalidSourceSetName(String),
    DuplicateSourceSetPath(String),
    EmptyConnection,
    IbcmdRequiresFileConnection,
    EdtNoProjects,
    InvalidPlatformVersion(String),
}

/// [`ConfigValidationError`] with its strings as character sequences.
pub enum ConfigErrorView {
    BasePathInvalid(Seq<char>),
    WorkPathInvalid(Seq<char>),
    NoConfigurationSourceSet,
    SourceSetPathInvalid { name: Seq<char>, path: Seq<char> },
    DuplicateSourceSetName(Seq<char>),
    InvalidSourceSetName(Seq<char>),
    DuplicateSourceSetPath(Seq<char>),
    EmptyConnection,
    IbcmdRequiresFileConnection,
    EdtNoProjects,
    InvalidPlatformVersion(Seq<char>),
}

impl View for ConfigValidationError {
    type V = ConfigErrorView;

    open spec fn view(&self) -> ConfigErrorView {
        match self {
            ConfigValidationError::BasePathInvalid(s) => ConfigErrorView::BasePathInvalid(s@),
            ConfigValidationError::WorkPathInvalid(s) => ConfigErrorView::WorkPathInvalid(s@),
            ConfigValidationError::NoConfigurationSourceSet => ConfigErrorView::NoConfigurationSourceSet,
            ConfigValidationError::SourceSetPathInvalid { name, path } => ConfigErrorView::SourceSetPathInvalid { name: name@, path: path@ },
            ConfigValidationError::DuplicateSourceSetName(s) => ConfigErrorView::DuplicateSourceSetName(s@),
            ConfigValidationError::InvalidSourceSetName(s) => ConfigErrorView::InvalidSourceSetName(s@),
            ConfigValidationError::DuplicateSourceSetPath(s) => ConfigErrorView::DuplicateSourceSetPath(s@),
            ConfigValidationError::EmptyConnection => ConfigErrorView::EmptyConnection,
            ConfigValidationError::IbcmdRequiresFileConnection => ConfigErrorView::IbcmdRequiresFileConnection,
            ConfigValidationError::EdtNoProjects => ConfigErrorView::EdtNoProjects,
            ConfigValidationError::InvalidPlatformVersion(s) => ConfigErrorView::InvalidPlatformVersion(s@),
        }
    }
}

/// The text that describes the error.
pub open spec fn config_error_text(e: ConfigErrorView) -> Seq<char> {
    match e {
        ConfigErrorView::BasePathInvalid(s) => "basePath does not exist or is not a directory: "@ + s,
        ConfigErrorView::WorkPathInvalid(s) => "workPath could not be created: "@ + s,
        ConfigErrorView::NoConfigurationSourceSet => "source-set must contain at least one CONFIGURATION entry"@,
        ConfigErrorView::SourceSetPathInvalid { name, path } => "source-set entry '"@ + name + "' path does not exist: "@ + path,
        ConfigErrorView::DuplicateSourceSetName(s) => "source-set name must be unique, duplicate: "@ + s,
        ConfigErrorView::InvalidSourceSetName(s) => "source-set name contains unsafe path or filename characters: "@ + s,
        ConfigErrorView::DuplicateSourceSetPath(s) => "source-set resolved path must be unique, duplicate: "@ + s,
        ConfigErrorView::EmptyConnection => "connection string is empty"@,
        ConfigErrorView::IbcmdRequiresFileConnection => "IBCMD builder requires a file-based connection string (File=...)"@,
        ConfigErrorView::EdtNoProjects => "format EDT requires at least one source-set with a valid EDT project path"@,
        ConfigErrorView::InvalidPlatformVersion(s) => "platform version must use exact format major.minor.patch.build: "@ + s,
    }
}

impl ConfigValidationError {
    /// The text that describes the error.
    pub fn message(&self) -> (s: String)
        ensures
            s@ == config_error_text(self@),
    {
        match self {
            ConfigValidationError::BasePathInvalid(p) => String::from_str("basePath does not exist or is not a directory: ").concat(p.as_str()),
            ConfigValidationError::WorkPathInvalid(p) => String::from_str("workPath could not be created: ").concat(p.as_str()),
            ConfigValidationError::NoConfigurationSourceSet => String::from_str("source-set must contain at least one CONFIGURATION entry"),
            ConfigValidationError::SourceSetPathInvalid { name, path } => String::from_str("source-set entry '").concat(name.as_str()).concat("' path does not exist: ").concat(path.as_str()),
            ConfigValidationError::DuplicateSourceSetName(p) => String::from_str("source-set name must be unique, duplicate: ").concat(p.as_str()),
            ConfigValidationError::InvalidSourceSetName(p) => String::from_str("source-set name contains unsafe path or filename characters: ").concat(p.as_str()),
            ConfigValidationError::DuplicateSourceSetPath(p) => String::from_str("source-set resolved path must be unique, duplicate: ").concat(p.as_str()),
            ConfigValidationError::EmptyConnection => String::from_str("connection string is empty"),
            ConfigValidationError::IbcmdRequiresFileConnection => String::from_str("IBCMD builder requires a file-based connection string (File=...)"),
            ConfigValidationError::EdtNoProjects => String::from_str("format EDT requires at least one source-set with a valid EDT project path"),
            ConfigValidationError::InvalidPlatformVersion(p) => String::from_str("platform version must use exact format major.minor.patch.build: ").concat(p.as_str()),
        }
    }
}

/// What was found on disk for the paths that a configuration names.
#[derive(Debug, Clone)]
pub struct ValidationFacts {
    /// Whether `basePath` exists and is a directory.
    pub base_path_is_dir: bool,
    /// The failure, if creating a missing `workPath` failed (its text).
    pub work_path_error: Option<String>,
    /// Facts about resolved source-set paths.
    pub paths: Vec<PathFacts>,
}

/// The key under which duplicate source-set paths are detected: the
/// canonical path when known, else the resolved path.
pub open spec fn normalized_key(paths: Seq<PathFacts>, p: Seq<char>) -> Seq<char> {
    match probed_canonical(paths, p) {
        Some(c) => c,
        None => p,
    }
}

/// Characters that a source-set name must not hold.
pub open spec fn is_forbidden_name_char(c: char) -> bool {
    c == '<' || c == '>' || c == ':' || c == '"' || c == '/' || c == '\\' || c == '|' || c == '?'
        || c == '*' || c == '\0'
}

/// A source-set name is safe: non-empty, one ordinary path component
/// (not `.` or `..`), and free of path and filename metacharacters.
pub open spec fn valid_source_set_name(name: Seq<char>) -> bool {
    &&& name.len() > 0
    &&& name != seq!['.']
    &&& name != seq!['.', '.']
    &&& forall|i: int| 0 <= i < name.len() ==> !is_forbidden_name_char(#[trigger] name[i])
}

/// The problem with the `i`-th source-set, if any, given that all before it passed.
pub open spec fn source_set_problem(config: AppConfig, facts: ValidationFacts, i: int) -> Option<ConfigErrorView> {
    let sets = config.source_sets@;
    let ss = sets[i];
    let full = resolved_source_set_path(config.base_path@, ss.path@);
    let key = normalized_key(facts.paths@, full);
    if !valid_source_set_name(ss.name@) {
        Some(ConfigErrorView::InvalidSourceSetName(ss.name@))
    } else if exists|j: int| 0 <= j < i && (#[trigger] sets[j]).name@ == ss.name@ {
        Some(ConfigErrorView::DuplicateSourceSetName(ss.name@))
    } else if config.format == SourceFormat::Designer && !probed_exists(facts.paths@, full) {
        Some(ConfigErrorView::SourceSetPathInvalid { name: ss.name@, path: full })
    } else if exists|j: int| 0 <= j < i && normalized_key(facts.paths@, resolved_source_set_path(config.base_path@, (#[trigger] sets[j]).path@)) == key {
        Some(ConfigErrorView::DuplicateSourceSetPath(key))
    } else {
        None
    }
}

/// The first source-set problem at or after `i`.
pub open spec fn first_source_set_problem(config: AppConfig, facts: ValidationFacts, i: int) -> Option<ConfigErrorView>
    decreases config.source_sets@.len() - i,
{
    if i < 0 || i >= config.source_sets@.len() {
        None
    } else {
        match source_set_problem(config, facts, i) {
            Some(e) => Some(e),
            None => first_source_set_problem(config, facts, i + 1),
        }
    }
}

/// Whether some source-set has the CONFIGURATION purpose.
pub open spec fn has_configuration_source_set(config: AppConfig) -> bool {
    exists|i: int| 0 <= i < config.source_sets@.len() && (#[trigger] config.source_sets@[i]).purpose == SourceSetPurpose::Configuration
}

/// Whether `s` holds `"file="` at some position, ignoring ASCII case (what
/// `s.to_lowercase().contains("file=")` tests).
pub open spec fn mentions_file_key(s: Seq<char>) -> bool {
    exists|i: int| 0 <= i && i + 5 <= s.len() && {
        &&& ascii_lower(#[trigger] s[i]) == 'f'
        &&& ascii_lower(s[i + 1]) == 'i'
        &&& ascii_lower(s[i + 2]) == 'l'
        &&& ascii_lower(s[i + 3]) == 'e'
        &&& s[i + 4] == '='
    }
}

pub open spec fn is_ascii_digit(c: char) -> bool {
    '0' <= c && c <= '9'
}

/// A non-empty run of ASCII digits.
pub open spec fn is_number_seq(s: Seq<char>) -> bool {
    s.len() > 0 && forall|i: int| 0 <= i < s.len() ==> is_ascii_digit(#[trigger] s[i])
}

/// Exactly `major.minor.patch.build`: four non-empty digit runs joined by dots.
pub open spec fn is_strict_platform_version(s: Seq<char>) -> bool {
    exists|a: int, b: int, c: int| 0 < a && a + 1 < b && b + 1 < c && c + 1 < s.len()
        && #[trigger] s[a] == '.' && #[trigger] s[b] == '.' && #[trigger] s[c] == '.'
        && is_number_seq(s.subrange(0, a)) && is_number_seq(s.subrange(a + 1, b))
        && is_number_seq(s.subrange(b + 1, c)) && is_number_seq(s.subrange(c + 1, s.len() as int))
}

/// What `validate` decides for a configuration and the facts found on disk.
pub open spec fn validation_outcome(config: AppConfig, facts: ValidationFacts) -> Option<ConfigErrorView> {
    if !facts.base_path_is_dir {
        Some(ConfigErrorView::BasePathInvalid(config.base_path@))
    } else if facts.work_path_error is Some {
        Some(ConfigErrorView::WorkPathInvalid(facts.work_path_error->0@))
    } else if !has_configuration_source_set(config) {
        Some(ConfigErrorView::NoConfigurationSourceSet)
    } else if first_source_set_problem(config, facts, 0) is Some {
        first_source_set_problem(config, facts, 0)
    } else if trim_seq(config.connection@).len() == 0 {
        Some(ConfigErrorView::EmptyConnection)
    } else if config.builder == BuilderBackend::Ibcmd && !mentions_file_key(config.connection@) {
        Some(ConfigErrorView::IbcmdRequiresFileConnection)
    } else if config.tools.platform.version is Some && !is_strict_platform_version(config.tools.platform.version->0@) {
        Some(ConfigErrorView::InvalidPlatformVersion(config.tools.platform.version->0@))
    } else {
        None
    }
}

fn normalized_key_exec(paths: &Vec<PathFacts>, p: &String) -> (k: String)
    ensures
        k@ == normalized_key(paths@, p@),
{
    match canonical_in(paths, p.as_str()) {
        Some(c) => c,
        None => p.clone(),
    }
}

fn is_forbidden_char(c: char) -> (b: bool)
    ensures
        b == is_forbidden_name_char(c),
{
    c == '<' || c == '>' || c == ':' || c == '"' || c == '/' || c == '\\' || c == '|' || c == '?'
        || c == '*' || c == '\0'
}

/// Whether `name` is a safe source-set name.
pub fn validate_source_set_name(name: &String) -> (r: Result<(), ConfigValidationError>)
    ensures
        r is Ok <==> valid_source_set_name(name@),
        r matches Err(e) ==> e@ == ConfigErrorView::InvalidSourceSetName(name@),
{
    let v = to_chars(name.as_str());
    let n = v.len();
    if n == 0 {
        return Err(ConfigValidationError::InvalidSourceSetName(name.clone()));
    }
    if n == 1 && v[0] == '.' {
        assert(v@ =~= seq!['.']);
        return Err(ConfigValidationError::InvalidSourceSetName(name.clone()));
    }
    if n == 2 && v[0] == '.' && v[1] == '.' {
        assert(v@ =~= seq!['.', '.']);
        return Err(ConfigValidationError::InvalidSourceSetName(name.clone()));
    }
    proof {
        if n == 1 {
            assert(v@[0] != seq!['.'][0]);
        } else {
            assert(v@.len() != seq!['.'].len());
        }
        if n == 2 {
            assert(v@[0] != seq!['.', '.'][0] || v@[1] != seq!['.', '.'][1]);
        } else {
            assert(v@.len() != seq!['.', '.'].len());
        }
    }
    let mut i: usize = 0;
    while i < n
        invariant
            n == v@.len(),
            v@ == name@,
            i <= n,
            forall|k: int| 0 <= k < i ==> !is_forbidden_name_char(#[trigger] v@[k]),
        decreases n - i,
    {
        if is_forbidden_char(v[i]) {
            return Err(ConfigValidationError::InvalidSourceSetName(name.clone()));
        }
        i = i + 1;
    }
    Ok(())
}

fn has_configuration_exec(config: &AppConfig) -> (b: bool)
    ensures
        b == has_configuration_source_set(*config),
{
    let mut i: usize = 0;
    while i < config.source_sets.len()
        invariant
            i <= config.source_sets@.len(),
            forall|k: int| 0 <= k < i ==> (#[trigger] config.source_sets@[k]).purpose != SourceSetPurpose::Configuration,
        decreases config.source_sets@.len() - i,
    {
        if config.source_sets[i].purpose == SourceSetPurpose::Configuration {
            return true;
        }
        i = i + 1;
    }
    false
}

proof fn lemma_first_problem_skip(config: AppConfig, facts: ValidationFacts, i: int)
    requires
        0 <= i < config.source_sets@.len(),
        source_set_problem(config, facts, i) is None,
    ensures
        first_source_set_problem(config, facts, i) == first_source_set_problem(config, facts, i + 1),
{
}

fn validate_source_sets(config: &AppConfig, facts: &ValidationFacts) -> (r: Result<(), ConfigValidationError>)
    ensures
        match r {
            Ok(()) => first_source_set_problem(*config, *facts, 0) is None,
            Err(e) => first_source_set_problem(*config, *facts, 0) == Some(e@),
        },
{
    let sets = &config.source_sets;
    let mut names: Vec<String> = Vec::new();
    let mut keys: Vec<String> = Vec::new();
    let mut i: usize = 0;
    while i < sets.len()
        invariant
            sets == &config.source_sets,
            i <= sets@.len(),
            names@.len() == i,
            keys@.len() == i,
            forall|k: int| 0 <= k < i ==> (#[trigger] names@[k])@ == sets@[k].name@,
            forall|k: int| 0 <= k < i ==> (#[trigger] keys@[k])@ == normalized_key(facts.paths@, resolved_source_set_path(config.base_path@, sets@[k].path@)),
            first_source_set_problem(*config, *facts, 0) == first_source_set_problem(*config, *facts, i as int),
        decreases sets@.len() - i,
    {
        let ss = &sets[i];
        let ghost full_spec = resolved_source_set_path(config.base_path@, ss.path@);
        if let Err(e) = validate_source_set_name(&ss.name) {
            return Err(e);
        }
        let mut j: usize = 0;
        while j < i
            invariant
                sets == &config.source_sets,
                *ss == sets@[i as int],
                valid_source_set_name(ss.name@),
                first_source_set_problem(*config, *facts, 0) == first_source_set_problem(*config, *facts, i as int),
                j <= i,
                i < sets@.len(),
                names@.len() == i,
                forall|k: int| 0 <= k < i ==> (#[trigger] names@[k])@ == sets@[k].name@,
                forall|k: int| 0 <= k < j ==> (#[trigger] sets@[k]).name@ != sets@[i as int].name@,
            decreases i - j,
        {
            if names[j] == ss.name {
                assert(sets@[j as int].name@ == sets@[i as int].name@);
                return Err(ConfigValidationError::DuplicateSourceSetName(ss.name.clone()));
            }
            j = j + 1;
        }
        let full = resolve_source_set_path(config, ss);
        if config.format == SourceFormat::Designer && !exists_in(&facts.paths, full.as_str()) {
            return Err(ConfigValidationError::SourceSetPathInvalid { name: ss.name.clone(), path: full });
        }
        let key = normalized_key_exec(&facts.paths, &full);
        let mut j: usize = 0;
        while j < i
            invariant
                sets == &config.source_sets,
                *ss == sets@[i as int],
                valid_source_set_name(ss.name@),
                forall|k: int| 0 <= k < i ==> (#[trigger] sets@[k]).name@ != sets@[i as int].name@,
                !(config.format == SourceFormat::Designer && !probed_exists(facts.paths@, resolved_source_set_path(config.base_path@, ss.path@))),
                key@ == normalized_key(facts.paths@, resolved_source_set_path(config.base_path@, ss.path@)),
                first_source_set_problem(*config, *facts, 0) == first_source_set_problem(*config, *facts, i as int),
                j <= i,
                i < sets@.len(),
                keys@.len() == i,
                forall|k: int| 0 <= k < i ==> (#[trigger] keys@[k])@ == normalized_key(facts.paths@, resolved_source_set_path(config.base_path@, sets@[k].path@)),
                forall|k: int| 0 <= k < j ==> normalized_key(facts.paths@, resolved_source_set_path(config.base_path@, (#[trigger] sets@[k]).path@)) != key@,
            decreases i - j,
        {
            if keys[j] == key {
                assert(normalized_key(facts.paths@, resolved_source_set_path(config.base_path@, sets@[j as int].path@)) == key@);
                return Err(ConfigValidationError::DuplicateSourceSetPath(key));
            }
            j = j + 1;
        }
        proof {
            assert(source_set_problem(*config, *facts, i as int) is None);
            lemma_first_problem_skip(*config, *facts, i as int);
        }
        names.push(ss.name.clone());
        keys.push(key);
        i = i + 1;
    }
    Ok(())
}

fn mentions_file_key_exec(s: &String) -> (b: bool)
    ensures
        b == mentions_file_key(s@),
{
    let v = to_chars(s.as_str());
    let n = v.len();
    if n < 5 {
        return false;
    }
    let mut i: usize = 0;
    while i < n - 4
        invariant
            n == v@.len(),
            v@ == s@,
            n >= 5,
            i <= n - 4,
            forall|k: int| 0 <= k < i ==> !(#[trigger] ascii_lower(v@[k]) == 'f' && ascii_lower(v@[k + 1]) == 'i' && ascii_lower(v@[k + 2]) == 'l' && ascii_lower(v@[k + 3]) == 'e' && v@[k + 4] == '='),
        decreases n - i,
    {
        if ascii_lower_char(v[i]) == 'f' && ascii_lower_char(v[i + 1]) == 'i' && ascii_lower_char(v[i + 2]) == 'l'
            && ascii_lower_char(v[i + 3]) == 'e' && v[i + 4] == '=' {
            return true;
        }
        i = i + 1;
    }
    false
}

fn is_digit(c: char) -> (b: bool)
    ensures
        b == is_ascii_digit(c),
{
    '0' <= c && c <= '9'
}

/// Whether `version` is exactly `major.minor.patch.build`.
pub fn parse_strict_platform_version(version: &String) -> (b: bool)
    ensures
        b == is_strict_platform_version(version@),
{
    let v = to_chars(version.as_str());
    let n = v.len();
    // positions of the dots; every other character must be a digit
    let mut dots: Vec<usize> = Vec::new();
    let mut i: usize = 0;
    while i < n
        invariant
            n == v@.len(),
            v@ == version@,
            i <= n,
            dots@.len() <= 3,
            forall|k: int| 0 <= k < dots@.len() ==> (#[trigger] dots@[k]) < i && v@[dots@[k] as int] == '.',
            forall|k: int, m: int| 0 <= k < m < dots@.len() ==> dots@[k] < dots@[m],
            forall|p: int| 0 <= p < i && v@[p] != '.' ==> is_ascii_digit(#[trigger] v@[p]),
            forall|p: int| 0 <= p < i && v@[p] == '.' ==> exists|k: int| 0 <= k < dots@.len() && dots@[k] == p,
        decreases n - i,
    {
        let c = v[i];
        if c == '.' {
            if dots.len() == 3 {
                proof {
                    assert forall|a: int, b: int, cc: int| !(0 < a && a + 1 < b && b + 1 < cc && cc + 1 < v@.len() && #[trigger] v@[a] == '.' && #[trigger] v@[b] == '.' && #[trigger] v@[cc] == '.' && is_number_seq(v@.subrange(0, a)) && is_number_seq(v@.subrange(a + 1, b)) && is_number_seq(v@.subrange(b + 1, cc)) && is_number_seq(v@.subrange(cc + 1, v@.len() as int))) by {
                        lemma_four_dots_refute(v@, dots@, i as int, a, b, cc);
                    }
                }
                return false;
            }
            let ghost old_dots = dots@;
            dots.push(i);
            proof {
                assert(dots@[dots@.len() - 1] == i);
                assert forall|p: int| 0 <= p < i + 1 && v@[p] == '.' implies exists|k: int| 0 <= k < dots@.len() && dots@[k] == p by {
                    if p < i {
                        let k = choose|k: int| 0 <= k < old_dots.len() && old_dots[k] == p;
                        assert(dots@[k] == p);
                    } else {
                        assert(dots@[dots@.len() - 1] == p);
                    }
                }
            }
        } else if !is_digit(c) {
            proof {
                assert forall|a: int, b: int, cc: int| !(0 < a && a + 1 < b && b + 1 < cc && cc + 1 < v@.len() && #[trigger] v@[a] == '.' && #[trigger] v@[b] == '.' && #[trigger] v@[cc] == '.' && is_number_seq(v@.subrange(0, a)) && is_number_seq(v@.subrange(a + 1, b)) && is_number_seq(v@.subrange(b + 1, cc)) && is_number_seq(v@.subrange(cc + 1, v@.len() as int))) by {
                    lemma_non_digit_refute(v@, i as int, a, b, cc);
                }
            }
            return false;
        }
        i = i + 1;
    }
    if dots.len() != 3 {
        proof {
            assert forall|a: int, b: int, cc: int| !(0 < a && a + 1 < b && b + 1 < cc && cc + 1 < v@.len() && #[trigger] v@[a] == '.' && #[trigger] v@[b] == '.' && #[trigger] v@[cc] == '.' && is_number_seq(v@.subrange(0, a)) && is_number_seq(v@.subrange(a + 1, b)) && is_number_seq(v@.subrange(b + 1, cc)) && is_number_seq(v@.subrange(cc + 1, v@.len() as int))) by {
                lemma_few_dots_refute(v@, dots@, a, b, cc);
            }
        }
        return false;
    }
    let a = dots[0];
    let b = dots[1];
    let c = dots[2];
    let ok = 0 < a && a + 1 < b && b + 1 < c && c + 1 < n;
    proof {
        if ok {
            lemma_digits_between(v@, dots@, 0, a as int);
            lemma_digits_between(v@, dots@, a + 1, b as int);
            lemma_digits_between(v@, dots@, b + 1, c as int);
            lemma_digits_between(v@, dots@, c + 1, n as int);
            assert(v@[a as int] == '.' && v@[b as int] == '.' && v@[c as int] == '.');
        } else {
            assert forall|x: int, y: int, z: int| !(0 < x && x + 1 < y && y + 1 < z && z + 1 < v@.len() && #[trigger] v@[x] == '.' && #[trigger] v@[y] == '.' && #[trigger] v@[z] == '.' && is_number_seq(v@.subrange(0, x)) && is_number_seq(v@.subrange(x + 1, y)) && is_number_seq(v@.subrange(y + 1, z)) && is_number_seq(v@.subrange(z + 1, v@.len() as int))) by {
                lemma_three_dots_fixed(v@, dots@, x, y, z);
            }
        }
    }
    ok
}

proof fn lemma_digits_between(v: Seq<char>, dots: Seq<usize>, lo: int, hi: int)
    requires
        0 <= lo <= hi <= v.len(),
        lo < hi,
        forall|p: int| 0 <= p < v.len() && v[p] != '.' ==> is_ascii_digit(#[trigger] v[p]),
        forall|p: int| lo <= p < hi ==> v[p] != '.',
    ensures
        is_number_seq(v.subrange(lo, hi)),
{
    assert forall|i: int| 0 <= i < v.subrange(lo, hi).len() implies is_ascii_digit(#[trigger] v.subrange(lo, hi)[i]) by {
        assert(v.subrange(lo, hi)[i] == v[lo + i]);
    }
}

proof fn lemma_number_has_no_dot(s: Seq<char>, p: int)
    requires
        is_number_seq(s),
        0 <= p < s.len(),
    ensures
        s[p] != '.',
{
    assert(is_ascii_digit(s[p]));
}

/// In a version with three separating dots, no other position holds a dot.
proof fn lemma_dot_positions(v: Seq<char>, a: int, b: int, c: int, p: int)
    requires
        0 < a && a + 1 < b && b + 1 < c && c + 1 < v.len(),
        is_number_seq(v.subrange(0, a)),
        is_number_seq(v.subrange(a + 1, b)),
        is_number_seq(v.subrange(b + 1, c)),
        is_number_seq(v.subrange(c + 1, v.len() as int)),
        0 <= p < v.len(),
        v[p] == '.',
    ensures
        p == a || p == b || p == c,
{
    if p < a {
        lemma_number_has_no_dot(v.subrange(0, a), p);
    } else if a < p < b {
        lemma_number_has_no_dot(v.subrange(a + 1, b), p - a - 1);
    } else if b < p < c {
        lemma_number_has_no_dot(v.subrange(b + 1, c), p - b - 1);
    } else if c < p {
        lemma_number_has_no_dot(v.subrange(c + 1, v.len() as int), p - c - 1);
    }
}

proof fn lemma_four_dots_refute(v: Seq<char>, dots: Seq<usize>, i: int, a: int, b: int, c: int)
    requires
        0 <= i < v.len(),
        v[i] == '.',
        dots.len() == 3,
        forall|k: int| 0 <= k < dots.len() ==> (#[trigger] dots[k]) < i && v[dots[k] as int] == '.',
        forall|k: int, m: int| 0 <= k < m < dots.len() ==> dots[k] < dots[m],
    ensures
        !(0 < a && a + 1 < b && b + 1 < c && c + 1 < v.len() && v[a] == '.' && v[b] == '.' && v[c] == '.'
            && is_number_seq(v.subrange(0, a)) && is_number_seq(v.subrange(a + 1, b))
            && is_number_seq(v.subrange(b + 1, c)) && is_number_seq(v.subrange(c + 1, v.len() as int))),
{
    if 0 < a && a + 1 < b && b + 1 < c && c + 1 < v.len() && v[a] == '.' && v[b] == '.' && v[c] == '.'
        && is_number_seq(v.subrange(0, a)) && is_number_seq(v.subrange(a + 1, b))
        && is_number_seq(v.subrange(b + 1, c)) && is_number_seq(v.subrange(c + 1, v.len() as int)) {
        let d0 = dots[0] as int;
        let d1 = dots[1] as int;
        let d2 = dots[2] as int;
        assert(v[d0] == '.' && v[d1] == '.' && v[d2] == '.');
        lemma_dot_positions(v, a, b, c, d0);
        lemma_dot_positions(v, a, b, c, d1);
        lemma_dot_positions(v, a, b, c, d2);
        lemma_dot_positions(v, a, b, c, i);
        assert(d0 < d1 < d2 < i);
    }
}

proof fn lemma_non_digit_refute(v: Seq<char>, i: int, a: int, b: int, c: int)
    requires
        0 <= i < v.len(),
        v[i] != '.',
        !is_ascii_digit(v[i]),
    ensures
        !(0 < a && a + 1 < b && b + 1 < c && c + 1 < v.len() && v[a] == '.' && v[b] == '.' && v[c] == '.'
            && is_number_seq(v.subrange(0, a)) && is_number_seq(v.subrange(a + 1, b))
            && is_number_seq(v.subrange(b + 1, c)) && is_number_seq(v.subrange(c + 1, v.len() as int))),
{
    if 0 < a && a + 1 < b && b + 1 < c && c + 1 < v.len() && v[a] == '.' && v[b] == '.' && v[c] == '.'
        && is_number_seq(v.subrange(0, a)) && is_number_seq(v.subrange(a + 1, b))
        && is_number_seq(v.subrange(b + 1, c)) && is_number_seq(v.subrange(c + 1, v.len() as int)) {
        if i < a {
            assert(is_ascii_digit(v.subrange(0, a)[i]));
        } else if a < i < b {
            assert(is_ascii_digit(v.subrange(a + 1, b)[i - a - 1]));
        } else if b < i < c {
            assert(is_ascii_digit(v.subrange(b + 1, c)[i - b - 1]));
        } else if c < i {
            assert(is_ascii_digit(v.subrange(c + 1, v.len() as int)[i - c - 1]));
        }
    }
}

proof fn lemma_few_dots_refute(v: Seq<char>, dots: Seq<usize>, a: int, b: int, c: int)
    requires
        dots.len() < 3,
        forall|k: int| 0 <= k < dots.len() ==> (#[trigger] dots[k]) < v.len() && v[dots[k] as int] == '.',
        forall|p: int| 0 <= p < v.len() && v[p] == '.' ==> exists|k: int| 0 <= k < dots.len() && dots[k] == p,
        forall|k: int, m: int| 0 <= k < m < dots.len() ==> dots[k] < dots[m],
    ensures
        !(0 < a && a + 1 < b && b + 1 < c && c + 1 < v.len() && v[a] == '.' && v[b] == '.' && v[c] == '.'
            && is_number_seq(v.subrange(0, a)) && is_number_seq(v.subrange(a + 1, b))
            && is_number_seq(v.subrange(b + 1, c)) && is_number_seq(v.subrange(c + 1, v.len() as int))),
{
    if 0 < a && a + 1 < b && b + 1 < c && c + 1 < v.len() && v[a] == '.' && v[b] == '.' && v[c] == '.' {
        let ka = choose|k: int| 0 <= k < dots.len() && dots[k] == a;
        let kb = choose|k: int| 0 <= k < dots.len() && dots[k] == b;
        let kc = choose|k: int| 0 <= k < dots.len() && dots[k] == c;
        assert(ka != kb && kb != kc && ka != kc);
    }
}

proof fn lemma_three_dots_fixed(v: Seq<char>, dots: Seq<usize>, x: int, y: int, z: int)
    requires
        dots.len() == 3,
        forall|k: int| 0 <= k < dots.len() ==> (#[trigger] dots[k]) < v.len() && v[dots[k] as int] == '.',
        forall|p: int| 0 <= p < v.len() && v[p] == '.' ==> exists|k: int| 0 <= k < dots.len() && dots[k] == p,
        forall|k: int, m: int| 0 <= k < m < dots.len() ==> dots[k] < dots[m],
        !(0 < dots[0] && dots[0] + 1 < dots[1] && dots[1] + 1 < dots[2] && dots[2] + 1 < v.len()),
    ensures
        !(0 < x && x + 1 < y && y + 1 < z && z + 1 < v.len() && v[x] == '.' && v[y] == '.' && v[z] == '.'
            && is_number_seq(v.subrange(0, x)) && is_number_seq(v.subrange(x + 1, y))
            && is_number_seq(v.subrange(y + 1, z)) && is_number_seq(v.subrange(z + 1, v.len() as int))),
{
    if 0 < x && x + 1 < y && y + 1 < z && z + 1 < v.len() && v[x] == '.' && v[y] == '.' && v[z] == '.' {
        let kx = choose|k: int| 0 <= k < dots.len() && dots[k] == x;
        let ky = choose|k: int| 0 <= k < dots.len() && dots[k] == y;
        let kz = choose|k: int| 0 <= k < dots.len() && dots[k] == z;
        assert(kx < ky < kz) by {
            if ky <= kx { if ky < kx { assert(dots[ky] < dots[kx]); } }
            if kz <= ky { if kz < ky { assert(dots[kz] < dots[ky]); } }
        }
        assert(kx == 0 && ky == 1 && kz == 2);
    }
}

/// `validate`: checks `basePath`, `workPath`, the source-sets, the
/// connection string and the platform version, in this order, and reports
/// the first problem.
pub fn validate(config: &AppConfig, facts: &ValidationFacts) -> (r: Result<(), ConfigValidationError>)
    ensures
        match r {
            Ok(()) => validation_outcome(*config, *facts) is None,
            Err(e) => validation_outcome(*config, *facts) == Some(e@),
        },
        r is Ok ==> source_set_names_distinct(config.source_sets@),
{
    proof { lemma_validation_rejects_duplicate_names(*config, *facts); }
    if !facts.base_path_is_dir {
        return Err(ConfigValidationError::BasePathInvalid(config.base_path.clone()));
    }
    if let Some(e) = &facts.work_path_error {
        return Err(ConfigValidationError::WorkPathInvalid(e.clone()));
    }
    if !has_configuration_exec(config) {
        return Err(ConfigValidationError::NoConfigurationSourceSet);
    }
    if let Err(e) = validate_source_sets(config, facts) {
        return Err(e);
    }
    if is_blank(config.connection.as_str()) {
        return Err(ConfigValidationError::EmptyConnection);
    }
    if config.builder == BuilderBackend::Ibcmd && !mentions_file_key_exec(&config.connection) {
        return Err(ConfigValidationError::IbcmdRequiresFileConnection);
    }
    if let Some(version) = &config.tools.platform.version {
        if !parse_strict_platform_version(version) {
            return Err(ConfigValidationError::InvalidPlatformVersion(version.clone()));
        }
    }
    Ok(())
}

/// The resolved path of every source-set, in order: the paths whose facts
/// `validate` consults.
pub fn source_set_paths(config: &AppConfig) -> (r: Vec<String>)
    ensures
        r@.len() == config.source_sets@.len(),
        forall|i: int| 0 <= i < r@.len() ==> (#[trigger] r@[i])@ == resolved_source_set_path(config.base_path@, config.source_sets@[i].path@),
{
    let mut r: Vec<String> = Vec::new();
    let mut i: usize = 0;
    while i < config.source_sets.len()
        invariant
            i <= config.source_sets@.len(),
            r@.len() == i,
            forall|k: int| 0 <= k < i ==> (#[trigger] r@[k])@ == resolved_source_set_path(config.base_path@, config.source_sets@[k].path@),
        decreases config.source_sets@.len() - i,
    {
        r.push(resolve_source_set_path(config, &config.source_sets[i]));
        i = i + 1;
    }
    r
}


/// No two source-sets share a name.
pub open spec fn source_set_names_distinct(sets: Seq<crate::config::model::SourceSetConfig>) -> bool {
    forall|i: int, j: int| 0 <= i < j < sets.len() ==> (#[trigger] sets[i]).name@ != (#[trigger] sets[j]).name@
}

proof fn lemma_no_first_problem(config: AppConfig, facts: ValidationFacts, from: int, k: int)
    requires
        0 <= from <= k < config.source_sets@.len(),
        first_source_set_problem(config, facts, from) is None,
    ensures
        source_set_problem(config, facts, k) is None,
    decreases k - from,
{
    if from < k {
        if source_set_problem(config, facts, from) is None {
            lemma_no_first_problem(config, facts, from + 1, k);
        }
    }
}

proof fn lemma_first_problem_found(config: AppConfig, facts: ValidationFacts, from: int)
    requires
        0 <= from,
        first_source_set_problem(config, facts, from) is Some,
    ensures
        exists|k: int| from <= k < config.source_sets@.len()
            && #[trigger] source_set_problem(config, facts, k) == first_source_set_problem(config, facts, from),
    decreases config.source_sets@.len() - from,
{
    if source_set_problem(config, facts, from) is None {
        lemma_first_problem_found(config, facts, from + 1);
        let k = choose|k: int| from + 1 <= k < config.source_sets@.len()
            && #[trigger] source_set_problem(config, facts, k) == first_source_set_problem(config, facts, from + 1);
        assert(source_set_problem(config, facts, k) == first_source_set_problem(config, facts, from));
    } else {
        assert(source_set_problem(config, facts, from) == first_source_set_problem(config, facts, from));
    }
}

/// Source-set names are unique: a configuration that validates has no two
/// source-sets of the same name, a duplicate-name error names a source-set
/// whose name an earlier one already has, and when the only problem is a
/// repeated name, validation reports that name.
pub proof fn lemma_validation_rejects_duplicate_names(config: AppConfig, facts: ValidationFacts)
    ensures
        validation_outcome(config, facts) is None ==> source_set_names_distinct(config.source_sets@),
        validation_outcome(config, facts) matches Some(ConfigErrorView::DuplicateSourceSetName(n)) ==>
            exists|i: int, j: int| 0 <= i < j < config.source_sets@.len()
                && (#[trigger] config.source_sets@[i]).name@ == n && (#[trigger] config.source_sets@[j]).name@ == n,
        !source_set_names_distinct(config.source_sets@) ==> validation_outcome(config, facts) is Some,
{
    let sets = config.source_sets@;
    if !source_set_names_distinct(sets) {
        let (i, j) = choose|i: int, j: int| 0 <= i < j < sets.len() && (#[trigger] sets[i]).name@ == (#[trigger] sets[j]).name@;
        if validation_outcome(config, facts) is None {
            assert(first_source_set_problem(config, facts, 0) is None);
            lemma_no_first_problem(config, facts, 0, j);
            assert(sets[i].name@ == sets[j].name@);
            assert(source_set_problem(config, facts, j) is Some);
            assert(false);
        }
    }
    if let Some(ConfigErrorView::DuplicateSourceSetName(n)) = validation_outcome(config, facts) {
        assert(first_source_set_problem(config, facts, 0) == validation_outcome(config, facts));
        lemma_first_problem_found(config, facts, 0);
        let k = choose|k: int| 0 <= k < sets.len()
            && #[trigger] source_set_problem(config, facts, k) == first_source_set_problem(config, facts, 0);
        let i = choose|i: int| 0 <= i < k && (#[trigger] sets[i]).name@ == sets[k].name@;
        assert(sets[k].name@ == n);
        assert(sets[i].name@ == n);
    }
}

/// With the paths and connection in order and every name well formed, the
/// first repeated name is what validation reports: if source-set `j` repeats
/// the name of an earlier one and every source-set before `j` passed its
/// checks, the outcome is that name.
pub proof fn lemma_first_repeated_name_is_reported(config: AppConfig, facts: ValidationFacts, i: int, j: int)
    requires
        facts.base_path_is_dir,
        facts.work_path_error is None,
        has_configuration_source_set(config),
        0 <= i < j < config.source_sets@.len(),
        config.source_sets@[i].name@ == config.source_sets@[j].name@,
        valid_source_set_name(config.source_sets@[j].name@),
        forall|k: int| 0 <= k < j ==> #[trigger] source_set_problem(config, facts, k) is None,
    ensures
        validation_outcome(config, facts) == Some(ConfigErrorView::DuplicateSourceSetName(config.source_sets@[j].name@)),
{
    lemma_first_problem_prefix(config, facts, 0, j);
    assert(config.source_sets@[i].name@ == config.source_sets@[j].name@);
}

proof fn lemma_first_problem_prefix(config: AppConfig, facts: ValidationFacts, from: int, j: int)
    requires
        0 <= from <= j < config.source_sets@.len(),
        forall|k: int| 0 <= k < j ==> #[trigger] source_set_problem(config, facts, k) is None,
    ensures
        first_source_set_problem(config, facts, from) == first_source_set_problem(config, facts, j),
    decreases j - from,
{
    if from < j {
        assert(source_set_problem(config, facts, from) is None);
        lemma_first_problem_prefix(config, facts, from + 1, j);
    }
}

} // verus!
