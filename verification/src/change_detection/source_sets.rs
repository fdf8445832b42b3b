//! The scan contexts of a project's source-sets.

use vstd::prelude::*;
use crate::config::model::{AppConfig, SourceFormat, resolve_source_set_path, resolved_source_set_path};
use crate::domain::source_set::SourceSetContext;
use crate::path::{join, join_seq};

verus! {

/// Builds the scan contexts of a project's source-sets.
///
/// - Designer format: one context per source-set, rooted at its resolved path.
/// - EDT format: the EDT sources themselves, and a generated Designer copy
///   under `workPath/<name>/`.
pub struct SourceSetsService<'a> {
    config: &'a AppConfig,
}

/// The context a source-set gets, keyed `prefix` + its name.
pub open spec fn context_is(c: SourceSetContext, name: Seq<char>, path: Seq<char>, prefix: Seq<char>) -> bool {
    c.name@ == name && c.path@ == path && c.storage_key@ == prefix + name
}

impl<'a> SourceSetsService<'a> {
    pub closed spec fn spec_config(&self) -> &'a AppConfig {
        self.config
    }

    pub fn new(config: &'a AppConfig) -> (s: Self)
        ensures
            s.spec_config() == config,
    {
        SourceSetsService { config }
    }

    /// The Designer-format contexts to scan and build: each source-set at its
    /// resolved path for a Designer project, or its generated copy under the
    /// work path for an EDT project.
    pub fn designer_contexts(&self) -> (r: Vec<SourceSetContext>)
        ensures
            r.len() == self.spec_config().source_sets.len(),
            forall|i: int| 0 <= i < r.len() ==> {
                let ss = self.spec_config().source_sets@[i];
                context_is(#[trigger] r@[i], ss.name@,
                    if self.spec_config().format == SourceFormat::Designer {
                        resolved_source_set_path(self.spec_config().base_path@, ss.path@)
                    } else {
                        join_seq(self.spec_config().work_path@, ss.name@)
                    },
                    "designer-"@)
            },
    {
        let config = self.config;
        let mut r: Vec<SourceSetContext> = Vec::new();
        let mut i: usize = 0;
        while i < config.source_sets.len()
            invariant
                config == self.spec_config(),
                i <= config.source_sets.len(),
                r.len() == i,
                forall|k: int| 0 <= k < i ==> {
                    let ss = config.source_sets@[k];
                    context_is(#[trigger] r@[k], ss.name@,
                        if config.format == SourceFormat::Designer {
                            resolved_source_set_path(config.base_path@, ss.path@)
                        } else {
                            join_seq(config.work_path@, ss.name@)
                        },
                        "designer-"@)
                },
            decreases config.source_sets.len() - i,
        {
            let ss = &config.source_sets[i];
            let path = match config.format {
                SourceFormat::Designer => resolve_source_set_path(config, ss),
                SourceFormat::Edt => join(config.work_path.as_str(), ss.name.as_str()),
            };
            let key = String::from_str("designer-").concat(ss.name.as_str());
            r.push(SourceSetContext::new(ss.name.as_str(), path, key));
            i = i + 1;
        }
        r
    }

    /// The EDT source contexts; none for a Designer project.
    pub fn edt_contexts(&self) -> (r: Vec<SourceSetContext>)
        ensures
            self.spec_config().format != SourceFormat::Edt ==> r.len() == 0,
            self.spec_config().format == SourceFormat::Edt ==> r.len() == self.spec_config().source_sets.len(),
            self.spec_config().format == SourceFormat::Edt ==> forall|i: int| 0 <= i < r.len() ==> {
                let ss = self.spec_config().source_sets@[i];
                context_is(#[trigger] r@[i], ss.name@, resolved_source_set_path(self.spec_config().base_path@, ss.path@), "edt-"@)
            },
    {
        let config = self.config;
        let mut r: Vec<SourceSetContext> = Vec::new();
        if config.format != SourceFormat::Edt {
            return r;
        }
        let mut i: usize = 0;
        while i < config.source_sets.len()
            invariant
                config == self.spec_config(),
                i <= config.source_sets.len(),
                r.len() == i,
                forall|k: int| 0 <= k < i ==> {
                    let ss = config.source_sets@[k];
                    context_is(#[trigger] r@[k], ss.name@, resolved_source_set_path(config.base_path@, ss.path@), "edt-"@)
                },
            decreases config.source_sets.len() - i,
        {
            let ss = &config.source_sets[i];
            let path = resolve_source_set_path(config, ss);
            let key = String::from_str("edt-").concat(ss.name.as_str());
            r.push(SourceSetContext::new(ss.name.as_str(), path, key));
            i = i + 1;
        }
        r
    }

    /// The directory of the hash storages.
    pub fn storage_dir(&self) -> (r: String)
        ensures
            r@ == join_seq(self.spec_config().work_path@, "hash-storages"@),
    {
        join(self.config.work_path.as_str(), "hash-storages")
    }
}

} // verus!
