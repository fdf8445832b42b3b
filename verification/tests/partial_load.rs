use v8_runner::change_detection::analyzer::{ChangeKind, FileChange};
use v8_runner::change_detection::partial_load::{
    decide, list_file_contents, object_dir, paths_to_probe, relative_paths, ListFileError, LoadDecision,
    DEFAULT_PARTIAL_LOAD_THRESHOLD,
};
use v8_runner::probe::PathFacts;

/// Facts of a disk where every listed path exists as itself, and nothing else does.
fn disk(existing: &[&str]) -> Vec<PathFacts> {
    existing
        .iter()
        .map(|p| PathFacts { path: (*p).to_owned(), exists: true, canonical: Some((*p).to_owned()) })
        .collect()
}

fn decide_on_disk(changes: &[FileChange], root: &str, threshold: usize, facts: &[PathFacts]) -> LoadDecision {
    let probed = paths_to_probe(changes, root);
    assert_eq!(probed[0], root);
    decide(changes, root, threshold, &facts.to_vec())
}

fn modified(path: &str) -> FileChange {
    FileChange { path: path.to_owned(), kind: ChangeKind::Modified, new_hash: Some("hash".to_owned()) }
}

#[test]
fn object_dir_uses_parent_for_top_level_modules() {
    let bsl = "/tmp/src/Catalogs.Items/ObjectModule.bsl";

    assert_eq!(object_dir(bsl, "/tmp/src"), Some("/tmp/src/Catalogs.Items".to_owned()));
}

#[test]
fn object_dir_uses_owning_object_for_nested_modules() {
    let bsl = "/tmp/src/Catalogs.Items/Forms/Form1/Module.bsl";

    assert_eq!(object_dir(bsl, "/tmp/src"), Some("/tmp/src/Catalogs.Items".to_owned()));
}

#[test]
fn object_dir_of_a_module_outside_the_root_is_its_parent() {
    assert_eq!(
        object_dir("/elsewhere/Catalogs.Items/Forms/Form1/Module.bsl", "/tmp/src"),
        Some("/elsewhere/Catalogs.Items/Forms/Form1".to_owned())
    );
}

#[test]
fn write_list_file_skips_empty_relative_paths() {
    let root = "/tmp/t1";
    let paths = vec![root.to_owned()];
    let facts = disk(&[root]);

    let rels = relative_paths(&paths, root, &facts).expect("relative paths");

    assert_eq!(list_file_contents(&rels), "");
}

#[test]
fn relative_paths_returns_relative_entries_for_safe_paths() {
    let root = "/tmp/t2";
    let file = "/tmp/t2/Catalogs.Items/ObjectModule.bsl";
    let facts = disk(&[root, file]);

    let rels = relative_paths(&[file.to_owned()], root, &facts).expect("relative paths");

    assert_eq!(rels, vec!["Catalogs.Items/ObjectModule.bsl".to_owned()]);
}

#[test]
fn relative_paths_rejects_path_outside_root() {
    let root = "/tmp/t3/src";
    let through_link = "/tmp/t3/src/Catalogs.Items/ObjectModule.bsl";
    let mut facts = disk(&[root]);
    facts.push(PathFacts {
        path: through_link.to_owned(),
        exists: true,
        canonical: Some("/tmp/t3/outside/ObjectModule.bsl".to_owned()),
    });

    let err = relative_paths(&[through_link.to_owned()], root, &facts).expect_err("expected error");

    assert!(matches!(err, ListFileError::InvalidInput(_)));
}

#[test]
fn relative_paths_reports_a_missing_root() {
    let paths = vec!["/nonexistent-root-for-test/a.bsl".to_owned()];
    let facts = vec![PathFacts { path: "/nonexistent-root-for-test".to_owned(), exists: false, canonical: None }];

    let err = relative_paths(&paths, "/nonexistent-root-for-test", &facts).expect_err("missing root");

    assert!(matches!(err, ListFileError::NotFound(_)));
}

#[test]
fn list_file_joins_entries_with_crlf() {
    let rels = vec!["A/B.bsl".to_owned(), "A".to_owned()];

    assert_eq!(list_file_contents(&rels), "A/B.bsl\r\nA");
}

#[test]
fn decide_expands_bsl_to_xml_and_object_dir() {
    let root = "/tmp/t4";
    let object_dir = "/tmp/t4/Catalogs.Items";
    let module = "/tmp/t4/Catalogs.Items/ObjectModule.bsl";
    let xml = "/tmp/t4/Catalogs.Items/ObjectModule.xml";
    let facts = disk(&[root, object_dir, module, xml]);

    let decision = decide_on_disk(&[modified(module)], root, DEFAULT_PARTIAL_LOAD_THRESHOLD, &facts);

    assert_eq!(decision, LoadDecision::Partial(vec![object_dir.to_owned(), module.to_owned(), xml.to_owned()]));
}

#[test]
fn decide_skips_a_missing_descriptor() {
    let root = "/tmp/t5";
    let module = "/tmp/t5/CommonModules/Tools/Ext/Module.bsl";
    let facts = disk(&[root, module, "/tmp/t5/CommonModules"]);

    let decision = decide_on_disk(&[modified(module)], root, DEFAULT_PARTIAL_LOAD_THRESHOLD, &facts);

    assert_eq!(decision, LoadDecision::Partial(vec!["/tmp/t5/CommonModules".to_owned(), module.to_owned()]));
}

#[test]
fn decide_forces_full_when_configuration_xml_changed() {
    let root = "/tmp/t6";
    let config_xml = "/tmp/t6/Configuration.xml";
    let facts = disk(&[root, config_xml]);

    let decision = decide_on_disk(&[modified(config_xml)], root, DEFAULT_PARTIAL_LOAD_THRESHOLD, &facts);

    assert_eq!(decision, LoadDecision::Full);
}

#[test]
fn decide_forces_full_when_deleted_files_exist() {
    let root = "/tmp/t7";
    let removed = "/tmp/t7/Catalogs.Items/ObjectModule.bsl";
    let facts = disk(&[root]);

    let decision = decide_on_disk(
        &[FileChange { path: removed.to_owned(), kind: ChangeKind::Deleted, new_hash: None }],
        root,
        DEFAULT_PARTIAL_LOAD_THRESHOLD,
        &facts,
    );

    assert_eq!(decision, LoadDecision::Full);
}

#[test]
fn decide_forces_full_when_threshold_is_exceeded() {
    let root = "/tmp/t8";
    let mut existing = vec![root.to_owned(), "/tmp/t8/CommonModules".to_owned()];
    let mut changes = Vec::new();

    for index in 0..=DEFAULT_PARTIAL_LOAD_THRESHOLD {
        let path = format!("/tmp/t8/CommonModules/Module{index}.bsl");
        existing.push(path.clone());
        changes.push(FileChange { path, kind: ChangeKind::Modified, new_hash: Some(format!("hash-{index}")) });
    }
    let refs: Vec<&str> = existing.iter().map(|s| s.as_str()).collect();

    let decision = decide_on_disk(&changes, root, DEFAULT_PARTIAL_LOAD_THRESHOLD, &disk(&refs));
    assert_eq!(decision, LoadDecision::Full);
}

#[test]
fn decide_forces_full_for_a_zero_threshold() {
    let root = "/tmp/t9";
    let module = "/tmp/t9/CommonModules/Module.bsl";

    assert_eq!(decide_on_disk(&[modified(module)], root, 0, &disk(&[root, module])), LoadDecision::Full);
}

#[test]
fn traversal_or_symlink_escape_forces_full() {
    let root = "/tmp/t10/src";
    let through_link = "/tmp/t10/src/Catalogs.Items/ObjectModule.bsl";
    let mut facts = disk(&[root]);
    facts.push(PathFacts {
        path: through_link.to_owned(),
        exists: true,
        canonical: Some("/tmp/t10/outside/ObjectModule.bsl".to_owned()),
    });

    let decision = decide_on_disk(&[modified(through_link)], root, DEFAULT_PARTIAL_LOAD_THRESHOLD, &facts);

    assert_eq!(decision, LoadDecision::Full);
}

#[test]
fn a_canonical_form_counts_only_for_an_existing_path() {
    let facts = vec![
        PathFacts { path: "/gone".to_owned(), exists: false, canonical: Some("/gone".to_owned()) },
        PathFacts { path: "/here".to_owned(), exists: true, canonical: Some("/real/here".to_owned()) },
    ];
    assert_eq!(v8_runner::probe::canonical_in(&facts, "/gone"), None);
    assert_eq!(v8_runner::probe::canonical_in(&facts, "/here").as_deref(), Some("/real/here"));
    assert!(!v8_runner::probe::exists_in(&facts, "/gone"));
}
