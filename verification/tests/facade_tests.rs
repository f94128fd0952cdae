use cargo_pack::{CargoPack, Member, PackError, ValueTree, Workspace};

fn member(name: &str, text: &str) -> Member {
    Member {
        name: name.to_string(),
        manifest_path: format!("{}/Cargo.toml", name),
        manifest_text: text.to_string(),
    }
}

fn single(text: &str) -> Workspace {
    Workspace { members: vec![member("demo", text)], current: Some(0) }
}

const WITH_FILES: &str = "\
[package]
name = \"demo\"

[package.metadata.pack]
files = [\"README.md\", \"LICENSE\"]
";

const WITHOUT_BLOCK: &str = "\
[package]
name = \"demo\"
version = \"0.1.0\"
";

const WITH_BOTH: &str = "\
[package]
name = \"demo\"

[package.metadata.pack]
default-packers = [\"docker\"]
files = [\"README.md\"]
other = 1.5
when = 2020-01-01
";

#[test]
fn files_listed_without_default_packers_decode() {
    let pack = CargoPack::new(single(WITH_FILES), None).unwrap();
    assert_eq!(
        pack.config().files,
        Some(vec!["README.md".to_string(), "LICENSE".to_string()])
    );
    assert_eq!(pack.config().default_packers, None);
    assert_eq!(
        pack.files(),
        vec!["README.md".to_string(), "LICENSE".to_string()]
    );
}

#[test]
fn missing_block_constructs_with_everything_unspecified() {
    let pack = CargoPack::new(single(WITHOUT_BLOCK), None).unwrap();
    assert_eq!(pack.config().files, None);
    assert_eq!(pack.config().default_packers, None);
    assert_eq!(pack.files(), Vec::<String>::new());
}

#[test]
fn both_fields_decode_and_unrecognized_keys_are_ignored() {
    let pack = CargoPack::new(single(WITH_BOTH), None).unwrap();
    assert_eq!(pack.config().files, Some(vec!["README.md".to_string()]));
    assert_eq!(pack.config().default_packers, Some(vec!["docker".to_string()]));
}

#[test]
fn generic_decode_is_idempotent() {
    let pack = CargoPack::new(single(WITH_BOTH), None).unwrap();
    let first = pack.decode_from_manifest();
    let second = pack.decode_from_manifest();
    assert!(first.is_ok());
    assert_eq!(first, second);
}

#[test]
fn generic_decode_reports_a_missing_block() {
    let pack = CargoPack::new(single(WITHOUT_BLOCK), None).unwrap();
    assert_eq!(pack.decode_from_manifest(), Err(PackError::MetadataNotFound));
}

#[test]
fn generic_decode_returns_the_block_subtree() {
    let pack = CargoPack::new(single(WITH_FILES), None).unwrap();
    let v = pack.decode_from_manifest().unwrap();
    match v {
        ValueTree::Table(entries) => {
            assert_eq!(entries.len(), 1);
            assert_eq!(entries[0].0, "files");
        }
        other => panic!("expected a table, got {:?}", other),
    }
}

#[test]
fn malformed_manifest_fails_with_the_parser_message() {
    let r = CargoPack::new(single("not == toml"), None);
    assert!(matches!(r, Err(PackError::ManifestParse(_))));
}

#[test]
fn scalar_files_field_is_a_shape_error() {
    let text = "[package.metadata.pack]\nfiles = \"README.md\"\n";
    let r = CargoPack::new(single(text), None);
    assert_eq!(r.err(), Some(PackError::DecodeShape));
}

#[test]
fn non_string_file_entry_is_a_shape_error() {
    let text = "[package.metadata.pack]\nfiles = [1, 2]\n";
    let r = CargoPack::new(single(text), None);
    assert_eq!(r.err(), Some(PackError::DecodeShape));
}

#[test]
fn construction_resolves_a_named_package() {
    let ws = Workspace {
        members: vec![member("a", WITHOUT_BLOCK), member("b", WITH_FILES)],
        current: Some(0),
    };
    let pack = CargoPack::new(ws, Some("b".to_string())).unwrap();
    assert_eq!(pack.config().files, Some(vec!["README.md".to_string(), "LICENSE".to_string()]));
    let resolved = pack.package().unwrap();
    assert_eq!(resolved.name, "b");
}

#[test]
fn construction_fails_on_an_unknown_package() {
    let r = CargoPack::new(single(WITH_FILES), Some("nope".to_string()));
    assert_eq!(r.err(), Some(PackError::UnknownPackage("nope".to_string())));
}

#[test]
fn construction_fails_on_an_ambiguous_package() {
    let ws = Workspace {
        members: vec![member("dup", WITH_FILES), member("dup", WITHOUT_BLOCK)],
        current: Some(0),
    };
    let r = CargoPack::new(ws, Some("dup".to_string()));
    assert_eq!(r.err(), Some(PackError::AmbiguousPackage("dup".to_string())));
}

#[test]
fn named_package_needs_no_default_member() {
    let ws = Workspace {
        members: vec![member("a", WITH_FILES), member("b", WITHOUT_BLOCK)],
        current: None,
    };
    let pack = CargoPack::new(ws, Some("a".to_string())).unwrap();
    assert_eq!(pack.files(), vec!["README.md".to_string(), "LICENSE".to_string()]);
}

#[test]
fn construction_fails_without_a_default_member() {
    let ws = Workspace { members: vec![member("a", WITH_FILES)], current: None };
    let r = CargoPack::new(ws, None);
    assert_eq!(r.err(), Some(PackError::NoCurrentPackage));
}

#[test]
fn accessors_return_the_stored_state() {
    let pack = CargoPack::new(single(WITH_FILES), None).unwrap();
    assert_eq!(pack.ws().members.len(), 1);
    assert_eq!(pack.ws().members[0].name, "demo");
    assert_eq!(pack.package().unwrap().name, "demo");
}
