use std::path::PathBuf;

use warp_extension::host::discovery::{
    DiscoveredExtension, ExtensionRecord, ValidationError, discovery_order, record_for, settle_ids, vet,
};
use warp_extension::protocol::manifest::{
    ExecutionPolicy, ExtensionManifest, ManifestError, ManifestPermissions,
};

fn manifest(id: &str) -> ExtensionManifest {
    ExtensionManifest {
        id: id.to_owned(),
        name: "Example".to_owned(),
        version: "0.1.0".to_owned(),
        api_version: 1,
        command: "./run".to_owned(),
        activation: None,
        permissions: ManifestPermissions::default(),
        execution: ExecutionPolicy::default(),
        commands: Vec::new(),
        panels: Vec::new(),
    }
}

fn valid(directory: &str, id: &str) -> DiscoveredExtension {
    DiscoveredExtension {
        directory: PathBuf::from(directory),
        record: record_for(manifest(id), PathBuf::from(directory).join("run"), true),
    }
}

#[test]
fn a_duplicate_id_keeps_the_first_directory_and_invalidates_the_rest() {
    let found = vec![valid("/ext/a", "dev.one"), valid("/ext/b", "dev.one"), valid("/ext/c", "dev.two")];
    let names = vec!["a".to_owned(), "b".to_owned(), "c".to_owned()];
    let settled = settle_ids(found, &names);

    assert_eq!(settled.len(), 3);
    assert_eq!(settled[0].id(), Some("dev.one"));
    assert_eq!(settled[2].id(), Some("dev.two"));
    match &settled[1].record {
        ExtensionRecord::Invalid { reason } => {
            assert_eq!(reason, &ValidationError::DuplicateId { id: "dev.one".to_owned(), first: "a".to_owned() });
            assert_eq!(reason.message(), "extension id `dev.one` is already provided by `a`");
        }
        ExtensionRecord::Valid { .. } => panic!("the second claimant must be invalid"),
    }
    assert_eq!(settled[1].directory, PathBuf::from("/ext/b"));
}

#[test]
fn an_invalid_record_claims_no_id() {
    let broken = DiscoveredExtension {
        directory: PathBuf::from("/ext/a"),
        record: ExtensionRecord::Invalid { reason: ValidationError::Unreadable("permission denied".to_owned()) },
    };
    let settled = settle_ids(vec![broken, valid("/ext/b", "dev.one")], &vec!["a".to_owned(), "b".to_owned()]);
    assert_eq!(settled[0].id(), None);
    assert_eq!(settled[1].id(), Some("dev.one"));
}

#[test]
fn a_missing_executable_is_invalid() {
    let record = record_for(manifest("dev.one"), PathBuf::from("/ext/a/run"), false);
    match record {
        ExtensionRecord::Invalid { reason } => {
            assert_eq!(reason, ValidationError::MissingExecutable("./run".to_owned()));
            assert_eq!(reason.message(), "declared command `./run` does not exist in the extension directory");
        }
        ExtensionRecord::Valid { .. } => panic!("a missing executable cannot be valid"),
    }
}

#[test]
fn vetting_validates_what_parsed_and_passes_parse_failures_through() {
    assert!(vet(Ok(manifest("dev.one"))).is_ok());
    let mut bad = manifest("dev.one");
    bad.api_version = 99;
    assert_eq!(
        vet(Ok(bad)).err(),
        Some(ValidationError::Manifest(ManifestError::UnsupportedApiVersion { requested: 99, supported: 1 }))
    );
    let malformed = ManifestError::Malformed("expected `=`".to_owned());
    assert_eq!(vet(Err(malformed.clone())).err(), Some(ValidationError::Manifest(malformed)));
    assert_eq!(
        ValidationError::Unreadable("gone".to_owned()).message(),
        "could not read extension.toml: gone"
    );
}

#[test]
fn candidates_are_looked_at_in_name_order() {
    let names: Vec<String> = ["zebra", "alpha", "mango", "alpha2", "Zed"].iter().map(|s| s.to_string()).collect();
    let order = discovery_order(&names);
    let sorted: Vec<&str> = order.iter().map(|index| names[*index].as_str()).collect();
    assert_eq!(sorted, ["Zed", "alpha", "alpha2", "mango", "zebra"]);
    assert!(discovery_order(&Vec::new()).is_empty());
}

#[test]
fn the_order_does_not_depend_on_the_listing() {
    let first: Vec<String> = ["b-second", "a-first", "c-third"].iter().map(|s| s.to_string()).collect();
    let second: Vec<String> = ["c-third", "b-second", "a-first"].iter().map(|s| s.to_string()).collect();
    let listed = |names: &Vec<String>| -> Vec<String> {
        discovery_order(names).iter().map(|index| names[*index].clone()).collect()
    };
    assert_eq!(listed(&first), listed(&second));
    assert_eq!(listed(&first), ["a-first", "b-second", "c-third"]);
}
