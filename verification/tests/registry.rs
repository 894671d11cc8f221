use dsh_installer::registry::accept_clauses;
use dsh_installer::registry::{
    RegistryEngines, RegistryMetadata, RegistryPackument, check_confirmed_release,
    configured_dsh_dist_tags, dsh_registry_url, node_satisfies,
    registry_metadata_for_version, select_compatible_registry_metadata,
    select_registry_candidates, select_registry_metadata,
};

fn registry_metadata(version: &str) -> RegistryMetadata {
    RegistryMetadata {
        name: "@deepseek-ai/dsh".to_owned(),
        version: version.to_owned(),
        engines: None,
    }
}

fn registry_packument(latest: Option<&str>, next: Option<&str>) -> RegistryPackument {
    let mut dist_tags = Vec::new();
    let mut versions: Vec<(String, RegistryMetadata)> = Vec::new();
    for (tag, version) in [("latest", latest), ("next", next)] {
        if let Some(version) = version {
            dist_tags.push((tag.to_owned(), version.to_owned()));
            if !versions.iter().any(|(key, _)| key == version) {
                versions.push((version.to_owned(), registry_metadata(version)));
            }
        }
    }
    RegistryPackument {
        name: "@deepseek-ai/dsh".to_owned(),
        dist_tags,
        versions,
    }
}

fn update_tags() -> Vec<String> {
    vec!["latest".to_owned(), "next".to_owned()]
}

#[test]
fn dsh_update_feed_uses_the_package_packument() {
    assert_eq!(
        dsh_registry_url(),
        "https://registry.npmjs.org/@deepseek-ai%2Fdsh"
    );
    assert_eq!(configured_dsh_dist_tags().unwrap(), update_tags());
}

#[test]
fn dsh_update_selects_the_highest_configured_release() {
    let prerelease = select_registry_metadata(
        &registry_packument(Some("0.1.0-rc.7"), Some("0.1.0-rc.9")),
        &update_tags(),
    )
    .unwrap();
    assert_eq!(prerelease.version, "0.1.0-rc.9");

    let stable = select_registry_metadata(
        &registry_packument(Some("0.1.0"), Some("0.1.0-rc.9")),
        &update_tags(),
    )
    .unwrap();
    assert_eq!(stable.version, "0.1.0");

    let next_minor = select_registry_metadata(
        &registry_packument(Some("0.1.0"), Some("0.2.0-rc.1")),
        &update_tags(),
    )
    .unwrap();
    assert_eq!(next_minor.version, "0.2.0-rc.1");
}

#[test]
fn dsh_update_accepts_one_tag_but_rejects_no_candidates() {
    let metadata =
        select_registry_metadata(&registry_packument(Some("0.1.0"), None), &update_tags())
            .unwrap();
    assert_eq!(metadata.version, "0.1.0");

    let error = select_registry_metadata(&registry_packument(None, None), &update_tags())
        .err()
        .unwrap();
    assert!(error.contains("no configured DSH releases"));
}

#[test]
fn candidates_come_highest_first_and_once() {
    let candidates = select_registry_candidates(
        &registry_packument(Some("0.1.0"), Some("0.2.0-rc.1")),
        &update_tags(),
    )
    .unwrap();
    let versions: Vec<&str> = candidates.iter().map(|m| m.version.as_str()).collect();
    assert_eq!(versions, vec!["0.2.0-rc.1", "0.1.0"]);

    let same = select_registry_candidates(
        &registry_packument(Some("0.1.0"), Some("0.1.0")),
        &update_tags(),
    )
    .unwrap();
    assert_eq!(same.len(), 1);
}

#[test]
fn inconsistent_documents_are_rejected() {
    let mut other = registry_packument(Some("0.1.0"), None);
    other.name = "left-pad".to_owned();
    assert_eq!(
        select_registry_candidates(&other, &update_tags()).err(),
        Some("The npm registry returned an unexpected package.".to_owned())
    );

    let mut missing = registry_packument(Some("0.1.0"), None);
    missing.versions.clear();
    assert_eq!(
        select_registry_candidates(&missing, &update_tags()).err(),
        Some("The npm registry tag latest points to missing DSH metadata.".to_owned())
    );

    let mut mismatched = registry_packument(Some("0.1.0"), None);
    mismatched.versions[0].1.version = "0.1.1".to_owned();
    assert_eq!(
        select_registry_candidates(&mismatched, &update_tags()).err(),
        Some("The npm registry returned inconsistent DSH metadata for tag latest.".to_owned())
    );

    let invalid = registry_packument(Some("latest-build"), None);
    let error = select_registry_candidates(&invalid, &update_tags()).err().unwrap();
    assert!(error.starts_with("The npm registry tag latest has an invalid DSH version: "));
}

#[test]
fn confirmed_releases_are_looked_up_by_version() {
    let packument = registry_packument(Some("0.1.0"), Some("0.2.0-rc.1"));
    assert_eq!(
        registry_metadata_for_version(&packument, "0.2.0-rc.1").unwrap().version,
        "0.2.0-rc.1"
    );
    assert_eq!(
        registry_metadata_for_version(&packument, "0.3.0").err(),
        Some("The confirmed DSH release is no longer available.".to_owned())
    );
}

#[test]
fn node_requirements_are_matched_against_the_private_runtime() {
    assert_eq!(node_satisfies(">=20"), Ok(true));
    assert_eq!(node_satisfies(">=30"), Ok(false));
    assert_eq!(node_satisfies(">=30 || >=22.0.0 <25"), Ok(true));
    assert_eq!(node_satisfies("^18 || ^20"), Ok(false));
    assert!(node_satisfies("not a requirement")
        .err()
        .unwrap()
        .starts_with("The DSH Node.js requirement is invalid: "));
    assert_eq!(node_satisfies(">=20 || not a requirement"), Ok(true));
}

#[test]
fn the_highest_compatible_release_is_chosen() {
    let mut packument = registry_packument(Some("0.1.0"), Some("0.2.0-rc.1"));
    packument.versions[1].1.engines = Some(RegistryEngines { node: Some(">=99".to_owned()) });
    let chosen = select_compatible_registry_metadata(&packument).unwrap();
    assert_eq!(chosen.version, "0.1.0");
    assert_eq!(
        check_confirmed_release(&packument.versions[1].1),
        Err("This DSH release requires a newer private Node.js runtime.".to_owned())
    );
    assert!(check_confirmed_release(&packument.versions[0].1).is_ok());

    packument.versions[0].1.engines = Some(RegistryEngines { node: Some(">=99".to_owned()) });
    assert_eq!(
        select_compatible_registry_metadata(&packument).err(),
        Some("This DSH release requires a newer private Node.js runtime.".to_owned())
    );
}

#[test]
fn repeated_tags_or_versions_are_not_well_formed() {
    let packument = registry_packument(Some("0.1.0"), Some("0.2.0-rc.1"));
    assert!(packument.is_well_formed());
    let mut repeated_tag = registry_packument(Some("0.1.0"), None);
    repeated_tag.dist_tags.push(("latest".to_owned(), "0.1.0".to_owned()));
    assert!(!repeated_tag.is_well_formed());
    let mut repeated_version = registry_packument(Some("0.1.0"), None);
    repeated_version
        .versions
        .push(("0.1.0".to_owned(), registry_metadata("0.1.0")));
    assert!(!repeated_version.is_well_formed());
}

#[test]
fn requirement_clauses_are_combined_in_order() {
    assert_eq!(accept_clauses(&vec![]), Ok(false));
    assert_eq!(accept_clauses(&vec![Ok(false), Ok(true)]), Ok(true));
    assert_eq!(accept_clauses(&vec![Ok(false), Ok(false)]), Ok(false));
    assert_eq!(
        accept_clauses(&vec![Err("bad".to_owned()), Ok(true)]),
        Err("The DSH Node.js requirement is invalid: bad".to_owned())
    );
    assert_eq!(accept_clauses(&vec![Ok(true), Err("bad".to_owned())]), Ok(true));
}
