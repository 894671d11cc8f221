use dsh_installer::runtime::{install_manifest_text, is_staged_update_entry, verify_node_archive};
use dsh_installer::runtime::{
    check_installed_package, command_failure_message, download_percent, is_blank,
    node_archive_entry_path, timed_out_message,
};
use dsh_installer::model::{DSH_VERSION, NODE_VERSION};
use dsh_installer::paths::{AppPaths, safe_archive_path};
use dsh_installer::runtime::{
    PackageBin, PackageManifest, RuntimePointer, candidate_layout, check_archive_digest,
    check_dsh_version_output, check_node_version_output,
    install_staging_paths, is_setup_staging_name, manifest_binary, node_archive_root,
    node_archive_url, node_version_matches, pointer_target, recovery_failure_message,
    runtime_pointer, setup_failure_message_key, staged_update_directory,
};

/// `base` joined with `child` as the standard library joins paths.
fn path_below(base: &str, child: &str) -> String {
    std::path::Path::new(base).join(child).to_string_lossy().into_owned()
}

#[test]
fn archive_paths_stay_below_the_destination() {
    let root = "C:/safe";
    assert!(safe_archive_path(root, "node/node.exe").is_ok());
    assert!(safe_archive_path(root, "../outside.exe").is_err());
    // A drive path is absolute only where paths have drive prefixes; elsewhere
    // the host's absolute form stands for it.
    let absolute = if std::path::MAIN_SEPARATOR == '\\' {
        "C:/outside.exe"
    } else {
        "/outside.exe"
    };
    assert!(safe_archive_path(root, absolute).is_err());
}

#[test]
fn archive_paths_below_the_destination_are_joined() {
    let root = "/safe";
    assert_eq!(
        safe_archive_path(root, "node/node.exe"),
        Ok(path_below(root, "node/node.exe"))
    );
    assert_eq!(
        safe_archive_path(root, "../outside.exe"),
        Err("Archive entry escapes the destination directory.".to_owned())
    );
    assert_eq!(
        safe_archive_path(root, "/outside.exe"),
        Err("Archive entry uses an absolute path.".to_owned())
    );
}

#[test]
fn a_written_pointer_reads_back_to_its_version() {
    let paths = AppPaths::from_root("/app".to_owned());
    let pointer = runtime_pointer(DSH_VERSION);
    assert_eq!(pointer.format_version, 2);
    assert_eq!(pointer.relative_path, format!("dsh/{DSH_VERSION}"));
    assert_eq!(
        pointer_target(&paths, &pointer),
        Ok(path_below("/app", &format!("dsh/{DSH_VERSION}")))
    );
}

#[test]
fn old_pointer_format_is_rejected() {
    let paths = AppPaths::from_root("/app".to_owned());
    let pointer = RuntimePointer {
        format_version: 1,
        package: "@deepseek-ai/dsh".to_owned(),
        version: DSH_VERSION.to_owned(),
        relative_path: format!("dsh/{DSH_VERSION}"),
    };
    assert_eq!(
        pointer_target(&paths, &pointer),
        Err("The active runtime pointer is invalid.".to_owned())
    );
    let escaping = RuntimePointer {
        relative_path: "../elsewhere".to_owned(),
        format_version: 2,
        ..pointer
    };
    assert!(pointer_target(&paths, &escaping).is_err());
}

#[test]
fn staged_dsh_candidate_manifest_is_resolved() {
    let version = "0.1.0-rc.8";
    let paths = AppPaths::from_root("/app".to_owned());
    let stage = staged_update_directory(&paths, version);
    let layout = candidate_layout(&stage);
    let manifest = PackageManifest {
        name: "@deepseek-ai/dsh".to_owned(),
        version: version.to_owned(),
        bin: PackageBin::Single("bin/dsh.js".to_owned()),
    };
    let dsh = manifest_binary(&layout.package_root, &manifest, version).unwrap();
    assert_eq!(dsh, path_below(&layout.package_root, "bin/dsh.js"));
}

#[test]
fn manifests_must_match_their_pointer_and_declare_dsh() {
    let by_command = PackageManifest {
        name: "@deepseek-ai/dsh".to_owned(),
        version: "1.0.0".to_owned(),
        bin: PackageBin::ByCommand(vec![
            ("other".to_owned(), "bin/other.js".to_owned()),
            ("dsh".to_owned(), "bin/dsh.js".to_owned()),
        ]),
    };
    assert_eq!(
        manifest_binary("/pkg", &by_command, "1.0.0"),
        Ok(path_below("/pkg", "bin/dsh.js"))
    );
    assert_eq!(
        manifest_binary("/pkg", &by_command, "1.0.1").err(),
        Some("The active DSH package does not match its pointer.".to_owned())
    );
    let without_dsh = PackageManifest {
        bin: PackageBin::ByCommand(vec![("other".to_owned(), "bin/other.js".to_owned())]),
        ..by_command
    };
    assert_eq!(
        manifest_binary("/pkg", &without_dsh, "1.0.0").err(),
        Some("The DSH package has no dsh binary.".to_owned())
    );
}

#[test]
fn reported_versions_are_checked_after_trimming() {
    let line = format!("v{NODE_VERSION}\n");
    assert!(check_node_version_output(&line).is_ok());
    assert!(node_version_matches(&line));
    assert_eq!(
        check_node_version_output(" v1.0.0 "),
        Err(format!("Node.js reported v1.0.0 instead of v{NODE_VERSION}."))
    );
    assert!(check_dsh_version_output("0.1.0\r\n", "0.1.0").is_ok());
    assert_eq!(
        check_dsh_version_output("0.0.9", "0.1.0"),
        Err("DSH reported 0.0.9 instead of 0.1.0.".to_owned())
    );
}

#[test]
fn setup_failures_get_their_message_keys() {
    assert_eq!(setup_failure_message_key("Port 3080 is already in use."), "portInUse");
    assert_eq!(setup_failure_message_key("Harness startup timed out."), "startupTimedOut");
    assert_eq!(setup_failure_message_key("disk full"), "failed");
    assert_eq!(
        recovery_failure_message("a", "b"),
        "The current runtime is invalid (a); the previous runtime is also invalid (b)."
    );
}

#[test]
fn node_archive_names_and_digest() {
    assert_eq!(node_archive_root(), format!("node-v{NODE_VERSION}-win-x64"));
    assert_eq!(
        node_archive_url(),
        format!("https://nodejs.org/dist/v{NODE_VERSION}/node-v{NODE_VERSION}-win-x64.zip")
    );
    assert!(check_archive_digest(&[0xbe, 0xef, 0x01], "beef01").is_ok());
    assert!(check_archive_digest(&[0xbe, 0xef, 0x01], "beef").is_err());
    assert!(check_archive_digest(&[0xbe, 0xef], "beef").is_ok());
    assert_eq!(
        check_archive_digest(&[0xbe, 0xef], "BEEF"),
        Err("The downloaded Node.js archive failed SHA-256 verification.".to_owned())
    );
}

#[test]
fn staging_entries_of_a_first_setup() {
    let paths = AppPaths::from_root("/app".to_owned());
    let entries = install_staging_paths(&paths);
    assert_eq!(entries.len(), 3);
    assert_eq!(entries[1], path_below(&paths.staging, "node-extracted"));
    assert!(is_setup_staging_name("setup-0.1.0"));
    assert!(!is_setup_staging_name("update-0.1.0"));
}

#[test]
fn installed_packages_and_command_failures() {
    let manifest = |name: &str, version: &str| PackageManifest {
        name: name.to_owned(),
        version: version.to_owned(),
        bin: PackageBin::Single("bin/dsh.js".to_owned()),
    };
    assert_eq!(check_installed_package(&manifest("@deepseek-ai/dsh", "0.1.0"), "0.1.0"), Ok(()));
    let unexpected = Err("pnpm installed an unexpected DSH package version.".to_owned());
    assert_eq!(check_installed_package(&manifest("@deepseek-ai/dsh", "0.1.1"), "0.1.0"), unexpected);
    assert_eq!(check_installed_package(&manifest("dsh", "0.1.0"), "0.1.0"), unexpected);

    assert_eq!(
        command_failure_message("node", "exit code: 1", "out", "err"),
        "node exited with exit code: 1: err"
    );
    assert_eq!(
        command_failure_message("node", "exit code: 1", "out", ""),
        "node exited with exit code: 1: out"
    );
    assert_eq!(timed_out_message("pnpm"), "pnpm timed out.");
    assert!(is_blank("  \t "));
    assert!(!is_blank(" x "));

    let half = download_percent(50, 100);
    assert_eq!((half.numerator, half.denominator), (2700, 100));
    let done = download_percent(100, 100);
    assert_eq!(done.numerator / done.denominator as u128, 44);
    let start = download_percent(0, 7);
    assert_eq!(start.numerator / start.denominator as u128, 10);
}

#[test]
fn node_archive_entries_are_placed_below_the_destination() {
    let root = node_archive_root();
    let destination = "/staging/node-extracted";
    assert_eq!(node_archive_entry_path(destination, &format!("{root}/")), Ok(None));
    assert_eq!(
        node_archive_entry_path(destination, &format!("{root}/node.exe")),
        Ok(Some(path_below(destination, "node.exe")))
    );
    assert_eq!(
        node_archive_entry_path(destination, "node-v1.0.0-win-x64/node.exe"),
        Err("The Node archive has an unexpected root directory.".to_owned())
    );
    assert_eq!(
        node_archive_entry_path(destination, ""),
        Err("The Node archive contains an empty path.".to_owned())
    );
}

#[test]
fn only_the_staged_update_is_kept_in_staging() {
    let paths = AppPaths::from_root("/app".to_owned());
    let staged = staged_update_directory(&paths, "0.1.0");
    assert!(is_staged_update_entry(&paths, Some("0.1.0"), &staged));
    assert!(!is_staged_update_entry(&paths, Some("0.2.0"), &staged));
    assert!(!is_staged_update_entry(&paths, None, &staged));
    assert!(!is_staged_update_entry(&paths, Some("0.1.0"), &path_below(&paths.staging, "setup-0.1.0")));
}

#[test]
fn the_downloaded_archive_is_hashed_and_checked() {
    let abc = "ba7816bf8f01cfea414140de5dae2223b00361a396177a9cb410ff61f20015ad";
    assert_eq!(verify_node_archive(b"abc", abc), Ok(()));
    assert_eq!(
        verify_node_archive(b"abd", abc),
        Err("The downloaded Node.js archive failed SHA-256 verification.".to_owned())
    );
}

#[test]
fn install_manifests_are_written_as_pretty_json() {
    let mut dependencies = serde_json::Map::new();
    dependencies.insert(
        "@deepseek-ai/dsh".to_owned(),
        serde_json::Value::String("0.1.0-rc.9".to_owned()),
    );
    let mut manifest = serde_json::Map::new();
    manifest.insert("name".to_owned(), serde_json::Value::String("dsh-community-staged-runtime".to_owned()));
    manifest.insert("version".to_owned(), serde_json::Value::String("1.0.0".to_owned()));
    manifest.insert("private".to_owned(), serde_json::Value::Bool(true));
    manifest.insert(
        "packageManager".to_owned(),
        serde_json::Value::String(format!("pnpm@{}", dsh_installer::model::PNPM_VERSION)),
    );
    manifest.insert("dependencies".to_owned(), serde_json::Value::Object(dependencies));
    let expected = serde_json::to_string_pretty(&serde_json::Value::Object(manifest)).unwrap();
    assert_eq!(install_manifest_text(true, "0.1.0-rc.9"), expected);
    assert!(install_manifest_text(false, "1.0.0").contains("\"name\": \"dsh-community-runtime\""));
}
