use dsh_installer::lookup::{
    LookupAction, LookupEvent, LookupStage, Recovery, RuntimeLookup, after_current_lookup,
    after_previous_lookup, resolve_candidate, resolve_runtime,
};
use dsh_installer::model::DSH_VERSION;
use dsh_installer::paths::AppPaths;
use dsh_installer::runtime::{PackageBin, PackageManifest, RuntimePointer, runtime_pointer};

/// `base` joined with `child` as the standard library joins paths.
fn path_under(base: &str, child: &str) -> String {
    std::path::Path::new(base).join(child).to_string_lossy().into_owned()
}

fn manifest(version: &str) -> PackageManifest {
    PackageManifest {
        name: "@deepseek-ai/dsh".to_owned(),
        version: version.to_owned(),
        bin: PackageBin::Single("bin/dsh.js".to_owned()),
    }
}

fn expect_done(action: LookupAction) -> Result<dsh_installer::runtime::ResolvedRuntime, String> {
    match action {
        LookupAction::Done(result) => result,
        other => panic!("the lookup should have ended, not asked for {other:?}"),
    }
}

#[test]
fn candidate_is_not_current_until_activation() {
    let paths = AppPaths::from_root("/app".to_owned());
    let (mut lookup, action) = resolve_candidate(&paths, &paths.dsh_root, DSH_VERSION);
    let LookupAction::ReadManifest(manifest_path) = action else {
        panic!("a candidate is looked up through its manifest");
    };
    assert_eq!(manifest_path, paths.dsh_manifest());
    let LookupAction::CheckFiles { node, corepack, dsh } =
        lookup.step(LookupEvent::ManifestRead(Ok(manifest(DSH_VERSION))))
    else {
        panic!("a matching manifest leads to the file checks");
    };
    assert_eq!(node, paths.node_executable());
    assert_eq!(corepack, paths.corepack_cli());
    let package = path_under(&paths.runtime_directory(), "node_modules/@deepseek-ai/dsh");
    assert_eq!(dsh, path_under(&package, "bin/dsh.js"));
    let runtime = expect_done(lookup.step(LookupEvent::FilesChecked {
        node: true,
        corepack: true,
        dsh: true,
    }))
    .expect("candidate runtime");
    assert_eq!(runtime.version, DSH_VERSION);
    assert_eq!(runtime.runtime_directory, paths.runtime_directory());

    // Once activated, the current pointer leads to the same runtime.
    let (mut lookup, action) = resolve_runtime(&paths);
    let LookupAction::ReadPointer(pointer_path) = action else {
        panic!("the active runtime is looked up through its pointer");
    };
    assert_eq!(pointer_path, paths.current);
    let LookupAction::ReadManifest(manifest_path) =
        lookup.step(LookupEvent::PointerRead(Ok(runtime_pointer(DSH_VERSION))))
    else {
        panic!("a valid pointer leads to its manifest");
    };
    assert_eq!(manifest_path, paths.dsh_manifest());
    lookup.step(LookupEvent::ManifestRead(Ok(manifest(DSH_VERSION))));
    let current = expect_done(lookup.step(LookupEvent::FilesChecked {
        node: true,
        corepack: true,
        dsh: true,
    }))
    .expect("current runtime");
    assert_eq!(current.version, DSH_VERSION);
}

#[test]
fn node_runtime_without_corepack_is_not_reusable() {
    let paths = AppPaths::from_root("/app".to_owned());
    let (mut lookup, _) = resolve_candidate(&paths, &paths.dsh_root, DSH_VERSION);
    lookup.step(LookupEvent::ManifestRead(Ok(manifest(DSH_VERSION))));
    assert_eq!(
        expect_done(lookup.step(LookupEvent::FilesChecked {
            node: true,
            corepack: false,
            dsh: true,
        }))
        .err(),
        Some("The private Harness runtime is incomplete.".to_owned())
    );
    assert_eq!(lookup.stage(), LookupStage::Finished);
}

#[test]
fn unreadable_files_and_foreign_packages_end_the_lookup() {
    let paths = AppPaths::from_root("/app".to_owned());
    let (mut lookup, _) = resolve_runtime(&paths);
    assert_eq!(
        expect_done(lookup.step(LookupEvent::PointerRead(Err("not json".to_owned())))).err(),
        Some("not json".to_owned())
    );

    let (mut lookup, _) = RuntimeLookup::through_pointer(&paths, &paths.previous);
    let old = RuntimePointer { format_version: 1, ..runtime_pointer(DSH_VERSION) };
    assert_eq!(
        expect_done(lookup.step(LookupEvent::PointerRead(Ok(old)))).err(),
        Some("The active runtime pointer is invalid.".to_owned())
    );

    let (mut lookup, _) = resolve_candidate(&paths, &paths.dsh_root, DSH_VERSION);
    assert_eq!(
        expect_done(lookup.step(LookupEvent::ManifestRead(Ok(manifest("9.9.9"))))).err(),
        Some("The active DSH package does not match its pointer.".to_owned())
    );
}

fn runtime(version: &str) -> dsh_installer::runtime::ResolvedRuntime {
    dsh_installer::runtime::ResolvedRuntime {
        node: "/app/node.exe".to_owned(),
        dsh: "/app/dsh.js".to_owned(),
        version: version.to_owned(),
        runtime_directory: "/app/runtime".to_owned(),
    }
}

#[test]
fn invalid_current_recovers_the_previous_runtime() {
    match after_current_lookup(Ok(runtime(DSH_VERSION)), true, true) {
        Recovery::Current(current) => assert_eq!(current.version, DSH_VERSION),
        other => panic!("a valid current runtime is used, not {other:?}"),
    }
    match after_current_lookup(Err("not json".to_owned()), true, true) {
        Recovery::TryPrevious(error) => assert_eq!(error, "not json"),
        other => panic!("the previous runtime is tried, not {other:?}"),
    }
    let recovered = after_previous_lookup("not json", Ok(runtime(DSH_VERSION))).expect("recovered runtime");
    assert_eq!(recovered.version, DSH_VERSION);
    assert_eq!(
        after_previous_lookup("not json", Err("missing".to_owned())).err(),
        Some(
            "The current runtime is invalid (not json); the previous runtime is also invalid (missing)."
                .to_owned()
        )
    );
    assert!(matches!(
        after_current_lookup(Err("missing".to_owned()), false, false),
        Recovery::NotInstalled
    ));
    match after_current_lookup(Err("not json".to_owned()), false, true) {
        Recovery::Invalid(error) => assert_eq!(error, "not json"),
        other => panic!("an invalid current runtime without a previous one is an error, not {other:?}"),
    }
}
