use dsh_installer::pnpm::parse_event;
use dsh_installer::paths::AppPaths;
use dsh_installer::pnpm::{
    PnpmProgress, PnpmProgressParser, PnpmStage, pnpm_arguments, stage_message_key,
};

fn percent(progress: &PnpmProgress) -> f64 {
    let fraction = progress.percent();
    fraction.numerator as f64 / fraction.denominator as f64
}

#[test]
fn pnpm_ndjson_reports_real_package_activity_and_ignores_bad_lines() {
    let mut parser = PnpmProgressParser::default();
    assert!(parser.observe("not json", 1).is_none());
    let resolved = parser
        .observe(
            r#"{"name":"pnpm:progress","status":"resolved","packageId":"a@1.0.0"}"#,
            2,
        )
        .unwrap();
    assert_eq!(resolved.resolved_items, 1);
    assert_eq!(percent(&resolved), 10.0);
    let stats = parser
        .observe(r#"{"name":"pnpm:stats","added":4}"#, 3)
        .unwrap();
    assert_eq!(stats.total_items, Some(4));
    assert_eq!(percent(&stats), 25.0);
    let reused = parser
        .observe(
            r#"{"name":"pnpm:progress","status":"found_in_store","packageId":"a@1.0.0"}"#,
            4,
        )
        .unwrap();
    assert_eq!(reused.reused_items, 1);
    let downloaded = parser
        .observe(
            r#"{"name":"pnpm:progress","status":"fetched","packageId":"b@1.0.0"}"#,
            5,
        )
        .unwrap();
    assert_eq!(downloaded.downloaded_items, 1);
    let added = parser
        .observe(
            r#"{"name":"pnpm:progress","status":"imported","packageId":"a@1.0.0"}"#,
            6,
        )
        .unwrap();
    assert_eq!(added.added_items, 1);
    assert!(percent(&added) > 25.0);
    let lifecycle = parser
        .observe(r#"{"name":"pnpm:lifecycle","depPath":"a@1.0.0"}"#, 7)
        .unwrap();
    assert_eq!(lifecycle.stage, PnpmStage::Lifecycle);
    assert_eq!(percent(&lifecycle), 85.0);
}

#[test]
fn pnpm_command_uses_private_corepack_store_and_fixed_install_layout() {
    let paths = AppPaths::from_root("C:/private-app".to_owned());
    let arguments = pnpm_arguments(&paths);

    assert_eq!(arguments[0], paths.corepack_cli());
    assert_eq!(
        &arguments[1..5],
        ["pnpm", "install", "--ignore-workspace", "--prod"]
    );
    for expected in [
        "--reporter=ndjson",
        "--config.node-linker=hoisted",
        "--config.package-import-method=copy",
        "--config.auto-install-peers=true",
        "--config.confirm-modules-purge=false",
        "--dangerously-allow-all-builds",
    ] {
        assert!(arguments.iter().any(|argument| argument == expected));
    }
    assert!(arguments.iter().any(|argument| {
        argument == &format!("--store-dir={}", paths.pnpm_store)
    }));
}

#[test]
fn repeated_packages_are_counted_once() {
    let mut parser = PnpmProgressParser::new();
    let line = r#"{"name":"pnpm:progress","status":"resolved","packageId":"a@1.0.0"}"#;
    assert_eq!(parser.observe(line, 1).unwrap().resolved_items, 1);
    let again = parser.observe(line, 2).unwrap();
    assert_eq!(again.resolved_items, 1);
    assert_eq!(again.elapsed_seconds, 2);
    let other = parser
        .observe(r#"{"name":"pnpm:progress","status":"resolved","pkgId":"c@2.0.0"}"#, 3)
        .unwrap();
    assert_eq!(other.resolved_items, 2);
}

#[test]
fn unknown_events_and_statuses_report_nothing_but_keep_the_stage() {
    let mut parser = PnpmProgressParser::new();
    assert!(parser.observe(r#"{"name":"pnpm:other"}"#, 1).is_none());
    assert!(parser.observe(r#"{"status":"resolved"}"#, 1).is_none());
    assert!(parser
        .observe(r#"{"name":"pnpm:progress","status":"other","packageId":"a"}"#, 2)
        .is_none());
    let stage = parser
        .observe(r#"{"name":"pnpm:stage","stage":"resolution_done"}"#, 3)
        .unwrap();
    assert_eq!(stage.stage, PnpmStage::Resolving);
    let importing = parser
        .observe(r#"{"name":"pnpm:stage","stage":"importing_started"}"#, 4)
        .unwrap();
    assert_eq!(importing.stage, PnpmStage::Importing);
    assert_eq!(percent(&importing), 10.0);
}

#[test]
fn progress_percentages_follow_the_stages() {
    let mut progress = PnpmProgress::default();
    assert_eq!(percent(&progress), 5.0);
    progress.stage = PnpmStage::Importing;
    progress.total_items = Some(0);
    assert_eq!(percent(&progress), 80.0);
    progress.total_items = Some(10);
    progress.added_items = 20;
    assert_eq!(percent(&progress), 80.0);
    progress.added_items = 5;
    assert_eq!(percent(&progress), 52.5);
    assert_eq!(stage_message_key(PnpmStage::Preparing), "preparingPackageManager");
    assert_eq!(stage_message_key(PnpmStage::Resolving), "resolvingDependencies");
    assert_eq!(stage_message_key(PnpmStage::Importing), "installingPackages");
    assert_eq!(stage_message_key(PnpmStage::Lifecycle), "runningInstallScripts");
}

#[test]
fn reporter_lines_are_read_into_events() {
    let event = parse_event(r#"{"name":"pnpm:progress","status":"resolved","packageId":"a@1.0.0"}"#);
    assert_eq!(event.name.as_deref(), Some("pnpm:progress"));
    assert_eq!(event.status.as_deref(), Some("resolved"));
    assert_eq!(event.key, "\"a@1.0.0\"");
    assert_eq!(event.added, None);
    let stats = parse_event(r#"{"name":"pnpm:stats","added":4}"#);
    assert_eq!(stats.added, Some(4));
    let bad = parse_event("not json");
    assert_eq!(bad.name, None);
    assert_eq!(bad.key, "not json");

    let mut parser = PnpmProgressParser::new();
    let progress = parser.observe_event(&event, 3).expect("a progress event is reported");
    assert_eq!(progress.resolved_items, 1);
    assert_eq!(progress.elapsed_seconds, 3);
    assert!(parser.observe_event(&bad, 4).is_none());
}
