use dsh_installer::model::{DSH_VERSION, NODE_VERSION};
use dsh_installer::paths::AppPaths;

/// `base` joined with `child` as the standard library joins paths.
fn path_in(base: &str, child: &str) -> String {
    std::path::Path::new(base).join(child).to_string_lossy().into_owned()
}

#[test]
fn private_layout_below_the_root() {
    let paths = AppPaths::from_root("/app".to_owned());
    assert_eq!(
        paths.node_root,
        path_in(&path_in(&path_in("/app", "node"), NODE_VERSION), "win-x64")
    );
    assert_eq!(paths.dsh_root, path_in(&path_in("/app", "dsh"), DSH_VERSION));
    assert_eq!(paths.settings, path_in("/app", "settings.json"));
    assert_eq!(paths.node_executable(), path_in(&paths.node_root, "node.exe"));
    assert_eq!(
        paths.corepack_cli(),
        path_in(&paths.node_root, "node_modules/corepack/dist/corepack.js")
    );
    assert_eq!(paths.runtime_directory(), path_in(&paths.dsh_root, "runtime"));
    assert_eq!(
        paths.dsh_manifest(),
        path_in(&paths.runtime_directory(), "node_modules/@deepseek-ai/dsh/package.json")
    );
    assert_eq!(
        paths.dsh_version_root("0.2.0"),
        path_in(&path_in("/app", "dsh"), "0.2.0")
    );
    assert_eq!(paths.node_executable(), format!("/app/node/{NODE_VERSION}/win-x64/node.exe"));
}
