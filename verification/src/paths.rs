//! The layout of the installer's private directory and the check that keeps
//! archive entries below their destination.
use vstd::prelude::*;

use crate::model::{DSH_VERSION, NODE_VERSION, RUNTIME_ARCHITECTURE};
use crate::text::owned;

verus! {

/// What `Path::join` gives for `base` and `child`, as text.
pub uninterp spec fn path_join(base: Seq<char>, child: Seq<char>) -> Seq<char>;

/// What `Path::is_absolute` gives for the path `p`.
pub uninterp spec fn path_is_absolute(p: Seq<char>) -> bool;

/// The kinds of the components that `Path::components` yields for `p`, in
/// order.
pub uninterp spec fn path_component_kinds(p: Seq<char>) -> Seq<ComponentKind>;

/// The kind of one path component, as `std::path::Component` tells them
/// apart.
#[derive(Clone, Copy, Debug, PartialEq, Eq, Structural)]
pub enum ComponentKind {
    Prefix,
    RootDir,
    CurDir,
    ParentDir,
    Normal,
}

/// `Path::join`, the result read back as text. Both parts are text, so the
/// joined path is text too and nothing is lost in `to_string_lossy`. The
/// contract names the result; the platform's joining rules are not restated.
#[verifier::external_body]
pub(crate) fn join_path(base: &str, child: &str) -> (r: String)
    ensures
        r@ == path_join(base@, child@),
{
    std::path::Path::new(base).join(child).to_string_lossy().into_owned()
}

/// `Path::is_absolute`. The contract names the result.
#[verifier::external_body]
pub(crate) fn is_absolute_path(p: &str) -> (r: bool)
    ensures
        r == path_is_absolute(p@),
{
    std::path::Path::new(p).is_absolute()
}

/// `Path::components`, each component reduced to its kind. The contract
/// names the result.
#[verifier::external_body]
pub(crate) fn component_kinds(p: &str) -> (r: Vec<ComponentKind>)
    ensures
        r@ == path_component_kinds(p@),
{
    let mut kinds = Vec::new();
    for component in std::path::Path::new(p).components() {
        kinds.push(match component {
            std::path::Component::Prefix(_) => ComponentKind::Prefix,
            std::path::Component::RootDir => ComponentKind::RootDir,
            std::path::Component::CurDir => ComponentKind::CurDir,
            std::path::Component::ParentDir => ComponentKind::ParentDir,
            std::path::Component::Normal(_) => ComponentKind::Normal,
        });
    }
    kinds
}

/// A component that leads out of the directory it is joined to.
pub open spec fn leaves_directory(kind: ComponentKind) -> bool {
    kind == ComponentKind::ParentDir || kind == ComponentKind::Prefix || kind
        == ComponentKind::RootDir
}

/// Whether `name`, joined below a directory, could lead out of it.
pub open spec fn escapes(name: Seq<char>) -> bool {
    exists|i: int|
        0 <= i < path_component_kinds(name).len() && leaves_directory(
            #[trigger] path_component_kinds(name)[i],
        )
}

/// What `safe_archive_path` gives: the entry joined below `base`, unless the
/// entry is absolute or has a component that leads out of `base`.
pub open spec fn archive_path(base: Seq<char>, name: Seq<char>) -> Result<Seq<char>, Seq<char>> {
    if path_is_absolute(name) {
        Err("Archive entry uses an absolute path."@)
    } else if escapes(name) {
        Err("Archive entry escapes the destination directory."@)
    } else {
        Ok(path_join(base, name))
    }
}

/// The text of a `Result` of texts.
pub open spec fn result_text(r: Result<String, String>) -> Result<Seq<char>, Seq<char>> {
    match r {
        Ok(v) => Ok(v@),
        Err(e) => Err(e@),
    }
}

/// Joins an archive entry below `base`, refusing absolute entries and any
/// entry with a parent, prefix or root component.
pub fn safe_archive_path(base: &str, name: &str) -> (r: Result<String, String>)
    ensures
        result_text(r) == archive_path(base@, name@),
{
    if is_absolute_path(name) {
        return Err(owned("Archive entry uses an absolute path."));
    }
    let kinds = component_kinds(name);
    let mut i: usize = 0;
    while i < kinds.len()
        invariant
            !path_is_absolute(name@),
            kinds@ == path_component_kinds(name@),
            i <= kinds@.len(),
            forall|j: int| 0 <= j < i ==> !leaves_directory(#[trigger] kinds@[j]),
        decreases kinds@.len() - i,
    {
        let kind = kinds[i];
        if kind == ComponentKind::ParentDir || kind == ComponentKind::Prefix || kind
            == ComponentKind::RootDir {
            assert(leaves_directory(path_component_kinds(name@)[i as int]));
            return Err(owned("Archive entry escapes the destination directory."));
        }
        i = i + 1;
    }
    Ok(join_path(base, name))
}

/// The private directory layout, as texts.
pub struct PathsView {
    pub root: Seq<char>,
    pub node_root: Seq<char>,
    pub dsh_root: Seq<char>,
    pub staging: Seq<char>,
    pub logs: Seq<char>,
    pub corepack_home: Seq<char>,
    pub pnpm_store: Seq<char>,
    pub state_format: Seq<char>,
    pub settings: Seq<char>,
    pub current: Seq<char>,
    pub previous: Seq<char>,
}

/// The layout below `root`: the pinned Node runtime for the architecture,
/// the bundled DSH version, staging, logs, the package-manager homes and the
/// state, settings and runtime pointer files.
pub open spec fn layout(root: Seq<char>) -> PathsView {
    PathsView {
        root,
        node_root: path_join(
            path_join(path_join(root, "node"@), NODE_VERSION@),
            RUNTIME_ARCHITECTURE@,
        ),
        dsh_root: path_join(path_join(root, "dsh"@), DSH_VERSION@),
        staging: path_join(root, "staging"@),
        logs: path_join(root, "logs"@),
        corepack_home: path_join(root, "package-managers/corepack"@),
        pnpm_store: path_join(root, "package-managers/pnpm-store"@),
        state_format: path_join(root, "format.json"@),
        settings: path_join(root, "settings.json"@),
        current: path_join(root, "current.json"@),
        previous: path_join(root, "previous.json"@),
    }
}

pub open spec fn node_executable_path(p: PathsView) -> Seq<char> {
    path_join(p.node_root, "node.exe"@)
}

pub open spec fn corepack_cli_path(p: PathsView) -> Seq<char> {
    path_join(p.node_root, "node_modules/corepack/dist/corepack.js"@)
}

pub open spec fn runtime_directory_path(p: PathsView) -> Seq<char> {
    path_join(p.dsh_root, "runtime"@)
}

pub open spec fn dsh_manifest_path(p: PathsView) -> Seq<char> {
    path_join(runtime_directory_path(p), "node_modules/@deepseek-ai/dsh/package.json"@)
}

pub open spec fn dsh_version_root_path(p: PathsView, version: Seq<char>) -> Seq<char> {
    path_join(path_join(p.root, "dsh"@), version)
}

/// The installer's private directories and files.
#[derive(Clone, Debug)]
pub struct AppPaths {
    pub root: String,
    pub node_root: String,
    pub dsh_root: String,
    pub staging: String,
    pub logs: String,
    pub corepack_home: String,
    pub pnpm_store: String,
    pub state_format: String,
    pub settings: String,
    pub current: String,
    pub previous: String,
}

impl View for AppPaths {
    type V = PathsView;

    open spec fn view(&self) -> PathsView {
        PathsView {
            root: self.root@,
            node_root: self.node_root@,
            dsh_root: self.dsh_root@,
            staging: self.staging@,
            logs: self.logs@,
            corepack_home: self.corepack_home@,
            pnpm_store: self.pnpm_store@,
            state_format: self.state_format@,
            settings: self.settings@,
            current: self.current@,
            previous: self.previous@,
        }
    }
}

impl AppPaths {
    /// The layout below `root`.
    pub fn from_root(root: String) -> (paths: AppPaths)
        ensures
            paths@ == layout(root@),
    {
        let node = join_path(root.as_str(), "node");
        let node_version = join_path(node.as_str(), NODE_VERSION);
        let node_root = join_path(node_version.as_str(), RUNTIME_ARCHITECTURE);
        let dsh = join_path(root.as_str(), "dsh");
        let dsh_root = join_path(dsh.as_str(), DSH_VERSION);
        let staging = join_path(root.as_str(), "staging");
        let logs = join_path(root.as_str(), "logs");
        let corepack_home = join_path(root.as_str(), "package-managers/corepack");
        let pnpm_store = join_path(root.as_str(), "package-managers/pnpm-store");
        let state_format = join_path(root.as_str(), "format.json");
        let settings = join_path(root.as_str(), "settings.json");
        let current = join_path(root.as_str(), "current.json");
        let previous = join_path(root.as_str(), "previous.json");
        AppPaths {
            root,
            node_root,
            dsh_root,
            staging,
            logs,
            corepack_home,
            pnpm_store,
            state_format,
            settings,
            current,
            previous,
        }
    }

    /// A copy of the layout.
    pub fn duplicate(&self) -> (r: AppPaths)
        ensures
            r@ == self@,
    {
        AppPaths {
            root: self.root.clone(),
            node_root: self.node_root.clone(),
            dsh_root: self.dsh_root.clone(),
            staging: self.staging.clone(),
            logs: self.logs.clone(),
            corepack_home: self.corepack_home.clone(),
            pnpm_store: self.pnpm_store.clone(),
            state_format: self.state_format.clone(),
            settings: self.settings.clone(),
            current: self.current.clone(),
            previous: self.previous.clone(),
        }
    }

    /// The private Node executable.
    pub fn node_executable(&self) -> (r: String)
        ensures
            r@ == node_executable_path(self@),
    {
        join_path(self.node_root.as_str(), "node.exe")
    }

    /// The corepack entry point of the private Node runtime.
    pub fn corepack_cli(&self) -> (r: String)
        ensures
            r@ == corepack_cli_path(self@),
    {
        join_path(self.node_root.as_str(), "node_modules/corepack/dist/corepack.js")
    }

    /// The runtime directory of the bundled DSH version.
    pub fn runtime_directory(&self) -> (r: String)
        ensures
            r@ == runtime_directory_path(self@),
    {
        join_path(self.dsh_root.as_str(), "runtime")
    }

    /// The package manifest of the bundled DSH version.
    pub fn dsh_manifest(&self) -> (r: String)
        ensures
            r@ == dsh_manifest_path(self@),
    {
        let runtime = self.runtime_directory();
        join_path(runtime.as_str(), "node_modules/@deepseek-ai/dsh/package.json")
    }

    /// The directory that holds DSH `version`.
    pub fn dsh_version_root(&self, version: &str) -> (r: String)
        ensures
            r@ == dsh_version_root_path(self@, version@),
    {
        let dsh = join_path(self.root.as_str(), "dsh");
        join_path(dsh.as_str(), version)
    }
}

} // verus!
