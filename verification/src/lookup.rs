//! Finding a runtime: from a runtime pointer to the DSH directory it names,
//! from there to the package manifest, and from the manifest to the files
//! that must exist. The lookup asks for each file it needs read or checked
//! and decides on what comes back.
use vstd::prelude::*;

use crate::paths::{AppPaths, PathsView, archive_path, corepack_cli_path, node_executable_path};
use crate::runtime::{
    PackageManifest, ResolvedRuntime, RuntimePointer, candidate_layout, dsh_package, manifest_binary,
    recovery_failure_message,
    manifest_binary_path, manifest_of, package_root_of, pointer_for, pointer_root, pointer_target,
    runtime_directory_of,
};
use crate::text::owned;

verus! {

/// What the lookup waits for.
#[derive(Clone, Copy, Debug, PartialEq, Eq, Structural)]
pub enum LookupStage {
    /// The runtime pointer, read and parsed.
    AwaitPointer,
    /// The package manifest, read and parsed.
    AwaitManifest,
    /// Whether the runtime's files exist.
    AwaitFiles,
    /// Nothing: the lookup has ended.
    Finished,
}

/// What came back from the file the lookup asked for.
#[derive(Debug)]
pub enum LookupEvent {
    /// The runtime pointer, or why it could not be read or parsed.
    PointerRead(Result<RuntimePointer, String>),
    /// The package manifest, or why it could not be read or parsed.
    ManifestRead(Result<PackageManifest, String>),
    /// Whether the Node executable, its corepack and the `dsh` script exist
    /// as files.
    FilesChecked { node: bool, corepack: bool, dsh: bool },
}

/// What the lookup needs next, or its outcome.
#[derive(Debug)]
pub enum LookupAction {
    /// Read and parse the runtime pointer at this path.
    ReadPointer(String),
    /// Read and parse the package manifest at this path.
    ReadManifest(String),
    /// Check whether these three paths are files.
    CheckFiles { node: String, corepack: String, dsh: String },
    /// The lookup ended with this runtime or error.
    Done(Result<ResolvedRuntime, String>),
}

/// A resolved runtime as texts.
pub struct RuntimeView {
    pub node: Seq<char>,
    pub dsh: Seq<char>,
    pub version: Seq<char>,
    pub runtime_directory: Seq<char>,
}

/// An event as texts.
pub enum LookupEventView {
    PointerRead(Result<RuntimePointer, Seq<char>>),
    ManifestRead(Result<PackageManifest, Seq<char>>),
    FilesChecked { node: bool, corepack: bool, dsh: bool },
}

/// An action as texts.
pub enum LookupActionView {
    ReadPointer(Seq<char>),
    ReadManifest(Seq<char>),
    CheckFiles { node: Seq<char>, corepack: Seq<char>, dsh: Seq<char> },
    Done(Result<RuntimeView, Seq<char>>),
}

pub open spec fn runtime_view(r: ResolvedRuntime) -> RuntimeView {
    RuntimeView {
        node: r.node@,
        dsh: r.dsh@,
        version: r.version@,
        runtime_directory: r.runtime_directory@,
    }
}

impl View for LookupEvent {
    type V = LookupEventView;

    open spec fn view(&self) -> LookupEventView {
        match self {
            LookupEvent::PointerRead(r) => LookupEventView::PointerRead(
                match r {
                    Ok(p) => Ok(*p),
                    Err(e) => Err(e@),
                },
            ),
            LookupEvent::ManifestRead(r) => LookupEventView::ManifestRead(
                match r {
                    Ok(m) => Ok(*m),
                    Err(e) => Err(e@),
                },
            ),
            LookupEvent::FilesChecked { node, corepack, dsh } => LookupEventView::FilesChecked {
                node: *node,
                corepack: *corepack,
                dsh: *dsh,
            },
        }
    }
}

impl View for LookupAction {
    type V = LookupActionView;

    open spec fn view(&self) -> LookupActionView {
        match self {
            LookupAction::ReadPointer(p) => LookupActionView::ReadPointer(p@),
            LookupAction::ReadManifest(p) => LookupActionView::ReadManifest(p@),
            LookupAction::CheckFiles { node, corepack, dsh } => LookupActionView::CheckFiles {
                node: node@,
                corepack: corepack@,
                dsh: dsh@,
            },
            LookupAction::Done(r) => LookupActionView::Done(
                match r {
                    Ok(rt) => Ok(runtime_view(*rt)),
                    Err(e) => Err(e@),
                },
            ),
        }
    }
}

/// The lookup as texts: its stage, the private layout, and what it has
/// learnt so far.
pub struct LookupView {
    pub stage: LookupStage,
    pub paths: PathsView,
    pub version: Seq<char>,
    pub runtime_directory: Seq<char>,
    pub package_root: Seq<char>,
    pub dsh: Seq<char>,
}

/// Which events each stage waits for.
pub open spec fn lookup_event_expected(stage: LookupStage, e: LookupEventView) -> bool {
    match stage {
        LookupStage::AwaitPointer => e is PointerRead,
        LookupStage::AwaitManifest => e is ManifestRead,
        LookupStage::AwaitFiles => e is FilesChecked,
        LookupStage::Finished => false,
    }
}

/// The start of a lookup of the DSH installation in `dsh_root` for the
/// declared `version`: its package manifest is read first.
pub open spec fn candidate_start(paths: PathsView, dsh_root: Seq<char>, version: Seq<char>) -> (
    LookupView,
    LookupActionView,
) {
    (
        LookupView {
            stage: LookupStage::AwaitManifest,
            paths,
            version,
            runtime_directory: runtime_directory_of(dsh_root),
            package_root: package_root_of(dsh_root),
            dsh: Seq::empty(),
        },
        LookupActionView::ReadManifest(manifest_of(dsh_root)),
    )
}

/// The start of a lookup through the pointer file at `pointer_path`.
pub open spec fn pointer_start(paths: PathsView, pointer_path: Seq<char>) -> (LookupView, LookupActionView) {
    (
        LookupView {
            stage: LookupStage::AwaitPointer,
            paths,
            version: Seq::empty(),
            runtime_directory: Seq::empty(),
            package_root: Seq::empty(),
            dsh: Seq::empty(),
        },
        LookupActionView::ReadPointer(pointer_path),
    )
}

/// The lookup ends with this outcome.
pub open spec fn finished(v: LookupView, outcome: Result<RuntimeView, Seq<char>>) -> (LookupView, LookupActionView) {
    (LookupView { stage: LookupStage::Finished, ..v }, LookupActionView::Done(outcome))
}

/// One step of a lookup: an unreadable file ends it with the reading's
/// error; a pointer must pass the pointer checks and leads to its DSH
/// directory; the manifest must be the DSH package of the declared version
/// and name a `dsh` script inside the package; and the runtime is complete
/// when the private Node executable, its corepack and the script exist.
pub open spec fn lookup_transition(v: LookupView, e: LookupEventView) -> (LookupView, LookupActionView) {
    match e {
        LookupEventView::PointerRead(read) => match read {
            Err(error) => finished(v, Err(error)),
            Ok(pointer) => match pointer_root(v.paths, pointer) {
                Err(error) => finished(v, Err(error)),
                Ok(dsh_root) => candidate_start(v.paths, dsh_root, pointer.version@),
            },
        },
        LookupEventView::ManifestRead(read) => match read {
            Err(error) => finished(v, Err(error)),
            Ok(manifest) => match manifest_binary_path(v.package_root, manifest, v.version) {
                Err(error) => finished(v, Err(error)),
                Ok(dsh) => (
                    LookupView { stage: LookupStage::AwaitFiles, version: manifest.version@, dsh, ..v },
                    LookupActionView::CheckFiles {
                        node: node_executable_path(v.paths),
                        corepack: corepack_cli_path(v.paths),
                        dsh,
                    },
                ),
            },
        },
        LookupEventView::FilesChecked { node, corepack, dsh } => if node && corepack && dsh {
            finished(
                v,
                Ok(
                    RuntimeView {
                        node: node_executable_path(v.paths),
                        dsh: v.dsh,
                        version: v.version,
                        runtime_directory: v.runtime_directory,
                    },
                ),
            )
        } else {
            finished(v, Err("The private Harness runtime is incomplete."@))
        },
    }
}

/// A lookup of a runtime in progress.
pub struct RuntimeLookup {
    stage: LookupStage,
    paths: AppPaths,
    version: String,
    runtime_directory: String,
    package_root: String,
    dsh: String,
}

impl View for RuntimeLookup {
    type V = LookupView;

    closed spec fn view(&self) -> LookupView {
        LookupView {
            stage: self.stage,
            paths: self.paths@,
            version: self.version@,
            runtime_directory: self.runtime_directory@,
            package_root: self.package_root@,
            dsh: self.dsh@,
        }
    }
}

/// Starts the lookup of the active runtime: through the current runtime
/// pointer.
pub fn resolve_runtime(paths: &AppPaths) -> (r: (RuntimeLookup, LookupAction))
    ensures
        (r.0@, r.1@) == pointer_start(paths@, paths@.current),
{
    RuntimeLookup::through_pointer(paths, paths.current.as_str())
}

/// Starts the lookup of the DSH installation in `dsh_root`, which must hold
/// `declared_version`.
pub fn resolve_candidate(paths: &AppPaths, dsh_root: &str, declared_version: &str) -> (r: (RuntimeLookup, LookupAction))
    ensures
        (r.0@, r.1@) == candidate_start(paths@, dsh_root@, declared_version@),
{
    RuntimeLookup::of_candidate(paths.duplicate(), dsh_root, declared_version)
}

impl RuntimeLookup {
    /// Starts a lookup through the pointer file at `pointer_path`.
    pub fn through_pointer(paths: &AppPaths, pointer_path: &str) -> (r: (RuntimeLookup, LookupAction))
        ensures
            (r.0@, r.1@) == pointer_start(paths@, pointer_path@),
    {
        let lookup = RuntimeLookup {
            stage: LookupStage::AwaitPointer,
            paths: paths.duplicate(),
            version: String::new(),
            runtime_directory: String::new(),
            package_root: String::new(),
            dsh: String::new(),
        };
        (lookup, LookupAction::ReadPointer(owned(pointer_path)))
    }

    fn of_candidate(paths: AppPaths, dsh_root: &str, declared_version: &str) -> (r: (RuntimeLookup, LookupAction))
        ensures
            (r.0@, r.1@) == candidate_start(paths@, dsh_root@, declared_version@),
    {
        let layout = candidate_layout(dsh_root);
        let lookup = RuntimeLookup {
            stage: LookupStage::AwaitManifest,
            paths,
            version: owned(declared_version),
            runtime_directory: layout.runtime_directory,
            package_root: layout.package_root,
            dsh: String::new(),
        };
        (lookup, LookupAction::ReadManifest(layout.manifest))
    }

    /// The current stage.
    pub fn stage(&self) -> (r: LookupStage)
        ensures
            r == self@.stage,
    {
        self.stage
    }

    /// Takes one step on what came back from the file that was asked for.
    pub fn step(&mut self, event: LookupEvent) -> (a: LookupAction)
        requires
            lookup_event_expected(old(self)@.stage, event@),
        ensures
            (final(self)@, a@) == lookup_transition(old(self)@, event@),
    {
        match event {
            LookupEvent::PointerRead(read) => match read {
                Err(error) => {
                    self.stage = LookupStage::Finished;
                    LookupAction::Done(Err(error))
                },
                Ok(pointer) => match pointer_target(&self.paths, &pointer) {
                    Err(error) => {
                        self.stage = LookupStage::Finished;
                        LookupAction::Done(Err(error))
                    },
                    Ok(dsh_root) => {
                        let (lookup, action) = RuntimeLookup::of_candidate(
                            self.paths.duplicate(),
                            dsh_root.as_str(),
                            pointer.version.as_str(),
                        );
                        *self = lookup;
                        action
                    },
                },
            },
            LookupEvent::ManifestRead(read) => match read {
                Err(error) => {
                    self.stage = LookupStage::Finished;
                    LookupAction::Done(Err(error))
                },
                Ok(manifest) => match manifest_binary(
                    self.package_root.as_str(),
                    &manifest,
                    self.version.as_str(),
                ) {
                    Err(error) => {
                        self.stage = LookupStage::Finished;
                        LookupAction::Done(Err(error))
                    },
                    Ok(dsh) => {
                        self.stage = LookupStage::AwaitFiles;
                        self.version = manifest.version;
                        self.dsh = dsh;
                        LookupAction::CheckFiles {
                            node: self.paths.node_executable(),
                            corepack: self.paths.corepack_cli(),
                            dsh: self.dsh.clone(),
                        }
                    },
                },
            },
            LookupEvent::FilesChecked { node, corepack, dsh } => {
                self.stage = LookupStage::Finished;
                if node && corepack && dsh {
                    LookupAction::Done(
                        Ok(
                            ResolvedRuntime {
                                node: self.paths.node_executable(),
                                dsh: self.dsh.clone(),
                                version: self.version.clone(),
                                runtime_directory: self.runtime_directory.clone(),
                            },
                        ),
                    )
                } else {
                    LookupAction::Done(Err(owned("The private Harness runtime is incomplete.")))
                }
            },
        }
    }
}

/// What follows the lookup of the current runtime at start.
#[derive(Debug)]
pub enum Recovery {
    /// The current runtime is valid.
    Current(ResolvedRuntime),
    /// No runtime was ever installed: neither pointer file exists.
    NotInstalled,
    /// The current runtime is invalid and there is no previous pointer.
    Invalid(String),
    /// The current runtime is invalid: look up the previous one, which is
    /// restored as current if it is valid.
    TryPrevious(String),
}

/// What follows the lookup of the current runtime: a valid one is used;
/// otherwise the previous pointer is tried when it exists, and without it
/// an existing current pointer is an error and a missing one means that
/// nothing is installed.
pub fn after_current_lookup(current: Result<ResolvedRuntime, String>, previous_exists: bool, current_exists: bool) -> (r: Recovery)
    ensures
        match current {
            Ok(runtime) => r == Recovery::Current(runtime),
            Err(error) => if previous_exists {
                r matches Recovery::TryPrevious(e) && e@ == error@
            } else if current_exists {
                r matches Recovery::Invalid(e) && e@ == error@
            } else {
                r is NotInstalled
            },
        },
{
    match current {
        Ok(runtime) => Recovery::Current(runtime),
        Err(error) => {
            if previous_exists {
                Recovery::TryPrevious(error)
            } else if current_exists {
                Recovery::Invalid(error)
            } else {
                Recovery::NotInstalled
            }
        },
    }
}

/// The outcome of recovering the previous runtime after the current one
/// failed: the previous runtime, or an error that names both failures.
pub fn after_previous_lookup(current_error: &str, previous: Result<ResolvedRuntime, String>) -> (r: Result<
    ResolvedRuntime,
    String,
>)
    ensures
        match previous {
            Ok(runtime) => r == Ok::<ResolvedRuntime, String>(runtime),
            Err(previous_error) => r matches Err(e) && e@ == "The current runtime is invalid ("@
                + current_error@ + "); the previous runtime is also invalid ("@ + previous_error@
                + ")."@,
        },
{
    match previous {
        Ok(runtime) => Ok(runtime),
        Err(previous_error) => Err(recovery_failure_message(current_error, previous_error.as_str())),
    }
}

/// What a lookup through a written pointer gives back: the pointer written
/// for `version` leads to the manifest of `dsh/<version>` below the private
/// root (as far as that path stays below it), and a runtime found through
/// it is of that version: its manifest is the DSH package of `version`, and
/// it is found exactly when its three files exist.
pub proof fn lemma_written_pointer_resolves_to_its_version(
    paths: PathsView,
    pointer_path: Seq<char>,
    pointer: RuntimePointer,
    version: Seq<char>,
    manifest: PackageManifest,
    node: bool,
    corepack: bool,
    dsh: bool,
)
    requires
        pointer_for(pointer, version),
    ensures
        ({
            let first = lookup_transition(
                pointer_start(paths, pointer_path).0,
                LookupEventView::PointerRead(Ok(pointer)),
            );
            let second = lookup_transition(first.0, LookupEventView::ManifestRead(Ok(manifest)));
            let third = lookup_transition(
                second.0,
                LookupEventView::FilesChecked { node, corepack, dsh },
            );
            &&& first.1 == match archive_path(paths.root, "dsh/"@ + version) {
                Ok(dsh_root) => LookupActionView::ReadManifest(manifest_of(dsh_root)),
                Err(error) => LookupActionView::Done(Err(error)),
            }
            &&& first.0.stage == LookupStage::AwaitManifest && second.0.stage
                == LookupStage::AwaitFiles ==> {
                &&& manifest.name@ == dsh_package()
                &&& manifest.version@ == version
                &&& third.1 is Done
                &&& (third.1->Done_0 is Ok <==> node && corepack && dsh)
                &&& third.1->Done_0 matches Ok(runtime) ==> runtime.version == version
            }
        }),
{
}

} // verus!
