//! The private Harness runtime: the pointer to the active DSH version, the
//! checks of an installed DSH package, the runtime's reported versions and
//! the names of the installation's staging entries.
use vstd::prelude::*;

use crate::json::{json_string, json_string_text};
use crate::model::{NODE_VERSION, RUNTIME_ARCHITECTURE};
use crate::paths::{
    AppPaths, PathsView, archive_path, corepack_cli_path, join_path, node_executable_path,
    path_join, result_text, safe_archive_path,
};
use crate::text::{concat, concat3, concat4, owned, same_text, starts_with, has_prefix, trim, trimmed};

verus! {

/// The only runtime pointer format this installer reads and writes.
pub open spec fn pointer_format() -> u32 {
    2
}

/// The npm package of DSH.
pub open spec fn dsh_package() -> Seq<char> {
    "@deepseek-ai/dsh"@
}

/// The runtime pointer file: which DSH version is active and where it lies
/// below the private root.
#[derive(Clone, Debug)]
pub struct RuntimePointer {
    pub format_version: u32,
    pub package: String,
    pub version: String,
    pub relative_path: String,
}

/// The runtime pointer that activates DSH `version`, installed in the
/// directory `dsh/<version>` below the private root.
pub open spec fn pointer_for(ptr: RuntimePointer, version: Seq<char>) -> bool {
    &&& ptr.format_version == pointer_format()
    &&& ptr.package@ == dsh_package()
    &&& ptr.version@ == version
    &&& ptr.relative_path@ == "dsh/"@ + version
}

/// The pointer that activates DSH `version`.
pub fn runtime_pointer(version: &str) -> (ptr: RuntimePointer)
    ensures
        pointer_for(ptr, version@),
{
    RuntimePointer {
        format_version: 2,
        package: owned("@deepseek-ai/dsh"),
        version: owned(version),
        relative_path: concat("dsh/", version),
    }
}

/// The DSH directory that a pointer leads to: the pointer must have the
/// current format and name the DSH package, and its relative path must stay
/// below the private root.
pub open spec fn pointer_root(paths: PathsView, ptr: RuntimePointer) -> Result<Seq<char>, Seq<char>> {
    if ptr.format_version != pointer_format() || ptr.package@ != dsh_package() {
        Err("The active runtime pointer is invalid."@)
    } else {
        archive_path(paths.root, ptr.relative_path@)
    }
}

/// The DSH directory that a pointer leads to.
pub fn pointer_target(paths: &AppPaths, ptr: &RuntimePointer) -> (r: Result<String, String>)
    ensures
        result_text(r) == pointer_root(paths@, *ptr),
{
    if ptr.format_version != 2 || !same_text(ptr.package.as_str(), "@deepseek-ai/dsh") {
        return Err(owned("The active runtime pointer is invalid."));
    }
    safe_archive_path(paths.root.as_str(), ptr.relative_path.as_str())
}

/// What the pointer written for a version reads back as: it passes the
/// pointer checks and leads to `dsh/<version>` below the private root, as
/// far as that path stays below the root.
pub proof fn lemma_written_pointer_reads_back(paths: PathsView, ptr: RuntimePointer, version: Seq<char>)
    requires
        pointer_for(ptr, version),
    ensures
        pointer_root(paths, ptr) == archive_path(paths.root, "dsh/"@ + version),
        !crate::paths::path_is_absolute("dsh/"@ + version) && !crate::paths::escapes(
            "dsh/"@ + version,
        ) ==> pointer_root(paths, ptr) == Ok::<Seq<char>, Seq<char>>(
            path_join(paths.root, "dsh/"@ + version),
        ),
{
}

/// How a package names its executables: one path, or paths by command.
#[derive(Clone, Debug)]
pub enum PackageBin {
    Single(String),
    ByCommand(Vec<(String, String)>),
}

/// The package manifest of an installed DSH package.
#[derive(Clone, Debug)]
pub struct PackageManifest {
    pub name: String,
    pub version: String,
    pub bin: PackageBin,
}

/// Where an installed package keeps its runtime directory, its package and
/// its manifest.
pub struct CandidateLayout {
    pub runtime_directory: String,
    pub package_root: String,
    pub manifest: String,
}

pub open spec fn runtime_directory_of(dsh_root: Seq<char>) -> Seq<char> {
    path_join(dsh_root, "runtime"@)
}

pub open spec fn package_root_of(dsh_root: Seq<char>) -> Seq<char> {
    path_join(runtime_directory_of(dsh_root), "node_modules/@deepseek-ai/dsh"@)
}

pub open spec fn manifest_of(dsh_root: Seq<char>) -> Seq<char> {
    path_join(package_root_of(dsh_root), "package.json"@)
}

/// The layout of a DSH installation in `dsh_root`.
pub fn candidate_layout(dsh_root: &str) -> (l: CandidateLayout)
    ensures
        l.runtime_directory@ == runtime_directory_of(dsh_root@),
        l.package_root@ == package_root_of(dsh_root@),
        l.manifest@ == manifest_of(dsh_root@),
{
    let runtime_directory = join_path(dsh_root, "runtime");
    let package_root = join_path(runtime_directory.as_str(), "node_modules/@deepseek-ai/dsh");
    let manifest = join_path(package_root.as_str(), "package.json");
    CandidateLayout { runtime_directory, package_root, manifest }
}

/// The value of the first entry with `key`.
pub open spec fn bin_lookup(entries: Seq<(String, String)>, key: Seq<char>) -> Option<Seq<char>>
    decreases entries.len(),
{
    if entries.len() == 0 {
        None
    } else if entries[0].0@ == key {
        Some(entries[0].1@)
    } else {
        bin_lookup(entries.drop_first(), key)
    }
}

/// The relative path of the `dsh` executable that a manifest declares.
pub open spec fn declared_binary(bin: PackageBin) -> Option<Seq<char>> {
    match bin {
        PackageBin::Single(path) => Some(path@),
        PackageBin::ByCommand(entries) => bin_lookup(entries@, "dsh"@),
    }
}

/// The `dsh` executable of an installed package: the manifest must be the
/// DSH package of the declared version, declare a `dsh` executable, and
/// keep it inside the package.
pub open spec fn manifest_binary_path(package_root: Seq<char>, manifest: PackageManifest, declared_version: Seq<char>) -> Result<
    Seq<char>,
    Seq<char>,
> {
    if manifest.name@ != dsh_package() || manifest.version@ != declared_version {
        Err("The active DSH package does not match its pointer."@)
    } else {
        match declared_binary(manifest.bin) {
            None => Err("The DSH package has no dsh binary."@),
            Some(relative) => archive_path(package_root, relative),
        }
    }
}

fn find_binary(entries: &Vec<(String, String)>) -> (r: Option<&String>)
    ensures
        match r {
            Some(path) => bin_lookup(entries@, "dsh"@) == Some(path@),
            None => bin_lookup(entries@, "dsh"@) is None,
        },
{
    let ghost all = entries@;
    assert(all.subrange(0, all.len() as int) =~= all);
    let mut i: usize = 0;
    while i < entries.len()
        invariant
            all == entries@,
            i <= all.len(),
            bin_lookup(all, "dsh"@) == bin_lookup(all.subrange(i as int, all.len() as int), "dsh"@),
        decreases all.len() - i,
    {
        assert(all.subrange(i as int, all.len() as int)[0] == all[i as int]);
        assert(all.subrange(i as int, all.len() as int).drop_first() =~= all.subrange(
            i + 1,
            all.len() as int,
        ));
        if same_text(entries[i].0.as_str(), "dsh") {
            return Some(&entries[i].1);
        }
        i = i + 1;
    }
    None
}

/// The `dsh` executable of an installed package.
pub fn manifest_binary(package_root: &str, manifest: &PackageManifest, declared_version: &str) -> (r: Result<
    String,
    String,
>)
    ensures
        result_text(r) == manifest_binary_path(package_root@, *manifest, declared_version@),
{
    if !same_text(manifest.name.as_str(), "@deepseek-ai/dsh") || !same_text(
        manifest.version.as_str(),
        declared_version,
    ) {
        return Err(owned("The active DSH package does not match its pointer."));
    }
    let relative = match &manifest.bin {
        PackageBin::Single(path) => path,
        PackageBin::ByCommand(entries) => match find_binary(entries) {
            Some(path) => path,
            None => {
                return Err(owned("The DSH package has no dsh binary."));
            },
        },
    };
    safe_archive_path(package_root, relative.as_str())
}

/// A resolved runtime: the private Node executable, the `dsh` script, the
/// DSH version and its runtime directory.
#[derive(Clone, Debug)]
pub struct ResolvedRuntime {
    pub node: String,
    pub dsh: String,
    pub version: String,
    pub runtime_directory: String,
}

/// The error when neither runtime pointer leads to a valid runtime.
pub fn recovery_failure_message(current_error: &str, previous_error: &str) -> (r: String)
    ensures
        r@ == "The current runtime is invalid ("@ + current_error@
            + "); the previous runtime is also invalid ("@ + previous_error@ + ")."@,
{
    let mut r = concat4(
        "The current runtime is invalid (",
        current_error,
        "); the previous runtime is also invalid (",
        previous_error,
    );
    r.append(").");
    r
}

/// What `node --version` prints for the pinned Node.js version.
pub open spec fn node_version_line() -> Seq<char> {
    "v"@ + NODE_VERSION@
}

/// Checks what the private Node executable reported as its version.
pub fn check_node_version_output(output: &str) -> (r: Result<(), String>)
    ensures
        r is Ok <==> trim(output@) == node_version_line(),
        r matches Err(e) ==> e@ == "Node.js reported "@ + trim(output@) + " instead of v"@
            + NODE_VERSION@ + "."@,
{
    let reported = trimmed(output);
    let expected = concat("v", NODE_VERSION);
    if same_text(reported, expected.as_str()) {
        Ok(())
    } else {
        let mut e = concat4("Node.js reported ", reported, " instead of v", NODE_VERSION);
        e.append(".");
        Err(e)
    }
}

/// Whether the private Node executable reported the pinned version.
pub fn node_version_matches(output: &str) -> (r: bool)
    ensures
        r == (trim(output@) == node_version_line()),
{
    let expected = concat("v", NODE_VERSION);
    same_text(trimmed(output), expected.as_str())
}

/// Checks what the DSH script reported as its version.
pub fn check_dsh_version_output(output: &str, version: &str) -> (r: Result<(), String>)
    ensures
        r is Ok <==> trim(output@) == version@,
        r matches Err(e) ==> e@ == "DSH reported "@ + trim(output@) + " instead of "@ + version@
            + "."@,
{
    let reported = trimmed(output);
    if same_text(reported, version) {
        Ok(())
    } else {
        let mut e = concat4("DSH reported ", reported, " instead of ", version);
        e.append(".");
        Err(e)
    }
}

/// The message key shown for a failed setup: the port and startup-timeout
/// failures have their own messages.
pub open spec fn setup_failure_key(error: Seq<char>) -> Seq<char> {
    if error == "Port 3080 is already in use."@ {
        "portInUse"@
    } else if error == "Harness startup timed out."@ {
        "startupTimedOut"@
    } else {
        "failed"@
    }
}

/// The message key shown for a failed setup.
pub fn setup_failure_message_key(error: &str) -> (r: String)
    ensures
        r@ == setup_failure_key(error@),
{
    if same_text(error, "Port 3080 is already in use.") {
        owned("portInUse")
    } else if same_text(error, "Harness startup timed out.") {
        owned("startupTimedOut")
    } else {
        owned("failed")
    }
}

/// The top directory of the pinned Node.js archive.
pub open spec fn node_archive_root_text() -> Seq<char> {
    "node-v"@ + NODE_VERSION@ + "-"@ + RUNTIME_ARCHITECTURE@
}

/// The top directory of the pinned Node.js archive.
pub fn node_archive_root() -> (r: String)
    ensures
        r@ == node_archive_root_text(),
{
    concat4("node-v", NODE_VERSION, "-", RUNTIME_ARCHITECTURE)
}

/// Where the pinned Node.js archive is downloaded from.
pub fn node_archive_url() -> (r: String)
    ensures
        r@ == "https://nodejs.org/dist/v"@ + NODE_VERSION@ + "/"@ + node_archive_root_text()
            + ".zip"@,
{
    let root = node_archive_root();
    let mut r = concat4("https://nodejs.org/dist/v", NODE_VERSION, "/", root.as_str());
    r.append(".zip");
    r
}

/// The fixed staging entries of a first installation: the downloaded Node.js
/// archive, its extraction and the extracted offline seed.
pub open spec fn install_staging_texts(paths: PathsView) -> Seq<Seq<char>> {
    seq![
        path_join(paths.staging, node_archive_root_text() + ".zip"@),
        path_join(paths.staging, "node-extracted"@),
        path_join(paths.staging, "offline-seed"@),
    ]
}

/// The fixed staging entries of a first installation.
pub fn install_staging_paths(paths: &AppPaths) -> (r: Vec<String>)
    ensures
        crate::text::texts(r@) == install_staging_texts(paths@),
{
    let root = node_archive_root();
    let archive = concat(root.as_str(), ".zip");
    let mut r: Vec<String> = Vec::new();
    r.push(join_path(paths.staging.as_str(), archive.as_str()));
    r.push(join_path(paths.staging.as_str(), "node-extracted"));
    r.push(join_path(paths.staging.as_str(), "offline-seed"));
    assert(crate::text::texts(r@) =~= install_staging_texts(paths@));
    r
}

/// Whether a staging entry is a package installation of a first setup.
pub fn is_setup_staging_name(name: &str) -> (r: bool)
    ensures
        r == has_prefix(name@, "setup-"@),
{
    starts_with(name, "setup-")
}

/// The staging directory of a downloaded DSH update.
pub open spec fn staged_update_path(paths: PathsView, version: Seq<char>) -> Seq<char> {
    path_join(paths.staging, "update-"@ + version)
}

/// The staging directory of a downloaded DSH update.
pub fn staged_update_directory(paths: &AppPaths, version: &str) -> (r: String)
    ensures
        r@ == staged_update_path(paths@, version@),
{
    let name = concat("update-", version);
    join_path(paths.staging.as_str(), name.as_str())
}

/// Whether a staging entry is the staged DSH update that the cleanup at
/// start preserves, provided its runtime still resolves.
pub fn is_staged_update_entry(paths: &AppPaths, staged_version: Option<&str>, entry: &str) -> (r: bool)
    ensures
        r == match staged_version {
            Some(version) => entry@ == staged_update_path(paths@, version@),
            None => false,
        },
{
    match staged_version {
        Some(version) => {
            let expected = staged_update_directory(paths, version);
            same_text(entry, expected.as_str())
        },
        None => false,
    }
}

/// The runtime directory inside the staging directory of a DSH update.
pub fn staged_update_runtime(paths: &AppPaths, version: &str) -> (r: String)
    ensures
        r@ == path_join(paths@.staging, "update-"@ + version@ + "/runtime"@),
{
    let name = concat3("update-", version, "/runtime");
    join_path(paths.staging.as_str(), name.as_str())
}

/// The staging directory of a first setup's package installation.
pub fn setup_staging_directory(paths: &AppPaths, version: &str) -> (r: String)
    ensures
        r@ == path_join(paths@.staging, "setup-"@ + version@),
{
    let name = concat("setup-", version);
    join_path(paths.staging.as_str(), name.as_str())
}

/// The lowercase hexadecimal digit of `n`, for `n` below 16.
pub open spec fn hex_digit(n: int) -> char {
    if n < 10 {
        (48 + n) as char
    } else {
        (87 + n) as char
    }
}

/// Bytes in lowercase hexadecimal, two digits per byte, high half first.
pub open spec fn lower_hex(bytes: Seq<u8>) -> Seq<char>
    decreases bytes.len(),
{
    if bytes.len() == 0 {
        Seq::empty()
    } else {
        seq![hex_digit(bytes[0] as int / 16), hex_digit(bytes[0] as int % 16)] + lower_hex(bytes.drop_first())
    }
}

/// `hex::encode`: the bytes in lowercase hexadecimal, two digits for each
/// byte, as the crate documents it.
#[verifier::external_body]
pub(crate) fn hex_encode(bytes: &[u8]) -> (r: String)
    ensures
        r@ == lower_hex(bytes@),
{
    hex::encode(bytes)
}

/// Checks a downloaded archive's SHA-256 digest against the pinned one,
/// given in lowercase hexadecimal.
pub fn check_archive_digest(digest: &[u8], expected_hex: &str) -> (r: Result<(), String>)
    ensures
        r is Ok <==> lower_hex(digest@) == expected_hex@,
        r matches Err(e) ==> e@ == "The downloaded Node.js archive failed SHA-256 verification."@,
{
    let actual = hex_encode(digest);
    if same_text(actual.as_str(), expected_hex) {
        Ok(())
    } else {
        Err(owned("The downloaded Node.js archive failed SHA-256 verification."))
    }
}

/// What SHA-256 gives for `bytes`.
pub uninterp spec fn sha256_digest(bytes: Seq<u8>) -> Seq<u8>;

/// `sha2::Sha256::digest`: the SHA-256 digest of the bytes. The contract
/// names the result; the hash function is not restated.
#[verifier::external_body]
pub(crate) fn sha256(bytes: &[u8]) -> (r: Vec<u8>)
    ensures
        r@ == sha256_digest(bytes@),
{
    <sha2::Sha256 as sha2::Digest>::digest(bytes).to_vec()
}

/// Checks a downloaded Node.js archive against the pinned SHA-256 digest,
/// given in lowercase hexadecimal.
pub fn verify_node_archive(archive: &[u8], expected_hex: &str) -> (r: Result<(), String>)
    ensures
        r is Ok <==> lower_hex(sha256_digest(archive@)) == expected_hex@,
        r matches Err(e) ==> e@ == "The downloaded Node.js archive failed SHA-256 verification."@,
{
    let digest = sha256(archive);
    check_archive_digest(digest.as_slice(), expected_hex)
}

/// The package manifest of the project in which pnpm installs DSH
/// `version`, as `serde_json` writes it with `to_vec_pretty`: the fields in
/// key order, the pinned pnpm as the package manager.
pub open spec fn install_manifest(project: Seq<char>, version: Seq<char>) -> Seq<char> {
    "{\n  \"dependencies\": {\n    \"@deepseek-ai/dsh\": "@ + json_string_text(version)
        + "\n  },\n  \"name\": \""@ + project + "\",\n  \"packageManager\": \"pnpm@"@
        + crate::model::PNPM_VERSION@ + "\",\n  \"private\": true,\n  \"version\": \"1.0.0\"\n}"@
}

/// The project name of a first setup's installation, or of a staged
/// update's.
pub open spec fn install_project(staged: bool) -> Seq<char> {
    if staged {
        "dsh-community-staged-runtime"@
    } else {
        "dsh-community-runtime"@
    }
}

/// The package manifest in which pnpm installs DSH `version`.
pub fn install_manifest_text(staged: bool, version: &str) -> (r: String)
    ensures
        r@ == install_manifest(install_project(staged), version@),
{
    let quoted = json_string(version);
    let mut r = concat3(
        "{\n  \"dependencies\": {\n    \"@deepseek-ai/dsh\": ",
        quoted.as_str(),
        "\n  },\n  \"name\": \"",
    );
    if staged {
        r.append("dsh-community-staged-runtime");
    } else {
        r.append("dsh-community-runtime");
    }
    r.append("\",\n  \"packageManager\": \"pnpm@");
    r.append(crate::model::PNPM_VERSION);
    r.append("\",\n  \"private\": true,\n  \"version\": \"1.0.0\"\n}");
    r
}

/// Checks that pnpm installed the DSH package of the requested version.
pub fn check_installed_package(manifest: &PackageManifest, version: &str) -> (r: Result<(), String>)
    ensures
        r is Ok <==> (manifest.name@ == dsh_package() && manifest.version@ == version@),
        r matches Err(e) ==> e@ == "pnpm installed an unexpected DSH package version."@,
{
    if !same_text(manifest.name.as_str(), "@deepseek-ai/dsh") || !same_text(manifest.version.as_str(), version) {
        return Err(owned("pnpm installed an unexpected DSH package version."));
    }
    Ok(())
}

/// The error of a command that exited unsuccessfully: its error output, or
/// its standard output when it wrote no errors.
pub fn command_failure_message(program: &str, status: &str, stdout: &str, stderr: &str) -> (r: String)
    ensures
        r@ == program@ + " exited with "@ + status@ + ": "@ + (if stderr@.len() == 0 {
            stdout@
        } else {
            stderr@
        }),
{
    let mut r = concat4(program, " exited with ", status, ": ");
    if stderr.is_empty() {
        r.append(stdout);
    } else {
        r.append(stderr);
    }
    r
}

/// The error of a command that did not finish in time.
pub fn timed_out_message(program: &str) -> (r: String)
    ensures
        r@ == program@ + " timed out."@,
{
    concat(program, " timed out.")
}

/// Whether an output line carries anything besides whitespace.
pub fn is_blank(line: &str) -> (r: bool)
    ensures
        r == (trim(line@).len() == 0),
{
    trimmed(line).is_empty()
}

/// The setup percentage while the Node.js archive downloads: from 10 to 44
/// as the received bytes approach the announced length.
pub fn download_percent(received: u64, total: u64) -> (r: crate::model::Percent)
    requires
        total > 0,
    ensures
        r.denominator == total,
        r.numerator == 10 * total + 34 * received,
{
    crate::model::Percent { numerator: 10 * (total as u128) + 34 * (received as u128), denominator: total }
}

/// What `Path::components` gives for `p` split after its first component:
/// the first component's text and the rest as a path, or `None` for an
/// empty path.
pub uninterp spec fn path_first_component(p: Seq<char>) -> Option<(Seq<char>, Seq<char>)>;

/// `Path::components`, the first one taken and the rest collected back into
/// a path. The contract names the result.
#[verifier::external_body]
pub(crate) fn split_first_component(p: &str) -> (r: Option<(String, String)>)
    ensures
        match r {
            Some((first, rest)) => path_first_component(p@) == Some((first@, rest@)),
            None => path_first_component(p@) is None,
        },
{
    let mut components = std::path::Path::new(p).components();
    let first = components.next()?;
    let rest: std::path::PathBuf = components.collect();
    Some((first.as_os_str().to_string_lossy().into_owned(), rest.to_string_lossy().into_owned()))
}

/// Where an entry of the Node.js archive is extracted: every entry must lie
/// in the archive's top directory; the top directory itself is skipped, and
/// the rest of the entry must stay below the destination.
pub open spec fn node_entry_target(destination: Seq<char>, entry: Seq<char>) -> Result<Option<Seq<char>>, Seq<char>> {
    match path_first_component(entry) {
        None => Err("The Node archive contains an empty path."@),
        Some((first, rest)) => if first != node_archive_root_text() {
            Err("The Node archive has an unexpected root directory."@)
        } else if rest.len() == 0 {
            Ok(None)
        } else {
            match archive_path(destination, rest) {
                Ok(target) => Ok(Some(target)),
                Err(e) => Err(e),
            }
        },
    }
}

/// Where an entry of the Node.js archive is extracted, if anywhere.
pub fn node_archive_entry_path(destination: &str, entry: &str) -> (r: Result<Option<String>, String>)
    ensures
        match r {
            Ok(Some(t)) => node_entry_target(destination@, entry@) == Ok::<Option<Seq<char>>, Seq<char>>(Some(t@)),
            Ok(None) => node_entry_target(destination@, entry@) == Ok::<Option<Seq<char>>, Seq<char>>(None),
            Err(e) => node_entry_target(destination@, entry@) == Err::<Option<Seq<char>>, Seq<char>>(e@),
        },
{
    let (first, rest) = match split_first_component(entry) {
        Some(parts) => parts,
        None => {
            return Err(owned("The Node archive contains an empty path."));
        },
    };
    let root = node_archive_root();
    if !same_text(first.as_str(), root.as_str()) {
        return Err(owned("The Node archive has an unexpected root directory."));
    }
    if rest.as_str().is_empty() {
        return Ok(None);
    }
    match safe_archive_path(destination, rest.as_str()) {
        Ok(target) => Ok(Some(target)),
        Err(e) => Err(e),
    }
}

} // verus!
