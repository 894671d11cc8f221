//! Progress of a pnpm installation, read from its NDJSON reporter output,
//! and the command line that starts it.
use vstd::prelude::*;

use crate::model::{Percent, whole_percent};
use crate::json::{
    json_field_rendering, json_field_str, json_field_text, json_field_u64, json_str_field,
    json_u64_field,
};
use crate::paths::{AppPaths, corepack_cli_path};
use crate::text::{concat, has_prefix, same_text, starts_with, texts};

verus! {

/// How far a pnpm installation has come; the stages only move forward.
#[derive(Clone, Copy, Debug, PartialEq, Eq, Structural, PartialOrd, Ord, Hash)]
pub enum PnpmStage {
    Preparing,
    Resolving,
    Importing,
    Lifecycle,
}

/// The position of a stage in the order of an installation.
pub open spec fn stage_rank(stage: PnpmStage) -> int {
    match stage {
        PnpmStage::Preparing => 0,
        PnpmStage::Resolving => 1,
        PnpmStage::Importing => 2,
        PnpmStage::Lifecycle => 3,
    }
}

/// The later of two stages.
pub open spec fn later(a: PnpmStage, b: PnpmStage) -> PnpmStage {
    if stage_rank(a) >= stage_rank(b) {
        a
    } else {
        b
    }
}

impl PnpmStage {
    /// The later of this stage and `other`, as `Ord::max`.
    pub fn max(self, other: PnpmStage) -> (r: PnpmStage)
        ensures
            r == later(self, other),
    {
        let a: u8 = match self {
            PnpmStage::Preparing => 0,
            PnpmStage::Resolving => 1,
            PnpmStage::Importing => 2,
            PnpmStage::Lifecycle => 3,
        };
        let b: u8 = match other {
            PnpmStage::Preparing => 0,
            PnpmStage::Resolving => 1,
            PnpmStage::Importing => 2,
            PnpmStage::Lifecycle => 3,
        };
        if a >= b {
            self
        } else {
            other
        }
    }
}

impl Default for PnpmStage {
    fn default() -> (r: PnpmStage)
        ensures
            r == PnpmStage::Preparing,
    {
        PnpmStage::Preparing
    }
}

/// What the installation has done so far.
#[derive(Clone, Copy, Debug, PartialEq, Eq, Structural)]
pub struct PnpmProgress {
    pub stage: PnpmStage,
    pub resolved_items: u64,
    pub reused_items: u64,
    pub downloaded_items: u64,
    pub added_items: u64,
    pub total_items: Option<u64>,
    pub elapsed_seconds: u64,
}

/// The progress of an installation that has not reported anything.
pub open spec fn initial_progress() -> PnpmProgress {
    PnpmProgress {
        stage: PnpmStage::Preparing,
        resolved_items: 0,
        reused_items: 0,
        downloaded_items: 0,
        added_items: 0,
        total_items: None,
        elapsed_seconds: 0,
    }
}

impl Default for PnpmProgress {
    fn default() -> (r: PnpmProgress)
        ensures
            r == initial_progress(),
    {
        PnpmProgress {
            stage: PnpmStage::Preparing,
            resolved_items: 0,
            reused_items: 0,
            downloaded_items: 0,
            added_items: 0,
            total_items: None,
            elapsed_seconds: 0,
        }
    }
}

/// The share of the setup that an installation at `p` stands for: 5 while
/// preparing, 10 while resolving without a known total, from 25 to 80 as
/// packages are added against the known total, 80 for an empty total and
/// 85 while install scripts run.
pub open spec fn progress_percent(p: PnpmProgress) -> Percent {
    match p.stage {
        PnpmStage::Preparing => whole_percent(5),
        PnpmStage::Lifecycle => whole_percent(85),
        _ => match p.total_items {
            None => whole_percent(10),
            Some(total) => if total == 0 {
                whole_percent(80)
            } else {
                let added = if p.added_items <= total {
                    p.added_items
                } else {
                    total
                };
                Percent { numerator: (25 * total + 55 * added) as u128, denominator: total }
            },
        },
    }
}

impl PnpmProgress {
    /// The share of the setup that this progress stands for.
    pub fn percent(&self) -> (r: Percent)
        ensures
            r == progress_percent(*self),
    {
        match self.stage {
            PnpmStage::Preparing => Percent::whole(5),
            PnpmStage::Lifecycle => Percent::whole(85),
            _ => match self.total_items {
                None => Percent::whole(10),
                Some(total) => {
                    if total == 0 {
                        Percent::whole(80)
                    } else {
                        let added = if self.added_items <= total {
                            self.added_items
                        } else {
                            total
                        };
                        let numerator: u128 = 25 * (total as u128) + 55 * (added as u128);
                        Percent { numerator, denominator: total }
                    }
                },
            },
        }
    }
}

/// The message shown for an installation in `stage`.
pub open spec fn stage_message(stage: PnpmStage) -> Seq<char> {
    match stage {
        PnpmStage::Preparing => "preparingPackageManager"@,
        PnpmStage::Resolving => "resolvingDependencies"@,
        PnpmStage::Importing => "installingPackages"@,
        PnpmStage::Lifecycle => "runningInstallScripts"@,
    }
}

/// The message key shown for an installation in `stage`.
pub fn stage_message_key(stage: PnpmStage) -> (r: String)
    ensures
        r@ == stage_message(stage),
{
    let key = match stage {
        PnpmStage::Preparing => "preparingPackageManager",
        PnpmStage::Resolving => "resolvingDependencies",
        PnpmStage::Importing => "installingPackages",
        PnpmStage::Lifecycle => "runningInstallScripts",
    };
    proof {
        reveal_strlit("preparingPackageManager");
        reveal_strlit("resolvingDependencies");
        reveal_strlit("installingPackages");
        reveal_strlit("runningInstallScripts");
    }
    String::from_str(key)
}

/// A list of texts with `key` added unless it is there already.
pub open spec fn insert_distinct(s: Seq<Seq<char>>, key: Seq<char>) -> Seq<Seq<char>> {
    if s.contains(key) {
        s
    } else {
        s.push(key)
    }
}

/// The abstract state of a progress parser: the progress it reports and the
/// distinct package keys seen in each status.
pub struct ParserView {
    pub state: PnpmProgress,
    pub resolved: Seq<Seq<char>>,
    pub reused: Seq<Seq<char>>,
    pub downloaded: Seq<Seq<char>>,
    pub added: Seq<Seq<char>>,
}

/// The key under which a progress line counts its package: the JSON of its
/// `packageId`, `pkgId` or `package` field, the first that is present, or
/// else the whole line.
pub open spec fn package_key(line: Seq<char>) -> Seq<char> {
    match json_field_rendering(line, "packageId"@) {
        Some(k) => k,
        None => match json_field_rendering(line, "pkgId"@) {
            Some(k) => k,
            None => match json_field_rendering(line, "package"@) {
                Some(k) => k,
                None => line,
            },
        },
    }
}

/// The state with its counts taken from the key lists and the time set.
pub open spec fn with_counts(v: ParserView, elapsed: u64) -> ParserView {
    ParserView {
        state: PnpmProgress {
            resolved_items: v.resolved.len() as u64,
            reused_items: v.reused.len() as u64,
            downloaded_items: v.downloaded.len() as u64,
            added_items: v.added.len() as u64,
            elapsed_seconds: elapsed,
            ..v.state
        },
        ..v
    }
}

/// The state with its stage moved to at least `stage`.
pub open spec fn advanced(v: ParserView, stage: PnpmStage) -> ParserView {
    ParserView { state: PnpmProgress { stage: later(v.state.stage, stage), ..v.state }, ..v }
}

/// A reported step: the new state, counted, and its progress as the report.
pub open spec fn reported(v: ParserView, elapsed: u64) -> (ParserView, Option<PnpmProgress>) {
    (with_counts(v, elapsed), Some(with_counts(v, elapsed).state))
}

/// The fields of a reporter line that the parser reads: its event `name`,
/// the `status` of a progress event, the key of its package, the `added`
/// count of a stats event and the `stage` of a stage event.
pub struct PnpmEventView {
    pub name: Option<Seq<char>>,
    pub status: Option<Seq<char>>,
    pub key: Seq<char>,
    pub added: Option<u64>,
    pub stage: Option<Seq<char>>,
}

/// A reporter line, read.
#[derive(Clone, Debug)]
pub struct PnpmEvent {
    pub name: Option<String>,
    pub status: Option<String>,
    pub key: String,
    pub added: Option<u64>,
    pub stage: Option<String>,
}

impl View for PnpmEvent {
    type V = PnpmEventView;

    open spec fn view(&self) -> PnpmEventView {
        PnpmEventView {
            name: crate::model::optional_text(self.name),
            status: crate::model::optional_text(self.status),
            key: self.key@,
            added: self.added,
            stage: crate::model::optional_text(self.stage),
        }
    }
}

/// What `serde_json` reads from a reporter line: its string fields `name`,
/// `status` and `stage`, its unsigned `added`, and its package key.
pub open spec fn event_of(line: Seq<char>) -> PnpmEventView {
    PnpmEventView {
        name: json_field_str(line, "name"@),
        status: json_field_str(line, "status"@),
        key: package_key(line),
        added: json_field_u64(line, "added"@),
        stage: json_field_str(line, "stage"@),
    }
}

/// What reading one reporter line does: the event it holds, observed.
pub open spec fn observe_line(v: ParserView, line: Seq<char>, elapsed: u64) -> (
    ParserView,
    Option<PnpmProgress>,
) {
    observe_event_view(v, event_of(line), elapsed)
}

fn optional_string(o: Option<String>) -> (r: Option<String>)
    ensures
        crate::model::optional_text(r) == crate::model::optional_text(o),
{
    o
}

/// Reads the fields of one reporter line with `serde_json`.
pub fn parse_event(line: &str) -> (e: PnpmEvent)
    ensures
        e@ == event_of(line@),
{
    let key = match json_field_text(line, "packageId") {
        Some(k) => k,
        None => match json_field_text(line, "pkgId") {
            Some(k) => k,
            None => match json_field_text(line, "package") {
                Some(k) => k,
                None => String::from_str(line),
            },
        },
    };
    PnpmEvent {
        name: optional_string(json_str_field(line, "name")),
        status: optional_string(json_str_field(line, "status")),
        key,
        added: json_u64_field(line, "added"),
        stage: optional_string(json_str_field(line, "stage")),
    }
}

/// What one reporter event does: the parser's next state and the progress
/// it reports, if the event is a pnpm event that the parser follows.
pub open spec fn observe_event_view(v: ParserView, e: PnpmEventView, elapsed: u64) -> (
    ParserView,
    Option<PnpmProgress>,
) {
    match e.name {
        None => (v, None),
        Some(name) => if name == "pnpm:progress"@ {
            let v1 = advanced(v, PnpmStage::Resolving);
            match e.status {
                None => (v1, None),
                Some(status) => {
                    let key = e.key;
                    if status == "resolved"@ {
                        reported(ParserView { resolved: insert_distinct(v1.resolved, key), ..v1 }, elapsed)
                    } else if status == "found_in_store"@ {
                        reported(ParserView { reused: insert_distinct(v1.reused, key), ..v1 }, elapsed)
                    } else if status == "fetched"@ {
                        reported(
                            ParserView { downloaded: insert_distinct(v1.downloaded, key), ..v1 },
                            elapsed,
                        )
                    } else if status == "imported"@ {
                        let v2 = advanced(v1, PnpmStage::Importing);
                        reported(ParserView { added: insert_distinct(v2.added, key), ..v2 }, elapsed)
                    } else {
                        (v1, None)
                    }
                },
            }
        } else if name == "pnpm:stats"@ {
            let v1 = advanced(v, PnpmStage::Importing);
            reported(
                ParserView {
                    state: PnpmProgress {
                        total_items: e.added,
                        ..v1.state
                    },
                    ..v1
                },
                elapsed,
            )
        } else if name == "pnpm:stage"@ {
            let importing = match e.stage {
                Some(stage) => has_prefix(stage, "importing"@),
                None => false,
            };
            if importing {
                reported(advanced(v, PnpmStage::Importing), elapsed)
            } else {
                reported(v, elapsed)
            }
        } else if name == "pnpm:lifecycle"@ {
            reported(advanced(v, PnpmStage::Lifecycle), elapsed)
        } else {
            (v, None)
        },
    }
}

/// Reads pnpm's NDJSON reporter output and keeps count of the distinct
/// packages that it resolves, reuses from the store, downloads and adds.
pub struct PnpmProgressParser {
    state: PnpmProgress,
    resolved: Vec<String>,
    reused: Vec<String>,
    downloaded: Vec<String>,
    added: Vec<String>,
}

impl View for PnpmProgressParser {
    type V = ParserView;

    closed spec fn view(&self) -> ParserView {
        ParserView {
            state: self.state,
            resolved: texts(self.resolved@),
            reused: texts(self.reused@),
            downloaded: texts(self.downloaded@),
            added: texts(self.added@),
        }
    }
}

/// The parser's own invariant: no key is counted twice, and the counts in
/// its progress are the numbers of keys.
pub open spec fn parser_consistent(v: ParserView) -> bool {
    &&& v.resolved.no_duplicates()
    &&& v.reused.no_duplicates()
    &&& v.downloaded.no_duplicates()
    &&& v.added.no_duplicates()
    &&& v.state.resolved_items == v.resolved.len()
    &&& v.state.reused_items == v.reused.len()
    &&& v.state.downloaded_items == v.downloaded.len()
    &&& v.state.added_items == v.added.len()
}

/// Adds `key` to a list of distinct keys unless it is there already.
fn add_key(keys: &mut Vec<String>, key: String)
    requires
        texts(old(keys)@).no_duplicates(),
    ensures
        texts(final(keys)@) == insert_distinct(texts(old(keys)@), key@),
        texts(final(keys)@).no_duplicates(),
{
    let mut i: usize = 0;
    while i < keys.len()
        invariant
            keys@ == old(keys)@,
            texts(keys@).no_duplicates(),
            i <= keys@.len(),
            forall|j: int| 0 <= j < i ==> keys@[j]@ != key@,
        decreases keys@.len() - i,
    {
        if keys[i] == key {
            assert(texts(keys@)[i as int] == key@);
            assert(texts(keys@).contains(key@));
            return;
        }
        i = i + 1;
    }
    assert(!texts(keys@).contains(key@)) by {
        if texts(keys@).contains(key@) {
            let j = choose|j: int| 0 <= j < texts(keys@).len() && texts(keys@)[j] == key@;
            assert(keys@[j]@ == key@);
        }
    }
    let ghost before = keys@;
    keys.push(key);
    assert(texts(keys@) =~= texts(before).push(key@));
}

impl PnpmProgressParser {
    /// A parser that has read nothing.
    pub fn new() -> (p: PnpmProgressParser)
        ensures
            p@.state == initial_progress(),
            p@.resolved.len() == 0,
            p@.reused.len() == 0,
            p@.downloaded.len() == 0,
            p@.added.len() == 0,
            parser_consistent(p@),
    {
        let p = PnpmProgressParser {
            state: PnpmProgress::default(),
            resolved: Vec::new(),
            reused: Vec::new(),
            downloaded: Vec::new(),
            added: Vec::new(),
        };
        assert(texts(p.resolved@) =~= Seq::<Seq<char>>::empty());
        assert(texts(p.reused@) =~= Seq::<Seq<char>>::empty());
        assert(texts(p.downloaded@) =~= Seq::<Seq<char>>::empty());
        assert(texts(p.added@) =~= Seq::<Seq<char>>::empty());
        p
    }

    /// The parser's invariant, on its fields.
    pub open spec fn consistent(&self) -> bool {
        parser_consistent(self@)
    }

    fn counts_of(&mut self, elapsed_seconds: u64)
        ensures
            final(self)@ == with_counts(old(self)@, elapsed_seconds),
            final(self)@.state.resolved_items == final(self)@.resolved.len(),
            final(self)@.state.reused_items == final(self)@.reused.len(),
            final(self)@.state.downloaded_items == final(self)@.downloaded.len(),
            final(self)@.state.added_items == final(self)@.added.len(),
    {
        assert(texts(self.resolved@).len() == self.resolved@.len());
        assert(texts(self.reused@).len() == self.reused@.len());
        assert(texts(self.downloaded@).len() == self.downloaded@.len());
        assert(texts(self.added@).len() == self.added@.len());
        self.state.resolved_items = self.resolved.len() as u64;
        self.state.reused_items = self.reused.len() as u64;
        self.state.downloaded_items = self.downloaded.len() as u64;
        self.state.added_items = self.added.len() as u64;
        self.state.elapsed_seconds = elapsed_seconds;
    }

    /// Reads one line of reporter output. A pnpm progress, stats, stage or
    /// lifecycle event updates the state and returns the new progress;
    /// anything else returns `None`, though a progress event of an unknown
    /// status still moves the stage on to resolving.
    pub fn observe(&mut self, line: &str, elapsed_seconds: u64) -> (r: Option<PnpmProgress>)
        requires
            old(self).consistent(),
        ensures
            (final(self)@, r) == observe_line(old(self)@, line@, elapsed_seconds),
            final(self).consistent(),
    {
        let event = parse_event(line);
        self.observe_event(&event, elapsed_seconds)
    }

    /// Observes one reporter event, as `observe` does for the line that
    /// holds it.
    pub fn observe_event(&mut self, event: &PnpmEvent, elapsed_seconds: u64) -> (r: Option<
        PnpmProgress,
    >)
        requires
            old(self).consistent(),
        ensures
            (final(self)@, r) == observe_event_view(old(self)@, event@, elapsed_seconds),
            final(self).consistent(),
    {
        let name = match &event.name {
            Some(name) => name.as_str(),
            None => return None,
        };
        if same_text(name, "pnpm:progress") {
            self.state.stage = self.state.stage.max(PnpmStage::Resolving);
            let status = match &event.status {
                Some(status) => status.as_str(),
                None => return None,
            };
            let key = event.key.clone();
            if same_text(status, "resolved") {
                add_key(&mut self.resolved, key);
            } else if same_text(status, "found_in_store") {
                add_key(&mut self.reused, key);
            } else if same_text(status, "fetched") {
                add_key(&mut self.downloaded, key);
            } else if same_text(status, "imported") {
                self.state.stage = self.state.stage.max(PnpmStage::Importing);
                add_key(&mut self.added, key);
            } else {
                return None;
            }
        } else if same_text(name, "pnpm:stats") {
            self.state.stage = self.state.stage.max(PnpmStage::Importing);
            self.state.total_items = event.added;
        } else if same_text(name, "pnpm:stage") {
            let importing = match &event.stage {
                Some(stage) => starts_with(stage.as_str(), "importing"),
                None => false,
            };
            if importing {
                self.state.stage = self.state.stage.max(PnpmStage::Importing);
            }
        } else if same_text(name, "pnpm:lifecycle") {
            self.state.stage = self.state.stage.max(PnpmStage::Lifecycle);
        } else {
            return None;
        }
        self.counts_of(elapsed_seconds);
        Some(self.state)
    }
}

impl Default for PnpmProgressParser {
    fn default() -> (p: PnpmProgressParser)
        ensures
            p@.state == initial_progress(),
            p@.resolved.len() == 0,
            p@.reused.len() == 0,
            p@.downloaded.len() == 0,
            p@.added.len() == 0,
            parser_consistent(p@),
    {
        PnpmProgressParser::new()
    }
}

/// The texts of the arguments that start pnpm through the private corepack:
/// an install of the production dependencies, reported as NDJSON, with a
/// hoisted, copied layout and the private package store.
pub open spec fn pnpm_argument_texts(paths: crate::paths::PathsView) -> Seq<Seq<char>> {
    seq![
        corepack_cli_path(paths),
        "pnpm"@,
        "install"@,
        "--ignore-workspace"@,
        "--prod"@,
        "--reporter=ndjson"@,
        "--config.node-linker=hoisted"@,
        "--config.package-import-method=copy"@,
        "--config.auto-install-peers=true"@,
        "--config.confirm-modules-purge=false"@,
        "--dangerously-allow-all-builds"@,
        "--registry=https://registry.npmjs.org/"@,
        "--store-dir="@ + paths.pnpm_store,
    ]
}

/// The arguments that start pnpm, given to the private Node executable.
pub fn pnpm_arguments(paths: &AppPaths) -> (args: Vec<String>)
    ensures
        texts(args@) == pnpm_argument_texts(paths@),
{
    let mut args: Vec<String> = Vec::new();
    args.push(paths.corepack_cli());
    args.push(String::from_str("pnpm"));
    args.push(String::from_str("install"));
    args.push(String::from_str("--ignore-workspace"));
    args.push(String::from_str("--prod"));
    args.push(String::from_str("--reporter=ndjson"));
    args.push(String::from_str("--config.node-linker=hoisted"));
    args.push(String::from_str("--config.package-import-method=copy"));
    args.push(String::from_str("--config.auto-install-peers=true"));
    args.push(String::from_str("--config.confirm-modules-purge=false"));
    args.push(String::from_str("--dangerously-allow-all-builds"));
    args.push(String::from_str("--registry=https://registry.npmjs.org/"));
    args.push(concat("--store-dir=", paths.pnpm_store.as_str()));
    assert(texts(args@) =~= pnpm_argument_texts(paths@));
    args
}

/// Whether the state `w` is `v` moved forward: a stage no earlier, every key
/// list extended at its end, and counts and total kept in step with the
/// lists.
pub open spec fn moved_forward(v: ParserView, w: ParserView) -> bool {
    &&& stage_rank(w.state.stage) >= stage_rank(v.state.stage)
    &&& v.resolved.is_prefix_of(w.resolved)
    &&& v.reused.is_prefix_of(w.reused)
    &&& v.downloaded.is_prefix_of(w.downloaded)
    &&& v.added.is_prefix_of(w.added)
}

/// Reading a line never moves an installation backwards: the stage does not
/// go back and no counted package is forgotten, so no count decreases.
pub proof fn lemma_observe_moves_forward(v: ParserView, line: Seq<char>, elapsed: u64)
    requires
        parser_consistent(v),
        v.resolved.len() < u64::MAX,
        v.reused.len() < u64::MAX,
        v.downloaded.len() < u64::MAX,
        v.added.len() < u64::MAX,
    ensures
        moved_forward(v, observe_line(v, line, elapsed).0),
        observe_line(v, line, elapsed).0.state.resolved_items >= v.state.resolved_items,
        observe_line(v, line, elapsed).0.state.reused_items >= v.state.reused_items,
        observe_line(v, line, elapsed).0.state.downloaded_items >= v.state.downloaded_items,
        observe_line(v, line, elapsed).0.state.added_items >= v.state.added_items,
{
    reveal_strlit("name");
    reveal_strlit("status");
    reveal_strlit("pnpm:progress");
    reveal_strlit("pnpm:stats");
    reveal_strlit("pnpm:stage");
    reveal_strlit("pnpm:lifecycle");
    reveal_strlit("resolved");
    reveal_strlit("found_in_store");
    reveal_strlit("fetched");
    reveal_strlit("imported");
    let key = package_key(line);
    assert(v.resolved.is_prefix_of(insert_distinct(v.resolved, key)));
    assert(v.reused.is_prefix_of(insert_distinct(v.reused, key)));
    assert(v.downloaded.is_prefix_of(insert_distinct(v.downloaded, key)));
    assert(v.added.is_prefix_of(insert_distinct(v.added, key)));
    assert(v.resolved.is_prefix_of(v.resolved));
    assert(v.reused.is_prefix_of(v.reused));
    assert(v.downloaded.is_prefix_of(v.downloaded));
    assert(v.added.is_prefix_of(v.added));
}

/// A line that is not JSON with a `name`, or names no pnpm event that the
/// parser follows, is ignored: the parser stays as it was and reports
/// nothing.
pub proof fn lemma_unrelated_lines_are_ignored(v: ParserView, line: Seq<char>, elapsed: u64)
    requires
        match json_field_str(line, "name"@) {
            None => true,
            Some(name) => name != "pnpm:progress"@ && name != "pnpm:stats"@ && name
                != "pnpm:stage"@ && name != "pnpm:lifecycle"@,
        },
    ensures
        observe_line(v, line, elapsed) == (v, None::<PnpmProgress>),
{
}

/// Counting is by distinct package: reading the same progress line a second
/// time reports the same counts as the first time.
pub proof fn lemma_repeated_progress_counts_once(v: ParserView, line: Seq<char>, e1: u64, e2: u64)
    requires
        parser_consistent(v),
        json_field_str(line, "name"@) == Some("pnpm:progress"@),
    ensures
        ({
            let (w1, r1) = observe_line(v, line, e1);
            let (w2, r2) = observe_line(w1, line, e2);
            &&& w2.resolved == w1.resolved
            &&& w2.reused == w1.reused
            &&& w2.downloaded == w1.downloaded
            &&& w2.added == w1.added
            &&& w2.state.resolved_items == w1.state.resolved_items
            &&& w2.state.reused_items == w1.state.reused_items
            &&& w2.state.downloaded_items == w1.state.downloaded_items
            &&& w2.state.added_items == w1.state.added_items
        }),
{
    reveal_strlit("name");
    reveal_strlit("status");
    reveal_strlit("pnpm:progress");
    reveal_strlit("resolved");
    reveal_strlit("found_in_store");
    reveal_strlit("fetched");
    reveal_strlit("imported");
    let key = package_key(line);
    assert(insert_distinct(v.resolved, key).contains(key)) by {
        if !v.resolved.contains(key) {
            assert(v.resolved.push(key)[v.resolved.len() as int] == key);
        }
    }
    assert(insert_distinct(v.reused, key).contains(key)) by {
        if !v.reused.contains(key) {
            assert(v.reused.push(key)[v.reused.len() as int] == key);
        }
    }
    assert(insert_distinct(v.downloaded, key).contains(key)) by {
        if !v.downloaded.contains(key) {
            assert(v.downloaded.push(key)[v.downloaded.len() as int] == key);
        }
    }
    assert(insert_distinct(v.added, key).contains(key)) by {
        if !v.added.contains(key) {
            assert(v.added.push(key)[v.added.len() as int] == key);
        }
    }
}

/// Each pnpm event moves the installation to the stage it belongs to: a
/// progress event to at least resolving, an imported package and a stats
/// event to at least importing, a lifecycle event to the lifecycle stage.
/// A stats event is reported with the total that it announces, and a
/// lifecycle event is always reported.
pub proof fn lemma_events_move_to_their_stage(v: ParserView, line: Seq<char>, elapsed: u64)
    ensures
        json_field_str(line, "name"@) == Some("pnpm:progress"@) ==> stage_rank(
            observe_line(v, line, elapsed).0.state.stage,
        ) >= 1,
        json_field_str(line, "name"@) == Some("pnpm:progress"@) && json_field_str(line, "status"@)
            == Some("imported"@) ==> stage_rank(observe_line(v, line, elapsed).0.state.stage) >= 2
            && observe_line(v, line, elapsed).1 is Some,
        json_field_str(line, "name"@) == Some("pnpm:stats"@) ==> {
            let (w, r) = observe_line(v, line, elapsed);
            &&& stage_rank(w.state.stage) >= 2
            &&& stage_rank(w.state.stage) >= stage_rank(v.state.stage)
            &&& w.state.total_items == json_field_u64(line, "added"@)
            &&& r == Some(w.state)
        },
        json_field_str(line, "name"@) == Some("pnpm:lifecycle"@) ==> {
            let (w, r) = observe_line(v, line, elapsed);
            &&& w.state.stage == PnpmStage::Lifecycle
            &&& r == Some(w.state)
        },
{
    reveal_strlit("pnpm:progress");
    reveal_strlit("pnpm:stats");
    reveal_strlit("pnpm:stage");
    reveal_strlit("pnpm:lifecycle");
    reveal_strlit("resolved");
    reveal_strlit("found_in_store");
    reveal_strlit("fetched");
    reveal_strlit("imported");
    let e = event_of(line);
    if e.name == Some("pnpm:progress"@) && e.status == Some("imported"@) {
        let v1 = advanced(v, PnpmStage::Resolving);
        let v2 = advanced(v1, PnpmStage::Importing);
        assert("imported"@ != "resolved"@) by {
            assert("imported"@[0] != "resolved"@[0]);
        }
        assert("imported"@.len() != "found_in_store"@.len());
        assert("imported"@.len() != "fetched"@.len());
        assert(stage_rank(v2.state.stage) >= 2);
    }
    if e.name == Some("pnpm:stats"@) {
        assert("pnpm:stats"@.len() != "pnpm:progress"@.len());
        let v1 = advanced(v, PnpmStage::Importing);
        assert(stage_rank(v1.state.stage) >= 2);
    }
    if e.name == Some("pnpm:lifecycle"@) {
        assert("pnpm:lifecycle"@.len() != "pnpm:progress"@.len());
        assert("pnpm:lifecycle"@.len() != "pnpm:stats"@.len());
        assert("pnpm:lifecycle"@.len() != "pnpm:stage"@.len());
        assert(advanced(v, PnpmStage::Lifecycle).state.stage == PnpmStage::Lifecycle);
    }
}

} // verus!
