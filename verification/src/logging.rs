//! The log: the recent lines kept in memory, and which log files are
//! removed to keep the log directory within its age and size quota.
use std::collections::VecDeque;

use vstd::prelude::*;

use crate::model::LogLine;
use crate::text::{ends_with, has_prefix, has_suffix, starts_with};

verus! {

broadcast use vstd::seq_lib::group_to_multiset_ensures;

/// The last `capacity` items of `s`, or all of them.
pub open spec fn keep_last<T>(s: Seq<T>, capacity: nat) -> Seq<T> {
    if s.len() > capacity {
        s.skip(s.len() - capacity)
    } else {
        s
    }
}

/// The most recent items of a stream, at most `capacity` of them.
pub struct RecentLines<T> {
    items: VecDeque<T>,
    capacity: usize,
}

impl<T> RecentLines<T> {
    /// The items kept, oldest first.
    pub closed spec fn items(&self) -> Seq<T> {
        self.items@
    }

    /// How many items are kept at most.
    pub closed spec fn limit(&self) -> nat {
        self.capacity as nat
    }

    /// Never more items than the limit, and room for at least one.
    pub closed spec fn wf(&self) -> bool {
        &&& self.capacity > 0
        &&& self.items@.len() <= self.capacity
    }

    /// Keeps the last `capacity` items.
    pub fn new(capacity: usize) -> (r: RecentLines<T>)
        requires
            capacity > 0,
        ensures
            r.wf(),
            r.items() == Seq::<T>::empty(),
            r.limit() == capacity,
    {
        RecentLines { items: VecDeque::new(), capacity }
    }

    /// Adds an item, dropping the oldest one when the limit is reached.
    pub fn push(&mut self, item: T)
        requires
            old(self).wf(),
        ensures
            final(self).wf(),
            final(self).limit() == old(self).limit(),
            final(self).items() == keep_last(old(self).items().push(item), old(self).limit()),
    {
        let ghost before = self.items@;
        if self.items.len() == self.capacity {
            let _ = self.items.pop_front();
        }
        self.items.push_back(item);
        assert(self.items@ =~= keep_last(before.push(item), self.capacity as nat));
    }

    /// The number of items kept.
    pub fn len(&self) -> (n: usize)
        ensures
            n == self.items().len(),
    {
        self.items.len()
    }
}

/// Keeping the last items as they arrive keeps the last items of the whole
/// stream: pushing into the kept window gives the window of the longer
/// stream.
pub proof fn lemma_window_of_stream<T>(stream: Seq<T>, item: T, capacity: nat)
    requires
        capacity > 0,
    ensures
        keep_last(keep_last(stream, capacity).push(item), capacity) == keep_last(
            stream.push(item),
            capacity,
        ),
{
    assert(keep_last(keep_last(stream, capacity).push(item), capacity) =~= keep_last(
        stream.push(item),
        capacity,
    ));
}

impl RecentLines<LogLine> {
    /// Copies of the kept log lines, oldest first.
    pub fn recent(&self) -> (r: Vec<LogLine>)
        requires
            self.wf(),
        ensures
            r@.len() == self.items().len(),
            forall|i: int|
                0 <= i < r@.len() ==> {
                    &&& (#[trigger] r@[i]).timestamp@ == self.items()[i].timestamp@
                    &&& r@[i].source@ == self.items()[i].source@
                    &&& r@[i].line@ == self.items()[i].line@
                },
    {
        let mut r: Vec<LogLine> = Vec::new();
        let mut i: usize = 0;
        while i < self.items.len()
            invariant
                i <= self.items@.len(),
                r@.len() == i,
                forall|j: int|
                    0 <= j < i ==> {
                        &&& (#[trigger] r@[j]).timestamp@ == self.items@[j].timestamp@
                        &&& r@[j].source@ == self.items@[j].source@
                        &&& r@[j].line@ == self.items@[j].line@
                    },
            decreases self.items@.len() - i,
        {
            r.push(self.items[i].duplicate());
            i = i + 1;
        }
        r
    }
}

impl RecentLines<String> {
    /// The kept lines joined by line breaks.
    pub fn joined(&self) -> (r: String)
        ensures
            r@ == crate::text::join(crate::text::texts(self.items()), "\n"@),
    {
        let mut lines: Vec<String> = Vec::new();
        let mut i: usize = 0;
        while i < self.items.len()
            invariant
                i <= self.items@.len(),
                crate::text::texts(lines@) == crate::text::texts(self.items@.take(i as int)),
            decreases self.items@.len() - i,
        {
            let ghost before = lines@;
            lines.push(self.items[i].clone());
            assert(self.items@.take(i + 1) =~= self.items@.take(i as int).push(self.items@[i as int]));
            assert(lines@ =~= before.push(self.items@[i as int]));
            assert(crate::text::texts(lines@) =~= crate::text::texts(before).push(self.items@[i as int]@));
            assert(crate::text::texts(self.items@.take(i + 1)) =~= crate::text::texts(
                self.items@.take(i as int),
            ).push(self.items@[i as int]@));
            i = i + 1;
        }
        assert(self.items@.take(self.items@.len() as int) =~= self.items@);
        crate::text::join_texts(&lines, "\n")
    }
}

/// Whether a file in the log directory is a Harness log: `harness-*.log`.
pub open spec fn log_file_name(name: Seq<char>) -> bool {
    has_prefix(name, "harness-"@) && has_suffix(name, ".log"@)
}

/// Whether a file in the log directory is a Harness log.
pub fn is_log_file_name(name: &str) -> (r: bool)
    ensures
        r == log_file_name(name@),
{
    starts_with(name, "harness-") && ends_with(name, ".log")
}

/// A log file: its path, its name, when it was last modified (nanoseconds
/// from the Unix epoch, within the range of `i64`) and its size.
#[derive(Clone, Debug)]
pub struct LogFileInfo {
    pub path: String,
    pub name: String,
    pub modified: i64,
    pub bytes: u64,
}

/// Lexicographic order of texts by character: negative, zero or positive.
pub open spec fn text_order(a: Seq<char>, b: Seq<char>) -> int
    decreases a.len(),
{
    if a.len() == 0 {
        if b.len() == 0 {
            0
        } else {
            -1
        }
    } else if b.len() == 0 {
        1
    } else if (a[0] as u32) < (b[0] as u32) {
        -1
    } else if (a[0] as u32) > (b[0] as u32) {
        1
    } else {
        text_order(a.drop_first(), b.drop_first())
    }
}

/// Lexicographic order of texts by character.
pub fn compare_text(a: &str, b: &str) -> (r: i8)
    ensures
        r == text_order(a@, b@),
{
    let n = a.unicode_len();
    let m = b.unicode_len();
    let mut i: usize = 0;
    assert(a@.skip(0) =~= a@);
    assert(b@.skip(0) =~= b@);
    while i < n && i < m
        invariant
            n == a@.len(),
            m == b@.len(),
            i <= n,
            i <= m,
            text_order(a@, b@) == text_order(a@.skip(i as int), b@.skip(i as int)),
        decreases n - i,
    {
        let x = a.get_char(i) as u32;
        let y = b.get_char(i) as u32;
        assert(a@.skip(i as int)[0] == a@[i as int]);
        assert(b@.skip(i as int)[0] == b@[i as int]);
        if x < y {
            return -1;
        }
        if x > y {
            return 1;
        }
        assert(a@.skip(i as int).drop_first() =~= a@.skip(i + 1));
        assert(b@.skip(i as int).drop_first() =~= b@.skip(i + 1));
        i = i + 1;
    }
    if i == n {
        if i == m {
            0
        } else {
            -1
        }
    } else {
        1
    }
}

/// Whether the file `a` goes before `b` when the newest come first: later
/// modification first, and between equally old files the greater name.
pub open spec fn goes_first(a: LogFileInfo, b: LogFileInfo) -> bool {
    a.modified > b.modified || (a.modified == b.modified && text_order(a.name@, b.name@) >= 0)
}

/// `sorted` with `f` placed before the first file it goes before.
pub open spec fn insert_newest_first(sorted: Seq<LogFileInfo>, f: LogFileInfo) -> Seq<LogFileInfo>
    decreases sorted.len(),
{
    if sorted.len() == 0 {
        seq![f]
    } else if goes_first(f, sorted[0]) {
        seq![f] + sorted
    } else {
        seq![sorted[0]] + insert_newest_first(sorted.drop_first(), f)
    }
}

/// The files, newest first, as insertion sorts them.
pub open spec fn newest_first_order(files: Seq<LogFileInfo>) -> Seq<LogFileInfo>
    decreases files.len(),
{
    if files.len() == 0 {
        Seq::empty()
    } else {
        insert_newest_first(newest_first_order(files.drop_last()), files.last())
    }
}

proof fn lemma_insert_at<T>(s: Seq<T>, j: int, f: T)
    requires
        0 <= j <= s.len(),
    ensures
        s.insert(j, f) == s.take(j) + (seq![f] + s.skip(j)),
{
    assert(s.insert(j, f) =~= s.take(j) + (seq![f] + s.skip(j)));
}

proof fn lemma_insert_newest_prefix(s: Seq<LogFileInfo>, f: LogFileInfo, j: int)
    requires
        0 <= j <= s.len(),
        forall|k: int| 0 <= k < j ==> !goes_first(f, #[trigger] s[k]),
    ensures
        insert_newest_first(s, f) == s.take(j) + insert_newest_first(s.skip(j), f),
    decreases j,
{
    if j == 0 {
        assert(s.skip(0) =~= s);
        assert(s.take(0) + insert_newest_first(s, f) =~= insert_newest_first(s, f));
    } else {
        lemma_insert_newest_prefix(s.drop_first(), f, j - 1);
        assert(s.drop_first().skip(j - 1) =~= s.skip(j));
        assert(!goes_first(f, s[0]));
        assert(seq![s[0]] + (s.drop_first().take(j - 1) + insert_newest_first(s.skip(j), f))
            =~= s.take(j) + insert_newest_first(s.skip(j), f));
    }
}

impl LogFileInfo {
    /// A copy of the file's record.
    pub fn duplicate(&self) -> (r: LogFileInfo)
        ensures
            r == *self,
    {
        LogFileInfo {
            path: self.path.clone(),
            name: self.name.clone(),
            modified: self.modified,
            bytes: self.bytes,
        }
    }
}

/// The files with the newest first: by later modification, then by the
/// greater name.
pub fn newest_first(files: &Vec<LogFileInfo>) -> (r: Vec<LogFileInfo>)
    ensures
        r@ == newest_first_order(files@),
        newest_first_sorted(r@),
        r@.to_multiset() == files@.to_multiset(),
{
    proof {
        lemma_newest_first_is_sorted(files@);
    }
    let ghost all = files@;
    let mut r: Vec<LogFileInfo> = Vec::new();
    let mut i: usize = 0;
    assert(all.take(0) =~= Seq::<LogFileInfo>::empty());
    while i < files.len()
        invariant
            all == files@,
            i <= all.len(),
            r@ == newest_first_order(all.take(i as int)),
        decreases all.len() - i,
    {
        assert(all.take(i + 1).drop_last() =~= all.take(i as int));
        assert(all.take(i + 1).last() == all[i as int]);
        let f = files[i].duplicate();
        let ghost s = r@;
        let mut j: usize = 0;
        while j < r.len()
            invariant
                r@ == s,
                j <= s.len(),
                forall|q: int| 0 <= q < j ==> !goes_first(f, #[trigger] s[q]),
            ensures
                r@ == s,
                j <= s.len(),
                forall|q: int| 0 <= q < j ==> !goes_first(f, #[trigger] s[q]),
                j < s.len() ==> goes_first(f, s[j as int]),
            decreases s.len() - j,
        {
            let first = f.modified > r[j].modified || (f.modified == r[j].modified
                && compare_text(f.name.as_str(), r[j].name.as_str()) >= 0);
            if first {
                break;
            }
            j = j + 1;
        }
        proof {
            lemma_insert_newest_prefix(s, f, j as int);
            if j < s.len() {
                assert(s.skip(j as int)[0] == s[j as int]);
                assert(insert_newest_first(s.skip(j as int), f) == seq![f] + s.skip(j as int));
            } else {
                assert(s.skip(j as int) =~= Seq::<LogFileInfo>::empty());
            }
            lemma_insert_at(s, j as int, f);
        }
        r.insert(j, f);
        i = i + 1;
    }
    assert(all.take(all.len() as int) =~= all);
    r
}

/// Whether a file is older than the age limit at `now`; a file modified in
/// the future is not.
pub open spec fn expired(f: LogFileInfo, now: i64, max_age: u128) -> bool {
    now >= f.modified && now - f.modified > max_age
}

/// Adds to a byte count, stopping at the largest count.
pub open spec fn saturating(a: u64, b: u64) -> u64 {
    if a + b > u64::MAX {
        u64::MAX
    } else {
        (a + b) as u64
    }
}

/// Which of the files, newest first, are removed: each expired file, and
/// each file that would take the bytes of the files kept so far past the
/// quota; the others are kept and counted.
pub open spec fn removals(sorted: Seq<LogFileInfo>, retained: u64, now: i64, max_age: u128, max_bytes: u64) -> Seq<Seq<char>>
    decreases sorted.len(),
{
    if sorted.len() == 0 {
        Seq::empty()
    } else {
        let f = sorted[0];
        if expired(f, now, max_age) || saturating(retained, f.bytes) > max_bytes {
            seq![f.path@] + removals(sorted.drop_first(), retained, now, max_age, max_bytes)
        } else {
            removals(sorted.drop_first(), saturating(retained, f.bytes), now, max_age, max_bytes)
        }
    }
}

/// The paths of the log files to remove, given the files newest first.
pub fn retention_removals(sorted: &Vec<LogFileInfo>, now: i64, max_age: u128, max_bytes: u64) -> (r: Vec<String>)
    ensures
        crate::text::texts(r@) == removals(sorted@, 0, now, max_age, max_bytes),
{
    let mut r: Vec<String> = Vec::new();
    let mut retained: u64 = 0;
    let mut i: usize = 0;
    assert(sorted@.skip(0) =~= sorted@);
    assert(crate::text::texts(r@) =~= Seq::<Seq<char>>::empty());
    while i < sorted.len()
        invariant
            i <= sorted@.len(),
            removals(sorted@, 0, now, max_age, max_bytes) == crate::text::texts(r@) + removals(
                sorted@.skip(i as int),
                retained,
                now,
                max_age,
                max_bytes,
            ),
        decreases sorted@.len() - i,
    {
        let f = &sorted[i];
        assert(sorted@.skip(i as int)[0] == sorted@[i as int]);
        assert(sorted@.skip(i as int).drop_first() =~= sorted@.skip(i + 1));
        let is_expired = now >= f.modified && ((now as i128 - f.modified as i128) as u128) > max_age;
        let total = retained.saturating_add(f.bytes);
        if is_expired || total > max_bytes {
            let ghost before = r@;
            r.push(f.path.clone());
            assert(crate::text::texts(r@) =~= crate::text::texts(before).push(f.path@));
            assert(crate::text::texts(before) + (seq![f.path@] + removals(
                sorted@.skip(i + 1),
                retained,
                now,
                max_age,
                max_bytes,
            )) =~= crate::text::texts(r@) + removals(
                sorted@.skip(i + 1),
                retained,
                now,
                max_age,
                max_bytes,
            ));
        } else {
            retained = total;
        }
        i = i + 1;
    }
    assert(sorted@.skip(i as int) =~= Seq::<LogFileInfo>::empty());
    assert(crate::text::texts(r@) + Seq::<Seq<char>>::empty() =~= crate::text::texts(r@));
    r
}

proof fn lemma_text_order_antisymmetric(a: Seq<char>, b: Seq<char>)
    ensures
        text_order(a, b) == -text_order(b, a),
    decreases a.len(),
{
    if a.len() > 0 && b.len() > 0 && (a[0] as u32) == (b[0] as u32) {
        lemma_text_order_antisymmetric(a.drop_first(), b.drop_first());
    }
}

/// Whether each file goes before the next one.
pub open spec fn newest_first_sorted(s: Seq<LogFileInfo>) -> bool {
    forall|i: int| 0 <= i < s.len() - 1 ==> goes_first(#[trigger] s[i], s[i + 1])
}

proof fn lemma_insert_keeps_sorted(s: Seq<LogFileInfo>, f: LogFileInfo)
    requires
        newest_first_sorted(s),
    ensures
        newest_first_sorted(insert_newest_first(s, f)),
        insert_newest_first(s, f).to_multiset() == s.to_multiset().insert(f),
    decreases s.len(),
{
    if s.len() == 0 {
        assert(seq![f] =~= Seq::<LogFileInfo>::empty().push(f));
    } else if goes_first(f, s[0]) {
        let r = seq![f] + s;
        assert(newest_first_sorted(r)) by {
            assert forall|i: int| 0 <= i < r.len() - 1 implies goes_first(#[trigger] r[i], r[i + 1]) by {
                if i > 0 {
                    assert(r[i] == s[i - 1]);
                    assert(r[i + 1] == s[i]);
                }
            }
        }
        vstd::seq_lib::lemma_multiset_commutative(seq![f], s);
        assert(seq![f] =~= Seq::<LogFileInfo>::empty().push(f));
    } else {
        let t = s.drop_first();
        assert(newest_first_sorted(t)) by {
            assert forall|i: int| 0 <= i < t.len() - 1 implies goes_first(#[trigger] t[i], t[i + 1]) by {
                assert(t[i] == s[i + 1]);
                assert(goes_first(s[i + 1], s[i + 2]));
            }
        }
        lemma_insert_keeps_sorted(t, f);
        let u = insert_newest_first(t, f);
        let r = seq![s[0]] + u;
        lemma_text_order_antisymmetric(f.name@, s[0].name@);
        assert(goes_first(s[0], f));
        assert(u.len() > 0);
        assert(goes_first(s[0], u[0])) by {
            if t.len() == 0 || goes_first(f, t[0]) {
                assert(u[0] == f);
            } else {
                assert(u[0] == t[0]);
                assert(t[0] == s[1]);
                assert(goes_first(s[0], s[1]));
            }
        }
        assert(newest_first_sorted(r)) by {
            assert forall|i: int| 0 <= i < r.len() - 1 implies goes_first(#[trigger] r[i], r[i + 1]) by {
                if i > 0 {
                    assert(r[i] == u[i - 1]);
                    assert(r[i + 1] == u[i]);
                }
            }
        }
        vstd::seq_lib::lemma_multiset_commutative(seq![s[0]], u);
        vstd::seq_lib::lemma_multiset_commutative(seq![s[0]], t);
        assert(seq![s[0]] + t =~= s);
    }
}

/// The newest-first order is a sorting: each file goes before the next,
/// and it holds the same files as often as they were given.
pub proof fn lemma_newest_first_is_sorted(files: Seq<LogFileInfo>)
    ensures
        newest_first_sorted(newest_first_order(files)),
        newest_first_order(files).to_multiset() == files.to_multiset(),
    decreases files.len(),
{
    if files.len() == 0 {
        assert(files =~= Seq::<LogFileInfo>::empty());
    } else {
        lemma_newest_first_is_sorted(files.drop_last());
        lemma_insert_keeps_sorted(newest_first_order(files.drop_last()), files.last());
        assert(files.drop_last().push(files.last()) =~= files);
    }
}

/// The files that the retention pass keeps.
pub open spec fn kept_files(sorted: Seq<LogFileInfo>, retained: u64, now: i64, max_age: u128, max_bytes: u64) -> Seq<LogFileInfo>
    decreases sorted.len(),
{
    if sorted.len() == 0 {
        Seq::empty()
    } else {
        let f = sorted[0];
        if expired(f, now, max_age) || saturating(retained, f.bytes) > max_bytes {
            kept_files(sorted.drop_first(), retained, now, max_age, max_bytes)
        } else {
            seq![f] + kept_files(sorted.drop_first(), saturating(retained, f.bytes), now, max_age, max_bytes)
        }
    }
}

/// The bytes of a list of files.
pub open spec fn total_bytes(files: Seq<LogFileInfo>) -> int
    decreases files.len(),
{
    if files.len() == 0 {
        0
    } else {
        files[0].bytes + total_bytes(files.drop_first())
    }
}

proof fn lemma_kept_within(sorted: Seq<LogFileInfo>, retained: u64, now: i64, max_age: u128, max_bytes: u64)
    requires
        retained <= max_bytes,
        max_bytes < u64::MAX,
    ensures
        retained + total_bytes(kept_files(sorted, retained, now, max_age, max_bytes)) <= max_bytes,
        forall|i: int|
            0 <= i < kept_files(sorted, retained, now, max_age, max_bytes).len() ==> !expired(
                #[trigger] kept_files(sorted, retained, now, max_age, max_bytes)[i],
                now,
                max_age,
            ),
        kept_files(sorted, retained, now, max_age, max_bytes).len() + removals(
            sorted,
            retained,
            now,
            max_age,
            max_bytes,
        ).len() == sorted.len(),
    decreases sorted.len(),
{
    if sorted.len() > 0 {
        let f = sorted[0];
        let next = saturating(retained, f.bytes);
        if expired(f, now, max_age) || next > max_bytes {
            lemma_kept_within(sorted.drop_first(), retained, now, max_age, max_bytes);
        } else {
            lemma_kept_within(sorted.drop_first(), next, now, max_age, max_bytes);
            let rest = kept_files(sorted.drop_first(), next, now, max_age, max_bytes);
            let all = seq![f] + rest;
            assert(all.drop_first() =~= rest);
            assert forall|i: int| 0 <= i < all.len() implies !expired(#[trigger] all[i], now, max_age) by {
                if i > 0 {
                    assert(all[i] == rest[i - 1]);
                }
            }
        }
    }
}

/// The paths of the files that `flags` marks, in their order.
pub open spec fn marked_paths(files: Seq<LogFileInfo>, flags: Seq<bool>) -> Seq<Seq<char>>
    decreases files.len(),
{
    if files.len() == 0 || flags.len() == 0 {
        Seq::empty()
    } else {
        (if flags[0] {
            seq![files[0].path@]
        } else {
            Seq::<Seq<char>>::empty()
        }) + marked_paths(files.drop_first(), flags.drop_first())
    }
}

/// The bytes of the files before position `i` that `flags` leaves unmarked.
pub open spec fn unmarked_bytes(files: Seq<LogFileInfo>, flags: Seq<bool>, i: int) -> int
    decreases i,
{
    if i <= 0 {
        0
    } else {
        unmarked_bytes(files, flags, i - 1) + if flags[i - 1] {
            0
        } else {
            files[i - 1].bytes as int
        }
    }
}

spec fn retention_verdicts(sorted: Seq<LogFileInfo>, retained: u64, now: i64, max_age: u128, max_bytes: u64) -> Seq<bool>
    decreases sorted.len(),
{
    if sorted.len() == 0 {
        Seq::empty()
    } else {
        let f = sorted[0];
        let removed = expired(f, now, max_age) || saturating(retained, f.bytes) > max_bytes;
        seq![removed] + retention_verdicts(
            sorted.drop_first(),
            if removed {
                retained
            } else {
                saturating(retained, f.bytes)
            },
            now,
            max_age,
            max_bytes,
        )
    }
}

proof fn lemma_unmarked_shift(f: LogFileInfo, rest: Seq<LogFileInfo>, first: bool, flags: Seq<bool>, i: int)
    requires
        1 <= i <= rest.len() + 1,
        flags.len() == rest.len(),
    ensures
        unmarked_bytes(seq![f] + rest, seq![first] + flags, i) == (if first {
            0
        } else {
            f.bytes as int
        }) + unmarked_bytes(rest, flags, i - 1),
    decreases i,
{
    let files = seq![f] + rest;
    let marks = seq![first] + flags;
    if i > 1 {
        lemma_unmarked_shift(f, rest, first, flags, i - 1);
        assert(files[i - 1] == rest[i - 2]);
        assert(marks[i - 1] == flags[i - 2]);
    } else {
        assert(files[0] == f);
        assert(marks[0] == first);
        assert(unmarked_bytes(files, marks, 0) == 0);
        assert(unmarked_bytes(rest, flags, 0) == 0);
    }
}

proof fn lemma_verdicts(sorted: Seq<LogFileInfo>, retained: u64, now: i64, max_age: u128, max_bytes: u64)
    requires
        max_bytes < u64::MAX,
        retained <= max_bytes,
    ensures
        ({
            let flags = retention_verdicts(sorted, retained, now, max_age, max_bytes);
            &&& flags.len() == sorted.len()
            &&& removals(sorted, retained, now, max_age, max_bytes) == marked_paths(sorted, flags)
            &&& forall|i: int|
                0 <= i < sorted.len() ==> (#[trigger] flags[i] <==> (expired(sorted[i], now, max_age)
                    || retained + unmarked_bytes(sorted, flags, i) + sorted[i].bytes > max_bytes))
        }),
    decreases sorted.len(),
{
    if sorted.len() > 0 {
        let f = sorted[0];
        let rest = sorted.drop_first();
        let removed = expired(f, now, max_age) || saturating(retained, f.bytes) > max_bytes;
        let next = if removed {
            retained
        } else {
            saturating(retained, f.bytes)
        };
        lemma_verdicts(rest, next, now, max_age, max_bytes);
        let tail = retention_verdicts(rest, next, now, max_age, max_bytes);
        let flags = retention_verdicts(sorted, retained, now, max_age, max_bytes);
        assert(flags == seq![removed] + tail);
        assert(sorted =~= seq![f] + rest);
        assert(flags.drop_first() =~= tail);
        assert(!removed ==> next == retained + f.bytes);
        assert forall|i: int|
            0 <= i < sorted.len() implies (#[trigger] flags[i] <==> (expired(sorted[i], now, max_age)
                || retained + unmarked_bytes(sorted, flags, i) + sorted[i].bytes > max_bytes)) by {
            if i > 0 {
                lemma_unmarked_shift(f, rest, removed, tail, i);
                assert(flags[i] == tail[i - 1]);
                assert(sorted[i] == rest[i - 1]);
            }
        }
    }
}

/// Retention removes a file exactly when it is expired or does not fit: a
/// file is removed if and only if it is expired or its bytes, added to the
/// bytes of the files kept before it, exceed the quota. A file removed for
/// the quota leaves the count of kept bytes as it was, so a later, smaller
/// file that fits is kept. The removed paths come in the files' order. This
/// holds for a quota below the largest byte count, where the count cannot
/// saturate.
pub proof fn lemma_removed_exactly_when_expired_or_over_quota(
    sorted: Seq<LogFileInfo>,
    now: i64,
    max_age: u128,
    max_bytes: u64,
)
    requires
        max_bytes < u64::MAX,
    ensures
        exists|flags: Seq<bool>|
            {
                &&& flags.len() == sorted.len()
                &&& removals(sorted, 0, now, max_age, max_bytes) == marked_paths(sorted, flags)
                &&& forall|i: int|
                    0 <= i < sorted.len() ==> (#[trigger] flags[i] <==> (expired(
                        sorted[i],
                        now,
                        max_age,
                    ) || unmarked_bytes(sorted, flags, i) + sorted[i].bytes > max_bytes))
            },
{
    lemma_verdicts(sorted, 0, now, max_age, max_bytes);
    let flags = retention_verdicts(sorted, 0, now, max_age, max_bytes);
    assert(flags.len() == sorted.len());
}

/// The retention pass keeps the log within its quota: the files it keeps
/// are none of them expired and hold at most `max_bytes` together, and each
/// file is either kept or removed. This needs a quota below the largest
/// byte count, where the saturating count could hide an overflow.
pub proof fn lemma_retention_respects_quota(sorted: Seq<LogFileInfo>, now: i64, max_age: u128, max_bytes: u64)
    requires
        max_bytes < u64::MAX,
    ensures
        total_bytes(kept_files(sorted, 0, now, max_age, max_bytes)) <= max_bytes,
        forall|i: int|
            0 <= i < kept_files(sorted, 0, now, max_age, max_bytes).len() ==> !expired(
                #[trigger] kept_files(sorted, 0, now, max_age, max_bytes)[i],
                now,
                max_age,
            ),
        kept_files(sorted, 0, now, max_age, max_bytes).len() + removals(
            sorted,
            0,
            now,
            max_age,
            max_bytes,
        ).len() == sorted.len(),
{
    lemma_kept_within(sorted, 0, now, max_age, max_bytes);
}

/// The line written to the log file for a log entry:
/// `[timestamp] [source] line`.
pub fn log_file_line(line: &LogLine) -> (r: String)
    ensures
        r@ == "["@ + line.timestamp@ + "] ["@ + line.source@ + "] "@ + line.line@,
{
    let mut r = crate::text::concat4("[", line.timestamp.as_str(), "] [", line.source.as_str());
    r.append("] ");
    r.append(line.line.as_str());
    r
}

} // verus!
