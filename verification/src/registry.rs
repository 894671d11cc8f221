//! Choosing a DSH release from the npm registry's package document: the
//! configured distribution tags, the highest tagged version, its metadata
//! and whether the private Node.js runtime meets its engine requirement.
use vstd::prelude::*;

use crate::json::{json_string_list, json_strings};
use crate::model::{DSH_DIST_TAGS, NODE_VERSION};
use crate::text::{
    concat, concat3, concat4, join, join_texts, owned, split_on, split_text, split_words, texts, words,
};
use crate::versions::{
    is_version, requirement_error, requirement_matches, semver_order,
    semver_requirement_error, semver_requirement_matches, semver_version_error,
    version_error, version_order,
};

verus! {

/// The `engines` entry of a release.
#[derive(Clone, Debug)]
pub struct RegistryEngines {
    pub node: Option<String>,
}

/// One release in the package document.
#[derive(Clone, Debug)]
pub struct RegistryMetadata {
    pub name: String,
    pub version: String,
    pub engines: Option<RegistryEngines>,
}

/// The package document: the package's name, its distribution tags and its
/// releases by version. Each list holds a key at most once.
#[derive(Clone, Debug)]
pub struct RegistryPackument {
    pub name: String,
    pub dist_tags: Vec<(String, String)>,
    pub versions: Vec<(String, RegistryMetadata)>,
}

/// A release as texts: name, version, and the Node.js requirement of its
/// `engines` entry (`None` without an entry, `Some(None)` for an entry
/// without a Node.js requirement).
pub struct MetadataView {
    pub name: Seq<char>,
    pub version: Seq<char>,
    pub engines: Option<Option<Seq<char>>>,
}

/// A package document as texts.
pub struct PackumentView {
    pub name: Seq<char>,
    pub dist_tags: Seq<(Seq<char>, Seq<char>)>,
    pub versions: Seq<(Seq<char>, MetadataView)>,
}

pub open spec fn optional_text(o: Option<String>) -> Option<Seq<char>> {
    match o {
        Some(s) => Some(s@),
        None => None,
    }
}

pub open spec fn engines_view(e: Option<RegistryEngines>) -> Option<Option<Seq<char>>> {
    match e {
        Some(engines) => Some(optional_text(engines.node)),
        None => None,
    }
}

impl View for RegistryMetadata {
    type V = MetadataView;

    open spec fn view(&self) -> MetadataView {
        MetadataView {
            name: self.name@,
            version: self.version@,
            engines: engines_view(self.engines),
        }
    }
}

pub open spec fn tag_entries(v: Seq<(String, String)>) -> Seq<(Seq<char>, Seq<char>)> {
    v.map_values(|e: (String, String)| (e.0@, e.1@))
}

pub open spec fn release_entries(v: Seq<(String, RegistryMetadata)>) -> Seq<(Seq<char>, MetadataView)> {
    v.map_values(|e: (String, RegistryMetadata)| (e.0@, e.1@))
}

impl View for RegistryPackument {
    type V = PackumentView;

    open spec fn view(&self) -> PackumentView {
        PackumentView {
            name: self.name@,
            dist_tags: tag_entries(self.dist_tags@),
            versions: release_entries(self.versions@),
        }
    }
}

/// No key occurs twice among the entries.
pub open spec fn distinct_keys<V>(entries: Seq<(Seq<char>, V)>) -> bool {
    forall|i: int, j: int|
        0 <= i < j < entries.len() ==> #[trigger] entries[i].0 != #[trigger] entries[j].0
}

/// A package document is well formed when, as in the registry's JSON
/// objects, no tag and no version occurs twice.
pub open spec fn packument_wf(p: PackumentView) -> bool {
    distinct_keys(p.dist_tags) && distinct_keys(p.versions)
}

fn keys_unique<V>(entries: &Vec<(String, V)>) -> (r: bool)
    ensures
        r == (forall|i: int, j: int|
            0 <= i < j < entries@.len() ==> #[trigger] entries@[i].0@ != #[trigger] entries@[j].0@),
{
    let mut i: usize = 0;
    while i < entries.len()
        invariant
            i <= entries@.len(),
            forall|a: int, b: int|
                0 <= a < i && a < b < entries@.len() ==> #[trigger] entries@[a].0@
                    != #[trigger] entries@[b].0@,
        decreases entries@.len() - i,
    {
        let mut j: usize = i + 1;
        while j < entries.len()
            invariant
                i < entries@.len(),
                i + 1 <= j <= entries@.len(),
                forall|a: int, b: int|
                    0 <= a < i && a < b < entries@.len() ==> #[trigger] entries@[a].0@
                        != #[trigger] entries@[b].0@,
                forall|b: int| i < b < j ==> entries@[i as int].0@ != #[trigger] entries@[b].0@,
            decreases entries@.len() - j,
        {
            if crate::text::same_text(entries[i].0.as_str(), entries[j].0.as_str()) {
                return false;
            }
            j = j + 1;
        }
        i = i + 1;
    }
    true
}

impl RegistryPackument {
    /// Whether no tag and no version occurs twice, as the selection of
    /// releases requires.
    pub fn is_well_formed(&self) -> (r: bool)
        ensures
            r == packument_wf(self@),
    {
        let tags = keys_unique(&self.dist_tags);
        let versions = keys_unique(&self.versions);
        proof {
            let t = tag_entries(self.dist_tags@);
            let v = release_entries(self.versions@);
            if tags {
                assert forall|i: int, j: int| 0 <= i < j < t.len() implies #[trigger] t[i].0
                    != #[trigger] t[j].0 by {
                    assert(t[i].0 == self.dist_tags@[i].0@ && t[j].0 == self.dist_tags@[j].0@);
                }
            } else {
                assert(!distinct_keys(t)) by {
                    let (i, j) = choose|i: int, j: int|
                        0 <= i < j < self.dist_tags@.len() && #[trigger] self.dist_tags@[i].0@
                            == #[trigger] self.dist_tags@[j].0@;
                    assert(t[i].0 == self.dist_tags@[i].0@ && t[j].0 == self.dist_tags@[j].0@);
                }
            }
            if versions {
                assert forall|i: int, j: int| 0 <= i < j < v.len() implies #[trigger] v[i].0
                    != #[trigger] v[j].0 by {
                    assert(v[i].0 == self.versions@[i].0@ && v[j].0 == self.versions@[j].0@);
                }
            } else {
                assert(!distinct_keys(v)) by {
                    let (i, j) = choose|i: int, j: int|
                        0 <= i < j < self.versions@.len() && #[trigger] self.versions@[i].0@
                            == #[trigger] self.versions@[j].0@;
                    assert(v[i].0 == self.versions@[i].0@ && v[j].0 == self.versions@[j].0@);
                }
            }
        }
        tags && versions
    }
}

/// The value of the first entry with `key`, as a map lookup.
pub open spec fn lookup<V>(entries: Seq<(Seq<char>, V)>, key: Seq<char>) -> Option<V>
    decreases entries.len(),
{
    if entries.len() == 0 {
        None
    } else if entries[0].0 == key {
        Some(entries[0].1)
    } else {
        lookup(entries.drop_first(), key)
    }
}

proof fn lemma_lookup_step<V>(entries: Seq<(Seq<char>, V)>, key: Seq<char>, i: int)
    requires
        0 <= i < entries.len(),
        entries[i].0 != key,
    ensures
        lookup(entries.subrange(i, entries.len() as int), key) == lookup(
            entries.subrange(i + 1, entries.len() as int),
            key,
        ),
{
    assert(entries.subrange(i, entries.len() as int).drop_first() =~= entries.subrange(
        i + 1,
        entries.len() as int,
    ));
}

/// The Node.js requirement of a release, if it states one.
pub open spec fn node_requirement(m: MetadataView) -> Option<Seq<char>> {
    match m.engines {
        Some(Some(node)) => Some(node),
        _ => None,
    }
}

impl RegistryEngines {
    /// A copy with the same texts.
    pub fn duplicate(&self) -> (r: RegistryEngines)
        ensures
            optional_text(r.node) == optional_text(self.node),
    {
        RegistryEngines {
            node: match &self.node {
                Some(node) => Some(node.clone()),
                None => None,
            },
        }
    }
}

impl RegistryMetadata {
    /// A copy with the same texts.
    pub fn duplicate(&self) -> (r: RegistryMetadata)
        ensures
            r@ == self@,
    {
        RegistryMetadata {
            name: self.name.clone(),
            version: self.version.clone(),
            engines: match &self.engines {
                Some(engines) => Some(engines.duplicate()),
                None => None,
            },
        }
    }

    /// The Node.js requirement of the release's `engines` entry.
    pub fn node_requirement(&self) -> (r: Option<&str>)
        ensures
            match r {
                Some(t) => node_requirement(self@) == Some(t@),
                None => node_requirement(self@) is None,
            },
    {
        match &self.engines {
            Some(engines) => match &engines.node {
                Some(node) => Some(node.as_str()),
                None => None,
            },
            None => None,
        }
    }
}

/// The position of the tag `key`, if the list has it.
fn find_tag(entries: &Vec<(String, String)>, key: &str) -> (r: Option<usize>)
    ensures
        match r {
            Some(i) => i < entries@.len() && lookup(tag_entries(entries@), key@) == Some(
                entries@[i as int].1@,
            ),
            None => lookup(tag_entries(entries@), key@) is None,
        },
{
    let ghost all = tag_entries(entries@);
    assert(all.subrange(0, all.len() as int) =~= all);
    let mut i: usize = 0;
    while i < entries.len()
        invariant
            all == tag_entries(entries@),
            i <= entries@.len(),
            lookup(all, key@) == lookup(all.subrange(i as int, all.len() as int), key@),
        decreases entries@.len() - i,
    {
        let found = crate::text::same_text(entries[i].0.as_str(), key);
        if found {
            assert(all.subrange(i as int, all.len() as int)[0] == all[i as int]);
            return Some(i);
        }
        proof {
            lemma_lookup_step(all, key@, i as int);
        }
        i = i + 1;
    }
    None
}

/// The position of the release `key`, if the list has it.
fn find_release(entries: &Vec<(String, RegistryMetadata)>, key: &str) -> (r: Option<usize>)
    ensures
        match r {
            Some(i) => i < entries@.len() && lookup(release_entries(entries@), key@) == Some(
                entries@[i as int].1@,
            ),
            None => lookup(release_entries(entries@), key@) is None,
        },
{
    let ghost all = release_entries(entries@);
    assert(all.subrange(0, all.len() as int) =~= all);
    let mut i: usize = 0;
    while i < entries.len()
        invariant
            all == release_entries(entries@),
            i <= entries@.len(),
            lookup(all, key@) == lookup(all.subrange(i as int, all.len() as int), key@),
        decreases entries@.len() - i,
    {
        let found = crate::text::same_text(entries[i].0.as_str(), key);
        if found {
            assert(all.subrange(i as int, all.len() as int)[0] == all[i as int]);
            return Some(i);
        }
        proof {
            lemma_lookup_step(all, key@, i as int);
        }
        i = i + 1;
    }
    None
}

/// `list` with the version `t` placed by semver precedence, highest first;
/// a version of equal precedence is replaced where it stands, as an entry of
/// an ordered map keyed by version.
pub open spec fn insert_by_version(list: Seq<Seq<char>>, t: Seq<char>) -> Seq<Seq<char>>
    decreases list.len(),
{
    if list.len() == 0 {
        seq![t]
    } else if semver_order(t, list[0]) > 0 {
        seq![t] + list
    } else if semver_order(t, list[0]) == 0 {
        seq![t] + list.drop_first()
    } else {
        seq![list[0]] + insert_by_version(list.drop_first(), t)
    }
}

proof fn lemma_insert_prefix(s: Seq<Seq<char>>, t: Seq<char>, j: int)
    requires
        0 <= j <= s.len(),
        forall|k: int| 0 <= k < j ==> semver_order(t, #[trigger] s[k]) < 0,
    ensures
        insert_by_version(s, t) == s.take(j) + insert_by_version(s.skip(j), t),
    decreases j,
{
    if j == 0 {
        assert(s.skip(0) =~= s);
        assert(s.take(0) + insert_by_version(s, t) =~= insert_by_version(s, t));
    } else {
        lemma_insert_prefix(s.drop_first(), t, j - 1);
        assert(s.drop_first().skip(j - 1) =~= s.skip(j));
        assert(seq![s[0]] + s.drop_first().take(j - 1) =~= s.take(j));
        assert(semver_order(t, s[0]) < 0);
        assert(insert_by_version(s, t) == seq![s[0]] + insert_by_version(s.drop_first(), t));
        assert(seq![s[0]] + (s.drop_first().take(j - 1) + insert_by_version(s.skip(j), t))
            =~= s.take(j) + insert_by_version(s.skip(j), t));
    }
}

proof fn lemma_insert_elements(s: Seq<Seq<char>>, t: Seq<char>, x: Seq<char>)
    requires
        insert_by_version(s, t).contains(x),
    ensures
        x == t || s.contains(x),
    decreases s.len(),
{
    if s.len() == 0 {
    } else if semver_order(t, s[0]) > 0 {
        let i = choose|i: int| 0 <= i < insert_by_version(s, t).len() && insert_by_version(s, t)[i] == x;
        if i > 0 {
            assert(s[i - 1] == x);
        }
    } else if semver_order(t, s[0]) == 0 {
        let i = choose|i: int| 0 <= i < insert_by_version(s, t).len() && insert_by_version(s, t)[i] == x;
        if i > 0 {
            assert(s[i] == x);
        }
    } else {
        let i = choose|i: int| 0 <= i < insert_by_version(s, t).len() && insert_by_version(s, t)[i] == x;
        if i == 0 {
            assert(s[0] == x);
        } else {
            assert(insert_by_version(s.drop_first(), t)[i - 1] == x);
            lemma_insert_elements(s.drop_first(), t, x);
            if x != t {
                let k = choose|k: int| 0 <= k < s.drop_first().len() && s.drop_first()[k] == x;
                assert(s[k + 1] == x);
            }
        }
    }
}

/// Each version has higher semver precedence than every later one.
pub open spec fn strictly_descending(s: Seq<Seq<char>>) -> bool {
    forall|i: int, j: int| 0 <= i < j < s.len() ==> semver_order(#[trigger] s[i], #[trigger] s[j]) > 0
}

/// Each version compares equal to itself.
pub open spec fn self_equal(s: Seq<Seq<char>>) -> bool {
    forall|i: int| 0 <= i < s.len() ==> semver_order(#[trigger] s[i], s[i]) == 0
}

/// Adds the version `t` to a list kept in descending semver precedence.
fn insert_version(list: &mut Vec<String>, t: String)
    requires
        forall|k: int| 0 <= k < old(list)@.len() ==> is_version(#[trigger] old(list)@[k]@),
        is_version(t@),
        semver_order(t@, t@) == 0,
        strictly_descending(texts(old(list)@)),
        self_equal(texts(old(list)@)),
    ensures
        texts(final(list)@) == insert_by_version(texts(old(list)@), t@),
        strictly_descending(texts(final(list)@)),
        self_equal(texts(final(list)@)),
        final(list)@.len() > 0,
        semver_order(final(list)@[0]@, t@) >= 0,
        forall|v: Seq<char>|
            is_version(v) && old(list)@.len() > 0 && #[trigger] semver_order(old(list)@[0]@, v) >= 0
                ==> semver_order(final(list)@[0]@, v) >= 0,
{
    let ghost s = texts(list@);
    let ghost old_list = list@;
    let mut j: usize = 0;
    while j < list.len()
        invariant
            list@ == old_list,
            old_list == old(list)@,
            s == texts(list@),
            is_version(t@),
            semver_order(t@, t@) == 0,
            strictly_descending(s),
            self_equal(s),
            forall|k: int| 0 <= k < list@.len() ==> is_version(#[trigger] list@[k]@),
            j <= list@.len(),
            forall|k: int| 0 <= k < j ==> semver_order(t@, #[trigger] s[k]) < 0,
            forall|k: int| 0 <= k < j ==> semver_order(#[trigger] s[k], t@) > 0,
        decreases list@.len() - j,
    {
        assert(s[j as int] == list@[j as int]@);
        let order = version_order(t.as_str(), list[j].as_str());
        if order >= 0 {
            proof {
                lemma_insert_prefix(s, t@, j as int);
                assert(s.skip(j as int)[0] == s[j as int]);
                assert(s.skip(j as int).drop_first() =~= s.skip(j + 1));
            }
            if order > 0 {
                list.insert(j, t);
                let ghost l = texts(list@);
                assert(l =~= s.take(j as int) + (seq![t@] + s.skip(j as int)));
                proof {
                    assert forall|a: int, b: int| 0 <= a < b < l.len() implies semver_order(
                        #[trigger] l[a],
                        #[trigger] l[b],
                    ) > 0 by {
                        if b < j {
                            assert(l[a] == s[a] && l[b] == s[b]);
                        } else if b == j {
                            assert(l[a] == s[a] && l[b] == t@);
                        } else if a < j {
                            assert(l[a] == s[a] && l[b] == s[b - 1]);
                        } else if a == j {
                            assert(l[a] == t@ && l[b] == s[b - 1]);
                            if b - 1 > j {
                                assert(semver_order(s[j as int], s[b - 1]) > 0);
                                assert(is_version(old_list[b - 1]@));
                            }
                        } else {
                            assert(l[a] == s[a - 1] && l[b] == s[b - 1]);
                        }
                    }
                    assert forall|a: int| 0 <= a < l.len() implies semver_order(
                        #[trigger] l[a],
                        l[a],
                    ) == 0 by {
                        if a < j {
                            assert(l[a] == s[a]);
                        } else if a > j {
                            assert(l[a] == s[a - 1]);
                        }
                    }
                    assert(l[0] == list@[0]@);
                    if j == 0 {
                        assert(l[0] == t@);
                        assert(s[0] == old_list[0]@);
                    } else {
                        assert(l[0] == s[0]);
                        assert(s[0] == old_list[0]@);
                    }
                    assert forall|v: Seq<char>|
                        is_version(v) && old_list.len() > 0 && #[trigger] semver_order(
                            old_list[0]@,
                            v,
                        ) >= 0 implies semver_order(list@[0]@, v) >= 0 by {
                        if j > 0 {
                            assert(list@[0]@ == old_list[0]@);
                        }
                    }
                    assert(insert_by_version(s.skip(j as int), t@) == seq![t@] + s.skip(j as int));
                    assert(texts(list@) == insert_by_version(s, t@));
                }
            } else {
                list.set(j, t);
                let ghost l = texts(list@);
                assert(l =~= s.take(j as int) + (seq![t@] + s.skip(j + 1)));
                proof {
                    assert forall|a: int, b: int| 0 <= a < b < l.len() implies semver_order(
                        #[trigger] l[a],
                        #[trigger] l[b],
                    ) > 0 by {
                        if b < j {
                            assert(l[a] == s[a] && l[b] == s[b]);
                        } else if b == j {
                            assert(l[a] == s[a] && l[b] == t@);
                        } else if a < j {
                            assert(l[a] == s[a] && l[b] == s[b]);
                        } else if a == j {
                            assert(l[a] == t@ && l[b] == s[b]);
                            assert(semver_order(s[j as int], s[b]) > 0);
                            assert(is_version(old_list[b]@));
                        } else {
                            assert(l[a] == s[a] && l[b] == s[b]);
                        }
                    }
                    assert forall|a: int| 0 <= a < l.len() implies semver_order(
                        #[trigger] l[a],
                        l[a],
                    ) == 0 by {
                        if a != j {
                            assert(l[a] == s[a]);
                        }
                    }
                    assert(l[0] == list@[0]@);
                    if j == 0 {
                        assert(l[0] == t@);
                        assert(s[0] == old_list[0]@);
                    } else {
                        assert(l[0] == s[0]);
                        assert(s[0] == old_list[0]@);
                    }
                    assert forall|v: Seq<char>|
                        is_version(v) && old_list.len() > 0 && #[trigger] semver_order(
                            old_list[0]@,
                            v,
                        ) >= 0 implies semver_order(list@[0]@, v) >= 0 by {
                        if j > 0 {
                            assert(list@[0]@ == old_list[0]@);
                        }
                    }
                    assert(insert_by_version(s.skip(j as int), t@) == seq![t@] + s.skip(j + 1));
                    assert(texts(list@) == insert_by_version(s, t@));
                }
            }
            return;
        }
        assert(semver_order(s[j as int], t@) > 0);
        j = j + 1;
    }
    proof {
        lemma_insert_prefix(s, t@, j as int);
        assert(s.skip(j as int) =~= Seq::<Seq<char>>::empty());
    }
    list.push(t);
    let ghost l = texts(list@);
    assert(l =~= s.take(j as int) + seq![t@]);
    proof {
        assert forall|a: int, b: int| 0 <= a < b < l.len() implies semver_order(
            #[trigger] l[a],
            #[trigger] l[b],
        ) > 0 by {
            assert(l[a] == s[a]);
            if b < s.len() {
                assert(l[b] == s[b]);
            }
        }
        assert forall|a: int| 0 <= a < l.len() implies semver_order(#[trigger] l[a], l[a]) == 0 by {
            if a < s.len() {
                assert(l[a] == s[a]);
            }
        }
        assert(l[0] == list@[0]@);
        if s.len() > 0 {
            assert(l[0] == s[0]);
            assert(s[0] == old_list[0]@);
        }
    }
}

pub open spec fn missing_metadata_message(tag: Seq<char>) -> Seq<char> {
    "The npm registry tag "@ + tag + " points to missing DSH metadata."@
}

pub open spec fn inconsistent_metadata_message(tag: Seq<char>) -> Seq<char> {
    "The npm registry returned inconsistent DSH metadata for tag "@ + tag + "."@
}

pub open spec fn invalid_version_message(tag: Seq<char>, error: Seq<char>) -> Seq<char> {
    "The npm registry tag "@ + tag + " has an invalid DSH version: "@ + error
}

/// One configured tag added to the versions selected so far: a tag that the
/// document lacks is passed over; a tag must point to a release whose name
/// and version agree with the document and whose version is valid.
pub open spec fn select_tag(p: PackumentView, selected: Seq<Seq<char>>, tag: Seq<char>) -> Result<
    Seq<Seq<char>>,
    Seq<char>,
> {
    match lookup(p.dist_tags, tag) {
        None => Ok(selected),
        Some(version) => match lookup(p.versions, version) {
            None => Err(missing_metadata_message(tag)),
            Some(m) => if m.name != p.name || m.version != version {
                Err(inconsistent_metadata_message(tag))
            } else {
                match semver_version_error(version) {
                    Some(e) => Err(invalid_version_message(tag, e)),
                    None => Ok(insert_by_version(selected, version)),
                }
            },
        },
    }
}

/// The versions that the tags select, highest precedence first, or the
/// first error, taking the tags in order.
pub open spec fn select_tags(p: PackumentView, tags: Seq<Seq<char>>) -> Result<
    Seq<Seq<char>>,
    Seq<char>,
>
    decreases tags.len(),
{
    if tags.len() == 0 {
        Ok(Seq::empty())
    } else {
        match select_tags(p, tags.drop_last()) {
            Err(e) => Err(e),
            Ok(selected) => select_tag(p, selected, tags.last()),
        }
    }
}

/// The releases that the configured tags select, highest precedence first.
pub open spec fn registry_candidates(p: PackumentView, tags: Seq<Seq<char>>) -> Result<
    Seq<MetadataView>,
    Seq<char>,
> {
    if p.name != "@deepseek-ai/dsh"@ {
        Err("The npm registry returned an unexpected package."@)
    } else {
        match select_tags(p, tags) {
            Err(e) => Err(e),
            Ok(selected) => if selected.len() == 0 {
                Err("The npm registry returned no configured DSH releases."@)
            } else {
                Ok(selected.map_values(|t: Seq<char>| lookup(p.versions, t).unwrap()))
            },
        }
    }
}

proof fn lemma_select_error_stays(p: PackumentView, tags: Seq<Seq<char>>, j: int)
    requires
        0 <= j <= tags.len(),
        select_tags(p, tags.take(j)) is Err,
    ensures
        select_tags(p, tags) == select_tags(p, tags.take(j)),
    decreases tags.len() - j,
{
    if j == tags.len() {
        assert(tags.take(j) =~= tags);
    } else {
        assert(tags.drop_last().take(j) =~= tags.take(j));
        lemma_select_error_stays(p, tags.drop_last(), j);
    }
}

pub open spec fn metadata_list_view(v: Seq<RegistryMetadata>) -> Seq<MetadataView> {
    v.map_values(|m: RegistryMetadata| m@)
}

pub open spec fn candidates_view(r: Result<Vec<RegistryMetadata>, String>) -> Result<
    Seq<MetadataView>,
    Seq<char>,
> {
    match r {
        Ok(v) => Ok(metadata_list_view(v@)),
        Err(e) => Err(e@),
    }
}

pub open spec fn metadata_result_view(r: Result<RegistryMetadata, String>) -> Result<
    MetadataView,
    Seq<char>,
> {
    match r {
        Ok(m) => Ok(m@),
        Err(e) => Err(e@),
    }
}

/// Every selected version is a valid version with a release of that
/// version in the document.
pub open spec fn selection_valid(p: PackumentView, selected: Seq<Seq<char>>) -> bool {
    forall|k: int|
        0 <= k < selected.len() ==> {
            &&& is_version(#[trigger] selected[k])
            &&& lookup(p.versions, selected[k]) is Some
            &&& lookup(p.versions, selected[k]).unwrap().version == selected[k]
        }
}

/// The candidates rank the configured releases: their versions descend in
/// semver precedence, each compares equal to itself, and the first has at
/// least the precedence of every release that a configured tag points to.
pub open spec fn ranks_configured(p: PackumentView, tags: Seq<Seq<char>>, c: Seq<MetadataView>) -> bool {
    &&& c.len() > 0
    &&& forall|i: int, j: int|
        0 <= i < j < c.len() ==> semver_order(#[trigger] c[i].version, #[trigger] c[j].version) > 0
    &&& forall|i: int| 0 <= i < c.len() ==> semver_order(#[trigger] c[i].version, c[i].version) == 0
    &&& at_least_configured(p, tags, c[0].version)
}

/// `version` has at least the semver precedence of every release that one
/// of `tags` points to.
pub open spec fn at_least_configured(p: PackumentView, tags: Seq<Seq<char>>, version: Seq<char>) -> bool {
    forall|q: int|
        0 <= q < tags.len() ==> match lookup(p.dist_tags, #[trigger] tags[q]) {
            Some(v) => semver_order(version, v) >= 0,
            None => true,
        }
}

/// The releases that the configured tags point to, highest semver
/// precedence first, each version once.
pub fn select_registry_candidates(packument: &RegistryPackument, tags: &Vec<String>) -> (r: Result<
    Vec<RegistryMetadata>,
    String,
>)
    requires
        packument_wf(packument@),
    ensures
        candidates_view(r) == registry_candidates(packument@, texts(tags@)),
        r matches Ok(c) ==> ranks_configured(packument@, texts(tags@), metadata_list_view(c@)),
{
    let ghost p = packument@;
    let ghost all_tags = texts(tags@);
    if !crate::text::same_text(packument.name.as_str(), "@deepseek-ai/dsh") {
        return Err(owned("The npm registry returned an unexpected package."));
    }
    let mut selected: Vec<String> = Vec::new();
    let mut i: usize = 0;
    assert(all_tags.take(0) =~= Seq::<Seq<char>>::empty());
    assert(texts(selected@) =~= Seq::<Seq<char>>::empty());
    while i < tags.len()
        invariant
            p == packument@,
            all_tags == texts(tags@),
            p.name == "@deepseek-ai/dsh"@,
            i <= tags@.len(),
            select_tags(p, all_tags.take(i as int)) == Ok::<Seq<Seq<char>>, Seq<char>>(
                texts(selected@),
            ),
            selection_valid(p, texts(selected@)),
            strictly_descending(texts(selected@)),
            self_equal(texts(selected@)),
            forall|q: int|
                0 <= q < i ==> match lookup(p.dist_tags, #[trigger] all_tags[q]) {
                    Some(v) => is_version(v) && selected@.len() > 0 && semver_order(
                        selected@[0]@,
                        v,
                    ) >= 0,
                    None => true,
                },
        decreases tags@.len() - i,
    {
        let tag = tags[i].as_str();
        let ghost before = texts(selected@);
        assert(all_tags.take(i + 1).drop_last() =~= all_tags.take(i as int));
        assert(all_tags.take(i + 1).last() == tag@);
        assert(select_tags(p, all_tags.take(i + 1)) == select_tag(p, before, tag@));
        match find_tag(&packument.dist_tags, tag) {
            None => {},
            Some(t) => {
                let version_text = packument.dist_tags[t].1.as_str();
                match find_release(&packument.versions, version_text) {
                    None => {
                        let e = concat3(
                            "The npm registry tag ",
                            tag,
                            " points to missing DSH metadata.",
                        );
                        proof {
                            lemma_select_error_stays(p, all_tags, i + 1);
                        }
                        return Err(e);
                    },
                    Some(m) => {
                        let metadata = &packument.versions[m].1;
                        if !crate::text::same_text(metadata.name.as_str(), packument.name.as_str())
                            || !crate::text::same_text(metadata.version.as_str(), version_text) {
                            let e = concat3(
                                "The npm registry returned inconsistent DSH metadata for tag ",
                                tag,
                                ".",
                            );
                            proof {
                                lemma_select_error_stays(p, all_tags, i + 1);
                            }
                            return Err(e);
                        }
                        match version_error(version_text) {
                            Some(error) => {
                                let e = concat4(
                                    "The npm registry tag ",
                                    tag,
                                    " has an invalid DSH version: ",
                                    error.as_str(),
                                );
                                proof {
                                    lemma_select_error_stays(p, all_tags, i + 1);
                                }
                                return Err(e);
                            },
                            None => {
                                proof {
                                    assert forall|k: int|
                                        0 <= k < selected@.len() implies is_version(
                                        #[trigger] selected@[k]@,
                                    ) by {
                                        assert(texts(selected@)[k] == selected@[k]@);
                                    }
                                }
                                insert_version(&mut selected, version_text.to_owned());
                                proof {
                                    assert forall|k: int|
                                        0 <= k < texts(selected@).len() implies {
                                        &&& is_version(#[trigger] texts(selected@)[k])
                                        &&& lookup(p.versions, texts(selected@)[k]) is Some
                                        &&& lookup(p.versions, texts(selected@)[k]).unwrap().version
                                            == texts(selected@)[k]
                                    } by {
                                        let x = texts(selected@)[k];
                                        assert(insert_by_version(before, version_text@).contains(x));
                                        lemma_insert_elements(before, version_text@, x);
                                        if x != version_text@ {
                                            let q = choose|q: int| 0 <= q < before.len() && before[q] == x;
                                            assert(is_version(before[q]));
                                        }
                                    }
                                }
                            },
                        }
                    },
                }
            },
        }
        i = i + 1;
    }
    assert(all_tags.take(tags@.len() as int) =~= all_tags);
    if selected.len() == 0 {
        return Err(owned("The npm registry returned no configured DSH releases."));
    }
    let ghost chosen = texts(selected@);
    let mut result: Vec<RegistryMetadata> = Vec::new();
    let mut k: usize = 0;
    while k < selected.len()
        invariant
            p == packument@,
            chosen == texts(selected@),
            selection_valid(p, chosen),
            k <= selected@.len(),
            metadata_list_view(result@) == chosen.take(k as int).map_values(
                |t: Seq<char>| lookup(p.versions, t).unwrap(),
            ),
        decreases selected@.len() - k,
    {
        assert(chosen[k as int] == selected@[k as int]@);
        match find_release(&packument.versions, selected[k].as_str()) {
            Some(m) => {
                let copy = packument.versions[m].1.duplicate();
                let ghost before = result@;
                result.push(copy);
                assert(metadata_list_view(result@) =~= metadata_list_view(before).push(copy@));
                assert(chosen.take(k + 1).map_values(|t: Seq<char>| lookup(p.versions, t).unwrap())
                    =~= chosen.take(k as int).map_values(
                    |t: Seq<char>| lookup(p.versions, t).unwrap(),
                ).push(lookup(p.versions, chosen[k as int]).unwrap()));
            },
            None => {
                assert(false);
            },
        }
        k = k + 1;
    }
    assert(chosen.take(selected@.len() as int) =~= chosen);
    proof {
        let c = metadata_list_view(result@);
        assert forall|q: int| 0 <= q < c.len() implies #[trigger] c[q].version == chosen[q] by {
            assert(c[q] == lookup(p.versions, chosen[q]).unwrap());
        }
        assert forall|a: int, b: int| 0 <= a < b < c.len() implies semver_order(
            #[trigger] c[a].version,
            #[trigger] c[b].version,
        ) > 0 by {
            assert(c[a].version == chosen[a] && c[b].version == chosen[b]);
        }
        assert forall|a: int| 0 <= a < c.len() implies semver_order(
            #[trigger] c[a].version,
            c[a].version,
        ) == 0 by {
            assert(c[a].version == chosen[a]);
        }
        assert(c[0].version == selected@[0]@);
        assert forall|q: int| 0 <= q < all_tags.len() implies match lookup(
            p.dist_tags,
            #[trigger] all_tags[q],
        ) {
            Some(v) => semver_order(c[0].version, v) >= 0,
            None => true,
        } by {}
    }
    Ok(result)
}

/// The highest release that the tags select, as `select_registry_candidates`
/// but only its first release.
pub fn select_registry_metadata(packument: &RegistryPackument, tags: &Vec<String>) -> (r: Result<
    RegistryMetadata,
    String,
>)
    requires
        packument_wf(packument@),
    ensures
        metadata_result_view(r) == match registry_candidates(packument@, texts(tags@)) {
            Ok(candidates) => Ok(candidates[0]),
            Err(e) => Err(e),
        },
        r matches Ok(m) ==> at_least_configured(packument@, texts(tags@), m@.version),
{
    let candidates = select_registry_candidates(packument, tags)?;
    assert(metadata_list_view(candidates@).len() == candidates@.len());
    if candidates.len() == 0 {
        return Err(owned("The npm registry returned no configured DSH releases."));
    }
    assert(metadata_list_view(candidates@)[0] == candidates@[0]@);
    Ok(candidates[0].duplicate())
}

/// The release `version` of the document, which must be the DSH package and
/// hold that release under that name and version.
pub open spec fn release_for_version(p: PackumentView, version: Seq<char>) -> Result<
    MetadataView,
    Seq<char>,
> {
    if p.name != "@deepseek-ai/dsh"@ {
        Err("The npm registry returned an unexpected package."@)
    } else {
        match lookup(p.versions, version) {
            None => Err("The confirmed DSH release is no longer available."@),
            Some(m) => if m.name != p.name || m.version != version {
                Err("The confirmed DSH release metadata is inconsistent."@)
            } else {
                Ok(m)
            },
        }
    }
}

/// The metadata of the confirmed release `version`.
pub fn registry_metadata_for_version(packument: &RegistryPackument, version: &str) -> (r: Result<
    RegistryMetadata,
    String,
>)
    requires
        packument_wf(packument@),
    ensures
        metadata_result_view(r) == release_for_version(packument@, version@),
{
    if !crate::text::same_text(packument.name.as_str(), "@deepseek-ai/dsh") {
        return Err(owned("The npm registry returned an unexpected package."));
    }
    match find_release(&packument.versions, version) {
        None => Err(owned("The confirmed DSH release is no longer available.")),
        Some(m) => {
            let metadata = &packument.versions[m].1;
            if !crate::text::same_text(metadata.name.as_str(), packument.name.as_str())
                || !crate::text::same_text(metadata.version.as_str(), version) {
                return Err(owned("The confirmed DSH release metadata is inconsistent."));
            }
            Ok(metadata.duplicate())
        },
    }
}

/// The npm registry document of the DSH package.
pub fn dsh_registry_url() -> (r: String)
    ensures
        r@ == "https://registry.npmjs.org/@deepseek-ai%2Fdsh"@,
{
    owned("https://registry.npmjs.org/@deepseek-ai%2Fdsh")
}

/// The configured distribution tags: the JSON list of the build
/// configuration, which must not be empty.
pub open spec fn configured_tags() -> Result<Seq<Seq<char>>, Seq<char>> {
    match json_string_list(DSH_DIST_TAGS@) {
        Err(e) => Err(e),
        Ok(tags) => if tags.len() == 0 {
            Err("No npm distribution tags are configured for DSH updates."@)
        } else {
            Ok(tags)
        },
    }
}

pub open spec fn texts_result(r: Result<Vec<String>, String>) -> Result<Seq<Seq<char>>, Seq<char>> {
    match r {
        Ok(v) => Ok(texts(v@)),
        Err(e) => Err(e@),
    }
}

/// The distribution tags whose releases are offered as DSH updates.
pub fn configured_dsh_dist_tags() -> (r: Result<Vec<String>, String>)
    ensures
        texts_result(r) == configured_tags(),
{
    let tags = json_strings(DSH_DIST_TAGS)?;
    if tags.len() == 0 {
        return Err(owned("No npm distribution tags are configured for DSH updates."));
    }
    Ok(tags)
}

/// A requirement clause with its whitespace-separated parts joined by
/// commas, the form that `semver::VersionReq` reads.
pub open spec fn normalized_clause(clause: Seq<char>) -> Seq<char> {
    join(words(clause), ", "@)
}

/// Whether one of the clauses accepts `version`, reading them in order and
/// stopping at the first that does; a clause that is not a valid
/// requirement before that is an error.
pub open spec fn clauses_accept(clauses: Seq<Seq<char>>, version: Seq<char>) -> Result<bool, Seq<char>>
    decreases clauses.len(),
{
    if clauses.len() == 0 {
        Ok(false)
    } else {
        let clause = normalized_clause(clauses[0]);
        match semver_requirement_error(clause) {
            Some(e) => Err("The DSH Node.js requirement is invalid: "@ + e),
            None => if semver_requirement_matches(clause, version) {
                Ok(true)
            } else {
                clauses_accept(clauses.drop_first(), version)
            },
        }
    }
}

/// Whether the private Node.js version meets an npm `engines.node`
/// requirement: its `||`-separated alternatives are read as semver
/// requirements and one of them must accept the version.
pub open spec fn node_accepts(requirement: Seq<char>) -> Result<bool, Seq<char>> {
    match semver_version_error(NODE_VERSION@) {
        Some(e) => Err("The private Node.js version is invalid: "@ + e),
        None => clauses_accept(split_on(requirement, "||"@), NODE_VERSION@),
    }
}

pub open spec fn bool_result_view(r: Result<bool, String>) -> Result<bool, Seq<char>> {
    match r {
        Ok(b) => Ok(b),
        Err(e) => Err(e@),
    }
}

/// What semver gave for one clause of a requirement, normalized: the
/// parser's error, or whether the requirement accepts `version`.
pub open spec fn clause_outcome(clause: Seq<char>, version: Seq<char>) -> Result<bool, Seq<char>> {
    match semver_requirement_error(normalized_clause(clause)) {
        Some(e) => Err(e),
        None => Ok(semver_requirement_matches(normalized_clause(clause), version)),
    }
}

/// The verdict on a requirement from what semver gave for its clauses, in
/// order: the first invalid clause is an error, the first accepting clause
/// accepts, and no accepting clause rejects.
pub open spec fn combine_clauses(outcomes: Seq<Result<bool, Seq<char>>>) -> Result<bool, Seq<char>>
    decreases outcomes.len(),
{
    if outcomes.len() == 0 {
        Ok(false)
    } else {
        match outcomes[0] {
            Err(e) => Err("The DSH Node.js requirement is invalid: "@ + e),
            Ok(true) => Ok(true),
            Ok(false) => combine_clauses(outcomes.drop_first()),
        }
    }
}

pub open spec fn outcomes_view(v: Seq<Result<bool, String>>) -> Seq<Result<bool, Seq<char>>> {
    v.map_values(|r: Result<bool, String>| bool_result_view(r))
}

proof fn lemma_clauses_combine(clauses: Seq<Seq<char>>, version: Seq<char>)
    ensures
        clauses_accept(clauses, version) == combine_clauses(
            clauses.map_values(|c: Seq<char>| clause_outcome(c, version)),
        ),
    decreases clauses.len(),
{
    if clauses.len() > 0 {
        lemma_clauses_combine(clauses.drop_first(), version);
        assert(clauses.map_values(|c: Seq<char>| clause_outcome(c, version)).drop_first()
            =~= clauses.drop_first().map_values(|c: Seq<char>| clause_outcome(c, version)));
    }
}

/// The verdict on a requirement from what semver gave for its clauses.
pub fn accept_clauses(outcomes: &Vec<Result<bool, String>>) -> (r: Result<bool, String>)
    ensures
        bool_result_view(r) == combine_clauses(outcomes_view(outcomes@)),
{
    let ghost all = outcomes_view(outcomes@);
    assert(all.skip(0) =~= all);
    let mut i: usize = 0;
    while i < outcomes.len()
        invariant
            all == outcomes_view(outcomes@),
            i <= outcomes@.len(),
            combine_clauses(all) == combine_clauses(all.skip(i as int)),
        decreases outcomes@.len() - i,
    {
        assert(all.skip(i as int)[0] == bool_result_view(outcomes@[i as int]));
        assert(all.skip(i as int).drop_first() =~= all.skip(i + 1));
        match &outcomes[i] {
            Err(error) => {
                return Err(concat("The DSH Node.js requirement is invalid: ", error.as_str()));
            },
            Ok(true) => {
                return Ok(true);
            },
            Ok(false) => {},
        }
        i = i + 1;
    }
    assert(all.skip(i as int) =~= Seq::<Result<bool, Seq<char>>>::empty());
    Ok(false)
}

/// Whether the private Node.js runtime meets a release's Node.js
/// requirement: each clause is read and matched with semver, and the
/// outcomes are combined by `accept_clauses`.
pub fn node_satisfies(requirement: &str) -> (r: Result<bool, String>)
    ensures
        bool_result_view(r) == node_accepts(requirement@),
{
    if let Some(error) = version_error(NODE_VERSION) {
        return Err(concat("The private Node.js version is invalid: ", error.as_str()));
    }
    proof {
        reveal_strlit("||");
    }
    let clauses = split_text(requirement, "||");
    let ghost all = texts(clauses@);
    let ghost expected = all.map_values(|c: Seq<char>| clause_outcome(c, NODE_VERSION@));
    let mut outcomes: Vec<Result<bool, String>> = Vec::new();
    let mut i: usize = 0;
    while i < clauses.len()
        invariant
            all == texts(clauses@),
            expected == all.map_values(|c: Seq<char>| clause_outcome(c, NODE_VERSION@)),
            is_version(NODE_VERSION@),
            i <= clauses@.len(),
            outcomes_view(outcomes@) == expected.take(i as int),
        decreases clauses@.len() - i,
    {
        assert(all[i as int] == clauses@[i as int]@);
        let parts = split_words(clauses[i].as_str());
        let normalized = join_texts(&parts, ", ");
        let outcome = match requirement_error(normalized.as_str()) {
            Some(error) => Err(error),
            None => Ok(requirement_matches(normalized.as_str(), NODE_VERSION)),
        };
        let ghost before = outcomes@;
        outcomes.push(outcome);
        assert(outcomes_view(outcomes@) =~= outcomes_view(before).push(bool_result_view(outcome)));
        assert(expected.take(i + 1) =~= expected.take(i as int).push(expected[i as int]));
        i = i + 1;
    }
    assert(expected.take(i as int) =~= expected);
    proof {
        lemma_clauses_combine(all, NODE_VERSION@);
    }
    accept_clauses(&outcomes)
}

proof fn lemma_clauses_read_all_comparators(clauses: Seq<Seq<char>>, version: Seq<char>)
    ensures
        clauses_accept(clauses, version) == Ok::<bool, Seq<char>>(true) ==> exists|i: int|
            0 <= i < clauses.len() && semver_requirement_error(join(words(#[trigger] clauses[i]), ", "@))
                is None && semver_requirement_matches(join(words(clauses[i]), ", "@), version),
        clauses_accept(clauses, version) == Ok::<bool, Seq<char>>(false) ==> forall|i: int|
            0 <= i < clauses.len() ==> semver_requirement_error(join(words(#[trigger] clauses[i]), ", "@))
                is None && !semver_requirement_matches(join(words(clauses[i]), ", "@), version),
    decreases clauses.len(),
{
    if clauses.len() > 0 {
        let rest = clauses.drop_first();
        lemma_clauses_read_all_comparators(rest, version);
        if clauses_accept(clauses, version) == Ok::<bool, Seq<char>>(true) {
            if !semver_requirement_matches(join(words(clauses[0]), ", "@), version) {
                let i = choose|i: int|
                    0 <= i < rest.len() && semver_requirement_error(join(words(#[trigger] rest[i]), ", "@))
                        is None && semver_requirement_matches(join(words(rest[i]), ", "@), version);
                assert(clauses[i + 1] == rest[i]);
            }
        }
        if clauses_accept(clauses, version) == Ok::<bool, Seq<char>>(false) {
            assert forall|i: int| 0 <= i < clauses.len() implies semver_requirement_error(
                join(words(#[trigger] clauses[i]), ", "@),
            ) is None && !semver_requirement_matches(join(words(clauses[i]), ", "@), version) by {
                if i > 0 {
                    assert(clauses[i] == rest[i - 1]);
                }
            }
        }
    }
}

/// Each comparator of a clause counts: a clause between `||` marks is taken
/// with all of its words, joined by ", ", as one semver requirement. The
/// private Node.js version is accepted only if some clause, taken with all
/// of its words, is valid and matches it, and it is refused only if every
/// such clause is valid and does not match it.
pub proof fn lemma_every_comparator_constrains(requirement: Seq<char>)
    ensures
        node_accepts(requirement) == Ok::<bool, Seq<char>>(true) ==> exists|i: int|
            0 <= i < split_on(requirement, "||"@).len() && semver_requirement_error(
                join(words(#[trigger] split_on(requirement, "||"@)[i]), ", "@),
            ) is None && semver_requirement_matches(
                join(words(split_on(requirement, "||"@)[i]), ", "@),
                NODE_VERSION@,
            ),
        node_accepts(requirement) == Ok::<bool, Seq<char>>(false) ==> forall|i: int|
            0 <= i < split_on(requirement, "||"@).len() ==> semver_requirement_error(
                join(words(#[trigger] split_on(requirement, "||"@)[i]), ", "@),
            ) is None && !semver_requirement_matches(
                join(words(split_on(requirement, "||"@)[i]), ", "@),
                NODE_VERSION@,
            ),
{
    lemma_clauses_read_all_comparators(split_on(requirement, "||"@), NODE_VERSION@);
}

/// Whether a release may be installed with the private Node.js runtime: a
/// release without a Node.js requirement may.
pub open spec fn release_compatible(m: MetadataView) -> Result<bool, Seq<char>> {
    match node_requirement(m) {
        Some(requirement) => node_accepts(requirement),
        None => Ok(true),
    }
}

/// The first of the candidates that the private Node.js runtime can run.
pub open spec fn first_compatible(candidates: Seq<MetadataView>) -> Result<MetadataView, Seq<char>>
    decreases candidates.len(),
{
    if candidates.len() == 0 {
        Err("This DSH release requires a newer private Node.js runtime."@)
    } else {
        match release_compatible(candidates[0]) {
            Err(e) => Err(e),
            Ok(true) => Ok(candidates[0]),
            Ok(false) => first_compatible(candidates.drop_first()),
        }
    }
}

/// The release to install: of the releases that the configured tags select,
/// the highest that the private Node.js runtime can run.
pub open spec fn compatible_release(p: PackumentView) -> Result<MetadataView, Seq<char>> {
    match configured_tags() {
        Err(e) => Err(e),
        Ok(tags) => match registry_candidates(p, tags) {
            Err(e) => Err(e),
            Ok(candidates) => first_compatible(candidates),
        },
    }
}

/// `version` has at least the semver precedence of every candidate that
/// the private Node.js runtime can run.
pub open spec fn highest_compatible(c: Seq<MetadataView>, version: Seq<char>) -> bool {
    forall|i: int|
        0 <= i < c.len() && release_compatible(#[trigger] c[i]) == Ok::<bool, Seq<char>>(true)
            ==> semver_order(version, c[i].version) >= 0
}

/// The highest configured release that the private Node.js runtime can run.
pub fn select_compatible_registry_metadata(packument: &RegistryPackument) -> (r: Result<
    RegistryMetadata,
    String,
>)
    requires
        packument_wf(packument@),
    ensures
        metadata_result_view(r) == compatible_release(packument@),
        r matches Ok(m) ==> {
            &&& release_compatible(m@) == Ok::<bool, Seq<char>>(true)
            &&& configured_tags() matches Ok(tags) && registry_candidates(packument@, tags) matches Ok(
                c,
            ) && highest_compatible(c, m@.version)
        },
{
    let tags = configured_dsh_dist_tags()?;
    let candidates = select_registry_candidates(packument, &tags)?;
    let ghost all = metadata_list_view(candidates@);
    assert(all.skip(0) =~= all);
    assert(compatible_release(packument@) == first_compatible(all));
    let mut i: usize = 0;
    while i < candidates.len()
        invariant
            all == metadata_list_view(candidates@),
            compatible_release(packument@) == first_compatible(all),
            i <= candidates@.len(),
            first_compatible(all) == first_compatible(all.skip(i as int)),
            configured_tags() == Ok::<Seq<Seq<char>>, Seq<char>>(texts(tags@)),
            ranks_configured(packument@, texts(tags@), all),
            registry_candidates(packument@, texts(tags@)) == Ok::<Seq<MetadataView>, Seq<char>>(all),
            forall|k: int|
                0 <= k < i ==> release_compatible(#[trigger] all[k]) == Ok::<bool, Seq<char>>(false),
        decreases candidates@.len() - i,
    {
        assert(all.skip(i as int)[0] == candidates@[i as int]@);
        assert(all.skip(i as int).drop_first() =~= all.skip(i + 1));
        let compatible = match candidates[i].node_requirement() {
            Some(requirement) => node_satisfies(requirement)?,
            None => true,
        };
        assert(all[i as int] == candidates@[i as int]@);
        if compatible {
            proof {
                assert forall|k: int|
                    0 <= k < all.len() && release_compatible(#[trigger] all[k]) == Ok::<
                        bool,
                        Seq<char>,
                    >(true) implies semver_order(all[i as int].version, all[k].version) >= 0 by {
                    if k > i {
                        assert(semver_order(all[i as int].version, all[k].version) > 0);
                    } else if k == i {
                        assert(semver_order(all[k].version, all[k].version) == 0);
                    }
                }
            }
            return Ok(candidates[i].duplicate());
        }
        i = i + 1;
    }
    assert(all.skip(i as int) =~= Seq::<MetadataView>::empty());
    Err(owned("This DSH release requires a newer private Node.js runtime."))
}

/// Whether a confirmed release may be downloaded: its Node.js requirement,
/// if it states one, must accept the private Node.js runtime.
pub open spec fn confirmed_release_check(m: MetadataView) -> Result<(), Seq<char>> {
    match node_requirement(m) {
        None => Ok(()),
        Some(requirement) => match node_accepts(requirement) {
            Err(e) => Err(e),
            Ok(true) => Ok(()),
            Ok(false) => Err("This DSH release requires a newer private Node.js runtime."@),
        },
    }
}

/// Checks a confirmed release's Node.js requirement.
pub fn check_confirmed_release(metadata: &RegistryMetadata) -> (r: Result<(), String>)
    ensures
        match r {
            Ok(()) => confirmed_release_check(metadata@) == Ok::<(), Seq<char>>(()),
            Err(e) => confirmed_release_check(metadata@) == Err::<(), Seq<char>>(e@),
        },
{
    if let Some(requirement) = metadata.node_requirement() {
        if !node_satisfies(requirement)? {
            return Err(owned("This DSH release requires a newer private Node.js runtime."));
        }
    }
    Ok(())
}

} // verus!
