//! Deciding which of the extensions found on disk Warp will run.
//!
//! Listing the extensions directory and reading each manifest happen at the
//! edge; what a directory's contents amount to, and which directory wins an
//! id claimed twice, is decided here.
use std::path::PathBuf;

use vstd::prelude::*;

use crate::protocol::manifest::{ExtensionManifest, ManifestError, ManifestFault, fault_text, manifest_check};
use crate::text::{chars_of, push_str, same};

verus! {

/// Overrides the extensions root, used by tests and packaging.
pub const EXTENSIONS_DIR_ENV: &'static str = "WARP_EXTENSIONS_DIR";

/// One directory that claimed to be an extension.
///
/// Invalid extensions are kept rather than dropped so the UI can tell the user
/// why an extension they installed is not running.
#[derive(Debug)]
pub struct DiscoveredExtension {
    pub directory: PathBuf,
    pub record: ExtensionRecord,
}

#[derive(Debug)]
pub enum ExtensionRecord {
    Valid {
        manifest: Box<ExtensionManifest>,
        /// The manifest's `command`, resolved inside the extension directory.
        executable: PathBuf,
    },
    Invalid { reason: ValidationError },
}

#[derive(Debug, Clone, PartialEq, Eq)]
pub enum ValidationError {
    Manifest(ManifestError),
    Unreadable(String),
    MissingExecutable(String),
    DuplicateId { id: String, first: String },
}

/// A [`ValidationError`] as plain values.
pub enum ValidationFault {
    Manifest(ManifestFault),
    Unreadable(Seq<char>),
    MissingExecutable(Seq<char>),
    DuplicateId { id: Seq<char>, first: Seq<char> },
}

impl View for ValidationError {
    type V = ValidationFault;

    open spec fn view(&self) -> ValidationFault {
        match self {
            ValidationError::Manifest(e) => ValidationFault::Manifest(e@),
            ValidationError::Unreadable(s) => ValidationFault::Unreadable(s@),
            ValidationError::MissingExecutable(s) => ValidationFault::MissingExecutable(s@),
            ValidationError::DuplicateId { id, first } => ValidationFault::DuplicateId { id: id@, first: first@ },
        }
    }
}

/// The sentence each reason is shown as.
pub open spec fn validation_text(f: ValidationFault) -> Seq<char> {
    match f {
        ValidationFault::Manifest(e) => fault_text(e),
        ValidationFault::Unreadable(s) => "could not read extension.toml: "@ + s,
        ValidationFault::MissingExecutable(s) => "declared command `"@ + s
            + "` does not exist in the extension directory"@,
        ValidationFault::DuplicateId { id, first } => "extension id `"@ + id + "` is already provided by `"@ + first
            + "`"@,
    }
}

impl ValidationError {
    /// The sentence this reason is shown as.
    pub fn message(&self) -> (s: String)
        ensures
            s@ == validation_text(self@),
    {
        match self {
            ValidationError::Manifest(e) => e.message(),
            ValidationError::Unreadable(detail) => {
                let mut s = String::from_str("could not read extension.toml: ");
                push_str(&mut s, detail.as_str());
                s
            },
            ValidationError::MissingExecutable(command) => {
                let mut s = String::from_str("declared command `");
                push_str(&mut s, command.as_str());
                push_str(&mut s, "` does not exist in the extension directory");
                s
            },
            ValidationError::DuplicateId { id, first } => {
                let mut s = String::from_str("extension id `");
                push_str(&mut s, id.as_str());
                push_str(&mut s, "` is already provided by `");
                push_str(&mut s, first.as_str());
                push_str(&mut s, "`");
                s
            },
        }
    }
}

/// The id a record claims: its manifest's id when it is valid.
pub open spec fn claimed_id(r: ExtensionRecord) -> Option<Seq<char>> {
    match r {
        ExtensionRecord::Valid { manifest, .. } => Some(manifest.id@),
        ExtensionRecord::Invalid { .. } => None,
    }
}

impl DiscoveredExtension {
    pub fn manifest(&self) -> (m: Option<&ExtensionManifest>)
        ensures
            match self.record {
                ExtensionRecord::Valid { manifest, .. } => m == Some(&*manifest),
                ExtensionRecord::Invalid { .. } => m is None,
            },
    {
        match &self.record {
            ExtensionRecord::Valid { manifest, .. } => Some(&**manifest),
            ExtensionRecord::Invalid { .. } => None,
        }
    }

    pub fn id(&self) -> (id: Option<&str>)
        ensures
            match claimed_id(self.record) {
                Some(claimed) => id matches Some(s) && s@ == claimed,
                None => id is None,
            },
    {
        match self.manifest() {
            Some(manifest) => Some(manifest.id.as_str()),
            None => None,
        }
    }
}

/// A parsed manifest that passed validation, or why it cannot be used; the
/// command path is read by the platform's rules, Windows ones or not.
pub fn vet(parsed: Result<ExtensionManifest, ManifestError>) -> (r: Result<ExtensionManifest, ValidationError>)
    ensures
        match parsed {
            Err(e) => r matches Err(v) && v@ == ValidationFault::Manifest(e@),
            Ok(m) => exists|windows: bool| match #[trigger] manifest_check(m, windows) {
                Ok(()) => r == Ok::<ExtensionManifest, ValidationError>(m),
                Err(f) => r matches Err(v) && v@ == ValidationFault::Manifest(f),
            },
        },
{
    match parsed {
        Err(e) => Err(ValidationError::Manifest(e)),
        Ok(manifest) => match manifest.validate() {
            Ok(()) => Ok(manifest),
            Err(e) => Err(ValidationError::Manifest(e)),
        },
    }
}

/// The record for a validated manifest whose command resolved to
/// `executable`: usable only when that is a file.
pub fn record_for(manifest: ExtensionManifest, executable: PathBuf, executable_is_file: bool) -> (r: ExtensionRecord)
    ensures
        executable_is_file ==> (r matches ExtensionRecord::Valid { manifest: m, executable: e } && *m == manifest
            && e == executable),
        !executable_is_file ==> (r matches ExtensionRecord::Invalid { reason }
            && reason@ == ValidationFault::MissingExecutable(manifest.command@)),
{
    if !executable_is_file {
        return ExtensionRecord::Invalid { reason: ValidationError::MissingExecutable(manifest.command.clone()) };
    }
    ExtensionRecord::Valid { manifest: Box::new(manifest), executable }
}

/// The first of the first `n` records claiming `id`, if any does.
pub open spec fn first_claimant(ids: Seq<Option<Seq<char>>>, id: Seq<char>, n: int) -> Option<int> {
    if exists|j: int| 0 <= j < n && ids[j] == Some(id) {
        Some(choose|j: int| 0 <= j < n && ids[j] == Some(id) && forall|i: int| 0 <= i < j ==> ids[i] != Some(id))
    } else {
        None
    }
}

/// What becomes of the `k`th of the `found` records, in directory order:
/// a valid record whose id an earlier directory already claimed is invalid,
/// naming that first directory; every other record stands.
pub open spec fn settled(found: Seq<DiscoveredExtension>, names: Seq<Seq<char>>, out: DiscoveredExtension, k: int) -> bool {
    let ids = found.map_values(|d: DiscoveredExtension| claimed_id(d.record));
    match ids[k] {
        Some(id) => match first_claimant(ids, id, k) {
            Some(j) => {
                &&& out.directory == found[k].directory
                &&& out.record matches ExtensionRecord::Invalid { reason }
                &&& reason@ == (ValidationFault::DuplicateId { id, first: names[j] })
            },
            None => out == found[k],
        },
        None => out == found[k],
    }
}

/// True when directory name `a` sorts strictly before `b`: character by
/// character, a shorter name before any longer one it begins.
pub open spec fn name_before(a: Seq<char>, b: Seq<char>) -> bool
    decreases a.len(),
{
    if a.len() == 0 {
        b.len() > 0
    } else if b.len() == 0 {
        false
    } else if a[0] != b[0] {
        a[0] < b[0]
    } else {
        name_before(a.drop_first(), b.drop_first())
    }
}

/// No name sorts before itself and before a name that sorts before it.
pub proof fn lemma_name_before_is_asymmetric(a: Seq<char>, b: Seq<char>)
    ensures
        name_before(a, b) ==> !name_before(b, a),
    decreases a.len(),
{
    if a.len() > 0 && b.len() > 0 && a[0] == b[0] {
        lemma_name_before_is_asymmetric(a.drop_first(), b.drop_first());
    }
}

fn sorts_before(a: &Vec<char>, b: &Vec<char>) -> (r: bool)
    ensures
        r == name_before(a@, b@),
{
    let mut i: usize = 0;
    assert(a@.skip(0) =~= a@);
    assert(b@.skip(0) =~= b@);
    while i < a.len() && i < b.len() && a[i] == b[i]
        invariant
            0 <= i <= a@.len(),
            i <= b@.len(),
            forall|j: int| 0 <= j < i ==> a@[j] == b@[j],
            name_before(a@, b@) == name_before(a@.skip(i as int), b@.skip(i as int)),
        decreases a@.len() - i,
    {
        assert(a@.skip(i as int).drop_first() =~= a@.skip(i + 1));
        assert(b@.skip(i as int).drop_first() =~= b@.skip(i + 1));
        i += 1;
    }
    if i == a.len() {
        i < b.len()
    } else if i == b.len() {
        false
    } else {
        a[i] < b[i]
    }
}

/// True when `order` lists the names in sorted order: no name comes right
/// after one it sorts before.
pub open spec fn in_name_order(names: Seq<Seq<char>>, order: Seq<usize>) -> bool {
    forall|i: int| 0 <= i < order.len() - 1 ==> !name_before(names[order[i + 1] as int], #[trigger] names[order[i] as int])
}

/// True when `order` holds each index below `n` exactly once.
pub open spec fn is_ordering(order: Seq<usize>, n: nat) -> bool {
    &&& order.len() == n
    &&& forall|i: int| 0 <= i < order.len() ==> #[trigger] order[i] < n
    &&& forall|i: int, j: int| 0 <= i < j < order.len() ==> order[i] != order[j]
    &&& forall|x: int| 0 <= x < n ==> #[trigger] lists(order, x)
}

/// True when `order` holds the index `x`.
pub open spec fn lists(order: Seq<usize>, x: int) -> bool {
    exists|i: int| 0 <= i < order.len() && order[i] == x
}

/// The order candidate directories are looked at in, by name, so the winner
/// of an id claimed twice is the same on every machine whatever order the
/// directory listing came in.
pub fn discovery_order(names: &Vec<String>) -> (order: Vec<usize>)
    ensures
        is_ordering(order@, names@.len()),
        in_name_order(names@.map_values(|s: String| s@), order@),
{
    let ghost ns = names@.map_values(|s: String| s@);
    let mut keys: Vec<Vec<char>> = Vec::new();
    let mut k: usize = 0;
    while k < names.len()
        invariant
            0 <= k <= names@.len(),
            ns == names@.map_values(|s: String| s@),
            keys@.len() == k,
            forall|j: int| 0 <= j < k ==> (#[trigger] keys@[j])@ == ns[j],
        decreases names@.len() - k,
    {
        keys.push(chars_of(names[k].as_str()));
        k += 1;
    }
    let mut order: Vec<usize> = Vec::new();
    let mut k: usize = 0;
    while k < names.len()
        invariant
            0 <= k <= names@.len(),
            keys@.len() == names@.len(),
            forall|j: int| 0 <= j < names@.len() ==> (#[trigger] keys@[j])@ == ns[j],
            is_ordering(order@, k as nat),
            in_name_order(ns, order@),
        decreases names@.len() - k,
    {
        let ghost prior = order@;
        order.push(k);
        assert forall|x: int| 0 <= x < k + 1 implies #[trigger] lists(order@, x) by {
            if x == k {
                assert(order@[k as int] == x);
            } else {
                assert(lists(prior, x));
                let i = choose|i: int| 0 <= i < prior.len() && prior[i] == x;
                assert(order@[i] == x);
            }
        }
        let mut j: usize = k;
        while j > 0 && sorts_before(&keys[k], &keys[order[j - 1]])
            invariant
                0 <= j <= k < names@.len(),
                keys@.len() == names@.len(),
                forall|m: int| 0 <= m < names@.len() ==> (#[trigger] keys@[m])@ == ns[m],
                is_ordering(order@, (k + 1) as nat),
                order@[j as int] == k,
                forall|i: int| 0 <= i < order@.len() - 1 && i != j - 1 && i != j
                    ==> !name_before(ns[order@[i + 1] as int], #[trigger] ns[order@[i] as int]),
                0 < j && j + 1 < order@.len() ==> !name_before(ns[order@[j + 1] as int], ns[order@[j - 1] as int]),
                j + 1 < order@.len() ==> !name_before(ns[order@[j + 1] as int], ns[order@[j as int] as int]),
            decreases j,
        {
            let ghost before = order@;
            let prev = order[j - 1];
            proof {
                lemma_name_before_is_asymmetric(ns[k as int], ns[prev as int]);
            }
            order.set(j - 1, k);
            order.set(j, prev);
            assert forall|a: int, b: int| 0 <= a < b < order@.len() implies order@[a] != order@[b] by {
                assert(before[a] != before[b] || a == b);
                if a == j - 1 || a == j || b == j - 1 || b == j {
                    assert(before[j - 1] != before[j as int]);
                }
            }
            assert forall|x: int| 0 <= x < k + 1 implies #[trigger] lists(order@, x) by {
                assert(lists(before, x));
                let i = choose|i: int| 0 <= i < before.len() && before[i] == x;
                if i == j - 1 {
                    assert(order@[j as int] == x);
                } else if i == j {
                    assert(order@[j - 1] == x);
                } else {
                    assert(order@[i] == x);
                }
            }
            j -= 1;
        }
        k += 1;
    }
    order
}

/// Of two different names, one sorts before the other.
proof fn lemma_name_before_is_total(a: Seq<char>, b: Seq<char>)
    requires
        a != b,
    ensures
        name_before(a, b) || name_before(b, a),
    decreases a.len(),
{
    if a.len() == 0 {
        if b.len() == 0 {
            assert(a =~= b);
        }
    } else if b.len() > 0 && a[0] == b[0] {
        if a.drop_first() == b.drop_first() {
            assert(a.drop_first().len() == a.len() - 1);
            assert(b.drop_first().len() == b.len() - 1);
            assert(a.len() == b.len());
            assert(a =~= b) by {
                assert forall|i: int| 0 <= i < a.len() implies a[i] == b[i] by {
                    if i > 0 {
                        assert(a[i] == a.drop_first()[i - 1]);
                        assert(b[i] == b.drop_first()[i - 1]);
                    }
                }
            }
        }
        lemma_name_before_is_total(a.drop_first(), b.drop_first());
    }
}

proof fn lemma_name_before_is_transitive(a: Seq<char>, b: Seq<char>, c: Seq<char>)
    requires
        name_before(a, b),
        name_before(b, c),
    ensures
        name_before(a, c),
    decreases a.len(),
{
    if a.len() > 0 && a[0] == b[0] && b[0] == c[0] {
        lemma_name_before_is_transitive(a.drop_first(), b.drop_first(), c.drop_first());
    }
}

/// The names `order` lists, in its order.
pub open spec fn listed(names: Seq<Seq<char>>, order: Seq<usize>) -> Seq<Seq<char>> {
    order.map_values(|i: usize| names[i as int])
}

/// Every name sorts before every later one.
pub open spec fn strictly_sorted(l: Seq<Seq<char>>) -> bool {
    forall|i: int, j: int| 0 <= i < j < l.len() ==> name_before(#[trigger] l[i], #[trigger] l[j])
}

proof fn lemma_sorted_pair(l: Seq<Seq<char>>, i: int, j: int)
    requires
        forall|k: int| 0 <= k < l.len() - 1 ==> !name_before(l[k + 1], #[trigger] l[k]),
        forall|a: int, b: int| 0 <= a < b < l.len() ==> l[a] != l[b],
        0 <= i < j < l.len(),
    ensures
        name_before(l[i], l[j]),
    decreases j - i,
{
    assert(!name_before(l[j], l[j - 1]));
    lemma_name_before_is_total(l[j - 1], l[j]);
    if j - 1 > i {
        lemma_sorted_pair(l, i, j - 1);
        lemma_name_before_is_transitive(l[i], l[j - 1], l[j]);
    }
}

proof fn lemma_sorted_drop_first(l: Seq<Seq<char>>)
    requires
        strictly_sorted(l),
        l.len() > 0,
    ensures
        strictly_sorted(l.drop_first()),
        l.drop_first().to_set() == l.to_set().remove(l[0]),
{
    assert forall|i: int, j: int| 0 <= i < j < l.drop_first().len() implies name_before(
        #[trigger] l.drop_first()[i],
        #[trigger] l.drop_first()[j],
    ) by {
        assert(name_before(l[i + 1], l[j + 1]));
    }
    assert forall|x: Seq<char>| #[trigger] l.drop_first().to_set().contains(x) == l.to_set().remove(l[0]).contains(x) by {
        if l.drop_first().contains(x) {
            let i = choose|i: int| 0 <= i < l.drop_first().len() && l.drop_first()[i] == x;
            assert(l[i + 1] == x);
            assert(name_before(l[0], l[i + 1]));
            lemma_name_before_is_asymmetric(l[0], l[0]);
        }
        if l.contains(x) && x != l[0] {
            let i = choose|i: int| 0 <= i < l.len() && l[i] == x;
            assert(l.drop_first()[i - 1] == x);
        }
    }
    assert(l.drop_first().to_set() =~= l.to_set().remove(l[0]));
}

/// Two strictly sorted sequences of the same names are the same sequence.
proof fn lemma_sorted_is_unique(l1: Seq<Seq<char>>, l2: Seq<Seq<char>>)
    requires
        strictly_sorted(l1),
        strictly_sorted(l2),
        l1.to_set() == l2.to_set(),
    ensures
        l1 == l2,
    decreases l1.len(),
{
    if l1.len() == 0 {
        if l2.len() > 0 {
            assert(l2.to_set().contains(l2[0]));
        }
        assert(l1 =~= l2);
    } else {
        assert(l1.to_set().contains(l1[0]));
        assert(l2.contains(l1[0]));
        assert(l2.len() > 0);
        assert(l2.to_set().contains(l2[0]));
        assert(l1.contains(l2[0]));
        if l1[0] != l2[0] {
            let p = choose|p: int| 0 <= p < l1.len() && l1[p] == l2[0];
            let q = choose|q: int| 0 <= q < l2.len() && l2[q] == l1[0];
            assert(name_before(l1[0], l1[p]));
            assert(name_before(l2[0], l2[q]));
            lemma_name_before_is_asymmetric(l1[0], l2[0]);
        }
        lemma_sorted_drop_first(l1);
        lemma_sorted_drop_first(l2);
        lemma_sorted_is_unique(l1.drop_first(), l2.drop_first());
        assert(l1 =~= l2) by {
            assert forall|i: int| 0 <= i < l1.len() implies l1[i] == l2[i] by {
                if i > 0 {
                    assert(l1[i] == l1.drop_first()[i - 1]);
                    assert(l2[i] == l2.drop_first()[i - 1]);
                }
            }
        }
    }
}

proof fn lemma_listed_is_sorted(names: Seq<Seq<char>>, order: Seq<usize>)
    requires
        is_ordering(order, names.len()),
        in_name_order(names, order),
        forall|i: int, j: int| 0 <= i < j < names.len() ==> names[i] != names[j],
    ensures
        strictly_sorted(listed(names, order)),
        listed(names, order).to_set() == names.to_set(),
{
    let l = listed(names, order);
    assert forall|a: int, b: int| 0 <= a < b < l.len() implies l[a] != l[b] by {
        if order[a] < order[b] {
            assert(names[order[a] as int] != names[order[b] as int]);
        } else {
            assert(order[a] != order[b]);
            assert(names[order[b] as int] != names[order[a] as int]);
        }
    }
    assert forall|k: int| 0 <= k < l.len() - 1 implies !name_before(l[k + 1], #[trigger] l[k]) by {
        assert(!name_before(names[order[k + 1] as int], names[order[k] as int]));
    }
    assert forall|i: int, j: int| 0 <= i < j < l.len() implies name_before(#[trigger] l[i], #[trigger] l[j]) by {
        lemma_sorted_pair(l, i, j);
    }
    assert forall|x: Seq<char>| #[trigger] l.to_set().contains(x) == names.to_set().contains(x) by {
        if l.contains(x) {
            let i = choose|i: int| 0 <= i < l.len() && l[i] == x;
            assert(names[order[i] as int] == x);
        }
        if names.contains(x) {
            let m = choose|m: int| 0 <= m < names.len() && names[m] == x;
            assert(lists(order, m));
            let i = choose|i: int| 0 <= i < order.len() && order[i] == m;
            assert(l[i] == x);
        }
    }
    assert(l.to_set() =~= names.to_set());
}

/// Whatever order a directory listing comes in, the directories are looked at
/// in the same order: two [`discovery_order`]s of the same, distinct names
/// list them identically. So the directory that wins an id claimed twice is
/// the same on every machine.
pub proof fn lemma_discovery_order_is_the_same_everywhere(
    names1: Seq<Seq<char>>,
    order1: Seq<usize>,
    names2: Seq<Seq<char>>,
    order2: Seq<usize>,
)
    requires
        is_ordering(order1, names1.len()),
        in_name_order(names1, order1),
        is_ordering(order2, names2.len()),
        in_name_order(names2, order2),
        forall|i: int, j: int| 0 <= i < j < names1.len() ==> names1[i] != names1[j],
        forall|i: int, j: int| 0 <= i < j < names2.len() ==> names2[i] != names2[j],
        names1.to_set() == names2.to_set(),
    ensures
        listed(names1, order1) == listed(names2, order2),
{
    lemma_listed_is_sorted(names1, order1);
    lemma_listed_is_sorted(names2, order2);
    lemma_sorted_is_unique(listed(names1, order1), listed(names2, order2));
}

/// Settles which directory provides each extension id.
///
/// `found` is in directory order and `names[k]` is the name of the `k`th
/// directory. Putting the directories in [`discovery_order`] first makes the
/// winner of a collision the same on every machine.
pub fn settle_ids(found: Vec<DiscoveredExtension>, names: &Vec<String>) -> (out: Vec<DiscoveredExtension>)
    requires
        names@.len() == found@.len(),
    ensures
        out@.len() == found@.len(),
        forall|k: int| 0 <= k < found@.len() ==> settled(found@, names@.map_values(|s: String| s@), #[trigger] out@[k], k),
{
    let ghost orig = found@;
    let ghost ids = orig.map_values(|d: DiscoveredExtension| claimed_id(d.record));
    let ghost ns = names@.map_values(|s: String| s@);
    let n = found.len();
    // The id each earlier directory claimed, in directory order.
    let mut seen: Vec<Option<String>> = Vec::new();
    let mut out: Vec<DiscoveredExtension> = Vec::new();
    let mut rest = found;
    while rest.len() > 0
        invariant
            out@.len() + rest@.len() == n,
            n == orig.len(),
            names@.len() == n,
            ids == orig.map_values(|d: DiscoveredExtension| claimed_id(d.record)),
            ns == names@.map_values(|s: String| s@),
            rest@ == orig.skip(out@.len() as int),
            seen@.len() == out@.len(),
            forall|j: int| 0 <= j < seen@.len() ==> (#[trigger] seen@[j]).deep_view() == ids[j],
            forall|k: int| 0 <= k < out@.len() ==> settled(orig, ns, #[trigger] out@[k], k),
        decreases rest@.len(),
    {
        let k = out.len();
        let item = rest.remove(0);
        assert(item == orig[k as int]);
        assert(orig.skip(k as int).drop_first() =~= orig.skip(k + 1));
        let claimed: Option<String> = match &item.record {
            ExtensionRecord::Valid { manifest, .. } => Some(manifest.id.clone()),
            ExtensionRecord::Invalid { .. } => None,
        };
        assert(claimed.deep_view() == ids[k as int]);
        let mut settled_item = item;
        if let Some(id) = &claimed {
            let mut j: usize = 0;
            let mut first: Option<usize> = None;
            while j < k
                invariant
                    0 <= j <= k,
                    k == seen@.len(),
                    k < names@.len(),
                    ids[k as int] == Some(id@),
                    forall|i: int| 0 <= i < seen@.len() ==> (#[trigger] seen@[i]).deep_view() == ids[i],
                    first matches Some(f) ==> f < k && ids[f as int] == Some(id@)
                        && forall|i: int| 0 <= i < f ==> ids[i] != Some(id@),
                    first is None ==> forall|i: int| 0 <= i < j ==> ids[i] != Some(id@),
                decreases k - j,
            {
                if first.is_none() {
                    let hit = match &seen[j] {
                        Some(other) => same(other.as_str(), id.as_str()),
                        None => false,
                    };
                    if hit {
                        assert(ids[j as int] == Some(id@));
                        first = Some(j);
                    } else {
                        assert(seen@[j as int].deep_view() == ids[j as int]);
                        assert(ids[j as int] != Some(id@));
                    }
                }
                j += 1;
            }
            match first {
                Some(j) => {
                    proof {
                        let c = first_claimant(ids, id@, k as int);
                        assert(ids[j as int] == Some(id@));
                        let w = choose|w: int| 0 <= w < k && ids[w] == Some(id@)
                            && forall|i: int| 0 <= i < w ==> ids[i] != Some(id@);
                        if w < j { assert(ids[w] != Some(id@)); }
                        if w > j { assert(ids[j as int] != Some(id@)); }
                    }
                    let reason = ValidationError::DuplicateId { id: id.clone(), first: names[j].clone() };
                    settled_item = DiscoveredExtension {
                        directory: settled_item.directory,
                        record: ExtensionRecord::Invalid { reason },
                    };
                },
                None => {
                    assert(!exists|w: int| 0 <= w < k && ids[w] == Some(id@));
                    assert(first_claimant(ids, id@, k as int) is None);
                },
            }
        }
        assert(settled(orig, ns, settled_item, k as int));
        seen.push(claimed);
        out.push(settled_item);
    }
    out
}

/// After settling, each id is provided by at most one directory: no two
/// valid records claim the same id.
pub proof fn lemma_settled_ids_are_unique(
    found: Seq<DiscoveredExtension>,
    names: Seq<Seq<char>>,
    out: Seq<DiscoveredExtension>,
    a: int,
    b: int,
)
    requires
        out.len() == found.len(),
        forall|k: int| 0 <= k < found.len() ==> settled(found, names, #[trigger] out[k], k),
        0 <= a < b < out.len(),
        claimed_id(out[a].record) is Some,
    ensures
        claimed_id(out[b].record) != claimed_id(out[a].record),
{
    let ids = found.map_values(|d: DiscoveredExtension| claimed_id(d.record));
    assert(settled(found, names, out[a], a));
    assert(settled(found, names, out[b], b));
    if claimed_id(out[b].record) == claimed_id(out[a].record) {
        let id = claimed_id(out[a].record)->0;
        assert(out[a] == found[a]);
        assert(ids[a] == Some(id));
        assert(out[b] == found[b]);
        assert(ids[b] == Some(id));
        assert(exists|j: int| 0 <= j < b && ids[j] == Some(id));
    }
}

} // verus!
