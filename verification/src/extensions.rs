//! Extension registry types.

use vstd::prelude::*;

use crate::text::str_eq;

verus! {

broadcast use vstd::seq_lib::group_seq_properties;

// ============================================================================
// Extension status
// ============================================================================

/// Extension status.
#[derive(Debug, Clone, Copy, PartialEq, Eq, Hash, Structural)]
pub enum ExtensionStatus {
    Planned,
    Beta,
    Stable,
    Deprecated,
}

/// The lower-case name of a status, as it is written on the wire.
pub open spec fn status_name(s: ExtensionStatus) -> Seq<char> {
    match s {
        ExtensionStatus::Planned => "planned"@,
        ExtensionStatus::Beta => "beta"@,
        ExtensionStatus::Stable => "stable"@,
        ExtensionStatus::Deprecated => "deprecated"@,
    }
}

impl ExtensionStatus {
    /// The status's lower-case name.
    pub fn as_str(&self) -> (r: &'static str)
        ensures
            r@ == status_name(*self),
    {
        match self {
            ExtensionStatus::Planned => "planned",
            ExtensionStatus::Beta => "beta",
            ExtensionStatus::Stable => "stable",
            ExtensionStatus::Deprecated => "deprecated",
        }
    }
}

/// Distinct statuses have distinct names, so a name identifies its status.
pub proof fn lemma_status_name_injective(a: ExtensionStatus, b: ExtensionStatus)
    ensures
        status_name(a) == status_name(b) ==> a == b,
{
    reveal_strlit("planned");
    reveal_strlit("beta");
    reveal_strlit("stable");
    reveal_strlit("deprecated");
    if status_name(a) == status_name(b) {
        assert(status_name(a).len() == status_name(b).len());
    }
}

// ============================================================================
// Registry entries
// ============================================================================

/// Extension metadata (from registry).
#[derive(Debug, Clone)]
pub struct ExtensionInfo {
    pub id: String,
    pub name: String,
    pub tagline: String,
    pub description: String,
    pub icon: String,
    pub category: String,
    pub status: ExtensionStatus,
    pub features: Vec<String>,
    pub required_by: Vec<String>,
    pub docs: String,
    pub pricing: String,
}

/// Extension category.
#[derive(Debug, Clone)]
pub struct Category {
    pub id: String,
    pub name: String,
    pub description: String,
    pub icon: String,
}

/// Client application configuration.
#[derive(Debug, Clone)]
pub struct ClientApp {
    pub id: String,
    pub name: String,
    pub description: String,
    pub requires: Vec<String>,
    pub optional: Vec<String>,
}

/// A registry entry that is looked up by its id.
pub trait Keyed {
    spec fn key_view(&self) -> Seq<char>;

    fn key(&self) -> (r: &str)
        ensures
            r@ == self.key_view(),
    ;
}

impl Keyed for ExtensionInfo {
    open spec fn key_view(&self) -> Seq<char> {
        self.id@
    }

    fn key(&self) -> (r: &str) {
        self.id.as_str()
    }
}

impl Keyed for Category {
    open spec fn key_view(&self) -> Seq<char> {
        self.id@
    }

    fn key(&self) -> (r: &str) {
        self.id.as_str()
    }
}

impl Keyed for ClientApp {
    open spec fn key_view(&self) -> Seq<char> {
        self.id@
    }

    fn key(&self) -> (r: &str) {
        self.id.as_str()
    }
}

/// The ids of a sequence of entries, in order.
pub open spec fn keys<T: Keyed>(items: Seq<T>) -> Seq<Seq<char>> {
    items.map_values(|e: T| e.key_view())
}

/// The first entry whose id is `id`, if there is one.
pub open spec fn first_with_key<T: Keyed>(items: Seq<T>, id: Seq<char>) -> Option<T> {
    match keys(items).index_of_first(id) {
        Some(i) => Some(items[i]),
        None => None,
    }
}

/// The value behind an optional reference.
pub open spec fn opt_deref<T>(o: Option<&T>) -> Option<T> {
    match o {
        Some(e) => Some(*e),
        None => None,
    }
}

/// The values behind a sequence of references.
pub open spec fn derefs<T>(s: Seq<&T>) -> Seq<T> {
    s.map_values(|e: &T| *e)
}

/// Finds the first entry whose id is `id`.
fn find_by_key<'a, T: Keyed>(items: &'a Vec<T>, id: &str) -> (r: Option<&'a T>)
    ensures
        opt_deref(r) == first_with_key(items@, id@),
{
    let ghost ks = keys(items@);
    proof {
        ks.index_of_first_ensures(id@);
    }
    let n = items.len();
    let mut i: usize = 0;
    while i < n
        invariant
            n == items@.len(),
            ks == keys(items@),
            ks.len() == n,
            i <= n,
            forall|j: int| 0 <= j < i ==> ks[j] != id@,
        decreases n - i,
    {
        let item = &items[i];
        if str_eq(item.key(), id) {
            proof {
                ks.index_of_first_ensures(id@);
                assert(ks[i as int] == id@);
                assert(ks.contains(id@));
                let k = ks.index_of_first(id@).unwrap();
                assert(!(k < i));
                assert(!(i < k));
            }
            return Some(item);
        }
        i += 1;
    }
    proof {
        ks.index_of_first_ensures(id@);
        if ks.contains(id@) {
            let k = ks.index_of(id@);
            assert(ks[k] == id@);
        }
    }
    None
}

// ============================================================================
// Registry
// ============================================================================

/// Full extension registry.
#[derive(Debug, Clone)]
pub struct ExtensionRegistry {
    pub version: String,
    pub extensions: Vec<ExtensionInfo>,
    pub categories: Vec<Category>,
    pub client_apps: Vec<ClientApp>,
}

/// The extensions of `exts` in category `category`, in order.
pub open spec fn in_category(exts: Seq<ExtensionInfo>, category: Seq<char>) -> Seq<ExtensionInfo> {
    exts.filter(|e: ExtensionInfo| e.category@ == category)
}

/// The extensions of `exts` with status `status`, in order.
pub open spec fn with_status(exts: Seq<ExtensionInfo>, status: ExtensionStatus) -> Seq<ExtensionInfo> {
    exts.filter(|e: ExtensionInfo| e.status == status)
}

impl ExtensionRegistry {
    /// Get extension by ID: the first extension whose id is `id`.
    pub fn get_extension(&self, id: &str) -> (r: Option<&ExtensionInfo>)
        ensures
            opt_deref(r) == first_with_key(self.extensions@, id@),
            r matches Some(e) ==> e.id@ == id@ && exists|i: int|
                0 <= i < self.extensions@.len() && self.extensions@[i] == *e && forall|j: int|
                    0 <= j < i ==> (#[trigger] self.extensions@[j]).id@ != id@,
            r is None <==> forall|i: int|
                0 <= i < self.extensions@.len() ==> (#[trigger] self.extensions@[i]).id@ != id@,
    {
        proof {
            lemma_extension_lookup_by_id(self.extensions@, id@);
        }
        find_by_key(&self.extensions, id)
    }

    /// Get extensions by category, in registry order.
    pub fn get_by_category(&self, category: &str) -> (r: Vec<&ExtensionInfo>)
        ensures
            derefs(r@) == in_category(self.extensions@, category@),
    {
        let ghost pred = |e: ExtensionInfo| e.category@ == category@;
        let mut res: Vec<&ExtensionInfo> = Vec::new();
        let n = self.extensions.len();
        let mut i: usize = 0;
        while i < n
            invariant
                n == self.extensions@.len(),
                i <= n,
                pred == (|e: ExtensionInfo| e.category@ == category@),
                derefs(res@) == self.extensions@.take(i as int).filter(pred),
            decreases n - i,
        {
            let e = &self.extensions[i];
            proof {
                assert(self.extensions@.take(i + 1) =~= self.extensions@.take(i as int).push(*e));
                self.extensions@.take(i as int).lemma_filter_push(*e, pred);
            }
            if str_eq(e.category.as_str(), category) {
                res.push(e);
            }
            assert(derefs(res@) =~= self.extensions@.take(i + 1).filter(pred));
            i += 1;
        }
        assert(self.extensions@.take(n as int) =~= self.extensions@);
        res
    }

    /// Get extensions by status, in registry order.
    pub fn get_by_status(&self, status: ExtensionStatus) -> (r: Vec<&ExtensionInfo>)
        ensures
            derefs(r@) == with_status(self.extensions@, status),
    {
        let ghost pred = |e: ExtensionInfo| e.status == status;
        let mut res: Vec<&ExtensionInfo> = Vec::new();
        let n = self.extensions.len();
        let mut i: usize = 0;
        while i < n
            invariant
                n == self.extensions@.len(),
                i <= n,
                pred == (|e: ExtensionInfo| e.status == status),
                derefs(res@) == self.extensions@.take(i as int).filter(pred),
            decreases n - i,
        {
            let e = &self.extensions[i];
            proof {
                assert(self.extensions@.take(i + 1) =~= self.extensions@.take(i as int).push(*e));
                self.extensions@.take(i as int).lemma_filter_push(*e, pred);
            }
            if e.status == status {
                res.push(e);
            }
            assert(derefs(res@) =~= self.extensions@.take(i + 1).filter(pred));
            i += 1;
        }
        assert(self.extensions@.take(n as int) =~= self.extensions@);
        res
    }

    /// Get category by ID: the first category whose id is `id`.
    pub fn get_category(&self, id: &str) -> (r: Option<&Category>)
        ensures
            opt_deref(r) == first_with_key(self.categories@, id@),
            r matches Some(e) ==> e.id@ == id@ && exists|i: int|
                0 <= i < self.categories@.len() && self.categories@[i] == *e && forall|j: int|
                    0 <= j < i ==> (#[trigger] self.categories@[j]).id@ != id@,
            r is None <==> forall|i: int|
                0 <= i < self.categories@.len() ==> (#[trigger] self.categories@[i]).id@ != id@,
    {
        proof {
            lemma_category_lookup_by_id(self.categories@, id@);
        }
        find_by_key(&self.categories, id)
    }

    /// Get client app by ID: the first client app whose id is `id`.
    pub fn get_client_app(&self, id: &str) -> (r: Option<&ClientApp>)
        ensures
            opt_deref(r) == first_with_key(self.client_apps@, id@),
            r matches Some(e) ==> e.id@ == id@ && exists|i: int|
                0 <= i < self.client_apps@.len() && self.client_apps@[i] == *e && forall|j: int|
                    0 <= j < i ==> (#[trigger] self.client_apps@[j]).id@ != id@,
            r is None <==> forall|i: int|
                0 <= i < self.client_apps@.len() ==> (#[trigger] self.client_apps@[i]).id@ != id@,
    {
        proof {
            lemma_client_app_lookup_by_id(self.client_apps@, id@);
        }
        find_by_key(&self.client_apps, id)
    }
}

// ============================================================================
// Laws of the registry lookups
// ============================================================================

/// A lookup by id finds an entry with that id, the first one; it finds
/// nothing only when no entry has that id.
pub proof fn lemma_lookup_by_key<T: Keyed>(items: Seq<T>, id: Seq<char>)
    ensures
        match first_with_key(items, id) {
            Some(e) => exists|i: int|
                0 <= i < items.len() && items[i] == e && e.key_view() == id && forall|j: int|
                    0 <= j < i ==> (#[trigger] items[j]).key_view() != id,
            None => forall|i: int| 0 <= i < items.len() ==> (#[trigger] items[i]).key_view() != id,
        },
{
    let ks = keys(items);
    ks.index_of_first_ensures(id);
    match ks.index_of_first(id) {
        Some(i) => {
            assert(items[i].key_view() == ks[i]);
            assert forall|j: int| 0 <= j < i implies (#[trigger] items[j]).key_view() != id by {
                assert(ks[j] == items[j].key_view());
            }
        },
        None => {
            assert forall|i: int| 0 <= i < items.len() implies (#[trigger] items[i]).key_view()
                != id by {
                assert(ks[i] == items[i].key_view());
            }
        },
    }
}

/// Looking up an extension by id finds one whose id is exactly `id`, the first
/// such; it finds nothing exactly when no entry's id is `id`.
pub proof fn lemma_extension_lookup_by_id(items: Seq<ExtensionInfo>, id: Seq<char>)
    ensures
        first_with_key(items, id) matches Some(e) ==> e.id@ == id && exists|i: int|
            0 <= i < items.len() && items[i] == e && forall|j: int|
                0 <= j < i ==> (#[trigger] items[j]).id@ != id,
        first_with_key(items, id) is None <==> forall|i: int|
            0 <= i < items.len() ==> (#[trigger] items[i]).id@ != id,
{
    lemma_lookup_by_key(items, id);
    assert forall|i: int| 0 <= i < items.len() implies (#[trigger] items[i]).key_view()
        == items[i].id@ by {}
    if let Some(e) = first_with_key(items, id) {
        let i = choose|i: int|
            0 <= i < items.len() && items[i] == e && e.key_view() == id && forall|j: int|
                0 <= j < i ==> (#[trigger] items[j]).key_view() != id;
        assert(items[i].id@ == id);
        assert(!(forall|k: int| 0 <= k < items.len() ==> (#[trigger] items[k]).id@ != id));
    }
}

/// Looking up a category by id finds one whose id is exactly `id`, the first
/// such; it finds nothing exactly when no entry's id is `id`.
pub proof fn lemma_category_lookup_by_id(items: Seq<Category>, id: Seq<char>)
    ensures
        first_with_key(items, id) matches Some(e) ==> e.id@ == id && exists|i: int|
            0 <= i < items.len() && items[i] == e && forall|j: int|
                0 <= j < i ==> (#[trigger] items[j]).id@ != id,
        first_with_key(items, id) is None <==> forall|i: int|
            0 <= i < items.len() ==> (#[trigger] items[i]).id@ != id,
{
    lemma_lookup_by_key(items, id);
    assert forall|i: int| 0 <= i < items.len() implies (#[trigger] items[i]).key_view()
        == items[i].id@ by {}
    if let Some(e) = first_with_key(items, id) {
        let i = choose|i: int|
            0 <= i < items.len() && items[i] == e && e.key_view() == id && forall|j: int|
                0 <= j < i ==> (#[trigger] items[j]).key_view() != id;
        assert(items[i].id@ == id);
        assert(!(forall|k: int| 0 <= k < items.len() ==> (#[trigger] items[k]).id@ != id));
    }
}

/// Looking up a client app by id finds one whose id is exactly `id`, the first
/// such; it finds nothing exactly when no entry's id is `id`.
pub proof fn lemma_client_app_lookup_by_id(items: Seq<ClientApp>, id: Seq<char>)
    ensures
        first_with_key(items, id) matches Some(e) ==> e.id@ == id && exists|i: int|
            0 <= i < items.len() && items[i] == e && forall|j: int|
                0 <= j < i ==> (#[trigger] items[j]).id@ != id,
        first_with_key(items, id) is None <==> forall|i: int|
            0 <= i < items.len() ==> (#[trigger] items[i]).id@ != id,
{
    lemma_lookup_by_key(items, id);
    assert forall|i: int| 0 <= i < items.len() implies (#[trigger] items[i]).key_view()
        == items[i].id@ by {}
    if let Some(e) = first_with_key(items, id) {
        let i = choose|i: int|
            0 <= i < items.len() && items[i] == e && e.key_view() == id && forall|j: int|
                0 <= j < i ==> (#[trigger] items[j]).key_view() != id;
        assert(items[i].id@ == id);
        assert(!(forall|k: int| 0 <= k < items.len() ==> (#[trigger] items[k]).id@ != id));
    }
}

/// Listing by category gives exactly the extensions of that category.
pub proof fn lemma_in_category_exact(exts: Seq<ExtensionInfo>, category: Seq<char>)
    ensures
        forall|i: int|
            0 <= i < in_category(exts, category).len() ==> (#[trigger] in_category(
                exts,
                category,
            )[i]).category@ == category,
        forall|i: int|
            0 <= i < exts.len() && (#[trigger] exts[i]).category@ == category ==> in_category(
                exts,
                category,
            ).contains(exts[i]),
{
    broadcast use vstd::seq_lib::group_filter_ensures;

}

/// Listing by status gives exactly the extensions with that status.
pub proof fn lemma_with_status_exact(exts: Seq<ExtensionInfo>, status: ExtensionStatus)
    ensures
        forall|i: int|
            0 <= i < with_status(exts, status).len() ==> (#[trigger] with_status(
                exts,
                status,
            )[i]).status == status,
        forall|i: int|
            0 <= i < exts.len() && (#[trigger] exts[i]).status == status ==> with_status(
                exts,
                status,
            ).contains(exts[i]),
{
    broadcast use vstd::seq_lib::group_filter_ensures;

}

/// Listing by category keeps registry order: a registry with no extensions
/// lists none, and adding an extension at the end adds it at the end of its
/// own category's listing and leaves the other listings alone.
pub proof fn lemma_in_category_push(exts: Seq<ExtensionInfo>, e: ExtensionInfo, category: Seq<char>)
    ensures
        in_category(Seq::empty(), category).len() == 0,
        e.category@ == category ==> in_category(exts.push(e), category) == in_category(
            exts,
            category,
        ).push(e),
        e.category@ != category ==> in_category(exts.push(e), category) == in_category(
            exts,
            category,
        ),
{
    reveal(Seq::filter);
    assert(exts.push(e).drop_last() =~= exts);
}

/// Listing by status keeps registry order: a registry with no extensions
/// lists none, and adding an extension at the end adds it at the end of its
/// own status's listing and leaves the other listings alone.
pub proof fn lemma_with_status_push(exts: Seq<ExtensionInfo>, e: ExtensionInfo, status: ExtensionStatus)
    ensures
        with_status(Seq::empty(), status).len() == 0,
        e.status == status ==> with_status(exts.push(e), status) == with_status(exts, status).push(
            e,
        ),
        e.status != status ==> with_status(exts.push(e), status) == with_status(exts, status),
{
    reveal(Seq::filter);
    assert(exts.push(e).drop_last() =~= exts);
}

/// Every extension has exactly one status, so the four status listings
/// together hold as many extensions as the registry.
pub proof fn lemma_status_listings_partition(exts: Seq<ExtensionInfo>)
    ensures
        with_status(exts, ExtensionStatus::Planned).len() + with_status(
            exts,
            ExtensionStatus::Beta,
        ).len() + with_status(exts, ExtensionStatus::Stable).len() + with_status(
            exts,
            ExtensionStatus::Deprecated,
        ).len() == exts.len(),
    decreases exts.len(),
{
    reveal(Seq::filter);
    if exts.len() > 0 {
        lemma_status_listings_partition(exts.drop_last());
    }
}

/// An extension found by id is listed under its own category and under its
/// own status.
pub proof fn lemma_found_extension_listed(exts: Seq<ExtensionInfo>, id: Seq<char>)
    ensures
        first_with_key(exts, id) matches Some(e) ==> in_category(exts, e.category@).contains(e)
            && with_status(exts, e.status).contains(e),
{
    lemma_lookup_by_key(exts, id);
    if let Some(e) = first_with_key(exts, id) {
        let i = choose|i: int|
            0 <= i < exts.len() && exts[i] == e && e.key_view() == id && forall|j: int|
                0 <= j < i ==> (#[trigger] exts[j]).key_view() != id;
        lemma_in_category_exact(exts, e.category@);
        lemma_with_status_exact(exts, e.status);
        assert(exts[i].category@ == e.category@);
        assert(exts[i].status == e.status);
    }
}

// ============================================================================
// API response types
// ============================================================================

/// Response for listing extensions.
#[derive(Debug, Clone)]
pub struct ExtensionsListResponse {
    pub extensions: Vec<ExtensionInfo>,
    pub categories: Vec<Category>,
    pub client_apps: Vec<ClientApp>,
    pub version: String,
}

/// Response for extension details.
#[derive(Debug, Clone)]
pub struct ExtensionDetailResponse {
    pub extension: ExtensionInfo,
    pub category: Option<Category>,
    pub required_by_apps: Vec<String>,
    pub is_loaded: bool,
}

} // verus!
