use vstd::prelude::*;

use crate::page::PageError;
use crate::reservation::{
    find_stock, quantity_of, stock_index, MedicationQuantity, StockEntry,
};

verus! {

/// A medication, as the search reads it.
#[derive(Clone, Debug, PartialEq, Eq)]
pub struct MedicationDetail {
    pub id: u128,
    pub name: String,
}

/// A medication with the quantity that one apothecary offers of it.
#[derive(Clone, Debug, PartialEq, Eq)]
pub struct MedicationDetailWithQuantity {
    pub medication: MedicationDetail,
    pub quantity: MedicationQuantity,
}

/// An apothecary that the store returned for a stock record, and whether it
/// lies within the search radius of the search center.
#[derive(Clone, Copy, Debug, PartialEq, Eq, Structural)]
pub struct ApothecarySite {
    pub id: u128,
    pub in_range: bool,
}

/// The stock records of one medication that survived the search.
#[derive(Clone, Debug, PartialEq, Eq)]
pub struct MedicationGroup {
    pub medication_id: u128,
    pub entries: Vec<StockEntry>,
}

#[derive(Clone, Debug, PartialEq, Eq)]
pub enum ApothecaryServiceError {
    NotFound,
    InvalidSortColumn(String),
    InvalidXml,
    InvalidPageSize,
    /// The stored data break an invariant of the core.
    Internal,
}

impl ApothecaryServiceError {
    /// Status code and message of the response to this error. A bad sort
    /// column is answered with the column's name; an internal fault with an
    /// empty message.
    pub fn response(&self) -> (r: (u16, String))
        ensures
            match *self {
                ApothecaryServiceError::NotFound => r.0 == 404 && r.1@ == "Apothecary not found"@,
                ApothecaryServiceError::InvalidSortColumn(c) => r.0 == 400 && r.1@ == c@,
                ApothecaryServiceError::InvalidXml => r.0 == 400 && r.1@ == "Invalid XML"@,
                ApothecaryServiceError::InvalidPageSize => r.0 == 400 && r.1@
                    == "Invalid page size"@,
                ApothecaryServiceError::Internal => r.0 == 500 && r.1@.len() == 0,
            },
    {
        match self {
            ApothecaryServiceError::NotFound => (404, String::from_str("Apothecary not found")),
            ApothecaryServiceError::InvalidSortColumn(c) => (400, c.clone()),
            ApothecaryServiceError::InvalidXml => (400, String::from_str("Invalid XML")),
            ApothecaryServiceError::InvalidPageSize => (400, String::from_str("Invalid page size")),
            ApothecaryServiceError::Internal => (500, String::new()),
        }
    }
}

impl From<PageError> for ApothecaryServiceError {
    fn from(err: PageError) -> (r: ApothecaryServiceError) {
        match err {
            PageError::InvalidColumnName(field) => ApothecaryServiceError::InvalidSortColumn(field),
            PageError::InvalidDirectionName => ApothecaryServiceError::Internal,
            PageError::InvalidPageSize => ApothecaryServiceError::InvalidPageSize,
        }
    }
}

impl vstd::std_specs::convert::FromSpecImpl<PageError> for ApothecaryServiceError {
    open spec fn obeys_from_spec() -> bool {
        true
    }

    open spec fn from_spec(err: PageError) -> ApothecaryServiceError {
        match err {
            PageError::InvalidColumnName(field) => ApothecaryServiceError::InvalidSortColumn(field),
            PageError::InvalidDirectionName => ApothecaryServiceError::Internal,
            PageError::InvalidPageSize => ApothecaryServiceError::InvalidPageSize,
        }
    }
}

/// What `str::to_uppercase` returns for a text.
pub uninterp spec fn upper_of(s: Seq<char>) -> Seq<char>;

/// What the first match of a regular expression captures in its first group,
/// if the expression is valid and matches the text.
pub uninterp spec fn first_capture_of(pattern: Seq<char>, text: Seq<char>) -> Option<Seq<char>>;

pub open spec fn is_substring(needle: Seq<char>, hay: Seq<char>) -> bool {
    exists|i: int|
        0 <= i && i + needle.len() <= hay.len() && #[trigger] hay.subrange(i, i + needle.len())
            == needle
}

/// A medication name matches a query where it holds the query, case aside.
pub open spec fn name_matches_spec(name: Seq<char>, query: Seq<char>) -> bool {
    is_substring(upper_of(query), upper_of(name))
}

/// Relies on `str::to_uppercase`: the result depends on the text alone.
#[verifier::external_body]
fn to_upper(s: &str) -> (r: String)
    ensures
        r@ == upper_of(s@),
{
    s.to_uppercase()
}

/// Relies on `str::contains`, which is true exactly where `needle` occurs
/// as a run of characters in `hay`.
#[verifier::external_body]
fn contains_text(hay: &str, needle: &str) -> (r: bool)
    ensures
        r == is_substring(needle@, hay@),
{
    hay.contains(needle)
}

/// Relies on `regex::Regex::new` and `Regex::captures`: the text of the first
/// group of the leftmost match, or nothing where the pattern is invalid, does
/// not match, or its first group took no part in the match.
#[verifier::external_body]
fn first_capture(pattern: &str, text: &str) -> (r: Option<String>)
    ensures
        match r {
            Some(c) => first_capture_of(pattern@, text@) == Some(c@),
            None => first_capture_of(pattern@, text@) is None,
        },
{
    match regex::Regex::new(pattern) {
        Ok(re) => match re.captures(text) {
            Some(caps) => match caps.get(1) {
                Some(m) => Some(m.as_str().to_string()),
                None => None,
            },
            None => None,
        },
        Err(_) => None,
    }
}

/// Whether an uppercased name holds an uppercased query.
pub fn matches_folded(name_upper: &str, query_upper: &str) -> (r: bool)
    ensures
        r == is_substring(query_upper@, name_upper@),
{
    contains_text(name_upper, query_upper)
}

/// Whether a medication name holds the query, case aside.
pub fn name_matches(name: &str, query: &str) -> (r: bool)
    ensures
        r == name_matches_spec(name@, query@),
{
    let n = to_upper(name);
    let q = to_upper(query);
    matches_folded(n.as_str(), q.as_str())
}

/// MedicationDetail ids of `s`, each once, in the order of first appearance.
pub open spec fn group_keys(s: Seq<StockEntry>) -> Seq<u128>
    decreases s.len(),
{
    if s.len() == 0 {
        Seq::empty()
    } else {
        let k = group_keys(s.drop_last());
        if k.contains(s.last().medication_id) {
            k
        } else {
            k.push(s.last().medication_id)
        }
    }
}

/// The records of `s` for medication `key`, in order.
pub open spec fn entries_of(s: Seq<StockEntry>, key: u128) -> Seq<StockEntry>
    decreases s.len(),
{
    if s.len() == 0 {
        Seq::empty()
    } else {
        let p = entries_of(s.drop_last(), key);
        if s.last().medication_id == key {
            p.push(s.last())
        } else {
            p
        }
    }
}

/// The apothecaries of `sites` with id `id`, in order.
pub open spec fn sites_of(sites: Seq<ApothecarySite>, id: u128) -> Seq<ApothecarySite>
    decreases sites.len(),
{
    if sites.len() == 0 {
        Seq::empty()
    } else {
        let p = sites_of(sites.drop_last(), id);
        if sites.last().id == id {
            p.push(sites.last())
        } else {
            p
        }
    }
}

/// Position of the first medication with id `id`.
pub open spec fn medication_index(meds: Seq<MedicationDetail>, id: u128) -> Option<int>
    decreases meds.len(),
{
    if meds.len() == 0 {
        None
    } else {
        match medication_index(meds.drop_last(), id) {
            Some(j) => Some(j),
            None => if meds.last().id == id {
                Some(meds.len() - 1)
            } else {
                None
            },
        }
    }
}

/// The records of `g` whose apothecary lies in range. Each record must have
/// exactly one apothecary; the first that has not is the error.
pub open spec fn keep_in_range(g: Seq<StockEntry>, sites: Seq<ApothecarySite>) -> Result<
    Seq<StockEntry>,
    ApothecaryServiceError,
>
    decreases g.len(),
{
    if g.len() == 0 {
        Ok(Seq::empty())
    } else {
        match keep_in_range(g.drop_last(), sites) {
            Err(e) => Err(e),
            Ok(p) => {
                let m = sites_of(sites, g.last().apothecary_id);
                if m.len() != 1 {
                    Err(ApothecaryServiceError::Internal)
                } else if m[0].in_range {
                    Ok(p.push(g.last()))
                } else {
                    Ok(p)
                }
            },
        }
    }
}

/// The group of medication `key`: an error where the medication is missing,
/// nothing where its name does not match or no record survives.
pub open spec fn group_result(
    key: u128,
    entries: Seq<StockEntry>,
    meds: Seq<MedicationDetail>,
    sites: Seq<ApothecarySite>,
    query: Seq<char>,
) -> Result<Option<(u128, Seq<StockEntry>)>, ApothecaryServiceError> {
    match medication_index(meds, key) {
        None => Err(ApothecaryServiceError::NotFound),
        Some(m) => if !name_matches_spec(meds[m].name@, query) {
            Ok(None)
        } else {
            match keep_in_range(entries_of(entries, key), sites) {
                Err(e) => Err(e),
                Ok(kept) => if kept.len() == 0 {
                    Ok(None)
                } else {
                    Ok(Some((key, kept)))
                },
            }
        },
    }
}

/// The groups of `keys`, in order; the first error ends the search.
pub open spec fn search_over(
    keys: Seq<u128>,
    entries: Seq<StockEntry>,
    meds: Seq<MedicationDetail>,
    sites: Seq<ApothecarySite>,
    query: Seq<char>,
) -> Result<Seq<(u128, Seq<StockEntry>)>, ApothecaryServiceError>
    decreases keys.len(),
{
    if keys.len() == 0 {
        Ok(Seq::empty())
    } else {
        match search_over(keys.drop_last(), entries, meds, sites, query) {
            Err(e) => Err(e),
            Ok(prev) => match group_result(keys.last(), entries, meds, sites, query) {
                Err(e) => Err(e),
                Ok(None) => Ok(prev),
                Ok(Some(g)) => Ok(prev.push(g)),
            },
        }
    }
}

/// The result of a medication search.
pub open spec fn search_spec(
    entries: Seq<StockEntry>,
    meds: Seq<MedicationDetail>,
    sites: Seq<ApothecarySite>,
    query: Seq<char>,
) -> Result<Seq<(u128, Seq<StockEntry>)>, ApothecaryServiceError> {
    search_over(group_keys(entries), entries, meds, sites, query)
}

pub open spec fn groups_view(v: Seq<MedicationGroup>) -> Seq<(u128, Seq<StockEntry>)> {
    v.map_values(|g: MedicationGroup| (g.medication_id, g.entries@))
}

/// Distinct medication ids of `entries`, in the order of first appearance.
fn distinct_keys(entries: &Vec<StockEntry>) -> (r: Vec<u128>)
    ensures
        r@ == group_keys(entries@),
{
    let mut keys: Vec<u128> = Vec::new();
    let mut i: usize = 0;
    while i < entries.len()
        invariant
            i <= entries.len(),
            keys@ == group_keys(entries@.take(i as int)),
        decreases entries.len() - i,
    {
        let key = entries[i].medication_id;
        proof {
            assert(entries@.take(i + 1).drop_last() =~= entries@.take(i as int));
        }
        let mut j: usize = 0;
        let mut seen = false;
        while j < keys.len()
            invariant
                j <= keys.len(),
                seen == exists|k: int| 0 <= k < j && keys@[k] == key,
            decreases keys.len() - j,
        {
            if keys[j] == key {
                seen = true;
            }
            j = j + 1;
        }
        if !seen {
            keys.push(key);
        }
        i = i + 1;
    }
    proof {
        assert(entries@.take(i as int) =~= entries@);
    }
    keys
}

fn find_medication(meds: &Vec<MedicationDetail>, id: u128) -> (r: Option<usize>)
    ensures
        r matches Some(j) ==> j < meds.len() && medication_index(meds@, id) == Some(j as int),
        r is None ==> medication_index(meds@, id) is None,
{
    let mut j: usize = 0;
    while j < meds.len()
        invariant
            j <= meds.len(),
            medication_index(meds@.take(j as int), id) is None,
        decreases meds.len() - j,
    {
        proof {
            assert(meds@.take(j + 1).drop_last() =~= meds@.take(j as int));
        }
        if meds[j].id == id {
            proof {
                lemma_medication_index_prefix(meds@, id, (j + 1) as int);
            }
            return Some(j);
        }
        j = j + 1;
    }
    proof {
        assert(meds@.take(j as int) =~= meds@);
    }
    None
}

proof fn lemma_medication_index_prefix(meds: Seq<MedicationDetail>, id: u128, k: int)
    requires
        0 < k <= meds.len(),
        medication_index(meds.take(k), id) == Some(k - 1),
    ensures
        medication_index(meds, id) == Some(k - 1),
    decreases meds.len(),
{
    if k < meds.len() {
        assert(meds.drop_last().take(k) =~= meds.take(k));
        lemma_medication_index_prefix(meds.drop_last(), id, k);
    } else {
        assert(meds.take(k) =~= meds);
    }
}

/// The apothecaries of `sites` with id `id`: how many there are, and the
/// last of them.
fn match_sites(sites: &Vec<ApothecarySite>, id: u128) -> (r: (usize, Option<ApothecarySite>))
    ensures
        r.0 == sites_of(sites@, id).len(),
        r.0 > 0 ==> r.1 == Some(sites_of(sites@, id).last()),
{
    let mut count: usize = 0;
    let mut found: Option<ApothecarySite> = None;
    let mut j: usize = 0;
    while j < sites.len()
        invariant
            j <= sites.len(),
            count == sites_of(sites@.take(j as int), id).len(),
            count <= j,
            count > 0 ==> found == Some(sites_of(sites@.take(j as int), id).last()),
        decreases sites.len() - j,
    {
        proof {
            assert(sites@.take(j + 1).drop_last() =~= sites@.take(j as int));
        }
        if sites[j].id == id {
            count = count + 1;
            found = Some(sites[j]);
        }
        j = j + 1;
    }
    proof {
        assert(sites@.take(j as int) =~= sites@);
    }
    (count, found)
}

/// The records of medication `key` whose apothecary lies in range.
fn kept_entries(entries: &Vec<StockEntry>, key: u128, sites: &Vec<ApothecarySite>) -> (r: Result<
    Vec<StockEntry>,
    ApothecaryServiceError,
>)
    ensures
        match r {
            Ok(v) => keep_in_range(entries_of(entries@, key), sites@) == Ok::<
                Seq<StockEntry>,
                ApothecaryServiceError,
            >(v@),
            Err(e) => keep_in_range(entries_of(entries@, key), sites@) == Err::<
                Seq<StockEntry>,
                ApothecaryServiceError,
            >(e),
        },
{
    let mut kept: Vec<StockEntry> = Vec::new();
    let mut i: usize = 0;
    while i < entries.len()
        invariant
            i <= entries.len(),
            keep_in_range(entries_of(entries@.take(i as int), key), sites@) == Ok::<
                Seq<StockEntry>,
                ApothecaryServiceError,
            >(kept@),
        decreases entries.len() - i,
    {
        let e = entries[i];
        proof {
            assert(entries@.take(i + 1).drop_last() =~= entries@.take(i as int));
        }
        if e.medication_id == key {
            let g = Ghost(entries_of(entries@.take(i + 1), key));
            proof {
                assert(g@.drop_last() =~= entries_of(entries@.take(i as int), key));
            }
            let (count, found) = match_sites(sites, e.apothecary_id);
            if count != 1 {
                proof {
                    lemma_keep_prefix_err(entries@, key, sites@, (i + 1) as int);
                }
                return Err(ApothecaryServiceError::Internal);
            }
            match found {
                Some(site) => {
                    if site.in_range {
                        kept.push(e);
                    }
                },
                None => {},
            }
        }
        i = i + 1;
    }
    proof {
        assert(entries@.take(i as int) =~= entries@);
    }
    Ok(kept)
}

proof fn lemma_keep_prefix_err(
    entries: Seq<StockEntry>,
    key: u128,
    sites: Seq<ApothecarySite>,
    k: int,
)
    requires
        0 < k <= entries.len(),
        keep_in_range(entries_of(entries.take(k), key), sites) is Err,
    ensures
        keep_in_range(entries_of(entries, key), sites) == keep_in_range(
            entries_of(entries.take(k), key),
            sites,
        ),
    decreases entries.len(),
{
    if k < entries.len() {
        assert(entries.drop_last().take(k) =~= entries.take(k));
        lemma_keep_prefix_err(entries.drop_last(), key, sites, k);
        let p = entries_of(entries.drop_last(), key);
        if entries.last().medication_id == key {
            assert(p.push(entries.last()).drop_last() =~= p);
        }
    } else {
        assert(entries.take(k) =~= entries);
    }
}

proof fn lemma_search_prefix_err(
    keys: Seq<u128>,
    entries: Seq<StockEntry>,
    meds: Seq<MedicationDetail>,
    sites: Seq<ApothecarySite>,
    query: Seq<char>,
    k: int,
)
    requires
        0 < k <= keys.len(),
        search_over(keys.take(k), entries, meds, sites, query) is Err,
    ensures
        search_over(keys, entries, meds, sites, query) == search_over(
            keys.take(k),
            entries,
            meds,
            sites,
            query,
        ),
    decreases keys.len(),
{
    if k < keys.len() {
        assert(keys.drop_last().take(k) =~= keys.take(k));
        lemma_search_prefix_err(keys.drop_last(), entries, meds, sites, query, k);
    } else {
        assert(keys.take(k) =~= keys);
    }
}

/// Searches the stock for a medication by name near a center. The records
/// are grouped by medication in the order in which their medications first
/// appear; a group whose medication is missing fails the search; one whose
/// medication name does not hold `query` (case aside) is left out. Within a
/// group each record must have exactly one apothecary in `sites`, and only
/// records whose apothecary lies in range stay. A group left with no record
/// is dropped.
pub fn search(
    entries: &Vec<StockEntry>,
    meds: &Vec<MedicationDetail>,
    sites: &Vec<ApothecarySite>,
    query: &str,
) -> (r: Result<Vec<MedicationGroup>, ApothecaryServiceError>)
    ensures
        match r {
            Ok(v) => search_spec(entries@, meds@, sites@, query@) == Ok::<
                Seq<(u128, Seq<StockEntry>)>,
                ApothecaryServiceError,
            >(groups_view(v@)),
            Err(e) => search_spec(entries@, meds@, sites@, query@) == Err::<
                Seq<(u128, Seq<StockEntry>)>,
                ApothecaryServiceError,
            >(e),
        },
{
    let keys = distinct_keys(entries);
    let mut groups: Vec<MedicationGroup> = Vec::new();
    let mut g: usize = 0;
    proof {
        assert(keys@.take(0) =~= Seq::<u128>::empty());
        assert(groups_view(groups@) =~= Seq::<(u128, Seq<StockEntry>)>::empty());
    }
    while g < keys.len()
        invariant
            g <= keys.len(),
            keys@ == group_keys(entries@),
            search_over(keys@.take(g as int), entries@, meds@, sites@, query@) == Ok::<
                Seq<(u128, Seq<StockEntry>)>,
                ApothecaryServiceError,
            >(groups_view(groups@)),
        decreases keys.len() - g,
    {
        let key = keys[g];
        proof {
            assert(keys@.take(g + 1).drop_last() =~= keys@.take(g as int));
        }
        let m = match find_medication(meds, key) {
            None => {
                proof {
                    lemma_search_prefix_err(keys@, entries@, meds@, sites@, query@, (g + 1) as int);
                }
                return Err(ApothecaryServiceError::NotFound);
            },
            Some(m) => m,
        };
        proof {
            assert(keys@.take(g + 1).last() == key);
        }
        if name_matches(meds[m].name.as_str(), query) {
            match kept_entries(entries, key, sites) {
                Err(e) => {
                    proof {
                        assert(medication_index(meds@, key) == Some(m as int));
                        assert(name_matches_spec(meds@[m as int].name@, query@));
                        assert(group_result(key, entries@, meds@, sites@, query@) == Err::<
                            Option<(u128, Seq<StockEntry>)>,
                            ApothecaryServiceError,
                        >(e));
                        assert(search_over(keys@.take(g + 1), entries@, meds@, sites@, query@)
                            is Err);
                        lemma_search_prefix_err(
                            keys@,
                            entries@,
                            meds@,
                            sites@,
                            query@,
                            (g + 1) as int,
                        );
                    }
                    return Err(e);
                },
                Ok(kept) => {
                    if kept.len() > 0 {
                        let ghost before = groups@;
                        groups.push(MedicationGroup { medication_id: key, entries: kept });
                        proof {
                            assert(groups_view(groups@) =~= groups_view(before).push(
                                (key, groups@.last().entries@),
                            ));
                        }
                    }
                },
            }
        }
        g = g + 1;
    }
    proof {
        assert(keys@.take(g as int) =~= keys@);
    }
    Ok(groups)
}

/// Searches by the medication name that a clinical document carries in its
/// first `<name>` element. A document without one finds nothing.
pub fn search_by_cda(
    cda: &str,
    entries: &Vec<StockEntry>,
    meds: &Vec<MedicationDetail>,
    sites: &Vec<ApothecarySite>,
) -> (r: Result<Vec<MedicationGroup>, ApothecaryServiceError>)
    ensures
        match first_capture_of("<name>(.+)</name>"@, cda@) {
            None => r matches Ok(v) && v.len() == 0,
            Some(name) => match r {
                Ok(v) => search_spec(entries@, meds@, sites@, name) == Ok::<
                    Seq<(u128, Seq<StockEntry>)>,
                    ApothecaryServiceError,
                >(groups_view(v@)),
                Err(e) => search_spec(entries@, meds@, sites@, name) == Err::<
                    Seq<(u128, Seq<StockEntry>)>,
                    ApothecaryServiceError,
                >(e),
            },
        },
{
    match first_capture("<name>(.+)</name>", cda) {
        Some(name) => search(entries, meds, sites, name.as_str()),
        None => Ok(Vec::new()),
    }
}

proof fn lemma_keep_none_in_range(g: Seq<StockEntry>, sites: Seq<ApothecarySite>)
    requires
        forall|i: int| 0 <= i < sites.len() ==> !(#[trigger] sites[i]).in_range,
    ensures
        keep_in_range(g, sites) matches Ok(kept) ==> kept.len() == 0,
    decreases g.len(),
{
    if g.len() > 0 {
        lemma_keep_none_in_range(g.drop_last(), sites);
        let m = sites_of(sites, g.last().apothecary_id);
        lemma_sites_of_members(sites, g.last().apothecary_id);
        if m.len() == 1 {
            assert(sites.contains(m[0]));
        }
    }
}

proof fn lemma_sites_of_members(sites: Seq<ApothecarySite>, id: u128)
    ensures
        forall|i: int|
            0 <= i < sites_of(sites, id).len() ==> sites.contains(#[trigger] sites_of(sites, id)[i]),
    decreases sites.len(),
{
    if sites.len() > 0 {
        lemma_sites_of_members(sites.drop_last(), id);
        let p = sites_of(sites.drop_last(), id);
        assert forall|i: int| 0 <= i < p.len() implies sites.contains(#[trigger] p[i]) by {
            let j = choose|j: int| 0 <= j < sites.drop_last().len() && sites.drop_last()[j] == p[i];
            assert(sites[j] == p[i]);
        }
        assert(sites[sites.len() - 1] == sites.last());
    }
}

/// Where no apothecary lies within the search radius, a search finds no
/// group, whatever stock the apothecaries hold.
pub proof fn lemma_nothing_in_range_finds_nothing(
    entries: Seq<StockEntry>,
    meds: Seq<MedicationDetail>,
    sites: Seq<ApothecarySite>,
    query: Seq<char>,
)
    requires
        forall|i: int| 0 <= i < sites.len() ==> !(#[trigger] sites[i]).in_range,
    ensures
        search_spec(entries, meds, sites, query) matches Ok(groups) ==> groups.len() == 0,
{
    lemma_search_over_empty(group_keys(entries), entries, meds, sites, query);
}

proof fn lemma_search_over_empty(
    keys: Seq<u128>,
    entries: Seq<StockEntry>,
    meds: Seq<MedicationDetail>,
    sites: Seq<ApothecarySite>,
    query: Seq<char>,
)
    requires
        forall|i: int| 0 <= i < sites.len() ==> !(#[trigger] sites[i]).in_range,
    ensures
        search_over(keys, entries, meds, sites, query) matches Ok(groups) ==> groups.len() == 0,
    decreases keys.len(),
{
    if keys.len() > 0 {
        lemma_search_over_empty(keys.drop_last(), entries, meds, sites, query);
        lemma_keep_none_in_range(entries_of(entries, keys.last()), sites);
    }
}

/// The medications of apothecary `a`, each with the quantity that its stock
/// record there offers, in their order. A medication without a stock record
/// at `a` breaks the store's invariant and fails the whole listing.
pub fn own_medications(
    a: u128,
    meds: &Vec<MedicationDetail>,
    entries: &Vec<StockEntry>,
) -> (r: Result<Vec<MedicationDetailWithQuantity>, ApothecaryServiceError>)
    ensures
        r is Ok <==> forall|i: int|
            0 <= i < meds.len() ==> #[trigger] stock_index(entries@, a, meds@[i].id) is Some,
        r matches Err(e) ==> e == ApothecaryServiceError::NotFound,
        r matches Ok(v) ==> v.len() == meds.len() && forall|i: int|
            0 <= i < v.len() ==> #[trigger] v@[i] == (MedicationDetailWithQuantity {
                medication: meds@[i],
                quantity: quantity_of(entries@[stock_index(entries@, a, meds@[i].id)->0]),
            }),
{
    let mut out: Vec<MedicationDetailWithQuantity> = Vec::new();
    let mut i: usize = 0;
    while i < meds.len()
        invariant
            i <= meds.len(),
            out.len() == i,
            forall|k: int| 0 <= k < i ==> #[trigger] stock_index(entries@, a, meds@[k].id) is Some,
            forall|k: int|
                0 <= k < i ==> #[trigger] out@[k] == (MedicationDetailWithQuantity {
                    medication: meds@[k],
                    quantity: quantity_of(entries@[stock_index(entries@, a, meds@[k].id)->0]),
                }),
        decreases meds.len() - i,
    {
        let m = &meds[i];
        match find_stock(entries, a, m.id) {
            None => {
                return Err(ApothecaryServiceError::NotFound);
            },
            Some(e) => {
                let medication = MedicationDetail { id: m.id, name: m.name.clone() };
                out.push(MedicationDetailWithQuantity { medication, quantity: e.quantity() });
            },
        }
        i = i + 1;
    }
    Ok(out)
}

} // verus!
