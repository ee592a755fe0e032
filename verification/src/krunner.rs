//! The query dispatcher and action router.
//!
//! [`KRunnerPlugin::query`] parses a raw query into a keyword and a
//! term, asks every registered backend for its matching docsets, builds
//! completion-tier entries when the term is empty or item-tier entries
//! from each docset's search results otherwise, and merges everything
//! into one displayable list.  [`KRunnerPlugin::run`] resolves a
//! previously issued reference back to a backend and opens the item.
//!
//! A backend's responses are not constrained here, so the dispatcher's
//! behaviour is specified for *every* possible response through
//! [`BackendOutcomeV`]: the ghost record of what one backend answered.
//! [`lemma_failed_backend_isolation`] proves that a backend whose
//! docset discovery fails or comes back empty contributes nothing,
//! while the other backends' contributions are untouched.

use vstd::prelude::*;
use vstd::seq_lib::lemma_flatten_concat;

use crate::entry_data::{encode_spec, decode_spec, encode_entry_data, decode_entry_data, EntryData,
    EntryDataV};
use crate::provider::{BackendError, DocProvider, DocSet, DocSetV, EntryType, EntryTypeV,
    SearchEntry, SearchEntryV};
use crate::text::{clone_bytes, bytes_eq, is_ws, is_ws_byte, subvec};

verus! {

/// The match tier of a completion-style result: "type this keyword to
/// search docset X".
pub const MATCH_TYPE_COMPLETION: i32 = 10;

/// The match tier of a concrete matched item; ranked above the
/// completion tier in UI ordering.
pub const MATCH_TYPE_EXACT: i32 = 100;

/// Relevance is kept in hundredths, so this is the value displayed as
/// 1.0.
pub const RELEVANCE_FULL: usize = 100;

/// Extra display properties of a result: the docset name as category
/// and the entry description as subtext.
#[derive(Debug, Clone, PartialEq, Eq)]
pub struct QueryProperties {
    pub category: Vec<u8>,
    pub subtext: Vec<u8>,
}

/// The mathematical model of [`QueryProperties`].
#[verifier::ext_equal]
pub struct QueryPropertiesV {
    pub category: Seq<u8>,
    pub subtext: Seq<u8>,
}

impl DeepView for QueryProperties {
    type V = QueryPropertiesV;

    open spec fn deep_view(&self) -> QueryPropertiesV {
        QueryPropertiesV { category: self.category@, subtext: self.subtext@ }
    }
}

/// One displayable result.  `relevance` is in hundredths of the 0.0 to
/// 1.0 display scale, so a backend relevance of `r` becomes exactly
/// `r / 100.0` when shown; values above 100 are passed through
/// unclamped.  `data` is the encoded reference handed back on
/// activation.
#[derive(Debug, Clone, PartialEq, Eq)]
pub struct QueryEntry {
    pub data: Vec<u8>,
    pub display_text: Vec<u8>,
    pub icon_name: Vec<u8>,
    pub match_type: i32,
    pub relevance: usize,
    pub properties: QueryProperties,
}

/// The mathematical model of a [`QueryEntry`].
#[verifier::ext_equal]
pub struct QueryEntryV {
    pub data: Seq<u8>,
    pub display_text: Seq<u8>,
    pub icon_name: Seq<u8>,
    pub match_type: int,
    pub relevance: int,
    pub properties: QueryPropertiesV,
}

impl DeepView for QueryEntry {
    type V = QueryEntryV;

    open spec fn deep_view(&self) -> QueryEntryV {
        QueryEntryV {
            data: self.data@,
            display_text: self.display_text@,
            icon_name: self.icon_name@,
            match_type: self.match_type as int,
            relevance: self.relevance as int,
            properties: self.properties.deep_view(),
        }
    }
}

/// The icon shown for a class or package.
pub open spec fn icon_class() -> Seq<u8> {
    seq![99u8, 108u8, 97u8, 115u8, 115u8, 45u8, 111u8, 114u8, 45u8, 112u8, 97u8, 99u8, 107u8, 97u8, 103u8,
        101u8]
}

/// The icon shown for a function or method.
pub open spec fn icon_function() -> Seq<u8> {
    seq![99u8, 111u8, 100u8, 101u8, 45u8, 102u8, 117u8, 110u8, 99u8, 116u8, 105u8, 111u8, 110u8]
}

/// The icon shown for an enum.
pub open spec fn icon_enum() -> Seq<u8> {
    seq![101u8, 110u8, 117u8, 109u8]
}

/// The icon shown for a constant.
pub open spec fn icon_constant() -> Seq<u8> {
    seq![99u8, 111u8, 100u8, 101u8, 45u8, 118u8, 97u8, 114u8, 105u8, 97u8, 98u8, 108u8, 101u8]
}

/// The fixed icon mapping: a pure function of the entry kind alone.
pub open spec fn krunner_icon_spec(t: EntryTypeV) -> Seq<u8> {
    match t {
        EntryTypeV::Class => icon_class(),
        EntryTypeV::Method => icon_function(),
        EntryTypeV::Function => icon_function(),
        EntryTypeV::Enum => icon_enum(),
        EntryTypeV::Constant => icon_constant(),
        _ => Seq::empty(),
    }
}

impl EntryType {
    /// The icon name a result of this kind is displayed with.
    pub fn get_krunner_icon(&self) -> (r: Vec<u8>)
        ensures
            r@ == krunner_icon_spec(self.deep_view()),
    {
        match self {
            EntryType::Class => {
                let r = vec![99u8, 108u8, 97u8, 115u8, 115u8, 45u8, 111u8, 114u8, 45u8, 112u8, 97u8,
                    99u8, 107u8, 97u8, 103u8, 101u8];
                proof {
                    assert(r@ =~= icon_class());
                }
                r
            },
            EntryType::Method | EntryType::Function => {
                let r = vec![99u8, 111u8, 100u8, 101u8, 45u8, 102u8, 117u8, 110u8, 99u8, 116u8, 105u8,
                    111u8, 110u8];
                proof {
                    assert(r@ =~= icon_function());
                }
                r
            },
            EntryType::Enum => {
                let r = vec![101u8, 110u8, 117u8, 109u8];
                proof {
                    assert(r@ =~= icon_enum());
                }
                r
            },
            EntryType::Constant => {
                let r = vec![99u8, 111u8, 100u8, 101u8, 45u8, 118u8, 97u8, 114u8, 105u8, 97u8, 98u8,
                    108u8, 101u8];
                proof {
                    assert(r@ =~= icon_constant());
                }
                r
            },
            _ => Vec::new(),
        }
    }
}

/// The leading part of a completion entry's display text.
pub open spec fn completion_prefix() -> Seq<u8> {
    seq![84u8, 121u8, 112u8, 101u8, 32u8, 34u8]
}

/// The middle part of a completion entry's display text.
pub open spec fn completion_mid() -> Seq<u8> {
    seq![32u8, 107u8, 101u8, 121u8, 119u8, 111u8, 114u8, 100u8, 34u8, 32u8, 116u8, 111u8, 32u8, 115u8, 101u8,
        97u8, 114u8, 99u8, 104u8, 32u8]
}

/// The display text of a completion entry:
/// `Type "<keyword> keyword" to search <name>`.
pub open spec fn completion_text(keyword: Seq<u8>, name: Seq<u8>) -> Seq<u8> {
    completion_prefix() + keyword + completion_mid() + name
}

/// The completion-tier entry synthesized for one (docset, keyword)
/// pair: full relevance, docset icon, and a docset-selection reference.
pub open spec fn completion_entry_spec(provider: Seq<u8>, ds: DocSetV, keyword: Seq<u8>)
    -> QueryEntryV {
    QueryEntryV {
        data: encode_spec(EntryDataV::DocSet { provider, id: ds.id }),
        display_text: completion_text(keyword, ds.name),
        icon_name: ds.icon,
        match_type: MATCH_TYPE_COMPLETION as int,
        relevance: RELEVANCE_FULL as int,
        properties: QueryPropertiesV { category: Seq::empty(), subtext: Seq::empty() },
    }
}

/// The item-tier entry a successful search hit is converted to: the
/// backend's relevance carried over unchanged (so it displays as
/// `relevance / 100.0` exactly), the fixed icon mapping, and an
/// item-selection reference.
pub open spec fn item_entry_spec(provider: Seq<u8>, ds: DocSetV, e: SearchEntryV) -> QueryEntryV {
    QueryEntryV {
        data: encode_spec(
            EntryDataV::Entry { provider, doc_set_id: ds.id, item_id: e.id },
        ),
        display_text: e.title,
        icon_name: krunner_icon_spec(e.entry_type),
        match_type: MATCH_TYPE_EXACT as int,
        relevance: e.relevance,
        properties: QueryPropertiesV { category: ds.name, subtext: e.desc },
    }
}

/// All completion entries of one docset, one per keyword, in keyword
/// order.
pub open spec fn docset_completions_spec(provider: Seq<u8>, ds: DocSetV) -> Seq<QueryEntryV> {
    ds.keywords.map_values(|kw| completion_entry_spec(provider, ds, kw))
}

/// All completion entries of a docset list, in docset order.
pub open spec fn completion_entries_spec(provider: Seq<u8>, dss: Seq<DocSetV>)
    -> Seq<QueryEntryV> {
    dss.map_values(|ds| docset_completions_spec(provider, ds)).flatten()
}

/// The entries contributed by one docset given its search outcome: a
/// failed search contributes nothing, a successful one contributes its
/// entries in order.
pub open spec fn docset_items_spec(
    provider: Seq<u8>,
    ds: DocSetV,
    outcome: Result<Seq<SearchEntryV>, Seq<u8>>,
) -> Seq<QueryEntryV> {
    match outcome {
        Ok(es) => es.map_values(|e| item_entry_spec(provider, ds, e)),
        Err(_) => Seq::empty(),
    }
}

/// The item-tier entries of a whole docset list given the per-docset
/// search outcomes, in docset order.
pub open spec fn item_entries_spec(
    provider: Seq<u8>,
    dss: Seq<DocSetV>,
    outcomes: Seq<Result<Seq<SearchEntryV>, Seq<u8>>>,
) -> Seq<QueryEntryV> {
    Seq::new(
        dss.len(),
        |i: int| if 0 <= i < outcomes.len() {
            docset_items_spec(provider, dss[i], outcomes[i])
        } else {
            Seq::empty()
        },
    ).flatten()
}

/// What one backend answered during a query: its reported name, its
/// docset discovery result, and (when a term was searched) the
/// per-docset search outcomes.
#[verifier::ext_equal]
pub struct BackendOutcomeV {
    pub provider: Seq<u8>,
    pub discovery: Result<Seq<DocSetV>, Seq<u8>>,
    pub searches: Seq<Result<Seq<SearchEntryV>, Seq<u8>>>,
}

/// The entries one backend contributes to the merged result, for every
/// possible answer it may give: nothing when discovery failed or found
/// no docset; completion entries when the term is empty; item entries
/// otherwise.
pub open spec fn backend_contribution(term: Seq<u8>, o: BackendOutcomeV) -> Seq<QueryEntryV> {
    match o.discovery {
        Ok(dss) => if dss.len() == 0 {
            Seq::empty()
        } else if term.len() == 0 {
            completion_entries_spec(o.provider, dss)
        } else {
            item_entries_spec(o.provider, dss, o.searches)
        },
        Err(_) => Seq::empty(),
    }
}

/// The merged result list: every backend's contribution concatenated
/// in registry order.
pub open spec fn merged_results(term: Seq<u8>, outs: Seq<BackendOutcomeV>) -> Seq<QueryEntryV> {
    outs.map_values(|o| backend_contribution(term, o)).flatten()
}

/// The tier discipline of one result: with no term it is a
/// full-relevance completion; with a term it is an exact-tier item.
/// The two tiers share the relevance field but the exact tier ranks
/// above the completion tier in UI ordering.
pub open spec fn tier_ok(e: QueryEntryV, term: Seq<u8>) -> bool {
    if term.len() == 0 {
        e.match_type == MATCH_TYPE_COMPLETION as int && e.relevance == RELEVANCE_FULL as int
    } else {
        e.match_type == MATCH_TYPE_EXACT as int
    }
}

/// The tier discipline of a whole result list.
pub open spec fn all_tier(s: Seq<QueryEntryV>, term: Seq<u8>) -> bool {
    forall|i: int| 0 <= i < s.len() ==> tier_ok(#[trigger] s[i], term)
}

/// Flattening keeps the tier discipline.
proof fn lemma_flatten_all_tier(s: Seq<Seq<QueryEntryV>>, term: Seq<u8>)
    requires
        forall|j: int| 0 <= j < s.len() ==> all_tier(#[trigger] s[j], term),
    ensures
        all_tier(s.flatten(), term),
    decreases s.len(),
{
    if s.len() > 0 {
        lemma_flatten_all_tier(s.drop_first(), term);
        assert forall|i: int| 0 <= i < s.flatten().len() implies tier_ok(
            #[trigger] s.flatten()[i],
            term,
        ) by {
            assert(s.flatten() == s.first() + s.drop_first().flatten());
            if i < s.first().len() {
                assert(s.flatten()[i] == s[0][i]);
            } else {
                assert(s.flatten()[i] == s.drop_first().flatten()[i - s.first().len()]);
            }
        }
    }
}

/// One backend's contribution keeps the tier discipline, whatever it
/// answered.
proof fn lemma_contribution_tiers(term: Seq<u8>, o: BackendOutcomeV)
    ensures
        all_tier(backend_contribution(term, o), term),
{
    match o.discovery {
        Ok(dss) => {
            if dss.len() == 0 {
            } else if term.len() == 0 {
                let per_ds = dss.map_values(|ds: DocSetV| docset_completions_spec(o.provider, ds));
                assert forall|j: int| 0 <= j < per_ds.len() implies all_tier(
                    #[trigger] per_ds[j],
                    term,
                ) by {
                    assert(per_ds[j] == docset_completions_spec(o.provider, dss[j]));
                }
                lemma_flatten_all_tier(per_ds, term);
            } else {
                let per_ds = Seq::new(
                    dss.len(),
                    |i: int| if 0 <= i < o.searches.len() {
                        docset_items_spec(o.provider, dss[i], o.searches[i])
                    } else {
                        Seq::empty()
                    },
                );
                assert forall|j: int| 0 <= j < per_ds.len() implies all_tier(
                    #[trigger] per_ds[j],
                    term,
                ) by {}
                lemma_flatten_all_tier(per_ds, term);
            }
        },
        Err(_) => {},
    }
}

/// Tier discipline of the merged list: when no term was given every
/// merged result is a full-relevance completion entry; when a term was
/// given every merged result is an exact-tier item — for every
/// possible set of backend answers.
pub proof fn lemma_merged_results_tiers(term: Seq<u8>, outs: Seq<BackendOutcomeV>)
    ensures
        all_tier(merged_results(term, outs), term),
{
    let m = outs.map_values(|o: BackendOutcomeV| backend_contribution(term, o));
    assert forall|j: int| 0 <= j < m.len() implies all_tier(#[trigger] m[j], term) by {
        assert(m[j] == backend_contribution(term, outs[j]));
        lemma_contribution_tiers(term, outs[j]);
    }
    lemma_flatten_all_tier(m, term);
}

/// Failure isolation: a backend whose docset discovery failed or came
/// back empty contributes no entry at all, and the merged result is
/// exactly what the remaining backends contribute — one backend's
/// failure never disturbs another's results.
pub proof fn lemma_failed_backend_isolation(term: Seq<u8>, outs: Seq<BackendOutcomeV>, i: int)
    requires
        0 <= i < outs.len(),
        outs[i].discovery is Err || (outs[i].discovery matches Ok(dss) && dss.len() == 0),
    ensures
        backend_contribution(term, outs[i]) == Seq::<QueryEntryV>::empty(),
        merged_results(term, outs) == merged_results(term, outs.remove(i)),
{
    let f = |o: BackendOutcomeV| backend_contribution(term, o);
    let m = outs.map_values(f);
    let mr = outs.remove(i).map_values(f);
    assert(m =~= m.take(i) + seq![m[i]] + m.skip(i + 1));
    lemma_flatten_concat(m.take(i) + seq![m[i]], m.skip(i + 1));
    lemma_flatten_concat(m.take(i), seq![m[i]]);
    seq![m[i]].lemma_flatten_one_element();
    assert(seq![m[i]].first() == m[i]);
    assert(mr =~= m.take(i) + m.skip(i + 1));
    lemma_flatten_concat(m.take(i), m.skip(i + 1));
    assert(merged_results(term, outs) =~= merged_results(term, outs.remove(i)));
}

/// Builds the completion-tier entry for one (docset, keyword) pair.
pub fn make_completion_entry(provider: &Vec<u8>, ds: &DocSet, keyword: &Vec<u8>) -> (r: QueryEntry)
    ensures
        r.deep_view() == completion_entry_spec(provider@, ds.deep_view(), keyword@),
{
    let data = encode_entry_data(
        &EntryData::DocSet { provider: clone_bytes(provider), id: clone_bytes(&ds.id) },
    );
    let mut display_text = vec![84u8, 121u8, 112u8, 101u8, 32u8, 34u8];
    proof {
        assert(display_text@ =~= completion_prefix());
    }
    let mut kw = clone_bytes(keyword);
    display_text.append(&mut kw);
    let mut mid = vec![32u8, 107u8, 101u8, 121u8, 119u8, 111u8, 114u8, 100u8, 34u8, 32u8, 116u8,
        111u8, 32u8, 115u8, 101u8, 97u8, 114u8, 99u8, 104u8, 32u8];
    proof {
        assert(mid@ =~= completion_mid());
    }
    display_text.append(&mut mid);
    let mut nm = clone_bytes(&ds.name);
    display_text.append(&mut nm);
    let r = QueryEntry {
        data,
        display_text,
        icon_name: clone_bytes(&ds.icon),
        match_type: MATCH_TYPE_COMPLETION,
        relevance: RELEVANCE_FULL,
        properties: QueryProperties { category: Vec::new(), subtext: Vec::new() },
    };
    proof {
        assert(r.deep_view().display_text =~= completion_text(keyword@, ds.deep_view().name));
        assert(r.deep_view() =~= completion_entry_spec(provider@, ds.deep_view(), keyword@));
    }
    r
}

/// Converts one search hit of one docset into its item-tier entry.
pub fn make_item_entry(provider: &Vec<u8>, ds: &DocSet, e: &SearchEntry) -> (r: QueryEntry)
    ensures
        r.deep_view() == item_entry_spec(provider@, ds.deep_view(), e.deep_view()),
{
    let data = encode_entry_data(
        &EntryData::Entry {
            provider: clone_bytes(provider),
            doc_set_id: clone_bytes(&ds.id),
            item_id: clone_bytes(&e.id),
        },
    );
    let r = QueryEntry {
        data,
        display_text: clone_bytes(&e.title),
        icon_name: e.entry_type.get_krunner_icon(),
        match_type: MATCH_TYPE_EXACT,
        relevance: e.relevance,
        properties: QueryProperties {
            category: clone_bytes(&ds.name),
            subtext: clone_bytes(&e.desc),
        },
    };
    proof {
        assert(r.deep_view() =~= item_entry_spec(provider@, ds.deep_view(), e.deep_view()));
    }
    r
}

/// Builds every completion entry of one docset, one per keyword.
pub fn docset_completions(provider: &Vec<u8>, ds: &DocSet) -> (r: Vec<QueryEntry>)
    ensures
        r.deep_view() == docset_completions_spec(provider@, ds.deep_view()),
{
    let mut r: Vec<QueryEntry> = Vec::new();
    let mut k: usize = 0;
    while k < ds.keywords.len()
        invariant
            k <= ds.keywords.len(),
            r.deep_view().len() == k,
            forall|x: int| 0 <= x < k ==> r.deep_view()[x] == completion_entry_spec(
                provider@,
                ds.deep_view(),
                ds.deep_view().keywords[x],
            ),
        decreases ds.keywords.len() - k,
    {
        let ghost r0 = r.deep_view();
        let e = make_completion_entry(provider, ds, &ds.keywords[k]);
        r.push(e);
        proof {
            assert(r.deep_view() =~= r0.push(e.deep_view()));
        }
        k += 1;
    }
    proof {
        assert(r.deep_view() =~= docset_completions_spec(provider@, ds.deep_view()));
    }
    r
}

/// Builds the completion entries of a whole docset list, in docset
/// order.
pub fn completion_entries(provider: &Vec<u8>, doc_sets: &Vec<DocSet>) -> (r: Vec<QueryEntry>)
    ensures
        r.deep_view() == completion_entries_spec(provider@, doc_sets.deep_view()),
{
    let ghost f = |ds: DocSetV| docset_completions_spec(provider@, ds);
    let mut r: Vec<QueryEntry> = Vec::new();
    let mut d: usize = 0;
    while d < doc_sets.len()
        invariant
            d <= doc_sets.len(),
            f == (|ds: DocSetV| docset_completions_spec(provider@, ds)),
            r.deep_view() == doc_sets.deep_view().take(d as int).map_values(f).flatten(),
        decreases doc_sets.len() - d,
    {
        let ghost r0 = r.deep_view();
        let mut c = docset_completions(provider, &doc_sets[d]);
        let ghost cv = c.deep_view();
        r.append(&mut c);
        proof {
            let dss = doc_sets.deep_view();
            assert(cv == f(dss[d as int]));
            assert(r.deep_view() =~= r0 + cv);
            dss.take(d as int).map_values(f).lemma_flatten_push(cv);
            assert(dss.take(d + 1).map_values(f) =~= dss.take(d as int).map_values(f).push(
                f(dss[d as int]),
            ));
            assert(r.deep_view() == dss.take(d + 1).map_values(f).flatten());
        }
        d += 1;
    }
    proof {
        let dss = doc_sets.deep_view();
        assert(dss.take(doc_sets.len() as int) =~= dss);
        assert(r.deep_view() == completion_entries_spec(provider@, dss));
    }
    r
}

/// Converts the successful search hits of one docset, in order.
pub fn docset_entries(provider: &Vec<u8>, ds: &DocSet, entries: &Vec<SearchEntry>)
    -> (r: Vec<QueryEntry>)
    ensures
        r.deep_view() == entries.deep_view().map_values(
            |e: SearchEntryV| item_entry_spec(provider@, ds.deep_view(), e),
        ),
{
    let mut r: Vec<QueryEntry> = Vec::new();
    let mut k: usize = 0;
    while k < entries.len()
        invariant
            k <= entries.len(),
            r.deep_view().len() == k,
            forall|x: int| 0 <= x < k ==> r.deep_view()[x] == item_entry_spec(
                provider@,
                ds.deep_view(),
                entries.deep_view()[x],
            ),
        decreases entries.len() - k,
    {
        let ghost r0 = r.deep_view();
        let e = make_item_entry(provider, ds, &entries[k]);
        r.push(e);
        proof {
            assert(r.deep_view() =~= r0.push(e.deep_view()));
        }
        k += 1;
    }
    proof {
        assert(r.deep_view() =~= entries.deep_view().map_values(
            |e: SearchEntryV| item_entry_spec(provider@, ds.deep_view(), e),
        ));
    }
    r
}

/// The input with leading ASCII whitespace removed.
pub open spec fn ltrim(s: Seq<u8>) -> Seq<u8>
    decreases s.len(),
{
    if s.len() > 0 && is_ws(s[0]) {
        ltrim(s.drop_first())
    } else {
        s
    }
}

/// The input with trailing ASCII whitespace removed.
pub open spec fn rtrim(s: Seq<u8>) -> Seq<u8>
    decreases s.len(),
{
    if s.len() > 0 && is_ws(s.last()) {
        rtrim(s.drop_last())
    } else {
        s
    }
}

/// The input with whitespace removed at both ends.
pub open spec fn trim(s: Seq<u8>) -> Seq<u8> {
    rtrim(ltrim(s))
}

/// The length of the leading run of non-whitespace bytes.
pub open spec fn token_len(s: Seq<u8>) -> nat
    decreases s.len(),
{
    if s.len() == 0 || is_ws(s[0]) {
        0
    } else {
        1 + token_len(s.drop_first())
    }
}

/// How a raw query splits: `None` when it holds no non-whitespace
/// byte; otherwise the keyword (the first whitespace-separated token)
/// and the term (the trimmed remainder, possibly empty).
pub open spec fn parse_query_spec(raw: Seq<u8>) -> Option<(Seq<u8>, Seq<u8>)> {
    let t = trim(raw);
    if t.len() == 0 {
        None
    } else {
        Some((t.take(token_len(t) as int), ltrim(t.skip(token_len(t) as int))))
    }
}

/// `ltrim` drops exactly the leading whitespace run.
proof fn lemma_ltrim_skip(s: Seq<u8>, i: int)
    requires
        0 <= i <= s.len(),
        forall|j: int| 0 <= j < i ==> is_ws(s[j]),
        i == s.len() || !is_ws(s[i]),
    ensures
        ltrim(s) == s.skip(i),
    decreases i,
{
    if i == 0 {
        assert(s.skip(0) =~= s);
    } else {
        assert(s.drop_first() =~= s.skip(1));
        lemma_ltrim_skip(s.skip(1), i - 1);
        assert(s.skip(1).skip(i - 1) =~= s.skip(i));
    }
}

/// `rtrim` drops exactly the trailing whitespace run.
proof fn lemma_rtrim_take(s: Seq<u8>, i: int)
    requires
        0 <= i <= s.len(),
        forall|j: int| i <= j < s.len() ==> is_ws(s[j]),
        i == 0 || !is_ws(s[i - 1]),
    ensures
        rtrim(s) == s.take(i),
    decreases s.len() - i,
{
    if i == s.len() {
        assert(s.take(i) =~= s);
    } else {
        assert(s.drop_last() =~= s.take(s.len() - 1));
        lemma_rtrim_take(s.take(s.len() - 1), i);
        assert(s.take(s.len() - 1).take(i) =~= s.take(i));
    }
}

/// `token_len` is the position of the first whitespace byte.
proof fn lemma_token_len(s: Seq<u8>, k: int)
    requires
        0 <= k <= s.len(),
        forall|j: int| 0 <= j < k ==> !is_ws(s[j]),
        k == s.len() || is_ws(s[k]),
    ensures
        token_len(s) == k,
    decreases k,
{
    if k > 0 {
        assert(s.drop_first() =~= s.skip(1));
        lemma_token_len(s.skip(1), k - 1);
    }
}

/// Splits a raw query into its keyword and term; `None` exactly when
/// the query is empty or whitespace only.
pub fn parse_query(raw: &Vec<u8>) -> (r: Option<(Vec<u8>, Vec<u8>)>)
    ensures
        match (r, parse_query_spec(raw@)) {
            (Some(p), Some(q)) => p.0@ == q.0 && p.1@ == q.1,
            (None, None) => true,
            _ => false,
        },
{
    let n = raw.len();
    let mut i: usize = 0;
    while i < n && is_ws_byte(raw[i])
        invariant
            0 <= i <= n,
            n == raw.len(),
            forall|j: int| 0 <= j < i ==> is_ws(raw@[j]),
        decreases n - i,
    {
        i += 1;
    }
    proof {
        lemma_ltrim_skip(raw@, i as int);
    }
    if i == n {
        proof {
            assert(raw@.skip(n as int) =~= Seq::<u8>::empty());
        }
        return None;
    }
    let mut j: usize = n;
    while j > i && is_ws_byte(raw[j - 1])
        invariant
            i <= j <= n,
            n == raw.len(),
            forall|k: int| j <= k < n ==> is_ws(raw@[k]),
        decreases j,
    {
        j -= 1;
    }
    proof {
        assert(j > i) by {
            if j == i {
                assert(is_ws(raw@[i as int]));
            }
        }
        let lt = raw@.skip(i as int);
        lemma_rtrim_take(lt, j - i);
        assert(trim(raw@) == lt.take(j - i));
        assert(lt.take(j - i) =~= raw@.subrange(i as int, j as int));
    }
    let mut e: usize = i;
    while e < j && !is_ws_byte(raw[e])
        invariant
            i <= e <= j <= n,
            n == raw.len(),
            forall|k: int| i <= k < e ==> !is_ws(raw@[k]),
        decreases j - e,
    {
        e += 1;
    }
    proof {
        let t = trim(raw@);
        lemma_token_len(t, e - i);
        assert(t.take(e - i) =~= raw@.subrange(i as int, e as int));
    }
    let keyword = subvec(raw, i, e);
    let mut m: usize = e;
    while m < j && is_ws_byte(raw[m])
        invariant
            e <= m <= j <= n,
            n == raw.len(),
            forall|k: int| e <= k < m ==> is_ws(raw@[k]),
        decreases j - m,
    {
        m += 1;
    }
    let term = subvec(raw, m, j);
    proof {
        let t = trim(raw@);
        let rest = t.skip((e - i) as int);
        assert(rest =~= raw@.subrange(e as int, j as int));
        lemma_ltrim_skip(rest, (m - e) as int);
        assert(rest.skip((m - e) as int) =~= raw@.subrange(m as int, j as int));
    }
    Some((keyword, term))
}

/// A failure of the collection mechanism itself, as distinct from a
/// backend failing.  Results are collected by a plain loop here, so
/// [`search_in_doc_sets`] proves it never produces one; the variant
/// remains part of the fan-out's interface.
#[derive(Debug, Clone, PartialEq, Eq)]
pub struct AggregateError {
    pub message: Vec<u8>,
}

/// Why an activation failed: the reference did not decode (malformed
/// or tampered), or the backend's open operation itself failed.
#[derive(Debug, Clone, PartialEq, Eq)]
pub enum ActionError {
    MalformedReference,
    Backend(BackendError),
}

/// The routing promise for one item activation, over the backend
/// names that were reported during it: when none of them is the
/// reference's provider, the activation is a silent no-op and
/// succeeds.  (When one matches, that backend's open operation decides
/// the outcome, which no contract here can pin.)
pub open spec fn routed_ok(names: Seq<Seq<u8>>, provider: Seq<u8>, r: Result<
    (),
    ActionError,
>) -> bool {
    (forall|j: int| 0 <= j < names.len() ==> names[j] != provider) ==> r is Ok
}

/// The informational configuration reported to the caller: the
/// minimum number of leading letters before a query is attempted.
#[derive(Debug, Clone, PartialEq, Eq)]
pub struct Config {
    pub min_letter_count: u64,
}

/// Adding one backend's outcome appends exactly its contribution.
proof fn lemma_merged_results_push(term: Seq<u8>, outs: Seq<BackendOutcomeV>, o: BackendOutcomeV)
    ensures
        merged_results(term, outs.push(o)) == merged_results(term, outs) + backend_contribution(
            term,
            o,
        ),
{
    let g = |oo: BackendOutcomeV| backend_contribution(term, oo);
    assert(outs.push(o).map_values(g) =~= outs.map_values(g).push(g(o)));
    outs.map_values(g).lemma_flatten_push(g(o));
}

/// One step of the item-tier fan-out: searching one more docset
/// appends exactly that docset's converted entries.
proof fn lemma_item_entries_step(
    provider: Seq<u8>,
    dss: Seq<DocSetV>,
    outcomes: Seq<Result<Seq<SearchEntryV>, Seq<u8>>>,
    d: int,
)
    requires
        0 <= d < dss.len(),
        outcomes.len() == d + 1,
    ensures
        item_entries_spec(provider, dss.take(d + 1), outcomes) == item_entries_spec(
            provider,
            dss.take(d),
            outcomes.take(d),
        ) + docset_items_spec(provider, dss[d], outcomes[d]),
{
    let small = Seq::new(
        dss.take(d).len(),
        |i: int| if 0 <= i < outcomes.take(d).len() {
            docset_items_spec(provider, dss.take(d)[i], outcomes.take(d)[i])
        } else {
            Seq::empty()
        },
    );
    let big = Seq::new(
        dss.take(d + 1).len(),
        |i: int| if 0 <= i < outcomes.len() {
            docset_items_spec(provider, dss.take(d + 1)[i], outcomes[i])
        } else {
            Seq::empty()
        },
    );
    assert(big =~= small.push(docset_items_spec(provider, dss[d], outcomes[d])));
    small.lemma_flatten_push(docset_items_spec(provider, dss[d], outcomes[d]));
}

/// Queries one backend's matched docsets for a term, one docset at a
/// time, and converts every successful hit; a docset whose search
/// fails contributes nothing.  For every possible set of per-docset
/// answers the result is exactly [`item_entries_spec`] of those
/// answers; collection is a plain loop, so the aggregate failure of
/// the fan-out interface provably does not occur.
pub fn search_in_doc_sets<P: DocProvider>(doc_provider: &P, doc_sets: Vec<DocSet>, q: &Vec<u8>)
    -> (r: Result<Vec<QueryEntry>, AggregateError>)
    ensures
        r is Ok,
        match r {
            Ok(v) => exists|prov: Seq<u8>, outcomes: Seq<Result<Seq<SearchEntryV>, Seq<u8>>>|
                outcomes.len() == doc_sets.deep_view().len() && v.deep_view() == item_entries_spec(
                    prov,
                    doc_sets.deep_view(),
                    outcomes,
                ),
            Err(_) => false,
        },
{
    let name = doc_provider.name();
    let ghost dss = doc_sets.deep_view();
    let mut result: Vec<QueryEntry> = Vec::new();
    let ghost mut searches: Seq<Result<Seq<SearchEntryV>, Seq<u8>>> = Seq::empty();
    let mut d: usize = 0;
    while d < doc_sets.len()
        invariant
            d <= doc_sets.len(),
            searches.len() == d,
            dss == doc_sets.deep_view(),
            result.deep_view() == item_entries_spec(name@, dss.take(d as int), searches),
        decreases doc_sets.len() - d,
    {
        let ds = &doc_sets[d];
        let ghost r0 = result.deep_view();
        let ghost searches0 = searches;
        match doc_provider.search(&ds.id, q) {
            Ok(entries) => {
                let mut conv = docset_entries(&name, ds, &entries);
                let ghost cv = conv.deep_view();
                result.append(&mut conv);
                proof {
                    searches = searches.push(Ok(entries.deep_view()));
                    assert(cv =~= docset_items_spec(name@, dss[d as int], searches[d as int]));
                    assert(result.deep_view() =~= r0 + cv);
                }
            },
            Err(e) => {
                proof {
                    searches = searches.push(Err(e.deep_view()));
                    assert(result.deep_view() =~= r0 + docset_items_spec(
                        name@,
                        dss[d as int],
                        searches[d as int],
                    ));
                }
            },
        }
        proof {
            assert(searches.take(d as int) =~= searches0);
            lemma_item_entries_step(name@, dss, searches, d as int);
        }
        d += 1;
    }
    proof {
        assert(dss.take(doc_sets.len() as int) =~= dss);
        assert(searches.len() == doc_sets.deep_view().len() && result.deep_view() == item_entries_spec(
            name@,
            doc_sets.deep_view(),
            searches,
        ));
    }
    Ok(result)
}

/// The engine: an immutable registry of backends behind one interface,
/// serving queries and routing activations.
pub struct KRunnerPlugin<P> {
    pub providers: Vec<P>,
}

impl<P: DocProvider> KRunnerPlugin<P> {
    /// Builds the engine over an already-registered, immutable backend
    /// list.
    pub fn new(providers: Vec<P>) -> (r: Self)
        ensures
            r.providers@ == providers@,
    {
        KRunnerPlugin { providers }
    }

    /// Answers a raw query.
    ///
    /// A query with no leading non-whitespace token returns the empty
    /// list without touching any backend.  Otherwise every backend is
    /// asked in registry order and the merged list is exactly
    /// [`merged_results`] of what the backends answered: completions
    /// when no term was given, converted search hits when one was, and
    /// nothing from a backend whose discovery failed or came back
    /// empty.
    pub fn query(&self, raw: &Vec<u8>) -> (r: Vec<QueryEntry>)
        ensures
            parse_query_spec(raw@) is None ==> r@.len() == 0,
            parse_query_spec(raw@) matches Some(p) ==> exists|outs: Seq<BackendOutcomeV>|
                outs.len() == self.providers@.len() && r.deep_view() == merged_results(p.1, outs),
            parse_query_spec(raw@) matches Some(p) ==> all_tier(r.deep_view(), p.1),
    {
        let parsed = match parse_query(raw) {
            Some(p) => p,
            None => {
                return Vec::new();
            },
        };
        let (keyword, term) = parsed;
        let ghost term_s = term@;
        let ghost mut outs: Seq<BackendOutcomeV> = Seq::empty();
        let mut result: Vec<QueryEntry> = Vec::new();
        let mut b: usize = 0;
        while b < self.providers.len()
            invariant
                b <= self.providers.len(),
                outs.len() == b,
                term_s == term@,
                result.deep_view() == merged_results(term_s, outs),
            decreases self.providers.len() - b,
        {
            let p = &self.providers[b];
            let name = p.name();
            let ghost r0 = result.deep_view();
            let ghost outs0 = outs;
            let ghost mut o = BackendOutcomeV {
                provider: name@,
                discovery: Err(Seq::empty()),
                searches: Seq::empty(),
            };
            let ghost mut cv = Seq::<QueryEntryV>::empty();
            match p.search_doc_sets(&keyword) {
                Err(e) => {
                    proof {
                        o = BackendOutcomeV {
                            provider: name@,
                            discovery: Err(e.deep_view()),
                            searches: Seq::empty(),
                        };
                    }
                },
                Ok(doc_sets) => {
                    let ghost dssv = doc_sets.deep_view();
                    if doc_sets.len() == 0 {
                        proof {
                            o = BackendOutcomeV {
                                provider: name@,
                                discovery: Ok(dssv),
                                searches: Seq::empty(),
                            };
                        }
                    } else if term.len() == 0 {
                        let mut c = completion_entries(&name, &doc_sets);
                        proof {
                            cv = c.deep_view();
                            o = BackendOutcomeV {
                                provider: name@,
                                discovery: Ok(dssv),
                                searches: Seq::empty(),
                            };
                        }
                        result.append(&mut c);
                    } else {
                        let mut v = match search_in_doc_sets(p, doc_sets, &term) {
                            Ok(v) => v,
                            Err(_) => {
                                // provably unreachable: the sequential
                                // fan-out never fails to collect
                                proof {
                                    assert(false);
                                }
                                Vec::new()
                            },
                        };
                        proof {
                            cv = v.deep_view();
                            assert(exists|
                                prov: Seq<u8>,
                                srch: Seq<Result<Seq<SearchEntryV>, Seq<u8>>>,
                            |
                                srch.len() == dssv.len() && cv == item_entries_spec(
                                    prov,
                                    dssv,
                                    srch,
                                ));
                            let (prov, srch) = choose|
                                prov: Seq<u8>,
                                srch: Seq<Result<Seq<SearchEntryV>, Seq<u8>>>,
                            |
                                srch.len() == dssv.len() && cv == item_entries_spec(
                                    prov,
                                    dssv,
                                    srch,
                                );
                            o = BackendOutcomeV { provider: prov, discovery: Ok(dssv), searches: srch };
                        }
                        result.append(&mut v);
                    }
                },
            }
            proof {
                assert(backend_contribution(term_s, o) == cv);
                assert(result.deep_view() =~= r0 + cv);
                lemma_merged_results_push(term_s, outs0, o);
                outs = outs.push(o);
            }
            b += 1;
        }
        proof {
            assert(result.deep_view() == merged_results(term_s, outs));
            lemma_merged_results_tiers(term_s, outs);
        }
        result
    }

    /// The informational configuration: one leading letter suffices.
    pub fn config(&self) -> (r: Config)
        ensures
            r.min_letter_count == 1,
    {
        Config { min_letter_count: 1 }
    }

    /// Routes an activation back to the originating backend.
    ///
    /// A reference that does not decode is a malformed-reference
    /// error, and the only way to get one.  A docset-selection
    /// reference is informational only and succeeds without touching a
    /// backend.  An item reference whose provider is no longer
    /// registered is a benign no-op, since the registry may have
    /// changed since the search; when the provider is found, its open
    /// operation decides the outcome, and its failure is the only
    /// source of a backend error.  As with [`Self::query`], the
    /// backends' answers cannot be constrained, so the no-op promise is
    /// stated over the names the backends reported: whenever none of
    /// them matched the reference — in particular over an empty
    /// registry, where there is nothing to report — the activation
    /// succeeds.
    pub fn run(&self, data: &Vec<u8>, _action_id: &Vec<u8>) -> (r: Result<(), ActionError>)
        ensures
            decode_spec(data@) is None <==> (r matches Err(e) && e is MalformedReference),
            (match decode_spec(data@) {
                Some(d) => d is DocSet,
                None => false,
            }) ==> r is Ok,
            (match r {
                Err(ActionError::Backend(_)) => match decode_spec(data@) {
                    Some(d) => d is Entry,
                    None => false,
                },
                _ => true,
            }),
            (match decode_spec(data@) {
                Some(d) => d is Entry,
                None => false,
            }) && self.providers@.len() == 0 ==> r is Ok,
            decode_spec(data@) matches Some(EntryDataV::Entry { provider: prov, .. })
                ==> exists|names: Seq<Seq<u8>>|
                names.len() == self.providers@.len() && routed_ok(names, prov, r),
    {
        let decoded = match decode_entry_data(data) {
            Some(d) => d,
            None => {
                return Err(ActionError::MalformedReference);
            },
        };
        match decoded {
            EntryData::DocSet { .. } => Ok(()),
            EntryData::Entry { provider, doc_set_id, item_id } => {
                let ghost prov = provider@;
                let ghost mut names: Seq<Seq<u8>> = Seq::empty();
                let mut b: usize = 0;
                while b < self.providers.len()
                    invariant
                        b <= self.providers.len(),
                        names.len() == b,
                        prov == provider@,
                        forall|j: int| 0 <= j < b ==> names[j] != prov,
                        match decode_spec(data@) {
                            Some(d) => d matches EntryDataV::Entry { provider: p, .. } && p
                                == prov,
                            None => false,
                        },
                    decreases self.providers.len() - b,
                {
                    let name = self.providers[b].name();
                    if bytes_eq(&name, &provider) {
                        let outcome = match self.providers[b].open(&doc_set_id, &item_id) {
                            Ok(u) => Ok(u),
                            Err(e) => Err(ActionError::Backend(e)),
                        };
                        proof {
                            let w = Seq::new(
                                self.providers@.len() as nat,
                                |j: int| if j < b { names[j] } else { prov },
                            );
                            assert(w.len() == self.providers@.len());
                            assert(routed_ok(w, prov, outcome)) by {
                                assert(w[b as int] == prov);
                            }
                        }
                        return outcome;
                    }
                    proof {
                        names = names.push(name@);
                    }
                    b += 1;
                }
                proof {
                    assert(routed_ok(names, prov, Result::<(), ActionError>::Ok(())));
                }
                Ok(())
            },
        }
    }

    /// The shutdown lifecycle hook: the engine holds no resource of
    /// its own, so nothing is done.
    pub fn teardown(&self) {
    }
}

} // verus!
