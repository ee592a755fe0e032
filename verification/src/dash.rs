//! The pure rules of the Zeal/Dash docset backend.
//!
//! The backend itself lives outside the library: it scans a docset
//! directory, reads each docset's metadata file and queries its
//! relational index.  Everything it *decides* — how a docset's keyword
//! set is derived from its metadata, which docsets a query token
//! selects, how a docset presents itself, how an index row's path and
//! fragment form an item locator — is specified and verified here on
//! plain values.

use vstd::prelude::*;

use crate::provider::{DocSet, DocSetV};
use crate::text::{bytes_eq, clone_bytes, lower, starts_with, to_lowercase};

verus! {

broadcast use crate::text::lemma_vec_u8_deep_view;

/// One discovered docset: its metadata-derived fields, without the
/// backend's open database handle.
#[derive(Debug, Clone, PartialEq, Eq)]
pub struct DashDocSet {
    pub name: Vec<u8>,
    pub title: Vec<u8>,
    pub keywords: Vec<Vec<u8>>,
    pub icon: Option<Vec<u8>>,
}

/// The mathematical model of a [`DashDocSet`].
#[verifier::ext_equal]
pub struct DashDocSetV {
    pub name: Seq<u8>,
    pub title: Seq<u8>,
    pub keywords: Seq<Seq<u8>>,
    pub icon: Option<Seq<u8>>,
}

impl DeepView for DashDocSet {
    type V = DashDocSetV;

    open spec fn deep_view(&self) -> DashDocSetV {
        DashDocSetV {
            name: self.name@,
            title: self.title@,
            keywords: self.keywords.deep_view(),
            icon: self.icon.deep_view(),
        }
    }
}

/// The docset name that gets an extra keyword.
pub open spec fn android_name() -> Seq<u8> {
    seq![65u8, 110u8, 100u8, 114u8, 111u8, 105u8, 100u8]
}

/// The extra keyword given to that docset.
pub open spec fn droid_keyword() -> Seq<u8> {
    seq![100u8, 114u8, 111u8, 105u8, 100u8]
}

/// The fixed table of extra keywords, keyed by exact docset name.
pub open spec fn extra_keywords(name: Seq<u8>) -> Seq<Seq<u8>> {
    if name == android_name() {
        seq![droid_keyword()]
    } else {
        Seq::empty()
    }
}

/// A docset's full keyword set: the metadata keywords lower-cased, the
/// docset name lower-cased, then the extra-keyword table's entries for
/// that name, in that order.
pub open spec fn derive_keywords_spec(name: Seq<u8>, declared: Seq<Seq<u8>>) -> Seq<Seq<u8>> {
    declared.map_values(|k: Seq<u8>| lower(k)) + seq![lower(name)] + extra_keywords(name)
}

/// Whether a lower-cased query token selects a docset with these
/// keywords: some keyword starts with the token.
pub open spec fn contains_keyword_spec(keywords: Seq<Seq<u8>>, kw_lc: Seq<u8>) -> bool {
    exists|i: int| 0 <= i < keywords.len() && kw_lc.is_prefix_of(keywords[i])
}

/// How a discovered docset presents itself across the backend
/// contract: the name doubles as the routing id, the title as the
/// description, and a missing icon becomes the empty reference.
pub open spec fn to_doc_set_spec(s: DashDocSetV) -> DocSetV {
    DocSetV {
        id: s.name,
        keywords: s.keywords,
        name: s.name,
        description: s.title,
        icon: match s.icon {
            Some(i) => i,
            None => Seq::empty(),
        },
    }
}

/// The docsets selected by a lower-cased query token, in discovery
/// order.
pub open spec fn matching_doc_sets(sets: Seq<DashDocSetV>, kw_lc: Seq<u8>) -> Seq<DashDocSetV> {
    sets.filter(|s: DashDocSetV| contains_keyword_spec(s.keywords, kw_lc))
}

/// What the backend's docset discovery answers for a raw query token:
/// the token is lower-cased, the selected docsets are converted.
pub open spec fn search_doc_sets_spec(sets: Seq<DashDocSetV>, keyword: Seq<u8>) -> Seq<DocSetV> {
    matching_doc_sets(sets, lower(keyword)).map_values(|s: DashDocSetV| to_doc_set_spec(s))
}

impl DashDocSet {
    /// Assembles a discovered docset from its metadata fields,
    /// deriving the keyword set.
    pub fn new(name: Vec<u8>, title: Vec<u8>, declared_keywords: &Vec<Vec<u8>>, icon: Option<
        Vec<u8>,
    >) -> (r: DashDocSet)
        ensures
            r.name@ == name@,
            r.title@ == title@,
            r.icon.deep_view() == icon.deep_view(),
            r.keywords.deep_view() == derive_keywords_spec(name@, declared_keywords.deep_view()),
    {
        let mut keywords: Vec<Vec<u8>> = Vec::new();
        let mut i: usize = 0;
        while i < declared_keywords.len()
            invariant
                i <= declared_keywords.len(),
                keywords.deep_view().len() == i,
                forall|j: int| 0 <= j < i ==> keywords.deep_view()[j] == lower(
                    declared_keywords.deep_view()[j],
                ),
            decreases declared_keywords.len() - i,
        {
            let ghost k0 = keywords.deep_view();
            let lowered = to_lowercase(&declared_keywords[i]);
            keywords.push(lowered);
            proof {
                assert(keywords.deep_view() =~= k0.push(lowered@));
            }
            i += 1;
        }
        let ghost k1 = keywords.deep_view();
        let name_lc = to_lowercase(&name);
        keywords.push(name_lc);
        proof {
            assert(keywords.deep_view() =~= k1.push(lower(name@)));
        }
        let android = vec![65u8, 110u8, 100u8, 114u8, 111u8, 105u8, 100u8];
        proof {
            assert(android@ =~= android_name());
        }
        if bytes_eq(&name, &android) {
            let ghost k2 = keywords.deep_view();
            let droid = vec![100u8, 114u8, 111u8, 105u8, 100u8];
            proof {
                assert(droid@ =~= droid_keyword());
            }
            keywords.push(droid);
            proof {
                assert(keywords.deep_view() =~= k2.push(droid_keyword()));
            }
        }
        let r = DashDocSet { name, title, keywords, icon };
        proof {
            assert(r.keywords.deep_view() =~= derive_keywords_spec(
                r.name@,
                declared_keywords.deep_view(),
            ));
        }
        r
    }

    /// Whether a lower-cased query token selects this docset.
    pub fn contains_keyword(&self, kw_lc: &Vec<u8>) -> (r: bool)
        ensures
            r == contains_keyword_spec(self.deep_view().keywords, kw_lc@),
    {
        let mut i: usize = 0;
        while i < self.keywords.len()
            invariant
                i <= self.keywords.len(),
                forall|j: int| 0 <= j < i ==> !kw_lc@.is_prefix_of(self.deep_view().keywords[j]),
            decreases self.keywords.len() - i,
        {
            if starts_with(&self.keywords[i], kw_lc) {
                assert(kw_lc@.is_prefix_of(self.deep_view().keywords[i as int]));
                return true;
            }
            i += 1;
        }
        false
    }

    /// This docset as the backend contract presents it.
    pub fn to_doc_set(&self) -> (r: DocSet)
        ensures
            r.deep_view() == to_doc_set_spec(self.deep_view()),
    {
        let icon = match &self.icon {
            Some(i) => clone_bytes(i),
            None => Vec::new(),
        };
        let mut keywords: Vec<Vec<u8>> = Vec::new();
        let mut i: usize = 0;
        while i < self.keywords.len()
            invariant
                i <= self.keywords.len(),
                keywords.deep_view().len() == i,
                forall|j: int| 0 <= j < i ==> keywords.deep_view()[j] == self.deep_view().keywords[
                    j
                ],
            decreases self.keywords.len() - i,
        {
            let ghost k0 = keywords.deep_view();
            let kw = clone_bytes(&self.keywords[i]);
            keywords.push(kw);
            proof {
                assert(keywords.deep_view() =~= k0.push(kw@));
            }
            i += 1;
        }
        let r = DocSet {
            id: clone_bytes(&self.name),
            keywords,
            name: clone_bytes(&self.name),
            description: clone_bytes(&self.title),
            icon,
        };
        proof {
            assert(r.deep_view().keywords =~= self.deep_view().keywords);
            assert(r.deep_view() =~= to_doc_set_spec(self.deep_view()));
        }
        r
    }
}

/// One step of the selection filter: considering one more docset
/// appends it exactly when the token selects it.
proof fn lemma_matching_step(sets: Seq<DashDocSetV>, kw_lc: Seq<u8>, i: int)
    requires
        0 <= i < sets.len(),
    ensures
        matching_doc_sets(sets.take(i + 1), kw_lc) == if contains_keyword_spec(
            sets[i].keywords,
            kw_lc,
        ) {
            matching_doc_sets(sets.take(i), kw_lc).push(sets[i])
        } else {
            matching_doc_sets(sets.take(i), kw_lc)
        },
{
    reveal(Seq::filter);
    assert(sets.take(i + 1).drop_last() =~= sets.take(i));
    assert(sets.take(i + 1).last() == sets[i]);
}

/// Answers the backend's docset discovery: every docset one of whose
/// keywords starts with the lower-cased query token, presented through
/// the contract, in discovery order.
pub fn search_doc_sets(sets: &Vec<DashDocSet>, keyword: &Vec<u8>) -> (r: Vec<DocSet>)
    ensures
        r.deep_view() == search_doc_sets_spec(sets.deep_view(), keyword@),
{
    let kw_lc = to_lowercase(keyword);
    let ghost sv = sets.deep_view();
    let ghost mut selected: Seq<DashDocSetV> = Seq::empty();
    let mut r: Vec<DocSet> = Vec::new();
    let mut i: usize = 0;
    proof {
        reveal(Seq::filter);
        assert(sv.take(0) =~= Seq::<DashDocSetV>::empty());
    }
    while i < sets.len()
        invariant
            i <= sets.len(),
            sv == sets.deep_view(),
            kw_lc@ == lower(keyword@),
            selected == matching_doc_sets(sv.take(i as int), kw_lc@),
            r.deep_view().len() == selected.len(),
            forall|j: int| 0 <= j < selected.len() ==> r.deep_view()[j] == to_doc_set_spec(
                selected[j],
            ),
        decreases sets.len() - i,
    {
        proof {
            lemma_matching_step(sv, kw_lc@, i as int);
        }
        if sets[i].contains_keyword(&kw_lc) {
            let ghost r0 = r.deep_view();
            let ds = sets[i].to_doc_set();
            r.push(ds);
            proof {
                assert(r.deep_view() =~= r0.push(ds.deep_view()));
                selected = selected.push(sv[i as int]);
            }
        }
        i += 1;
    }
    proof {
        assert(sv.take(sets.len() as int) =~= sv);
        assert(r.deep_view() =~= matching_doc_sets(sv, kw_lc@).map_values(
            |s: DashDocSetV| to_doc_set_spec(s),
        ));
    }
    r
}

/// Finds the docset a search or activation routes to: the first one
/// whose name is exactly the given id, if any.
pub fn find_doc_set(sets: &Vec<DashDocSet>, doc_set_id: &Vec<u8>) -> (r: Option<usize>)
    ensures
        match r {
            Some(i) => i < sets@.len() && sets.deep_view()[i as int].name == doc_set_id@
                && forall|j: int| 0 <= j < i ==> sets.deep_view()[j].name != doc_set_id@,
            None => forall|j: int| 0 <= j < sets@.len() ==> sets.deep_view()[j].name
                != doc_set_id@,
        },
{
    let mut i: usize = 0;
    while i < sets.len()
        invariant
            i <= sets.len(),
            forall|j: int| 0 <= j < i ==> sets.deep_view()[j].name != doc_set_id@,
        decreases sets.len() - i,
    {
        if bytes_eq(&sets[i].name, doc_set_id) {
            return Some(i);
        }
        i += 1;
    }
    None
}

/// Joins an index row's path and fragment into the item locator
/// `path#fragment`.
pub fn entry_url(path: &Vec<u8>, fragment: &Vec<u8>) -> (r: Vec<u8>)
    ensures
        r@ == path@ + seq![35u8] + fragment@,
{
    let mut r = clone_bytes(path);
    r.push(35);
    let mut f = clone_bytes(fragment);
    r.append(&mut f);
    proof {
        assert(r@ =~= path@ + seq![35u8] + fragment@);
    }
    r
}

} // verus!
