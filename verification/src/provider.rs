//! The value types exchanged with a search backend, and the contract
//! every backend implements.

use vstd::prelude::*;

verus! {

/// The kind of a matched item inside a docset: a closed set of known
/// kinds plus an open fallback for backend-specific labels.
#[derive(Debug, Clone, PartialEq, Eq)]
pub enum EntryType {
    Class,
    Function,
    Method,
    Enum,
    Constant,
    Option,
    Guide,
    Module,
    Other(Vec<u8>),
}

/// The mathematical model of an [`EntryType`]: the same kinds, with the
/// fallback label abstracted to a byte sequence.
#[verifier::ext_equal]
pub enum EntryTypeV {
    Class,
    Function,
    Method,
    Enum,
    Constant,
    Option,
    Guide,
    Module,
    Other(Seq<u8>),
}

impl DeepView for EntryType {
    type V = EntryTypeV;

    open spec fn deep_view(&self) -> EntryTypeV {
        match self {
            EntryType::Class => EntryTypeV::Class,
            EntryType::Function => EntryTypeV::Function,
            EntryType::Method => EntryTypeV::Method,
            EntryType::Enum => EntryTypeV::Enum,
            EntryType::Constant => EntryTypeV::Constant,
            EntryType::Option => EntryTypeV::Option,
            EntryType::Guide => EntryTypeV::Guide,
            EntryType::Module => EntryTypeV::Module,
            EntryType::Other(label) => EntryTypeV::Other(label@),
        }
    }
}

/// One matched item inside a docset, as a backend reports it.
/// `relevance` is on the backend's own scale, nominally 0 to 100,
/// larger is better; it is never recomputed by the engine, only
/// linearly normalized for display.
#[derive(Debug, Clone, PartialEq, Eq)]
pub struct SearchEntry {
    pub entry_type: EntryType,
    pub title: Vec<u8>,
    pub desc: Vec<u8>,
    pub id: Vec<u8>,
    pub relevance: usize,
}

/// The mathematical model of a [`SearchEntry`].
#[verifier::ext_equal]
pub struct SearchEntryV {
    pub entry_type: EntryTypeV,
    pub title: Seq<u8>,
    pub desc: Seq<u8>,
    pub id: Seq<u8>,
    pub relevance: int,
}

impl DeepView for SearchEntry {
    type V = SearchEntryV;

    open spec fn deep_view(&self) -> SearchEntryV {
        SearchEntryV {
            entry_type: self.entry_type.deep_view(),
            title: self.title@,
            desc: self.desc@,
            id: self.id@,
            relevance: self.relevance as int,
        }
    }
}

/// A backend-local searchable collection.  `id` routes later searches
/// and actions and is never displayed; any keyword matching the user's
/// leading query token selects the docset.
#[derive(Debug, Clone, PartialEq, Eq)]
pub struct DocSet {
    pub id: Vec<u8>,
    pub keywords: Vec<Vec<u8>>,
    pub name: Vec<u8>,
    pub description: Vec<u8>,
    pub icon: Vec<u8>,
}

/// The mathematical model of a [`DocSet`].
#[verifier::ext_equal]
pub struct DocSetV {
    pub id: Seq<u8>,
    pub keywords: Seq<Seq<u8>>,
    pub name: Seq<u8>,
    pub description: Seq<u8>,
    pub icon: Seq<u8>,
}

impl DeepView for DocSet {
    type V = DocSetV;

    open spec fn deep_view(&self) -> DocSetV {
        DocSetV {
            id: self.id@,
            keywords: self.keywords.deep_view(),
            name: self.name@,
            description: self.description@,
            icon: self.icon@,
        }
    }
}

/// A failure of a single backend or single docset call.  It is always
/// recovered locally: the failing call contributes empty results and the
/// query as a whole goes on.
#[derive(Debug, Clone, PartialEq, Eq)]
pub struct BackendError {
    pub message: Vec<u8>,
}

impl DeepView for BackendError {
    type V = Seq<u8>;

    open spec fn deep_view(&self) -> Seq<u8> {
        self.message@
    }
}

/// The contract every search backend implements.
///
/// `name` must be stable and unique among registered backends: it is
/// stored inside action references and matched exactly when a result is
/// activated later.  `search_doc_sets` returns every docset whose
/// keyword set matches the given token (the matching policy is the
/// backend's own).  `search` returns ranked matches for a term inside
/// one docset and must tolerate an unknown docset id by returning an
/// empty list.  `open` performs the activation side effect for an item
/// returned earlier.  `clean_up` releases held resources, best effort.
///
/// Nothing is assumed here about what these operations return: the
/// engine is verified to behave correctly for every possible response,
/// including failures.  Backends are expected to keep `relevance`
/// within 0 to 100; the engine passes values outside that range through
/// unclamped.
pub trait DocProvider {
    fn name(&self) -> Vec<u8>;

    fn search_doc_sets(&self, keyword: &Vec<u8>) -> Result<Vec<DocSet>, BackendError>;

    fn search(&self, doc_set_id: &Vec<u8>, q: &Vec<u8>) -> Result<Vec<SearchEntry>, BackendError>;

    fn open(&self, doc_set_id: &Vec<u8>, item_id: &Vec<u8>) -> Result<(), BackendError>;

    fn clean_up(&self);
}


/// The backend label naming the Class kind.
pub open spec fn label_class() -> Seq<u8> {
    seq![67u8, 108u8, 97u8, 115u8, 115u8]
}
/// The backend label naming the Function kind.
pub open spec fn label_function() -> Seq<u8> {
    seq![70u8, 117u8, 110u8, 99u8, 116u8, 105u8, 111u8, 110u8]
}
/// The backend label naming the Method kind.
pub open spec fn label_method() -> Seq<u8> {
    seq![77u8, 101u8, 116u8, 104u8, 111u8, 100u8]
}
/// The backend label naming the Enum kind.
pub open spec fn label_enum() -> Seq<u8> {
    seq![69u8, 110u8, 117u8, 109u8]
}
/// The backend label naming the Constant kind.
pub open spec fn label_constant() -> Seq<u8> {
    seq![67u8, 111u8, 110u8, 115u8, 116u8, 97u8, 110u8, 116u8]
}
/// The backend label naming the Option kind.
pub open spec fn label_option() -> Seq<u8> {
    seq![79u8, 112u8, 116u8, 105u8, 111u8, 110u8]
}
/// The backend label naming the Guide kind.
pub open spec fn label_guide() -> Seq<u8> {
    seq![71u8, 117u8, 105u8, 100u8, 101u8]
}
/// The backend label naming the Module kind.
pub open spec fn label_module() -> Seq<u8> {
    seq![77u8, 111u8, 100u8, 117u8, 108u8, 101u8]
}

/// Which kind a backend's textual type label names: one of the known
/// labels exactly, anything else the open fallback carrying the label
/// itself.
pub open spec fn entry_type_of_label(l: Seq<u8>) -> EntryTypeV {
    if l == label_class() {
        EntryTypeV::Class
    } else if l == label_function() {
        EntryTypeV::Function
    } else if l == label_method() {
        EntryTypeV::Method
    } else if l == label_enum() {
        EntryTypeV::Enum
    } else if l == label_constant() {
        EntryTypeV::Constant
    } else if l == label_option() {
        EntryTypeV::Option
    } else if l == label_guide() {
        EntryTypeV::Guide
    } else if l == label_module() {
        EntryTypeV::Module
    } else {
        EntryTypeV::Other(l)
    }
}

impl EntryType {
    /// Parses a backend's textual type label into its kind.
    pub fn from_label(label: &Vec<u8>) -> (r: EntryType)
        ensures
            r.deep_view() == entry_type_of_label(label@),
    {
    let lit = vec![67u8, 108u8, 97u8, 115u8, 115u8];
    proof {
        assert(lit@ =~= label_class());
    }
    if crate::text::bytes_eq(label, &lit) {
        return EntryType::Class;
    }
    let lit = vec![70u8, 117u8, 110u8, 99u8, 116u8, 105u8, 111u8, 110u8];
    proof {
        assert(lit@ =~= label_function());
    }
    if crate::text::bytes_eq(label, &lit) {
        return EntryType::Function;
    }
    let lit = vec![77u8, 101u8, 116u8, 104u8, 111u8, 100u8];
    proof {
        assert(lit@ =~= label_method());
    }
    if crate::text::bytes_eq(label, &lit) {
        return EntryType::Method;
    }
    let lit = vec![69u8, 110u8, 117u8, 109u8];
    proof {
        assert(lit@ =~= label_enum());
    }
    if crate::text::bytes_eq(label, &lit) {
        return EntryType::Enum;
    }
    let lit = vec![67u8, 111u8, 110u8, 115u8, 116u8, 97u8, 110u8, 116u8];
    proof {
        assert(lit@ =~= label_constant());
    }
    if crate::text::bytes_eq(label, &lit) {
        return EntryType::Constant;
    }
    let lit = vec![79u8, 112u8, 116u8, 105u8, 111u8, 110u8];
    proof {
        assert(lit@ =~= label_option());
    }
    if crate::text::bytes_eq(label, &lit) {
        return EntryType::Option;
    }
    let lit = vec![71u8, 117u8, 105u8, 100u8, 101u8];
    proof {
        assert(lit@ =~= label_guide());
    }
    if crate::text::bytes_eq(label, &lit) {
        return EntryType::Guide;
    }
    let lit = vec![77u8, 111u8, 100u8, 117u8, 108u8, 101u8];
    proof {
        assert(lit@ =~= label_module());
    }
    if crate::text::bytes_eq(label, &lit) {
        return EntryType::Module;
    }
    EntryType::Other(crate::text::clone_bytes(label))
}
}

} // verus!
