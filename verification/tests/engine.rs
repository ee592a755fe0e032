use std::cell::RefCell;

use dashdoc::entry_data::{decode_entry_data, encode_entry_data, EntryData};
use dashdoc::krunner::{
    make_item_entry, ActionError, KRunnerPlugin, MATCH_TYPE_COMPLETION, MATCH_TYPE_EXACT,
};
use dashdoc::provider::{BackendError, DocProvider, DocSet, EntryType, SearchEntry};

fn b(s: &str) -> Vec<u8> {
    s.as_bytes().to_vec()
}

#[derive(Debug, Clone, PartialEq, Eq)]
enum Call {
    Discover(Vec<u8>),
    Search(Vec<u8>, Vec<u8>),
    Open(Vec<u8>, Vec<u8>),
}

struct Mock {
    backend_name: Vec<u8>,
    discovery: Result<Vec<DocSet>, Vec<u8>>,
    search_result: Result<Vec<SearchEntry>, Vec<u8>>,
    open_result: Result<(), Vec<u8>>,
    calls: RefCell<Vec<Call>>,
}

impl Mock {
    fn new(name: &str) -> Mock {
        Mock {
            backend_name: b(name),
            discovery: Ok(vec![]),
            search_result: Ok(vec![]),
            open_result: Ok(()),
            calls: RefCell::new(vec![]),
        }
    }
}

impl DocProvider for Mock {
    fn name(&self) -> Vec<u8> {
        self.backend_name.clone()
    }

    fn search_doc_sets(&self, keyword: &Vec<u8>) -> Result<Vec<DocSet>, BackendError> {
        self.calls.borrow_mut().push(Call::Discover(keyword.clone()));
        match &self.discovery {
            Ok(v) => Ok(v.clone()),
            Err(m) => Err(BackendError { message: m.clone() }),
        }
    }

    fn search(&self, doc_set_id: &Vec<u8>, q: &Vec<u8>) -> Result<Vec<SearchEntry>, BackendError> {
        self.calls.borrow_mut().push(Call::Search(doc_set_id.clone(), q.clone()));
        match &self.search_result {
            Ok(v) => Ok(v.clone()),
            Err(m) => Err(BackendError { message: m.clone() }),
        }
    }

    fn open(&self, doc_set_id: &Vec<u8>, item_id: &Vec<u8>) -> Result<(), BackendError> {
        self.calls.borrow_mut().push(Call::Open(doc_set_id.clone(), item_id.clone()));
        match &self.open_result {
            Ok(()) => Ok(()),
            Err(m) => Err(BackendError { message: m.clone() }),
        }
    }

    fn clean_up(&self) {}
}

fn python_doc_set() -> DocSet {
    DocSet {
        id: b("python"),
        keywords: vec![b("py")],
        name: b("Python 3"),
        description: b("Python 3 docs"),
        icon: b(""),
    }
}

fn dash_with_python() -> Mock {
    let mut m = Mock::new("Dash");
    m.discovery = Ok(vec![python_doc_set()]);
    m
}

#[test]
fn empty_query_returns_nothing_and_asks_no_backend() {
    let plugin = KRunnerPlugin::new(vec![dash_with_python()]);
    assert_eq!(plugin.query(&b("")).len(), 0);
    assert_eq!(plugin.query(&b("   \t \n ")).len(), 0);
    assert_eq!(plugin.providers[0].calls.borrow().len(), 0);
}

#[test]
fn keyword_only_query_yields_one_completion_entry() {
    let plugin = KRunnerPlugin::new(vec![dash_with_python()]);
    let results = plugin.query(&b("py"));
    assert_eq!(results.len(), 1);
    let e = &results[0];
    assert_eq!(e.match_type, MATCH_TYPE_COMPLETION);
    assert_eq!(e.relevance, 100);
    assert_eq!(e.display_text, b("Type \"py keyword\" to search Python 3"));
    assert_eq!(
        decode_entry_data(&e.data),
        Some(EntryData::DocSet { provider: b("Dash"), id: b("python") })
    );
    assert_eq!(
        *plugin.providers[0].calls.borrow(),
        vec![Call::Discover(b("py"))]
    );
}

#[test]
fn one_completion_entry_per_docset_keyword_pair() {
    let mut m = Mock::new("Dash");
    let mut ds = python_doc_set();
    ds.keywords = vec![b("py"), b("python 3")];
    m.discovery = Ok(vec![ds]);
    let plugin = KRunnerPlugin::new(vec![m]);
    let results = plugin.query(&b("py"));
    assert_eq!(results.len(), 2);
    assert_eq!(results[0].display_text, b("Type \"py keyword\" to search Python 3"));
    assert_eq!(results[1].display_text, b("Type \"python 3 keyword\" to search Python 3"));
}

#[test]
fn keyword_and_term_query_searches_the_matched_docset() {
    let mut m = dash_with_python();
    m.search_result = Ok(vec![SearchEntry {
        entry_type: EntryType::Function,
        title: b("list"),
        desc: b(""),
        id: b("library/stdtypes.html#list"),
        relevance: 80,
    }]);
    let plugin = KRunnerPlugin::new(vec![m]);
    let results = plugin.query(&b("py list"));
    assert_eq!(results.len(), 1);
    let e = &results[0];
    assert_eq!(e.match_type, MATCH_TYPE_EXACT);
    assert_eq!(e.relevance, 80);
    assert_eq!(e.display_text, b("list"));
    assert_eq!(e.icon_name, b("code-function"));
    assert_eq!(e.properties.category, b("Python 3"));
    assert_eq!(
        decode_entry_data(&e.data),
        Some(EntryData::Entry {
            provider: b("Dash"),
            doc_set_id: b("python"),
            item_id: b("library/stdtypes.html#list"),
        })
    );
    assert_eq!(
        *plugin.providers[0].calls.borrow(),
        vec![Call::Discover(b("py")), Call::Search(b("python"), b("list"))]
    );
}

#[test]
fn the_term_is_the_whole_remainder_of_the_query() {
    let plugin = KRunnerPlugin::new(vec![dash_with_python()]);
    plugin.query(&b("  py   list comprehension  "));
    assert_eq!(
        *plugin.providers[0].calls.borrow(),
        vec![Call::Discover(b("py")), Call::Search(b("python"), b("list comprehension"))]
    );
}

#[test]
fn failing_discovery_yields_an_empty_result_not_an_error() {
    let mut m = dash_with_python();
    m.discovery = Err(b("simulated I/O error"));
    let plugin = KRunnerPlugin::new(vec![m]);
    assert_eq!(plugin.query(&b("py list")).len(), 0);
    assert_eq!(plugin.query(&b("py")).len(), 0);
}

#[test]
fn failing_docset_search_contributes_nothing() {
    let mut m = dash_with_python();
    m.search_result = Err(b("simulated I/O error"));
    let plugin = KRunnerPlugin::new(vec![m]);
    assert_eq!(plugin.query(&b("py list")).len(), 0);
}

#[test]
fn a_failing_backend_does_not_disturb_a_healthy_one() {
    let mut broken = Mock::new("Broken");
    broken.discovery = Err(b("simulated I/O error"));
    let mut healthy = dash_with_python();
    healthy.search_result = Ok(vec![SearchEntry {
        entry_type: EntryType::Class,
        title: b("list"),
        desc: b(""),
        id: b("x"),
        relevance: 90,
    }]);
    let plugin = KRunnerPlugin::new(vec![broken, healthy]);
    let results = plugin.query(&b("py list"));
    assert_eq!(results.len(), 1);
    assert_eq!(results[0].display_text, b("list"));
    assert_eq!(results[0].relevance, 90);
}

#[test]
fn contributions_merge_in_registry_order() {
    let mut first = dash_with_python();
    first.search_result = Ok(vec![
        SearchEntry {
            entry_type: EntryType::Class,
            title: b("list"),
            desc: b(""),
            id: b("a"),
            relevance: 90,
        },
        SearchEntry {
            entry_type: EntryType::Method,
            title: b("list.append"),
            desc: b(""),
            id: b("b"),
            relevance: 60,
        },
    ]);
    let mut second = Mock::new("Zeal");
    second.discovery = Ok(vec![DocSet {
        id: b("py2"),
        keywords: vec![b("py")],
        name: b("Python 2"),
        description: b(""),
        icon: b(""),
    }]);
    second.search_result = Ok(vec![SearchEntry {
        entry_type: EntryType::Function,
        title: b("listdir"),
        desc: b(""),
        id: b("c"),
        relevance: 70,
    }]);
    let plugin = KRunnerPlugin::new(vec![first, second]);
    let results = plugin.query(&b("py list"));
    let titles: Vec<Vec<u8>> = results.iter().map(|e| e.display_text.clone()).collect();
    assert_eq!(titles, vec![b("list"), b("list.append"), b("listdir")]);
}

#[test]
fn relevance_is_carried_over_exactly_and_unclamped() {
    let ds = python_doc_set();
    let entry = SearchEntry {
        entry_type: EntryType::Guide,
        title: b("t"),
        desc: b("d"),
        id: b("i"),
        relevance: 250,
    };
    let converted = make_item_entry(&b("Dash"), &ds, &entry);
    assert_eq!(converted.relevance, 250);
    assert_eq!(converted.properties.subtext, b("d"));
}

#[test]
fn icon_mapping_is_the_fixed_table() {
    assert_eq!(EntryType::Class.get_krunner_icon(), b("class-or-package"));
    assert_eq!(EntryType::Method.get_krunner_icon(), b("code-function"));
    assert_eq!(EntryType::Function.get_krunner_icon(), b("code-function"));
    assert_eq!(EntryType::Enum.get_krunner_icon(), b("enum"));
    assert_eq!(EntryType::Constant.get_krunner_icon(), b("code-variable"));
    assert_eq!(EntryType::Option.get_krunner_icon(), b(""));
    assert_eq!(EntryType::Guide.get_krunner_icon(), b(""));
    assert_eq!(EntryType::Module.get_krunner_icon(), b(""));
    assert_eq!(EntryType::Other(b("Macro")).get_krunner_icon(), b(""));
}

#[test]
fn activating_an_item_reference_opens_it_on_its_backend() {
    let plugin = KRunnerPlugin::new(vec![dash_with_python()]);
    let reference = encode_entry_data(&EntryData::Entry {
        provider: b("Dash"),
        doc_set_id: b("python"),
        item_id: b("x#y"),
    });
    assert_eq!(plugin.run(&reference, &b("")), Ok(()));
    assert_eq!(
        *plugin.providers[0].calls.borrow(),
        vec![Call::Open(b("python"), b("x#y"))]
    );
}

#[test]
fn activation_for_an_unknown_provider_is_a_silent_no_op() {
    let plugin = KRunnerPlugin::new(vec![dash_with_python()]);
    let reference = encode_entry_data(&EntryData::Entry {
        provider: b("Other"),
        doc_set_id: b("python"),
        item_id: b("x#y"),
    });
    assert_eq!(plugin.run(&reference, &b("")), Ok(()));
    assert_eq!(plugin.providers[0].calls.borrow().len(), 0);
}

#[test]
fn activation_with_an_empty_registry_is_a_silent_no_op() {
    let plugin: KRunnerPlugin<Mock> = KRunnerPlugin::new(vec![]);
    let reference = encode_entry_data(&EntryData::Entry {
        provider: b("Ghost"),
        doc_set_id: b("d"),
        item_id: b("u"),
    });
    assert_eq!(plugin.run(&reference, &b("")), Ok(()));
}

#[test]
fn activating_a_malformed_reference_is_an_error() {
    let plugin = KRunnerPlugin::new(vec![dash_with_python()]);
    assert_eq!(
        plugin.run(&b("not a reference"), &b("")),
        Err(ActionError::MalformedReference)
    );
    assert_eq!(plugin.providers[0].calls.borrow().len(), 0);
}

#[test]
fn activating_a_docset_reference_needs_no_backend() {
    let plugin = KRunnerPlugin::new(vec![dash_with_python()]);
    let reference =
        encode_entry_data(&EntryData::DocSet { provider: b("Dash"), id: b("python") });
    assert_eq!(plugin.run(&reference, &b("")), Ok(()));
    assert_eq!(plugin.providers[0].calls.borrow().len(), 0);
}

#[test]
fn a_failing_open_surfaces_as_a_backend_error() {
    let mut m = dash_with_python();
    m.open_result = Err(b("no viewer"));
    let plugin = KRunnerPlugin::new(vec![m]);
    let reference = encode_entry_data(&EntryData::Entry {
        provider: b("Dash"),
        doc_set_id: b("python"),
        item_id: b("x"),
    });
    assert_eq!(
        plugin.run(&reference, &b("")),
        Err(ActionError::Backend(BackendError { message: b("no viewer") }))
    );
}

#[test]
fn config_asks_for_one_leading_letter() {
    let plugin = KRunnerPlugin::new(vec![dash_with_python()]);
    assert_eq!(plugin.config().min_letter_count, 1);
    plugin.teardown();
}
