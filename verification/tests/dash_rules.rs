use dashdoc::dash::{entry_url, find_doc_set, search_doc_sets, DashDocSet};
use dashdoc::provider::EntryType;

fn b(s: &str) -> Vec<u8> {
    s.as_bytes().to_vec()
}

fn python_doc_set() -> DashDocSet {
    DashDocSet::new(b("Python 3"), b("Python 3 docs"), &vec![b("Py3"), b("python3")], None)
}

#[test]
fn keywords_are_lowercased_and_include_the_name() {
    let ds = python_doc_set();
    assert_eq!(ds.keywords, vec![b("py3"), b("python3"), b("python 3")]);
    assert_eq!(ds.name, b("Python 3"));
    assert_eq!(ds.title, b("Python 3 docs"));
    assert_eq!(ds.icon, None);
}

#[test]
fn android_gets_the_droid_keyword() {
    let ds = DashDocSet::new(b("Android"), b("Android docs"), &vec![], None);
    assert_eq!(ds.keywords, vec![b("android"), b("droid")]);
    let other = DashDocSet::new(b("Androidish"), b("t"), &vec![], None);
    assert_eq!(other.keywords, vec![b("androidish")]);
}

#[test]
fn contains_keyword_matches_by_prefix() {
    let ds = python_doc_set();
    assert!(ds.contains_keyword(&b("py")));
    assert!(ds.contains_keyword(&b("python 3")));
    assert!(ds.contains_keyword(&b("")));
    assert!(!ds.contains_keyword(&b("ruby")));
    assert!(!ds.contains_keyword(&b("python 33")));
}

#[test]
fn to_doc_set_uses_name_as_id_and_title_as_description() {
    let ds = DashDocSet::new(b("Rust"), b("The Rust docs"), &vec![b("rs")], Some(b("/icon.png")));
    let converted = ds.to_doc_set();
    assert_eq!(converted.id, b("Rust"));
    assert_eq!(converted.name, b("Rust"));
    assert_eq!(converted.description, b("The Rust docs"));
    assert_eq!(converted.keywords, vec![b("rs"), b("rust")]);
    assert_eq!(converted.icon, b("/icon.png"));
    let no_icon = python_doc_set().to_doc_set();
    assert_eq!(no_icon.icon, b(""));
}

#[test]
fn search_doc_sets_lowercases_the_token_and_filters() {
    let sets = vec![
        python_doc_set(),
        DashDocSet::new(b("Rust"), b("The Rust docs"), &vec![], None),
    ];
    let hits = search_doc_sets(&sets, &b("PY"));
    assert_eq!(hits.len(), 1);
    assert_eq!(hits[0].id, b("Python 3"));
    let all = search_doc_sets(&sets, &b(""));
    assert_eq!(all.len(), 2);
    let none = search_doc_sets(&sets, &b("go"));
    assert_eq!(none.len(), 0);
}

#[test]
fn find_doc_set_matches_the_name_exactly() {
    let sets = vec![
        python_doc_set(),
        DashDocSet::new(b("Rust"), b("The Rust docs"), &vec![], None),
    ];
    assert_eq!(find_doc_set(&sets, &b("Rust")), Some(1));
    assert_eq!(find_doc_set(&sets, &b("Python 3")), Some(0));
    assert_eq!(find_doc_set(&sets, &b("python 3")), None);
    assert_eq!(find_doc_set(&sets, &b("Go")), None);
}

#[test]
fn entry_url_joins_path_and_fragment() {
    assert_eq!(entry_url(&b("library/stdtypes.html"), &b("list")), b("library/stdtypes.html#list"));
    assert_eq!(entry_url(&b("index.html"), &b("")), b("index.html#"));
}

#[test]
fn entry_type_labels_parse_to_their_kinds() {
    assert_eq!(EntryType::from_label(&b("Class")), EntryType::Class);
    assert_eq!(EntryType::from_label(&b("Function")), EntryType::Function);
    assert_eq!(EntryType::from_label(&b("Method")), EntryType::Method);
    assert_eq!(EntryType::from_label(&b("Enum")), EntryType::Enum);
    assert_eq!(EntryType::from_label(&b("Constant")), EntryType::Constant);
    assert_eq!(EntryType::from_label(&b("Option")), EntryType::Option);
    assert_eq!(EntryType::from_label(&b("Guide")), EntryType::Guide);
    assert_eq!(EntryType::from_label(&b("Module")), EntryType::Module);
    assert_eq!(EntryType::from_label(&b("Macro")), EntryType::Other(b("Macro")));
    assert_eq!(EntryType::from_label(&b("class")), EntryType::Other(b("class")));
}
