use hello_store::collection::CollectionEntry;
use hello_store::collection::KeyedCollectionStore;
use hello_store::error::CallError;
use hello_store::executor::CallExecutor;
use hello_store::scalar::ScalarStore;

#[test]
fn test_survey() {
    let questions = vec![
        String::from("How old are you?"),
        String::from("How tall are you?"),
    ];
    let name = String::from("Personal info");
    let survey = CollectionEntry {
        key: name.clone(),
        items: questions.clone(),
    };

    let mut executor = CallExecutor::new();
    executor.put_collection_entry(survey);
    assert_eq!(executor.list_collection_keys(), vec![name.clone()]);
    assert_eq!(executor.get_collection_items(&name).unwrap(), questions);
}

#[test]
fn absent_key_is_not_found() {
    let store = KeyedCollectionStore::new();
    let r = store.get_items(&String::from("anything"));
    assert!(matches!(r, Err(CallError::NotFound)));

    let mut store = KeyedCollectionStore::new();
    store.put(String::from("present"), vec![String::from("x")]);
    let r = store.get_items(&String::from("absent"));
    assert!(matches!(r, Err(CallError::NotFound)));
}

#[test]
fn put_then_get_and_list() {
    let mut store = KeyedCollectionStore::new();
    let items = vec![String::from("one"), String::from("two")];
    store.put(String::from("k"), items.clone());
    assert_eq!(store.get_items(&String::from("k")).unwrap(), items);
    assert!(store.list_keys().contains(&String::from("k")));
}

#[test]
fn overwrite_fully_replaces() {
    let mut store = KeyedCollectionStore::new();
    store.put(
        String::from("k"),
        vec![String::from("a1"), String::from("a2")],
    );
    store.put(String::from("k"), vec![String::from("b")]);
    assert_eq!(
        store.get_items(&String::from("k")).unwrap(),
        vec![String::from("b")]
    );
    assert_eq!(store.list_keys(), vec![String::from("k")]);
}

#[test]
fn distinct_puts_list_exactly_those_keys() {
    let mut store = KeyedCollectionStore::new();
    store.put(String::from("alpha"), vec![]);
    store.put(String::from("beta"), vec![String::from("b")]);
    store.put(String::from("gamma"), vec![String::from("c")]);

    let mut keys = store.list_keys();
    keys.sort();
    assert_eq!(
        keys,
        vec![
            String::from("alpha"),
            String::from("beta"),
            String::from("gamma"),
        ]
    );
}

#[test]
fn empty_item_sequence_round_trips() {
    let mut store = KeyedCollectionStore::new();
    store.put(String::from("empty"), vec![]);
    let got: Vec<String> = store.get_items(&String::from("empty")).unwrap();
    assert_eq!(got, Vec::<String>::new());
}

#[test]
fn duplicate_items_within_a_sequence_are_kept() {
    let mut store = KeyedCollectionStore::new();
    let items = vec![String::from("same"), String::from("same")];
    store.put(String::from("k"), items.clone());
    assert_eq!(store.get_items(&String::from("k")).unwrap(), items);
}

#[test]
fn fresh_scalar_reads_default() {
    let scalar = ScalarStore::new();
    assert_eq!(scalar.read(&String::from("World")), "Hallo, World!");
}

#[test]
fn replace_scalar_confirms_and_sticks() {
    let mut scalar = ScalarStore::new();
    let confirmation = scalar.replace(String::from("Hi"));
    assert!(confirmation.contains("Hi"));
    assert_eq!(confirmation, "Greeting set to 'Hi'.");
    assert_eq!(scalar.read(&String::from("X")), "Hi, X!");
}
