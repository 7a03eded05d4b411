use hello_store::collection::CollectionEntry;
use hello_store::error::CallError;
use hello_store::executor::CallExecutor;
use hello_store::executor::Request;
use hello_store::executor::Response;

#[test]
fn fresh_executor_reads_scalar_default() {
    let executor = CallExecutor::new();
    assert_eq!(
        executor.read_scalar(&String::from("World")),
        "Hallo, World!"
    );
}

#[test]
fn executor_get_on_fresh_state_is_not_found() {
    let executor = CallExecutor::new();
    let r = executor.get_collection_items(&String::from("nothing yet"));
    assert!(matches!(r, Err(CallError::NotFound)));
}

#[test]
fn executor_replace_then_read() {
    let mut executor = CallExecutor::new();
    let confirmation = executor.replace_scalar(String::from("Hi"));
    assert!(confirmation.contains("Hi"));
    assert_eq!(confirmation, "Greeting set to 'Hi'.");
    assert_eq!(executor.read_scalar(&String::from("X")), "Hi, X!");
}

#[test]
fn dispatch_end_to_end_scenario() {
    let mut executor = CallExecutor::new();

    let put = Request::PutCollectionEntry {
        entry: CollectionEntry {
            key: String::from("Personal info"),
            items: vec![
                String::from("How old are you?"),
                String::from("How tall are you?"),
            ],
        },
    };
    match executor.execute(put) {
        Ok(Response::Done) => {}
        other => panic!("put did not complete normally: {:?}", other),
    }

    match executor.execute(Request::ListCollectionKeys) {
        Ok(Response::Keys(keys)) => {
            assert_eq!(keys, vec![String::from("Personal info")]);
        }
        other => panic!("listing did not answer keys: {:?}", other),
    }

    match executor.execute(Request::GetCollectionItems {
        key: String::from("Personal info"),
    }) {
        Ok(Response::Items(items)) => {
            assert_eq!(
                items,
                vec![
                    String::from("How old are you?"),
                    String::from("How tall are you?"),
                ]
            );
        }
        other => panic!("lookup did not answer items: {:?}", other),
    }
}

#[test]
fn dispatch_not_found_terminates_abnormally_and_leaves_no_trace() {
    let mut executor = CallExecutor::new();
    executor.put_collection_entry(CollectionEntry {
        key: String::from("kept"),
        items: vec![String::from("value")],
    });

    let r = executor.execute(Request::GetCollectionItems {
        key: String::from("absent"),
    });
    assert!(matches!(r, Err(CallError::NotFound)));

    // The failed call left the committed state untouched.
    assert_eq!(executor.list_collection_keys(), vec![String::from("kept")]);
    assert_eq!(
        executor.get_collection_items(&String::from("kept")).unwrap(),
        vec![String::from("value")]
    );
}

#[test]
fn dispatch_scalar_requests() {
    let mut executor = CallExecutor::new();

    match executor.execute(Request::ReadScalar {
        suffix: String::from("World"),
    }) {
        Ok(Response::Text(text)) => assert_eq!(text, "Hallo, World!"),
        other => panic!("read did not answer text: {:?}", other),
    }

    match executor.execute(Request::ReplaceScalar {
        value: String::from("Hi"),
    }) {
        Ok(Response::Text(text)) => assert_eq!(text, "Greeting set to 'Hi'."),
        other => panic!("replace did not answer text: {:?}", other),
    }

    match executor.execute(Request::ReadScalar {
        suffix: String::from("X"),
    }) {
        Ok(Response::Text(text)) => assert_eq!(text, "Hi, X!"),
        other => panic!("read did not answer text: {:?}", other),
    }
}

#[test]
fn overwrite_through_dispatch_is_no_merge() {
    let mut executor = CallExecutor::new();
    executor.put_collection_entry(CollectionEntry {
        key: String::from("k"),
        items: vec![String::from("a1"), String::from("a2")],
    });
    executor.put_collection_entry(CollectionEntry {
        key: String::from("k"),
        items: vec![String::from("b")],
    });
    assert_eq!(
        executor.get_collection_items(&String::from("k")).unwrap(),
        vec![String::from("b")]
    );
    assert_eq!(executor.list_collection_keys().len(), 1);
}
