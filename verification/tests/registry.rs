use nu_plugin_mongo::handle::{open_database, opened};
use nu_plugin_mongo::{Handle, MongoPlugin, RegistryError, Span, Spanned};

fn uri(n: usize) -> String {
    format!("mongodb://localhost:{}/db{}", 27017 + n, n)
}

fn here() -> Span {
    Span::new(5, 6)
}

fn not_found(id: u8) -> RegistryError {
    RegistryError::HandleNotFound { id, span: here() }
}

fn table_of(n: usize) -> Handle {
    let mut table = Handle::new();
    for i in 0..n {
        assert_eq!(table.connect(&uri(i)), Ok(i as u8));
    }
    table
}

#[test]
fn new_table_is_empty() {
    let table = Handle::new();
    assert_eq!(table.list_handles(), vec![]);
    assert_eq!(table.get_current(), Err(RegistryError::NoHandlesAvailable));
    assert!(matches!(table.get_handle(0, here()), Err(e) if e == not_found(0)));
}

#[test]
fn connect_hands_out_the_numbers_from_zero() {
    let mut table = Handle::new();
    for i in 0..5usize {
        assert_eq!(table.connect(&uri(i)), Ok(i as u8));
        assert_eq!(table.get_current(), Ok(i as u8));
    }
    let listed = table.list_handles();
    let want: Vec<(u8, String)> = (0..5usize).map(|i| (i as u8, uri(i))).collect();
    assert_eq!(listed, want);
}

#[test]
fn get_handle_gives_the_database_of_the_address() {
    let table = table_of(3);
    assert_eq!(table.get_handle(0, here()).unwrap().name(), "db0");
    assert_eq!(table.get_handle(2, here()).unwrap().name(), "db2");
    assert!(matches!(table.get_handle(3, here()), Err(e) if e == not_found(3)));
}

#[test]
fn bad_address_is_a_connection_error() {
    let mut table = table_of(1);
    let got = table.connect("not a mongodb address");
    assert!(matches!(got, Err(RegistryError::Connection { .. })));
    assert_eq!(table.list_handles(), vec![(0, uri(0))]);
    assert_eq!(table.get_current(), Ok(0));
}

#[test]
fn address_without_a_database_is_a_connection_error() {
    let mut table = Handle::new();
    let got = table.connect("mongodb://localhost:27017");
    assert_eq!(
        got,
        Err(RegistryError::Connection {
            message: "No default database in connection url".to_string()
        })
    );
    assert_eq!(table.list_handles(), vec![]);
    assert_eq!(table.get_current(), Err(RegistryError::NoHandlesAvailable));
}

#[test]
fn what_an_attempt_comes_to() {
    let db = open_database(&uri(0)).unwrap();
    assert_eq!(opened(Ok(Some(db))).unwrap().name(), "db0");
    assert_eq!(
        opened(Ok(None)).err(),
        Some(RegistryError::Connection {
            message: "No default database in connection url".to_string()
        })
    );
    assert_eq!(
        opened(Err("refused".to_string())).err(),
        Some(RegistryError::Connection { message: "refused".to_string() })
    );
}

#[test]
fn select_changes_only_the_current_handle() {
    let mut table = table_of(3);
    assert_eq!(table.get_current(), Ok(2));
    assert_eq!(table.select_handle(0, here()), Ok(()));
    assert_eq!(table.get_current(), Ok(0));
    assert_eq!(table.list_handles().len(), 3);
}

#[test]
fn absent_handle_is_reported_and_changes_nothing() {
    let mut table = table_of(2);
    assert_eq!(table.select_handle(0, here()), Ok(()));
    let before = table.list_handles();
    assert_eq!(table.select_handle(9, here()), Err(not_found(9)));
    assert_eq!(table.remove_handle(200, here()), Err(not_found(200)));
    assert!(matches!(table.get_handle(2, here()), Err(e) if e == not_found(2)));
    assert_eq!(table.list_handles(), before);
    assert_eq!(table.get_current(), Ok(0));
}

#[test]
fn removing_the_current_handle_falls_back_to_the_highest() {
    let mut table = table_of(4);
    assert_eq!(table.select_handle(1, here()), Ok(()));
    assert_eq!(table.remove_handle(1, here()), Ok(()));
    assert_eq!(table.get_current(), Ok(3));
    assert_eq!(table.remove_handle(3, here()), Ok(()));
    assert_eq!(table.get_current(), Ok(2));
    let ids: Vec<u8> = table.list_handles().into_iter().map(|e| e.0).collect();
    assert_eq!(ids, vec![0, 2]);
}

#[test]
fn removing_another_handle_keeps_the_current_one() {
    let mut table = table_of(3);
    assert_eq!(table.remove_handle(0, here()), Ok(()));
    assert_eq!(table.get_current(), Ok(2));
}

#[test]
fn removing_the_last_connection_leaves_nothing_current() {
    let mut table = table_of(1);
    assert_eq!(table.remove_handle(0, here()), Ok(()));
    assert_eq!(table.get_current(), Err(RegistryError::NoHandlesAvailable));
    assert_eq!(table.list_handles(), vec![]);
    assert_eq!(table.connect(&uri(7)), Ok(0));
    assert_eq!(table.get_current(), Ok(0));
}

#[test]
fn a_handle_in_use_is_taken_over_after_a_removal() {
    let mut table = table_of(3);
    assert_eq!(table.remove_handle(0, here()), Ok(()));
    assert_eq!(table.connect(&uri(9)), Ok(2));
    assert_eq!(table.list_handles(), vec![(1, uri(1)), (2, uri(9))]);
    assert_eq!(table.get_current(), Ok(2));
    assert_eq!(table.get_handle(2, here()).unwrap().name(), "db9");
}

#[test]
fn current_handle_is_always_in_use() {
    let mut table = Handle::new();
    let steps: Vec<(u8, u8)> = vec![
        (0, 0), (0, 0), (2, 0), (1, 0), (0, 0), (1, 1), (2, 1), (1, 0), (0, 0), (0, 0), (1, 2),
        (2, 7), (1, 7), (1, 1), (1, 0), (0, 0),
    ];
    for (kind, id) in steps {
        match kind {
            0 => {
                let _ = table.connect(&uri(id as usize));
            }
            1 => {
                let _ = table.remove_handle(id, here());
            }
            _ => {
                let _ = table.select_handle(id, here());
            }
        }
        let ids: Vec<u8> = table.list_handles().into_iter().map(|e| e.0).collect();
        match table.get_current() {
            Ok(current) => assert!(ids.contains(&current)),
            Err(e) => {
                assert_eq!(e, RegistryError::NoHandlesAvailable);
                assert!(ids.is_empty());
            }
        }
    }
}

#[test]
fn registry_error_texts() {
    let e = not_found(4);
    assert_eq!(e.message(), "database handle doesn't exist");
    assert_eq!(e.label(), Some(("not existed database handle", here())));
    assert_eq!(
        e.help(),
        Some("You can run `mongoc list` to list all available handles, or `mongoc open` to open a new handle")
    );
    let e = RegistryError::NoHandlesAvailable;
    assert_eq!(e.message(), "no database handles available");
    assert_eq!(e.label(), None);
    assert_eq!(e.help(), Some("You can run `mongoc open` to open a new handle"));
    let e = RegistryError::Connection { message: "m".to_string() };
    assert_eq!(e.message(), "m");
    assert_eq!(e.label(), None);
    assert_eq!(e.help(), None);
}

#[test]
fn plugin_keeps_the_table() {
    let plugin = MongoPlugin::new();
    assert_eq!(plugin.get_current(), Err(RegistryError::NoHandlesAvailable));
    assert_eq!(plugin.connect(&uri(0)), Ok(0));
    assert_eq!(plugin.connect(&uri(1)), Ok(1));
    assert!(matches!(plugin.connect("nonsense"), Err(RegistryError::Connection { .. })));
    assert_eq!(plugin.get_current(), Ok(1));
    assert_eq!(plugin.select_handle(0, here()), Ok(()));
    assert_eq!(plugin.get_current(), Ok(0));
    assert_eq!(plugin.select_handle(5, here()), Err(not_found(5)));
    assert_eq!(plugin.get_handle(1, here()).unwrap().name(), "db1");
    assert_eq!(plugin.list_handles(), vec![(0, uri(0)), (1, uri(1))]);
    assert_eq!(plugin.remove_handle(0, here()), Ok(()));
    assert_eq!(plugin.get_current(), Ok(1));
    assert_eq!(plugin.remove_handle(0, here()), Err(not_found(0)));
    assert_eq!(plugin.remove_handle(1, here()), Ok(()));
    assert_eq!(plugin.get_current(), Err(RegistryError::NoHandlesAvailable));
}

#[test]
fn plugin_finds_the_database_of_a_command() {
    let plugin = MongoPlugin::new();
    let head = Span::new(0, 1);
    assert_eq!(plugin.database(None, head).err(), Some(RegistryError::NoHandlesAvailable));
    assert_eq!(plugin.connect(&uri(0)), Ok(0));
    assert_eq!(plugin.connect(&uri(1)), Ok(1));
    assert_eq!(plugin.database(None, head).unwrap().name(), "db1");
    let chosen = Spanned { item: 0, span: here() };
    assert_eq!(plugin.database(Some(chosen), head).unwrap().name(), "db0");
    let chosen = Spanned { item: 256, span: here() };
    assert_eq!(plugin.database(Some(chosen), head).unwrap().name(), "db0");
    let chosen = Spanned { item: -255, span: here() };
    assert_eq!(plugin.database(Some(chosen), head).unwrap().name(), "db1");
    let chosen = Spanned { item: 2, span: here() };
    assert_eq!(plugin.database(Some(chosen), head).err(), Some(not_found(2)));
    let chosen = Spanned { item: -1, span: here() };
    assert_eq!(plugin.database(Some(chosen), head).err(), Some(not_found(255)));
}

#[test]
fn connections_through_a_shared_plugin_get_handles_of_their_own() {
    let plugin = MongoPlugin::new();
    let shared = &plugin;
    let also = &plugin;
    let mut got: Vec<u8> = Vec::new();
    for i in 0..8usize {
        let by = if i % 2 == 0 { shared } else { also };
        got.push(by.connect(&uri(i)).unwrap());
    }
    assert_eq!(got, vec![0, 1, 2, 3, 4, 5, 6, 7]);
    let listed = plugin.list_handles();
    let want: Vec<(u8, String)> = (0..8usize).map(|i| (i as u8, uri(i))).collect();
    assert_eq!(listed, want);
    assert_eq!(plugin.get_current(), Ok(7));
}
