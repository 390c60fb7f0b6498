use vlc_static::error::InitError;
use vlc_static::loader::load_library;
use vlc_static::symbols::{
    collect_addresses, load_function_table, resolve_symbols, symbol_names, FunctionTable,
    SYMBOL_COUNT,
};

#[test]
fn symbol_list_is_complete_and_distinct() {
    let names = symbol_names();
    assert_eq!(names.len(), SYMBOL_COUNT);
    assert_eq!(names.len(), 222);
    assert_eq!(names[0], "libvlc_errmsg");
    assert_eq!(names[24], "libvlc_clock");
    assert_eq!(names[221], "libvlc_vlm_get_event_manager");
    let mut sorted = names.clone();
    sorted.sort();
    sorted.dedup();
    assert_eq!(sorted.len(), names.len());
    assert!(names.iter().all(|n| n.starts_with("libvlc_")));
}

#[test]
fn all_found_gives_every_address() {
    let found: Vec<Option<usize>> = (1..=SYMBOL_COUNT).map(Some).collect();
    let expected: Vec<usize> = (1..=SYMBOL_COUNT).collect();
    assert_eq!(collect_addresses(&found), Ok(expected));
}

#[test]
fn one_missing_symbol_fails_the_whole_table() {
    let mut found: Vec<Option<usize>> = (1..=SYMBOL_COUNT).map(Some).collect();
    found[150] = None;
    assert_eq!(collect_addresses(&found), Err(150));
}

#[test]
fn first_missing_symbol_is_reported() {
    let found = vec![Some(7), None, Some(9), None];
    assert_eq!(collect_addresses(&found), Err(1));
}

#[test]
fn null_address_counts_as_missing() {
    let found = vec![Some(7), Some(8), Some(0)];
    assert_eq!(collect_addresses(&found), Err(2));
}

#[test]
fn empty_lookup_list_resolves() {
    assert_eq!(collect_addresses(&vec![]), Ok(vec![]));
}

#[test]
fn invalid_library_is_a_load_error() {
    assert_eq!(load_library("/etc/passwd").err(), Some(InitError::LoadFailed));
    match load_function_table("/etc/passwd") {
        Err(e) => {
            assert_eq!(e, InitError::LoadFailed);
            assert_eq!(e.message(), "could not initialize library");
        }
        Ok(_) => panic!("a text file was accepted as a library"),
    }
}

#[test]
fn absent_library_is_a_load_error() {
    assert!(matches!(
        load_function_table("/nonexistent/dir/libvlc.so"),
        Err(InitError::LoadFailed)
    ));
}

#[test]
fn symbols_resolve_in_a_real_library() {
    let lib = load_library("libc.so.6").ok().expect("the C library loads");
    let names = vec!["malloc", "free"];
    let addresses = resolve_symbols(&lib, &names).expect("both are exported");
    assert_eq!(addresses.len(), 2);
    assert!(addresses.iter().all(|a| *a != 0));
    assert_ne!(addresses[0], addresses[1]);
}

#[test]
fn missing_symbol_in_a_real_library() {
    let lib = load_library("libc.so.6").ok().expect("the C library loads");
    let names = vec!["malloc", "no_such_symbol_in_libc", "free"];
    assert_eq!(resolve_symbols(&lib, &names), Err(1));
}

#[test]
fn library_without_entry_points_gives_no_table() {
    let lib = load_library("libc.so.6").ok().expect("the C library loads");
    match FunctionTable::resolve(lib) {
        Err(e) => {
            assert_eq!(e, InitError::MissingSymbol { index: 0 });
            assert_eq!(e.message(), "missing function");
        }
        Ok(_) => panic!("a table was built from a library without the entry points"),
    }
}
