use header::names::{resolve, Attributes, SymbolName};

#[test]
fn export_name_is_taken_verbatim() {
    let attrs = Attributes { export_name: Some("Do It!".to_string()), no_mangle: false };
    assert_eq!(resolve(&attrs, "do_it"), SymbolName::Named("Do It!".to_string()));
}

#[test]
fn export_name_wins_over_no_mangle() {
    let attrs = Attributes { export_name: Some("c_name".to_string()), no_mangle: true };
    assert_eq!(resolve(&attrs, "rust_name"), SymbolName::Named("c_name".to_string()));
}

#[test]
fn no_mangle_keeps_the_identifier() {
    let attrs = Attributes { export_name: None, no_mangle: true };
    assert_eq!(resolve(&attrs, "rust_name"), SymbolName::Named("rust_name".to_string()));
}

#[test]
fn unmarked_item_is_unnameable() {
    let attrs = Attributes { export_name: None, no_mangle: false };
    assert_eq!(resolve(&attrs, "rust_name"), SymbolName::Unnameable);
}

#[test]
fn empty_export_name_is_still_a_name() {
    let attrs = Attributes { export_name: Some(String::new()), no_mangle: false };
    assert_eq!(resolve(&attrs, "f"), SymbolName::Named(String::new()));
}
