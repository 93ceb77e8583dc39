use enumify::Diagnostic;

#[test]
fn new_holds_one_message() {
    assert_eq!(Diagnostic::new("broken").messages().to_vec(), vec!["broken"]);
}

#[test]
fn combine_appends_in_order() {
    let mut diagnostic = Diagnostic::new("first");
    let mut more = Diagnostic::new("second");
    more.combine(Diagnostic::new("third"));
    diagnostic.combine(more);
    assert_eq!(diagnostic.messages().to_vec(), vec!["first", "second", "third"]);
}

#[test]
fn one_marker_for_one_message() {
    assert_eq!(
        Diagnostic::new("broken").to_compile_error(),
        ":: core :: compile_error ! { \"broken\" }"
    );
}

#[test]
fn one_marker_for_each_message() {
    let mut diagnostic = Diagnostic::new("first");
    diagnostic.combine(Diagnostic::new("second"));
    assert_eq!(
        diagnostic.to_compile_error(),
        ":: core :: compile_error ! { \"first\" } :: core :: compile_error ! { \"second\" }"
    );
}

#[test]
fn marker_escapes_the_message() {
    assert_eq!(
        Diagnostic::new("a \"quoted\"\nline").to_compile_error(),
        ":: core :: compile_error ! { \"a \\\"quoted\\\"\\nline\" }"
    );
}

#[test]
fn a_diagnostic_always_holds_a_message() {
    let mut diagnostic = Diagnostic::new("");
    assert_eq!(diagnostic.messages().len(), 1);
    assert_eq!(diagnostic.to_compile_error(), ":: core :: compile_error ! { \"\" }");
    diagnostic.combine(Diagnostic::new("second"));
    assert_eq!(diagnostic.messages().len(), 2);
}
