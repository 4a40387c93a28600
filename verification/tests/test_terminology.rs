use codetwin::drivers::terminology::LanguageTerminology;

#[test]
fn test_generic_terminology() {
    let generic = LanguageTerminology::generic();
    assert_eq!(generic.element_type_singular, "type");
    assert_eq!(generic.function_label, "item");
}

#[test]
fn test_rust_terminology_override() {
    let rust = LanguageTerminology::rust();
    assert_eq!(rust.element_type_singular, "struct");
    assert_eq!(rust.function_label, "fn");
    assert_eq!(rust.return_type_default, "()");
}

#[test]
fn test_python_terminology() {
    let python = LanguageTerminology::python();
    assert_eq!(python.element_type_singular, "class");
    assert_eq!(python.function_label, "def");
    assert_eq!(python.return_type_default, "None");
}
