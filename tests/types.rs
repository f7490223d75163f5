use autocxx_analysis::error::ConvertError;
use autocxx_analysis::known_types::known_types;
use autocxx_analysis::names::{validate_ident_ok_for_cxx, validate_ident_ok_for_rust, Namespace, QualifiedName};

#[test]
fn test_ints() {
    assert_eq!(
        QualifiedName::new_from_cpp_name("i8").to_cpp_name(),
        "int8_t"
    );
    assert_eq!(
        QualifiedName::new_from_cpp_name("u64").to_cpp_name(),
        "uint64_t"
    );
}

#[test]
fn cpp_name_of_user_type_is_qualified_spelling() {
    let q = QualifiedName::new_from_cpp_name("a::b::Foo");
    assert_eq!(q.to_cpp_name(), "a::b::Foo");
    assert_eq!(q.get_final_item(), "Foo");
    assert_eq!(q.get_namespace().depth(), 2);
    assert_eq!(q.to_string(), "a::b::Foo");
}

#[test]
fn leading_root_marker_and_empty_segments_are_dropped() {
    let q = QualifiedName::new_from_cpp_name("::std::string");
    assert_eq!(q.get_namespace().depth(), 1);
    assert_eq!(q.get_final_item(), "string");
    assert_eq!(q.to_cpp_name(), "std::string");
}

#[test]
fn from_type_path_strips_root() {
    let segs = vec!["root".to_string(), "ns".to_string(), "Thing".to_string()];
    let q = QualifiedName::from_type_path(&segs);
    assert!(q == QualifiedName::new_from_cpp_name("ns::Thing"));
    let rust = vec!["std".to_string(), "os".to_string(), "raw".to_string(), "c_int".to_string()];
    let q = QualifiedName::from_type_path(&rust);
    assert_eq!(q.to_cpp_name(), "int");
}

#[test]
fn type_path_of_known_and_user_types() {
    let user = QualifiedName::new_from_cpp_name("a::Foo");
    assert_eq!(user.to_type_path(), vec!["root", "a", "Foo"]);
    let s = QualifiedName::new_from_cpp_name("std::string");
    assert_eq!(s.to_type_path(), vec!["cxx", "CxxString"]);
    assert_eq!(
        user.get_bindgen_path_idents(),
        vec!["bindgen", "root", "a", "Foo"]
    );
}

#[test]
fn void_is_recognised() {
    assert!(QualifiedName::new_from_cpp_name("std::os::raw::c_void").is_cvoid());
    assert!(!QualifiedName::new_from_cpp_name("Foo").is_cvoid());
}

#[test]
fn namespace_push_keeps_parent() {
    let ns = Namespace::new();
    assert!(ns.is_empty());
    let a = ns.push("a".to_string());
    let ab = a.push("b".to_string());
    assert_eq!(a.depth(), 1);
    assert_eq!(ab.depth(), 2);
    assert_eq!(ab.to_string(), "a::b");
    assert_eq!(ab.iter(), &vec!["a".to_string(), "b".to_string()]);
    assert!(Namespace::from_user_input("a::b") == ab);
}

#[test]
fn display_suffix() {
    assert_eq!(Namespace::new().to_display_suffix(), "");
    assert_eq!(
        Namespace::from_user_input("x::y").to_display_suffix(),
        " (in namespace x::y)"
    );
}

#[test]
fn identifier_validation() {
    assert!(validate_ident_ok_for_rust("foo").is_ok());
    assert!(matches!(validate_ident_ok_for_rust("move"), Err(ConvertError::ReservedName)));
    assert!(matches!(validate_ident_ok_for_cxx("await"), Err(ConvertError::ReservedName)));
    assert!(matches!(validate_ident_ok_for_cxx("a__b"), Err(ConvertError::TooManyUnderscores)));
    assert!(validate_ident_ok_for_cxx("a_b").is_ok());
    assert!(QualifiedName::new_from_cpp_name("ns::x__y").validate_ok_for_cxx().is_err());
}

#[test]
fn known_types_table_has_the_integers() {
    let t = known_types();
    assert!(t.iter().any(|k| k.key == "i32" && k.cpp_name == "int32_t"));
    assert!(t.iter().any(|k| k.key == "std::os::raw::c_int" && k.cpp_name == "int"));
}
