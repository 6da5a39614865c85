use std::collections::HashMap;
use std::path::PathBuf;

use type_description::{AsTypeDescription, TypeDescription, TypeKind};

#[test]
fn optional_wraps_the_inner_description() {
    let description = Option::<u8>::as_type_description();
    assert_eq!(description.name(), "An optional 'Integer'");
    assert_eq!(description.doc(), None);
    match description.kind() {
        TypeKind::Wrapped(inner) => assert_eq!(**inner, u8::as_type_description()),
        other => panic!("not a wrapper: {:?}", other),
    }
}

#[test]
fn optional_does_not_inherit_the_documentation() {
    assert!(bool::as_type_description().doc().is_some());
    assert!(Option::<bool>::as_type_description().doc().is_none());
}

#[test]
fn sequence_is_an_array_of_the_inner_description() {
    let description = Vec::<String>::as_type_description();
    assert_eq!(description.name(), "Array of 'String's");
    assert_eq!(description.doc(), None);
    match description.kind() {
        TypeKind::Array(inner) => assert_eq!(**inner, String::as_type_description()),
        other => panic!("not an array: {:?}", other),
    }
}

#[test]
fn string_keyed_table_is_a_hash_map_of_the_inner_description() {
    let description = HashMap::<String, bool>::as_type_description();
    assert_eq!(description.name(), "Table of 'Boolean's");
    assert_eq!(description.doc(), None);
    match description.kind() {
        TypeKind::HashMap(inner) => assert_eq!(**inner, bool::as_type_description()),
        other => panic!("not a table: {:?}", other),
    }
}

#[test]
fn path_keyed_table_is_a_hash_map_of_the_inner_description() {
    let description = HashMap::<PathBuf, i32>::as_type_description();
    assert_eq!(description.name(), "Table of 'Integer's");
    assert_eq!(description.doc(), None);
    match description.kind() {
        TypeKind::HashMap(inner) => assert_eq!(**inner, i32::as_type_description()),
        other => panic!("not a table: {:?}", other),
    }
}

#[test]
fn tables_do_not_depend_on_the_key_type() {
    assert_eq!(
        HashMap::<String, Vec<u64>>::as_type_description(),
        HashMap::<PathBuf, Vec<u64>>::as_type_description()
    );
    assert_eq!(
        HashMap::<String, HashMap<PathBuf, bool>>::as_type_description(),
        HashMap::<PathBuf, HashMap<String, bool>>::as_type_description()
    );
}

#[test]
fn nesting_threads_the_names_through_each_template() {
    let description = HashMap::<String, Vec<HashMap<String, String>>>::as_type_description();
    assert_eq!(description.name(), "Table of 'Array of 'Table of 'String's's's");
    let TypeKind::HashMap(outer) = description.kind() else {
        panic!("not a table: {:?}", description.kind());
    };
    assert_eq!(outer.name(), "Array of 'Table of 'String's's");
    assert_eq!(outer.doc(), None);
    let TypeKind::Array(middle) = outer.kind() else {
        panic!("not an array: {:?}", outer.kind());
    };
    assert_eq!(middle.name(), "Table of 'String's");
    assert_eq!(middle.doc(), None);
    let TypeKind::HashMap(innermost) = middle.kind() else {
        panic!("not a table: {:?}", middle.kind());
    };
    assert_eq!(innermost.name(), "String");
    assert_eq!(*innermost.kind(), TypeKind::String);
    assert_eq!(innermost.doc(), Some("An UTF-8 string"));
}

#[test]
fn optional_of_optional_nests_twice() {
    let description = Option::<Option<i64>>::as_type_description();
    assert_eq!(description.name(), "An optional 'An optional 'Integer''");
    let TypeKind::Wrapped(inner) = description.kind() else {
        panic!("not a wrapper: {:?}", description.kind());
    };
    assert_eq!(**inner, Option::<i64>::as_type_description());
}

#[test]
fn asking_twice_gives_equal_trees() {
    assert_eq!(u32::as_type_description(), u32::as_type_description());
    assert_eq!(
        Option::<Vec<HashMap<String, i16>>>::as_type_description(),
        Option::<Vec<HashMap<String, i16>>>::as_type_description()
    );
}

#[test]
fn different_shapes_give_different_trees() {
    assert_ne!(Vec::<u8>::as_type_description(), Option::<u8>::as_type_description());
    assert_ne!(Vec::<u8>::as_type_description(), Vec::<bool>::as_type_description());
    assert_ne!(
        Vec::<u8>::as_type_description(),
        HashMap::<String, u8>::as_type_description()
    );
}

/// A port number, described the way a newtype over `u16` is.
struct Port;

impl AsTypeDescription for Port {
    fn as_type_description() -> TypeDescription {
        TypeDescription::new(
            String::from("Port"),
            TypeKind::Wrapped(Box::new(u16::as_type_description())),
            Some("A TCP port"),
        )
    }
}

/// A listener, described the way a record with two fields is.
struct Listener;

impl AsTypeDescription for Listener {
    fn as_type_description() -> TypeDescription {
        TypeDescription::new(
            String::from("Listener"),
            TypeKind::Struct(vec![
                ("port", Some("Where to listen"), Port::as_type_description()),
                ("peers", None, Vec::<String>::as_type_description()),
            ]),
            None,
        )
    }
}

#[test]
fn containers_compose_with_user_defined_types() {
    let description = HashMap::<String, Option<Listener>>::as_type_description();
    assert_eq!(description.name(), "Table of 'An optional 'Listener''s");
    let TypeKind::HashMap(optional) = description.kind() else {
        panic!("not a table: {:?}", description.kind());
    };
    let TypeKind::Wrapped(listener) = optional.kind() else {
        panic!("not a wrapper: {:?}", optional.kind());
    };
    assert_eq!(**listener, Listener::as_type_description());
    let TypeKind::Struct(fields) = listener.kind() else {
        panic!("not a record: {:?}", listener.kind());
    };
    assert_eq!(fields.len(), 2);
    assert_eq!(fields[0].0, "port");
    assert_eq!(fields[0].1, Some("Where to listen"));
    assert_eq!(fields[0].2.name(), "Port");
    assert_eq!(fields[1].0, "peers");
    assert_eq!(fields[1].1, None);
    assert_eq!(fields[1].2.name(), "Array of 'String's");
}
