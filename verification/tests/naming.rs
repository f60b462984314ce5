use protobuf_nats_service_generator::naming::dot_separated;
use protobuf_nats_service_generator::{convert_method_to_function, convert_method_to_subject};

#[test]
fn can_convert_to_function() {
    assert_eq!(
        convert_method_to_function("StartComponent"),
        "start_component"
    );
    assert_eq!(
        convert_method_to_function("StartProvider"),
        "start_provider"
    );
    assert_eq!(convert_method_to_function("PutConfig"), "put_config");
}

#[test]
fn can_convert_to_subject() {
    assert_eq!(
        convert_method_to_subject("StartComponent"),
        "start.component"
    );
    assert_eq!(convert_method_to_subject("StartProvider"), "start.provider");
    assert_eq!(convert_method_to_subject("PutConfig"), "put.config");
}

#[test]
fn conversion_gives_the_same_name_every_time() {
    let first = convert_method_to_function("GetPerson");
    let second = convert_method_to_function("GetPerson");
    assert_eq!(first, second);
    assert_eq!(first, "get_person");
    assert_eq!(
        convert_method_to_subject("GetPerson"),
        convert_method_to_subject("GetPerson")
    );
}

#[test]
fn a_single_word_has_no_delimiter() {
    assert_eq!(convert_method_to_function("Ping"), "ping");
    assert_eq!(convert_method_to_subject("Ping"), "ping");
}

#[test]
fn function_name_is_lower_case_with_underscores() {
    assert_eq!(convert_method_to_function("GetPeople"), "get_people");
    assert_eq!(convert_method_to_function("HTTPRequest"), "http_request");
    assert_eq!(convert_method_to_function("subscribeAll"), "subscribe_all");
    assert_eq!(convert_method_to_function(""), "");
}

#[test]
fn subject_has_a_dot_for_each_underscore_of_the_function_name() {
    for method in ["StartComponent", "GetPerson", "Ping", "ListAllTheThings"] {
        let function = convert_method_to_function(method);
        let subject = convert_method_to_subject(method);
        assert_eq!(subject, function.replace('_', "."));
        assert_eq!(subject.len(), function.len());
        assert!(!subject.contains('_'));
    }
}

#[test]
fn dot_separated_replaces_every_underscore() {
    assert_eq!(dot_separated("put_config"), "put.config");
    assert_eq!(dot_separated("a_b_c"), "a.b.c");
    assert_eq!(dot_separated("_x_"), ".x.");
    assert_eq!(dot_separated("__"), "..");
    assert_eq!(dot_separated("plain"), "plain");
    assert_eq!(dot_separated(""), "");
    assert_eq!(dot_separated("é_ü"), "é.ü");
}
