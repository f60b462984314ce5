use protobuf_nats_service_generator::text::{join, same_text, starts_with};
use protobuf_nats_service_generator::{filter_methods_by_type, get_method_type, Method, MethodType};

fn named(name: &str) -> Method {
    Method {
        name: name.to_string(),
        proto_name: name.to_string(),
        input_type: "In".to_string(),
        output_type: "Out".to_string(),
        client_streaming: false,
        server_streaming: false,
    }
}

#[test]
fn a_name_that_begins_with_subscribe_is_a_notification() {
    assert_eq!(get_method_type(&named("subscribe")), MethodType::PubSub);
    assert_eq!(get_method_type(&named("subscribeToEvents")), MethodType::PubSub);
    assert_eq!(get_method_type(&named("subscribers")), MethodType::PubSub);
}

#[test]
fn every_other_name_is_a_call() {
    assert_eq!(get_method_type(&named("GetPerson")), MethodType::RequestResponse);
    assert_eq!(get_method_type(&named("Subscribe")), MethodType::RequestResponse);
    assert_eq!(get_method_type(&named("SubscribeToEvents")), MethodType::RequestResponse);
    assert_eq!(get_method_type(&named("subscrib")), MethodType::RequestResponse);
    assert_eq!(get_method_type(&named("unsubscribe")), MethodType::RequestResponse);
    assert_eq!(get_method_type(&named("")), MethodType::RequestResponse);
}

#[test]
fn filter_keeps_the_methods_of_one_type_in_order() {
    let methods = vec![
        named("GetPerson"),
        named("subscribeA"),
        named("PutConfig"),
        named("subscribeB"),
        named("Ping"),
    ];
    let calls = filter_methods_by_type(&methods, MethodType::RequestResponse);
    let names: Vec<&str> = calls.iter().map(|m| m.name.as_str()).collect();
    assert_eq!(names, vec!["GetPerson", "PutConfig", "Ping"]);
    let notes = filter_methods_by_type(&methods, MethodType::PubSub);
    let names: Vec<&str> = notes.iter().map(|m| m.name.as_str()).collect();
    assert_eq!(names, vec!["subscribeA", "subscribeB"]);
}

#[test]
fn filter_of_nothing_is_nothing() {
    let methods: Vec<Method> = vec![];
    assert!(filter_methods_by_type(&methods, MethodType::RequestResponse).is_empty());
    assert!(filter_methods_by_type(&methods, MethodType::PubSub).is_empty());
}

#[test]
fn starts_with_compares_character_by_character() {
    assert!(starts_with("subscribe", "subscribe"));
    assert!(starts_with("subscribe.more", "subscribe"));
    assert!(starts_with("anything", ""));
    assert!(starts_with("", ""));
    assert!(!starts_with("sub", "subscribe"));
    assert!(!starts_with("", "x"));
    assert!(!starts_with("xsubscribe", "subscribe"));
    assert!(starts_with("étoile", "ét"));
    assert!(!starts_with("etoile", "ét"));
}

#[test]
fn join_puts_the_separator_between_neighbours() {
    let parts = vec!["a".to_string(), "b".to_string(), "c".to_string()];
    assert_eq!(join(&parts, "\n"), "a\nb\nc");
    assert_eq!(join(&parts, ", "), "a, b, c");
    assert_eq!(join(&vec!["only".to_string()], "\n"), "only");
    assert_eq!(join(&vec![], "\n"), "");
    assert_eq!(join(&vec![String::new(), String::new()], "-"), "-");
}

#[test]
fn same_text_tells_equal_texts_from_others() {
    assert!(same_text("nats.proto.get.person", "nats.proto.get.person"));
    assert!(same_text("", ""));
    assert!(same_text("é.ü", "é.ü"));
    assert!(!same_text("nats.proto.get.person", "nats.proto.get.people"));
    assert!(!same_text("a", "ab"));
    assert!(!same_text("ab", "a"));
    assert!(!same_text("", "a"));
    assert!(!same_text("é", "e"));
    assert!(!same_text("Get", "get"));
}
