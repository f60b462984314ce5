use protobuf_nats_service_generator::dispatch::{
    call_suffixes, replay, route, settle, Delivery, Outcome, Verdict,
};
use protobuf_nats_service_generator::caller::{keep_decoded, request};
use protobuf_nats_service_generator::subject::{
    method_subject, subscription_subject, DEFAULT_SUBJECT_PREFIX,
};
use protobuf_nats_service_generator::{filter_methods_by_type, Method, MethodType, Service};

#[derive(Clone, Debug, PartialEq)]
struct Person {
    first_name: String,
    last_name: String,
    age: u8,
}

fn person(first_name: &str, last_name: &str, age: u8) -> Person {
    Person { first_name: first_name.to_string(), last_name: last_name.to_string(), age }
}

fn encode(person: &Person) -> Vec<u8> {
    let mut bytes = vec![person.age];
    bytes.extend_from_slice(person.first_name.as_bytes());
    bytes.push(0);
    bytes.extend_from_slice(person.last_name.as_bytes());
    bytes
}

fn decode(bytes: &[u8]) -> Option<Person> {
    let (age, names) = bytes.split_first()?;
    let end = names.iter().position(|b| *b == 0)?;
    Some(Person {
        first_name: String::from_utf8(names[..end].to_vec()).ok()?,
        last_name: String::from_utf8(names[end + 1..].to_vec()).ok()?,
        age: *age,
    })
}

fn person_service() -> Service {
    Service {
        name: "PersonService".to_string(),
        methods: vec![
            Method {
                name: "GetPerson".to_string(),
                proto_name: "GetPerson".to_string(),
                input_type: "GetPersonRequest".to_string(),
                output_type: "GetPersonResponse".to_string(),
                client_streaming: false,
                server_streaming: false,
            },
            Method {
                name: "GetPeople".to_string(),
                proto_name: "GetPeople".to_string(),
                input_type: "GetPeopleRequest".to_string(),
                output_type: "Person".to_string(),
                client_streaming: false,
                server_streaming: true,
            },
        ],
    }
}

#[test]
fn get_person_returns_the_record_that_the_server_holds() {
    let service = person_service();
    let table = call_suffixes(&service);
    assert_eq!(subscription_subject(DEFAULT_SUBJECT_PREFIX), "nats.proto.>");

    let sent = request(DEFAULT_SUBJECT_PREFIX, "GetPerson", vec![42]);
    assert_eq!(sent.subject, "nats.proto.get.person");
    assert_eq!(sent.subject, method_subject(DEFAULT_SUBJECT_PREFIX, "GetPerson"));
    let call = route(&table, DEFAULT_SUBJECT_PREFIX, &sent.subject).expect("a call has the subject");
    let calls = filter_methods_by_type(&service.methods, MethodType::RequestResponse);
    assert_eq!(calls[call].name, "GetPerson");
    assert!(!calls[call].server_streaming);
    assert_eq!(sent.payload, vec![42]);

    let john = person("John", "Doe", 42);
    let verdict = settle(Some("_INBOX.reply".to_string()), Outcome::Replied(encode(&john)));
    let Verdict::Publish(published) = verdict else {
        panic!("the reply is published");
    };
    assert_eq!(published.len(), 1);
    assert_eq!(published[0].subject, "_INBOX.reply");
    let received = decode(&published[0].payload).expect("the reply decodes");
    assert_eq!(received, john);
    assert_eq!(received.first_name, "John");
    assert_eq!(received.last_name, "Doe");
    assert_eq!(received.age, 42);
}

#[test]
fn get_people_streams_three_records_in_order_and_no_fourth() {
    let service = person_service();
    let table = call_suffixes(&service);
    let people = vec![person("John", "Doe", 42), person("Jane", "Doe", 41), person("Jim", "Doe", 7)];

    let sent = request(DEFAULT_SUBJECT_PREFIX, "GetPeople", vec![]);
    assert_eq!(sent.subject, "nats.proto.get.people");
    let trace = replay(
        &table,
        DEFAULT_SUBJECT_PREFIX,
        vec![Delivery {
            subject: sent.subject,
            payload: sent.payload,
            reply: Some("_INBOX.stream".to_string()),
            outcome: Outcome::Streamed(people.iter().map(encode).collect()),
        }],
    );
    assert_eq!(trace.stopped, None);
    assert!(trace.reported.is_empty());
    assert!(trace.published.iter().all(|p| p.subject == "_INBOX.stream"));

    let mut arrivals = trace.published.iter().map(|p| decode(&p.payload));
    let mut seen = Vec::new();
    for _ in 0..3 {
        seen.push(arrivals.next().expect("a reply arrives"));
    }
    assert!(arrivals.next().is_none());
    assert_eq!(keep_decoded(seen), people);
}

#[test]
fn a_reply_that_does_not_decode_is_skipped_by_the_caller() {
    let people = vec![person("John", "Doe", 42), person("Jane", "Doe", 41)];
    let arrived = vec![encode(&people[0]), vec![], encode(&people[1])];
    let attempts: Vec<Option<Person>> = arrived.iter().map(|bytes| decode(bytes)).collect();
    assert_eq!(keep_decoded(attempts), people);
}
