use docstore::auth::Token;
use docstore::datum::Datum;
use docstore::error::E;
use docstore::event::{Event, Guest};
use docstore::persisted::{finish_get, finish_insert, Id, Persistable, StoreError, StoreReply};
use docstore::user::User;

fn text(s: &str) -> Datum {
    Datum::String(s.to_string())
}

fn object(fields: Vec<(&str, Datum)>) -> Datum {
    Datum::Object(fields.into_iter().map(|(k, v)| (k.to_string(), v)).collect())
}

fn insert_reply(key: &str) -> StoreReply {
    StoreReply {
        runtime_error: false,
        result: vec![object(vec![
            ("inserted", Datum::Number(1)),
            ("generated_keys", Datum::Array(vec![text(key)])),
        ])],
    }
}

fn rows(result: Vec<Datum>) -> StoreReply {
    StoreReply { runtime_error: false, result }
}

#[test]
fn test_insert() {
    let token = Token::new().expect("secure randomness");
    let name: String = token.as_str().to_string();
    assert_eq!(name.len(), 64);

    let user = User::new(name);
    let stored = user.to_db();
    let persisted_user = finish_insert(user, insert_reply("generated-1")).expect("insert the user");
    println!("{:?}", persisted_user);

    let fetched = finish_get::<User>(&persisted_user.id, rows(vec![stored]))
        .expect("get the user")
        .unwrap();
    assert_eq!(fetched.id, persisted_user.id);
    assert_eq!(fetched.contents.name(), persisted_user.contents.name());
}

#[test]
fn insert_and_get_ada() {
    let ada = User::new("Ada".to_string());
    let written = ada.to_db();
    let persisted = finish_insert(ada, insert_reply("k1")).expect("insert");
    assert_eq!(persisted.id.str(), "k1");
    assert_eq!(persisted.contents.name(), "Ada");

    let got = finish_get::<User>(&Id::from_string("k1".to_string()), rows(vec![written]))
        .expect("get")
        .expect("found");
    assert_eq!(got.id, Id::from_string("k1".to_string()));
    assert_eq!(got.contents.name(), "Ada");

    let missing = finish_get::<User>(&Id::from_string("missing".to_string()), rows(vec![])).expect("get");
    assert!(missing.is_none());
}

#[test]
fn user_document_shape() {
    let d = User::new("Ada".to_string()).to_db();
    assert_eq!(d, object(vec![("name", text("Ada"))]));
    assert_eq!(User::table(), "users");
}

#[test]
fn user_round_trip() {
    for name in ["", "Ada", "Grace Hopper", "ünïcødé"] {
        let d = User::new(name.to_string()).to_db();
        let back = User::from_db(&d).expect("decodes");
        assert_eq!(back.name(), name);
    }
}

#[test]
fn user_decode_keeps_name_and_ignores_store_id() {
    let d = object(vec![("id", text("k9")), ("name", text("Lin"))]);
    assert_eq!(User::from_db(&d).expect("decodes").name(), "Lin");
}

#[test]
fn user_decode_rejects_malformed() {
    assert!(User::from_db(&Datum::Null).is_err());
    assert!(User::from_db(&text("Ada")).is_err());
    assert!(User::from_db(&object(vec![])).is_err());
    assert!(User::from_db(&object(vec![("name", Datum::Number(3))])).is_err());
    assert!(User::from_db(&object(vec![("nom", text("Ada"))])).is_err());
}

#[test]
fn field_lookup_takes_first_of_a_name() {
    let d = object(vec![("name", text("first")), ("name", text("second"))]);
    assert_eq!(d.get_field(&"name".to_string()), Some(&text("first")));
    assert_eq!(d.get_field(&"other".to_string()), None);
    assert_eq!(text("x").get_field(&"name".to_string()), None);
    assert_eq!(User::from_db(&d).expect("decodes").name(), "first");
}

fn sample_event() -> Event {
    Event::new(
        "Launch".to_string(),
        "e1".to_string(),
        vec![
            Guest::Invited(User::new("Ada".to_string())),
            Guest::Attending(User::new("Bob".to_string())),
            Guest::Rejected(User::new("Cy".to_string())),
        ],
    )
}

#[test]
fn event_document_shape() {
    let d = sample_event().to_db();
    let expected = object(vec![
        ("name", text("Launch")),
        ("id", text("e1")),
        (
            "guests",
            Datum::Array(vec![
                object(vec![("Invited", object(vec![("name", text("Ada"))]))]),
                object(vec![("Attending", object(vec![("name", text("Bob"))]))]),
                object(vec![("Rejected", object(vec![("name", text("Cy"))]))]),
            ]),
        ),
    ]);
    assert_eq!(d, expected);
    assert_eq!(Event::table(), "events");
}

#[test]
fn event_round_trip() {
    let event = sample_event();
    let back = Event::from_db(&event.to_db()).expect("decodes");
    assert_eq!(back.name(), "Launch");
    assert_eq!(back.id(), "e1");
    let guests = back.guests();
    assert_eq!(guests.len(), 3);
    assert!(matches!(&guests[0], Guest::Invited(u) if u.name() == "Ada"));
    assert!(matches!(&guests[1], Guest::Attending(u) if u.name() == "Bob"));
    assert!(matches!(&guests[2], Guest::Rejected(u) if u.name() == "Cy"));

    let empty = Event::new("Quiet".to_string(), "e2".to_string(), vec![]);
    let back = Event::from_db(&empty.to_db()).expect("decodes");
    assert_eq!(back.name(), "Quiet");
    assert!(back.guests().is_empty());
}

#[test]
fn guest_round_trip() {
    let g = Guest::Attending(User::new("Dee".to_string()));
    let back = Guest::from_doc(&g.to_doc()).expect("decodes");
    assert!(matches!(&back, Guest::Attending(_)));
    assert_eq!(back.user().name(), "Dee");
}

#[test]
fn guest_decode_rejects_malformed() {
    let user = || object(vec![("name", text("Ada"))]);
    assert!(Guest::from_doc(&object(vec![("Maybe", user())])).is_err());
    assert!(Guest::from_doc(&object(vec![("Invited", user()), ("Rejected", user())])).is_err());
    assert!(Guest::from_doc(&object(vec![("Invited", text("Ada"))])).is_err());
    assert!(Guest::from_doc(&object(vec![])).is_err());
    assert!(Guest::from_doc(&Datum::Array(vec![user()])).is_err());
}

#[test]
fn event_decode_rejects_malformed() {
    let good_guest = || object(vec![("Invited", object(vec![("name", text("Ada"))]))]);
    let event = |guests: Datum| object(vec![("name", text("Launch")), ("id", text("e1")), ("guests", guests)]);
    assert!(Event::from_db(&event(Datum::Array(vec![good_guest()]))).is_ok());
    assert!(Event::from_db(&event(Datum::Array(vec![good_guest(), text("nobody")]))).is_err());
    assert!(Event::from_db(&event(object(vec![]))).is_err());
    assert!(Event::from_db(&object(vec![("name", text("Launch")), ("id", text("e1"))])).is_err());
    assert!(Event::from_db(&object(vec![("name", text("Launch")), ("id", Datum::Null), ("guests", Datum::Array(vec![]))])).is_err());
    assert!(Event::from_db(&Datum::Bool(true)).is_err());
}

#[test]
fn insert_reports_remote_error() {
    let reply = StoreReply { runtime_error: true, result: vec![text("table missing")] };
    match finish_insert(User::new("Ada".to_string()), reply) {
        Err(StoreError::Remote(details)) => assert_eq!(details, vec![text("table missing")]),
        other => panic!("unexpected {:?}", other),
    }
}

#[test]
fn insert_without_generated_keys_is_unexpected() {
    let shapes = vec![
        vec![],
        vec![text("k1")],
        vec![object(vec![("inserted", Datum::Number(1))])],
        vec![object(vec![("generated_keys", text("k1"))])],
        vec![object(vec![("generated_keys", Datum::Array(vec![]))])],
        vec![object(vec![("generated_keys", Datum::Array(vec![Datum::Number(7)]))])],
        vec![object(vec![("generated_keys", Datum::Array(vec![Datum::Null]))])],
    ];
    for result in shapes {
        let expected = format!("{:?}", result);
        match finish_insert(User::new("Ada".to_string()), rows(result)) {
            Err(StoreError::UnexpectedResponse(details)) => assert_eq!(format!("{:?}", details), expected),
            other => panic!("unexpected {:?}", other),
        }
    }
}

#[test]
fn insert_takes_first_generated_key() {
    let reply = rows(vec![object(vec![("generated_keys", Datum::Array(vec![text("a"), text("b")]))])]);
    let p = finish_insert(User::new("Ada".to_string()), reply).expect("insert");
    assert_eq!(p.id.str(), "a");
}

#[test]
fn get_reports_remote_error() {
    let reply = StoreReply { runtime_error: true, result: vec![] };
    assert!(matches!(finish_get::<User>(&Id::from_string("k1".to_string()), reply), Err(StoreError::Remote(_))));
}

#[test]
fn get_of_undecodable_document_is_decode_error() {
    let reply = rows(vec![object(vec![("name", Datum::Bool(false))])]);
    assert!(matches!(finish_get::<User>(&Id::from_string("k1".to_string()), reply), Err(StoreError::Decode(_))));
    let reply = rows(vec![Datum::Null]);
    assert!(matches!(finish_get::<User>(&Id::from_string("k1".to_string()), reply), Err(StoreError::Decode(_))));
}

#[test]
fn get_event_after_insert() {
    let event = sample_event();
    let written = event.to_db();
    let p = finish_insert(event, insert_reply("ev-7")).expect("insert");
    assert_eq!(p.contents.name(), "Launch");
    let got = finish_get::<Event>(&p.id, rows(vec![written])).expect("get").expect("found");
    assert_eq!(got.id.str(), "ev-7");
    assert_eq!(got.contents.guests().len(), 3);
}

#[test]
fn token_is_64_letters_or_digits() {
    let token = Token::new().expect("secure randomness");
    let s = token.as_str();
    assert_eq!(s.chars().count(), 64);
    assert!(s.chars().all(|c| c.is_ascii_alphanumeric()));
}

#[test]
fn tokens_differ() {
    let mut seen = std::collections::HashSet::new();
    for _ in 0..1000 {
        let t = Token::new().expect("secure randomness");
        assert!(seen.insert(t.as_str().to_string()));
    }
}

#[test]
fn error_keeps_description() {
    let e = E::new("boom".to_string());
    assert_eq!(e.description(), "boom");
}

#[test]
fn id_from_string_keeps_text() {
    let id = Id::from_string("abc".to_string());
    assert_eq!(id.str(), "abc");
    assert_eq!(id.duplicate(), id);
}
