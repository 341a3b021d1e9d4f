use vstd::prelude::*;

use crate::datum::{doc_field, field, Datum, Doc};
use crate::error::E;
use crate::persisted::Persistable;
use crate::user::{decode_user, encode_user, lemma_decode_encode_user, User, UserModel};

verus! {

/// What a [`Guest`] denotes: a user and the state of their answer.
pub enum GuestModel {
    Invited(UserModel),
    Attending(UserModel),
    Rejected(UserModel),
}

/// A user on an event's guest list; the variant is their answer.
#[derive(Debug)]
pub enum Guest {
    Invited(User),
    Attending(User),
    Rejected(User),
}

impl View for Guest {
    type V = GuestModel;

    open spec fn view(&self) -> GuestModel {
        match self {
            Guest::Invited(u) => GuestModel::Invited(u@),
            Guest::Attending(u) => GuestModel::Attending(u@),
            Guest::Rejected(u) => GuestModel::Rejected(u@),
        }
    }
}

/// A guest is stored as an object with one field, named after the answer,
/// that holds the user.
pub open spec fn encode_guest(g: GuestModel) -> Doc {
    match g {
        GuestModel::Invited(u) => Doc::Object(seq![("Invited"@, encode_user(u))]),
        GuestModel::Attending(u) => Doc::Object(seq![("Attending"@, encode_user(u))]),
        GuestModel::Rejected(u) => Doc::Object(seq![("Rejected"@, encode_user(u))]),
    }
}

pub open spec fn decode_guest(d: Doc) -> Option<GuestModel> {
    match d {
        Doc::Object(fields) => if fields.len() == 1 {
            match decode_user(fields[0].1) {
                Some(u) => if fields[0].0 == "Invited"@ {
                    Some(GuestModel::Invited(u))
                } else if fields[0].0 == "Attending"@ {
                    Some(GuestModel::Attending(u))
                } else if fields[0].0 == "Rejected"@ {
                    Some(GuestModel::Rejected(u))
                } else {
                    None
                },
                None => None,
            }
        } else {
            None
        },
        _ => None,
    }
}

/// The guests a sequence of documents denotes: each one must be a guest.
pub open spec fn decode_guests(items: Seq<Doc>) -> Option<Seq<GuestModel>>
    decreases items.len(),
{
    if items.len() == 0 {
        Some(Seq::empty())
    } else {
        match (decode_guests(items.drop_last()), decode_guest(items.last())) {
            (Some(gs), Some(g)) => Some(gs.push(g)),
            _ => None,
        }
    }
}

/// What an [`Event`] denotes.
pub struct EventModel {
    pub name: Seq<char>,
    pub id: Seq<char>,
    pub guests: Seq<GuestModel>,
}

#[derive(Debug)]
pub struct Event {
    name: String,
    guests: Vec<Guest>,
    id: String,
}

impl View for Event {
    type V = EventModel;

    closed spec fn view(&self) -> EventModel {
        EventModel {
            name: self.name@,
            id: self.id@,
            guests: self.guests@.map_values(|g: Guest| g@),
        }
    }
}

/// An event is stored as an object with the fields `name`, `id` and
/// `guests`, the last an array of guests in order.
pub open spec fn encode_event(e: EventModel) -> Doc {
    Doc::Object(
        seq![
            ("name"@, Doc::Text(e.name)),
            ("id"@, Doc::Text(e.id)),
            ("guests"@, Doc::Array(e.guests.map_values(|g: GuestModel| encode_guest(g)))),
        ],
    )
}

pub open spec fn decode_event(d: Doc) -> Option<EventModel> {
    match (doc_field(d, "name"@), doc_field(d, "id"@), doc_field(d, "guests"@)) {
        (Some(Doc::Text(name)), Some(Doc::Text(id)), Some(Doc::Array(items))) => match decode_guests(
            items,
        ) {
            Some(guests) => Some(EventModel { name, id, guests }),
            None => None,
        },
        _ => None,
    }
}

pub proof fn lemma_decode_encode_guest(g: GuestModel)
    ensures
        decode_guest(encode_guest(g)) == Some(g),
{
    reveal_strlit("Invited");
    reveal_strlit("Attending");
    reveal_strlit("Rejected");
    assert("Invited"@ != "Attending"@ && "Invited"@ != "Rejected"@ && "Attending"@ != "Rejected"@)
        by {
        assert("Invited"@[0] != "Attending"@[0]);
        assert("Invited"@[0] != "Rejected"@[0]);
        assert("Attending"@[0] != "Rejected"@[0]);
    }
    match g {
        GuestModel::Invited(u) => {
            lemma_decode_encode_user(u);
            assert(seq![("Invited"@, encode_user(u))][0] == ("Invited"@, encode_user(u)));
        },
        GuestModel::Attending(u) => {
            lemma_decode_encode_user(u);
            assert(seq![("Attending"@, encode_user(u))][0] == ("Attending"@, encode_user(u)));
        },
        GuestModel::Rejected(u) => {
            lemma_decode_encode_user(u);
            assert(seq![("Rejected"@, encode_user(u))][0] == ("Rejected"@, encode_user(u)));
        },
    }
}

pub proof fn lemma_decode_encode_guests(gs: Seq<GuestModel>)
    ensures
        decode_guests(gs.map_values(|g: GuestModel| encode_guest(g))) == Some(gs),
    decreases gs.len(),
{
    let items = gs.map_values(|g: GuestModel| encode_guest(g));
    if gs.len() > 0 {
        assert(items.drop_last() =~= gs.drop_last().map_values(|g: GuestModel| encode_guest(g)));
        lemma_decode_encode_guests(gs.drop_last());
        lemma_decode_encode_guest(gs.last());
        assert(gs.drop_last().push(gs.last()) =~= gs);
    } else {
        assert(gs =~= Seq::empty());
    }
}

/// A prefix of a sequence of guest documents decodes when the whole does,
/// and a document that is no guest spoils every sequence that holds it.
pub proof fn lemma_decode_guests_prefix(items: Seq<Doc>, k: int)
    requires
        0 <= k <= items.len(),
        decode_guests(items.take(k)) is None,
    ensures
        decode_guests(items) is None,
    decreases items.len(),
{
    if k < items.len() {
        assert(items.drop_last().take(k) =~= items.take(k));
        lemma_decode_guests_prefix(items.drop_last(), k);
    } else {
        assert(items.take(k) =~= items);
    }
}

pub proof fn lemma_decode_event_fields(name: Seq<char>, id: Seq<char>, guests: Doc)
    ensures
        ({
            let fields = seq![("name"@, Doc::Text(name)), ("id"@, Doc::Text(id)), ("guests"@, guests)];
            &&& field(fields, "name"@) == Some(Doc::Text(name))
            &&& field(fields, "id"@) == Some(Doc::Text(id))
            &&& field(fields, "guests"@) == Some(guests)
        }),
{
    let fields = seq![("name"@, Doc::Text(name)), ("id"@, Doc::Text(id)), ("guests"@, guests)];
    reveal_strlit("name");
    reveal_strlit("id");
    reveal_strlit("guests");
    let rest = seq![("id"@, Doc::Text(id)), ("guests"@, guests)];
    let last = seq![("guests"@, guests)];
    assert(fields.drop_first() =~= rest);
    assert(rest.drop_first() =~= last);
    assert("name"@ != "id"@ && "name"@ != "guests"@ && "id"@ != "guests"@) by {
        assert("name"@.len() != "id"@.len());
        assert("name"@[0] != "guests"@[0]);
        assert("id"@.len() != "guests"@.len());
    }
    assert(fields[0].0 == "name"@);
    assert(rest[0].0 == "id"@);
    assert(last[0].0 == "guests"@);
    assert(field(last, "guests"@) == Some(guests));
    assert(field(rest, "guests"@) == Some(guests));
    assert(field(rest, "id"@) == Some(Doc::Text(id)));
}

pub proof fn lemma_decode_encode_event(e: EventModel)
    ensures
        decode_event(encode_event(e)) == Some(e),
{
    let items = e.guests.map_values(|g: GuestModel| encode_guest(g));
    lemma_decode_event_fields(e.name, e.id, Doc::Array(items));
    lemma_decode_encode_guests(e.guests);
}

/// An object document with the one field `tag`.
fn tagged(tag: String, inner: Datum) -> (d: Datum)
    ensures
        d@ == Doc::Object(seq![(tag@, inner@)]),
{
    let ghost expected = seq![(tag@, inner@)];
    let mut fields: Vec<(String, Datum)> = Vec::new();
    fields.push((tag, inner));
    let d = Datum::Object(fields);
    assert(d@->Object_0 =~= expected);
    d
}

/// A string field of an object document.
fn text_field(d: &Datum, key: &str) -> (r: Result<String, E>)
    ensures
        match r {
            Ok(s) => doc_field(d@, key@) == Some(Doc::Text(s@)),
            Err(_) => !(doc_field(d@, key@) matches Some(Doc::Text(_))),
        },
{
    match d.get_field(&key.to_owned()) {
        Some(value) => match value {
            Datum::String(s) => Ok(s.clone()),
            _ => Err(E::new("document has a field that is not a string".to_owned())),
        },
        None => Err(E::new("document lacks a field".to_owned())),
    }
}

impl Guest {
    /// The user this guest is.
    pub fn user(&self) -> (r: &User)
        ensures
            match self@ {
                GuestModel::Invited(u) => r@ == u,
                GuestModel::Attending(u) => r@ == u,
                GuestModel::Rejected(u) => r@ == u,
            },
    {
        match self {
            Guest::Invited(u) => u,
            Guest::Attending(u) => u,
            Guest::Rejected(u) => u,
        }
    }

    /// The document this guest is stored as.
    pub fn to_doc(&self) -> (d: Datum)
        ensures
            d@ == encode_guest(self@),
    {
        match self {
            Guest::Invited(u) => tagged("Invited".to_owned(), u.to_doc()),
            Guest::Attending(u) => tagged("Attending".to_owned(), u.to_doc()),
            Guest::Rejected(u) => tagged("Rejected".to_owned(), u.to_doc()),
        }
    }

    /// The guest a document denotes.
    pub fn from_doc(d: &Datum) -> (r: Result<Guest, E>)
        ensures
            match r {
                Ok(g) => decode_guest(d@) == Some(g@),
                Err(_) => decode_guest(d@) is None,
            },
    {
        match d {
            Datum::Object(fields) => {
                if fields.len() != 1 {
                    return Err(E::new("a guest is an object with exactly one field".to_owned()));
                }
                assert(d@->Object_0[0] == (fields@[0].0@, fields@[0].1@));
                let user = match User::from_doc(&fields[0].1) {
                    Ok(u) => u,
                    Err(e) => {
                        return Err(e);
                    },
                };
                let tag = &fields[0].0;
                if *tag == "Invited".to_owned() {
                    Ok(Guest::Invited(user))
                } else if *tag == "Attending".to_owned() {
                    Ok(Guest::Attending(user))
                } else if *tag == "Rejected".to_owned() {
                    Ok(Guest::Rejected(user))
                } else {
                    Err(E::new("a guest's field names an unknown answer".to_owned()))
                }
            },
            _ => Err(E::new("a guest is an object".to_owned())),
        }
    }
}

impl Event {
    pub fn new(name: String, id: String, guests: Vec<Guest>) -> (r: Self)
        ensures
            r@ == (EventModel {
                name: name@,
                id: id@,
                guests: guests@.map_values(|g: Guest| g@),
            }),
    {
        Event { name, guests, id }
    }

    pub fn name(&self) -> (r: &str)
        ensures
            r@ == self@.name,
    {
        self.name.as_str()
    }

    pub fn id(&self) -> (r: &str)
        ensures
            r@ == self@.id,
    {
        self.id.as_str()
    }

    pub fn guests(&self) -> (r: &Vec<Guest>)
        ensures
            r@.map_values(|g: Guest| g@) == self@.guests,
    {
        &self.guests
    }

    /// The document this event is stored as.
    pub fn to_doc(&self) -> (d: Datum)
        ensures
            d@ == encode_event(self@),
    {
        let n = self.guests.len();
        let mut items: Vec<Datum> = Vec::new();
        let mut i: usize = 0;
        while i < n
            invariant
                n == self.guests@.len(),
                i <= n,
                items@.len() == i,
                forall|j: int| 0 <= j < i ==> #[trigger] items@[j]@ == encode_guest(self.guests@[j]@),
            decreases n - i,
        {
            items.push(self.guests[i].to_doc());
            i = i + 1;
        }
        let ghost encoded = items@;
        let guests = Datum::Array(items);
        assert forall|j: int| 0 <= j < n implies #[trigger] guests@->Array_0[j] == self@.guests.map_values(
            |g: GuestModel| encode_guest(g),
        )[j] by {
            assert(guests@->Array_0[j] == encoded[j]@);
        }
        assert(guests@->Array_0 =~= self@.guests.map_values(|g: GuestModel| encode_guest(g)));
        let name = Datum::String(self.name.clone());
        let id = Datum::String(self.id.clone());
        assert(name@ == Doc::Text(self.name@));
        assert(id@ == Doc::Text(self.id@));
        let ghost expected = seq![("name"@, name@), ("id"@, id@), ("guests"@, guests@)];
        let mut fields: Vec<(String, Datum)> = Vec::new();
        fields.push(("name".to_owned(), name));
        fields.push(("id".to_owned(), id));
        fields.push(("guests".to_owned(), guests));
        let d = Datum::Object(fields);
        assert(d@->Object_0 =~= expected);
        d
    }

    /// The event a document denotes.
    pub fn from_doc(d: &Datum) -> (r: Result<Event, E>)
        ensures
            match r {
                Ok(e) => decode_event(d@) == Some(e@),
                Err(_) => decode_event(d@) is None,
            },
    {
        let name = match text_field(d, "name") {
            Ok(s) => s,
            Err(e) => {
                return Err(e);
            },
        };
        let id = match text_field(d, "id") {
            Ok(s) => s,
            Err(e) => {
                return Err(e);
            },
        };
        let value = match d.get_field(&"guests".to_owned()) {
            Some(v) => v,
            None => {
                return Err(E::new("document lacks the field `guests`".to_owned()));
            },
        };
        let items = match value {
            Datum::Array(items) => items,
            _ => {
                return Err(E::new("the field `guests` is not an array".to_owned()));
            },
        };
        let ghost docs = value@->Array_0;
        let n = items.len();
        let mut guests: Vec<Guest> = Vec::new();
        let mut i: usize = 0;
        assert(docs.take(0) =~= Seq::<Doc>::empty());
        assert(guests@.map_values(|g: Guest| g@) =~= Seq::<GuestModel>::empty());
        while i < n
            invariant
                n == items@.len(),
                docs.len() == n,
                value@ == Doc::Array(docs),
                forall|j: int| 0 <= j < n ==> #[trigger] docs[j] == items@[j]@,
                i <= n,
                guests@.len() == i,
                doc_field(d@, "name"@) == Some(Doc::Text(name@)),
                doc_field(d@, "id"@) == Some(Doc::Text(id@)),
                doc_field(d@, "guests"@) == Some(value@),
                decode_guests(docs.take(i as int)) == Some(guests@.map_values(|g: Guest| g@)),
            decreases n - i,
        {
            let ghost before = guests@;
            assert(docs.take(i as int + 1).drop_last() =~= docs.take(i as int));
            assert(docs.take(i as int + 1).last() == items@[i as int]@);
            match Guest::from_doc(&items[i]) {
                Ok(g) => {
                    guests.push(g);
                    assert(guests@.map_values(|g: Guest| g@) =~= before.map_values(|g: Guest| g@).push(
                        guests@[i as int]@,
                    ));
                },
                Err(e) => {
                    proof {
                        lemma_decode_guests_prefix(docs, i as int + 1);
                    }
                    assert(decode_guests(docs) is None);
                    return Err(e);
                },
            }
            i = i + 1;
        }
        assert(docs.take(n as int) =~= docs);
        Ok(Event { name, guests, id })
    }
}

impl Persistable for Event {
    open spec fn table_name() -> Seq<char> {
        "events"@
    }

    open spec fn encode(v: EventModel) -> Doc {
        encode_event(v)
    }

    open spec fn decode(d: Doc) -> Option<EventModel> {
        decode_event(d)
    }

    proof fn lemma_decode_encode(v: EventModel) {
        lemma_decode_encode_event(v);
    }

    fn table() -> (r: &'static str) {
        "events"
    }

    fn to_db(&self) -> (d: Datum) {
        self.to_doc()
    }

    fn from_db(d: &Datum) -> (r: Result<Self, E>) {
        Event::from_doc(d)
    }
}

} // verus!
