use vstd::prelude::*;

use crate::datum::{doc_field, Datum, Doc};
use crate::error::E;
use crate::persisted::Persistable;

verus! {

/// What a [`User`] denotes.
pub struct UserModel {
    pub name: Seq<char>,
}

#[derive(Debug)]
pub struct User {
    name: String,
}

impl View for User {
    type V = UserModel;

    closed spec fn view(&self) -> UserModel {
        UserModel { name: self.name@ }
    }
}

/// A user is stored as an object with the single field `name`.
pub open spec fn encode_user(u: UserModel) -> Doc {
    Doc::Object(seq![("name"@, Doc::Text(u.name))])
}

/// Any object whose field `name` is a string denotes a user; other fields,
/// such as the identifier the store adds, are left aside.
pub open spec fn decode_user(d: Doc) -> Option<UserModel> {
    match doc_field(d, "name"@) {
        Some(Doc::Text(name)) => Some(UserModel { name }),
        _ => None,
    }
}

pub proof fn lemma_decode_encode_user(u: UserModel)
    ensures
        decode_user(encode_user(u)) == Some(u),
{
    let fields = seq![("name"@, Doc::Text(u.name))];
    assert(fields[0].0 == "name"@);
}

impl User {
    pub fn new(name: String) -> (r: Self)
        ensures
            r@ == (UserModel { name: name@ }),
    {
        User { name }
    }

    pub fn name(&self) -> (r: &str)
        ensures
            r@ == self@.name,
    {
        self.name.as_str()
    }

    /// The document this user is stored as.
    pub fn to_doc(&self) -> (d: Datum)
        ensures
            d@ == encode_user(self@),
    {
        let value = Datum::String(self.name.clone());
        assert(value@ == Doc::Text(self.name@));
        let mut fields: Vec<(String, Datum)> = Vec::new();
        fields.push(("name".to_owned(), value));
        let d = Datum::Object(fields);
        assert(d@->Object_0 =~= seq![("name"@, Doc::Text(self.name@))]);
        d
    }

    /// The user a document denotes.
    pub fn from_doc(d: &Datum) -> (r: Result<User, E>)
        ensures
            match r {
                Ok(u) => decode_user(d@) == Some(u@),
                Err(_) => decode_user(d@) is None,
            },
    {
        let key = "name".to_owned();
        match d.get_field(&key) {
            Some(value) => match value {
                Datum::String(s) => Ok(User { name: s.clone() }),
                _ => Err(E::new("document has a field `name` that is not a string".to_owned())),
            },
            None => Err(E::new("document is not an object with a field `name`".to_owned())),
        }
    }
}

impl Persistable for User {
    open spec fn table_name() -> Seq<char> {
        "users"@
    }

    open spec fn encode(v: UserModel) -> Doc {
        encode_user(v)
    }

    open spec fn decode(d: Doc) -> Option<UserModel> {
        decode_user(d)
    }

    proof fn lemma_decode_encode(v: UserModel) {
        lemma_decode_encode_user(v);
    }

    fn table() -> (r: &'static str) {
        "users"
    }

    fn to_db(&self) -> (d: Datum) {
        self.to_doc()
    }

    fn from_db(d: &Datum) -> (r: Result<Self, E>) {
        User::from_doc(d)
    }
}

} // verus!
