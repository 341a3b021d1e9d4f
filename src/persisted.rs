use vstd::prelude::*;

use crate::datum::{doc_field, Datum, Doc};
use crate::error::E;

verus! {

/// An identifier the store assigned to a document of a collection.
#[derive(Debug, Clone, PartialEq, Eq)]
pub struct Id(String);

impl View for Id {
    type V = Seq<char>;

    closed spec fn view(&self) -> Seq<char> {
        self.0@
    }
}

impl Id {
    pub fn str(&self) -> (r: &str)
        ensures
            r@ == self@,
    {
        self.0.as_str()
    }

    pub fn from_string(id: String) -> (r: Self)
        ensures
            r@ == id@,
    {
        Id(id)
    }

    /// A copy of this identifier.
    pub fn duplicate(&self) -> (r: Self)
        ensures
            r@ == self@,
    {
        Id(self.0.clone())
    }
}

/// What the store answered to a query: whether it reports a runtime error,
/// and the documents of its result.
pub struct StoreReply {
    pub runtime_error: bool,
    pub result: Vec<Datum>,
}

/// Why an insert or a get did not complete.
#[derive(Debug)]
pub enum StoreError {
    /// The store reported a runtime error; the documents it sent with it.
    Remote(Vec<Datum>),
    /// The reply did not have the shape the protocol prescribes.
    UnexpectedResponse(Vec<Datum>),
    /// A fetched document did not decode.
    Decode(E),
}

/// The identifier the store generated for an insert: the first string of the
/// array `generated_keys` of the first result document.
pub open spec fn generated_key(rows: Seq<Datum>) -> Option<Seq<char>> {
    if rows.len() == 0 {
        None
    } else {
        match doc_field(rows[0]@, "generated_keys"@) {
            Some(Doc::Array(keys)) => if keys.len() > 0 {
                match keys[0] {
                    Doc::Text(k) => Some(k),
                    _ => None,
                }
            } else {
                None
            },
            _ => None,
        }
    }
}

/// Reads the generated identifier out of an insert's result documents.
pub fn find_generated_key(rows: &Vec<Datum>) -> (r: Option<&String>)
    ensures
        match r {
            Some(k) => generated_key(rows@) == Some(k@),
            None => generated_key(rows@) is None,
        },
{
    if rows.len() == 0 {
        return None;
    }
    let name = "generated_keys".to_owned();
    match rows[0].get_field(&name) {
        Some(field) => match field {
            Datum::Array(keys) => {
                if keys.len() == 0 {
                    return None;
                }
                assert(field@->Array_0[0] == keys@[0]@);
                match &keys[0] {
                    Datum::String(k) => Some(k),
                    _ => None,
                }
            },
            _ => None,
        },
        None => None,
    }
}

/// What an insert of `x` completes with, given the store's reply to it: the
/// store's error, an unexpected reply when it names no generated key, or `x`
/// under the generated key.
pub open spec fn insert_completes<T: Persistable>(
    x: T,
    reply: StoreReply,
    r: Result<Persisted<T>, StoreError>,
) -> bool {
    if reply.runtime_error {
        r == Err::<Persisted<T>, StoreError>(StoreError::Remote(reply.result))
    } else {
        match generated_key(reply.result@) {
            Some(k) => (r matches Ok(p) && p.id@ == k && p.contents == x),
            None => r == Err::<Persisted<T>, StoreError>(
                StoreError::UnexpectedResponse(reply.result),
            ),
        }
    }
}

/// What a get of `id` completes with, given the store's reply to it: the
/// store's error, nothing when no document came back, or the record the first
/// document denotes under `id`, or a decode error when it denotes none.
pub open spec fn get_completes<T: Persistable>(
    id: Id,
    reply: StoreReply,
    r: Result<Option<Persisted<T>>, StoreError>,
) -> bool {
    if reply.runtime_error {
        r == Err::<Option<Persisted<T>>, StoreError>(StoreError::Remote(reply.result))
    } else if reply.result@.len() == 0 {
        r == Ok::<Option<Persisted<T>>, StoreError>(None)
    } else {
        match T::decode(reply.result@[0]@) {
            Some(v) => (r matches Ok(Some(p)) && p.id@ == id@ && p.contents@ == v),
            None => (r matches Err(StoreError::Decode(_))),
        }
    }
}

/// A record paired with the identifier the store holds it under.
#[derive(Debug)]
pub struct Persisted<T: Persistable> {
    pub id: Id,
    pub contents: T,
}

/// A record type that can be stored as a document and read back.
pub trait Persistable: Sized + View {
    /// The name of the collection that holds records of this type.
    spec fn table_name() -> Seq<char>;

    /// The document a record is stored as.
    spec fn encode(v: Self::V) -> Doc;

    /// The record a document denotes, if it denotes one.
    spec fn decode(d: Doc) -> Option<Self::V>;

    /// Decoding undoes encoding.
    proof fn lemma_decode_encode(v: Self::V)
        ensures
            Self::decode(Self::encode(v)) == Some(v),
    ;

    /// The name of the collection, as the store is addressed by it.
    fn table() -> (r: &'static str)
        ensures
            r@ == Self::table_name(),
    ;

    /// The document this record is stored as.
    fn to_db(&self) -> (d: Datum)
        ensures
            d@ == Self::encode(self@),
    ;

    /// The record a document denotes; an error for a document of another
    /// shape.
    fn from_db(d: &Datum) -> (r: Result<Self, E>)
        ensures
            match r {
                Ok(v) => Self::decode(d@) == Some(v@),
                Err(_) => Self::decode(d@) is None,
            },
    ;
}

/// Completes the insert of `x`, given the store's reply to the insert of
/// `x.to_db()` into `T::table()`.
pub fn finish_insert<T: Persistable>(x: T, reply: StoreReply) -> (r: Result<
    Persisted<T>,
    StoreError,
>)
    ensures
        insert_completes(x, reply, r),
{
    if reply.runtime_error {
        return Err(StoreError::Remote(reply.result));
    }
    let key = match find_generated_key(&reply.result) {
        Some(k) => k.clone(),
        None => {
            return Err(StoreError::UnexpectedResponse(reply.result));
        },
    };
    Ok(Persisted { id: Id(key), contents: x })
}

/// Completes the get of the record under `id`, given the store's reply to the
/// lookup of `id` in `T::table()`.
pub fn finish_get<T: Persistable>(id: &Id, reply: StoreReply) -> (r: Result<
    Option<Persisted<T>>,
    StoreError,
>)
    ensures
        get_completes(*id, reply, r),
{
    if reply.runtime_error {
        return Err(StoreError::Remote(reply.result));
    }
    if reply.result.len() == 0 {
        return Ok(None);
    }
    match T::from_db(&reply.result[0]) {
        Ok(v) => Ok(Some(Persisted { id: id.duplicate(), contents: v })),
        Err(e) => Err(StoreError::Decode(e)),
    }
}

/// Decoding the document a record was encoded to gives the record back: for
/// `d == x.to_db()`, `T::from_db(&d)` is `Ok(y)` with `y@ == x@`.
pub proof fn lemma_round_trip<T: Persistable>(x: T, d: Datum)
    requires
        d@ == T::encode(x@),
    ensures
        T::decode(d@) == Some(x@),
{
    T::lemma_decode_encode(x@);
}

/// Insert, then get: when an insert of `x` completed with `Ok(p)`, and the
/// store answers the lookup of `p.id` with the document the insert wrote, the
/// get completes with `Ok(Some(q))`, `q.id` the same identifier and
/// `q.contents` equal in value to `x`.
pub proof fn lemma_insert_then_get<T: Persistable>(
    x: T,
    written: Datum,
    insert_reply: StoreReply,
    inserted: Result<Persisted<T>, StoreError>,
    get_reply: StoreReply,
    fetched: Result<Option<Persisted<T>>, StoreError>,
)
    requires
        written@ == T::encode(x@),
        insert_completes(x, insert_reply, inserted),
        inserted is Ok,
        get_completes(inserted->Ok_0.id, get_reply, fetched),
        !get_reply.runtime_error,
        get_reply.result@.len() > 0,
        get_reply.result@[0]@ == written@,
    ensures
        fetched matches Ok(Some(q)) && q.id@ == inserted->Ok_0.id@ && q.contents@ == x@
            && inserted->Ok_0.contents@ == x@,
{
    T::lemma_decode_encode(x@);
}

} // verus!
