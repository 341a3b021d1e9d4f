use vstd::prelude::*;

verus! {

/// The mathematical shape of a document: what a [`Datum`] denotes.
pub enum Doc {
    Null,
    Bool(bool),
    /// A number, held as the bit pattern of its IEEE-754 double.
    Number(u64),
    Text(Seq<char>),
    Array(Seq<Doc>),
    /// The fields of an object, in the order they are held.
    Object(Seq<(Seq<char>, Doc)>),
}

/// A semi-structured document value, the shape exchanged with the store.
#[derive(Debug, PartialEq, Eq)]
pub enum Datum {
    Null,
    Bool(bool),
    /// A number, held as the bit pattern of its IEEE-754 double, so that it
    /// round-trips exactly.
    Number(u64),
    String(String),
    Array(Vec<Datum>),
    /// Named fields; a lookup by name takes the first field of that name.
    Object(Vec<(String, Datum)>),
}

pub open spec fn doc_of(d: Datum) -> Doc
    decreases d,
{
    match d {
        Datum::Null => Doc::Null,
        Datum::Bool(b) => Doc::Bool(b),
        Datum::Number(n) => Doc::Number(n),
        Datum::String(s) => Doc::Text(s@),
        Datum::Array(items) => Doc::Array(
            Seq::new(
                items@.len(),
                |i: int|
                    if 0 <= i < items@.len() {
                        doc_of(items@[i])
                    } else {
                        Doc::Null
                    },
            ),
        ),
        Datum::Object(fields) => Doc::Object(
            Seq::new(
                fields@.len(),
                |i: int|
                    if 0 <= i < fields@.len() {
                        (fields@[i].0@, doc_of(fields@[i].1))
                    } else {
                        (Seq::empty(), Doc::Null)
                    },
            ),
        ),
    }
}

impl View for Datum {
    type V = Doc;

    open spec fn view(&self) -> Doc {
        doc_of(*self)
    }
}

/// The value of the first field named `key`, if any.
pub open spec fn field(fields: Seq<(Seq<char>, Doc)>, key: Seq<char>) -> Option<Doc>
    decreases fields.len(),
{
    if fields.len() == 0 {
        None
    } else if fields[0].0 == key {
        Some(fields[0].1)
    } else {
        field(fields.drop_first(), key)
    }
}

/// The value of the field `key` of an object document; `None` for a document
/// that is not an object or has no such field.
pub open spec fn doc_field(d: Doc, key: Seq<char>) -> Option<Doc> {
    match d {
        Doc::Object(fields) => field(fields, key),
        _ => None,
    }
}

impl Datum {
    /// The value of the field named `key` of this object.
    pub fn get_field(&self, key: &String) -> (r: Option<&Datum>)
        ensures
            match r {
                Some(v) => doc_field(self@, key@) == Some(v@),
                None => doc_field(self@, key@) is None,
            },
    {
        match self {
            Datum::Object(fields) => {
                let n = fields.len();
                let ghost all = self@->Object_0;
                let mut i: usize = 0;
                assert(all.subrange(0, n as int) =~= all);
                while i < n
                    invariant
                        n == fields@.len(),
                        self@ == Doc::Object(all),
                        all.len() == n,
                        0 <= i <= n,
                        field(all, key@) == field(all.subrange(i as int, n as int), key@),
                        forall|j: int|
                            0 <= j < n ==> #[trigger] all[j] == (fields@[j].0@, fields@[j].1@),
                    decreases n - i,
                {
                    assert(all.subrange(i as int, n as int).drop_first() =~= all.subrange(
                        i as int + 1,
                        n as int,
                    ));
                    assert(all[i as int] == (fields@[i as int].0@, fields@[i as int].1@));
                    assert(all.subrange(i as int, n as int)[0] == all[i as int]);
                    if fields[i].0 == *key {
                        return Some(&fields[i].1);
                    }
                    i = i + 1;
                }
                None
            },
            _ => None,
        }
    }
}

} // verus!
