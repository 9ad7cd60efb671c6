use vstd::prelude::*;
use crate::json::{JsonValue, field_of, find_field};

verus! {

/// One author of the document.
#[derive(Debug, Clone, PartialEq)]
pub struct Author {
    pub name: String,
    pub email: String,
}

/// The loaded configuration: a title and the authors, in document order.
#[derive(Debug, Clone, PartialEq)]
pub struct Config {
    pub title: String,
    pub authors: Vec<Author>,
}

pub ghost struct AuthorView {
    pub name: Seq<char>,
    pub email: Seq<char>,
}

pub ghost struct ConfigView {
    pub title: Seq<char>,
    pub authors: Seq<AuthorView>,
}

impl View for Author {
    type V = AuthorView;

    open spec fn view(&self) -> AuthorView {
        AuthorView { name: self.name@, email: self.email@ }
    }
}

impl View for Config {
    type V = ConfigView;

    open spec fn view(&self) -> ConfigView {
        ConfigView { title: self.title@, authors: self.authors@.map_values(|a: Author| a@) }
    }
}

/// The diagnostic for a document that is not a JSON object.
pub const NOT_A_CONFIG: &'static str = "invalid type: expected an object with members `title` and `authors`";

/// The diagnostic for an item of `authors` that is not a JSON object.
pub const NOT_AN_AUTHOR: &'static str = "invalid type for an author: expected an object with members `name` and `email`";

pub open spec fn missing_field_message(key: Seq<char>) -> Seq<char> {
    "missing field `"@ + key + "`"@
}

pub open spec fn mistyped_field_message(key: Seq<char>, expected: Seq<char>) -> Seq<char> {
    "invalid type for field `"@ + key + "`: expected "@ + expected
}

/// The text of the member `key`, or the diagnostic that says it is missing
/// or not a string.
pub open spec fn text_member(members: Seq<(String, JsonValue)>, key: Seq<char>) -> Result<
    Seq<char>,
    Seq<char>,
> {
    match field_of(members, key) {
        None => Err(missing_field_message(key)),
        Some(JsonValue::Str(s)) => Ok(s@),
        Some(_) => Err(mistyped_field_message(key, "a string"@)),
    }
}

/// The author that a JSON value describes: an object with string members
/// `name` and `email`; other members are ignored. Otherwise the diagnostic
/// of the first fault, `name` before `email`.
pub open spec fn author_of_json(v: JsonValue) -> Result<AuthorView, Seq<char>> {
    match v {
        JsonValue::Object(members) => match text_member(members@, "name"@) {
            Err(m) => Err(m),
            Ok(name) => match text_member(members@, "email"@) {
                Err(m) => Err(m),
                Ok(email) => Ok(AuthorView { name, email }),
            },
        },
        _ => Err(NOT_AN_AUTHOR@),
    }
}

/// The authors that a JSON array describes, in its order, or the diagnostic
/// of its first item that describes none.
pub open spec fn authors_of_json(items: Seq<JsonValue>) -> Result<Seq<AuthorView>, Seq<char>>
    decreases items.len(),
{
    if items.len() == 0 {
        Ok(Seq::empty())
    } else {
        match authors_of_json(items.drop_last()) {
            Err(m) => Err(m),
            Ok(front) => match author_of_json(items.last()) {
                Ok(a) => Ok(front.push(a)),
                Err(m) => Err(m),
            },
        }
    }
}

/// The configuration that a JSON value describes: an object with a string
/// member `title` and an array member `authors` of authors; other members are
/// ignored. Otherwise the diagnostic of the first fault, `title` before
/// `authors`. A member that the document repeats counts by its last value
/// (see `JsonValue`).
pub open spec fn config_of_json(v: JsonValue) -> Result<ConfigView, Seq<char>> {
    match v {
        JsonValue::Object(members) => match text_member(members@, "title"@) {
            Err(m) => Err(m),
            Ok(title) => match field_of(members@, "authors"@) {
                None => Err(missing_field_message("authors"@)),
                Some(JsonValue::Array(items)) => match authors_of_json(items@) {
                    Ok(authors) => Ok(ConfigView { title, authors }),
                    Err(m) => Err(m),
                },
                Some(_) => Err(mistyped_field_message("authors"@, "an array"@)),
            },
        },
        _ => Err(NOT_A_CONFIG@),
    }
}

/// Once a prefix of the items holds a fault, the whole array reports it.
pub proof fn lemma_authors_fault_persists(items: Seq<JsonValue>, i: int, m: Seq<char>)
    requires
        0 <= i <= items.len(),
        authors_of_json(items.subrange(0, i)) == Err::<Seq<AuthorView>, Seq<char>>(m),
    ensures
        authors_of_json(items) == Err::<Seq<AuthorView>, Seq<char>>(m),
    decreases items.len() - i,
{
    if i == items.len() {
        assert(items.subrange(0, i) =~= items);
    } else {
        assert(items.subrange(0, i + 1).drop_last() =~= items.subrange(0, i));
        lemma_authors_fault_persists(items, i + 1, m);
    }
}

/// When every item describes an author, the array describes them all, item
/// by item, in order.
pub proof fn lemma_authors_all_present(items: Seq<JsonValue>)
    requires
        forall|i: int| 0 <= i < items.len() ==> (#[trigger] author_of_json(items[i])) is Ok,
    ensures
        authors_of_json(items) is Ok,
        authors_of_json(items)->Ok_0.len() == items.len(),
        forall|i: int|
            0 <= i < items.len() ==> authors_of_json(items)->Ok_0[i] == (#[trigger] author_of_json(
                items[i],
            ))->Ok_0,
    decreases items.len(),
{
    if items.len() > 0 {
        let front = items.drop_last();
        assert forall|i: int| 0 <= i < front.len() implies (#[trigger] author_of_json(front[i])) is Ok by {
            assert(front[i] == items[i]);
        }
        lemma_authors_all_present(front);
        assert(author_of_json(items[items.len() - 1]) is Ok);
        assert forall|i: int| 0 <= i < items.len() implies authors_of_json(items)->Ok_0[i] == (
        #[trigger] author_of_json(items[i]))->Ok_0 by {
            if i < front.len() {
                assert(front[i] == items[i]);
            }
        }
    }
}

/// The diagnostic for a missing member `key`.
pub fn missing_field(key: &str) -> (r: String)
    ensures
        r@ == missing_field_message(key@),
{
    let mut m = String::from_str("missing field `");
    m.append(key);
    m.append("`");
    m
}

/// The diagnostic for a member `key` that is not of the `expected` kind.
pub fn mistyped_field(key: &str, expected: &str) -> (r: String)
    ensures
        r@ == mistyped_field_message(key@, expected@),
{
    let mut m = String::from_str("invalid type for field `");
    m.append(key);
    m.append("`: expected ");
    m.append(expected);
    m
}

/// Reads the string member `key`.
pub fn text_member_of(members: &Vec<(String, JsonValue)>, key: &str) -> (r: Result<String, String>)
    ensures
        r matches Ok(s) ==> text_member(members@, key@) == Ok::<Seq<char>, Seq<char>>(s@),
        r matches Err(m) ==> text_member(members@, key@) == Err::<Seq<char>, Seq<char>>(m@),
{
    let name = String::from_str(key);
    match find_field(members, &name) {
        None => Err(missing_field(key)),
        Some(k) => match &members[k].1 {
            JsonValue::Str(s) => Ok(s.clone()),
            _ => Err(mistyped_field(key, "a string")),
        },
    }
}

/// Reads an author out of a JSON value.
pub fn author_from_json(v: &JsonValue) -> (r: Result<Author, String>)
    ensures
        r matches Ok(a) ==> author_of_json(*v) == Ok::<AuthorView, Seq<char>>(a@),
        r matches Err(m) ==> author_of_json(*v) == Err::<AuthorView, Seq<char>>(m@),
{
    match v {
        JsonValue::Object(members) => {
            let name = match text_member_of(members, "name") {
                Ok(name) => name,
                Err(m) => {
                    return Err(m);
                },
            };
            match text_member_of(members, "email") {
                Ok(email) => Ok(Author { name, email }),
                Err(m) => Err(m),
            }
        },
        _ => Err(String::from_str(NOT_AN_AUTHOR)),
    }
}

/// Reads the authors out of the items of a JSON array.
pub fn authors_from_json(items: &Vec<JsonValue>) -> (r: Result<Vec<Author>, String>)
    ensures
        r matches Ok(a) ==> authors_of_json(items@) == Ok::<Seq<AuthorView>, Seq<char>>(
            a@.map_values(|x: Author| x@),
        ),
        r matches Err(m) ==> authors_of_json(items@) == Err::<Seq<AuthorView>, Seq<char>>(m@),
{
    let mut authors: Vec<Author> = Vec::new();
    let mut i: usize = 0;
    assert(items@.subrange(0, 0) =~= Seq::<JsonValue>::empty());
    assert(authors@.map_values(|x: Author| x@) =~= Seq::<AuthorView>::empty());
    while i < items.len()
        invariant
            i <= items@.len(),
            authors_of_json(items@.subrange(0, i as int)) == Ok::<Seq<AuthorView>, Seq<char>>(
                authors@.map_values(|x: Author| x@),
            ),
        decreases items@.len() - i,
    {
        assert(items@.subrange(0, i + 1).drop_last() =~= items@.subrange(0, i as int));
        assert(items@.subrange(0, i + 1).last() == items@[i as int]);
        match author_from_json(&items[i]) {
            Ok(a) => {
                let ghost before = authors@;
                authors.push(a);
                assert(authors@.map_values(|x: Author| x@) =~= before.map_values(|x: Author| x@).push(
                    a@,
                ));
            },
            Err(m) => {
                proof {
                    lemma_authors_fault_persists(items@, i + 1, m@);
                }
                return Err(m);
            },
        }
        i = i + 1;
    }
    assert(items@.subrange(0, i as int) =~= items@);
    Ok(authors)
}

/// Reads a configuration out of a JSON document, or says what is missing or
/// of the wrong kind.
pub fn config_from_json(v: &JsonValue) -> (r: Result<Config, String>)
    ensures
        r matches Ok(c) ==> config_of_json(*v) == Ok::<ConfigView, Seq<char>>(c@),
        r matches Err(m) ==> config_of_json(*v) == Err::<ConfigView, Seq<char>>(m@),
{
    match v {
        JsonValue::Object(members) => {
            let title = match text_member_of(members, "title") {
                Ok(title) => title,
                Err(m) => {
                    return Err(m);
                },
            };
            let authors_key = String::from_str("authors");
            match find_field(members, &authors_key) {
                None => Err(missing_field("authors")),
                Some(k) => match &members[k].1 {
                    JsonValue::Array(items) => match authors_from_json(items) {
                        Ok(authors) => Ok(Config { title, authors }),
                        Err(m) => Err(m),
                    },
                    _ => Err(mistyped_field("authors", "an array")),
                },
            }
        },
        _ => Err(String::from_str(NOT_A_CONFIG)),
    }
}

} // verus!
