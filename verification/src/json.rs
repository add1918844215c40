//! JSON values as the queue stores them: the payload of a job and its tags.

use vstd::prelude::*;

use crate::text::{optional_texts, texts};

verus! {

/// A JSON value. A number is held as the text of its literal.
#[derive(Debug, PartialEq, Eq)]
pub enum Json {
    Null,
    Bool(bool),
    Number(String),
    Text(String),
    Array(Vec<Json>),
    Object(Vec<(String, Json)>),
}

/// The mathematical value of a [`Json`].
pub enum JsonValue {
    Null,
    Bool(bool),
    Number(Seq<char>),
    Text(Seq<char>),
    Array(Seq<JsonValue>),
    Object(Seq<(Seq<char>, JsonValue)>),
}

/// The value of a [`Json`]: its structure, with every string and container
/// replaced by its view.
pub open spec fn value_of(json: Json) -> JsonValue
    decreases json,
{
    match json {
        Json::Null => JsonValue::Null,
        Json::Bool(b) => JsonValue::Bool(b),
        Json::Number(n) => JsonValue::Number(n@),
        Json::Text(s) => JsonValue::Text(s@),
        Json::Array(items) => JsonValue::Array(
            Seq::new(
                items@.len(),
                |i: int|
                    if 0 <= i < items@.len() {
                        value_of(items@[i])
                    } else {
                        JsonValue::Null
                    },
            ),
        ),
        Json::Object(members) => JsonValue::Object(
            Seq::new(
                members@.len(),
                |i: int|
                    if 0 <= i < members@.len() {
                        (members@[i].0@, value_of(members@[i].1))
                    } else {
                        (Seq::empty(), JsonValue::Null)
                    },
            ),
        ),
    }
}

impl View for Json {
    type V = JsonValue;

    open spec fn view(&self) -> JsonValue {
        value_of(*self)
    }
}

/// The values of a sequence of items, one for one.
pub open spec fn values_of(items: Seq<Json>) -> Seq<JsonValue> {
    Seq::new(items.len(), |i: int| items[i]@)
}

/// The keys and values of the members of an object, one for one.
pub open spec fn members_of(members: Seq<(String, Json)>) -> Seq<(Seq<char>, JsonValue)> {
    Seq::new(members.len(), |i: int| (members[i].0@, members[i].1@))
}

/// The key under which a failure is recorded in the payload of a job.
pub open spec fn error_key() -> Seq<char> {
    "error"@
}

impl JsonValue {
    /// The array whose items are the given strings.
    pub open spec fn strings(texts: Seq<Seq<char>>) -> JsonValue {
        JsonValue::Array(Seq::new(texts.len(), |i: int| JsonValue::Text(texts[i])))
    }

    /// Whether the value is an array all of whose items are strings.
    pub open spec fn is_strings(self) -> bool {
        match self {
            JsonValue::Array(items) => forall|i: int|
                0 <= i < items.len() ==> (#[trigger] items[i]) is Text,
            _ => false,
        }
    }

    /// The strings of an array of strings; nothing for any other value.
    pub open spec fn as_strings(self) -> Option<Seq<Seq<char>>> {
        match self {
            JsonValue::Array(items) => if self.is_strings() {
                Some(Seq::new(items.len(), |i: int| items[i]->Text_0))
            } else {
                None
            },
            _ => None,
        }
    }

    /// The object `{"error": message}`.
    pub open spec fn error_object(message: Seq<char>) -> JsonValue {
        JsonValue::Object(seq![(error_key(), JsonValue::Text(message))])
    }

    /// The value that the concatenation of `{"error": message}` to this one
    /// gives. In an object the key is set, and any earlier member under it
    /// leaves; an array gets the error object as its last item; any other
    /// value becomes the first of two items, the error object the second.
    pub open spec fn with_error(self, message: Seq<char>) -> JsonValue {
        match self {
            JsonValue::Object(members) => JsonValue::Object(
                members.filter(|m: (Seq<char>, JsonValue)| m.0 != error_key()).push(
                    (error_key(), JsonValue::Text(message)),
                ),
            ),
            JsonValue::Array(items) => JsonValue::Array(
                items.push(JsonValue::error_object(message)),
            ),
            other => JsonValue::Array(seq![other, JsonValue::error_object(message)]),
        }
    }

    /// The message recorded by the last failure, where the value holds one at
    /// the place where [`JsonValue::with_error`] puts it.
    pub open spec fn recorded_error(self) -> Option<Seq<char>> {
        match self {
            JsonValue::Object(members) => if members.len() > 0 && members.last().0 == error_key()
                && members.last().1 is Text {
                Some(members.last().1->Text_0)
            } else {
                None
            },
            JsonValue::Array(items) => if items.len() > 0 {
                match items.last() {
                    JsonValue::Object(members) => if members.len() == 1 && members[0].0
                        == error_key() && members[0].1 is Text {
                        Some(members[0].1->Text_0)
                    } else {
                        None
                    },
                    _ => None,
                }
            } else {
                None
            },
            _ => None,
        }
    }
}

/// The view of an array is the values of its items, and the view of an object
/// the keys and values of its members.
pub proof fn lemma_view_of_containers(json: Json)
    ensures
        json matches Json::Array(items) ==> json@ == JsonValue::Array(values_of(items@)),
        json matches Json::Object(members) ==> json@ == JsonValue::Object(members_of(members@)),
{
    match json {
        Json::Array(items) => {
            assert(json@->Array_0 =~= values_of(items@));
        },
        Json::Object(members) => {
            assert(json@->Object_0 =~= members_of(members@));
        },
        _ => {},
    }
}

/// Reading an array of strings back gives the strings.
pub proof fn lemma_strings_roundtrip(texts: Seq<Seq<char>>)
    ensures
        JsonValue::strings(texts).is_strings(),
        JsonValue::strings(texts).as_strings() == Some(texts),
{
}

/// A value to which an error was concatenated holds its message.
pub proof fn lemma_with_error_records(data: JsonValue, message: Seq<char>)
    ensures
        data.with_error(message).recorded_error() == Some(message),
{
}

impl Json {
    /// The array whose items are the given strings.
    pub fn strings(list: &[String]) -> (json: Json)
        ensures
            json@ == JsonValue::strings(texts(list@)),
    {
        let mut items: Vec<Json> = Vec::new();
        let mut i: usize = 0;
        while i < list.len()
            invariant
                i <= list.len(),
                items@.len() == i,
                forall|k: int| 0 <= k < i ==> (#[trigger] items@[k])@ == JsonValue::Text(list@[k]@),
            decreases list.len() - i,
        {
            items.push(Json::Text(list[i].clone()));
            i += 1;
        }
        let json = Json::Array(items);
        proof {
            lemma_view_of_containers(json);
            assert(values_of(items@) =~= JsonValue::strings(texts(list@))->Array_0);
        }
        json
    }

    /// The strings of an array of strings; nothing for any other value, an
    /// array with an item that is no string among them.
    pub fn as_strings(&self) -> (list: Option<Vec<String>>)
        ensures
            optional_texts(list) == self@.as_strings(),
    {
        proof {
            lemma_view_of_containers(*self);
        }
        match self {
            Json::Array(items) => {
                let mut list: Vec<String> = Vec::new();
                let mut i: usize = 0;
                while i < items.len()
                    invariant
                        i <= items.len(),
                        list@.len() == i,
                        self@ == JsonValue::Array(values_of(items@)),
                        forall|k: int| 0 <= k < i ==> (#[trigger] items@[k]@) is Text,
                        forall|k: int|
                            0 <= k < i ==> (#[trigger] list@[k])@ == items@[k]@->Text_0,
                    decreases items.len() - i,
                {
                    match &items[i] {
                        Json::Text(s) => {
                            list.push(s.clone());
                        },
                        _ => {
                            assert(!(values_of(items@)[i as int] is Text));
                            return None;
                        },
                    }
                    i += 1;
                }
                Some(list)
            },
            _ => None,
        }
    }

    /// The object `{"error": message}`.
    pub fn error_object(message: &str) -> (json: Json)
        ensures
            json@ == JsonValue::error_object(message@),
    {
        let mut members: Vec<(String, Json)> = Vec::new();
        members.push(("error".to_owned(), Json::Text(message.to_owned())));
        let json = Json::Object(members);
        proof {
            lemma_view_of_containers(json);
            assert(members_of(members@) =~= seq![(error_key(), JsonValue::Text(message@))]);
        }
        json
    }

    /// The value that the concatenation of `{"error": message}` to this one
    /// gives.
    pub fn with_error(&self, message: &str) -> (json: Json)
        ensures
            json@ == self@.with_error(message@),
    {
        proof {
            lemma_view_of_containers(*self);
        }
        match self {
            Json::Object(members) => {
                let error_name = "error".to_owned();
                let ghost keep = |m: (Seq<char>, JsonValue)| m.0 != error_key();
                let mut out: Vec<(String, Json)> = Vec::new();
                let mut i: usize = 0;
                while i < members.len()
                    invariant
                        i <= members.len(),
                        error_name@ == error_key(),
                        keep == (|m: (Seq<char>, JsonValue)| m.0 != error_key()),
                        members_of(out@) == members_of(members@).take(i as int).filter(keep),
                    decreases members.len() - i,
                {
                    if members[i].0 != error_name {
                        out.push((members[i].0.clone(), members[i].1.clone()));
                    }
                    proof {
                        let all = members_of(members@);
                        assert(all.take(i + 1) =~= all.take(i as int).push(all[i as int]));
                        all.take(i as int).lemma_filter_push(all[i as int], keep);
                    }
                    i += 1;
                }
                proof {
                    assert(members_of(members@).take(i as int) =~= members_of(members@));
                }
                let ghost kept = members_of(out@);
                out.push((error_name, Json::Text(message.to_owned())));
                let json = Json::Object(out);
                proof {
                    lemma_view_of_containers(json);
                    assert(members_of(out@) =~= kept.push(
                        (error_key(), JsonValue::Text(message@)),
                    ));
                }
                json
            },
            Json::Array(items) => {
                let mut out: Vec<Json> = Vec::new();
                let mut i: usize = 0;
                while i < items.len()
                    invariant
                        i <= items.len(),
                        out@.len() == i,
                        forall|k: int| 0 <= k < i ==> (#[trigger] out@[k])@ == items@[k]@,
                    decreases items.len() - i,
                {
                    out.push(items[i].clone());
                    i += 1;
                }
                out.push(Json::error_object(message));
                let json = Json::Array(out);
                proof {
                    lemma_view_of_containers(json);
                    assert(values_of(out@) =~= values_of(items@).push(
                        JsonValue::error_object(message@),
                    ));
                }
                json
            },
            _ => {
                let mut out: Vec<Json> = Vec::new();
                out.push(self.clone());
                out.push(Json::error_object(message));
                let json = Json::Array(out);
                proof {
                    lemma_view_of_containers(json);
                    assert(values_of(out@) =~= seq![self@, JsonValue::error_object(message@)]);
                }
                json
            },
        }
    }
}

impl Clone for Json {
    fn clone(&self) -> (copy: Json)
        ensures
            copy@ == self@,
        decreases self,
    {
        proof {
            lemma_view_of_containers(*self);
        }
        let copy = match self {
            Json::Null => Json::Null,
            Json::Bool(b) => Json::Bool(*b),
            Json::Number(n) => Json::Number(n.clone()),
            Json::Text(s) => Json::Text(s.clone()),
            Json::Array(items) => {
                let mut out: Vec<Json> = Vec::new();
                let mut i: usize = 0;
                while i < items.len()
                    invariant
                        i <= items.len(),
                        out@.len() == i,
                        forall|k: int| 0 <= k < i ==> (#[trigger] out@[k])@ == items@[k]@,
                        *self == Json::Array(*items),
                    decreases items.len() - i,
                {
                    proof {
                        assert(decreases_to!(*self => self->Array_0));
                    }
                    let item = items[i].clone();
                    out.push(item);
                    i += 1;
                }
                assert(values_of(out@) =~= values_of(items@));
                Json::Array(out)
            },
            Json::Object(members) => {
                let mut out: Vec<(String, Json)> = Vec::new();
                let mut i: usize = 0;
                while i < members.len()
                    invariant
                        i <= members.len(),
                        out@.len() == i,
                        forall|k: int|
                            0 <= k < i ==> (#[trigger] out@[k]).0@ == members@[k].0@ && out@[k].1@
                                == members@[k].1@,
                        *self == Json::Object(*members),
                    decreases members.len() - i,
                {
                    let key = members[i].0.clone();
                    proof {
                        assert(decreases_to!(*self => self->Object_0));
                    }
                    let value = members[i].1.clone();
                    out.push((key, value));
                    i += 1;
                }
                assert(members_of(out@) =~= members_of(members@));
                Json::Object(out)
            },
        };
        proof {
            lemma_view_of_containers(copy);
        }
        copy
    }
}

} // verus!
