//! A JSON document tree: what the configuration file holds once its text
//! has been parsed, and what is printed back into it.
use vstd::prelude::*;

verus! {

/// A JSON value. Object members keep the order in which they were written.
#[derive(Debug)]
pub enum Json {
    Null,
    Bool(bool),
    /// A number; `Some(n)` when it is a non-negative integer that fits in
    /// a `u64`, `None` for any other number (negative, fractional, too big).
    Number(Option<u64>),
    Str(String),
    Array(Vec<Json>),
    Object(Vec<(String, Json)>),
}

/// An optional borrowed value, as a value.
pub open spec fn deref_opt(j: Option<&Json>) -> Option<Json> {
    match j {
        Some(v) => Some(*v),
        None => None,
    }
}

/// The value of the first member named `key`, if any.
pub open spec fn lookup(fields: Seq<(String, Json)>, key: Seq<char>) -> Option<Json>
    decreases fields.len(),
{
    if fields.len() == 0 {
        None
    } else if fields[0].0@ == key {
        Some(fields[0].1)
    } else {
        lookup(fields.drop_first(), key)
    }
}

/// The member `key` of `j`, when `j` is an object that has one.
pub open spec fn member(j: Json, key: Seq<char>) -> Option<Json> {
    match j {
        Json::Object(fields) => lookup(fields@, key),
        _ => None,
    }
}

/// The text of a string value.
pub open spec fn as_text(j: Option<Json>) -> Option<Seq<char>> {
    match j {
        Some(Json::Str(s)) => Some(s@),
        _ => None,
    }
}

/// A number that fits in 16 unsigned bits.
pub open spec fn as_u16(j: Option<Json>) -> Option<u16> {
    match j {
        Some(Json::Number(Some(n))) => if n <= 65535 {
            Some(n as u16)
        } else {
            None
        },
        _ => None,
    }
}

/// An array whose items are all strings, as the sequence of their texts.
pub open spec fn as_texts(j: Option<Json>) -> Option<Seq<Seq<char>>> {
    match j {
        Some(Json::Array(a)) => if forall|i: int| 0 <= i < a@.len() ==> (#[trigger] a@[i]) is Str {
            Some(a@.map_values(|x: Json| x->Str_0@))
        } else {
            None
        },
        _ => None,
    }
}

/// `j` is an array of string values holding `texts`, in order.
pub open spec fn is_texts(j: Json, texts: Seq<Seq<char>>) -> bool {
    &&& j is Array
    &&& j->Array_0@.len() == texts.len()
    &&& forall|i: int|
        0 <= i < texts.len() ==> (#[trigger] j->Array_0@[i]) is Str && j->Array_0@[i]->Str_0@
            == texts[i]
}

/// `j` is a string value holding `text`.
pub open spec fn is_text(j: Json, text: Seq<char>) -> bool {
    j is Str && j->Str_0@ == text
}

/// The member names of an object, in order.
pub open spec fn keys_of(j: Json) -> Seq<Seq<char>> {
    j->Object_0@.map_values(|f: (String, Json)| f.0@)
}

/// Member `i` of the object `j`, when it has that many.
pub open spec fn field(j: Json, i: int) -> Json {
    j->Object_0@[i].1
}

proof fn lemma_lookup_skip(fields: Seq<(String, Json)>, i: int, key: Seq<char>)
    requires
        0 <= i <= fields.len(),
        forall|k: int| 0 <= k < i ==> (#[trigger] fields[k]).0@ != key,
    ensures
        lookup(fields, key) == lookup(fields.subrange(i, fields.len() as int), key),
    decreases i,
{
    if i > 0 {
        assert(fields.drop_first().subrange(i - 1, fields.len() - 1) =~= fields.subrange(
            i,
            fields.len() as int,
        ));
        assert forall|k: int| 0 <= k < i - 1 implies (#[trigger] fields.drop_first()[k]).0@
            != key by {
            assert(fields.drop_first()[k] == fields[k + 1]);
        }
        lemma_lookup_skip(fields.drop_first(), i - 1, key);
    } else {
        assert(fields.subrange(0, fields.len() as int) =~= fields);
    }
}

/// In an object whose member names are all different, the member named
/// like member `i` is member `i`.
pub proof fn lemma_lookup_distinct(j: Json, i: int)
    requires
        j is Object,
        0 <= i < keys_of(j).len(),
        keys_of(j).no_duplicates(),
    ensures
        member(j, keys_of(j)[i]) == Some(field(j, i)),
{
    let fields = j->Object_0@;
    let key = keys_of(j)[i];
    assert forall|k: int| 0 <= k < i implies (#[trigger] fields[k]).0@ != key by {
        assert(keys_of(j)[k] == fields[k].0@);
    }
    lemma_lookup_skip(fields, i, key);
    let rest = fields.subrange(i, fields.len() as int);
    assert(rest[0] == fields[i]);
}

impl Json {
    /// The member `key` of this value, when it is an object that has one;
    /// the first such member when the key is repeated.
    pub fn member(&self, key: &str) -> (r: Option<&Json>)
        ensures
            deref_opt(r) == member(*self, key@),
    {
        match self {
            Json::Object(fields) => {
                let k = key.to_string();
                let mut i: usize = 0;
                while i < fields.len()
                    invariant
                        i <= fields.len(),
                        k@ == key@,
                        *self == Json::Object(*fields),
                        forall|j: int| 0 <= j < i ==> (#[trigger] fields@[j]).0@ != key@,
                    decreases fields.len() - i,
                {
                    if fields[i].0 == k {
                        proof {
                            lemma_lookup_skip(fields@, i as int, key@);
                            assert(fields@.subrange(i as int, fields@.len() as int)[0]
                                == fields@[i as int]);
                        }
                        return Some(&fields[i].1);
                    }
                    i = i + 1;
                }
                proof {
                    lemma_lookup_skip(fields@, i as int, key@);
                }
                None
            },
            _ => None,
        }
    }

    /// The text of a string value.
    pub fn text_of(j: Option<&Json>) -> (r: Option<String>)
        ensures
            match r {
                Some(s) => as_text(deref_opt(j)) == Some(s@),
                None => as_text(deref_opt(j)) is None,
            },
    {
        match j {
            Some(Json::Str(s)) => Some(s.clone()),
            _ => None,
        }
    }

    /// The number held by a value, when it fits in 16 unsigned bits.
    pub fn u16_of(j: Option<&Json>) -> (r: Option<u16>)
        ensures
            r == as_u16(deref_opt(j)),
    {
        match j {
            Some(Json::Number(Some(n))) => if *n <= 65535 {
                Some(*n as u16)
            } else {
                None
            },
            _ => None,
        }
    }

    /// The texts of an array of strings.
    pub fn texts_of(j: Option<&Json>) -> (r: Option<Vec<String>>)
        ensures
            match r {
                Some(v) => as_texts(deref_opt(j)) == Some(v@.map_values(|s: String| s@)),
                None => as_texts(deref_opt(j)) is None,
            },
    {
        match j {
            Some(Json::Array(items)) => {
                let mut out: Vec<String> = Vec::new();
                let mut i: usize = 0;
                while i < items.len()
                    invariant
                        i <= items.len(),
                        deref_opt(j) == Some(Json::Array(*items)),
                        out@.len() == i,
                        forall|k: int|
                            0 <= k < i ==> (#[trigger] items@[k]) is Str && items@[k]->Str_0@
                                == out@[k]@,
                    decreases items.len() - i,
                {
                    match &items[i] {
                        Json::Str(s) => {
                            out.push(s.clone());
                        },
                        _ => {
                            assert(!(items@[i as int] is Str));
                            return None;
                        },
                    }
                    i = i + 1;
                }
                assert(items@.map_values(|x: Json| x->Str_0@) =~= out@.map_values(
                    |s: String| s@,
                ));
                Some(out)
            },
            _ => None,
        }
    }

    /// A string value for each text, in order.
    pub fn from_texts(texts: &Vec<String>) -> (r: Json)
        ensures
            is_texts(r, texts@.map_values(|s: String| s@)),
    {
        let mut items: Vec<Json> = Vec::new();
        let mut i: usize = 0;
        while i < texts.len()
            invariant
                i <= texts.len(),
                items@.len() == i,
                forall|k: int|
                    0 <= k < i ==> (#[trigger] items@[k]) is Str && items@[k]->Str_0@
                        == texts@[k]@,
            decreases texts.len() - i,
        {
            items.push(Json::Str(texts[i].clone()));
            i = i + 1;
        }
        Json::Array(items)
    }
}

} // verus!
