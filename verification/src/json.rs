use vstd::prelude::*;

verus! {

/// The mathematical model of a JSON document.
pub enum Json {
    Null,
    Bool(bool),
    /// A number, held as the text of its literal.
    Number(Seq<char>),
    Str(Seq<char>),
    Array(Seq<Json>),
    /// An object: its members in order.
    Object(Seq<(Seq<char>, Json)>),
}

/// The position of the first member named `key` at or after `i`.
pub open spec fn member_index_from(fields: Seq<(Seq<char>, Json)>, key: Seq<char>, i: int) -> Option<int>
    decreases fields.len() - i,
{
    if i < 0 || i >= fields.len() {
        None
    } else if fields[i].0 == key {
        Some(i)
    } else {
        member_index_from(fields, key, i + 1)
    }
}

/// The position of the first member named `key`.
pub open spec fn member_index(fields: Seq<(Seq<char>, Json)>, key: Seq<char>) -> Option<int> {
    member_index_from(fields, key, 0)
}

/// The value of the first member named `key`, as a lookup in an object gives it.
pub open spec fn member(fields: Seq<(Seq<char>, Json)>, key: Seq<char>) -> Option<Json> {
    match member_index(fields, key) {
        Some(i) => Some(fields[i].1),
        None => None,
    }
}

/// The members after the member `key` is set to `v`: replaced in place where it
/// exists, appended where it does not.
pub open spec fn with_member(fields: Seq<(Seq<char>, Json)>, key: Seq<char>, v: Json) -> Seq<(Seq<char>, Json)> {
    match member_index(fields, key) {
        Some(i) => fields.update(i, (key, v)),
        None => fields.push((key, v)),
    }
}

impl Json {
    /// The member `key` of an object; nothing for other values.
    pub open spec fn get(self, key: Seq<char>) -> Option<Json> {
        match self {
            Json::Object(fields) => member(fields, key),
            _ => None,
        }
    }

    /// The text of a string value.
    pub open spec fn as_str(self) -> Option<Seq<char>> {
        match self {
            Json::Str(s) => Some(s),
            _ => None,
        }
    }
}

/// What the first-member search finds.
pub proof fn lemma_member_index_from(fields: Seq<(Seq<char>, Json)>, key: Seq<char>, i: int)
    requires
        0 <= i,
    ensures
        match member_index_from(fields, key, i) {
            Some(j) => {
                &&& i <= j < fields.len()
                &&& fields[j].0 == key
                &&& forall|k: int| i <= k < j ==> fields[k].0 != key
            },
            None => forall|k: int| i <= k < fields.len() ==> fields[k].0 != key,
        },
    decreases fields.len() - i,
{
    if i >= fields.len() {
    } else if fields[i].0 == key {
    } else {
        lemma_member_index_from(fields, key, i + 1);
    }
}

/// The first-member search, read as a statement about all positions.
pub proof fn lemma_member_index(fields: Seq<(Seq<char>, Json)>, key: Seq<char>)
    ensures
        match member_index(fields, key) {
            Some(j) => {
                &&& 0 <= j < fields.len()
                &&& fields[j].0 == key
                &&& forall|k: int| 0 <= k < j ==> fields[k].0 != key
            },
            None => forall|k: int| 0 <= k < fields.len() ==> fields[k].0 != key,
        },
{
    lemma_member_index_from(fields, key, 0);
}

/// A position that satisfies the description of the first member is the one found.
pub proof fn lemma_member_index_unique(fields: Seq<(Seq<char>, Json)>, key: Seq<char>, j: int)
    requires
        0 <= j < fields.len(),
        fields[j].0 == key,
        forall|k: int| 0 <= k < j ==> fields[k].0 != key,
    ensures
        member_index(fields, key) == Some(j),
{
    lemma_member_index(fields, key);
    match member_index(fields, key) {
        Some(i) => {
            if i < j {
            } else if i > j {
            }
        },
        None => {},
    }
}

/// No member is named `key`, so the search finds nothing.
pub proof fn lemma_member_index_none(fields: Seq<(Seq<char>, Json)>, key: Seq<char>)
    requires
        forall|k: int| 0 <= k < fields.len() ==> fields[k].0 != key,
    ensures
        member_index(fields, key) is None,
{
    lemma_member_index(fields, key);
}

/// Setting a member: the member reads back, the others keep their values.
pub proof fn lemma_with_member(fields: Seq<(Seq<char>, Json)>, key: Seq<char>, v: Json, other: Seq<char>)
    ensures
        member(with_member(fields, key, v), key) == Some(v),
        other != key ==> member(with_member(fields, key, v), other) == member(fields, other),
        member_index(fields, key) is Some ==> with_member(fields, key, v).len() == fields.len(),
        member_index(fields, key) is None ==> with_member(fields, key, v).len() == fields.len() + 1,
{
    let w = with_member(fields, key, v);
    lemma_member_index(fields, key);
    lemma_member_index(fields, other);
    match member_index(fields, key) {
        Some(i) => {
            lemma_member_index_unique(w, key, i);
            if other != key {
                match member_index(fields, other) {
                    Some(j) => lemma_member_index_unique(w, other, j),
                    None => lemma_member_index_none(w, other),
                }
            }
        },
        None => {
            lemma_member_index_unique(w, key, fields.len() as int);
            if other != key {
                match member_index(fields, other) {
                    Some(j) => lemma_member_index_unique(w, other, j),
                    None => lemma_member_index_none(w, other),
                }
            }
        },
    }
}

/// Setting a member to the value it already has changes nothing.
pub proof fn lemma_with_member_same(fields: Seq<(Seq<char>, Json)>, key: Seq<char>, v: Json)
    requires
        member(fields, key) == Some(v),
    ensures
        with_member(fields, key, v) == fields,
{
    lemma_member_index(fields, key);
    let i = member_index(fields, key)->0;
    assert(fields.update(i, (key, v)) =~= fields);
}

/// A JSON document as the library carries it.
#[derive(Debug, PartialEq)]
pub enum JsonValue {
    Null,
    Bool(bool),
    Number(String),
    Str(String),
    Array(Vec<JsonValue>),
    Object(Vec<(String, JsonValue)>),
}

/// The position of the first member named `key`.
pub fn find_member(fields: &Vec<(String, JsonValue)>, key: &String) -> (r: Option<usize>)
    ensures
        match r {
            Some(i) => member_index(fields_model(fields@), key@) == Some(i as int),
            None => member_index(fields_model(fields@), key@) is None,
        },
{
    let ghost fm = fields_model(fields@);
    let mut i: usize = 0;
    while i < fields.len()
        invariant
            i <= fields.len(),
            fm == fields_model(fields@),
            forall|k: int| 0 <= k < i ==> fm[k].0 != key@,
        decreases fields.len() - i,
    {
        if fields[i].0 == *key {
            proof {
                lemma_member_index_unique(fm, key@, i as int);
            }
            return Some(i);
        }
        i = i + 1;
    }
    proof {
        lemma_member_index_none(fm, key@);
    }
    None
}

/// Sets the member `key` to `v`: in place where it exists, appended where it does not.
pub fn set_member(fields: &mut Vec<(String, JsonValue)>, key: &str, v: JsonValue)
    ensures
        fields_model(final(fields)@) == with_member(fields_model(old(fields)@), key@, v.model()),
{
    let k = String::from_str(key);
    let ghost vm = v.model();
    proof {
        lemma_member_index(fields_model(fields@), key@);
    }
    match find_member(fields, &k) {
        Some(i) => {
            fields.set(i, (k, v));
            assert(fields_model(fields@) =~= with_member(fields_model(old(fields)@), key@, vm));
        },
        None => {
            fields.push((k, v));
            assert(fields_model(fields@) =~= with_member(fields_model(old(fields)@), key@, vm));
        },
    }
}

/// The models of a list of values.
pub open spec fn items_model(items: Seq<JsonValue>) -> Seq<Json> {
    Seq::new(items.len(), |i: int| items[i].model())
}

/// The models of the members of an object.
pub open spec fn fields_model(fields: Seq<(String, JsonValue)>) -> Seq<(Seq<char>, Json)> {
    Seq::new(fields.len(), |i: int| (fields[i].0@, fields[i].1.model()))
}

impl JsonValue {
    /// The document this value stands for.
    pub open spec fn model(self) -> Json
        decreases self,
    {
        match self {
            JsonValue::Null => Json::Null,
            JsonValue::Bool(b) => Json::Bool(b),
            JsonValue::Number(n) => Json::Number(n@),
            JsonValue::Str(s) => Json::Str(s@),
            JsonValue::Array(items) => Json::Array(
                Seq::new(
                    items.len() as nat,
                    |i: int|
                        if 0 <= i < items.len() {
                            items[i].model()
                        } else {
                            Json::Null
                        },
                ),
            ),
            JsonValue::Object(fields) => Json::Object(
                Seq::new(
                    fields.len() as nat,
                    |i: int|
                        if 0 <= i < fields.len() {
                            (fields[i].0@, fields[i].1.model())
                        } else {
                            (Seq::empty(), Json::Null)
                        },
                ),
            ),
        }
    }

    /// The model of an array or an object, through its elements.
    pub proof fn lemma_model_parts(self)
        ensures
            self matches JsonValue::Array(items) ==> self.model() == Json::Array(items_model(items@)),
            self matches JsonValue::Object(fields) ==> self.model() == Json::Object(fields_model(fields@)),
    {
        match self {
            JsonValue::Array(items) => {
                assert(self.model()->Array_0 =~= items_model(items@));
            },
            JsonValue::Object(fields) => {
                assert(self.model()->Object_0 =~= fields_model(fields@));
            },
            _ => {},
        }
    }

    /// The member `key` of an object; nothing for other values.
    pub fn get(&self, key: &str) -> (r: Option<&JsonValue>)
        ensures
            match r {
                Some(v) => self.model().get(key@) == Some(v.model()),
                None => self.model().get(key@) is None,
            },
    {
        proof {
            self.lemma_model_parts();
        }
        match self {
            JsonValue::Object(fields) => {
                let k = String::from_str(key);
                proof {
                    lemma_member_index(fields_model(fields@), key@);
                }
                match find_member(fields, &k) {
                    Some(i) => Some(&fields[i].1),
                    None => None,
                }
            },
            _ => None,
        }
    }

    /// The text of a string value.
    pub fn as_str(&self) -> (r: Option<&String>)
        ensures
            match r {
                Some(s) => self.model().as_str() == Some(s@),
                None => self.model().as_str() is None,
            },
    {
        match self {
            JsonValue::Str(s) => Some(s),
            _ => None,
        }
    }

    /// A string value with the text of `s`.
    pub fn string(s: &str) -> (r: JsonValue)
        ensures
            r.model() == Json::Str(s@),
    {
        JsonValue::Str(String::from_str(s))
    }

    /// A copy of this value, member by member.
    #[verifier::loop_isolation(false)]
    pub fn deep_copy(&self) -> (r: JsonValue)
        ensures
            r.model() == self.model(),
        decreases self,
    {
        match self {
            JsonValue::Null => JsonValue::Null,
            JsonValue::Bool(b) => JsonValue::Bool(*b),
            JsonValue::Number(n) => JsonValue::Number(n.clone()),
            JsonValue::Str(s) => JsonValue::Str(s.clone()),
            JsonValue::Array(items) => {
                let mut out: Vec<JsonValue> = Vec::new();
                let mut i: usize = 0;
                while i < items.len()
                    invariant
                        i <= items.len(),
                        out.len() == i,
                        forall|k: int| 0 <= k < i ==> #[trigger] out@[k].model() == items@[k].model(),
                    decreases items.len() - i,
                {
                    proof {
                        assert(decreases_to!(items => items[i as int]));
                    }
                    let c = items[i].deep_copy();
                    out.push(c);
                    i = i + 1;
                }
                let r = JsonValue::Array(out);
                proof {
                    self.lemma_model_parts();
                    r.lemma_model_parts();
                    assert(items_model(out@) =~= items_model(items@));
                }
                r
            },
            JsonValue::Object(fields) => {
                let mut out: Vec<(String, JsonValue)> = Vec::new();
                let mut i: usize = 0;
                while i < fields.len()
                    invariant
                        i <= fields.len(),
                        out.len() == i,
                        forall|k: int|
                            0 <= k < i ==> (#[trigger] out@[k]).0@ == fields@[k].0@ && out@[k].1.model()
                                == fields@[k].1.model(),
                    decreases fields.len() - i,
                {
                    proof {
                        assert(decreases_to!(fields => fields[i as int]));
                    }
                    let c = fields[i].1.deep_copy();
                    let k = fields[i].0.clone();
                    out.push((k, c));
                    i = i + 1;
                }
                let r = JsonValue::Object(out);
                proof {
                    self.lemma_model_parts();
                    r.lemma_model_parts();
                    assert(fields_model(out@) =~= fields_model(fields@));
                }
                r
            },
        }
    }
}

} // verus!
