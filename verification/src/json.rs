//! JSON values as the library holds them: schemas for tool definitions are built and
//! read as `JsonValue`, whose mathematical model is `Json`.

use vstd::prelude::*;

verus! {

/// The mathematical model of a JSON value. Object members keep their order.
pub enum Json {
    Null,
    Bool(bool),
    Number(int),
    Str(Seq<char>),
    Array(Seq<Json>),
    Object(Seq<(Seq<char>, Json)>),
}

/// A JSON value: null, a boolean, an integer, a string, an array, or an object given as
/// its members in order. Integers from 0 up are held as `Number`, negative ones as
/// `Negative`; fractional numbers are not held.
#[derive(Debug)]
pub enum JsonValue {
    Null,
    Bool(bool),
    Number(u64),
    Negative(i64),
    String(String),
    Array(Vec<JsonValue>),
    Object(Vec<(String, JsonValue)>),
}

impl JsonValue {
    /// The model of this value.
    pub open spec fn json(self) -> Json
        decreases self,
    {
        match self {
            JsonValue::Null => Json::Null,
            JsonValue::Bool(b) => Json::Bool(b),
            JsonValue::Number(n) => Json::Number(n as int),
            JsonValue::Negative(n) => Json::Number(n as int),
            JsonValue::String(s) => Json::Str(s@),
            JsonValue::Array(items) => Json::Array(json_items(items@)),
            JsonValue::Object(members) => Json::Object(json_members(members@)),
        }
    }
}

impl JsonValue {
    /// Well-formed: every `Negative` holds a value below zero, so that each integer has
    /// exactly one holding (`Number` from zero up, `Negative` below).
    pub open spec fn wf(self) -> bool
        decreases self,
    {
        match self {
            JsonValue::Negative(n) => n < 0,
            JsonValue::Array(items) => wf_items(items@),
            JsonValue::Object(members) => wf_members(members@),
            _ => true,
        }
    }
}

/// Every value of the sequence is well-formed.
pub open spec fn wf_items(items: Seq<JsonValue>) -> bool
    decreases items,
{
    if items.len() == 0 {
        true
    } else {
        wf_items(items.drop_last()) && items.last().wf()
    }
}

/// Every member value of the sequence is well-formed.
pub open spec fn wf_members(members: Seq<(String, JsonValue)>) -> bool
    decreases members,
{
    if members.len() == 0 {
        true
    } else {
        wf_members(members.drop_last()) && members.last().1.wf()
    }
}

/// Law: a sequence of values is well-formed exactly when each value is.
pub proof fn lemma_wf_items(items: Seq<JsonValue>)
    ensures
        wf_items(items) <==> forall|i: int| 0 <= i < items.len() ==> #[trigger] items[i].wf(),
    decreases items.len(),
{
    if items.len() > 0 {
        let init = items.drop_last();
        lemma_wf_items(init);
        assert(wf_items(items) == (wf_items(init) && items.last().wf()));
        if wf_items(items) {
            assert forall|i: int| 0 <= i < items.len() implies #[trigger] items[i].wf() by {
                if i < items.len() - 1 {
                    assert(init[i] == items[i]);
                    assert(init[i].wf());
                }
            }
        }
        if forall|i: int| 0 <= i < items.len() ==> #[trigger] items[i].wf() {
            assert forall|i: int| 0 <= i < init.len() implies #[trigger] init[i].wf() by {
                assert(init[i] == items[i]);
                assert(items[i].wf());
            }
            assert(items[items.len() - 1] == items.last());
        }
    }
}

/// Law: a sequence of members is well-formed exactly when each member value is.
pub proof fn lemma_wf_members(members: Seq<(String, JsonValue)>)
    ensures
        wf_members(members) <==> forall|i: int| 0 <= i < members.len() ==> #[trigger] members[i].1.wf(),
    decreases members.len(),
{
    if members.len() > 0 {
        let init = members.drop_last();
        lemma_wf_members(init);
        assert(wf_members(members) == (wf_members(init) && members.last().1.wf()));
        if wf_members(members) {
            assert forall|i: int| 0 <= i < members.len() implies #[trigger] members[i].1.wf() by {
                if i < members.len() - 1 {
                    assert(init[i] == members[i]);
                    assert(init[i].1.wf());
                }
            }
        }
        if forall|i: int| 0 <= i < members.len() ==> #[trigger] members[i].1.wf() {
            assert forall|i: int| 0 <= i < init.len() implies #[trigger] init[i].1.wf() by {
                assert(init[i] == members[i]);
                assert(members[i].1.wf());
            }
            assert(members[members.len() - 1] == members.last());
        }
    }
}

/// The models of a sequence of values.
pub open spec fn json_items(items: Seq<JsonValue>) -> Seq<Json>
    decreases items,
{
    if items.len() == 0 {
        Seq::empty()
    } else {
        json_items(items.drop_last()).push(items.last().json())
    }
}

/// The models of a sequence of object members.
pub open spec fn json_members(members: Seq<(String, JsonValue)>) -> Seq<(Seq<char>, Json)>
    decreases members,
{
    if members.len() == 0 {
        Seq::empty()
    } else {
        json_members(members.drop_last()).push((members.last().0@, members.last().1.json()))
    }
}

/// Law: the model of a sequence of values is the sequence of their models.
pub proof fn lemma_json_items(items: Seq<JsonValue>)
    ensures
        json_items(items).len() == items.len(),
        forall|i: int| 0 <= i < items.len() ==> #[trigger] json_items(items)[i] == items[i].json(),
    decreases items.len(),
{
    if items.len() > 0 {
        lemma_json_items(items.drop_last());
    }
}

/// Law: the model of a sequence of members is the sequence of their keys' views
/// paired with their values' models.
pub proof fn lemma_json_members(members: Seq<(String, JsonValue)>)
    ensures
        json_members(members).len() == members.len(),
        forall|i: int|
            0 <= i < members.len() ==> #[trigger] json_members(members)[i] == (
                members[i].0@,
                members[i].1.json(),
            ),
    decreases members.len(),
{
    if members.len() > 0 {
        lemma_json_members(members.drop_last());
    }
}

/// `members[i]` is the first member whose key is `key`.
pub open spec fn is_first_member(members: Seq<(Seq<char>, Json)>, key: Seq<char>, i: int) -> bool {
    &&& 0 <= i < members.len()
    &&& members[i].0 == key
    &&& forall|j: int| 0 <= j < i ==> members[j].0 != key
}

/// Some member has the key `key`.
pub open spec fn has_member(members: Seq<(Seq<char>, Json)>, key: Seq<char>) -> bool {
    exists|i: int| 0 <= i < members.len() && members[i].0 == key
}

/// Member lookup: for an object, the value of the first member with the key; otherwise none.
pub open spec fn json_get(j: Json, key: Seq<char>) -> Option<Json> {
    match j {
        Json::Object(members) => if has_member(members, key) {
            Some(members[choose|i: int| is_first_member(members, key, i)].1)
        } else {
            None
        },
        _ => None,
    }
}

/// Law: member lookup in an object yields the value of the first member with the key.
pub proof fn lemma_first_member_unique(members: Seq<(Seq<char>, Json)>, key: Seq<char>, i: int)
    requires
        is_first_member(members, key, i),
    ensures
        has_member(members, key),
        (choose|k: int| is_first_member(members, key, k)) == i,
        json_get(Json::Object(members), key) == Some(members[i].1),
{
    let k = choose|k: int| is_first_member(members, key, k);
    assert(is_first_member(members, key, k));
    if k < i {
        assert(members[k].0 != key);
    }
    if i < k {
        assert(members[i].0 != key);
    }
}

impl JsonValue {
    /// The value of the first member named `key`, when this is an object that has one.
    pub fn get(&self, key: &str) -> (r: Option<&JsonValue>)
        ensures
            match r {
                Some(v) => json_get(self.json(), key@) == Some(v.json()) && (self.wf() ==> v.wf()),
                None => json_get(self.json(), key@) is None,
            },
    {
        match self {
            JsonValue::Object(members) => {
                proof {
                    lemma_json_members(members@);
                    lemma_wf_members(members@);
                }
                let wanted = key.to_owned();
                let n = members.len();
                let mut i: usize = 0;
                while i < n
                    invariant
                        n == members@.len(),
                        i <= n,
                        wanted@ == key@,
                        self.json() == Json::Object(json_members(members@)),
                        self.wf() == wf_members(members@),
                        wf_members(members@) ==> forall|j: int|
                            0 <= j < n ==> #[trigger] members@[j].1.wf(),
                        json_members(members@).len() == n,
                        forall|j: int|
                            0 <= j < n ==> #[trigger] json_members(members@)[j] == (
                                members@[j].0@,
                                members@[j].1.json(),
                            ),
                        forall|j: int| 0 <= j < i ==> json_members(members@)[j].0 != key@,
                    decreases n - i,
                {
                    if members[i].0 == wanted {
                        proof {
                            lemma_first_member_unique(json_members(members@), key@, i as int);
                            assert(json_members(members@)[i as int].1 == members@[i as int].1.json());
                        }
                        return Some(&members[i].1);
                    }
                    i = i + 1;
                }
                None
            },
            _ => None,
        }
    }

    /// The items, when this is an array.
    pub fn as_array(&self) -> (r: Option<&Vec<JsonValue>>)
        ensures
            match *self {
                JsonValue::Array(items) => r matches Some(v) && *v == items,
                _ => r is None,
            },
    {
        match self {
            JsonValue::Array(items) => Some(items),
            _ => None,
        }
    }

    /// The text, when this is a string.
    pub fn as_str(&self) -> (r: Option<&str>)
        ensures
            match *self {
                JsonValue::String(s) => r matches Some(t) && t@ == s@,
                _ => r is None,
            },
    {
        match self {
            JsonValue::String(s) => Some(s.as_str()),
            _ => None,
        }
    }

    /// The number as an `i64`, when this is an integer that fits.
    pub fn as_i64(&self) -> (r: Option<i64>)
        ensures
            match *self {
                JsonValue::Number(n) => if n <= i64::MAX as u64 {
                    r == Some(n as i64)
                } else {
                    r is None
                },
                JsonValue::Negative(n) => r == Some(n),
                _ => r is None,
            },
    {
        match self {
            JsonValue::Number(n) => if *n <= i64::MAX as u64 {
                Some(*n as i64)
            } else {
                None
            },
            JsonValue::Negative(n) => Some(*n),
            _ => None,
        }
    }

    /// The number, when this is an integer from 0 up held as `Number`.
    pub fn as_u64(&self) -> (r: Option<u64>)
        ensures
            match *self {
                JsonValue::Number(n) => r == Some(n),
                _ => r is None,
            },
            r matches Some(n) ==> self.json() == Json::Number(n as int),
            self.wf() ==> (r is Some <==> (self.json() matches Json::Number(m) && m >= 0)),
    {
        match self {
            JsonValue::Number(n) => Some(*n),
            _ => None,
        }
    }
}

} // verus!
