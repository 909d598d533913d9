//! A structured value in the shape of JSON, as carried in a step's payload.
use vstd::prelude::*;
use vstd::string::StringExecFns;

verus! {

broadcast use vstd::std_specs::vec::group_vec_axioms, vstd::seq::group_seq_axioms;

/// A JSON value. Numbers are held as the text of their literal, so that any
/// number survives unchanged; objects keep their members in insertion order.
#[derive(Debug, PartialEq, Eq)]
pub enum Json {
    Null,
    Bool(bool),
    Number(String),
    String(String),
    Array(Vec<Json>),
    Object(Vec<(String, Json)>),
}

/// The mathematical value of a [`Json`].
pub enum JsonModel {
    Null,
    Bool(bool),
    Number(Seq<char>),
    Str(Seq<char>),
    Array(Seq<JsonModel>),
    Object(Seq<(Seq<char>, JsonModel)>),
}

pub open spec fn json_model(j: Json) -> JsonModel
    decreases j,
{
    match j {
        Json::Null => JsonModel::Null,
        Json::Bool(b) => JsonModel::Bool(b),
        Json::Number(n) => JsonModel::Number(n@),
        Json::String(s) => JsonModel::Str(s@),
        Json::Array(v) => JsonModel::Array(
            Seq::new(
                v@.len(),
                |i: int|
                    if 0 <= i < v@.len() {
                        json_model(v@[i])
                    } else {
                        JsonModel::Null
                    },
            ),
        ),
        Json::Object(v) => JsonModel::Object(
            Seq::new(
                v@.len(),
                |i: int|
                    if 0 <= i < v@.len() {
                        (v@[i].0@, json_model(v@[i].1))
                    } else {
                        (Seq::empty(), JsonModel::Null)
                    },
            ),
        ),
    }
}

impl View for Json {
    type V = JsonModel;

    open spec fn view(&self) -> JsonModel {
        json_model(*self)
    }
}

/// The members of an object, as the model sees them.
pub open spec fn members_model(v: Seq<(String, Json)>) -> Seq<(Seq<char>, JsonModel)> {
    Seq::new(v.len(), |i: int| (v[i].0@, v[i].1@))
}

pub proof fn lemma_object_model(v: Vec<(String, Json)>)
    ensures
        Json::Object(v)@ == JsonModel::Object(members_model(v@)),
{
    assert(members_model(v@) =~= match json_model(Json::Object(v)) {
        JsonModel::Object(m) => m,
        _ => Seq::empty(),
    });
}

pub proof fn lemma_array_model(v: Vec<Json>)
    ensures
        Json::Array(v)@ == JsonModel::Array(Seq::new(v@.len(), |i: int| v@[i]@)),
{
    assert(Seq::new(v@.len(), |i: int| v@[i]@) =~= match json_model(Json::Array(v)) {
        JsonModel::Array(m) => m,
        _ => Seq::empty(),
    });
}

/// Whether `i` is the position of the first member named `key`.
pub open spec fn is_first_member(m: Seq<(Seq<char>, JsonModel)>, key: Seq<char>, i: int) -> bool {
    &&& 0 <= i < m.len()
    &&& m[i].0 == key
    &&& forall|j: int| 0 <= j < i ==> m[j].0 != key
}

pub open spec fn has_member(m: Seq<(Seq<char>, JsonModel)>, key: Seq<char>) -> bool {
    exists|i: int| 0 <= i < m.len() && m[i].0 == key
}

/// Position of the first member named `key`, if there is one.
pub open spec fn member_index(m: Seq<(Seq<char>, JsonModel)>, key: Seq<char>) -> int {
    choose|i: int| is_first_member(m, key, i)
}

/// The value of the first member named `key`.
pub open spec fn member(m: Seq<(Seq<char>, JsonModel)>, key: Seq<char>) -> Option<JsonModel> {
    if has_member(m, key) {
        Some(m[member_index(m, key)].1)
    } else {
        None
    }
}

/// `m` with `key` bound to `value`: the first member named `key` takes the
/// new value in place, and where there is none the pair is appended.
pub open spec fn with_member(
    m: Seq<(Seq<char>, JsonModel)>,
    key: Seq<char>,
    value: JsonModel,
) -> Seq<(Seq<char>, JsonModel)> {
    if has_member(m, key) {
        m.update(member_index(m, key), (key, value))
    } else {
        m.push((key, value))
    }
}

/// A member that is present has exactly one first position.
pub proof fn lemma_first_member(m: Seq<(Seq<char>, JsonModel)>, key: Seq<char>, i: int)
    requires
        0 <= i < m.len(),
        m[i].0 == key,
    ensures
        has_member(m, key),
        is_first_member(m, key, member_index(m, key)),
        member_index(m, key) <= i,
    decreases i,
{
    if exists|j: int| 0 <= j < i && m[j].0 == key {
        let j = choose|j: int| 0 <= j < i && m[j].0 == key;
        lemma_first_member(m, key, j);
    } else {
        assert(is_first_member(m, key, i));
    }
}

/// Equality of two strings' characters.
pub fn text_eq(a: &str, b: &str) -> (r: bool)
    ensures
        r == (a@ == b@),
{
    a.to_owned() == b.to_owned()
}

/// Position of the first member named `key`.
pub fn find_member(members: &Vec<(String, Json)>, key: &str) -> (r: Option<usize>)
    ensures
        match r {
            Some(i) => is_first_member(members_model(members@), key@, i as int),
            None => !has_member(members_model(members@), key@),
        },
{
    let ghost m = members_model(members@);
    let k = key.to_owned();
    let mut i: usize = 0;
    while i < members.len()
        invariant
            i <= members.len(),
            m == members_model(members@),
            k@ == key@,
            forall|j: int| 0 <= j < i ==> m[j].0 != key@,
        decreases members.len() - i,
    {
        if members[i].0 == k {
            return Some(i);
        }
        i = i + 1;
    }
    None
}

/// Binds `key` to `value` among an object's members.
pub fn set_member(members: &mut Vec<(String, Json)>, key: &str, value: Json)
    ensures
        members_model(final(members)@) == with_member(
            members_model(old(members)@),
            key@,
            value@,
        ),
{
    let ghost m = members_model(members@);
    match find_member(members, key) {
        Some(i) => {
            proof {
                lemma_first_member(m, key@, i as int);
            }
            members.set(i, (key.to_owned(), value));
        },
        None => {
            members.push((key.to_owned(), value));
        },
    }
    assert(members_model(members@) =~= with_member(m, key@, value@));
}

/// The decimal digits of `n`, most significant first, without leading zeros.
pub open spec fn decimal(n: nat) -> Seq<char>
    decreases n,
{
    if n < 10 {
        seq![digit_char(n)]
    } else {
        decimal(n / 10).push(digit_char(n % 10))
    }
}

pub open spec fn digit_char(d: nat) -> char {
    if d < 10 {
        (('0' as u8) + d) as char
    } else {
        '?'
    }
}

fn digit_text(d: u64) -> (r: &'static str)
    requires
        d < 10,
    ensures
        r@ == seq![digit_char(d as nat)],
{
    proof {
        reveal_strlit("0");
        reveal_strlit("1");
        reveal_strlit("2");
        reveal_strlit("3");
        reveal_strlit("4");
        reveal_strlit("5");
        reveal_strlit("6");
        reveal_strlit("7");
        reveal_strlit("8");
        reveal_strlit("9");
    }
    match d {
        0 => "0",
        1 => "1",
        2 => "2",
        3 => "3",
        4 => "4",
        5 => "5",
        6 => "6",
        7 => "7",
        8 => "8",
        _ => "9",
    }
}

/// The decimal text of `n`, as a JSON number literal spells it.
pub fn decimal_text(n: u64) -> (r: String)
    ensures
        r@ == decimal(n as nat),
    decreases n,
{
    if n < 10 {
        digit_text(n).to_owned()
    } else {
        let mut s = decimal_text(n / 10);
        s.append(digit_text(n % 10));
        s
    }
}

impl Json {
    /// A JSON string holding `s`.
    pub fn text(s: &str) -> (r: Json)
        ensures
            r@ == JsonModel::Str(s@),
    {
        Json::String(s.to_owned())
    }

    /// A copy of this value, member for member.
    #[verifier::loop_isolation(false)]
    pub fn deep_copy(&self) -> (r: Json)
        ensures
            r@ == self@,
        decreases self,
    {
        match self {
            Json::Null => Json::Null,
            Json::Bool(b) => Json::Bool(*b),
            Json::Number(n) => Json::Number(n.clone()),
            Json::String(s) => Json::String(s.clone()),
            Json::Array(items) => {
                let mut out: Vec<Json> = Vec::new();
                let mut i: usize = 0;
                while i < items.len()
                    invariant
                        i <= items.len(),
                        out@.len() == i,
                        forall|j: int| 0 <= j < i ==> out@[j]@ == items@[j]@,
                    decreases items.len() - i,
                {
                    out.push(items[i].deep_copy());
                    i = i + 1;
                }
                proof {
                    lemma_array_model(out);
                    lemma_array_model(*items);
                    assert(Seq::new(out@.len(), |j: int| out@[j]@) =~= Seq::new(
                        items@.len(),
                        |j: int| items@[j]@,
                    ));
                }
                Json::Array(out)
            },
            Json::Object(members) => {
                let mut out: Vec<(String, Json)> = Vec::new();
                let mut i: usize = 0;
                while i < members.len()
                    invariant
                        i <= members.len(),
                        out@.len() == i,
                        forall|j: int|
                            0 <= j < i ==> out@[j].0@ == members@[j].0@ && out@[j].1@
                                == members@[j].1@,
                    decreases members.len() - i,
                {
                    out.push((members[i].0.clone(), members[i].1.deep_copy()));
                    i = i + 1;
                }
                proof {
                    lemma_object_model(out);
                    lemma_object_model(*members);
                    assert(members_model(out@) =~= members_model(members@));
                }
                Json::Object(out)
            },
        }
    }
}

impl Clone for Json {
    fn clone(&self) -> Self {
        self.deep_copy()
    }
}

} // verus!
