//! JSON values as the status response holds them, and their meaning as
//! mathematical values.
use vstd::prelude::*;
use vstd::pervasive::VecAdditionalExecFns;

verus! {

/// A JSON value. Numbers keep their JSON text; an object keeps its members
/// in order.
#[derive(Debug)]
pub enum JsonValue {
    Null,
    Bool(bool),
    /// A number, as its JSON text.
    Number(String),
    Text(String),
    Array(Vec<JsonValue>),
    Object(Vec<JsonMember>),
}

/// A member of a JSON object.
#[derive(Debug)]
pub struct JsonMember {
    pub key: String,
    pub value: JsonValue,
}

/// What a JSON value means: the same tree, with text as characters.
pub enum JsonView {
    Null,
    Bool(bool),
    Number(Seq<char>),
    Text(Seq<char>),
    Array(Seq<JsonView>),
    Object(Seq<(Seq<char>, JsonView)>),
}

/// The meaning of `v`.
pub open spec fn json_view(v: JsonValue) -> JsonView
    decreases v,
{
    match v {
        JsonValue::Null => JsonView::Null,
        JsonValue::Bool(b) => JsonView::Bool(b),
        JsonValue::Number(n) => JsonView::Number(n@),
        JsonValue::Text(t) => JsonView::Text(t@),
        JsonValue::Array(items) => JsonView::Array(items_view(items@)),
        JsonValue::Object(members) => JsonView::Object(members_view(members@)),
    }
}

/// The meanings of `items`, in order.
pub open spec fn items_view(items: Seq<JsonValue>) -> Seq<JsonView>
    decreases items,
{
    if items.len() == 0 {
        Seq::empty()
    } else {
        items_view(items.drop_last()).push(json_view(items.last()))
    }
}

/// The keys and meanings of `members`, in order.
pub open spec fn members_view(members: Seq<JsonMember>) -> Seq<(Seq<char>, JsonView)>
    decreases members,
{
    if members.len() == 0 {
        Seq::empty()
    } else {
        members_view(members.drop_last()).push(
            (members.last().key@, json_view(members.last().value)),
        )
    }
}

pub proof fn lemma_members_view(members: Seq<JsonMember>)
    ensures
        members_view(members).len() == members.len(),
        forall|i: int|
            0 <= i < members.len() ==> #[trigger] members_view(members)[i] == (
                members[i].key@,
                json_view(members[i].value),
            ),
    decreases members.len(),
{
    if members.len() > 0 {
        lemma_members_view(members.drop_last());
    }
}

pub proof fn lemma_items_view(items: Seq<JsonValue>)
    ensures
        items_view(items).len() == items.len(),
        forall|i: int| 0 <= i < items.len() ==> #[trigger] items_view(items)[i] == json_view(items[i]),
    decreases items.len(),
{
    if items.len() > 0 {
        lemma_items_view(items.drop_last());
    }
}

/// The members of `v` where it is an object; none otherwise.
pub open spec fn object_members(v: JsonView) -> Seq<(Seq<char>, JsonView)> {
    match v {
        JsonView::Object(members) => members,
        _ => Seq::empty(),
    }
}

/// The index of the first member of `members` at or after `i` whose key
/// is `key`.
pub open spec fn find_member(members: Seq<(Seq<char>, JsonView)>, key: Seq<char>, i: nat) -> Option<
    nat,
>
    decreases members.len() - i,
{
    if i >= members.len() {
        None
    } else if members[i as int].0 == key {
        Some(i)
    } else {
        find_member(members, key, i + 1)
    }
}

pub proof fn lemma_find_member(members: Seq<(Seq<char>, JsonView)>, key: Seq<char>, i: nat)
    ensures
        find_member(members, key, i) matches Some(k) ==> i <= k < members.len() && members[k as int].0
            == key,
    decreases members.len() - i,
{
    if i < members.len() && members[i as int].0 != key {
        lemma_find_member(members, key, i + 1);
    }
}

/// The value of the member `key` of an object's members.
pub open spec fn get_member(members: Seq<(Seq<char>, JsonView)>, key: Seq<char>) -> Option<JsonView> {
    match find_member(members, key, 0) {
        Some(i) => Some(members[i as int].1),
        None => None,
    }
}

/// `members` with `key` set to `value`: in place where the key is there,
/// else added at the end.
pub open spec fn insert_member(
    members: Seq<(Seq<char>, JsonView)>,
    key: Seq<char>,
    value: JsonView,
) -> Seq<(Seq<char>, JsonView)> {
    match find_member(members, key, 0) {
        Some(i) => members.update(i as int, (key, value)),
        None => members.push((key, value)),
    }
}

/// `members` without the member `key`.
pub open spec fn remove_member(members: Seq<(Seq<char>, JsonView)>, key: Seq<char>) -> Seq<
    (Seq<char>, JsonView),
> {
    match find_member(members, key, 0) {
        Some(i) => members.remove(i as int),
        None => members,
    }
}

proof fn lemma_find_member_before(members: Seq<(Seq<char>, JsonView)>, key: Seq<char>, i: nat, j: int)
    requires
        i <= j < members.len(),
        find_member(members, key, i) is None || j < find_member(members, key, i)->0,
    ensures
        members[j].0 != key,
    decreases j - i,
{
    if i < j {
        lemma_find_member_before(members, key, i + 1, j);
    }
}

proof fn lemma_find_member_same_prefix(
    s: Seq<(Seq<char>, JsonView)>,
    t: Seq<(Seq<char>, JsonView)>,
    key: Seq<char>,
    i: nat,
    stop: nat,
)
    requires
        i <= stop <= s.len(),
        stop <= t.len(),
        forall|j: int| i <= j < stop ==> #[trigger] s[j].0 == t[j].0 && s[j].0 != key,
        stop < t.len() && t[stop as int].0 == key,
    ensures
        find_member(t, key, i) == Some(stop),
    decreases stop - i,
{
    if i < stop {
        assert(t[i as int].0 == s[i as int].0);
        lemma_find_member_same_prefix(s, t, key, i + 1, stop);
    }
}

/// Reading a member back after setting it gives the value that was set.
pub proof fn lemma_get_after_insert(members: Seq<(Seq<char>, JsonView)>, key: Seq<char>, value: JsonView)
    ensures
        get_member(insert_member(members, key, value), key) == Some(value),
{
    lemma_find_member(members, key, 0);
    let inserted = insert_member(members, key, value);
    match find_member(members, key, 0) {
        Some(i) => {
            assert forall|j: int| 0 <= j < i implies #[trigger] members[j].0 == inserted[j].0
                && members[j].0 != key by {
                lemma_find_member_before(members, key, 0, j);
            }
            lemma_find_member_same_prefix(members, inserted, key, 0, i);
        },
        None => {
            assert forall|j: int| 0 <= j < members.len() implies #[trigger] members[j].0
                == inserted[j].0 && members[j].0 != key by {
                lemma_find_member_before(members, key, 0, j);
            }
            lemma_find_member_same_prefix(members, inserted, key, 0, members.len());
        },
    }
}

/// No key occurs twice among `members`, as in any parsed JSON object.
pub open spec fn keys_unique(members: Seq<(Seq<char>, JsonView)>) -> bool {
    forall|i: int, j: int| 0 <= i < j < members.len() ==> #[trigger] members[i].0 != #[trigger] members[j].0
}

proof fn lemma_find_member_absent(members: Seq<(Seq<char>, JsonView)>, key: Seq<char>, i: nat)
    requires
        forall|j: int| i <= j < members.len() ==> #[trigger] members[j].0 != key,
    ensures
        find_member(members, key, i) is None,
    decreases members.len() - i,
{
    if i < members.len() {
        lemma_find_member_absent(members, key, i + 1);
    }
}

/// Once a member is removed from an object whose keys are distinct, it
/// reads back as absent.
pub proof fn lemma_get_after_remove(members: Seq<(Seq<char>, JsonView)>, key: Seq<char>)
    requires
        keys_unique(members),
    ensures
        get_member(remove_member(members, key), key) is None,
{
    lemma_find_member(members, key, 0);
    match find_member(members, key, 0) {
        Some(i) => {
            let removed = members.remove(i as int);
            assert forall|j: int| 0 <= j < removed.len() implies #[trigger] removed[j].0 != key by {
                if j < i {
                    assert(removed[j] == members[j]);
                    assert(members[j].0 != members[i as int].0);
                } else {
                    assert(removed[j] == members[j + 1]);
                    assert(members[i as int].0 != members[j + 1].0);
                }
            }
            lemma_find_member_absent(removed, key, 0);
        },
        None => {},
    }
}

/// Where the member `key` is in `members`.
pub fn position_of(members: &Vec<JsonMember>, key: &str) -> (res: Option<usize>)
    ensures
        res matches Some(i) ==> find_member(members_view(members@), key@, 0) == Some(i as nat),
        res is None ==> find_member(members_view(members@), key@, 0) is None,
{
    proof {
        lemma_members_view(members@);
    }
    let target = String::from_str(key);
    let mut i: usize = 0;
    while i < members.len()
        invariant
            i <= members@.len(),
            target@ == key@,
            members_view(members@).len() == members@.len(),
            forall|j: int|
                0 <= j < members@.len() ==> #[trigger] members_view(members@)[j] == (
                    members@[j].key@,
                    json_view(members@[j].value),
                ),
            find_member(members_view(members@), key@, 0) == find_member(
                members_view(members@),
                key@,
                i as nat,
            ),
        decreases members@.len() - i,
    {
        if members[i].key == target {
            assert(members_view(members@)[i as int].0 == key@);
            return Some(i);
        }
        assert(members_view(members@)[i as int].0 != key@);
        i = i + 1;
    }
    None
}

/// The members of `value` where it is an object; none otherwise.
pub fn into_members(value: JsonValue) -> (members: Vec<JsonMember>)
    ensures
        members_view(members@) == object_members(json_view(value)),
{
    match value {
        JsonValue::Object(members) => members,
        _ => Vec::new(),
    }
}

/// Sets the member `key` to `value`; see `insert_member`.
pub fn set_member(members: &mut Vec<JsonMember>, key: &str, value: JsonValue)
    ensures
        members_view(final(members)@) == insert_member(
            members_view(old(members)@),
            key@,
            json_view(value),
        ),
{
    let ghost old_members = members@;
    let ghost v = json_view(value);
    proof {
        lemma_members_view(members@);
    }
    match position_of(members, key) {
        Some(i) => {
            proof {
                lemma_find_member(members_view(old_members), key@, 0);
            }
            members.set(i, JsonMember { key: String::from_str(key), value });
            proof {
                lemma_members_view(members@);
            }
            assert(members_view(members@) =~= members_view(old_members).update(i as int, (key@, v)));
        },
        None => {
            members.push(JsonMember { key: String::from_str(key), value });
            proof {
                lemma_members_view(members@);
            }
            assert(members_view(members@) =~= members_view(old_members).push((key@, v)));
        },
    }
}

/// Removes the member `key`; see `remove_member`.
pub fn delete_member(members: &mut Vec<JsonMember>, key: &str)
    ensures
        members_view(final(members)@) == remove_member(members_view(old(members)@), key@),
{
    let ghost old_members = members@;
    proof {
        lemma_members_view(members@);
    }
    match position_of(members, key) {
        Some(i) => {
            proof {
                lemma_find_member(members_view(old_members), key@, 0);
            }
            members.remove(i);
            proof {
                lemma_members_view(members@);
            }
            assert(members_view(members@) =~= members_view(old_members).remove(i as int));
            assert(members_view(members@) == remove_member(members_view(old_members), key@));
        },
        None => {
            assert(members_view(members@) == remove_member(members_view(old_members), key@));
        },
    }
}

/// The value of the member `key` of `members`, where there is one.
pub fn member<'a>(members: &'a Vec<JsonMember>, key: &str) -> (res: Option<&'a JsonValue>)
    ensures
        match get_member(members_view(members@), key@) {
            Some(v) => res matches Some(r) && json_view(*r) == v,
            None => res is None,
        },
{
    proof {
        lemma_members_view(members@);
    }
    match position_of(members, key) {
        Some(i) => {
            proof {
                lemma_find_member(members_view(members@), key@, 0);
                assert(members_view(members@)[i as int] == (
                    members@[i as int].key@,
                    json_view(members@[i as int].value),
                ));
            }
            let m = &members[i];
            assert(find_member(members_view(members@), key@, 0) == Some(i as nat));
            assert(*m == members@[i as int]);
            assert(json_view(m.value) == get_member(members_view(members@), key@)->0);
            Some(&m.value)
        },
        None => None,
    }
}

/// `serde_json::Value`, a JSON value as `serde_json` parses and writes it.
#[verifier::external_type_specification]
#[verifier::external_body]
pub struct ExSerdeJsonValue(serde_json::Value);

/// What `serde_json::from_str::<serde_json::Value>` parses `text` to, as
/// the library holds it, or `None` where `text` is no JSON.
pub uninterp spec fn json_parsed(text: Seq<char>) -> Option<JsonView>;

/// What `serde_json::to_string` writes for the value `v`.
pub uninterp spec fn json_written(v: JsonView) -> Seq<char>;

/// A `serde_json` value as the library holds it: each number as its text,
/// each object's members in the map's order.
#[verifier::external_body]
fn json_from_serde(v: serde_json::Value) -> JsonValue {
    match v {
        serde_json::Value::Null => JsonValue::Null,
        serde_json::Value::Bool(b) => JsonValue::Bool(b),
        serde_json::Value::Number(n) => JsonValue::Number(n.to_string()),
        serde_json::Value::String(s) => JsonValue::Text(s),
        serde_json::Value::Array(a) => JsonValue::Array(a.into_iter().map(json_from_serde).collect()),
        serde_json::Value::Object(m) => JsonValue::Object(
            m.into_iter().map(|(key, value)| JsonMember { key, value: json_from_serde(value) }).collect(),
        ),
    }
}

/// A library value as a `serde_json` value: each number from its text.
#[verifier::external_body]
fn json_to_serde(v: &JsonValue) -> serde_json::Value {
    match v {
        JsonValue::Null => serde_json::Value::Null,
        JsonValue::Bool(b) => serde_json::Value::Bool(*b),
        JsonValue::Number(t) => match t.parse::<serde_json::Number>() {
            Ok(n) => serde_json::Value::Number(n),
            Err(_) => serde_json::Value::String(t.clone()),
        },
        JsonValue::Text(t) => serde_json::Value::String(t.clone()),
        JsonValue::Array(a) => serde_json::Value::Array(a.iter().map(json_to_serde).collect()),
        JsonValue::Object(m) => serde_json::Value::Object(
            m.iter().map(|member| (member.key.clone(), json_to_serde(&member.value))).collect(),
        ),
    }
}

/// Parses `text` with `serde_json::from_str::<serde_json::Value>`; the
/// result is named `json_parsed`.
#[verifier::external_body]
pub(crate) fn parse_json(text: &str) -> (r: Option<JsonValue>)
    ensures
        match json_parsed(text@) {
            None => r is None,
            Some(v) => r matches Some(j) && json_view(j) == v,
        },
{
    serde_json::from_str::<serde_json::Value>(text).ok().map(json_from_serde)
}

/// Writes `v` with `serde_json::to_string`; the result is named
/// `json_written`.
#[verifier::external_body]
pub(crate) fn write_json(v: &JsonValue) -> (s: String)
    ensures
        s@ == json_written(json_view(*v)),
{
    json_to_serde(v).to_string()
}

} // verus!
