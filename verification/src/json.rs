//! JSON documents as the executor sees them: a value type of the library's own,
//! its mathematical view, and the two calls into `serde_json` that turn text
//! into values and values into text.

use vstd::prelude::*;

verus! {

/// A JSON value. A number is kept as the text that stands for it. The
/// members of an object are kept in the order in which they were added;
/// where a key occurs more than once the last occurrence is the one that
/// counts.
#[derive(Debug)]
pub enum Json {
    Null,
    Bool(bool),
    Number(String),
    String(String),
    Array(Vec<Json>),
    Object(Vec<(String, Json)>),
}

/// The mathematical value of a [`Json`]: an object is a finite map from keys
/// to values.
pub enum JsonView {
    Null,
    Bool(bool),
    Number(Seq<char>),
    String(Seq<char>),
    Array(Seq<JsonView>),
    Object(Map<Seq<char>, JsonView>),
}

impl JsonView {
    /// The value stored under `key`, if `self` is an object that has the key.
    pub open spec fn field(self, key: Seq<char>) -> Option<JsonView> {
        match self {
            JsonView::Object(fields) => if fields.contains_key(key) {
                Some(fields[key])
            } else {
                None
            },
            _ => None,
        }
    }

    /// `self` without the key; `self` unchanged if it is no object.
    pub open spec fn without_field(self, key: Seq<char>) -> JsonView {
        match self {
            JsonView::Object(fields) => JsonView::Object(fields.remove(key)),
            _ => self,
        }
    }

    /// `self` with `key` bound to `value`; `self` unchanged if it is no object.
    pub open spec fn with_field(self, key: Seq<char>, value: JsonView) -> JsonView {
        match self {
            JsonView::Object(fields) => JsonView::Object(fields.insert(key, value)),
            _ => self,
        }
    }

    /// The keys of an object; the empty set for every other value.
    pub open spec fn keys(self) -> Set<Seq<char>> {
        match self {
            JsonView::Object(fields) => fields.dom(),
            _ => Set::empty(),
        }
    }
}

/// The position of the last member of `members` whose key is `key`, or -1.
pub open spec fn last_position(members: Seq<(String, Json)>, key: Seq<char>) -> int
    decreases members.len(),
{
    if members.len() == 0 {
        -1
    } else if members.last().0@ == key {
        members.len() - 1
    } else {
        last_position(members.drop_last(), key)
    }
}

/// The last position of a key is a position of the key, and none lies
/// behind it.
pub(crate) proof fn lemma_last_position(members: Seq<(String, Json)>, key: Seq<char>)
    ensures
        -1 <= last_position(members, key) < members.len(),
        last_position(members, key) >= 0 ==> members[last_position(members, key)].0@ == key,
        forall|j: int|
            last_position(members, key) < j < members.len() ==> (#[trigger] members[j]).0@ != key,
    decreases members.len(),
{
    if members.len() > 0 && members.last().0@ != key {
        lemma_last_position(members.drop_last(), key);
        assert forall|j: int| last_position(members, key) < j < members.len() implies (
        #[trigger] members[j]).0@ != key by {
            if j < members.len() - 1 {
                assert(members.drop_last()[j] == members[j]);
            }
        }
    }
}

impl View for Json {
    type V = JsonView;

    open spec fn view(&self) -> JsonView
        decreases self,
    {
        match self {
            Json::Null => JsonView::Null,
            Json::Bool(b) => JsonView::Bool(*b),
            Json::Number(text) => JsonView::Number(text@),
            Json::String(text) => JsonView::String(text@),
            Json::Array(items) => JsonView::Array(
                Seq::new(
                    items@.len(),
                    |i: int|
                        if 0 <= i < items@.len() {
                            items@[i].view()
                        } else {
                            JsonView::Null
                        },
                ),
            ),
            Json::Object(members) => JsonView::Object(
                Map::new(
                    |key: Seq<char>| last_position(members@, key) >= 0,
                    |key: Seq<char>|
                        {
                            let i = last_position(members@, key);
                            if 0 <= i < members@.len() {
                                members@[i].1.view()
                            } else {
                                JsonView::Null
                            }
                        },
                ),
            ),
        }
    }
}

/// The sequence of values that a list of items stands for.
pub open spec fn items_of(items: Seq<Json>) -> Seq<JsonView> {
    Seq::new(items.len(), |i: int| items[i]@)
}

/// The texts of a list of strings.
pub open spec fn texts(strings: Seq<String>) -> Seq<Seq<char>> {
    Seq::new(strings.len(), |i: int| strings[i]@)
}

/// The map that a list of members stands for: each key with the value of
/// its last occurrence.
pub open spec fn fields_of(members: Seq<(String, Json)>) -> Map<Seq<char>, JsonView> {
    Map::new(
        |key: Seq<char>| last_position(members, key) >= 0,
        |key: Seq<char>|
            {
                let i = last_position(members, key);
                if 0 <= i < members.len() {
                    members[i].1@
                } else {
                    JsonView::Null
                }
            },
    )
}

/// The view of an object is the map of its members.
pub broadcast proof fn lemma_object_view(members: Vec<(String, Json)>)
    ensures
        #[trigger] Json::Object(members)@ == JsonView::Object(fields_of(members@)),
{
    assert(Json::Object(members)@->Object_0 =~= fields_of(members@));
}

/// The view of an array is the sequence of the views of its items.
pub broadcast proof fn lemma_array_view(items: Vec<Json>)
    ensures
        #[trigger] Json::Array(items)@ == JsonView::Array(items_of(items@)),
{
    assert(Json::Array(items)@->Array_0 =~= items_of(items@));
}

/// The position found by a search from the back is the last position.
pub(crate) proof fn lemma_position_found(members: Seq<(String, Json)>, key: Seq<char>, at: int)
    requires
        0 <= at < members.len(),
        members[at].0@ == key,
        forall|j: int| at < j < members.len() ==> (#[trigger] members[j]).0@ != key,
    ensures
        last_position(members, key) == at,
    decreases members.len(),
{
    if members.last().0@ != key {
        assert(at < members.len() - 1);
        assert(members.drop_last()[at] == members[at]);
        assert forall|j: int| at < j < members.drop_last().len() implies (
        #[trigger] members.drop_last()[j]).0@ != key by {
            assert(members.drop_last()[j] == members[j]);
        }
        lemma_position_found(members.drop_last(), key, at);
    }
}

/// A key that no member has is found nowhere.
pub(crate) proof fn lemma_position_absent(members: Seq<(String, Json)>, key: Seq<char>)
    requires
        forall|j: int| 0 <= j < members.len() ==> (#[trigger] members[j]).0@ != key,
    ensures
        last_position(members, key) == -1,
    decreases members.len(),
{
    if members.len() > 0 {
        assert forall|j: int| 0 <= j < members.drop_last().len() implies (
        #[trigger] members.drop_last()[j]).0@ != key by {
            assert(members.drop_last()[j] == members[j]);
        }
        lemma_position_absent(members.drop_last(), key);
    }
}

/// Two member lists with the same keys in the same places find every key in
/// the same place.
pub(crate) proof fn lemma_position_by_keys(
    first: Seq<(String, Json)>,
    second: Seq<(String, Json)>,
    key: Seq<char>,
)
    requires
        first.len() == second.len(),
        forall|j: int| 0 <= j < first.len() ==> (#[trigger] first[j]).0@ == second[j].0@,
    ensures
        last_position(first, key) == last_position(second, key),
    decreases first.len(),
{
    if first.len() > 0 {
        assert(first.last().0@ == second.last().0@);
        assert forall|j: int| 0 <= j < first.drop_last().len() implies (
        #[trigger] first.drop_last()[j]).0@ == second.drop_last()[j].0@ by {
            assert(first.drop_last()[j] == first[j]);
            assert(second.drop_last()[j] == second[j]);
        }
        lemma_position_by_keys(first.drop_last(), second.drop_last(), key);
    }
}

/// The position of the last member with the given key.
pub fn find_member(members: &Vec<(String, Json)>, key: &str) -> (found: Option<usize>)
    ensures
        match found {
            Some(at) => at < members@.len() && at as int == last_position(members@, key@)
                && members@[at as int].0@ == key@,
            None => last_position(members@, key@) == -1,
        },
{
    let wanted: String = key.to_owned();
    let mut i: usize = members.len();
    while i > 0
        invariant
            i <= members@.len(),
            wanted@ == key@,
            forall|j: int| i <= j < members@.len() ==> (#[trigger] members@[j]).0@ != key@,
        decreases i,
    {
        i = i - 1;
        if members[i].0 == wanted {
            proof {
                lemma_position_found(members@, key@, i as int);
            }
            return Some(i);
        }
    }
    proof {
        lemma_position_absent(members@, key@);
    }
    None
}

/// Taking out a member changes nothing for the other keys.
pub(crate) proof fn lemma_member_removed(members: Seq<(String, Json)>, at: int, key: Seq<char>)
    requires
        0 <= at < members.len(),
        members[at].0@ != key,
    ensures
        fields_of(members.remove(at)).contains_key(key) == fields_of(members).contains_key(key),
        fields_of(members).contains_key(key) ==> fields_of(members.remove(at))[key] == fields_of(
            members,
        )[key],
{
    let rest = members.remove(at);
    let p = last_position(members, key);
    lemma_last_position(members, key);
    if p < 0 {
        assert forall|j: int| 0 <= j < rest.len() implies (#[trigger] rest[j]).0@ != key by {
            if j < at {
                assert(rest[j] == members[j]);
            } else {
                assert(rest[j] == members[j + 1]);
            }
        }
        lemma_position_absent(rest, key);
    } else {
        let q = if p < at {
            p
        } else {
            p - 1
        };
        assert(rest[q] == members[p]);
        assert forall|j: int| q < j < rest.len() implies (#[trigger] rest[j]).0@ != key by {
            if j < at {
                assert(rest[j] == members[j]);
            } else {
                assert(rest[j] == members[j + 1]);
            }
        }
        lemma_position_found(rest, key, q);
    }
}

impl Json {
    /// An object without members.
    pub fn object() -> (json: Json)
        ensures
            json@ == JsonView::Object(Map::empty()),
    {
        broadcast use lemma_object_view;

        let json = Json::Object(Vec::new());
        proof {
            let members = json->Object_0;
            assert(fields_of(members@) =~= Map::empty());
        }
        json
    }

    /// The text of a string; `None` for every other value.
    pub fn as_string(&self) -> (text: Option<&String>)
        ensures
            match text {
                Some(text) => self@ == JsonView::String(text@),
                None => !(self@ is String),
            },
    {
        match self {
            Json::String(text) => Some(text),
            _ => None,
        }
    }

    /// The items of an array; `None` for every other value.
    pub fn as_array(&self) -> (items: Option<&Vec<Json>>)
        ensures
            match items {
                Some(items) => self@ == JsonView::Array(items_of(items@)),
                None => !(self@ is Array),
            },
    {
        broadcast use lemma_array_view;

        match self {
            Json::Array(items) => Some(items),
            _ => None,
        }
    }

    /// The value stored under `key`, if `self` is an object that has the key.
    pub fn get(&self, key: &str) -> (found: Option<&Json>)
        ensures
            found matches Some(value) ==> self@.field(key@) == Some(value@),
            found is None <==> self@.field(key@) is None,
    {
        broadcast use lemma_object_view;

        match self {
            Json::Object(members) => {
                match find_member(members, key) {
                    Some(at) => Some(&members[at].1),
                    None => None,
                }
            },
            _ => None,
        }
    }

    /// Takes the value stored under `key` out of `self`, which is given up.
    pub fn take(self, key: &str) -> (found: Option<Json>)
        ensures
            match found {
                Some(value) => self@.field(key@) == Some(value@),
                None => self@.field(key@) is None,
            },
    {
        broadcast use lemma_object_view;

        match self {
            Json::Object(members) => {
                let mut members = members;
                match find_member(&members, key) {
                    Some(at) => {
                        let member = members.swap_remove(at);
                        Some(member.1)
                    },
                    None => None,
                }
            },
            _ => None,
        }
    }

    /// Takes `key` out of an object and hands back the value that it had;
    /// any other value is left as it is.
    pub fn remove(&mut self, key: &str) -> (removed: Option<Json>)
        ensures
            final(self)@ == old(self)@.without_field(key@),
            match removed {
                Some(value) => old(self)@.field(key@) == Some(value@),
                None => old(self)@.field(key@) is None,
            },
    {
        broadcast use lemma_object_view;

        match self {
            Json::Object(members) => {
                let ghost before = members@;
                let mut removed: Option<Json> = None;
                loop
                    invariant
                        forall|q: Seq<char>|
                            q != key@ ==> fields_of(members@).contains_key(q) == #[trigger] fields_of(
                                before,
                            ).contains_key(q),
                        forall|q: Seq<char>|
                            q != key@ && #[trigger] fields_of(before).contains_key(q) ==> fields_of(
                                members@,
                            )[q] == fields_of(before)[q],
                        match removed {
                            Some(value) => fields_of(before).contains_key(key@) && fields_of(
                                before,
                            )[key@] == value@,
                            None => members@ == before,
                        },
                    ensures
                        last_position(members@, key@) == -1,
                    decreases members@.len(),
                {
                    match find_member(members, key) {
                        None => {
                            break ;
                        },
                        Some(at) => {
                            let ghost current = members@;
                            let member = members.remove(at);
                            proof {
                                assert forall|q: Seq<char>| q != key@ implies fields_of(
                                    members@,
                                ).contains_key(q) == #[trigger] fields_of(before).contains_key(
                                    q,
                                ) by {
                                    lemma_member_removed(current, at as int, q);
                                }
                                assert forall|q: Seq<char>|
                                    q != key@ && #[trigger] fields_of(before).contains_key(
                                        q,
                                    ) implies fields_of(members@)[q] == fields_of(before)[q] by {
                                    lemma_member_removed(current, at as int, q);
                                }
                            }
                            if removed.is_none() {
                                removed = Some(member.1);
                            }
                        },
                    }
                }
                proof {
                    assert(fields_of(members@) =~= fields_of(before).remove(key@));
                }
                removed
            },
            _ => None,
        }
    }

    /// Binds `key` to `value` in an object, in place of the value that the
    /// key had; any other value is left as it is.
    pub fn set(&mut self, key: String, value: Json)
        ensures
            final(self)@ == old(self)@.with_field(key@, value@),
    {
        broadcast use lemma_object_view;

        match self {
            Json::Object(members) => {
                let ghost before = members@;
                let ghost k = key@;
                let ghost v = value@;
                match find_member(members, key.as_str()) {
                    Some(at) => {
                        members.set(at, (key, value));
                        proof {
                            let after = members@;
                            lemma_last_position(before, k);
                            assert forall|q: Seq<char>| true implies last_position(after, q)
                                == last_position(before, q) by {
                                lemma_position_by_keys(after, before, q);
                            }
                            assert forall|q: Seq<char>|
                                q != k && last_position(before, q) >= 0 implies after[last_position(
                                before,
                                q,
                            )] == before[last_position(before, q)] by {
                                lemma_last_position(before, q);
                            }
                            assert(fields_of(after) =~= fields_of(before).insert(k, v));
                        }
                    },
                    None => {
                        members.push((key, value));
                        proof {
                            let after = members@;
                            assert(after.drop_last() =~= before);
                            assert forall|q: Seq<char>| q != k implies last_position(after, q)
                                == last_position(before, q) by {
                                assert(after.last().0@ != q);
                            }
                            assert forall|q: Seq<char>|
                                fields_of(after).dom().contains(q) implies fields_of(after)[q]
                                == fields_of(before).insert(k, v)[q] by {
                                if q != k {
                                    lemma_last_position(before, q);
                                    assert(after[last_position(before, q)] == before[last_position(
                                        before,
                                        q,
                                    )]);
                                }
                            }
                            assert(fields_of(after) =~= fields_of(before).insert(k, v));
                        }
                    },
                }
            },
            _ => {},
        }
    }
}

/// `serde_json::Value`, which the library takes apart and puts together in
/// its conversions and nowhere else.
#[verifier::external_type_specification]
#[verifier::external_body]
pub struct ExValue(serde_json::Value);

/// What `serde_json::from_str` makes of a text: the value it stands for, or
/// `None` where the text is no JSON document.
pub uninterp spec fn json_of_text(text: Seq<char>) -> Option<JsonView>;

/// The text that `serde_json` writes for a value.
pub uninterp spec fn text_of_json(json: JsonView) -> Seq<char>;

/// Changes a `serde_json::Value` into a [`Json`], variant by variant; a number
/// becomes the text that `serde_json` prints for it.
#[verifier::external_body]
fn from_value(value: serde_json::Value) -> Json {
    match value {
        serde_json::Value::Null => Json::Null,
        serde_json::Value::Bool(b) => Json::Bool(b),
        serde_json::Value::Number(n) => Json::Number(n.to_string()),
        serde_json::Value::String(s) => Json::String(s),
        serde_json::Value::Array(items) => Json::Array(items.into_iter().map(from_value).collect()),
        serde_json::Value::Object(fields) => Json::Object(
            fields.into_iter().map(|(k, v)| (k, from_value(v))).collect(),
        ),
    }
}

/// Changes the members of an object into a `serde_json::Value`: they are
/// put into a `serde_json::Map` one after the other with `Map::insert`, by
/// which a later value replaces an earlier one of the same key.
#[verifier::external_body]
fn to_object(members: &Vec<(String, Json)>) -> serde_json::Value {
    let mut map = serde_json::Map::new();
    for (key, value) in members {
        map.insert(key.clone(), to_value(value));
    }
    serde_json::Value::Object(map)
}

/// Changes a [`Json`] into a `serde_json::Value`, variant by variant; a number
/// text that `serde_json` does not read as a number becomes `null`.
#[verifier::external_body]
fn to_value(json: &Json) -> serde_json::Value {
    match json {
        Json::Null => serde_json::Value::Null,
        Json::Bool(b) => serde_json::Value::Bool(*b),
        Json::Number(text) => text.parse().map_or(serde_json::Value::Null, serde_json::Value::Number),
        Json::String(s) => serde_json::Value::String(s.clone()),
        Json::Array(items) => serde_json::Value::Array(items.iter().map(to_value).collect()),
        Json::Object(members) => to_object(members),
    }
}

/// Calls `serde_json::from_str`. The contract names the outcome: the value
/// that the text stands for, and no value exactly where `serde_json` rejects
/// the text.
#[verifier::external_body]
pub(crate) fn parse_text(text: &str) -> (parsed: Option<Json>)
    ensures
        parsed matches Some(json) ==> json_of_text(text@) == Some(json@),
        parsed is None <==> json_of_text(text@) is None,
{
    serde_json::from_str(text).ok().map(from_value)
}

/// Calls `serde_json`'s `to_string` on the value. The contract names the text
/// that comes out; it depends on the value alone: of a key that an object
/// holds more than once the last member counts, in the view as in the map
/// that `serde_json` prints.
#[verifier::external_body]
pub(crate) fn render_text(json: &Json) -> (text: String)
    ensures
        text@ == text_of_json(json@),
{
    to_value(json).to_string()
}

} // verus!
