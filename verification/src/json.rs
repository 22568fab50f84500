//! JSON documents as trees, and their text through `serde_json`.

use vstd::prelude::*;
use vstd::string::*;

verus! {

/// `serde_json::Number`, of which nothing is known here. A tree carries such
/// a number through where the number is no integer within `i64`.
#[verifier::external_type_specification]
#[verifier::external_body]
pub struct ExNumber(serde_json::Number);

/// `serde_json::Value`, of which nothing is known here. It is what
/// `serde_json` reads a text into and writes a text from.
#[verifier::external_type_specification]
#[verifier::external_body]
pub struct ExValue(serde_json::Value);

/// `serde_json::Error`, of which nothing is known here.
#[verifier::external_type_specification]
#[verifier::external_body]
pub struct ExJsonError(serde_json::Error);

/// The mathematical form of a JSON tree: an object is a map, so neither the order
/// of its members nor a shadowed earlier member is part of it.
pub enum JsonView {
    Null,
    Bool(bool),
    /// A number that is an integer within `i64`.
    Int(int),
    /// Any other number.
    Number(serde_json::Number),
    Str(Seq<char>),
    Array(Seq<JsonView>),
    Object(Map<Seq<char>, JsonView>),
}

/// One member of a JSON object.
#[derive(Debug, PartialEq, Eq)]
pub struct Member {
    pub name: String,
    pub value: Json,
}

/// A JSON tree.
#[derive(Debug, PartialEq, Eq)]
pub enum Json {
    Null,
    Bool(bool),
    /// A number that is an integer within `i64`.
    Int(i64),
    /// A number as `serde_json` holds it. Reading a text gives this variant
    /// for the numbers that are no integers within `i64`.
    Number(serde_json::Number),
    Str(String),
    Array(Vec<Json>),
    /// The members in the order written; of two with one name the later counts.
    Object(Vec<Member>),
}

/// A text that is no JSON document, or a tree that has no text.
#[derive(Debug, Clone, PartialEq, Eq)]
pub struct JsonError {
    pub message: String,
}

/// The trees of a sequence of items.
pub open spec fn items_view(items: Seq<Json>) -> Seq<JsonView>
    decreases items,
{
    if items.len() == 0 {
        Seq::empty()
    } else {
        items_view(items.drop_last()).push(items.last().view())
    }
}

/// The map of a sequence of members, later members taking precedence.
pub open spec fn members_view(members: Seq<Member>) -> Map<Seq<char>, JsonView>
    decreases members,
{
    if members.len() == 0 {
        Map::empty()
    } else {
        members_view(members.drop_last()).insert(
            members.last().name@,
            members.last().value.view(),
        )
    }
}

impl View for Json {
    type V = JsonView;

    open spec fn view(&self) -> JsonView
        decreases self,
    {
        match self {
            Json::Null => JsonView::Null,
            Json::Bool(b) => JsonView::Bool(*b),
            Json::Int(i) => JsonView::Int(*i as int),
            Json::Number(n) => number_view(*n),
            Json::Str(s) => JsonView::Str(s@),
            Json::Array(items) => JsonView::Array(items_view(items@)),
            Json::Object(members) => JsonView::Object(members_view(members@)),
        }
    }
}

impl DeepView for Json {
    type V = JsonView;

    open spec fn deep_view(&self) -> JsonView {
        self@
    }
}

impl JsonView {
    /// The member `name`, where this tree is an object that has one.
    pub open spec fn member(self, name: Seq<char>) -> Option<JsonView> {
        match self {
            JsonView::Object(map) => if map.contains_key(name) {
                Some(map[name])
            } else {
                None
            },
            _ => None,
        }
    }

    /// The text of this tree, where it is a string.
    pub open spec fn text(self) -> Option<Seq<char>> {
        match self {
            JsonView::Str(s) => Some(s),
            _ => None,
        }
    }
}

/// The tree that `serde_json::from_str` reads from a text, if it reads one.
pub uninterp spec fn json_parse(text: Seq<char>) -> Option<JsonView>;

/// The compact text that `serde_json::to_string` writes for a tree, if it
/// writes one.
pub uninterp spec fn json_text(tree: JsonView) -> Option<Seq<char>>;

/// The items' trees stand at the items' places.
pub proof fn lemma_items_view(items: Seq<Json>)
    ensures
        items_view(items).len() == items.len(),
        forall|i: int| 0 <= i < items.len() ==> #[trigger] items_view(items)[i] == items[i]@,
    decreases items.len(),
{
    if items.len() > 0 {
        lemma_items_view(items.drop_last());
        assert(items_view(items) == items_view(items.drop_last()).push(items.last()@));
    } else {
        assert(items_view(items) == Seq::<JsonView>::empty());
    }
}

/// Appending a member inserts it into the map.
pub proof fn lemma_members_push(members: Seq<Member>, member: Member)
    ensures
        members_view(members.push(member)) == members_view(members).insert(
            member.name@,
            member.value@,
        ),
{
    let all = members.push(member);
    assert(all.drop_last() =~= members);
    assert(members_view(all) == members_view(all.drop_last()).insert(
        all.last().name@,
        all.last().value@,
    ));
}

/// A name that no member bears is not in the map.
pub proof fn lemma_members_absent(members: Seq<Member>, name: Seq<char>)
    requires
        forall|j: int| 0 <= j < members.len() ==> members[j].name@ != name,
    ensures
        !members_view(members).contains_key(name),
    decreases members.len(),
{
    if members.len() > 0 {
        lemma_members_absent(members.drop_last(), name);
        assert(members_view(members) == members_view(members.drop_last()).insert(
            members.last().name@,
            members.last().value@,
        ));
    } else {
        assert(members_view(members) == Map::<Seq<char>, JsonView>::empty());
    }
}

/// The last member that bears a name is the one the map holds under it.
pub proof fn lemma_members_found(members: Seq<Member>, name: Seq<char>, at: int)
    requires
        0 <= at < members.len(),
        members[at].name@ == name,
        forall|j: int| at < j < members.len() ==> members[j].name@ != name,
    ensures
        members_view(members).contains_key(name),
        members_view(members)[name] == members[at].value@,
    decreases members.len(),
{
    assert(members_view(members) == members_view(members.drop_last()).insert(
        members.last().name@,
        members.last().value@,
    ));
    if at < members.len() - 1 {
        lemma_members_found(members.drop_last(), name, at);
    }
}

/// The integer that `Number::as_i64` gives for a number, if it gives one.
pub uninterp spec fn number_as_int(number: serde_json::Number) -> Option<i64>;

/// The tree that a `serde_json::Value` holds.
pub uninterp spec fn value_view(value: serde_json::Value) -> JsonView;

/// The mathematical form of a number: the integer where it is one within
/// `i64`, else the number itself.
pub open spec fn number_view(number: serde_json::Number) -> JsonView {
    match number_as_int(number) {
        Some(i) => JsonView::Int(i as int),
        None => JsonView::Number(number),
    }
}

/// What a `serde_json::Value` is made of, by reference.
enum ValueRef<'a> {
    Null,
    Bool(bool),
    Number(&'a serde_json::Number),
    Str(&'a String),
    Array(&'a Vec<serde_json::Value>),
    Object(Vec<(&'a String, &'a serde_json::Value)>),
}

/// What a `serde_json::Value` is made of.
enum ValueParts {
    Null,
    Bool(bool),
    Number(serde_json::Number),
    Str(String),
    Array(Vec<serde_json::Value>),
    Object(Vec<(String, serde_json::Value)>),
}

/// The trees of a sequence of values.
spec fn values_view(items: Seq<serde_json::Value>) -> Seq<JsonView> {
    Seq::new(items.len(), |i: int| value_view(items[i]))
}

/// The map of a sequence of borrowed members, later ones taking precedence.
spec fn borrowed_entries_view(entries: Seq<(&String, &serde_json::Value)>) -> Map<
    Seq<char>,
    JsonView,
>
    decreases entries.len(),
{
    if entries.len() == 0 {
        Map::empty()
    } else {
        borrowed_entries_view(entries.drop_last()).insert(
            entries.last().0@,
            value_view(*entries.last().1),
        )
    }
}

/// The map of a sequence of members, later ones taking precedence.
spec fn entries_view(entries: Seq<(String, serde_json::Value)>) -> Map<
    Seq<char>,
    JsonView,
>
    decreases entries.len(),
{
    if entries.len() == 0 {
        Map::empty()
    } else {
        entries_view(entries.drop_last()).insert(entries.last().0@, value_view(entries.last().1))
    }
}

/// Whether no two members bear the same name.
spec fn distinct_names(entries: Seq<(&String, &serde_json::Value)>) -> bool {
    forall|i: int, j: int|
        0 <= i < j < entries.len() ==> (#[trigger] entries[i]).0@ != (#[trigger] entries[j]).0@
}

/// The tree that borrowed parts stand for.
spec fn borrowed_parts_view(parts: ValueRef) -> JsonView {
    match parts {
        ValueRef::Null => JsonView::Null,
        ValueRef::Bool(b) => JsonView::Bool(b),
        ValueRef::Number(n) => number_view(*n),
        ValueRef::Str(s) => JsonView::Str(s@),
        ValueRef::Array(items) => JsonView::Array(values_view(items@)),
        ValueRef::Object(entries) => JsonView::Object(borrowed_entries_view(entries@)),
    }
}

/// The tree that parts stand for.
spec fn parts_view(parts: ValueParts) -> JsonView {
    match parts {
        ValueParts::Null => JsonView::Null,
        ValueParts::Bool(b) => JsonView::Bool(b),
        ValueParts::Number(n) => number_view(n),
        ValueParts::Str(s) => JsonView::Str(s@),
        ValueParts::Array(items) => JsonView::Array(values_view(items@)),
        ValueParts::Object(entries) => JsonView::Object(entries_view(entries@)),
    }
}

/// Takes a `serde_json::Value` apart, variant by variant. The members of an
/// object come out of its `serde_json::Map`, which holds each name once.
#[verifier::external_body]
fn open_value<'a>(value: &'a serde_json::Value) -> (parts: ValueRef<'a>)
    ensures
        borrowed_parts_view(parts) == value_view(*value),
        parts matches ValueRef::Object(entries) ==> distinct_names(entries@),
{
    match value {
        serde_json::Value::Null => ValueRef::Null,
        serde_json::Value::Bool(b) => ValueRef::Bool(*b),
        serde_json::Value::Number(n) => ValueRef::Number(n),
        serde_json::Value::String(s) => ValueRef::Str(s),
        serde_json::Value::Array(items) => ValueRef::Array(items),
        serde_json::Value::Object(map) => ValueRef::Object(map.iter().collect()),
    }
}

/// Puts a `serde_json::Value` together, variant by variant. The members of an
/// object go into a `serde_json::Map` by `Map::insert` in their order, which
/// replaces the value of a name that is already there: a later member
/// replaces an earlier of the same name.
#[verifier::external_body]
fn close_value(parts: ValueParts) -> (value: serde_json::Value)
    ensures
        value_view(value) == parts_view(parts),
{
    match parts {
        ValueParts::Null => serde_json::Value::Null,
        ValueParts::Bool(b) => serde_json::Value::Bool(b),
        ValueParts::Number(n) => serde_json::Value::Number(n),
        ValueParts::Str(s) => serde_json::Value::String(s),
        ValueParts::Array(items) => serde_json::Value::Array(items),
        ValueParts::Object(entries) => {
            let mut map = serde_json::Map::new();
            for (name, value) in entries {
                map.insert(name, value);
            }
            serde_json::Value::Object(map)
        },
    }
}

/// `Number::as_i64`: the number as an integer, where it is one within `i64`.
#[verifier::external_body]
fn number_int(number: &serde_json::Number) -> (small: Option<i64>)
    ensures
        small == number_as_int(*number),
{
    number.as_i64()
}

/// `Number::from` on an `i64`: the number that `Number::as_i64` gives the
/// integer back for.
#[verifier::external_body]
fn number_of(i: i64) -> (number: serde_json::Number)
    ensures
        number_as_int(number) == Some(i),
{
    serde_json::Number::from(i)
}

/// `serde_json::from_str` on a text, read as a `serde_json::Value`. The result
/// is a function of the text: the value holds the tree named by `json_parse`,
/// and the call fails exactly where that names none.
#[verifier::external_body]
fn read_value(text: &str) -> (r: Result<serde_json::Value, serde_json::Error>)
    ensures
        r is Ok <==> json_parse(text@) is Some,
        r matches Ok(value) ==> json_parse(text@) == Some(value_view(value)),
{
    serde_json::from_str::<serde_json::Value>(text)
}

/// `serde_json::to_string` on a `serde_json::Value`. The result is a function
/// of the tree that the value holds, named by `json_text`: a
/// `serde_json::Map` is sorted by name, so the order in which the members
/// were put in does not show. The writer is the compact one and escapes every
/// control character inside strings, so the text holds no line feed.
#[verifier::external_body]
fn write_value(value: &serde_json::Value) -> (r: Result<String, serde_json::Error>)
    ensures
        r is Ok <==> json_text(value_view(*value)) is Some,
        r matches Ok(text) ==> json_text(value_view(*value)) == Some(text@) && !text@.contains(
            '\n',
        ),
{
    serde_json::to_string(value)
}

/// `Clone::clone` of a number of `serde_json`: the copy is the same number.
#[verifier::external_body]
fn copy_number(number: &serde_json::Number) -> (copy: serde_json::Number)
    ensures
        copy == *number,
{
    number.clone()
}

/// The message of an error of `serde_json`, as its `Display` gives it.
#[verifier::external_body]
fn error_message(error: &serde_json::Error) -> String {
    error.to_string()
}

/// A copy of a sequence of trees.
fn copy_items(items: &Vec<Json>) -> (copy: Vec<Json>)
    ensures
        items_view(copy@) == items_view(items@),
    decreases items,
{
    let mut copy: Vec<Json> = Vec::new();
    let mut i: usize = 0;
    while i < items.len()
        invariant
            i <= items.len(),
            copy.len() == i,
            forall|j: int| 0 <= j < i ==> copy@[j]@ == items@[j]@,
        decreases items.len() - i,
    {
        let item = items[i].clone();
        copy.push(item);
        i = i + 1;
    }
    proof {
        lemma_items_view(copy@);
        lemma_items_view(items@);
        assert(items_view(copy@) =~= items_view(items@));
    }
    copy
}

/// A copy of a sequence of members.
pub(crate) fn copy_members(members: &Vec<Member>) -> (copy: Vec<Member>)
    ensures
        members_view(copy@) == members_view(members@),
    decreases members,
{
    let mut copy: Vec<Member> = Vec::new();
    let mut i: usize = 0;
    while i < members.len()
        invariant
            i <= members.len(),
            copy.len() == i,
            members_view(copy@) == members_view(members@.take(i as int)),
        decreases members.len() - i,
    {
        let member = Member { name: members[i].name.clone(), value: members[i].value.clone() };
        proof {
            lemma_members_push(copy@, member);
            lemma_members_push(members@.take(i as int), members@[i as int]);
            assert(members@.take(i as int).push(members@[i as int]) =~= members@.take(i + 1));
        }
        copy.push(member);
        i = i + 1;
    }
    assert(members@.take(members.len() as int) =~= members@);
    copy
}

/// Where no two members bear the same name, each member's tree is what the
/// map holds under the member's name, and the map is finite.
proof fn lemma_borrowed_entries(entries: Seq<(&String, &serde_json::Value)>, at: int)
    requires
        distinct_names(entries),
        0 <= at < entries.len(),
    ensures
        borrowed_entries_view(entries).dom().finite(),
        borrowed_entries_view(entries).contains_key(entries[at].0@),
        borrowed_entries_view(entries)[entries[at].0@] == value_view(*entries[at].1),
    decreases entries.len(),
{
    let earlier = entries.drop_last();
    lemma_borrowed_entries_finite(entries);
    assert(borrowed_entries_view(entries) == borrowed_entries_view(earlier).insert(
        entries.last().0@,
        value_view(*entries.last().1),
    ));
    if at < entries.len() - 1 {
        assert(distinct_names(earlier)) by {
            assert forall|i: int, j: int| 0 <= i < j < earlier.len() implies (
            #[trigger] earlier[i]).0@ != (#[trigger] earlier[j]).0@ by {
                assert(earlier[i] == entries[i]);
                assert(earlier[j] == entries[j]);
            }
        }
        assert(earlier[at] == entries[at]);
        lemma_borrowed_entries(earlier, at);
        assert(entries[at].0@ != entries[entries.len() - 1].0@);
    }
}

/// The map of a sequence of members is finite.
proof fn lemma_borrowed_entries_finite(entries: Seq<(&String, &serde_json::Value)>)
    ensures
        borrowed_entries_view(entries).dom().finite(),
    decreases entries.len(),
{
    if entries.len() > 0 {
        lemma_borrowed_entries_finite(entries.drop_last());
        assert(borrowed_entries_view(entries) == borrowed_entries_view(entries.drop_last()).insert(
            entries.last().0@,
            value_view(*entries.last().1),
        ));
    } else {
        assert(borrowed_entries_view(entries) == Map::<Seq<char>, JsonView>::empty());
    }
}

/// The trees that a sequence of values holds.
fn trees_of(items: &Vec<serde_json::Value>) -> (trees: Vec<Json>)
    ensures
        items_view(trees@) == values_view(items@),
    decreases values_view(items@),
{
    let mut trees: Vec<Json> = Vec::new();
    let mut i: usize = 0;
    while i < items.len()
        invariant
            i <= items.len(),
            trees.len() == i,
            forall|j: int| 0 <= j < i ==> trees@[j]@ == value_view(items@[j]),
        decreases items.len() - i,
    {
        proof {
            let views = values_view(items@);
            assert(views[i as int] == value_view(items@[i as int]));
            assert(decreases_to!(views => views[i as int]));
        }
        let tree = tree_of(&items[i]);
        trees.push(tree);
        i = i + 1;
    }
    proof {
        lemma_items_view(trees@);
        assert(items_view(trees@) =~= values_view(items@));
    }
    trees
}

/// The members that a sequence of members of a `serde_json::Map` holds.
fn members_of(entries: &Vec<(&String, &serde_json::Value)>) -> (members: Vec<Member>)
    requires
        distinct_names(entries@),
    ensures
        members_view(members@) == borrowed_entries_view(entries@),
    decreases borrowed_entries_view(entries@),
{
    let mut members: Vec<Member> = Vec::new();
    let mut i: usize = 0;
    while i < entries.len()
        invariant
            i <= entries.len(),
            members.len() == i,
            distinct_names(entries@),
            members_view(members@) == borrowed_entries_view(entries@.take(i as int)),
        decreases entries.len() - i,
    {
        proof {
            lemma_borrowed_entries(entries@, i as int);
            let map = borrowed_entries_view(entries@);
            assert(decreases_to!(map => map[entries@[i as int].0@]));
        }
        let name = entries[i].0.clone();
        let tree = tree_of(entries[i].1);
        let member = Member { name, value: tree };
        proof {
            lemma_members_push(members@, member);
            let taken = entries@.take(i + 1);
            assert(taken.drop_last() =~= entries@.take(i as int));
            assert(taken.last() == entries@[i as int]);
        }
        members.push(member);
        i = i + 1;
    }
    assert(entries@.take(entries.len() as int) =~= entries@);
    members
}

/// The tree that a `serde_json::Value` holds.
fn tree_of(value: &serde_json::Value) -> (tree: Json)
    ensures
        tree@ == value_view(*value),
    decreases value_view(*value),
{
    match open_value(value) {
        ValueRef::Null => Json::Null,
        ValueRef::Bool(b) => Json::Bool(b),
        ValueRef::Number(n) => match number_int(n) {
            Some(i) => Json::Int(i),
            None => Json::Number(copy_number(n)),
        },
        ValueRef::Str(s) => Json::Str(s.clone()),
        ValueRef::Array(items) => {
            proof {
                let whole = value_view(*value);
                assert(whole == JsonView::Array(values_view(items@)));
                assert(decreases_to!(whole => whole->Array_0));
            }
            Json::Array(trees_of(items))
        },
        ValueRef::Object(entries) => {
            proof {
                let whole = value_view(*value);
                assert(whole == JsonView::Object(borrowed_entries_view(entries@)));
                assert(decreases_to!(whole => whole->Object_0));
            }
            Json::Object(members_of(&entries))
        },
    }
}

/// Values that hold the trees of a sequence.
fn values_of(items: &Vec<Json>) -> (values: Vec<serde_json::Value>)
    ensures
        values_view(values@) == items_view(items@),
    decreases items,
{
    let mut values: Vec<serde_json::Value> = Vec::new();
    let mut i: usize = 0;
    while i < items.len()
        invariant
            i <= items.len(),
            values.len() == i,
            forall|j: int| 0 <= j < i ==> value_view(values@[j]) == items@[j]@,
        decreases items.len() - i,
    {
        let value = value_of(&items[i]);
        values.push(value);
        i = i + 1;
    }
    proof {
        lemma_items_view(items@);
        assert(values_view(values@) =~= items_view(items@));
    }
    values
}

/// Members of a `serde_json::Map` that hold the members of a sequence.
fn entries_of(members: &Vec<Member>) -> (entries: Vec<(String, serde_json::Value)>)
    ensures
        entries_view(entries@) == members_view(members@),
    decreases members,
{
    let mut entries: Vec<(String, serde_json::Value)> = Vec::new();
    let mut i: usize = 0;
    while i < members.len()
        invariant
            i <= members.len(),
            entries.len() == i,
            entries_view(entries@) == members_view(members@.take(i as int)),
        decreases members.len() - i,
    {
        let name = members[i].name.clone();
        let value = value_of(&members[i].value);
        proof {
            assert(entries@.push((name, value)).drop_last() =~= entries@);
            lemma_members_push(members@.take(i as int), members@[i as int]);
            assert(members@.take(i as int).push(members@[i as int]) =~= members@.take(i + 1));
        }
        entries.push((name, value));
        i = i + 1;
    }
    assert(members@.take(members.len() as int) =~= members@);
    entries
}

/// A `serde_json::Value` that holds a tree.
fn value_of(tree: &Json) -> (value: serde_json::Value)
    ensures
        value_view(value) == tree@,
    decreases tree,
{
    match tree {
        Json::Null => close_value(ValueParts::Null),
        Json::Bool(b) => close_value(ValueParts::Bool(*b)),
        Json::Int(i) => close_value(ValueParts::Number(number_of(*i))),
        Json::Number(n) => close_value(ValueParts::Number(copy_number(n))),
        Json::Str(s) => close_value(ValueParts::Str(s.clone())),
        Json::Array(items) => close_value(ValueParts::Array(values_of(items))),
        Json::Object(members) => close_value(ValueParts::Object(entries_of(members))),
    }
}

impl Clone for Json {
    fn clone(&self) -> (copy: Json)
        ensures
            copy@ == self@,
        decreases self,
    {
        match self {
            Json::Null => Json::Null,
            Json::Bool(b) => Json::Bool(*b),
            Json::Int(i) => Json::Int(*i),
            Json::Number(n) => Json::Number(copy_number(n)),
            Json::Str(s) => Json::Str(s.clone()),
            Json::Array(items) => Json::Array(copy_items(items)),
            Json::Object(members) => Json::Object(copy_members(members)),
        }
    }
}

impl Clone for Member {
    fn clone(&self) -> (copy: Member)
        ensures
            copy.name@ == self.name@,
            copy.value@ == self.value@,
    {
        Member { name: self.name.clone(), value: self.value.clone() }
    }
}

impl Json {
    /// A string tree holding `text`.
    pub fn string(text: &str) -> (r: Json)
        ensures
            r@ == JsonView::Str(text@),
    {
        Json::Str(String::from_str(text))
    }

    /// The member `name` of an object; of several, the last.
    pub fn member(&self, name: &str) -> (r: Option<&Json>)
        ensures
            self@.member(name@) == match r {
                Some(value) => Some(value@),
                None => None,
            },
    {
        match self {
            Json::Object(members) => {
                let key = String::from_str(name);
                let mut i: usize = members.len();
                while i > 0
                    invariant
                        i <= members.len(),
                        *self == Json::Object(*members),
                        key@ == name@,
                        forall|j: int| i <= j < members.len() ==> members@[j].name@ != name@,
                    decreases i,
                {
                    i = i - 1;
                    if members[i].name == key {
                        let found = &members[i].value;
                        proof {
                            lemma_members_found(members@, name@, i as int);
                        }
                        return Some(found);
                    }
                }
                proof {
                    lemma_members_absent(members@, name@);
                }
                None
            },
            _ => None,
        }
    }

    /// The integer of a number tree that is one within `i64`.
    pub fn as_int(&self) -> (r: Option<i64>)
        ensures
            r == match self@ {
                JsonView::Int(i) => Some(i as i64),
                _ => None,
            },
    {
        match self {
            Json::Int(i) => Some(*i),
            Json::Number(n) => number_int(n),
            _ => None,
        }
    }

    /// The text of a string tree.
    pub fn as_text(&self) -> (r: Option<&String>)
        ensures
            self@.text() == match r {
                Some(s) => Some(s@),
                None => None,
            },
    {
        match self {
            Json::Str(s) => Some(s),
            _ => None,
        }
    }

    /// Reads a JSON document.
    pub fn parse(text: &str) -> (r: Result<Json, JsonError>)
        ensures
            r is Ok <==> json_parse(text@) is Some,
            r matches Ok(tree) ==> json_parse(text@) == Some(tree@),
    {
        match read_value(text) {
            Ok(value) => Ok(tree_of(&value)),
            Err(error) => Err(JsonError { message: error_message(&error) }),
        }
    }

    /// Writes the tree as one line of compact JSON.
    pub fn render(&self) -> (r: Result<String, JsonError>)
        ensures
            r is Ok <==> json_text(self@) is Some,
            r matches Ok(text) ==> json_text(self@) == Some(text@) && !text@.contains('\n'),
    {
        let value = value_of(self);
        match write_value(&value) {
            Ok(text) => Ok(text),
            Err(error) => Err(JsonError { message: error_message(&error) }),
        }
    }
}

} // verus!
