//! The JSON documents that the codecs read and write.
//!
//! A document is a tree of plain values. Its mathematical value, [`JsonView`],
//! is what every contract of the codecs speaks of.

use vstd::prelude::*;

verus! {

/// A JSON number, kept in the form in which a parser meets it.
#[derive(Clone, Copy, Debug, PartialEq, Eq)]
pub enum Number {
    /// An integer literal without sign that fits 64 bits.
    Unsigned(u64),
    /// A negative integer literal that fits 64 bits.
    Negative(i64),
    /// Any other number, as the bit pattern of its IEEE-754 binary64 value.
    Binary64(u64),
}

/// A JSON document.
#[derive(Debug, PartialEq)]
pub enum Json {
    Null,
    Bool(bool),
    Number(Number),
    Str(String),
    Array(Vec<Json>),
    /// The members in document order.
    Object(Vec<(String, Json)>),
}

/// The mathematical value of a [`Json`] document.
pub enum JsonView {
    Null,
    Bool(bool),
    Number(Number),
    Str(Seq<char>),
    Array(Seq<JsonView>),
    Object(Seq<(Seq<char>, JsonView)>),
}

/// The members of an object, by their mathematical values.
pub type Members = Seq<(Seq<char>, JsonView)>;

/// The value of a document.
pub open spec fn value_of(j: Json) -> JsonView
    decreases j,
{
    match j {
        Json::Null => JsonView::Null,
        Json::Bool(b) => JsonView::Bool(b),
        Json::Number(n) => JsonView::Number(n),
        Json::Str(s) => JsonView::Str(s@),
        Json::Array(items) => JsonView::Array(values_of(items@)),
        Json::Object(members) => JsonView::Object(members_of(members@)),
    }
}

/// The values of the items of an array, in order.
pub open spec fn values_of(items: Seq<Json>) -> Seq<JsonView>
    decreases items,
{
    Seq::new(
        items.len(),
        |i: int|
            if 0 <= i < items.len() {
                value_of(items[i])
            } else {
                JsonView::Null
            },
    )
}

/// The keys and values of the members of an object, in order.
pub open spec fn members_of(members: Seq<(String, Json)>) -> Members
    decreases members,
{
    Seq::new(
        members.len(),
        |i: int|
            if 0 <= i < members.len() {
                (members[i].0@, value_of(members[i].1))
            } else {
                (Seq::empty(), JsonView::Null)
            },
    )
}

impl View for Json {
    type V = JsonView;

    open spec fn view(&self) -> JsonView {
        value_of(*self)
    }
}

/// The value of the first member of `members` whose key is `key`.
pub open spec fn member(members: Members, key: Seq<char>) -> Option<JsonView>
    decreases members.len(),
{
    if members.len() == 0 {
        None
    } else if members[0].0 == key {
        Some(members[0].1)
    } else {
        member(members.drop_first(), key)
    }
}

/// Whether no member before position `i` has the key `key`.
pub open spec fn absent_before(members: Members, key: Seq<char>, i: int) -> bool {
    forall|k: int| 0 <= k < i && k < members.len() ==> (#[trigger] members[k]).0 != key
}

/// A key that no member before position `i` has, and that the member at `i`
/// has, is found at `i`.
pub proof fn lemma_member_at(members: Members, key: Seq<char>, i: int)
    requires
        0 <= i < members.len(),
        members[i].0 == key,
        absent_before(members, key, i),
    ensures
        member(members, key) == Some(members[i].1),
    decreases i,
{
    if i > 0 {
        let rest = members.drop_first();
        assert(members[0].0 != key);
        assert forall|k: int| 0 <= k < i - 1 && k < rest.len() implies (#[trigger] rest[k]).0
            != key by {
            assert(rest[k] == members[k + 1]);
        }
        lemma_member_at(rest, key, i - 1);
    }
}

/// A key that no member has is not found.
pub proof fn lemma_member_absent(members: Members, key: Seq<char>)
    requires
        absent_before(members, key, members.len() as int),
    ensures
        member(members, key) is None,
    decreases members.len(),
{
    if members.len() > 0 {
        let rest = members.drop_first();
        assert(members[0].0 != key);
        assert forall|k: int| 0 <= k < rest.len() implies (#[trigger] rest[k]).0 != key by {
            assert(rest[k] == members[k + 1]);
        }
        lemma_member_absent(rest, key);
    }
}

/// What is found in a list of members with one more at the end: what was
/// found before, or else the new member where it has the key.
pub proof fn lemma_member_push(members: Members, key: Seq<char>, value: JsonView)
    ensures
        forall|wanted: Seq<char>| #[trigger]
            member(members.push((key, value)), wanted) == (match member(members, wanted) {
                Some(found) => Some(found),
                None => if key == wanted {
                    Some(value)
                } else {
                    None
                },
            }),
    decreases members.len(),
{
    let longer = members.push((key, value));
    assert forall|wanted: Seq<char>| #[trigger]
        member(longer, wanted) == (match member(members, wanted) {
            Some(found) => Some(found),
            None => if key == wanted {
                Some(value)
            } else {
                None
            },
        }) by {
        assert(longer[0] == if members.len() == 0 {
            (key, value)
        } else {
            members[0]
        });
        if members.len() == 0 {
            assert(longer.drop_first().len() == 0);
            assert(member(longer.drop_first(), wanted) is None);
            assert(member(members, wanted) is None);
        } else {
            assert(longer.drop_first() =~= members.drop_first().push((key, value)));
            lemma_member_push(members.drop_first(), key, value);
            assert(member(longer.drop_first(), wanted) == (match member(
                members.drop_first(),
                wanted,
            ) {
                Some(found) => Some(found),
                None => if key == wanted {
                    Some(value)
                } else {
                    None
                },
            }));
        }
    }
}

/// Adding a member at the end adds its key and value at the end.
pub proof fn lemma_members_push(members: Seq<(String, Json)>, key: String, value: Json)
    ensures
        members_of(members.push((key, value))) == members_of(members).push((key@, value_of(value))),
{
    assert(members_of(members.push((key, value))) =~= members_of(members).push(
        (key@, value_of(value)),
    ));
}

impl Clone for Json {
    /// A deep copy: the copy has the same value.
    fn clone(&self) -> (copy: Json)
        ensures
            copy@ == self@,
        decreases self,
    {
        match self {
            Json::Null => Json::Null,
            Json::Bool(b) => Json::Bool(*b),
            Json::Number(n) => Json::Number(*n),
            Json::Str(s) => Json::Str(s.clone()),
            Json::Array(items) => {
                let mut copies: Vec<Json> = Vec::new();
                let mut i: usize = 0;
                while i < items.len()
                    invariant
                        *self == Json::Array(*items),
                        i <= items.len(),
                        copies@.len() == i,
                        forall|k: int| 0 <= k < i ==> value_of(#[trigger] copies@[k])
                            == value_of(items@[k]),
                    decreases items.len() - i,
                {
                    assert(decreases_to!(*self => self->Array_0));
                    assert(decreases_to!(self->Array_0 => items@[i as int]));
                    let item = items[i].clone();
                    copies.push(item);
                    i += 1;
                }
                assert(values_of(copies@) =~= values_of(items@));
                Json::Array(copies)
            },
            Json::Object(members) => {
                let mut copies: Vec<(String, Json)> = Vec::new();
                let mut i: usize = 0;
                while i < members.len()
                    invariant
                        *self == Json::Object(*members),
                        i <= members.len(),
                        copies@.len() == i,
                        forall|k: int|
                            0 <= k < i ==> (#[trigger] copies@[k]).0@ == members@[k].0@ && value_of(
                                copies@[k].1,
                            ) == value_of(members@[k].1),
                    decreases members.len() - i,
                {
                    let key = members[i].0.clone();
                    assert(decreases_to!(*self => self->Object_0));
                    assert(decreases_to!(self->Object_0 => members@[i as int]));
                    assert(decreases_to!(members@[i as int] => members@[i as int].1));
                    let value = members[i].1.clone();
                    copies.push((key, value));
                    i += 1;
                }
                assert(members_of(copies@) =~= members_of(members@));
                Json::Object(copies)
            },
        }
    }
}

impl Json {
    /// The string document that holds `text`.
    pub fn string(text: &str) -> (j: Json)
        ensures
            j@ == JsonView::Str(text@),
    {
        Json::Str(text.to_owned())
    }

    /// The number document that holds `n`.
    pub fn unsigned(n: u64) -> (j: Json)
        ensures
            j@ == JsonView::Number(Number::Unsigned(n)),
    {
        Json::Number(Number::Unsigned(n))
    }

    /// The first member of an object whose key is `key`; `None` where there is
    /// no such member or the document is no object.
    pub fn get(&self, key: &str) -> (found: Option<&Json>)
        ensures
            match found {
                Some(value) => self@ matches JsonView::Object(members) && member(members, key@)
                    == Some(value@),
                None => self@ matches JsonView::Object(members) ==> member(members, key@) is None,
            },
    {
        match self {
            Json::Object(members) => find_member(members, key),
            _ => None,
        }
    }
}

/// The first member of `members` whose key is `key`.
pub fn find_member<'a>(members: &'a Vec<(String, Json)>, key: &str) -> (found: Option<&'a Json>)
    ensures
        match found {
            Some(value) => member(members_of(members@), key@) == Some(value@),
            None => member(members_of(members@), key@) is None,
        },
{
    let wanted = key.to_owned();
    let ghost all = members_of(members@);
    let mut i: usize = 0;
    while i < members.len()
        invariant
            i <= members.len(),
            wanted@ == key@,
            all == members_of(members@),
            absent_before(all, key@, i as int),
        decreases members.len() - i,
    {
        if members[i].0 == wanted {
            proof {
                lemma_member_at(all, key@, i as int);
            }
            return Some(&members[i].1);
        }
        i += 1;
    }
    proof {
        lemma_member_absent(all, key@);
    }
    None
}

/// A copy of a list of members, with the same keys and values.
pub fn clone_members(members: &Vec<(String, Json)>) -> (copies: Vec<(String, Json)>)
    ensures
        members_of(copies@) == members_of(members@),
{
    let mut copies: Vec<(String, Json)> = Vec::new();
    let mut i: usize = 0;
    while i < members.len()
        invariant
            i <= members.len(),
            copies@.len() == i,
            forall|k: int|
                0 <= k < i ==> (#[trigger] copies@[k]).0@ == members@[k].0@ && value_of(
                    copies@[k].1,
                ) == value_of(members@[k].1),
        decreases members.len() - i,
    {
        let key = members[i].0.clone();
        let value = members[i].1.clone();
        copies.push((key, value));
        i += 1;
    }
    assert(members_of(copies@) =~= members_of(members@));
    copies
}

/// A list of members that holds none yet.
pub fn new_members() -> (members: Vec<(String, Json)>)
    ensures
        members@.len() == 0,
        members_of(members@) == Members::empty(),
{
    let members: Vec<(String, Json)> = Vec::new();
    assert(members_of(members@) =~= Members::empty());
    members
}

/// Whether `text` is the text `wanted`.
pub fn text_is(text: &String, wanted: &str) -> (same: bool)
    ensures
        same == (text@ == wanted@),
{
    let owned = wanted.to_owned();
    *text == owned
}

/// Whether the text `text` is the text `wanted`.
pub fn str_is(text: &str, wanted: &str) -> (same: bool)
    ensures
        same == (text@ == wanted@),
{
    let owned = text.to_owned();
    text_is(&owned, wanted)
}

/// Adds the member `key`: `value` at the end of `members`.
pub fn push_member(members: &mut Vec<(String, Json)>, key: &str, value: Json)
    ensures
        members_of(final(members)@) == members_of(old(members)@).push((key@, value@)),
{
    let owned = key.to_owned();
    proof {
        lemma_members_push(members@, owned, value);
    }
    members.push((owned, value));
}

} // verus!
