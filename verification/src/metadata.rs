//! Participant metadata.
//!
//! A participant publishes a short JSON document about itself. The session
//! reads one member of it, the display name under the key `username`, and
//! writes documents of the same shape for the local participant.

use vstd::prelude::*;

verus! {

/// The key under which a participant's display name stands in its metadata.
pub const USERNAME_KEY: &'static str = "username";

/// One member of a JSON object: its key, and the text of its value where the
/// value is a JSON string.
#[derive(Clone, Debug, PartialEq, Eq)]
pub struct JsonMember {
    pub key: String,
    pub text: Option<String>,
}

impl View for JsonMember {
    type V = (Seq<char>, Option<Seq<char>>);

    open spec fn view(&self) -> (Seq<char>, Option<Seq<char>>) {
        (
            self.key@,
            match self.text {
                Some(text) => Some(text@),
                None => None,
            },
        )
    }
}

/// The contents of a list of members, in order.
pub open spec fn members_view(members: Seq<JsonMember>) -> Seq<(Seq<char>, Option<Seq<char>>)> {
    members.map_values(|m: JsonMember| m@)
}

/// The contents of an optional string.
pub open spec fn text_view(text: Option<String>) -> Option<Seq<char>> {
    match text {
        Some(t) => Some(t@),
        None => None,
    }
}

/// What `serde_json` makes of `text`: `None` where `text` is no JSON document,
/// otherwise the members of the document's top-level object (none where the
/// document is not an object), each key with its value's text where that value
/// is a string.
pub uninterp spec fn json_object_members(text: Seq<char>) -> Option<
    Seq<(Seq<char>, Option<Seq<char>>)>,
>;

/// What `serde_json` writes for the JSON string whose content is `text`: the
/// content in double quotes, with the escapes that JSON asks for.
pub uninterp spec fn json_string_literal(text: Seq<char>) -> Seq<char>;

/// Parses `text` with `serde_json::from_str` into a `serde_json::Value` and
/// hands out the members of the object it finds. Nothing here is proved: the
/// contract only gives the outcome its name, [`json_object_members`], and
/// thereby claims that the outcome depends on `text` alone.
#[verifier::external_body]
fn parse_object_members(text: &str) -> (r: Option<Vec<JsonMember>>)
    ensures
        match r {
            Some(members) => json_object_members(text@) == Some(members_view(members@)),
            None => json_object_members(text@) is None,
        },
{
    match serde_json::from_str::<serde_json::Value>(text) {
        Ok(serde_json::Value::Object(map)) => {
            let mut members = Vec::new();
            for (key, value) in map {
                let text = match value {
                    serde_json::Value::String(s) => Some(s),
                    _ => None,
                };
                members.push(JsonMember { key, text });
            }
            Some(members)
        },
        Ok(_) => Some(Vec::new()),
        Err(_) => None,
    }
}

/// Writes `text` as a JSON string through the `Display` of
/// `serde_json::Value`. Nothing here is proved: the contract only gives the
/// outcome its name, [`json_string_literal`].
#[verifier::external_body]
fn write_json_string(text: &str) -> (r: String)
    ensures
        r@ == json_string_literal(text@),
{
    serde_json::Value::String(text.to_owned()).to_string()
}

/// The text of the first member of `members` whose key is `key`, where there
/// is such a member and its value is a string.
pub open spec fn member_text(members: Seq<(Seq<char>, Option<Seq<char>>)>, key: Seq<char>) -> Option<
    Seq<char>,
>
    decreases members.len(),
{
    if members.len() == 0 {
        None
    } else if members.first().0 == key {
        members.first().1
    } else {
        member_text(members.drop_first(), key)
    }
}

/// The lookup answers with the first member that has the key: where member
/// `at` has it and none before does, the answer is what that member holds.
pub proof fn lemma_member_text_is_first_match(
    members: Seq<(Seq<char>, Option<Seq<char>>)>,
    key: Seq<char>,
    at: int,
)
    requires
        0 <= at < members.len(),
        members[at].0 == key,
        forall|j: int| 0 <= j < at ==> (#[trigger] members[j]).0 != key,
    ensures
        member_text(members, key) == members[at].1,
    decreases members.len(),
{
    if at > 0 {
        let rest = members.drop_first();
        assert(members.first() == members[0]);
        assert forall|j: int| 0 <= j < at - 1 implies (#[trigger] rest[j]).0 != key by {
            assert(rest[j] == members[j + 1]);
        }
        lemma_member_text_is_first_match(rest, key, at - 1);
    }
}

/// The lookup answers with nothing where no member has the key.
pub proof fn lemma_member_text_without_key(
    members: Seq<(Seq<char>, Option<Seq<char>>)>,
    key: Seq<char>,
)
    requires
        forall|j: int| 0 <= j < members.len() ==> (#[trigger] members[j]).0 != key,
    ensures
        member_text(members, key) is None,
    decreases members.len(),
{
    if members.len() > 0 {
        let rest = members.drop_first();
        assert(members.first() == members[0]);
        assert forall|j: int| 0 <= j < rest.len() implies (#[trigger] rest[j]).0 != key by {
            assert(rest[j] == members[j + 1]);
        }
        lemma_member_text_without_key(rest, key);
    }
}

/// The display name that the metadata document `text` carries: the string
/// under `username` in its top-level object. There is none where the text is
/// empty or no JSON, where the document is no object, where the member is
/// missing, or where its value is not a string.
pub open spec fn metadata_username(text: Seq<char>) -> Option<Seq<char>> {
    if text.len() == 0 {
        None
    } else {
        match json_object_members(text) {
            Some(members) => member_text(members, USERNAME_KEY@),
            None => None,
        }
    }
}

/// The metadata document that publishes `name` as display name.
pub open spec fn username_document(name: Seq<char>) -> Seq<char> {
    "{\"username\":"@ + json_string_literal(name) + "}"@
}

/// Looks `key` up among `members`: the text of the first member with that key,
/// if its value is a string.
pub fn find_member_text(members: &Vec<JsonMember>, key: &str) -> (r: Option<String>)
    ensures
        text_view(r) == member_text(members_view(members@), key@),
{
    let wanted: String = key.to_owned();
    let mut i: usize = 0;
    assert(members_view(members@).skip(0) =~= members_view(members@));
    while i < members.len()
        invariant
            i <= members@.len(),
            wanted@ == key@,
            member_text(members_view(members@), key@) == member_text(
                members_view(members@).skip(i as int),
                key@,
            ),
        decreases members@.len() - i,
    {
        let ghost rest = members_view(members@).skip(i as int);
        assert(rest.first() == members@[i as int]@);
        assert(rest.drop_first() =~= members_view(members@).skip(i + 1));
        if members[i].key == wanted {
            return members[i].text.clone();
        }
        i = i + 1;
    }
    None
}

/// Reads the display name out of a participant's metadata.
pub fn username_from_metadata(metadata: &str) -> (r: Option<String>)
    ensures
        text_view(r) == metadata_username(metadata@),
{
    if metadata.is_empty() {
        return None;
    }
    match parse_object_members(metadata) {
        Some(members) => find_member_text(&members, USERNAME_KEY),
        None => None,
    }
}

/// Writes the metadata document that publishes `name` as display name.
pub fn username_metadata(name: &str) -> (r: String)
    ensures
        r@ == username_document(name@),
{
    let mut document: String = "{\"username\":".to_owned();
    let quoted: String = write_json_string(name);
    document.append(quoted.as_str());
    document.append("}");
    document
}

} // verus!
