//! Request payloads: JSON values, built and written out by `serde_json`.

use serde_json::Value;
use vstd::prelude::*;

verus! {

/// `serde_json::Value`, any JSON value.  Nothing is known of what is inside
/// one but what [`json_text`] and [`json_members`] say.
#[verifier::external_type_specification]
#[verifier::external_body]
pub struct ExValue(serde_json::Value);

/// `serde_json::Error`, why a value could not be written.
#[verifier::external_type_specification]
#[verifier::external_body]
pub struct ExJsonError(serde_json::Error);

/// What a JSON value holds, as its compact JSON text.
pub uninterp spec fn json_text(v: serde_json::Value) -> Seq<char>;

/// The members of a JSON object by key: a string member with its string, any
/// other member with `None`.  Empty for a value that is no object.
pub uninterp spec fn json_members(v: serde_json::Value) -> Map<Seq<char>, Option<Seq<char>>>;

/// `serde_json::to_string` on a `Value`: the compact text of the value.  It
/// succeeds on every `Value`, whose map keys are strings and whose text goes
/// to memory; and it writes no line feed, since compact output has no layout
/// and a line feed inside a string is written as an escape.
#[verifier::external_body]
fn value_to_string(v: &Value) -> (r: Result<String, serde_json::Error>)
    ensures
        r is Ok,
        r->Ok_0@ == json_text(*v),
        !r->Ok_0@.contains('\n'),
{
    serde_json::to_string(v)
}

/// The object members that a list of keys and strings stands for.
pub open spec fn string_members(members: Seq<(String, String)>) -> Map<
    Seq<char>,
    Option<Seq<char>>,
>
    decreases members.len(),
{
    if members.len() == 0 {
        Map::empty()
    } else {
        string_members(members.drop_last()).insert(members.last().0@, Some(members.last().1@))
    }
}

/// `serde_json::Value::from_iter` on pairs of strings: the object whose
/// members are the pairs.  Which of two pairs with one key would stay is left
/// open by the crate, so no key may occur twice.
#[verifier::external_body]
fn object_of_strings(members: Vec<(String, String)>) -> (v: Value)
    requires
        forall|i: int, j: int|
            0 <= i < j < members@.len() ==> (#[trigger] members@[i]).0@ != (#[trigger] members@[j]).0@,
    ensures
        json_members(v) == string_members(members@),
{
    Value::from_iter(members)
}

/// The members of the payload that asks a runner about an utterance.
pub open spec fn request_members(utterance: Seq<char>, language: Seq<char>) -> Map<
    Seq<char>,
    Option<Seq<char>>,
> {
    map!["utterance"@ => Some(utterance), "language"@ => Some(language)]
}

/// The payload that asks a runner about an utterance: an object with the
/// utterance and its language, and nothing else.
pub fn request_payload(utterance: &str, language: &str) -> (payload: Value)
    ensures
        json_members(payload) == request_members(utterance@, language@),
{
    let mut members: Vec<(String, String)> = Vec::new();
    members.push(("utterance".to_owned(), utterance.to_owned()));
    members.push(("language".to_owned(), language.to_owned()));
    proof {
        reveal_strlit("utterance");
        reveal_strlit("language");
        let m = members@;
        assert("utterance"@.len() != "language"@.len());
        assert(m.drop_last().drop_last() =~= Seq::empty());
        reveal_with_fuel(string_members, 3);
        assert(string_members(m) =~= request_members(utterance@, language@));
    }
    object_of_strings(members)
}

/// One request as it goes to an agent: the payload's JSON text, ended by a
/// line feed.
pub open spec fn request_line_text(payload: serde_json::Value) -> Seq<char> {
    json_text(payload).push('\n')
}

/// The payload as one line of the newline-delimited protocol.
///
/// The line feed that ends the line is the only one in it.
pub fn request_line(payload: &Value) -> (r: Result<String, String>)
    ensures
        r matches Ok(line) && line@ == request_line_text(*payload) && is_one_line(line@),
{
    match value_to_string(payload) {
        Ok(text) => {
            let mut line = text;
            line.append("\n");
            proof {
                reveal_strlit("\n");
                assert(line@ =~= request_line_text(*payload));
            }
            Ok(line)
        },
        Err(e) => Err(e.to_string()),
    }
}

/// A text with exactly one line feed, at its end.
pub open spec fn is_one_line(text: Seq<char>) -> bool {
    &&& text.len() > 0
    &&& forall|i: int| 0 <= i < text.len() ==> (#[trigger] text[i] == '\n' <==> i == text.len() - 1)
}

/// What a list of keys and strings stands for, member by member: under each
/// key the string that goes with it, whole, and nothing under any other key.
pub proof fn law_string_members(members: Seq<(String, String)>)
    requires
        forall|i: int, j: int|
            0 <= i < j < members.len() ==> (#[trigger] members[i]).0@ != (#[trigger] members[j]).0@,
    ensures
        forall|i: int|
            0 <= i < members.len() ==> string_members(members).contains_pair(
                (#[trigger] members[i]).0@,
                Some(members[i].1@),
            ),
        forall|key: Seq<char>| #[trigger]
            string_members(members).contains_key(key) ==> exists|i: int|
                0 <= i < members.len() && (#[trigger] members[i]).0@ == key,
    decreases members.len(),
{
    if members.len() > 0 {
        let rest = members.drop_last();
        law_string_members(rest);
        assert forall|i: int| 0 <= i < members.len() implies string_members(members).contains_pair(
            (#[trigger] members[i]).0@,
            Some(members[i].1@),
        ) by {
            if i < members.len() - 1 {
                assert(rest[i] == members[i]);
                assert(members[i].0@ != members[members.len() - 1].0@);
            }
        }
        assert forall|key: Seq<char>| #[trigger]
            string_members(members).contains_key(key) implies exists|i: int|
            0 <= i < members.len() && (#[trigger] members[i]).0@ == key by {
            if key == members.last().0@ {
                assert(members[members.len() - 1].0@ == key);
            } else {
                assert(string_members(rest).contains_key(key));
                let i = choose|i: int| 0 <= i < rest.len() && (#[trigger] rest[i]).0@ == key;
                assert(members[i].0@ == key);
            }
        }
    }
}

/// A request payload holds the utterance and the language, each whole and
/// under its own key, and nothing else.
pub proof fn law_request_holds_utterance_and_language(
    payload: serde_json::Value,
    utterance: Seq<char>,
    language: Seq<char>,
)
    requires
        json_members(payload) == request_members(utterance, language),
    ensures
        json_members(payload).contains_pair("utterance"@, Some(utterance)),
        json_members(payload).contains_pair("language"@, Some(language)),
        forall|key: Seq<char>| #[trigger]
            json_members(payload).contains_key(key) <==> key == "utterance"@ || key
                == "language"@,
{
    reveal_strlit("utterance");
    reveal_strlit("language");
    assert("utterance"@.len() != "language"@.len());
}

/// Requests about different utterances, or about one utterance in different
/// languages, have different payloads.
pub proof fn law_different_requests_differ(
    payload: serde_json::Value,
    utterance: Seq<char>,
    language: Seq<char>,
    other_payload: serde_json::Value,
    other_utterance: Seq<char>,
    other_language: Seq<char>,
)
    requires
        json_members(payload) == request_members(utterance, language),
        json_members(other_payload) == request_members(other_utterance, other_language),
        payload == other_payload,
    ensures
        utterance == other_utterance,
        language == other_language,
{
    law_request_holds_utterance_and_language(payload, utterance, language);
    law_request_holds_utterance_and_language(other_payload, other_utterance, other_language);
}

/// The line of a request is the payload's JSON text, whole, and a line feed.
pub proof fn law_request_line_is_the_payload_and_a_line_feed(payload: serde_json::Value)
    ensures
        request_line_text(payload).len() == json_text(payload).len() + 1,
        request_line_text(payload).drop_last() == json_text(payload),
        request_line_text(payload).last() == '\n',
{
    assert(request_line_text(payload).drop_last() =~= json_text(payload));
}

/// A text that is one line holds a line feed at its end and nowhere else.
pub proof fn law_one_line_ends_at_its_line_feed(text: Seq<char>)
    requires
        is_one_line(text),
    ensures
        text.last() == '\n',
        !text.drop_last().contains('\n'),
{
    assert forall|i: int| 0 <= i < text.len() - 1 implies #[trigger] text.drop_last()[i] != '\n' by {
        assert(text[i] != '\n');
    }
}

/// What `request_payload` gives: an object with the utterance and the
/// language, each whole and under its own key, and nothing else.
pub proof fn law_request_payload_step(
    utterance: &str,
    language: &str,
    payload: serde_json::Value,
)
    requires
        call_ensures(request_payload, (utterance, language), payload),
    ensures
        json_members(payload).contains_pair("utterance"@, Some(utterance@)),
        json_members(payload).contains_pair("language"@, Some(language@)),
        forall|key: Seq<char>| #[trigger]
            json_members(payload).contains_key(key) <==> key == "utterance"@ || key
                == "language"@,
{
    law_request_holds_utterance_and_language(payload, utterance@, language@);
}

/// What `request_line` gives: the payload's JSON text, whole, and the one line
/// feed that ends it.
pub proof fn law_request_line_step(payload: &serde_json::Value, line: Result<String, String>)
    requires
        call_ensures(request_line, (payload,), line),
    ensures
        line is Ok,
        line->Ok_0@ == json_text(*payload) + seq!['\n'],
        !json_text(*payload).contains('\n'),
{
    law_one_line_ends_at_its_line_feed(line->Ok_0@);
    assert(line->Ok_0@.drop_last() =~= json_text(*payload));
}

} // verus!
