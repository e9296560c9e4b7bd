//! Intents, and the responses that handling one gives.

use vstd::prelude::*;

verus! {

/// The name of an intent, such as `HassTurnOn`.
#[derive(Clone, Debug, PartialEq, Eq)]
pub struct IntentName(pub String);

impl IntentName {
    /// The name as text.
    pub fn as_str(&self) -> (r: &str)
        ensures
            r@ == self.0@,
    {
        self.0.as_str()
    }
}

/// A named value taken from an utterance.
#[derive(Clone, Debug, PartialEq, Eq)]
pub struct Slot {
    pub name: String,
    pub value: String,
}

/// What an utterance asks for.
#[derive(Clone, Debug, PartialEq, Eq)]
pub struct Intent {
    pub name: IntentName,
    pub slots: Vec<Slot>,
    pub language: String,
}

/// The value of the first slot with the given name.
pub open spec fn slot_value(slots: Seq<Slot>, name: Seq<char>) -> Option<Seq<char>>
    decreases slots.len(),
{
    if slots.len() == 0 {
        None
    } else if slots[0].name@ == name {
        Some(slots[0].value@)
    } else {
        slot_value(slots.drop_first(), name)
    }
}

impl Intent {
    /// An intent about one entity.
    pub fn with_entity(name: &str, entity_id: &str, language: &str) -> (r: Intent)
        ensures
            r.name.0@ == name@,
            r.slots@.len() == 1,
            r.slots@[0].name@ == "entity_id"@,
            r.slots@[0].value@ == entity_id@,
            slot_value(r.slots@, "entity_id"@) == Some(entity_id@),
            r.language@ == language@,
    {
        let mut slots: Vec<Slot> = Vec::new();
        slots.push(Slot { name: "entity_id".to_owned(), value: entity_id.to_owned() });
        Intent { name: IntentName(name.to_owned()), slots, language: language.to_owned() }
    }

    /// The entity that the intent is about: the value of its `entity_id` slot.
    pub fn entity_id(&self) -> (r: Option<&str>)
        ensures
            match (r, slot_value(self.slots@, "entity_id"@)) {
                (Some(found), Some(value)) => found@ == value,
                (None, None) => true,
                _ => false,
            },
    {
        let wanted: String = "entity_id".to_owned();
        let mut i: usize = 0;
        assert(self.slots@.skip(0) =~= self.slots@);
        while i < self.slots.len()
            invariant
                i <= self.slots@.len(),
                wanted@ == "entity_id"@,
                slot_value(self.slots@, "entity_id"@) == slot_value(
                    self.slots@.skip(i as int),
                    "entity_id"@,
                ),
            decreases self.slots@.len() - i,
        {
            assert(self.slots@.skip(i as int).drop_first() =~= self.slots@.skip(i + 1));
            if self.slots[i].name == wanted {
                return Some(self.slots[i].value.as_str());
            }
            i += 1;
        }
        None
    }
}

/// Something to show beside the spoken response.
#[derive(Clone, Debug, PartialEq, Eq)]
pub struct Card {
    pub title: String,
    pub content: String,
}

/// The response to an utterance: what to say, and what to show if anything.
#[derive(Clone, Debug, PartialEq, Eq)]
pub struct IntentResponse {
    pub speech: String,
    pub card: Option<Card>,
}

/// What is said when an utterance leads to no intent that can be handled.
pub open spec fn not_understood_speech() -> Seq<char> {
    "I'm not sure how to help with that."@
}

impl IntentResponse {
    /// A response that only says something.
    pub fn speech_only(speech: String) -> (r: IntentResponse)
        ensures
            r == (IntentResponse { speech, card: None }),
    {
        IntentResponse { speech, card: None }
    }

    /// Whether this is the response to an utterance that was not understood.
    pub open spec fn is_not_understood(self) -> bool {
        &&& self.speech@ == not_understood_speech()
        &&& self.card is None
    }

    /// The response to an utterance that was not understood.
    pub fn not_understood() -> (r: IntentResponse)
        ensures
            r.is_not_understood(),
    {
        IntentResponse::speech_only("I'm not sure how to help with that.".to_owned())
    }
}

/// The slot that counts is the first of its name, with its whole value,
/// wherever it stands among the slots.
pub proof fn law_first_slot_of_a_name_counts(slots: Seq<Slot>, name: Seq<char>, i: int)
    requires
        0 <= i < slots.len(),
        slots[i].name@ == name,
        forall|j: int| 0 <= j < i ==> (#[trigger] slots[j]).name@ != name,
    ensures
        slot_value(slots, name) == Some(slots[i].value@),
    decreases slots.len(),
{
    if i > 0 {
        assert(slots[0].name@ != name);
        let rest = slots.drop_first();
        assert forall|j: int| 0 <= j < i - 1 implies (#[trigger] rest[j]).name@ != name by {
            assert(rest[j] == slots[j + 1]);
        }
        law_first_slot_of_a_name_counts(rest, name, i - 1);
    }
}

/// Without a slot of the name there is no value, and only then.
pub proof fn law_no_slot_no_value(slots: Seq<Slot>, name: Seq<char>)
    ensures
        slot_value(slots, name) is None <==> forall|i: int|
            0 <= i < slots.len() ==> (#[trigger] slots[i]).name@ != name,
    decreases slots.len(),
{
    if slots.len() > 0 {
        let rest = slots.drop_first();
        law_no_slot_no_value(rest, name);
        if slots[0].name@ != name {
            assert(forall|i: int| 0 <= i < rest.len() ==> #[trigger] rest[i] == slots[i + 1]);
            assert forall|i: int| 0 < i < slots.len() implies #[trigger] slots[i] == rest[i - 1] by {}
        }
    }
}

/// The response to an utterance that was not understood is this sentence, with
/// nothing to show.
pub proof fn law_not_understood_says_so(response: IntentResponse)
    ensures
        response.is_not_understood() <==> {
            &&& response.speech@ == "I'm not sure how to help with that."@
            &&& response.card is None
        },
{
}

/// What `entity_id` gives: the value of the first slot called `entity_id`,
/// whole, and nothing where there is no such slot.
pub proof fn law_entity_id_step(intent: &Intent, entity: Option<&str>) -> (at: int)
    requires
        call_ensures(Intent::entity_id, (intent,), entity),
    ensures
        entity is Some ==> {
            &&& 0 <= at < intent.slots@.len()
            &&& intent.slots@[at].name@ == "entity_id"@
            &&& intent.slots@[at].value@ == entity->0@
            &&& forall|j: int| 0 <= j < at ==> (#[trigger] intent.slots@[j]).name@ != "entity_id"@
        },
        entity is None ==> forall|i: int|
            0 <= i < intent.slots@.len() ==> (#[trigger] intent.slots@[i]).name@ != "entity_id"@,
{
    law_no_slot_no_value(intent.slots@, "entity_id"@);
    if entity is Some {
        lemma_first_slot(intent.slots@, "entity_id"@)
    } else {
        0
    }
}

/// Where the first slot of a name stands.
proof fn lemma_first_slot(slots: Seq<Slot>, name: Seq<char>) -> (at: int)
    requires
        slot_value(slots, name) is Some,
    ensures
        0 <= at < slots.len(),
        slots[at].name@ == name,
        slot_value(slots, name) == Some(slots[at].value@),
        forall|j: int| 0 <= j < at ==> (#[trigger] slots[j]).name@ != name,
    decreases slots.len(),
{
    if slots[0].name@ == name {
        0
    } else {
        let rest = slots.drop_first();
        let at: int = lemma_first_slot(rest, name);
        assert forall|j: int| 0 <= j < at + 1 implies (#[trigger] slots[j]).name@ != name by {
            if j > 0 {
                assert(slots[j] == rest[j - 1]);
            }
        }
        at + 1
    }
}

/// What `not_understood` gives: this sentence, with nothing to show.
pub proof fn law_not_understood_step(response: IntentResponse)
    requires
        call_ensures(IntentResponse::not_understood, (), response),
    ensures
        response.speech@ == "I'm not sure how to help with that."@,
        response.card is None,
{
}

/// An intent made about an entity is about that entity, and has the name and
/// the language that it was made with.
pub proof fn law_entity_is_read_back(
    name: &str,
    entity_id: &str,
    language: &str,
    intent: Intent,
    entity: Option<&str>,
    read_name: &str,
)
    requires
        call_ensures(Intent::with_entity, (name, entity_id, language), intent),
        call_ensures(Intent::entity_id, (&intent,), entity),
        call_ensures(IntentName::as_str, (&intent.name,), read_name),
    ensures
        entity is Some,
        entity->0@ == entity_id@,
        read_name@ == name@,
        intent.language@ == language@,
        intent.slots@.len() == 1,
{
}

/// A response that only says something says just that.
pub proof fn law_speech_only_step(speech: String, response: IntentResponse)
    requires
        call_ensures(IntentResponse::speech_only, (speech,), response),
    ensures
        response.speech == speech,
        response.card is None,
{
}

} // verus!
