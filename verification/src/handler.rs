//! Intent handlers, as far as the pipeline sees them.

use vstd::prelude::*;

verus! {

/// Why a handler failed on an intent, in its own words.
#[derive(Clone, Debug, PartialEq, Eq)]
pub struct HandlerError {
    pub message: String,
}

/// A handler, which is found by the name of the intent that it handles.
pub trait IntentHandler: Sized {
    /// The name of the intent that the handler is for.
    fn intent_name(&self) -> (r: &str);
}

/// The handler is for the intent of that name: its `intent_name` may give it.
pub open spec fn is_for<H: IntentHandler>(handler: H, name: &str) -> bool {
    call_ensures(H::intent_name, (&handler,), name)
}

/// The handlers that every home has.
#[derive(Clone, Copy, Debug, PartialEq, Eq, Structural)]
pub enum BuiltinHandler {
    HassTurnOn,
    HassTurnOff,
    HassLightSet,
    HassNevermind,
    HassCancelAll,
}

impl BuiltinHandler {
    /// The name of the intent that the handler is for.
    pub open spec fn handles(self) -> Seq<char> {
        match self {
            BuiltinHandler::HassTurnOn => "HassTurnOn"@,
            BuiltinHandler::HassTurnOff => "HassTurnOff"@,
            BuiltinHandler::HassLightSet => "HassLightSet"@,
            BuiltinHandler::HassNevermind => "HassNevermind"@,
            BuiltinHandler::HassCancelAll => "HassCancelAll"@,
        }
    }
}

impl IntentHandler for BuiltinHandler {
    fn intent_name(&self) -> (r: &str)
        ensures
            r@ == self.handles(),
    {
        match self {
            BuiltinHandler::HassTurnOn => "HassTurnOn",
            BuiltinHandler::HassTurnOff => "HassTurnOff",
            BuiltinHandler::HassLightSet => "HassLightSet",
            BuiltinHandler::HassNevermind => "HassNevermind",
            BuiltinHandler::HassCancelAll => "HassCancelAll",
        }
    }
}

/// A built-in handler or one of the home's own.
#[derive(Clone, Debug)]
pub enum Handler<C> {
    Builtin(BuiltinHandler),
    Custom(C),
}

impl<C: IntentHandler> IntentHandler for Handler<C> {
    fn intent_name(&self) -> (r: &str)
        ensures
            match self {
                Handler::Builtin(b) => r@ == b.handles(),
                Handler::Custom(c) => is_for(*c, r),
            },
    {
        match self {
            Handler::Builtin(b) => b.intent_name(),
            Handler::Custom(c) => c.intent_name(),
        }
    }
}

/// No two built-in handlers are for the same intent.
pub proof fn law_builtin_names_differ(a: BuiltinHandler, b: BuiltinHandler)
    ensures
        a.handles() == b.handles() <==> a == b,
{
    reveal_strlit("HassTurnOn");
    reveal_strlit("HassTurnOff");
    reveal_strlit("HassLightSet");
    reveal_strlit("HassNevermind");
    reveal_strlit("HassCancelAll");
    assert("HassTurnOn"@[7] != "HassTurnOff"@[7] || "HassTurnOn"@.len() != "HassTurnOff"@.len());
    assert("HassNevermind"@[4] != "HassCancelAll"@[4]);
}

/// Each built-in handler is for the intent that it is called after.
pub proof fn law_builtin_names()
    ensures
        BuiltinHandler::HassTurnOn.handles() == "HassTurnOn"@,
        BuiltinHandler::HassTurnOff.handles() == "HassTurnOff"@,
        BuiltinHandler::HassLightSet.handles() == "HassLightSet"@,
        BuiltinHandler::HassNevermind.handles() == "HassNevermind"@,
        BuiltinHandler::HassCancelAll.handles() == "HassCancelAll"@,
{
}

/// A handler is for no other intent than one that its `intent_name` gives; a
/// built-in one for the intent of its name, and one of the home's own for what
/// it says itself.
pub proof fn law_a_handler_names_its_intent<H: IntentHandler, C: IntentHandler>(
    handler: H,
    own: Handler<C>,
    name: &str,
)
    ensures
        is_for(handler, name) <==> call_ensures(H::intent_name, (&handler,), name),
        is_for(own, name) ==> match own {
            Handler::Builtin(b) => name@ == b.handles(),
            Handler::Custom(c) => call_ensures(C::intent_name, (&c,), name),
        },
{
}

} // verus!
