use vstd::prelude::*;

verus! {

use vstd::string::StringExecFns;

/// The kinds of picking event the engine's picking plugin reports for a
/// rendered mesh.
#[derive(Clone, Copy, Debug, PartialEq, Eq, Structural)]
pub enum PickEventKind {
    Selection,
    Hover,
    Click,
}

/// The log line announcing a picking event, without the event's own details:
/// the caller appends the engine's description of the event to it.
pub fn pick_event_message(kind: PickEventKind) -> (r: String)
    ensures
        kind is Selection ==> r@ == "A selection event happened"@,
        kind is Hover ==> r@ == "Egads! A hover event!?"@,
        kind is Click ==> r@ == "Gee Willikers, it's a click!"@,
{
    match kind {
        PickEventKind::Selection => String::from_str("A selection event happened"),
        PickEventKind::Hover => String::from_str("Egads! A hover event!?"),
        PickEventKind::Click => String::from_str("Gee Willikers, it's a click!"),
    }
}

} // verus!
