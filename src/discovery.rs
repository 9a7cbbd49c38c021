use vstd::prelude::*;

use crate::session::EndCause;

verus! {

/// The name shown for a listed object: its name, or the empty string if it has none.
pub open spec fn shown_name(n: Option<String>) -> Seq<char> {
    match n {
        Some(s) => s@,
        None => Seq::empty(),
    }
}

/// The names to offer for selection, one per listed object, in list order.
pub fn names_of(items: &Vec<Option<String>>) -> (r: Vec<String>)
    ensures
        r@.len() == items@.len(),
        forall|i: int| 0 <= i < r@.len() ==> #[trigger] r@[i]@ == shown_name(items@[i]),
{
    let mut r: Vec<String> = Vec::new();
    let mut i: usize = 0;
    while i < items.len()
        invariant
            0 <= i <= items@.len(),
            r@.len() == i,
            forall|j: int| 0 <= j < i ==> #[trigger] r@[j]@ == shown_name(items@[j]),
        decreases items@.len() - i,
    {
        let name = match &items[i] {
            Some(s) => s.clone(),
            None => String::new(),
        };
        r.push(name);
        i = i + 1;
    }
    r
}

/// How one round (discovery, selection, session) ended.
#[derive(Clone, Copy, Debug, PartialEq, Eq, Structural)]
pub enum RoundEnd {
    /// Listing namespaces or instances failed.
    DiscoveryFailed,
    /// The operator left a selection prompt.
    SelectionAborted,
    /// The interactive session could not be opened.
    AttachFailed,
    /// A session ran and ended; `restored` tells whether the terminal mode came back.
    SessionOver { cause: EndCause, restored: bool },
}

/// Whether a new round follows: every failure of a round leads back to
/// namespace selection, except a terminal mode that could not be restored and
/// an operator who left the selection.
pub fn next_round(end: RoundEnd) -> (r: bool)
    ensures
        r == match end {
            RoundEnd::SelectionAborted => false,
            RoundEnd::SessionOver { restored, .. } => restored,
            _ => true,
        },
{
    match end {
        RoundEnd::SelectionAborted => false,
        RoundEnd::SessionOver { restored, .. } => restored,
        _ => true,
    }
}

} // verus!
