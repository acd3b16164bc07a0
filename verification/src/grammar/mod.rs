//! Streaming text grammars: Server-Sent Events parsing and partial JSON repair.

pub mod json_repair;
pub mod sse;

pub use sse::{parse_sse_chunk, SSEMessage};

use vstd::prelude::*;

verus! {

/// What a script asks of the grammar helpers.
#[derive(Debug, Clone, Copy, PartialEq, Eq, Structural)]
pub enum GrammarAction {
    /// Repair a partial JSON text.
    RepairPartialJson,
    /// Parse a chunk of Server-Sent Events.
    ParseSse,
}

/// The message of an unknown action.
pub open spec fn unknown_action_text(action: Seq<char>) -> Seq<char> {
    "Unknown grammar action '"@ + action + "'"@
}

/// The action a script names; an unknown name is an error.
pub fn grammar_action(action: &str) -> (r: Result<GrammarAction, String>)
    ensures
        action@ == "repair_partial_json"@ ==> r == Ok::<GrammarAction, String>(GrammarAction::RepairPartialJson),
        action@ == "parse_sse"@ ==> r == Ok::<GrammarAction, String>(GrammarAction::ParseSse),
        action@ != "repair_partial_json"@ && action@ != "parse_sse"@ ==> (r matches Err(m) && m@ == unknown_action_text(action@)),
{
    proof {
        reveal_strlit("parse_sse");
        reveal_strlit("repair_partial_json");
        reveal_strlit("'");
        assert("parse_sse"@.len() != "repair_partial_json"@.len());
    }
    if crate::text::str_eq(action, "repair_partial_json") {
        Ok(GrammarAction::RepairPartialJson)
    } else if crate::text::str_eq(action, "parse_sse") {
        Ok(GrammarAction::ParseSse)
    } else {
        Err(crate::text::owned("Unknown grammar action '").concat(action).concat("'"))
    }
}

} // verus!
