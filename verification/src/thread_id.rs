//! Codex thread ids.
use vstd::prelude::*;

verus! {

/// The canonical text of the thread id that `text` spells, where it spells
/// one.
pub uninterp spec fn canonical_thread_id(text: Seq<char>) -> Option<Seq<char>>;

/// Parses a thread id with `codex_protocol::ConversationId::from_string` and
/// gives back the canonical text that its `Display` writes. Claimed without
/// proof: whether the text parses and what it parses to depend on the text
/// alone, and canonical text parses to itself.
#[verifier::external_body]
pub(crate) fn parse_native_thread_id(text: &str) -> (id: Option<String>)
    ensures
        match id {
            Some(id) => canonical_thread_id(text@) == Some(id@) && canonical_thread_id(id@) == Some(id@),
            None => canonical_thread_id(text@) is None,
        },
{
    match codex_protocol::ConversationId::from_string(text) {
        Ok(id) => Some(id.to_string()),
        Err(_) => None,
    }
}

} // verus!
