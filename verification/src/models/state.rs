//! The state of a robot and the text the database keeps for it.
use vstd::prelude::*;

use crate::text::{decimal, push_decimal};

verus! {

/// What a robot is doing.
#[derive(Debug, Clone, PartialEq)]
pub enum AmrState {
    Idle,
    Navigating { target_location: String },
    Charging,
    Error { code: u32, message: String },
}

/// One recorded state of a robot, with the time it was recorded.
#[derive(Debug, Clone)]
pub struct StateLog {
    pub amr_id: u64,
    pub state: AmrState,
    pub timestamp: i64,
}

/// Name for the text that `str`'s `Debug` writes for a string with these characters.
pub uninterp spec fn debug_quoted(s: Seq<char>) -> Seq<char>;

/// `<str as Debug>::fmt`, through `format!("{:?}", s)`. Its result is named
/// `debug_quoted` of the characters of `s`; how it quotes and escapes them is not stated.
#[verifier::external_body]
fn quote_debug(s: &str) -> (r: String)
    ensures
        r@ == debug_quoted(s@),
{
    format!("{:?}", s)
}

/// The `Debug` text of `state`, given the quoted text of its string field
/// (`quoted` is not read for the states without one).
pub open spec fn state_text_with(state: AmrState, quoted: Seq<char>) -> Seq<char> {
    match state {
        AmrState::Idle => "Idle"@,
        AmrState::Navigating { target_location: _ } => "Navigating { target_location: "@ + quoted
            + " }"@,
        AmrState::Charging => "Charging"@,
        AmrState::Error { code, message: _ } => "Error { code: "@ + decimal(code as nat)
            + ", message: "@ + quoted + " }"@,
    }
}

/// The string field of a state, where it has one.
pub open spec fn state_string_field(state: AmrState) -> Seq<char> {
    match state {
        AmrState::Navigating { target_location } => target_location@,
        AmrState::Error { code: _, message } => message@,
        _ => Seq::empty(),
    }
}

/// The text stored in the `state_type` column for `state`: its `Debug` text.
pub open spec fn state_text(state: AmrState) -> Seq<char> {
    state_text_with(state, debug_quoted(state_string_field(state)))
}

/// Builds the `Debug` text of `state` from the already quoted text of its string field.
pub fn render_state_text(state: &AmrState, quoted: &str) -> (r: String)
    ensures
        r@ == state_text_with(*state, quoted@),
{
    match state {
        AmrState::Idle => String::from_str("Idle"),
        AmrState::Navigating { target_location: _ } => {
            let mut r = String::from_str("Navigating { target_location: ");
            r.append(quoted);
            r.append(" }");
            r
        },
        AmrState::Charging => String::from_str("Charging"),
        AmrState::Error { code, message: _ } => {
            let mut r = String::from_str("Error { code: ");
            push_decimal(&mut r, *code);
            r.append(", message: ");
            r.append(quoted);
            r.append(" }");
            r
        },
    }
}

/// The text that the database keeps for `state` (its `Debug` text).
pub fn state_type_text(state: &AmrState) -> (r: String)
    ensures
        r@ == state_text(*state),
{
    match state {
        AmrState::Navigating { target_location } => {
            let q = quote_debug(target_location.as_str());
            render_state_text(state, q.as_str())
        },
        AmrState::Error { code: _, message } => {
            let q = quote_debug(message.as_str());
            render_state_text(state, q.as_str())
        },
        _ => render_state_text(state, ""),
    }
}

} // verus!

verus! {

/// The name of the variant of `state`.
pub open spec fn state_kind(state: AmrState) -> Seq<char> {
    match state {
        AmrState::Idle => "Idle"@,
        AmrState::Navigating { .. } => "Navigating"@,
        AmrState::Charging => "Charging"@,
        AmrState::Error { .. } => "Error"@,
    }
}

/// The stored text of a state begins with the name of its variant, and is
/// exactly that name for the states that carry no data.
pub proof fn lemma_state_text_starts_with_kind(state: AmrState)
    ensures
        state_text(state).len() >= state_kind(state).len(),
        state_text(state).take(state_kind(state).len() as int) == state_kind(state),
        (state is Idle || state is Charging) ==> state_text(state) == state_kind(state),
{
    reveal_strlit("Idle");
    reveal_strlit("Charging");
    reveal_strlit("Navigating");
    reveal_strlit("Navigating { target_location: ");
    reveal_strlit(" }");
    reveal_strlit("Error");
    reveal_strlit("Error { code: ");
    reveal_strlit(", message: ");
    let t = state_text(state);
    let k = state_kind(state);
    match state {
        AmrState::Idle => {
            assert(t.take(k.len() as int) =~= k);
        },
        AmrState::Charging => {
            assert(t.take(k.len() as int) =~= k);
        },
        AmrState::Navigating { target_location } => {
            let q = debug_quoted(target_location@);
            assert(t == "Navigating { target_location: "@ + q + " }"@);
            assert(t.take(k.len() as int) =~= k);
        },
        AmrState::Error { code, message } => {
            let q = debug_quoted(message@);
            assert(t == "Error { code: "@ + decimal(code as nat) + ", message: "@ + q + " }"@);
            assert(t.take(k.len() as int) =~= k);
        },
    }
}

} // verus!
