//! What the repository reads out of a row and binds into its statements.
use vstd::prelude::*;

use crate::models::state::{state_text, state_type_text};
use crate::models::AmrState;
use crate::utils::AppError;

verus! {

/// The body of the reply when no robot has the requested name.
pub open spec fn amr_not_found_text() -> Seq<char> {
    "ไม่พบ AMR ในระบบ"@
}

/// Answers a pose lookup from the row it read: not found when no robot has the
/// name; the three coordinates when none of them is NULL; `origin` otherwise.
pub fn pose_from_row<T>(row: Option<(Option<T>, Option<T>, Option<T>)>, origin: (T, T, T)) -> (r:
    Result<(T, T, T), AppError>)
    ensures
        match row {
            None => r matches Err(AppError::NotFound(m)) && m@ == amr_not_found_text(),
            Some((Some(x), Some(y), Some(theta))) => r == Ok::<(T, T, T), AppError>((x, y, theta)),
            Some(_) => r == Ok::<(T, T, T), AppError>(origin),
        },
{
    match row {
        None => Err(AppError::NotFound(String::from_str("ไม่พบ AMR ในระบบ"))),
        Some((Some(x), Some(y), Some(theta))) => Ok((x, y, theta)),
        Some(_) => Ok(origin),
    }
}

/// The value bound for a robot id in a statement: the id's 64 bits read as a
/// signed integer (`amr_id as i64`).
pub open spec fn row_id(amr_id: u64) -> int {
    if amr_id <= i64::MAX {
        amr_id as int
    } else {
        amr_id - 0x1_0000_0000_0000_0000
    }
}

/// Converts a robot id to the integer stored in the `id` column.
pub fn db_row_id(amr_id: u64) -> (r: i64)
    ensures
        r as int == row_id(amr_id),
{
    let r = #[verifier::truncate] (amr_id as i64);
    assert(r as int == if amr_id <= 0x7fff_ffff_ffff_ffff {
        amr_id as int
    } else {
        amr_id - 0x1_0000_0000_0000_0000
    }) by (bit_vector)
        requires
            r == #[verifier::truncate] (amr_id as i64),
    ;
    r
}

/// The two values that the state update binds: the state's text for
/// `state_type`, and the id that selects the row.
pub fn state_update_values(amr_id: u64, state: &AmrState) -> (r: (String, i64))
    ensures
        r.0@ == state_text(*state),
        r.1 as int == row_id(amr_id),
{
    (state_type_text(state), db_row_id(amr_id))
}

} // verus!

verus! {

/// The id bound for a robot is its own 64 bits read as a signed integer: it lies in
/// the range of `i64`, differs from the id by a multiple of 2^64, and so equals the id
/// whenever the id fits in `i64`.
pub proof fn lemma_row_id_is_reinterpretation(amr_id: u64)
    ensures
        i64::MIN <= row_id(amr_id) <= i64::MAX,
        (amr_id - row_id(amr_id)) % 0x1_0000_0000_0000_0000 == 0,
        amr_id <= i64::MAX ==> row_id(amr_id) == amr_id,
        amr_id > i64::MAX ==> row_id(amr_id) < 0,
{
    if amr_id > i64::MAX {
        assert(amr_id - row_id(amr_id) == 0x1_0000_0000_0000_0000);
    }
}

/// Two different robot ids are never bound as the same row id.
pub proof fn lemma_row_id_injective(a: u64, b: u64)
    requires
        a != b,
    ensures
        row_id(a) != row_id(b),
{
}

} // verus!
