//! The administration screen's view types and its one piece of logic:
//! setting a user's level by hand, which derives the matching EXP total
//! from the level curve.

use vstd::prelude::*;
use crate::error::AppError;
use crate::levels::{UserStats, spec_required_exp};
use crate::text::str_eq;

verus! {

/// One user row on the administration screen.
pub struct AdminUserResponse {
    pub id: i64,
    pub login_id: String,
    pub display_name: Option<String>,
    pub level: i32,
    pub total_exp: i64,
}

/// A request to set a user's level.
pub struct UpdateLevelRequest {
    pub level: i32,
}

/// The result of setting a user's level.
pub struct UpdateLevelResponse {
    pub id: i64,
    pub level: i32,
    pub total_exp: i64,
    pub message: String,
}

/// Whether a login id belongs to the one special administrator account.
pub fn is_special_admin(login_id: &str) -> (r: bool)
    ensures
        r == (login_id@ == "220618"@),
{
    str_eq(login_id, "220618")
}

/// Validate an administrative level change and derive the EXP total that
/// goes with it: levels outside `1..=1000` are rejected, and an accepted
/// level stores exactly its threshold EXP.
pub fn validate_level_update(level: i32) -> (r: Result<(i32, i64), AppError>)
    ensures
        r is Ok <==> 1 <= level <= 1000,
        r matches Ok(p) ==> p.0 == level && p.1 == spec_required_exp(level as int),
        r matches Err(e) ==> e matches AppError::BadRequest(_),
{
    if level < 1 || level > 1000 {
        return Err(
            AppError::BadRequest("レベルは1〜1000の範囲で指定してください".to_owned()),
        );
    }
    let total_exp: i64 = UserStats::get_required_exp_for_level(level);
    Ok((level, total_exp))
}

} // verus!
