//! Instance-wide settings kept in the database rather than in the code, so
//! that a credential such as the BoardGameGeek token is never part of it.

use vstd::prelude::*;

verus! {

/// The settings key of the BoardGameGeek API token.
pub const BGG_API_TOKEN: &'static str = "bgg_api_token";

} // verus!
