use vstd::prelude::*;

verus! {

/// Fires every five seconds.
pub const CRON_EXPRESSION_5_SEC: &'static str = "0/5 * * * * *";

/// Fires at second zero of every even minute.
pub const CRON_EXPRESSION_2_MIN: &'static str = "0 */2 * * * *";

/// Fires at second zero of every fifth minute.
pub const CRON_EXPRESSION_5_MIN: &'static str = "0 */5 * * * *";

} // verus!
