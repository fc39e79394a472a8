//! Cron-triggered task execution: schedule evaluation in the execution
//! time zone, the argument handed to every run, the decisions of the blocking
//! scheduler loop, the due-time stream and the bounded-retry state machine.

pub mod consts;
pub mod schedule;
pub mod helper;
pub mod cron_util;
