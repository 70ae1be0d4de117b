// SPDX-License-Identifier: AGPL-3.0-only

//! Wall-clock time: the minute boundaries at which the status line changes,
//! the engine that turns what a timer reports into notifications, and the
//! date and time as the status line shows them.

pub mod deadline;
pub mod display;
pub mod tick;
