// SPDX-License-Identifier: AGPL-3.0-only

//! A status line for a tiling window manager's bar: battery charge and local
//! time, rendered as a stream of JSON arrays.
//!
//! The library holds the parts that decide or compute: the JSON string
//! escaper, the data model and the rules by which change notifications update
//! it, the renderer of a status frame, and the decisions of the clock tick
//! engine. Waiting on timers, channels and the message bus is left to the
//! program around it.

pub mod data;
pub mod swaybar;
pub mod time;
