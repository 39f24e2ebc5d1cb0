//! Client library for the Sdui school-management service: typed records for
//! schools, users, channels, chats, files, news and timetables, and the
//! processing of a timetable into days and periods.
//!
//! Everything in this crate is verified with Verus. It computes and decides;
//! it sends nothing. A caller fetches the answers of the service and hands
//! them over as plain values:
//!
//! - [`timetable::processing`] arranges the lessons of a timetable by day and
//!   period and joins the outcomes of the two fetches behind it;
//!   [`timetable::laws`] states what holds of every arranged timetable.
//! - [`grouping`] groups keyed items, on top of a stable sort and a split
//!   into runs.
//! - [`prelude`] holds the quota snapshot with its merge, the errors, and the
//!   reading of the quota headers.
//! - [`json`] models decoded JSON; [`text`] reads and writes decimal numbers.
//! - The other modules hold the records of the service and the addresses
//!   under which they are fetched.
//!
//! Four calls into other code are taken on trust, each behind a function of
//! its own with the contract that it is believed to meet: the stable sort of
//! std and `Itertools::group_by` in [`grouping`], and `HeaderMap::get` and
//! `HeaderValue::to_str` in [`prelude`].

pub mod auth;
pub mod channel;
pub mod chat;
pub mod cloud;
pub mod files;
pub mod grade;
pub mod grouping;
pub mod json;
pub mod news;
pub mod prelude;
pub mod text;
pub mod timetable;
pub mod user;
