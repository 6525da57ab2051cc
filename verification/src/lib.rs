//! Guest-side bridge between a sandboxed compute module and its host.
//!
//! A guest module is invoked once per record and exchanges structured data,
//! timestamps and diagnostics with the host over a narrow binary calling
//! convention.  This crate holds the verified core of that bridge:
//!
//! - [`status`]: the closed vocabulary of outcome codes a boundary call returns;
//! - [`codec`]: the ownership-transfer codec that moves text across the boundary;
//! - [`boundary`]: classification of raw host responses into typed outcomes;
//! - [`text`]: decimal rendering used for diagnostics and timestamps;
//! - [`time`]: nanosecond timestamps and their ISO-8601 textual form;
//! - [`record`]: an in-memory record store standing in for the host, so that
//!   invocation logic can be exercised without any real boundary;
//! - [`hex`] and [`msgpack`]: the decodings behind the field-decode
//!   transformation;
//! - [`entry`]: the invocation entry points composed from the call surface.
//!
//! The raw calling convention itself (pointers, lengths, the foreign calls) is
//! bound outside this crate; everything that decides, converts or classifies
//! lives here with a contract.

pub mod boundary;
pub mod codec;
pub mod entry;
pub mod hex;
pub mod msgpack;
pub mod record;
pub mod status;
pub mod text;
pub mod time;
