//! Codec for the save files of an ice-hockey management game, and a rating
//! engine over the decoded players.
//!
//! A save file is a header, a table of named sections, and the sections. A
//! section with a known name holds records of one fixed width; any other is
//! carried through as it is. [`init::load_save`] decodes a file into a
//! [`data::Data`], and [`data::Data::save_file`] encodes it again, byte for
//! byte where nothing was changed.
//!
//! - [`to_bytes`]: the layout of numbers in bytes.
//! - [`chars`]: the text of the fields, in the code page of the game.
//! - [`data`]: the records, the sections, and the save file with its
//!   look-ups; [`data::date`] holds the calendar.
//! - [`init`]: the header, the table of sections, and the decoding of a
//!   file.
//! - [`round_trip`]: what holds of writing a file and reading it again.
//! - [`globals`] and [`rating`]: the chart of attributes and the arithmetic
//!   of ratings; the ratings themselves are with the persons in
//!   [`data::staff`].
//! - [`views`]: the rows of the table of players.
//! - [`research`]: counts that help to find the chart of attributes.

pub mod chars;
pub mod data;
pub mod globals;
pub mod init;
pub mod rating;
pub mod research;
pub mod round_trip;
pub mod to_bytes;
pub mod views;
