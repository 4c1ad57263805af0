//! Decoder for the line-oriented, quoted-field RTP interchange format, in
//! which treatment planning systems hand radiotherapy plans to one another.
//!
//! A file is a sequence of lines. Each line is one record: a keyword that
//! tells its kind, then a fixed number of quoted fields, the last of which is
//! a checksum. The meaning of a field is its position. [`io::parse_lines`]
//! decodes the lines of a file into a [`model::Rtp`]; [`io::get_params`]
//! splits one line into its fields; each module under [`io`] decodes the
//! records of one kind.
//!
//! Every decoder is total: it returns a record or says why there is none.
//! What it returns is stated over the fields as character sequences, by the
//! `failure` and `decoded` functions that stand beside it.

pub mod decimal;
pub mod io;
pub mod model;
pub mod number;
pub mod text;
