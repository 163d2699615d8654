//! A uniform serialization facade: one API over a family of independent
//! codec libraries (Bincode, CBOR, JSON, MessagePack, RON, TOML, XML).
//!
//! A format can be chosen at compile time, through the capability traits in
//! [`traits`] — implemented by the per-codec marker types in [`formats`] —
//! or at run time, through the [`Format`] tag in [`multi`], which routes
//! each operation to the selected codec and unifies every failure into one
//! error taxonomy, [`FormatError`]. Both paths meet one and the same
//! contract per tag, so swapping a marker for a tag changes nothing a
//! caller can observe.
//!
//! The payload carried across the codec boundary is [`Record`], a mapping
//! from string keys to 64-bit integers; its mathematical view is a
//! `Map<Seq<char>, int>`, and every contract in this crate speaks of that
//! view.
//!
//! What is proved and what is assumed: the dispatch, the error taxonomy,
//! the payload type and the UTF-8 relation between text and byte forms are
//! verified; each call into a codec library stands behind a small trusted
//! wrapper whose contract states no more than that library's source and
//! documentation show — notably, that decoding a codec's own encoding of a
//! mapping yields the mapping back, for every codec but XML.

pub mod formats;
pub mod multi;
pub mod record;
pub mod traits;

pub use multi::{Feature, Format, FormatError, Unsupported};
pub use record::Record;
pub use traits::{SerdeBytes, SerdeStream, SerdeText};
