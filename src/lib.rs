//! Parsing of OpenType and TrueType font files: the table directory, table
//! integrity checks, and decoders for the common fixed and versioned tables.
//!
//! Every decoder reads an immutable byte buffer, and its contract describes
//! the wire format over the buffer's bytes: a decoded value is exactly what
//! the format prescribes, and malformed input is reported as an error
//! instead of a panic.

pub mod codec;
pub mod error;
pub mod types;
pub mod table_record;
pub mod offset_table;
pub mod ttc_header;
pub mod table;
pub mod font;
pub mod otff;
pub mod tables;

pub use self::font::Font;
pub use self::otff::OpenTypeFontFile;
pub use self::table_record::TableRecord;
