//! A schema-to-parser compiler: a type definition — a record of named
//! fields, or a tagged union of record, single-value and unit shapes —
//! annotated with regular-expression patterns is turned into parsing logic
//! that converts raw text into typed values through named capture groups.
//!
//! One pass extracts the declared pattern(s) from the schema's attribute
//! metadata, validates that each pattern compiles and that its named-capture
//! count aligns with its shape's field count, and assembles the generated
//! surface: fallible conversion from a borrowed or an owned string, and a
//! boolean match predicate. A pass that fails produces no artifact. The
//! pattern engine is the `regex` crate, reached only through the contracts
//! in [`engine`].
pub mod bind;
pub mod compile;
pub mod engine;
pub mod extract;
pub mod numeric;
pub mod record;
pub mod schema;
pub mod tagged;
pub mod value;
