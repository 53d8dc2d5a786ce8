//! Reliquary: read-only access to the client database (DBC) tables stored in
//! MPQ archives, with verified parsing, lookup and archive ordering logic.

pub mod dbc;
pub mod layout_names;
pub mod mpq;
pub mod schemas;
pub mod scripts;
pub mod store;
pub mod text;
