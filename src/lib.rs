//! Derives a filename prefix from a directory's name with a regular
//! expression, and plans the renaming of that directory's entries.
pub mod pattern;
pub mod rename;
