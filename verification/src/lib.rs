//! Partial-update companion types for annotated declarations, and the
//! request planning of a client for Syncthing's REST interface.
//!
//! For a struct with named fields the generator derives a companion type: a
//! type of the same fields in which every field that is not marked
//! `#[required]` is optional and left out of a serialized document while it
//! is absent. The companion comes with a constructor over the required
//! fields, a fluent setter and a read accessor per field, and a conversion
//! from the source type.
//!
//! - [`declaration`] holds a declaration as the generator reads it.
//! - [`annotation`] reads the required marker and the `rename` and
//!   `rename_all` directives, [`literal`] the string literals in them.
//! - [`extract`] describes the fields, [`companion`] assembles the companion
//!   type, and [`emit`] writes it out as source text.
//! - [`record`] says what the emitted operations do to a value, and [`keys`]
//!   which keys the value has once it is serialized.
//!
//! The client plans its requests in [`client`], checks header values in
//! [`header`], reports with [`error`], and exchanges the data of [`types`].
//! Sending is left to the caller.

pub mod annotation;
pub mod client;
pub mod companion;
pub mod declaration;
pub mod emit;
pub mod error;
pub mod extract;
pub mod header;
pub mod keys;
pub mod literal;
pub mod record;
pub mod text;
pub mod types;
