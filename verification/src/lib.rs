//! Builds the request URI for a Last.fm "top artists" query and turns the
//! service's reply into a short announcement string.
//!
//! The library is pure: callers fetch and parse the reply themselves and hand
//! it over as a [`Response`] value; the formatter either produces the final
//! text or reports a [`FormatError`] that says exactly what was wrong.

pub mod config;
pub mod output;
pub mod text;

pub use config::Config;
pub use output::construct_output;
pub use output::period_label;
pub use output::ArtistEntry;
pub use output::ErrModel;
pub use output::Field;
pub use output::FormatError;
pub use output::Response;
pub use text::u16_to_string;
