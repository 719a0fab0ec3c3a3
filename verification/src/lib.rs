//! Static assets with a cache policy, for applications built on Rocket.
//!
//! An application names a directory of assets and how long a client may keep
//! a copy of one. At startup both settings are read, the directory is
//! normalized and must be one, and both go into an [`Assets`] registry. A
//! route handler then asks the registry where an asset lies, opens it, and
//! returns the [`Asset`], whose response carries a
//! `Cache-Control: max-age=<seconds>` header.
//!
//! - [`settings`]: the two configuration keys, their defaults, and what a
//!   malformed setting leads to.
//! - [`location`]: the normalized directory, and the path of an asset below
//!   it.
//! - [`registry`]: the [`Assets`] registry, from startup to lookup.
//! - [`asset`]: the [`Asset`] and its response.
//! - [`header`]: what is taken on trust of Rocket's response.
//! - [`decimal`]: how the seconds are written.
//! - [`guarantees`]: what holds from the configuration through to the header.
//!
//! The library opens no file itself: the caller opens the file at
//! [`Assets::asset_path`] and hands the outcome to [`Assets::open`]. Paths
//! are taken in the Unix form, with `/` between components.
//!
//! The decisions are verified with [Verus](https://github.com/verus-lang/verus):
//! every public function states in its contract what it returns, and the
//! calls into `normpath`, `figment` and `rocket` stand behind small functions
//! whose doc comments say what is taken on trust.

pub mod asset;
pub mod decimal;
pub mod guarantees;
pub mod header;
pub mod location;
pub mod registry;
pub mod settings;

pub use asset::Asset;
pub use registry::Assets;
pub use settings::{Lookup, StartupError};
