//! Show documents in a terminal.
//!
//! A document comes as a sequence of events: the start and the end of a
//! paragraph, a text, a line break.  This crate renders such events for a
//! terminal: as text with colours and styles, with links that the terminal
//! follows and images that it shows, as far as the terminal can do these
//! things.
//!
//! Rendering goes event by event.  [`render::write_event`] takes the state of
//! the rendering and one event, appends what the event writes to a `String`,
//! and gives the state for the next event; [`render::finish`] writes what is
//! left when the document ends.  Neither reads a file or writes to a
//! terminal: the caller parses the document, fetches the images that
//! [`render::images::image_request`] asks for, and sends what was written on
//! its way.
//!
//! What an event does in a state is laid down in [`render::rules`], in terms
//! of the characters written and of the frames of the state.  The functions
//! of this crate are proved to do what the rules say.  Where they hand work
//! to other crates, which colour text, highlight code, decode images and
//! read URLs, the contracts say what is taken on trust.

pub mod events;
pub mod references;
pub mod render;
pub mod resources;
pub mod settings;
pub mod terminal;
pub mod text;
pub mod urls;

pub use crate::events::{CodeBlockKind, Event, LinkType, Tag};
pub use crate::render::data::StateData;
pub use crate::render::highlighting::{HighlightTheme, Syntaxes};
pub use crate::render::images::{image_request, Fetched, ImageRequest};
pub use crate::render::state::State;
pub use crate::render::{accepts, finish, try_write_event, write_event, Rejected};
pub use crate::settings::{Environment, ResourceAccess, Settings};
pub use crate::terminal::size::TerminalSize;
pub use crate::terminal::TerminalCapabilities;
