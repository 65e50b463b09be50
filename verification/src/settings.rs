//! What a rendering is given besides the document: the terminal it writes to
//! and where the document stands.

use crate::render::highlighting::{HighlightTheme, Syntaxes};
use crate::terminal::size::TerminalSize;
use crate::terminal::TerminalCapabilities;
use crate::urls;
use crate::urls::{text_of, url_joined};
use vstd::prelude::*;

verus! {

/// Which resources may be read for a document.
#[derive(Clone, Copy, Debug, PartialEq, Eq, Structural)]
pub enum ResourceAccess {
    /// Files of this machine only.
    LocalOnly,
    /// Files of this machine and resources of others.
    RemoteAllowed,
}

impl ResourceAccess {
    /// Whether a resource may be read: a local one always, any other only
    /// where remote access is allowed.
    pub fn permits(self, local: bool) -> (r: bool)
        ensures
            r == (local || self == ResourceAccess::RemoteAllowed),
    {
        match self {
            ResourceAccess::RemoteAllowed => true,
            ResourceAccess::LocalOnly => local,
        }
    }
}

/// Settings for rendering.
pub struct Settings {
    /// What the terminal can do.
    pub terminal_capabilities: TerminalCapabilities,
    /// The size of the terminal.
    pub terminal_size: TerminalSize,
    /// Which resources may be read.
    pub resource_access: ResourceAccess,
    /// The syntaxes to highlight code blocks with.
    pub syntax_set: Syntaxes,
    /// The colours to highlight code blocks with.
    pub theme: HighlightTheme,
}

/// Where a document stands.
#[derive(Clone, Debug, PartialEq, Eq)]
pub struct Environment {
    /// The name of this machine, for links to its files.
    pub hostname: String,
    /// The URL that relative references in the document are read against.
    pub base_url: String,
}

/// What the rules of rendering read of the settings and the environment.
pub struct Context {
    /// What the terminal can do.
    pub capabilities: TerminalCapabilities,
    /// The size of the terminal.
    pub size: TerminalSize,
    /// Which resources may be read.
    pub access: ResourceAccess,
    /// The name of the theme to highlight code blocks with.
    pub theme: Seq<char>,
    /// The name of this machine.
    pub hostname: Seq<char>,
    /// The URL that relative references are read against.
    pub base_url: Seq<char>,
}

impl Context {
    /// The context that `settings` and `environment` make.
    pub open spec fn of(settings: &Settings, environment: &Environment) -> Context {
        Context {
            capabilities: settings.terminal_capabilities,
            size: settings.terminal_size,
            access: settings.resource_access,
            theme: settings.theme@,
            hostname: environment.hostname@,
            base_url: environment.base_url@,
        }
    }

    /// The URL that `reference` stands for in this context; none where it
    /// cannot be read against the base URL.
    pub open spec fn resolved(self, reference: Seq<char>) -> Option<Seq<char>> {
        url_joined(self.base_url, reference)
    }
}

impl Environment {
    /// The URL that `reference` stands for: `reference` read against the base
    /// URL.
    pub fn resolve_reference(&self, reference: &str) -> (r: Option<String>)
        ensures
            text_of(r) == url_joined(self.base_url@, reference@),
    {
        urls::join(self.base_url.as_str(), reference)
    }
}

} // verus!
