//! What a terminal can do beyond plain text.

pub mod ansi;
pub mod encoding;
pub mod iterm2;
pub mod kitty;
pub mod osc;
pub mod size;
pub mod terminology;

use crate::terminal::ansi::AnsiStyle;
use crate::terminal::iterm2::{ITerm2Images, ITerm2Marks};
use crate::terminal::kitty::KittyImages;
use crate::terminal::osc::OSC8Links;
use crate::terminal::terminology::TerminologyImages;
use vstd::prelude::*;

verus! {

/// How a terminal shows styled text.
#[derive(Clone, Copy, Debug, PartialEq, Eq, Structural)]
pub enum StyleCapability {
    /// By ANSI escape sequences.
    Ansi(AnsiStyle),
}

/// How a terminal shows links.
#[derive(Clone, Copy, Debug, PartialEq, Eq, Structural)]
pub enum LinkCapability {
    /// By the escape sequence OSC 8.
    OSC8(OSC8Links),
}

/// How a terminal sets marks.
#[derive(Clone, Copy, Debug, PartialEq, Eq, Structural)]
pub enum MarkCapability {
    /// As iTerm2 does.
    ITerm2(ITerm2Marks),
}

/// How a terminal shows images.  A terminal has one way at most.
#[derive(Clone, Copy, Debug, PartialEq, Eq, Structural)]
pub enum ImageCapability {
    /// As Terminology does.
    Terminology(TerminologyImages),
    /// As iTerm2 does.
    ITerm2(ITerm2Images),
    /// As kitty does.
    Kitty(KittyImages),
}

/// What a terminal can do.
#[derive(Clone, Copy, Debug, PartialEq, Eq, Structural)]
pub struct TerminalCapabilities {
    /// How the terminal shows styled text, if it does.
    pub style: Option<StyleCapability>,
    /// How the terminal shows links, if it does.
    pub links: Option<LinkCapability>,
    /// How the terminal shows images, if it does.
    pub image: Option<ImageCapability>,
    /// How the terminal sets marks, if it does.
    pub marks: Option<MarkCapability>,
}

impl TerminalCapabilities {
    /// A terminal that shows plain text and nothing else.
    pub fn none() -> (r: TerminalCapabilities)
        ensures
            r == (TerminalCapabilities { style: None, links: None, image: None, marks: None }),
    {
        TerminalCapabilities { style: None, links: None, image: None, marks: None }
    }

    /// A terminal that shows styled text and nothing else.
    pub fn ansi() -> (r: TerminalCapabilities)
        ensures
            r == (TerminalCapabilities {
                style: Some(StyleCapability::Ansi(AnsiStyle)),
                links: None,
                image: None,
                marks: None,
            }),
    {
        TerminalCapabilities {
            style: Some(StyleCapability::Ansi(AnsiStyle)),
            links: None,
            image: None,
            marks: None,
        }
    }

    /// What iTerm2 can do: styled text, links, its own images and marks.
    pub fn iterm2() -> (r: TerminalCapabilities)
        ensures
            r == (TerminalCapabilities {
                style: Some(StyleCapability::Ansi(AnsiStyle)),
                links: Some(LinkCapability::OSC8(OSC8Links)),
                image: Some(ImageCapability::ITerm2(ITerm2Images)),
                marks: Some(MarkCapability::ITerm2(ITerm2Marks)),
            }),
    {
        TerminalCapabilities {
            style: Some(StyleCapability::Ansi(AnsiStyle)),
            links: Some(LinkCapability::OSC8(OSC8Links)),
            image: Some(ImageCapability::ITerm2(ITerm2Images)),
            marks: Some(MarkCapability::ITerm2(ITerm2Marks)),
        }
    }

    /// What Terminology can do: styled text, links and its own images.
    pub fn terminology() -> (r: TerminalCapabilities)
        ensures
            r == (TerminalCapabilities {
                style: Some(StyleCapability::Ansi(AnsiStyle)),
                links: Some(LinkCapability::OSC8(OSC8Links)),
                image: Some(ImageCapability::Terminology(TerminologyImages)),
                marks: None,
            }),
    {
        TerminalCapabilities {
            style: Some(StyleCapability::Ansi(AnsiStyle)),
            links: Some(LinkCapability::OSC8(OSC8Links)),
            image: Some(ImageCapability::Terminology(TerminologyImages)),
            marks: None,
        }
    }

    /// What kitty can do: styled text, links and its own images.
    pub fn kitty() -> (r: TerminalCapabilities)
        ensures
            r == (TerminalCapabilities {
                style: Some(StyleCapability::Ansi(AnsiStyle)),
                links: Some(LinkCapability::OSC8(OSC8Links)),
                image: Some(ImageCapability::Kitty(KittyImages)),
                marks: None,
            }),
    {
        TerminalCapabilities {
            style: Some(StyleCapability::Ansi(AnsiStyle)),
            links: Some(LinkCapability::OSC8(OSC8Links)),
            image: Some(ImageCapability::Kitty(KittyImages)),
            marks: None,
        }
    }
}

} // verus!
