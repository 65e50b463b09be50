//! Images: what the caller reads for them, and what is written.
//!
//! Rendering reads no file and no network.  Before the event that starts an
//! image, the caller asks what the terminal needs of the image, fetches it,
//! and hands it over together with the event.

use crate::events::{Event, Tag};
use crate::render::state::{Frames, StackedState, State};
use crate::settings::{Context, Environment, ResourceAccess, Settings};
use crate::terminal::kitty::KittyImage;
use crate::terminal::size::PixelSize;
use crate::terminal::ImageCapability;
use vstd::prelude::*;

verus! {

/// What the caller fetched of an image.
#[derive(Debug, PartialEq, Eq)]
pub enum Fetched {
    /// Nothing: nothing was asked for, or it could not be had.
    Nothing,
    /// The number of lines that give the image its proportions in a
    /// rectangle as wide as the terminal.
    Lines(usize),
    /// The contents of the image file.
    Contents(Vec<u8>),
    /// The image, made ready for kitty.
    Kitty(KittyImage),
}

/// What the caller is to fetch of an image before the event that starts it.
#[derive(Debug, PartialEq, Eq)]
pub enum ImageRequest {
    /// Nothing.
    Nothing,
    /// The lines that the image at `url` takes: its height times half the
    /// width of the terminal in columns, by its width.  To be answered by
    /// `Fetched::Lines`.
    Lines { url: String, access: ResourceAccess },
    /// The contents of the image file at `url`.  To be answered by
    /// `Fetched::Contents`.
    Contents { url: String, access: ResourceAccess },
    /// The image at `url`, made ready for a kitty of `size` pixels.  To be
    /// answered by `Fetched::Kitty`.
    Kitty { url: String, access: ResourceAccess, size: PixelSize },
}

/// What a request holds, as plain values.
pub enum Asked {
    Nothing,
    Lines { url: Seq<char>, access: ResourceAccess },
    Contents { url: Seq<char>, access: ResourceAccess },
    Kitty { url: Seq<char>, access: ResourceAccess, size: PixelSize },
}

impl View for ImageRequest {
    type V = Asked;

    open spec fn view(&self) -> Asked {
        match *self {
            ImageRequest::Nothing => Asked::Nothing,
            ImageRequest::Lines { url, access } => Asked::Lines { url: url@, access },
            ImageRequest::Contents { url, access } => Asked::Contents { url: url@, access },
            ImageRequest::Kitty { url, access, size } => Asked::Kitty { url: url@, access, size },
        }
    }
}

/// What is to be fetched before `event` in a state whose current frame is
/// `current`: something only where the event starts an image in inline text,
/// the terminal shows images, and the target of the image can be read as a
/// URL; and for kitty, only where the size of the terminal in pixels is
/// known.
pub open spec fn asked(context: Context, state: Frames, event: Event) -> Asked {
    if !state.is_top_level() && state.current() is Inline {
        match event {
            Event::Start(Tag::Image(_, target, _)) => match (
                context.capabilities.image,
                context.resolved(target@),
            ) {
                (Some(ImageCapability::Terminology(_)), Some(url)) => Asked::Lines {
                    url,
                    access: context.access,
                },
                (Some(ImageCapability::ITerm2(_)), Some(url)) => Asked::Contents {
                    url,
                    access: context.access,
                },
                (Some(ImageCapability::Kitty(_)), Some(url)) => match context.size.pixels {
                    Some(size) => Asked::Kitty { url, access: context.access, size },
                    None => Asked::Nothing,
                },
                _ => Asked::Nothing,
            },
            _ => Asked::Nothing,
        }
    } else {
        Asked::Nothing
    }
}

/// What the caller is to fetch before it hands `event` to `write_event` in
/// the state `state`.
pub fn image_request(
    settings: &Settings,
    environment: &Environment,
    state: &State,
    event: &Event,
) -> (r: ImageRequest)
    ensures
        r@ == asked(Context::of(settings, environment), state@, *event),
{
    let access = settings.resource_access;
    match (state, event) {
        (State::Stacked(stack, StackedState::Inline(_, _)), Event::Start(Tag::Image(_, target, _))) => {
            assert(state@.current() is Inline);
            match settings.terminal_capabilities.image {
                None => ImageRequest::Nothing,
                Some(capability) => match environment.resolve_reference(target.as_str()) {
                    None => ImageRequest::Nothing,
                    Some(url) => match capability {
                        ImageCapability::Terminology(_) => ImageRequest::Lines { url, access },
                        ImageCapability::ITerm2(_) => ImageRequest::Contents { url, access },
                        ImageCapability::Kitty(_) => match settings.terminal_size.pixels {
                            Some(size) => ImageRequest::Kitty { url, access, size },
                            None => ImageRequest::Nothing,
                        },
                    },
                },
            }
        },
        (State::Stacked(stack, current), _) => {
            assert(state@.current() == current@);
            ImageRequest::Nothing
        },
        (State::TopLevel(_), _) => ImageRequest::Nothing,
    }
}

} // verus!
