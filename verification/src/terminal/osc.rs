//! Operating system commands: escape sequences that tell a terminal to do
//! something other than show text.

use crate::urls;
use crate::urls::{url_has_host, url_scheme, url_with_host};
use vstd::prelude::*;
use vstd::string::StringExecFns;

verus! {

/// The operating system command `command`: between the introducer `ESC ]` and
/// the terminator `BEL`.
pub open spec fn osc(command: Seq<char>) -> Seq<char> {
    "\x1b]"@ + command + "\x07"@
}

/// The command that makes a terminal treat what follows as a link to
/// `destination`; with an empty destination, the command that ends a link.
pub open spec fn link_command(destination: Seq<char>) -> Seq<char> {
    osc("8;;"@ + destination)
}

/// The destination to name for the URL `url` on the host `hostname`: a `file`
/// URL without a host gets that host, where it can be set, so that a terminal
/// on another machine does not take the file for one of its own.  Every other
/// URL stays as it is.
pub open spec fn link_destination(url: Seq<char>, hostname: Seq<char>) -> Seq<char> {
    if url_scheme(url) == Some("file"@) && url_has_host(url) == Some(false) {
        match url_with_host(url, hostname) {
            Some(with_host) => with_host,
            None => url,
        }
    } else {
        url
    }
}

/// Append the operating system command `command` to `out`.
pub fn write_osc(out: &mut String, command: &str)
    ensures
        final(out)@ == old(out)@ + osc(command@),
{
    out.append("\x1b]");
    out.append(command);
    out.append("\x07");
}

/// Whether a URL of the scheme `scheme` that has a host or not, as `has_host`
/// tells, is a `file` URL that names no host.
pub fn is_file_without_host(scheme: Option<&str>, has_host: Option<bool>) -> (r: bool)
    ensures
        r == ((scheme matches Some(s) && s@ == "file"@) && has_host == Some(false)),
{
    match (scheme, has_host) {
        (Some(scheme), Some(has_host)) => String::from_str(scheme) == String::from_str("file")
            && !has_host,
        _ => false,
    }
}

/// Links that a terminal follows on a click, by the escape sequence OSC 8.
#[derive(Clone, Copy, Debug, PartialEq, Eq, Structural)]
pub struct OSC8Links;

impl OSC8Links {
    /// Start a link to `destination`: the text written from here on is the
    /// text of the link.
    pub fn set_link(self, out: &mut String, destination: &str)
        ensures
            final(out)@ == old(out)@ + link_command(destination@),
    {
        let mut command = String::from_str("8;;");
        command.append(destination);
        write_osc(out, command.as_str());
    }

    /// End the link that was started last.
    pub fn clear_link(self, out: &mut String)
        ensures
            final(out)@ == old(out)@ + link_command(Seq::empty()),
    {
        assert("8;;"@ + Seq::<char>::empty() =~= "8;;"@);
        write_osc(out, "8;;");
    }

    /// The destination to name for the URL `url` on the host `hostname`.
    pub fn destination(self, url: &str, hostname: &str) -> (r: String)
        ensures
            r@ == link_destination(url@, hostname@),
    {
        let scheme = urls::scheme(url);
        let scheme = match &scheme {
            Some(scheme) => Some(scheme.as_str()),
            None => None,
        };
        if is_file_without_host(scheme, urls::has_host(url)) {
            match urls::with_host(url, hostname) {
                Some(with_host) => with_host,
                None => String::from_str(url),
            }
        } else {
            String::from_str(url)
        }
    }

    /// Start a link to the URL `url`, as seen from the host `hostname`.
    pub fn set_link_url(self, out: &mut String, url: &str, hostname: &str)
        ensures
            final(out)@ == old(out)@ + link_command(link_destination(url@, hostname@)),
    {
        let destination = self.destination(url, hostname);
        self.set_link(out, destination.as_str());
    }
}

} // verus!
