//! The request side of the local-socket server. The server itself accepts
//! connections and moves bytes; what it does with a received line — trim it
//! and resolve it against the configuration snapshot taken for this one
//! request — is decided here. A connection whose read yields no complete
//! line is closed without any of this running.

use vstd::prelude::*;

use crate::commands::{resolution_of, resolve, Resolution};
use crate::config::Config;
use crate::text::{trim_spaces, trim_text};

verus! {

/// Handles one received request line: the line is trimmed and resolved
/// against the given configuration snapshot. Returns the trimmed request
/// together with its resolution; the caller starts the command of a `Run`
/// resolution and answers with the matching response.
pub fn handle_line(line: &str, config: &Config) -> (r: (String, Resolution))
    ensures
        r.0@ == trim_spaces(line@),
        r.1@ == resolution_of(trim_spaces(line@), config@.actions, config@.commands),
{
    let request = trim_text(line);
    let resolution = resolve(request.as_str(), &config.actions, &config.commands);
    (request, resolution)
}

} // verus!
