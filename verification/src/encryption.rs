//! Enabling TLS on the volume's I/O path.
//!
//! Key generation and key placement are plain file work outside this
//! library; what the coordinator decides is which volume options turn
//! encryption on.

use vstd::prelude::*;

verus! {

/// The volume options that enable client- and server-side TLS on the I/O
/// path, as (option, value) pairs, in the order they are applied.
pub fn enable_io_encryption() -> (settings: Vec<(String, String)>)
    ensures
        settings@.len() == 2,
        settings@[0].0@ == "client.ssl"@ && settings@[0].1@ == "on"@,
        settings@[1].0@ == "server.ssl"@ && settings@[1].1@ == "on"@,
{
    let mut settings: Vec<(String, String)> = Vec::new();
    settings.push((String::from_str("client.ssl"), String::from_str("on")));
    settings.push((String::from_str("server.ssl"), String::from_str("on")));
    settings
}

} // verus!
