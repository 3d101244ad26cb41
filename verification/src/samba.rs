//! Samba share configuration.
//!
//! When CIFS export is enabled, the cluster mount is shared over Samba
//! with a fixed set of options.  The configuration text is computed here;
//! comparing it against what is already on disk decides whether Samba
//! needs to be (re)installed and restarted at all.

use vstd::prelude::*;

use crate::text::str_eq;

verus! {

/// The Samba configuration text for a volume: one share named after the
/// volume, exporting the cluster mount, writable and guest-accessible,
/// with kernel share modes and oplocks off and DOS attributes stored.
pub open spec fn spec_samba_config(volume_name: Seq<char>) -> Seq<char> {
    "["@ + volume_name + "]\n"@
        + "path = /mnt/glusterfs\nread only = no\nguest ok = yes\nkernel share modes = no\nkernel oplocks = no\nmap archive = no\nmap hidden = no\nmap read only = no\nmap system = no\nstore dos attributes = yes\n"@
}

/// Render the Samba configuration for `volume_name`.
pub fn render_samba_configuration(volume_name: &str) -> (config: String)
    ensures
        config@ == spec_samba_config(volume_name@),
{
    let mut config = String::from_str("[");
    config.append(volume_name);
    config.append("]\n");
    config.append(
        "path = /mnt/glusterfs\nread only = no\nguest ok = yes\nkernel share modes = no\nkernel oplocks = no\nmap archive = no\nmap hidden = no\nmap read only = no\nmap system = no\nstore dos attributes = yes\n",
    );
    config
}

/// Decide whether the Samba configuration on disk needs rewriting:
/// it does when no configuration exists yet, or when the existing text
/// differs from what would be rendered for `volume_name`.
pub fn samba_config_changed(volume_name: &str, existing_config: Option<&String>) -> (changed:
    bool)
    ensures
        changed == match existing_config {
            Some(existing) => existing@ != spec_samba_config(volume_name@),
            None => true,
        },
{
    match existing_config {
        Some(existing) => {
            let rendered = render_samba_configuration(volume_name);
            !str_eq(existing.as_str(), rendered.as_str())
        }
        None => true,
    }
}

} // verus!
