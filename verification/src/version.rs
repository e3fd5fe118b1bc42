//! The version line that `prism` reports.

use vstd::prelude::*;

use crate::text::{decimal, decimal_string};

verus! {

/// The version line: the core library version, the build hash and the
/// Soroban protocol version that the linked host supports.
pub open spec fn version_line(core_version: Seq<char>, build_hash: Seq<char>, protocol: u32) -> Seq<char> {
    "prism "@ + core_version + " (build: "@ + build_hash + ") | Soroban Protocol: "@ + decimal(
        protocol as nat,
    )
}

/// Builds the version line from its three parts.
pub fn build_version(core_version: &str, build_hash: &str, protocol: u32) -> (r: String)
    ensures
        r@ == version_line(core_version@, build_hash@, protocol),
{
    let mut line = "prism ".to_owned();
    line.append(core_version);
    line.append(" (build: ");
    line.append(build_hash);
    line.append(") | Soroban Protocol: ");
    let p = decimal_string(protocol as u64);
    line.append(p.as_str());
    line
}

} // verus!
