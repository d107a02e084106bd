//! The platform the host runs on, as the frontend is told it.

use vstd::prelude::*;

verus! {

/// The operating systems that the host runs on.
#[derive(Clone, Copy, Debug, PartialEq, Eq, Structural)]
pub enum Platform {
    Windows,
    MacOs,
    Linux,
}

/// The platform as three flags, of which exactly one is set.
#[derive(Clone, Copy, Debug, PartialEq, Eq, Structural)]
pub struct PlatformInfo {
    pub is_windows: bool,
    pub is_mac: bool,
    pub is_linux: bool,
}

/// The flags of a platform.
pub fn get_platform(platform: Platform) -> (info: PlatformInfo)
    ensures
        info.is_windows == (platform == Platform::Windows),
        info.is_mac == (platform == Platform::MacOs),
        info.is_linux == (platform == Platform::Linux),
{
    PlatformInfo {
        is_windows: platform == Platform::Windows,
        is_mac: platform == Platform::MacOs,
        is_linux: platform == Platform::Linux,
    }
}

} // verus!
