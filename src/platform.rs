use vstd::prelude::*;

verus! {

/// The platforms a step may be restricted to.
#[derive(Debug, Clone, Copy, PartialEq, Eq, Structural)]
pub enum OperatingSystem {
    Linux,
    Windows,
    MacOS,
}

/// The lowercase name under which a platform is written in scripts.
pub open spec fn os_name(os: OperatingSystem) -> Seq<char> {
    match os {
        OperatingSystem::Linux => seq!['l', 'i', 'n', 'u', 'x'],
        OperatingSystem::Windows => seq!['w', 'i', 'n', 'd', 'o', 'w', 's'],
        OperatingSystem::MacOS => seq!['m', 'a', 'c', 'o', 's'],
    }
}

impl OperatingSystem {
    /// Whether this is the platform the runner is on.
    pub fn is_current(&self, platform: OperatingSystem) -> (r: bool)
        ensures
            r == (*self == platform),
    {
        *self == platform
    }
}

/// The lowercase name of a platform.
pub fn operating_system(op: OperatingSystem) -> (r: String)
    ensures
        r@ == os_name(op),
{
    match op {
        OperatingSystem::Linux => {
            proof { reveal_strlit("linux"); }
            "linux".to_string()
        }
        OperatingSystem::Windows => {
            proof { reveal_strlit("windows"); }
            "windows".to_string()
        }
        OperatingSystem::MacOS => {
            proof { reveal_strlit("macos"); }
            "macos".to_string()
        }
    }
}

} // verus!
