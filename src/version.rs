use vstd::prelude::*;

verus! {

/// The version of this package.
pub const PACKAGE_VERSION: &'static str = "0.1.0";

/// The line that reports the version: `Version: ` and the package version.
pub fn get_version() -> (r: String)
    ensures
        r@ == "Version: "@ + PACKAGE_VERSION@,
{
    let mut r = "Version: ".to_string();
    r.append(PACKAGE_VERSION);
    r
}

} // verus!
