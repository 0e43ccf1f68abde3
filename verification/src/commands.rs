//! What the desktop core tells an application about itself.

use vstd::prelude::*;

verus! {

/// The name of this package.
pub const PACKAGE_NAME: &'static str = "linch_desktop_core";

/// The version of this package.
pub const PACKAGE_VERSION: &'static str = "0.1.0";

/// Get the version of linch_desktop_core.
pub fn get_linch_core_version() -> (version: &'static str)
    ensures
        version@ == PACKAGE_VERSION@,
{
    PACKAGE_VERSION
}

/// The release that reports are filed under: the package's name, an `@`, and
/// the package's version.
pub open spec fn spec_release_name() -> Seq<char> {
    PACKAGE_NAME@ + seq!['@'] + PACKAGE_VERSION@
}

/// The release that reports are filed under.
pub fn release_name() -> (release: String)
    ensures
        release@ == spec_release_name(),
{
    let release = "linch_desktop_core@0.1.0";
    proof {
        reveal_strlit("linch_desktop_core@0.1.0");
        reveal_strlit("linch_desktop_core");
        reveal_strlit("0.1.0");
        assert(release@ =~= spec_release_name());
    }
    release.to_owned()
}

} // verus!
