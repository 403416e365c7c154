//! Required configuration: where the external IDL-to-native compiler
//! artifact lives. An explicit override wins; otherwise a conventional
//! installation path is used when something is present there; otherwise
//! there is no compiler and a run cannot begin.

use vstd::prelude::*;
use vstd::string::StringExecFns;

verus! {

/// The conventional installation path of the compiler artifact.
pub open spec fn spec_installed_jar_path() -> Seq<char> {
    "/usr/local/lib/cmake/CycloneDDS/idlc/idlc-jar-with-dependencies.jar"@
}

/// Resolve the compiler artifact location. `env_override` is the
/// explicit override, when one was given; `installed_jar_present` says
/// whether the conventional installation path holds a file.
pub fn get_idlc_jar(env_override: Option<String>, installed_jar_present: bool) -> (r: Option<
    String,
>)
    ensures
        env_override is Some ==> r is Some && r.unwrap()@ == env_override.unwrap()@,
        env_override is None && installed_jar_present ==> r is Some && r.unwrap()@
            == spec_installed_jar_path(),
        env_override is None && !installed_jar_present ==> r is None,
{
    match env_override {
        Some(p) => Some(p),
        None => {
            if installed_jar_present {
                Some(
                    String::from_str(
                        "/usr/local/lib/cmake/CycloneDDS/idlc/idlc-jar-with-dependencies.jar",
                    ),
                )
            } else {
                None
            }
        },
    }
}

} // verus!
