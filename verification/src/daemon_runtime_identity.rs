//! Which build of the program runs, and from where.

use vstd::prelude::*;

use crate::json;
use crate::path_facts;
use crate::path_facts::lexical_resolve;
use crate::text::cat2;
use crate::text_map::TextMap;

verus! {

pub const PRIME_AGENT_BUILD_ID_ENV: &'static str = "PRIME_AGENT_BUILD_ID";

pub const PRIME_AGENT_LAUNCHER_PATH_ENV: &'static str = "PRIME_AGENT_LAUNCHER_PATH";

/// Which build of the program runs, and from where.
#[derive(Debug, PartialEq)]
pub struct DaemonRuntimeIdentity {
    pub build_id: String,
    pub executable_path: String,
    pub entrypoint_path: Option<String>,
    pub launcher_path: Option<String>,
}

/// The environment, and what else the identity is made from.
pub struct DaemonRuntimeEnvironment {
    pub variables: TextMap<String>,
    /// The build id that the program was built with.
    pub bundled_build_id: Option<String>,
    pub version: String,
    pub current_dir: String,
}

/// The value of a variable.
pub open spec fn variable(variables: Map<Seq<char>, String>, name: Seq<char>) -> Option<Seq<char>> {
    if variables.contains_key(name) {
        Some(variables[name]@)
    } else {
        None
    }
}

/// The path that an optional text gives; an empty text gives none.
pub open spec fn given_path(path: Option<Seq<char>>, current_dir: Seq<char>) -> Option<Seq<char>> {
    match path {
        Some(path) => if path.len() > 0 {
            Some(path_facts::lexically_resolved(path, current_dir, true))
        } else {
            None
        },
        None => None,
    }
}

/// Collapses `.` and `..` in a path.
pub fn normalize_lexically(path: &str) -> (r: String)
    ensures
        r@ == path_facts::collapsed(path@, true),
{
    path_facts::collapse(path, true)
}

fn read_path(path: Option<&str>, current_dir: &str) -> (r: Option<String>)
    ensures
        json::opt_view(r) == given_path(json::opt_str_view(path), current_dir@),
{
    match path {
        Some(path) => if path.is_empty() {
            None
        } else {
            Some(lexical_resolve(path, current_dir, true))
        },
        None => None,
    }
}

/// Which build of the program runs, and from where. The build id is that of the
/// environment, even an empty one, else the one of the build, else the release's.
pub fn get_daemon_runtime_identity(
    environment: &DaemonRuntimeEnvironment,
    entrypoint: Option<&str>,
    executable: &str,
) -> (r: DaemonRuntimeIdentity)
    requires
        environment.variables.wf(),
    ensures
        r.build_id@ == match variable(environment.variables@, "PRIME_AGENT_BUILD_ID"@) {
            Some(id) => id,
            None => match environment.bundled_build_id {
                Some(id) => id@,
                None => "release-"@ + environment.version@,
            },
        },
        r.executable_path@ == path_facts::lexically_resolved(
            executable@,
            environment.current_dir@,
            true,
        ),
        json::opt_view(r.entrypoint_path) == given_path(
            json::opt_str_view(entrypoint),
            environment.current_dir@,
        ),
        json::opt_view(r.launcher_path) == given_path(
            variable(environment.variables@, "PRIME_AGENT_LAUNCHER_PATH"@),
            environment.current_dir@,
        ),
{
    let build_id = match environment.variables.get(PRIME_AGENT_BUILD_ID_ENV) {
        Some(id) => id.clone(),
        None => match &environment.bundled_build_id {
            Some(id) => id.clone(),
            None => cat2("release-", &environment.version),
        },
    };
    let launcher_path = match environment.variables.get(PRIME_AGENT_LAUNCHER_PATH_ENV) {
        Some(path) => read_path(Some(path.as_str()), &environment.current_dir),
        None => None,
    };
    DaemonRuntimeIdentity {
        build_id,
        executable_path: lexical_resolve(executable, &environment.current_dir, true),
        entrypoint_path: read_path(entrypoint, &environment.current_dir),
        launcher_path,
    }
}

} // verus!
