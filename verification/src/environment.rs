//! Telling native hosts from the two generations of WSL.
//!
//! The classifier never reads the process environment itself. It is handed
//! the variables as a list of pairs, so that every outcome can be produced
//! on any machine.
use vstd::prelude::*;

verus! {

/// The operating system the program was built for.
#[derive(Debug, Clone, Copy, PartialEq, Eq, Structural)]
pub enum Os {
    Linux,
    MacOs,
    Windows,
    /// Anything else: no clipboard is known there.
    Other,
}

/// Where the program runs.
#[derive(Debug, Clone, Copy, PartialEq, Eq, Structural)]
pub enum Environment {
    /// Directly on the named operating system.
    Native(Os),
    /// Inside WSL without interop: no display server can be reached, only
    /// the host's scripting shell.
    Wsl1,
    /// Inside WSL with interop: the Linux backends reach the host clipboard.
    Wsl2,
}

/// The names of the environment variables that give WSL away.
#[derive(Debug, Clone, PartialEq, Eq)]
pub struct Markers {
    /// Any of these being set means "this is a WSL distribution".
    pub wsl_markers: Vec<String>,
    /// Any of these being set, inside WSL, means "interop is available".
    pub interop_markers: Vec<String>,
}

/// Whether the variable `name` occurs in `env`, with any value.
pub open spec fn is_set(env: Seq<(String, String)>, name: Seq<char>) -> bool {
    exists|i: int| 0 <= i < env.len() && (#[trigger] env[i]).0@ == name
}

/// Whether at least one of `names` occurs in `env`.
pub open spec fn any_set(env: Seq<(String, String)>, names: Seq<String>) -> bool {
    exists|j: int| 0 <= j < names.len() && is_set(env, (#[trigger] names[j])@)
}

/// The classification, given what the two indicators say.
pub open spec fn classification(wsl: bool, interop: bool, os: Os) -> Environment {
    if !wsl {
        Environment::Native(os)
    } else if interop {
        Environment::Wsl2
    } else {
        Environment::Wsl1
    }
}

impl Markers {
    /// The variables that WSL itself sets: `WSL_DISTRO_NAME` (or `IS_WSL`,
    /// which older set-ups export by hand) for the distribution and
    /// `WSL_INTEROP` for interop.
    pub fn standard() -> (markers: Markers)
        ensures
            markers.wsl_markers@.len() == 2,
            markers.wsl_markers@[0]@ == "IS_WSL"@,
            markers.wsl_markers@[1]@ == "WSL_DISTRO_NAME"@,
            markers.interop_markers@.len() == 1,
            markers.interop_markers@[0]@ == "WSL_INTEROP"@,
    {
        let mut wsl_markers: Vec<String> = Vec::new();
        wsl_markers.push("IS_WSL".to_owned());
        wsl_markers.push("WSL_DISTRO_NAME".to_owned());
        let mut interop_markers: Vec<String> = Vec::new();
        interop_markers.push("WSL_INTEROP".to_owned());
        Markers { wsl_markers, interop_markers }
    }
}

/// Looks `name` up in `env`.
pub fn variable_is_set(env: &Vec<(String, String)>, name: &String) -> (found: bool)
    ensures
        found == is_set(env@, name@),
{
    let mut i: usize = 0;
    while i < env.len()
        invariant
            i <= env.len(),
            forall|k: int| 0 <= k < i ==> (#[trigger] env@[k]).0@ != name@,
        decreases env.len() - i,
    {
        if env[i].0 == *name {
            return true;
        }
        i += 1;
    }
    false
}

/// Looks each of `names` up in `env` until one is found.
pub fn any_variable_is_set(env: &Vec<(String, String)>, names: &Vec<String>) -> (found: bool)
    ensures
        found == any_set(env@, names@),
{
    let mut j: usize = 0;
    while j < names.len()
        invariant
            j <= names.len(),
            forall|k: int| 0 <= k < j ==> !is_set(env@, (#[trigger] names@[k])@),
        decreases names.len() - j,
    {
        if variable_is_set(env, &names[j]) {
            return true;
        }
        j += 1;
    }
    false
}

/// Classifies the execution context from the injected environment `env`.
///
/// Without a WSL marker the program runs natively on `os`. With one, the
/// interop marker tells WSL2 (present) from WSL1 (absent).
pub fn classify(env: &Vec<(String, String)>, markers: &Markers, os: Os) -> (environment:
    Environment)
    ensures
        !any_set(env@, markers.wsl_markers@) ==> environment == Environment::Native(os),
        any_set(env@, markers.wsl_markers@) && any_set(env@, markers.interop_markers@)
            ==> environment == Environment::Wsl2,
        any_set(env@, markers.wsl_markers@) && !any_set(env@, markers.interop_markers@)
            ==> environment == Environment::Wsl1,
        environment == classification(
            any_set(env@, markers.wsl_markers@),
            any_set(env@, markers.interop_markers@),
            os,
        ),
{
    if !any_variable_is_set(env, &markers.wsl_markers) {
        Environment::Native(os)
    } else if any_variable_is_set(env, &markers.interop_markers) {
        Environment::Wsl2
    } else {
        Environment::Wsl1
    }
}

} // verus!
