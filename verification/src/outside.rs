//! The boundary to the outside crates the library leans on: the container
//! runtime specification type it reads the launch request from, and the
//! URL conversion the locked-application writer needs. Each item here is
//! trusted: its contract states only what the crate's own source shows.

use vstd::prelude::*;

verus! {

#[verifier::external_type_specification]
#[verifier::external_body]
pub struct ExSpec(oci_spec::runtime::Spec);

#[verifier::external_type_specification]
#[verifier::external_body]
pub struct ExProcess(oci_spec::runtime::Process);

/// Relies on the generated getter `Spec::process`: the launch request's
/// process description. Nothing is stated of the opaque value; callers
/// read it through the getters below.
pub assume_specification[ oci_spec::runtime::Spec::process ](s: &oci_spec::runtime::Spec) -> (r:
    &Option<oci_spec::runtime::Process>);

/// Relies on the generated getter `Process::args`: the ordered argument
/// list of the launch request.
pub assume_specification[ oci_spec::runtime::Process::args ](p: &oci_spec::runtime::Process) -> (r:
    &Option<Vec<String>>);

/// Relies on the generated getter `Process::env`: the environment entries
/// of the launch request.
pub assume_specification[ oci_spec::runtime::Process::env ](p: &oci_spec::runtime::Process) -> (r:
    &Option<Vec<String>>);

/// The ordered argument list of a launch request; empty when the request
/// carries no process or no arguments.
pub fn get_args(spec: &oci_spec::runtime::Spec) -> Vec<String> {
    match spec.process() {
        None => Vec::new(),
        Some(p) => match p.args() {
            None => Vec::new(),
            Some(args) => args.clone(),
        },
    }
}

/// The environment entries of a launch request; empty when the request
/// carries no process or no environment.
pub fn get_env(spec: &oci_spec::runtime::Spec) -> Vec<String> {
    match spec.process() {
        None => Vec::new(),
        Some(p) => match p.env() {
            None => Vec::new(),
            Some(env) => env.clone(),
        },
    }
}

/// The file URL that the URL crate serializes for a path: a function of
/// the path alone.
pub uninterp spec fn file_url_of(path: Seq<char>) -> Seq<char>;

/// Relies on `url::Url::from_file_path` and `Url::to_string`: an absolute
/// path — one starting with a slash, on this target — always converts,
/// and the serialization depends on the path alone.
#[verifier::external_body]
pub fn file_url_for_path(path: &str) -> (r: Option<String>)
    ensures
        path@.len() > 0 && path@[0] == '/' ==> r is Some,
        r matches Some(u) ==> u@ == file_url_of(path@),
{
    match url::Url::from_file_path(path) {
        Ok(u) => Some(u.to_string()),
        Err(_) => None,
    }
}

} // verus!
