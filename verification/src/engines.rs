//! The engines: one per embedded runtime flavor, each carrying the fixed
//! configuration its `run_wasi` path uses. The surrounding trait plumbing
//! that registers an engine with the container runtime, and the runtime
//! crates the engines hand work to, live in the embedding process; what
//! stands here is each engine's name and the decisions its run path makes.

use vstd::prelude::*;

use crate::stdio::StdioDescriptors;

verus! {

/// Engine for the lunatic runtime: runs the wasm binary named by the
/// first argument.
#[derive(Clone, Copy, Default, PartialEq, Eq, Structural, Debug)]
pub struct LunaticEngine;

impl LunaticEngine {
    pub fn name() -> (r: &'static str)
        ensures
            r@ == "lunatic"@,
    {
        "lunatic"
    }

    /// The wasm binary to run: the first argument, or nothing when no
    /// command was provided.
    pub fn entrypoint(args: &Vec<String>) -> (r: Option<String>)
        ensures
            args@.len() == 0 ==> r is None,
            args@.len() > 0 ==> (r matches Some(cmd) && cmd@ == args.deep_view()[0]),
    {
        if args.len() == 0 {
            None
        } else {
            Some(args[0].clone())
        }
    }
}

/// The fixed run configuration of the slight engine.
pub struct SlightRunArgs {
    pub module: String,
    pub slightfile: String,
    pub link_all_capabilities: bool,
}

/// Engine for the slight runtime: runs the module and capability file at
/// their well-known paths.
#[derive(Clone, Copy, Default, PartialEq, Eq, Structural, Debug)]
pub struct SlightEngine;

impl SlightEngine {
    pub fn name() -> (r: &'static str)
        ensures
            r@ == "slight"@,
    {
        "slight"
    }

    /// The run arguments the engine always uses: the wasm module at
    /// `/app.wasm`, the capability file at `/slightfile.toml`, all
    /// capabilities linked.
    pub fn run_args() -> (r: SlightRunArgs)
        ensures
            r.module@ == "/app.wasm"@,
            r.slightfile@ == "/slightfile.toml"@,
            r.link_all_capabilities,
    {
        SlightRunArgs {
            module: String::from_str("/app.wasm"),
            slightfile: String::from_str("/slightfile.toml"),
            link_all_capabilities: true,
        }
    }
}

/// Engine for the wasm workers runtime: serves the workers under the root
/// on a fixed host and port.
#[derive(Clone, Copy, Default, PartialEq, Eq, Structural, Debug)]
pub struct WwsEngine;

impl WwsEngine {
    pub fn name() -> (r: &'static str)
        ensures
            r@ == "wws"@,
    {
        "wws"
    }

    /// The host the server binds.
    pub fn listen_host() -> (r: &'static str)
        ensures
            r@ == "0.0.0.0"@,
    {
        "0.0.0.0"
    }

    /// The port the server binds.
    pub fn listen_port() -> (r: u16)
        ensures
            r == 3000,
    {
        3000
    }
}

/// Engine for the spin runtime: resolves the application and drives its
/// single trigger.
#[derive(Clone, Copy, Default, PartialEq, Eq, Structural, Debug)]
pub struct SpinEngine;

impl SpinEngine {
    pub fn name() -> (r: &'static str)
        ensures
            r@ == "spin"@,
    {
        "spin"
    }

    /// The address an HTTP trigger binds.
    pub fn spin_addr() -> (r: &'static str)
        ensures
            r@ == "0.0.0.0:80"@,
    {
        "0.0.0.0:80"
    }

    /// Where a runtime-override configuration may sit, loaded into the
    /// container root.
    pub fn runtime_config_path() -> (r: &'static str)
        ensures
            r@ == "/runtime-config.toml"@,
    {
        "/runtime-config.toml"
    }
}

/// The spin executor: the engine's run path together with the descriptors
/// its standard streams are overlaid onto.
#[derive(Clone)]
pub struct SpinExecutor {
    stdio: StdioDescriptors,
}

impl SpinExecutor {
    /// The descriptors this executor redirects onto.
    pub closed spec fn stdio(&self) -> StdioDescriptors {
        self.stdio
    }

    pub fn new(stdio: StdioDescriptors) -> (r: Self)
        ensures
            r.stdio() == stdio,
    {
        SpinExecutor { stdio }
    }

    /// Reads the descriptors back for the redirection step.
    pub fn descriptors(&self) -> (r: StdioDescriptors)
        ensures
            r == self.stdio(),
    {
        self.stdio
    }
}

} // verus!
