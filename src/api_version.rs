use vstd::prelude::*;

verus! {

/// The generation of lifecycle-function naming and arity that a loaded
/// contract module implements.
#[derive(Clone, Copy, Debug, PartialEq, Eq, Structural)]
pub enum CosmWasmApiVersion {
    /// `init(env, msg)`, `handle(env, msg)`, `query(msg)`.
    V010,
    /// `instantiate(env, info, msg)`, `execute(env, info, msg)`, `query(env, msg)`.
    V016,
}

/// The three lifecycle verbs that a host asks of a contract.
#[derive(Clone, Copy, Debug, PartialEq, Eq, Structural)]
pub enum Verb {
    /// First-time setup of a contract.
    Create,
    /// A state-changing call.
    Mutate,
    /// A state-observing call.
    Read,
}

/// An exported lifecycle function of a contract module.
#[derive(Clone, Copy, Debug, PartialEq, Eq, Structural)]
pub enum ExportName {
    Init,
    Instantiate,
    Handle,
    Execute,
    Query,
}

impl ExportName {
    /// The symbol under which the module exports the function.
    pub open spec fn symbol(self) -> Seq<char> {
        match self {
            ExportName::Init => "init"@,
            ExportName::Instantiate => "instantiate"@,
            ExportName::Handle => "handle"@,
            ExportName::Execute => "execute"@,
            ExportName::Query => "query"@,
        }
    }

    pub fn as_str(&self) -> (r: &'static str)
        ensures
            r@ == self.symbol(),
    {
        match self {
            ExportName::Init => "init",
            ExportName::Instantiate => "instantiate",
            ExportName::Handle => "handle",
            ExportName::Execute => "execute",
            ExportName::Query => "query",
        }
    }
}

/// Which export a verb resolves to under a given API generation.
pub open spec fn export_of(version: CosmWasmApiVersion, verb: Verb) -> ExportName {
    match (version, verb) {
        (CosmWasmApiVersion::V010, Verb::Create) => ExportName::Init,
        (CosmWasmApiVersion::V016, Verb::Create) => ExportName::Instantiate,
        (CosmWasmApiVersion::V010, Verb::Mutate) => ExportName::Handle,
        (CosmWasmApiVersion::V016, Verb::Mutate) => ExportName::Execute,
        (_, Verb::Read) => ExportName::Query,
    }
}

/// The ordered 32-bit arguments handed to the export: each offset keeps its
/// 32 bits and is passed as a wasm `i32`.
pub open spec fn args_of(
    version: CosmWasmApiVersion,
    verb: Verb,
    env_ptr: u32,
    msg_info_ptr: u32,
    msg_ptr: u32,
) -> Seq<i32> {
    match (version, verb) {
        (CosmWasmApiVersion::V010, Verb::Read) => seq![msg_ptr as i32],
        (CosmWasmApiVersion::V016, Verb::Read) => seq![env_ptr as i32, msg_ptr as i32],
        (CosmWasmApiVersion::V010, _) => seq![env_ptr as i32, msg_ptr as i32],
        (CosmWasmApiVersion::V016, _) => seq![env_ptr as i32, msg_info_ptr as i32, msg_ptr as i32],
    }
}

/// A call to make into the module: the export and its ordered arguments.
pub struct Invocation {
    pub export: ExportName,
    pub args: Vec<i32>,
}

/// Resolves a verb under an API generation into the export to call and the
/// arguments to pass it.
pub fn plan(
    version: CosmWasmApiVersion,
    verb: Verb,
    env_ptr: u32,
    msg_info_ptr: u32,
    msg_ptr: u32,
) -> (r: Invocation)
    ensures
        r.export == export_of(version, verb),
        r.args@ == args_of(version, verb, env_ptr, msg_info_ptr, msg_ptr),
{
    let export = match (version, verb) {
        (CosmWasmApiVersion::V010, Verb::Create) => ExportName::Init,
        (CosmWasmApiVersion::V016, Verb::Create) => ExportName::Instantiate,
        (CosmWasmApiVersion::V010, Verb::Mutate) => ExportName::Handle,
        (CosmWasmApiVersion::V016, Verb::Mutate) => ExportName::Execute,
        (_, Verb::Read) => ExportName::Query,
    };
    let args = match (version, verb) {
        (CosmWasmApiVersion::V010, Verb::Read) => vec![msg_ptr as i32],
        (CosmWasmApiVersion::V016, Verb::Read) => vec![env_ptr as i32, msg_ptr as i32],
        (CosmWasmApiVersion::V010, _) => vec![env_ptr as i32, msg_ptr as i32],
        (CosmWasmApiVersion::V016, _) => vec![env_ptr as i32, msg_info_ptr as i32, msg_ptr as i32],
    };
    Invocation { export, args }
}

} // verus!
