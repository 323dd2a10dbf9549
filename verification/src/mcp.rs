//! The tool-access protocol: JSON-RPC 2.0 requests that list the enabled
//! tools and call them.

use vstd::prelude::*;
use vstd::string::StringExecFns;
use crate::llm::{functions_model, FunctionDef, FunctionModel};
use crate::text::{concat, same_text};
use crate::tools::args::parsed_args;
use crate::tools::kind::ToolKind;
use crate::tools::registry::{dispatched, ToolRegistry};
use crate::tools::{
    outcome, resumed, Followup, Sequel, Step, ToolError, ToolFault, ToolReply, ToolRequest,
    ToolStep, Work,
};

verus! {

/// The envelope is not a JSON-RPC 2.0 request.
pub const INVALID_REQUEST: i64 = -32600;

/// The method is not one of the protocol's.
pub const METHOD_NOT_FOUND: i64 = -32601;

/// A parameter is missing or not as it should be.
pub const INVALID_PARAMS: i64 = -32602;

/// The tool failed, or the caller may not call it.
pub const TOOL_FAILURE: i64 = -32000;

/// The version of the protocol that the server speaks.
pub const PROTOCOL_VERSION: &'static str = "2024-11-05";

/// A request, as far as the protocol reads it.
#[derive(Debug)]
pub struct RpcRequest {
    pub jsonrpc: String,
    /// The id as JSON text. A request without one is a notification.
    pub id: Option<String>,
    pub method: String,
    /// The parameter `name`, where it is a string.
    pub tool_name: Option<String>,
    /// The parameter `arguments` as JSON text, where there is one.
    pub arguments: Option<String>,
}

/// What a response carries.
#[derive(Debug)]
pub enum RpcBody {
    /// The answer to `initialize`.
    Initialize { protocol_version: String, server_name: String, server_version: String },
    /// The answer to `tools/list`.
    Tools(Vec<FunctionDef>),
    /// The answer to `tools/call`: the text that the tool handed back.
    Text(String),
    Error { code: i64, message: String },
}

/// An `RpcBody`, as the contracts speak of it.
pub enum BodyModel {
    Initialize { protocol_version: Seq<char>, server_name: Seq<char>, server_version: Seq<char> },
    Tools(Seq<FunctionModel>),
    Text(Seq<char>),
    Error { code: i64, message: Seq<char> },
}

impl View for RpcBody {
    type V = BodyModel;

    open spec fn view(&self) -> BodyModel {
        match self {
            RpcBody::Initialize { protocol_version, server_name, server_version } => {
                BodyModel::Initialize {
                    protocol_version: protocol_version@,
                    server_name: server_name@,
                    server_version: server_version@,
                }
            },
            RpcBody::Tools(defs) => BodyModel::Tools(functions_model(defs@)),
            RpcBody::Text(t) => BodyModel::Text(t@),
            RpcBody::Error { code, message } => BodyModel::Error { code: *code, message: message@ },
        }
    }
}

/// What the server does about a request.
#[derive(Debug)]
pub enum RpcStep {
    /// Nothing: the request was a notification.
    Silent,
    /// It answers, under the request's id.
    Respond { id: String, body: RpcBody },
    /// It has outside work done for a tool, and goes on with the reply.
    Run { id: String, request: ToolRequest, followup: Followup },
}

/// An `RpcStep`, as the contracts speak of it.
pub enum StepModel {
    Silent,
    Respond { id: Seq<char>, body: BodyModel },
    Run { id: Seq<char>, request: Work, followup: Sequel },
}

impl View for RpcStep {
    type V = StepModel;

    open spec fn view(&self) -> StepModel {
        match self {
            RpcStep::Silent => StepModel::Silent,
            RpcStep::Respond { id, body } => StepModel::Respond { id: id@, body: body@ },
            RpcStep::Run { id, request, followup } => StepModel::Run {
                id: id@,
                request: request@,
                followup: followup@,
            },
        }
    }
}

/// The code under which a tool's error is reported: a call that was wrong
/// from the start is the caller's mistake, anything else the tool's
/// failure.
pub open spec fn error_code(e: ToolFault) -> i64 {
    match e {
        ToolFault::UnknownTool(_) => INVALID_PARAMS,
        ToolFault::InvalidArguments { .. } => INVALID_PARAMS,
        ToolFault::MissingParameter(_) => INVALID_PARAMS,
        ToolFault::Memory(_, _) => TOOL_FAILURE,
        ToolFault::Failed(_) => TOOL_FAILURE,
    }
}

/// What the server does once a tool call has come to `step`.
pub open spec fn call_step(id: Seq<char>, step: Result<Step, ToolFault>) -> StepModel {
    match step {
        Ok(Step::Done(text)) => StepModel::Respond { id, body: BodyModel::Text(text) },
        Ok(Step::Ask { request, followup }) => StepModel::Run { id, request, followup },
        Err(e) => StepModel::Respond {
            id,
            body: BodyModel::Error { code: error_code(e), message: e.message() },
        },
    }
}

/// A refusal under the request's id.
pub open spec fn refused(id: Seq<char>, code: i64, message: Seq<char>) -> StepModel {
    StepModel::Respond { id, body: BodyModel::Error { code, message } }
}

/// A request, as the contracts speak of it.
pub struct RequestModel {
    pub jsonrpc: Seq<char>,
    pub id: Option<Seq<char>>,
    pub method: Seq<char>,
    pub tool_name: Option<Seq<char>>,
    pub arguments: Option<Seq<char>>,
}

impl View for RpcRequest {
    type V = RequestModel;

    open spec fn view(&self) -> RequestModel {
        RequestModel {
            jsonrpc: self.jsonrpc@,
            id: self.id.deep_view(),
            method: self.method@,
            tool_name: self.tool_name.deep_view(),
            arguments: self.arguments.deep_view(),
        }
    }
}

/// The JSON text of a call's arguments: `null` where the call has none.
pub open spec fn arguments_text(arguments: Option<Seq<char>>) -> Seq<char> {
    match arguments {
        Some(a) => a,
        None => "null"@,
    }
}

/// What the server does about `request`. A notification gets no answer. A
/// caller who may not pass gets `initialize` answered and nothing else.
pub open spec fn handled(
    kinds: Seq<ToolKind>,
    store: Seq<char>,
    base: Seq<char>,
    server_name: Seq<char>,
    server_version: Seq<char>,
    request: RequestModel,
    may_pass: bool,
    today: Seq<char>,
) -> StepModel {
    match request.id {
        None => StepModel::Silent,
        Some(id) => if request.jsonrpc != "2.0"@ {
            refused(id, INVALID_REQUEST, "Invalid JSON-RPC version"@)
        } else if request.method == "initialize"@ {
            StepModel::Respond {
                id,
                body: BodyModel::Initialize {
                    protocol_version: PROTOCOL_VERSION@,
                    server_name,
                    server_version,
                },
            }
        } else if !may_pass {
            refused(id, TOOL_FAILURE, "Unauthorized"@)
        } else if request.method == "tools/list"@ {
            StepModel::Respond {
                id,
                body: BodyModel::Tools(kinds.map_values(|k: ToolKind| k.definition_model())),
            }
        } else if request.method == "tools/call"@ {
            match request.tool_name {
                None => refused(id, INVALID_PARAMS, "Missing tool name"@),
                Some(name) => call_step(
                    id,
                    dispatched(
                        kinds,
                        store,
                        base,
                        name,
                        parsed_args(arguments_text(request.arguments)),
                        today,
                    ),
                ),
            }
        } else {
            refused(id, METHOD_NOT_FOUND, "Method not found: "@ + request.method)
        },
    }
}

fn refuse(id: String, code: i64, message: String) -> (r: RpcStep)
    ensures
        r@ == refused(id@, code, message@),
{
    RpcStep::Respond { id, body: RpcBody::Error { code, message } }
}

fn after_call(id: String, step: Result<ToolStep, ToolError>) -> (r: RpcStep)
    ensures
        r@ == call_step(id@, outcome(step)),
{
    match step {
        Ok(ToolStep::Done(result)) => RpcStep::Respond { id, body: RpcBody::Text(result.for_llm) },
        Ok(ToolStep::Ask { request, followup }) => RpcStep::Run { id, request, followup },
        Err(e) => {
            let code = match &e {
                ToolError::UnknownTool(_) => INVALID_PARAMS,
                ToolError::InvalidArguments { .. } => INVALID_PARAMS,
                ToolError::MissingParameter(_) => INVALID_PARAMS,
                ToolError::Memory(_) => TOOL_FAILURE,
                ToolError::Failed(_) => TOOL_FAILURE,
            };
            RpcStep::Respond { id, body: RpcBody::Error { code, message: e.message() } }
        },
    }
}

/// Decides what the server does about a request. `may_pass` says whether
/// the caller showed the token that was set, or none was set.
pub fn handle_request(
    registry: &ToolRegistry,
    server_name: &str,
    server_version: &str,
    request: &RpcRequest,
    may_pass: bool,
    today: &str,
) -> (r: RpcStep)
    ensures
        r@ == handled(
            registry.kinds(),
            registry.store(),
            registry.base(),
            server_name@,
            server_version@,
            request@,
            may_pass,
            today@,
        ),
{
    let id = match &request.id {
        None => {
            return RpcStep::Silent;
        },
        Some(id) => id.clone(),
    };
    let method = request.method.as_str();
    if !same_text(request.jsonrpc.as_str(), "2.0") {
        refuse(id, INVALID_REQUEST, String::from_str("Invalid JSON-RPC version"))
    } else if same_text(method, "initialize") {
        RpcStep::Respond {
            id,
            body: RpcBody::Initialize {
                protocol_version: String::from_str(PROTOCOL_VERSION),
                server_name: String::from_str(server_name),
                server_version: String::from_str(server_version),
            },
        }
    } else if !may_pass {
        refuse(id, TOOL_FAILURE, String::from_str("Unauthorized"))
    } else if same_text(method, "tools/list") {
        RpcStep::Respond { id, body: RpcBody::Tools(registry.tool_defs_mcp()) }
    } else if same_text(method, "tools/call") {
        match &request.tool_name {
            None => refuse(id, INVALID_PARAMS, String::from_str("Missing tool name")),
            Some(name) => {
                let step = match &request.arguments {
                    Some(a) => registry.execute(name.as_str(), a.as_str(), today),
                    None => registry.execute(name.as_str(), "null", today),
                };
                after_call(id, step)
            },
        }
    } else {
        refuse(id, METHOD_NOT_FOUND, concat("Method not found: ", method))
    }
}

/// Goes on with a tool call once the outside work is done.
pub fn continue_call(id: String, followup: Followup, reply: ToolReply) -> (r: RpcStep)
    ensures
        r@ == call_step(id@, resumed(followup@, reply@)),
{
    after_call(id, followup.resume(reply))
}

} // verus!
