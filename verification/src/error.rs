//! The kinds of failure, their codes on the wire, and their messages.

use vstd::prelude::*;
use vstd::string::StringExecFns;

verus! {

/// What went wrong. The list is closed: every failure that reaches a caller
/// is one of these, and each has a code of its own.
///
/// An unknown method and invalid parameters have the codes that JSON-RPC 2.0
/// gives them, and an undecodable request has the code of its parse error.
/// The other three have codes in the range that JSON-RPC 2.0 leaves to the
/// server.
#[derive(Clone, Copy, Debug, PartialEq, Eq, Structural)]
pub enum ErrorKind {
    /// The request names a method that the server does not have.
    MethodNotFound,
    /// A parameter that the method needs is missing or has the wrong shape.
    InvalidParams,
    /// `callTool` names a tool that is not registered.
    ToolNotFound,
    /// A registered tool failed.
    ToolExecutionError,
    /// What came in is not a request.
    TransportDecodeError,
    /// Sending or receiving failed.
    TransportIoError,
}

/// The code of [`ErrorKind::MethodNotFound`].
pub const METHOD_NOT_FOUND: i32 = -32601;

/// The code of [`ErrorKind::InvalidParams`].
pub const INVALID_PARAMS: i32 = -32602;

/// The code of [`ErrorKind::ToolNotFound`].
pub const TOOL_NOT_FOUND: i32 = -32001;

/// The code of [`ErrorKind::ToolExecutionError`].
pub const TOOL_EXECUTION_ERROR: i32 = -32002;

/// The code of [`ErrorKind::TransportDecodeError`].
pub const TRANSPORT_DECODE_ERROR: i32 = -32700;

/// The code of [`ErrorKind::TransportIoError`].
pub const TRANSPORT_IO_ERROR: i32 = -32000;

impl ErrorKind {
    /// The code that stands for this kind in an error on the wire.
    pub open spec fn spec_code(self) -> i32 {
        match self {
            ErrorKind::MethodNotFound => METHOD_NOT_FOUND,
            ErrorKind::InvalidParams => INVALID_PARAMS,
            ErrorKind::ToolNotFound => TOOL_NOT_FOUND,
            ErrorKind::ToolExecutionError => TOOL_EXECUTION_ERROR,
            ErrorKind::TransportDecodeError => TRANSPORT_DECODE_ERROR,
            ErrorKind::TransportIoError => TRANSPORT_IO_ERROR,
        }
    }

    /// The kind that a code stands for, where it stands for one.
    pub open spec fn spec_from_code(code: i32) -> Option<ErrorKind> {
        if code == METHOD_NOT_FOUND {
            Some(ErrorKind::MethodNotFound)
        } else if code == INVALID_PARAMS {
            Some(ErrorKind::InvalidParams)
        } else if code == TOOL_NOT_FOUND {
            Some(ErrorKind::ToolNotFound)
        } else if code == TOOL_EXECUTION_ERROR {
            Some(ErrorKind::ToolExecutionError)
        } else if code == TRANSPORT_DECODE_ERROR {
            Some(ErrorKind::TransportDecodeError)
        } else if code == TRANSPORT_IO_ERROR {
            Some(ErrorKind::TransportIoError)
        } else {
            None
        }
    }

    /// The code that stands for this kind in an error on the wire.
    pub fn code(self) -> (code: i32)
        ensures
            code == self.spec_code(),
    {
        match self {
            ErrorKind::MethodNotFound => METHOD_NOT_FOUND,
            ErrorKind::InvalidParams => INVALID_PARAMS,
            ErrorKind::ToolNotFound => TOOL_NOT_FOUND,
            ErrorKind::ToolExecutionError => TOOL_EXECUTION_ERROR,
            ErrorKind::TransportDecodeError => TRANSPORT_DECODE_ERROR,
            ErrorKind::TransportIoError => TRANSPORT_IO_ERROR,
        }
    }

    /// The kind that `code` stands for, and `None` for a code that stands
    /// for none.
    pub fn from_code(code: i32) -> (kind: Option<ErrorKind>)
        ensures
            kind == ErrorKind::spec_from_code(code),
    {
        if code == METHOD_NOT_FOUND {
            Some(ErrorKind::MethodNotFound)
        } else if code == INVALID_PARAMS {
            Some(ErrorKind::InvalidParams)
        } else if code == TOOL_NOT_FOUND {
            Some(ErrorKind::ToolNotFound)
        } else if code == TOOL_EXECUTION_ERROR {
            Some(ErrorKind::ToolExecutionError)
        } else if code == TRANSPORT_DECODE_ERROR {
            Some(ErrorKind::TransportDecodeError)
        } else if code == TRANSPORT_IO_ERROR {
            Some(ErrorKind::TransportIoError)
        } else {
            None
        }
    }
}

/// Every kind has a code of its own: the code gives the kind back, and a
/// code that stands for a kind is that kind's code.
pub proof fn law_codes_tell_kinds_apart(kind: ErrorKind, code: i32)
    ensures
        ErrorKind::spec_from_code(kind.spec_code()) == Some(kind),
        ErrorKind::spec_from_code(code) == Some(kind) ==> kind.spec_code() == code,
{
}

/// A failure: its kind and a message for a human reader.
#[derive(Debug)]
pub struct McpError {
    pub kind: ErrorKind,
    pub message: String,
}

/// The model of a failure.
pub struct McpErrorView {
    pub kind: ErrorKind,
    pub message: Seq<char>,
}

impl View for McpError {
    type V = McpErrorView;

    open spec fn view(&self) -> McpErrorView {
        McpErrorView { kind: self.kind, message: self.message@ }
    }
}

/// The failure of a request for a method that the server does not have.
pub open spec fn method_not_found(method: Seq<char>) -> McpErrorView {
    McpErrorView { kind: ErrorKind::MethodNotFound, message: "Method not found: "@ + method }
}

/// The failure of a request that lacks the parameter `name`.
pub open spec fn missing_param(name: Seq<char>) -> McpErrorView {
    McpErrorView {
        kind: ErrorKind::InvalidParams,
        message: "Missing '"@ + name + "' in params"@,
    }
}

/// The failure of a call of a tool that is not registered.
pub open spec fn tool_not_found(name: Seq<char>) -> McpErrorView {
    McpErrorView { kind: ErrorKind::ToolNotFound, message: "Tool "@ + name + " not found"@ }
}

/// The failure of a tool, with the tool's own message.
pub open spec fn tool_failed(message: Seq<char>) -> McpErrorView {
    McpErrorView { kind: ErrorKind::ToolExecutionError, message }
}

/// The failure to read a request from what came in.
pub open spec fn undecodable() -> McpErrorView {
    McpErrorView {
        kind: ErrorKind::TransportDecodeError,
        message: "Failed to parse JSON-RPC request"@,
    }
}

/// The failure to write a response.
pub open spec fn unwritable() -> McpErrorView {
    McpErrorView {
        kind: ErrorKind::TransportIoError,
        message: "Failed to write JSON-RPC response"@,
    }
}

impl McpError {
    /// A failure of the given kind with the given message.
    pub fn new(kind: ErrorKind, message: String) -> (error: McpError)
        ensures
            error@ == (McpErrorView { kind, message: message@ }),
    {
        McpError { kind, message }
    }

    /// The failure of a request for a method that the server does not have.
    pub fn method_not_found(method: &str) -> (error: McpError)
        ensures
            error@ == method_not_found(method@),
    {
        McpError {
            kind: ErrorKind::MethodNotFound,
            message: "Method not found: ".to_owned().concat(method),
        }
    }

    /// The failure of a request that lacks the parameter `name`.
    pub fn missing_param(name: &str) -> (error: McpError)
        ensures
            error@ == missing_param(name@),
    {
        McpError {
            kind: ErrorKind::InvalidParams,
            message: "Missing '".to_owned().concat(name).concat("' in params"),
        }
    }

    /// The failure of a call of a tool that is not registered.
    pub fn tool_not_found(name: &str) -> (error: McpError)
        ensures
            error@ == tool_not_found(name@),
    {
        McpError {
            kind: ErrorKind::ToolNotFound,
            message: "Tool ".to_owned().concat(name).concat(" not found"),
        }
    }

    /// The failure of a tool, with the tool's own message.
    pub fn tool_failed(message: String) -> (error: McpError)
        ensures
            error@ == tool_failed(message@),
    {
        McpError { kind: ErrorKind::ToolExecutionError, message }
    }

    /// The failure to read a request from what came in.
    pub fn undecodable() -> (error: McpError)
        ensures
            error@ == undecodable(),
    {
        McpError {
            kind: ErrorKind::TransportDecodeError,
            message: "Failed to parse JSON-RPC request".to_owned(),
        }
    }

    /// The failure to write a response.
    pub fn unwritable() -> (error: McpError)
        ensures
            error@ == unwritable(),
    {
        McpError {
            kind: ErrorKind::TransportIoError,
            message: "Failed to write JSON-RPC response".to_owned(),
        }
    }

    /// The message, as the failure is shown to a reader.
    pub fn to_string(&self) -> (text: String)
        ensures
            text@ == self@.message,
    {
        self.message.clone()
    }
}

} // verus!
