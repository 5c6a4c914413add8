//! What can go wrong, and how it is told to the gateway.
use vstd::prelude::*;
use vstd::string::*;

use crate::text;

verus! {

/// An error returned by the lightningd RPC consisting of a code and a message.
#[derive(Debug)]
pub struct RpcError {
    pub code: Option<i32>,
    pub message: String,
}

/// How an RPC error is shown to a user.
pub open spec fn rpc_error_display(code: Option<i32>, message: Seq<char>) -> Seq<char> {
    match code {
        Some(code) => "Error code "@ + text::signed_decimal(code as int) + ": "@ + message,
        None => "Error: "@ + message,
    }
}

/// How a string is shown to a developer: quoted and escaped.
pub uninterp spec fn str_debug(s: Seq<char>) -> Seq<char>;

/// How an error code is shown to a developer.
pub open spec fn code_debug(code: Option<i32>) -> Seq<char> {
    match code {
        Some(code) => "Some("@ + text::signed_decimal(code as int) + ")"@,
        None => "None"@,
    }
}

/// How an RPC error is shown to a developer: its fields, with the message quoted and escaped.
pub open spec fn rpc_error_debug(code: Option<i32>, message: Seq<char>) -> Seq<char> {
    "RpcError { code: "@ + code_debug(code) + ", message: "@ + str_debug(message) + " }"@
}

/// Calls `to_string` of `cln_rpc::RpcError`, which goes through its `Display`: the code,
/// where there is one, and the message as it stands.
#[verifier::external_body]
fn show_rpc_error(err: &RpcError) -> (r: String)
    ensures
        r@ == rpc_error_display(err.code, err.message@),
{
    cln_rpc::RpcError { code: err.code, message: err.message.clone() }.to_string()
}

/// Formats a `cln_rpc::RpcError` with its derived `Debug`: the name of the struct and its two
/// fields on one line, the message as `str` is formatted with `Debug`.
#[verifier::external_body]
fn debug_rpc_error(err: &RpcError) -> (r: String)
    ensures
        r@ == rpc_error_debug(err.code, err.message@),
{
    format!("{:?}", cln_rpc::RpcError { code: err.code, message: err.message.clone() })
}

/// Formats a string with its `Debug`. The text depends on the string alone.
#[verifier::external_body]
pub(crate) fn debug_str(s: &str) -> (r: String)
    ensures
        r@ == str_debug(s@),
{
    format!("{:?}", s)
}

/// Why a request to the extension failed.
#[derive(Debug)]
pub enum ClnExtensionError {
    /// An error of the plugin or of the connection to the node, as it is shown to a
    /// developer: its message, and the stack backtrace where there is one.
    Error(String),
    /// The node answered a request with an error.
    RpcError(RpcError),
    /// The node answered another request than the one it was sent.
    RpcWrongResponse,
}

/// The text of an error with a detail.
pub open spec fn extension_error(detail: Seq<char>) -> Seq<char> {
    "Gateway CLN Extension Error : "@ + detail
}

/// The text of an answer to the wrong request.
pub open spec fn wrong_response() -> Seq<char> {
    "Gateway CLN Extension, CLN RPC Wrong Response"@
}

/// The text of an error with a detail.
pub fn extension_error_text(detail: &str) -> (r: String)
    ensures
        r@ == extension_error(detail@),
        r@ == "Gateway CLN Extension Error : "@ + detail@,
{
    "Gateway CLN Extension Error : ".to_owned().concat(detail)
}

impl ClnExtensionError {
    /// What the error is shown as.
    pub open spec fn display(self) -> Seq<char> {
        match self {
            ClnExtensionError::Error(detail) => extension_error(detail@),
            ClnExtensionError::RpcError(err) => extension_error(
                rpc_error_debug(err.code, err.message@),
            ),
            ClnExtensionError::RpcWrongResponse => wrong_response(),
        }
    }

    /// The text that the error is shown as.
    pub fn to_string(&self) -> (r: String)
        ensures
            r@ == self.display(),
    {
        match self {
            ClnExtensionError::Error(detail) => extension_error_text(detail.as_str()),
            ClnExtensionError::RpcError(err) => {
                let detail = debug_rpc_error(err);
                extension_error_text(detail.as_str())
            },
            ClnExtensionError::RpcWrongResponse => "Gateway CLN Extension, CLN RPC Wrong Response".to_owned(),
        }
    }
}

impl From<RpcError> for ClnExtensionError {
    fn from(err: RpcError) -> (r: ClnExtensionError) {
        ClnExtensionError::RpcError(err)
    }
}

impl vstd::std_specs::convert::FromSpecImpl<RpcError> for ClnExtensionError {
    open spec fn obeys_from_spec() -> bool {
        true
    }

    open spec fn from_spec(err: RpcError) -> ClnExtensionError {
        ClnExtensionError::RpcError(err)
    }
}

/// The class of a failed request, as gRPC tells them apart.
#[derive(Clone, Copy, Debug, PartialEq, Eq, Structural)]
pub enum Code {
    Internal,
}

/// How a request of the gateway failed.
#[derive(Debug)]
pub struct Status {
    pub code: Code,
    pub message: String,
}

impl Status {
    /// Whether this is an internal error with the given message.
    pub open spec fn is_internal(self, message: Seq<char>) -> bool {
        self.code == Code::Internal && self.message@ == message
    }

    /// An internal error with a message.
    pub fn internal(message: String) -> (r: Status)
        ensures
            r.is_internal(message@),
            r == (Status { code: Code::Internal, message }),
    {
        Status { code: Code::Internal, message }
    }

    /// Tells the gateway of an error of the extension.
    pub fn of_extension_error(err: &ClnExtensionError) -> (r: Status)
        ensures
            r.is_internal(err.display()),
    {
        Status::internal(err.to_string())
    }

    /// Tells the gateway of an error of the node.
    pub fn of_rpc_error(err: &RpcError) -> (r: Status)
        ensures
            r.is_internal(rpc_error_display(err.code, err.message@)),
    {
        Status::internal(show_rpc_error(err))
    }
}

/// What every error of the extension is shown as.
pub proof fn law_error_texts(err: ClnExtensionError)
    ensures
        match err {
            ClnExtensionError::Error(detail) => err.display() == "Gateway CLN Extension Error : "@
                + detail@,
            ClnExtensionError::RpcError(rpc) => err.display() == "Gateway CLN Extension Error : "@
                + ("RpcError { code: "@ + (match rpc.code {
                Some(code) => "Some("@ + text::signed_decimal(code as int) + ")"@,
                None => "None"@,
            }) + ", message: "@ + str_debug(rpc.message@) + " }"@),
            ClnExtensionError::RpcWrongResponse => err.display()
                == "Gateway CLN Extension, CLN RPC Wrong Response"@,
        },
        wrong_response() == "Gateway CLN Extension, CLN RPC Wrong Response"@,
{
}

/// What an error of the node is told as.
pub proof fn law_rpc_error_text(err: RpcError)
    ensures
        match err.code {
            Some(code) => rpc_error_display(err.code, err.message@) == "Error code "@
                + text::signed_decimal(code as int) + ": "@ + err.message@,
            None => rpc_error_display(err.code, err.message@) == "Error: "@ + err.message@,
        },
{
}

/// An internal error with a message has that code and exactly that message.
pub proof fn law_internal_errors(status: Status, message: Seq<char>)
    ensures
        status.is_internal(message) <==> status.code == Code::Internal && status.message@ == message,
        status.is_internal(status.message@),
{
}

} // verus!
