//! The protocol messages as the dispatcher sees them.
//!
//! A message keeps its method name as a plain string, which routing reads,
//! and carries its correlation id and its JSON payload through untouched.

use vstd::prelude::*;
use lsp_server::RequestId;
use serde_json::Value;

verus! {

/// A message that expects exactly one response with the same id.
#[derive(Debug, PartialEq)]
pub struct Request {
    pub id: RequestId,
    pub method: String,
    pub params: Value,
}

/// A message that expects no response.
#[derive(Debug, PartialEq)]
pub struct Notification {
    pub method: String,
    pub params: Value,
}

/// The host's answer to a request that this server sent. `result` is absent
/// where the host answered with an error.
#[derive(Debug, PartialEq)]
pub struct Response {
    pub id: RequestId,
    pub result: Option<Value>,
}

/// One inbound protocol message.
#[derive(Debug, PartialEq)]
pub enum Message {
    Request(Request),
    Response(Response),
    Notification(Notification),
}

/// Why the payload of a known method could not be read.
#[derive(Debug)]
pub enum DecodeReason {
    /// The payload does not have the shape the method calls for.
    Payload(serde_json::Error),
    /// The payload names no document URI.
    NoUri,
    /// The document URI is longer than a URI can be.
    OversizedUri,
    /// The document URI is no URI.
    InvalidUri,
}

/// Mathematical model of a [`DecodeReason`]: the reason without the JSON
/// error's details.
pub enum DecodeReasonModel {
    Payload,
    NoUri,
    OversizedUri,
    InvalidUri,
}

impl View for DecodeReason {
    type V = DecodeReasonModel;

    open spec fn view(&self) -> DecodeReasonModel {
        match self {
            DecodeReason::Payload(_) => DecodeReasonModel::Payload,
            DecodeReason::NoUri => DecodeReasonModel::NoUri,
            DecodeReason::OversizedUri => DecodeReasonModel::OversizedUri,
            DecodeReason::InvalidUri => DecodeReasonModel::InvalidUri,
        }
    }
}

/// The payload of a known method could not be read. This points at a
/// protocol mismatch between host and server and is not recoverable.
#[derive(Debug)]
pub struct DecodeError {
    /// The method whose payload was malformed.
    pub method: String,
    pub reason: DecodeReason,
}

/// Mathematical model of a [`DecodeError`].
pub struct DecodeErrorModel {
    pub method: Seq<char>,
    pub reason: DecodeReasonModel,
}

impl View for DecodeError {
    type V = DecodeErrorModel;

    open spec fn view(&self) -> DecodeErrorModel {
        DecodeErrorModel { method: self.method@, reason: self.reason@ }
    }
}

/// The workspace command named by an execute-command request, with its
/// uninspected arguments.
#[derive(Debug, PartialEq)]
pub struct CommandCall {
    pub name: String,
    pub arguments: Vec<Value>,
}

} // verus!
