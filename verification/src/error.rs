//! Errors that requests are answered with.
use vstd::prelude::*;

verus! {

/// What an error says besides its message.
#[derive(Debug, PartialEq, Eq)]
pub enum ErrorData {
    /// A plain text.
    Text(String),
    /// Any other JSON value.
    Json(serde_json::Value),
}

/// An error that a request is answered with.
#[derive(Debug, PartialEq, Eq)]
pub struct RpcError {
    pub code: i32,
    pub message: String,
    pub data: Option<ErrorData>,
}

/// The model of an `ErrorData`.
pub enum ErrorDataView {
    Text(Seq<char>),
    Json(serde_json::Value),
}

/// The model of an `RpcError`.
pub struct RpcErrorView {
    pub code: int,
    pub message: Seq<char>,
    pub data: Option<ErrorDataView>,
}

impl View for ErrorData {
    type V = ErrorDataView;

    open spec fn view(&self) -> ErrorDataView {
        match self {
            ErrorData::Text(text) => ErrorDataView::Text(text@),
            ErrorData::Json(json) => ErrorDataView::Json(*json),
        }
    }
}

impl View for RpcError {
    type V = RpcErrorView;

    open spec fn view(&self) -> RpcErrorView {
        RpcErrorView {
            code: self.code as int,
            message: self.message@,
            data: match self.data {
                Some(data) => Some(data@),
                None => None,
            },
        }
    }
}

impl RpcErrorView {
    /// The error with a text as its data.
    pub open spec fn with_text(self, text: Seq<char>) -> RpcErrorView {
        RpcErrorView { data: Some(ErrorDataView::Text(text)), ..self }
    }
}

/// The error for parameters that cannot be used.
pub open spec fn invalid_params_error() -> RpcErrorView {
    RpcErrorView { code: -32602, message: "Invalid params"@, data: None }
}

/// The error for a method that is not offered.
pub open spec fn method_not_found_error() -> RpcErrorView {
    RpcErrorView { code: -32601, message: "Method not found"@, data: None }
}

/// The error for a failure on this side.
pub open spec fn internal_error() -> RpcErrorView {
    RpcErrorView { code: -32603, message: "Internal error"@, data: None }
}

impl RpcError {
    /// The error for parameters that cannot be used, from
    /// `agent_client_protocol::Error::invalid_params`.
    ///
    /// Taken on trust: its code, its message, and that it has no data.
    #[verifier::external_body]
    pub(crate) fn invalid_params() -> (error: RpcError)
        ensures
            error@ == invalid_params_error(),
    {
        let error = agent_client_protocol::Error::invalid_params();
        let data = error.data.map(ErrorData::Json);
        RpcError { code: error.code, message: error.message, data }
    }

    /// The error for a method that is not offered, from
    /// `agent_client_protocol::Error::method_not_found`.
    ///
    /// Taken on trust: its code, its message, and that it has no data.
    #[verifier::external_body]
    pub(crate) fn method_not_found() -> (error: RpcError)
        ensures
            error@ == method_not_found_error(),
    {
        let error = agent_client_protocol::Error::method_not_found();
        let data = error.data.map(ErrorData::Json);
        RpcError { code: error.code, message: error.message, data }
    }

    /// The error for a failure on this side, from
    /// `agent_client_protocol::Error::internal_error`.
    ///
    /// Taken on trust: its code, its message, and that it has no data.
    #[verifier::external_body]
    pub(crate) fn internal_error() -> (error: RpcError)
        ensures
            error@ == internal_error(),
    {
        let error = agent_client_protocol::Error::internal_error();
        let data = error.data.map(ErrorData::Json);
        RpcError { code: error.code, message: error.message, data }
    }

    /// Puts a text into the error as its data, by `agent_client_protocol::Error::with_data`.
    ///
    /// Taken on trust: code and message stay, and the data is the text, whatever it was before.
    #[verifier::external_body]
    pub(crate) fn with_data(self, text: &str) -> (error: RpcError)
        ensures
            error@ == self@.with_text(text@),
    {
        let error = agent_client_protocol::Error { code: self.code, message: self.message, data: None };
        let error = error.with_data(text);
        let data = match error.data {
            Some(serde_json::Value::String(text)) => Some(ErrorData::Text(text)),
            Some(other) => Some(ErrorData::Json(other)),
            None => None,
        };
        RpcError { code: error.code, message: error.message, data }
    }
}

/// The internal error that carries the reason of a failure as its data.
pub open spec fn internal_err_of(reason: Seq<char>) -> RpcErrorView {
    internal_error().with_text(reason)
}

/// The model of an answer.
pub open spec fn answer_view<T>(answer: Result<T, RpcError>) -> Result<T, RpcErrorView> {
    match answer {
        Ok(value) => Ok(value),
        Err(error) => Err(error@),
    }
}

/// The answer to what succeeded, or failed for the given reason.
pub open spec fn internal_on_err<T>(result: Result<T, String>) -> Result<T, RpcErrorView> {
    match result {
        Ok(value) => Ok(value),
        Err(reason) => Err(internal_err_of(reason@)),
    }
}

/// Answers a failure with an internal error that carries its reason.
pub fn internal_err(reason: String) -> (error: RpcError)
    ensures
        error@ == internal_err_of(reason@),
        error.code as int == -32603,
        error.message@ == "Internal error"@,
        error.data matches Some(ErrorData::Text(text)) && text@ == reason@,
{
    RpcError::internal_error().with_data(reason.as_str())
}

/// The result, where a failure becomes an internal error that carries its reason.
pub fn acp_internal_err<T>(result: Result<T, String>) -> (mapped: Result<T, RpcError>)
    ensures
        answer_view(mapped) == internal_on_err(result),
        match result {
            Ok(value) => mapped == Ok::<T, RpcError>(value),
            Err(reason) => {
                &&& mapped matches Err(error)
                &&& error.code as int == -32603
                &&& error.message@ == "Internal error"@
                &&& error.data matches Some(ErrorData::Text(text))
                &&& text@ == reason@
            },
        },
{
    match result {
        Ok(value) => Ok(value),
        Err(reason) => Err(internal_err(reason)),
    }
}

} // verus!
