//! Example tools, as far as they compute: what they check, what they ask
//! of the authentication, and the texts that they answer with.

use crate::error::{ErrorView, ServerError};
use vstd::prelude::*;
use vstd::string::*;

pub mod auth_example;
pub mod dice_example;
pub mod http_client_example;
pub mod session_example;

verus! {

/// Why a tool call failed.
#[derive(Clone, Debug, PartialEq, Eq)]
pub enum ToolError {
    /// The call's parameters cannot be used. The text says why.
    InvalidParams(String),
    /// The tool failed on its own side. The text says why.
    InternalError(String),
}

/// A `ToolError` as contracts see it.
pub enum ToolErrorView {
    InvalidParams(Seq<char>),
    InternalError(Seq<char>),
}

impl View for ToolError {
    type V = ToolErrorView;

    open spec fn view(&self) -> ToolErrorView {
        match self {
            ToolError::InvalidParams(why) => ToolErrorView::InvalidParams(why@),
            ToolError::InternalError(why) => ToolErrorView::InternalError(why@),
        }
    }
}

/// The view of what a tool returns.
pub open spec fn tool_result_view(r: Result<String, ToolError>) -> Result<Seq<char>, ToolErrorView> {
    match r {
        Ok(text) => Ok(text@),
        Err(e) => Err(e@),
    }
}

/// The refusal of a call for a failure of the authentication: the words
/// that say at which step it failed, then the failure's message.
pub open spec fn refusal(step: Seq<char>, cause: ErrorView) -> ToolErrorView {
    ToolErrorView::InvalidParams(step + cause.message())
}

/// Refuses a call for a failure of the authentication.
pub fn refuse(step: &str, cause: &ServerError) -> (e: ToolError)
    ensures
        e@ == refusal(step@, cause@),
{
    let mut text = String::from_str(step);
    text.append(cause.message().as_str());
    ToolError::InvalidParams(text)
}

} // verus!
