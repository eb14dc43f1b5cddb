//! The description of one HTTP round trip against the service.

use vstd::prelude::*;

use crate::misc::CoggleOffset;
use crate::node::NodeUpdateProps;

verus! {

/// The HTTP verb of a request.
#[derive(Debug, Clone, Copy, PartialEq, Eq, Structural)]
pub enum Method {
    Get,
    Post,
    Put,
    Delete,
}

/// What a request carries in its JSON body.
#[derive(Debug, Clone)]
pub enum RequestBody {
    /// No body at all.
    NoBody,
    /// The empty JSON object `{}`.
    EmptyObject,
    /// `{title}`: a diagram to create.
    NewDiagram { title: String },
    /// `{parent, offset, text}`: a node to create under `parent`.
    NewNode { parent: String, offset: Option<CoggleOffset>, text: String },
    /// The fields of a node to change; absent fields are not sent.
    Update(NodeUpdateProps),
}

/// One request: its verb, its complete URL (access token included) and its
/// body.
#[derive(Debug, Clone)]
pub struct ApiRequest {
    pub method: Method,
    pub url: String,
    pub body: RequestBody,
}

} // verus!
