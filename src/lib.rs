//! A client for a remote mind-map service: diagrams, their node trees and
//! folders. The library decides what each request is (verb, URL, body) and
//! how a decoded response becomes domain values; the caller performs the
//! network round trip.

pub mod api;
pub mod diagram;
pub mod error;
pub mod folder;
pub mod misc;
pub mod node;
pub mod request;
pub mod text;

pub use api::{ApiOptions, CoggleApi};
pub use diagram::{CoggleApiDiagram, DiagramResource};
pub use error::CoggleError;
pub use folder::{Folder, FolderResource};
pub use misc::CoggleOffset;
pub use node::{CoggleApiNode, NodeResource, NodeUpdate, NodeUpdateProps, Offset};
pub use request::{ApiRequest, Method, RequestBody};
