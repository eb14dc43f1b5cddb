//! A diagram: the handle through which its node tree is read and arranged.

use vstd::prelude::*;
use vstd::string::*;

use crate::api::CoggleApi;
use crate::node::{mirrors, CoggleApiNode, NodeResource};
use crate::request::{ApiRequest, Method, RequestBody};
use crate::text::{is_first_occurrence, occurs_at, replace_first, replace_first_spec};

verus! {

/// The placeholder that stands for a diagram's id in a URL template.
pub const DIAGRAM_PLACEHOLDER: &'static str = ":diagram";

/// The collection of a diagram's nodes.
pub const NODES_PATH: &'static str = "/api/1/diagrams/:diagram/nodes";

/// The collection of the nodes of the diagram `diagram_id`.
pub open spec fn nodes_endpoint(diagram_id: Seq<char>) -> Seq<char> {
    "/api/1/diagrams/"@ + diagram_id + "/nodes"@
}

/// Filling the diagram's id into `NODES_PATH` gives its node collection,
/// whatever the id.
pub proof fn nodes_path_resolves(diagram_id: Seq<char>)
    ensures
        replace_first_spec(NODES_PATH@, DIAGRAM_PLACEHOLDER@, diagram_id) == nodes_endpoint(diagram_id),
{
    reveal_strlit("/api/1/diagrams/:diagram/nodes");
    reveal_strlit(":diagram");
    reveal_strlit("/api/1/diagrams/");
    reveal_strlit("/nodes");
    let s = NODES_PATH@;
    let p = DIAGRAM_PLACEHOLDER@;
    assert(s.subrange(16, 24) =~= p);
    assert forall|j: int| 0 <= j < 16 implies !occurs_at(s, p, j) by {
        assert(s.subrange(j, j + 8)[0] == s[j]);
    }
    assert(is_first_occurrence(s, p, 16));
    let c = choose|c: int| is_first_occurrence(s, p, c);
    if c > 16 {
        assert(!occurs_at(s, p, 16));
    }
    assert(s.subrange(0, 16) =~= "/api/1/diagrams/"@);
    assert(s.subrange(24, 30) =~= "/nodes"@);
}

/// A diagram as the service returns it.
#[derive(Debug, Clone)]
pub struct DiagramResource {
    pub id: String,
    pub title: String,
}

/// A handle bound to one remote diagram.
#[derive(Debug)]
pub struct CoggleApiDiagram {
    pub api_client: CoggleApi,
    pub id: String,
    pub title: String,
}

impl Clone for CoggleApiDiagram {
    fn clone(&self) -> (r: Self)
        ensures
            r == *self,
    {
        CoggleApiDiagram { api_client: self.api_client.clone(), id: self.id.clone(), title: self.title.clone() }
    }
}

impl CoggleApiDiagram {
    /// The handle of the diagram that `diagram_resource` describes.
    pub fn new(coggle_api: &CoggleApi, diagram_resource: &DiagramResource) -> (r: Self)
        ensures
            r.api_client == *coggle_api,
            r.id == diagram_resource.id,
            r.title == diagram_resource.title,
    {
        CoggleApiDiagram {
            api_client: coggle_api.clone(),
            id: diagram_resource.id.clone(),
            title: diagram_resource.title.clone(),
        }
    }

    /// `url` with its first `:diagram` replaced by this diagram's id.
    pub open spec fn replace_id_spec(&self, url: Seq<char>) -> Seq<char> {
        replace_first_spec(url, DIAGRAM_PLACEHOLDER@, self.id@)
    }

    /// Replaces the first `:diagram` in `url` by this diagram's id.
    pub fn replace_id(&self, url: &str) -> (r: String)
        ensures
            r@ == self.replace_id_spec(url@),
    {
        replace_first(url, DIAGRAM_PLACEHOLDER, self.id.as_str())
    }

    /// The address of the diagram in a web browser.
    pub fn web_url(&self) -> (r: String)
        ensures
            r@ == self.replace_id_spec(self.api_client.base_url@ + "/diagram/:diagram"@),
    {
        let mut template = self.api_client.base_url.clone();
        template.append("/diagram/:diagram");
        self.replace_id(template.as_str())
    }

    /// The request that fetches the diagram's node tree.
    pub fn get_nodes(&self) -> (r: ApiRequest)
        ensures
            self.api_client.issues(r, Method::Get, nodes_endpoint(self.id@), ""@),
            r.body == RequestBody::NoBody,
    {
        let endpoint = self.replace_id(NODES_PATH);
        proof {
            nodes_path_resolves(self.id@);
        }
        self.api_client.get(endpoint.as_str(), "")
    }

    /// The request that has the service lay out the diagram's nodes.
    pub fn arrange(&self) -> (r: ApiRequest)
        ensures
            self.api_client.issues(r, Method::Put, nodes_endpoint(self.id@), "action=arrange"@),
            r.body == RequestBody::EmptyObject,
    {
        let endpoint = self.replace_id(NODES_PATH);
        proof {
            nodes_path_resolves(self.id@);
        }
        self.api_client.put(endpoint.as_str(), "action=arrange", RequestBody::EmptyObject)
    }

    /// The node trees that the service returned for `get_nodes` or
    /// `arrange`, one for each resource, in order.
    pub fn nodes_from(&self, node_resources: &Vec<NodeResource>) -> (r: Vec<CoggleApiNode>)
        ensures
            r.len() == node_resources.len(),
            forall|i: int| 0 <= i < r.len() ==> mirrors(#[trigger] r[i], *self, node_resources[i]),
    {
        let mut r: Vec<CoggleApiNode> = Vec::new();
        let mut i: usize = 0;
        while i < node_resources.len()
            invariant
                i <= node_resources.len(),
                r.len() == i,
                forall|j: int| 0 <= j < i ==> mirrors(#[trigger] r[j], *self, node_resources[j]),
            decreases node_resources.len() - i,
        {
            r.push(CoggleApiNode::new(self, &node_resources[i]));
            i += 1;
        }
        r
    }
}

} // verus!
