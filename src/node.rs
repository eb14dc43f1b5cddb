//! Nodes: the elements of a diagram's tree.

use vstd::prelude::*;
use vstd::string::*;

use crate::diagram::{nodes_endpoint, nodes_path_resolves, CoggleApiDiagram, DIAGRAM_PLACEHOLDER, NODES_PATH};
use crate::error::CoggleError;
use crate::misc::CoggleOffset;
use crate::request::{ApiRequest, Method, RequestBody};
use crate::text::{is_first_occurrence, occurs_at, replace_first, replace_first_spec};

verus! {

/// The longest node text, in characters, that the service accepts.
pub const MAX_TEXT_LENGTH: usize = 3000;

/// The placeholder that stands for a node's id in a URL template.
pub const NODE_PLACEHOLDER: &'static str = ":node";

/// The URL of one node of a diagram.
pub const NODE_PATH: &'static str = "/api/1/diagrams/:diagram/nodes/:node";

/// The URL of the node `node_id` of the diagram `diagram_id`.
pub open spec fn node_endpoint(diagram_id: Seq<char>, node_id: Seq<char>) -> Seq<char> {
    "/api/1/diagrams/"@ + diagram_id + "/nodes/"@ + node_id
}

/// `NODES_PATH` holds no node placeholder, so filling in a node's id leaves
/// it as it is.
pub proof fn nodes_path_has_no_node_placeholder(node_id: Seq<char>)
    ensures
        replace_first_spec(NODES_PATH@, NODE_PLACEHOLDER@, node_id) == NODES_PATH@,
{
    reveal_strlit("/api/1/diagrams/:diagram/nodes");
    reveal_strlit(":node");
    let s = NODES_PATH@;
    let p = NODE_PLACEHOLDER@;
    assert forall|j: int| 0 <= j implies !occurs_at(s, p, j) by {
        if j + 5 <= s.len() {
            assert(s.subrange(j, j + 5)[0] == s[j]);
            assert(s.subrange(j, j + 5)[1] == s[j + 1]);
        }
    }
}

/// Filling a node's id, then its diagram's id, into `NODE_PATH` gives the
/// node's URL, whatever the ids.
pub proof fn node_path_resolves(diagram_id: Seq<char>, node_id: Seq<char>)
    ensures
        replace_first_spec(
            replace_first_spec(NODE_PATH@, NODE_PLACEHOLDER@, node_id),
            DIAGRAM_PLACEHOLDER@,
            diagram_id,
        ) == node_endpoint(diagram_id, node_id),
{
    reveal_strlit("/api/1/diagrams/:diagram/nodes/:node");
    reveal_strlit(":node");
    reveal_strlit(":diagram");
    reveal_strlit("/api/1/diagrams/");
    reveal_strlit("/nodes/");
    let s = NODE_PATH@;
    let p = NODE_PLACEHOLDER@;
    assert(s.subrange(31, 36) =~= p);
    assert forall|j: int| 0 <= j < 31 implies !occurs_at(s, p, j) by {
        assert(s.subrange(j, j + 5)[0] == s[j]);
        assert(s.subrange(j, j + 5)[1] == s[j + 1]);
    }
    assert(is_first_occurrence(s, p, 31));
    let c = choose|c: int| is_first_occurrence(s, p, c);
    if c > 31 {
        assert(!occurs_at(s, p, 31));
    }
    let t = s.subrange(0, 31) + node_id;
    assert(replace_first_spec(s, p, node_id) =~= t);
    let q = DIAGRAM_PLACEHOLDER@;
    assert(t.subrange(16, 24) =~= q);
    assert forall|j: int| 0 <= j < 16 implies !occurs_at(t, q, j) by {
        assert(t.subrange(j, j + 8)[0] == t[j]);
    }
    assert(is_first_occurrence(t, q, 16));
    let d = choose|d: int| is_first_occurrence(t, q, d);
    if d > 16 {
        assert(!occurs_at(t, q, 16));
    }
    assert(t.subrange(0, 16) =~= "/api/1/diagrams/"@);
    assert(t.subrange(24, t.len() as int) =~= "/nodes/"@ + node_id);
}

/// A node's position on the canvas.
pub type Offset = CoggleOffset;

/// The fields of a node to change.
pub type NodeUpdate = NodeUpdateProps;

/// A node and its subtree as the service returns them.
#[derive(Debug)]
pub struct NodeResource {
    pub id: String,
    pub text: String,
    pub offset: CoggleOffset,
    pub parent: Option<String>,
    pub children: Vec<NodeResource>,
}

/// A handle bound to one node of a diagram, with the subtree under it as it
/// was when it was fetched.
#[derive(Debug)]
pub struct CoggleApiNode {
    pub diagram: CoggleApiDiagram,
    pub id: String,
    pub text: String,
    pub offset: CoggleOffset,
    pub children: Vec<CoggleApiNode>,
    pub parent_id: Option<String>,
}

/// The fields of a node to change; `None` leaves a field as it is.
#[derive(Debug, Clone, Default)]
pub struct NodeUpdateProps {
    pub text: Option<String>,
    pub offset: Option<CoggleOffset>,
    pub parent: Option<String>,
}

/// `node` is the tree that `resource` describes, inside `diagram`: at every
/// level the same id, text, offset and parent, and the same children in the
/// same order.
pub open spec fn mirrors(node: CoggleApiNode, diagram: CoggleApiDiagram, resource: NodeResource) -> bool
    decreases resource,
{
    &&& node.diagram == diagram
    &&& node.id == resource.id
    &&& node.text == resource.text
    &&& node.offset == resource.offset
    &&& node.parent_id == resource.parent
    &&& node.children.len() == resource.children.len()
    &&& forall|i: int|
        0 <= i < resource.children.len() ==> mirrors(
            #[trigger] node.children[i],
            diagram,
            resource.children[i],
        )
}

impl CoggleApiNode {
    /// The node tree that `node_resource` describes, inside
    /// `coggle_api_diagram`.
    pub fn new(coggle_api_diagram: &CoggleApiDiagram, node_resource: &NodeResource) -> (r: Self)
        ensures
            mirrors(r, *coggle_api_diagram, *node_resource),
        decreases node_resource,
    {
        let mut children: Vec<CoggleApiNode> = Vec::new();
        let mut i: usize = 0;
        while i < node_resource.children.len()
            invariant
                i <= node_resource.children.len(),
                children.len() == i,
                forall|j: int|
                    0 <= j < i ==> mirrors(
                        #[trigger] children[j],
                        *coggle_api_diagram,
                        node_resource.children[j],
                    ),
            decreases node_resource.children.len() - i,
        {
            children.push(CoggleApiNode::new(coggle_api_diagram, &node_resource.children[i]));
            i += 1;
        }
        CoggleApiNode {
            diagram: coggle_api_diagram.clone(),
            id: node_resource.id.clone(),
            text: node_resource.text.clone(),
            offset: node_resource.offset,
            children,
            parent_id: node_resource.parent.clone(),
        }
    }

    /// `url` with its first `:node` replaced by this node's id, then its
    /// first `:diagram` by the diagram's id.
    pub open spec fn replace_ids_spec(&self, url: Seq<char>) -> Seq<char> {
        self.diagram.replace_id_spec(replace_first_spec(url, NODE_PLACEHOLDER@, self.id@))
    }

    /// Replaces the first `:node` in `url` by this node's id, then the first
    /// `:diagram` by the diagram's id.
    pub fn replace_ids(&self, url: &str) -> (r: String)
        ensures
            r@ == self.replace_ids_spec(url@),
    {
        let with_node = replace_first(url, NODE_PLACEHOLDER, self.id.as_str());
        self.diagram.replace_id(with_node.as_str())
    }

    /// The node that the service returned after creating a child of this
    /// node, or after updating this node: its tree as returned, with its
    /// parent set to this node's id.
    pub fn node_from_response(&self, node_resource: &NodeResource) -> (r: CoggleApiNode)
        ensures
            r.parent_id == Some(self.id),
            mirrors((CoggleApiNode { parent_id: node_resource.parent, ..r }), self.diagram, *node_resource),
    {
        let mut node = CoggleApiNode::new(&self.diagram, node_resource);
        node.parent_id = Some(self.id.clone());
        node
    }

    /// The request that creates a child of this node with `text` at
    /// `offset`; an error, and no request, when `text` is too long.
    pub fn add_child(&self, text: &str, offset: Option<&CoggleOffset>) -> (r: Result<ApiRequest, CoggleError>)
        ensures
            r is Err <==> text@.len() > MAX_TEXT_LENGTH,
            r is Err ==> r->Err_0 == CoggleError::TextTooLong,
            r is Ok ==> {
                &&& self.diagram.api_client.issues(
                    r->Ok_0,
                    Method::Post,
                    nodes_endpoint(self.diagram.id@),
                    ""@,
                )
                &&& r->Ok_0.body matches RequestBody::NewNode { parent, offset: o, text: t }
                &&& parent == self.id
                &&& o == (match offset {
                    Some(x) => Some(*x),
                    None => None,
                })
                &&& t@ == text@
            },
    {
        if text.unicode_len() > MAX_TEXT_LENGTH {
            return Err(CoggleError::TextTooLong);
        }
        let body = RequestBody::NewNode {
            parent: self.id.clone(),
            offset: match offset {
                Some(x) => Some(*x),
                None => None,
            },
            text: text.to_owned(),
        };
        let endpoint = self.replace_ids(NODES_PATH);
        proof {
            nodes_path_has_no_node_placeholder(self.id@);
            nodes_path_resolves(self.diagram.id@);
        }
        Ok(self.diagram.api_client.post(endpoint.as_str(), "", body))
    }

    /// The request, posted to the diagram's node collection, that changes the
    /// given fields of this node; an error, and no request, when the new text
    /// is too long.
    pub fn update(&self, properties: NodeUpdateProps) -> (r: Result<ApiRequest, CoggleError>)
        ensures
            r is Err <==> (properties.text matches Some(t) && t@.len() > MAX_TEXT_LENGTH),
            r is Err ==> r->Err_0 == CoggleError::TextTooLong,
            r is Ok ==> {
                &&& self.diagram.api_client.issues(
                    r->Ok_0,
                    Method::Post,
                    nodes_endpoint(self.diagram.id@),
                    ""@,
                )
                &&& r->Ok_0.body == RequestBody::Update(properties)
            },
    {
        if let Some(text) = &properties.text {
            if text.as_str().unicode_len() > MAX_TEXT_LENGTH {
                return Err(CoggleError::TextTooLong);
            }
        }
        let endpoint = self.replace_ids(NODES_PATH);
        proof {
            nodes_path_has_no_node_placeholder(self.id@);
            nodes_path_resolves(self.diagram.id@);
        }
        Ok(self.diagram.api_client.post(endpoint.as_str(), "", RequestBody::Update(properties)))
    }

    /// The request that replaces this node's text.
    pub fn set_text(&self, text: &str) -> (r: Result<ApiRequest, CoggleError>)
        ensures
            r is Err <==> text@.len() > MAX_TEXT_LENGTH,
            r is Err ==> r->Err_0 == CoggleError::TextTooLong,
            r is Ok ==> {
                &&& self.diagram.api_client.issues(
                    r->Ok_0,
                    Method::Post,
                    nodes_endpoint(self.diagram.id@),
                    ""@,
                )
                &&& r->Ok_0.body matches RequestBody::Update(p)
                &&& p.text matches Some(t)
                &&& t@ == text@
                &&& p.offset is None
                &&& p.parent is None
            },
    {
        self.update(NodeUpdateProps { text: Some(text.to_owned()), offset: None, parent: None })
    }

    /// The request that moves this node to `offset`.
    pub fn move_to(&self, offset: &CoggleOffset) -> (r: Result<ApiRequest, CoggleError>)
        ensures
            r is Ok,
            self.diagram.api_client.issues(r->Ok_0, Method::Post, nodes_endpoint(self.diagram.id@), ""@),
            r->Ok_0.body == RequestBody::Update(
                NodeUpdateProps { text: None, offset: Some(*offset), parent: None },
            ),
    {
        self.update(NodeUpdateProps { text: None, offset: Some(*offset), parent: None })
    }

    /// The request that deletes this node.
    pub fn remove(&self) -> (r: ApiRequest)
        ensures
            self.diagram.api_client.issues(r, Method::Delete, node_endpoint(self.diagram.id@, self.id@), ""@),
            r.body == RequestBody::NoBody,
    {
        let endpoint = self.replace_ids(NODE_PATH);
        proof {
            node_path_resolves(self.diagram.id@, self.id@);
        }
        self.diagram.api_client.delete(endpoint.as_str(), "")
    }
}

} // verus!
