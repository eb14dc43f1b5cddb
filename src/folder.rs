//! Folders: a read-only, possibly nested grouping of diagrams.

use vstd::prelude::*;

verus! {

/// A folder and the folders inside it as the service returns them.
#[derive(Debug)]
pub struct FolderResource {
    pub id: String,
    pub name: String,
    pub created_at: String,
    pub my_access: String,
    pub children: Option<Vec<FolderResource>>,
}

/// A folder with the folders nested in it.
#[derive(Debug)]
pub struct Folder {
    pub id: String,
    pub name: String,
    pub folder: Vec<Folder>,
    pub created_at: String,
    pub my_access: String,
}

/// The children that `resource` lists; none when it lists no children.
pub open spec fn child_resources(resource: FolderResource) -> Seq<FolderResource> {
    match resource.children {
        Some(children) => children@,
        None => Seq::empty(),
    }
}

/// `folder` is the tree that `resource` describes: at every level the same
/// id, name, creation time and access, and the same children in the same
/// order.
pub open spec fn folder_mirrors(folder: Folder, resource: FolderResource) -> bool
    decreases resource,
{
    &&& folder.id == resource.id
    &&& folder.name == resource.name
    &&& folder.created_at == resource.created_at
    &&& folder.my_access == resource.my_access
    &&& folder.folder.len() == child_resources(resource).len()
    &&& forall|i: int|
        0 <= i < folder.folder.len() ==> {
            &&& resource.children is Some
            &&& folder_mirrors(#[trigger] folder.folder[i], resource.children->0[i])
        }
}

impl Folder {
    /// The folder tree that `folder_resource` describes.
    pub fn new(folder_resource: FolderResource) -> (r: Self)
        ensures
            folder_mirrors(r, folder_resource),
        decreases folder_resource,
    {
        let ghost original = folder_resource;
        let FolderResource { id, name, created_at, my_access, children } = folder_resource;
        let mut folder = Folder { id, name, folder: Vec::new(), created_at, my_access };
        if let Some(children) = children {
            let ghost all = children@;
            assert(all.len() == children.len());
            let mut rest = children;
            let mut i: usize = 0;
            while rest.len() > 0
                invariant
                    folder_resource == original,
                    original.children is Some,
                    original.children->0@ == all,
                    rest@ == all.subrange(i as int, all.len() as int),
                    i <= all.len(),
                    all.len() <= usize::MAX,
                    folder.folder.len() == i,
                    folder.id == original.id,
                    folder.name == original.name,
                    folder.created_at == original.created_at,
                    folder.my_access == original.my_access,
                    forall|j: int|
                        0 <= j < i ==> folder_mirrors(#[trigger] folder.folder[j], all[j]),
                decreases rest.len(),
            {
                let child_resource = rest.remove(0);
                proof {
                    let v = original.children->0;
                    assert(child_resource == v[i as int]);
                    assert(decreases_to!(v => v[i as int]));
                }
                let child = Folder::new(child_resource);
                folder.folder.push(child);
                i += 1;
                assert(rest@ =~= all.subrange(i as int, all.len() as int));
            }
        }
        folder
    }
}

} // verus!
