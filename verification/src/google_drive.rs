use vstd::prelude::*;
use vstd::hash_map::StringHashMap;

use crate::gd_client::{drive_views, DriveFile};

verus! {

/// The folder tree of a Google Drive as it is being indexed, and the tokens
/// that are valid for it.
pub struct FolderResult {
    /// The name of each folder, by id.
    pub id_name_map: StringHashMap<String>,
    /// The ids of the child folders of each folder, by id.
    pub id_child_map: StringHashMap<Vec<String>>,
    pub access_token: String,
    pub refresh_token: String,
}

/// The map once the (id, name) pairs are inserted in order; a later pair
/// replaces an earlier one with the same id.
pub open spec fn insert_names(m: Map<Seq<char>, String>, files: Seq<DriveFile>) -> Map<Seq<char>, String>
    decreases files.len(),
{
    if files.len() == 0 {
        m
    } else {
        insert_names(m, files.drop_last()).insert(files.last().id@, files.last().name)
    }
}

impl FolderResult {
    /// An empty tree for the given tokens.
    pub fn new(access_token: String, refresh_token: String) -> (res: Self)
        ensures
            res.id_name_map@ == Map::<Seq<char>, String>::empty(),
            res.id_child_map@ == Map::<Seq<char>, Vec<String>>::empty(),
            res.access_token == access_token,
            res.refresh_token == refresh_token,
    {
        FolderResult {
            id_name_map: StringHashMap::new(),
            id_child_map: StringHashMap::new(),
            access_token,
            refresh_token,
        }
    }

    /// Record the child folders that the drive lists for a folder: each
    /// child's name under its id, and the children's ids, in the order given,
    /// under the folder's id. Returns those ids.
    pub fn record_children(&mut self, folder_id: String, children: &Vec<DriveFile>) -> (ids: Vec<String>)
        ensures
            ids@.len() == children@.len(),
            forall|i: int| 0 <= i < ids@.len() ==> #[trigger] ids@[i] == children@[i].id,
            final(self).id_name_map@ == insert_names(old(self).id_name_map@, children@),
            final(self).id_child_map@ == old(self).id_child_map@.insert(
                folder_id@,
                final(self).id_child_map@[folder_id@],
            ),
            final(self).id_child_map@[folder_id@]@ == ids@,
            final(self).access_token == old(self).access_token,
            final(self).refresh_token == old(self).refresh_token,
    {
        let mut ids: Vec<String> = Vec::new();
        let mut i: usize = 0;
        while i < children.len()
            invariant
                i <= children@.len(),
                ids@.len() == i,
                forall|k: int| 0 <= k < i ==> #[trigger] ids@[k] == children@[k].id,
                self.id_name_map@ == insert_names(old(self).id_name_map@, children@.take(i as int)),
                self.id_child_map@ == old(self).id_child_map@,
                self.access_token == old(self).access_token,
                self.refresh_token == old(self).refresh_token,
            decreases children@.len() - i,
        {
            self.id_name_map.insert(children[i].id.clone(), children[i].name.clone());
            ids.push(children[i].id.clone());
            assert(children@.take(i + 1).drop_last() =~= children@.take(i as int));
            i = i + 1;
        }
        assert(children@.take(children@.len() as int) =~= children@);
        let result = ids.clone();
        self.id_child_map.insert(folder_id, ids);
        proof {
            assert(result@ =~= ids@);
        }
        result
    }

    /// The child folders of a folder as the tree shows them, in the order the
    /// drive listed them: each child's name and id. The folder must have been
    /// indexed, and so each of its children.
    pub fn child_folders(&self, folder_id: &str) -> (res: Vec<(String, String)>)
        requires
            self.id_child_map@.contains_key(folder_id@),
            forall|i: int|
                0 <= i < self.id_child_map@[folder_id@]@.len() ==> self.id_name_map@.contains_key(
                    #[trigger] self.id_child_map@[folder_id@]@[i]@,
                ),
        ensures
            res@.len() == self.id_child_map@[folder_id@]@.len(),
            forall|i: int|
                0 <= i < res@.len() ==> {
                    let child = self.id_child_map@[folder_id@]@[i];
                    &&& #[trigger] res@[i].1@ == child@
                    &&& res@[i].0@ == self.id_name_map@[child@]@
                },
    {
        let children = match self.id_child_map.get(folder_id) {
            Some(c) => c,
            None => {
                return Vec::new();
            },
        };
        let mut res: Vec<(String, String)> = Vec::new();
        let mut i: usize = 0;
        while i < children.len()
            invariant
                *children == self.id_child_map@[folder_id@],
                forall|k: int|
                    0 <= k < children@.len() ==> self.id_name_map@.contains_key(#[trigger] children@[k]@),
                i <= children@.len(),
                res@.len() == i,
                forall|k: int|
                    0 <= k < i ==> {
                        &&& #[trigger] res@[k].1@ == children@[k]@
                        &&& res@[k].0@ == self.id_name_map@[children@[k]@]@
                    },
            decreases children@.len() - i,
        {
            let id = &children[i];
            let name = match self.id_name_map.get(id.as_str()) {
                Some(n) => n.clone(),
                None => String::new(),
            };
            res.push((name, id.clone()));
            i = i + 1;
        }
        res
    }
}

} // verus!
