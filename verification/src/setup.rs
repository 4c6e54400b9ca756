use vstd::prelude::*;

use crate::gd_client::{same_folder, GdClientEvent, GoogleFolder};

verus! {

/// An access token and the refresh token that renews it.
pub struct Token {
    pub access_token: String,
    pub refresh_token: String,
}

impl Clone for Token {
    fn clone(&self) -> (res: Self)
        ensures
            res == *self,
    {
        Token { access_token: self.access_token.clone(), refresh_token: self.refresh_token.clone() }
    }
}

} // verus!

verus! {

/// Where listing the folders of a Google Drive stands: still counting them,
/// or listing the children of each folder in turn.
pub enum GdClientState<F> {
    TotalFolders,
    ListFolders {
        /// The folders whose children are still to be listed.
        folders: Vec<F>,
        /// The folders whose children are known.
        indexed_folders: Vec<F>,
    },
}

impl<F> GdClientState<F> {
    /// Drop the last folder that is still to be listed; nothing happens while counting.
    pub fn pop_folder(&mut self)
        ensures
            match *old(self) {
                GdClientState::TotalFolders => *final(self) == GdClientState::<F>::TotalFolders,
                GdClientState::ListFolders { folders, indexed_folders } => *final(self) matches GdClientState::ListFolders { folders: f, indexed_folders: i }
                    && f@ == (if folders@.len() > 0 { folders@.drop_last() } else { folders@ })
                    && i == indexed_folders,
            },
    {
        match self {
            GdClientState::ListFolders { folders, .. } => {
                let _ = folders.pop();
            },
            GdClientState::TotalFolders => {},
        }
    }

    /// Record a folder whose children are known; nothing happens while counting.
    pub fn new_indexed(&mut self, folder: F)
        ensures
            match *old(self) {
                GdClientState::TotalFolders => *final(self) == GdClientState::<F>::TotalFolders,
                GdClientState::ListFolders { folders, indexed_folders } => *final(self) matches GdClientState::ListFolders { folders: f, indexed_folders: i }
                    && f == folders && i@ == indexed_folders@.push(folder),
            },
    {
        match self {
            GdClientState::ListFolders { indexed_folders, .. } => indexed_folders.push(folder),
            GdClientState::TotalFolders => {},
        }
    }

}

impl<F: Clone> GdClientState<F> {
    /// A copy of the folders whose children are known, which exist only once
    /// the folders are being listed.
    pub fn indexed_folders(&self) -> (res: Vec<F>)
        requires
            self is ListFolders,
        ensures
            res@.len() == self->indexed_folders@.len(),
            forall|i: int| 0 <= i < res@.len() ==> cloned::<F>(self->indexed_folders@[i], #[trigger] res@[i]),
    {
        match self {
            GdClientState::ListFolders { indexed_folders, .. } => indexed_folders.clone(),
            GdClientState::TotalFolders => Vec::new(),
        }
    }
}

impl<F> Default for GdClientState<F> {
    fn default() -> (res: Self)
        ensures
            res is TotalFolders,
    {
        GdClientState::TotalFolders
    }
}

} // verus!

verus! {

/// What the window that indexes a drive's folders does next.
pub enum LoadFoldersAction {
    /// Show the number of folders and list the children of these folders.
    ListFolders { total: usize, token: Token, folders: Vec<GoogleFolder> },
    /// Wait for the next report.
    Wait,
    /// Advance the progress bar by the number of children of a folder.
    Progress { children: usize },
    /// Every folder is indexed: let the user choose one.
    SelectFolder,
    /// Ask for new tokens.
    RefreshToken { token: Token },
    /// The session expired: connect to the drive again.
    Reconnect,
    /// New tokens came: start indexing again.
    Restart,
}

/// The reports that the indexing window expects from the drive client.
pub open spec fn is_indexing_event(event: GdClientEvent) -> bool {
    ||| event is Totalfolders
    ||| event is Folder
    ||| event is Childrenfolders
    ||| event is Finished
    ||| event is Refresh
    ||| event is Reconnect
    ||| event is Accesstoken
}

/// Whether the report is one the indexing window expects.
pub fn is_indexing_report(event: &GdClientEvent) -> (res: bool)
    ensures
        res == is_indexing_event(*event),
{
    match event {
        GdClientEvent::Totalfolders { .. } | GdClientEvent::Folder { .. } | GdClientEvent::Childrenfolders {
            ..
        } | GdClientEvent::Finished | GdClientEvent::Refresh | GdClientEvent::Reconnect
        | GdClientEvent::Accesstoken { .. } => true,
        _ => false,
    }
}

/// The indexing of a drive's folders as the window sees it: where the client
/// stands, the folders reported so far, and the tokens in use.
pub struct LoadFolders {
    pub state: GdClientState<GoogleFolder>,
    pub new_folders: Vec<GoogleFolder>,
    pub token: Token,
}

impl LoadFolders {
    /// Take in a report of the drive client and say what to do next.
    pub fn handle(&mut self, event: GdClientEvent) -> (action: LoadFoldersAction)
        requires
            is_indexing_event(event),
        ensures
            match event {
                GdClientEvent::Totalfolders { total } => {
                    &&& action matches LoadFoldersAction::ListFolders { total: t, token, folders }
                        && t == total && token == old(self).token
                        && folders@.len() == old(self).new_folders@.len()
                        && forall|i: int|
                        0 <= i < folders@.len() ==> same_folder(#[trigger] folders@[i], old(self).new_folders@[i])
                    &&& final(self).state matches GdClientState::ListFolders { folders, indexed_folders }
                        && folders@ == old(self).new_folders@ && indexed_folders@.len() == 0
                    &&& final(self).new_folders@.len() == 0
                    &&& final(self).token == old(self).token
                },
                GdClientEvent::Folder { folder } => {
                    &&& action is Wait
                    &&& final(self).new_folders@ == old(self).new_folders@.push(folder)
                    &&& final(self).state == old(self).state
                    &&& final(self).token == old(self).token
                },
                GdClientEvent::Childrenfolders { parent, children } => {
                    &&& action == LoadFoldersAction::Progress { children }
                    &&& match old(self).state {
                        GdClientState::TotalFolders => final(self).state is TotalFolders,
                        GdClientState::ListFolders { folders, indexed_folders } => final(self).state matches GdClientState::ListFolders { folders: f, indexed_folders: i }
                            && f@ == (if folders@.len() > 0 { folders@.drop_last() } else { folders@ })
                            && i@ == indexed_folders@.push(parent),
                    }
                    &&& final(self).new_folders == old(self).new_folders
                    &&& final(self).token == old(self).token
                },
                GdClientEvent::Finished => action is SelectFolder && *final(self) == *old(self),
                GdClientEvent::Refresh => {
                    &&& action matches LoadFoldersAction::RefreshToken { token } && token == old(self).token
                    &&& *final(self) == *old(self)
                },
                GdClientEvent::Reconnect => action is Reconnect && *final(self) == *old(self),
                GdClientEvent::Accesstoken { token } => {
                    &&& action is Restart
                    &&& final(self).token == token
                    &&& final(self).state == old(self).state
                    &&& final(self).new_folders == old(self).new_folders
                },
                _ => false,
            },
    {
        match event {
            GdClientEvent::Totalfolders { total } => {
                let snapshot = clone_folders(&self.new_folders);
                let token = self.token.clone();
                let mut folders: Vec<GoogleFolder> = Vec::new();
                std::mem::swap(&mut folders, &mut self.new_folders);
                self.state = GdClientState::ListFolders { folders, indexed_folders: Vec::new() };
                LoadFoldersAction::ListFolders { total, token, folders: snapshot }
            },
            GdClientEvent::Folder { folder } => {
                self.new_folders.push(folder);
                LoadFoldersAction::Wait
            },
            GdClientEvent::Childrenfolders { parent, children } => {
                self.state.pop_folder();
                self.state.new_indexed(parent);
                LoadFoldersAction::Progress { children }
            },
            GdClientEvent::Finished => LoadFoldersAction::SelectFolder,
            GdClientEvent::Refresh => LoadFoldersAction::RefreshToken { token: self.token.clone() },
            GdClientEvent::Reconnect => LoadFoldersAction::Reconnect,
            GdClientEvent::Accesstoken { token } => {
                self.token = token;
                LoadFoldersAction::Restart
            },
            _ => LoadFoldersAction::Wait,
        }
    }
}

/// Copies of the folders, with the same ids, names and children.
pub fn clone_folders(folders: &Vec<GoogleFolder>) -> (res: Vec<GoogleFolder>)
    ensures
        res@.len() == folders@.len(),
        forall|i: int| 0 <= i < res@.len() ==> same_folder(#[trigger] res@[i], folders@[i]),
{
    let mut res: Vec<GoogleFolder> = Vec::new();
    let mut i: usize = 0;
    while i < folders.len()
        invariant
            i <= folders@.len(),
            res@.len() == i,
            forall|k: int| 0 <= k < i ==> same_folder(#[trigger] res@[k], folders@[k]),
        decreases folders@.len() - i,
    {
        let children = folders[i].children.clone();
        proof {
            assert(children@ =~= folders@[i as int].children@);
        }
        res.push(
            GoogleFolder {
                id: folders[i].id.clone(),
                name: folders[i].name.clone(),
                children,
            },
        );
        i = i + 1;
    }
    res
}

} // verus!
