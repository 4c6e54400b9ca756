use vstd::prelude::*;

use crate::config::{Campaign, SynchronizationOption};
use crate::setup::Token;

verus! {

/// The campaign the program is working with. Its name and path are set once;
/// a campaign that was made by `default` has neither.
pub struct DdCampaign {
    pub name: Option<String>,
    pub path: Option<String>,
    pub sync_option: SynchronizationOption,
}

impl DdCampaign {
    pub fn new(name: String, path: String, sync_option: SynchronizationOption) -> (res: Self)
        ensures
            res.name == Some(name),
            res.path == Some(path),
            res.sync_option == sync_option,
    {
        DdCampaign { name: Some(name), path: Some(path), sync_option }
    }

    /// The campaign as it was stored in the configuration.
    pub fn from(campaign: Campaign) -> (res: Self)
        ensures
            res.name == Some(campaign.name),
            res.path == Some(campaign.path),
            res.sync_option == campaign.sync_option,
    {
        DdCampaign { name: Some(campaign.name), path: Some(campaign.path), sync_option: campaign.sync_option }
    }

    /// A copy of the name.
    pub fn name(&self) -> (res: String)
        requires
            self.name is Some,
        ensures
            res == self.name->0,
    {
        match &self.name {
            Some(n) => n.clone(),
            None => String::new(),
        }
    }

    /// A copy of the path.
    pub fn path(&self) -> (res: String)
        requires
            self.path is Some,
        ensures
            res == self.path->0,
    {
        match &self.path {
            Some(p) => p.clone(),
            None => String::new(),
        }
    }

    /// A copy of the synchronization option.
    pub fn sync_option(&self) -> (res: SynchronizationOption)
        ensures
            res == self.sync_option,
    {
        self.sync_option.clone()
    }

    /// The tokens of a Google Drive campaign.
    pub fn token(&self) -> (res: Option<Token>)
        ensures
            match self.sync_option {
                SynchronizationOption::NoSync => res is None,
                SynchronizationOption::GoogleDrive { access_token, refresh_token, .. } => res
                    == Some(Token { access_token, refresh_token }),
            },
    {
        match &self.sync_option {
            SynchronizationOption::GoogleDrive { access_token, refresh_token, .. } => Some(
                Token { access_token: access_token.clone(), refresh_token: refresh_token.clone() },
            ),
            SynchronizationOption::NoSync => None,
        }
    }

    /// The id of the drive folder of a Google Drive campaign.
    pub fn sync_folder(&self) -> (res: Option<String>)
        ensures
            match self.sync_option {
                SynchronizationOption::NoSync => res is None,
                SynchronizationOption::GoogleDrive { google_drive_sync_folder, .. } => res
                    == Some(google_drive_sync_folder),
            },
    {
        match &self.sync_option {
            SynchronizationOption::GoogleDrive { google_drive_sync_folder, .. } => Some(
                google_drive_sync_folder.clone(),
            ),
            SynchronizationOption::NoSync => None,
        }
    }

    /// Replace the tokens of a Google Drive campaign; any other campaign is left as it is.
    pub fn set_token(&mut self, token: Token)
        ensures
            final(self).name == old(self).name,
            final(self).path == old(self).path,
            match old(self).sync_option {
                SynchronizationOption::NoSync => final(self).sync_option is NoSync,
                SynchronizationOption::GoogleDrive { google_drive_sync_folder, .. } => final(self).sync_option == (SynchronizationOption::GoogleDrive {
                    access_token: token.access_token,
                    refresh_token: token.refresh_token,
                    google_drive_sync_folder,
                }),
            },
    {
        match &mut self.sync_option {
            SynchronizationOption::GoogleDrive { access_token, refresh_token, .. } => {
                *access_token = token.access_token;
                *refresh_token = token.refresh_token;
            },
            SynchronizationOption::NoSync => {},
        }
    }

    /// Replace the drive folder of a Google Drive campaign; any other campaign is left as it is.
    pub fn set_google_folder(&mut self, id: String)
        ensures
            final(self).name == old(self).name,
            final(self).path == old(self).path,
            match old(self).sync_option {
                SynchronizationOption::NoSync => final(self).sync_option is NoSync,
                SynchronizationOption::GoogleDrive { access_token, refresh_token, .. } => final(self).sync_option == (SynchronizationOption::GoogleDrive {
                    access_token,
                    refresh_token,
                    google_drive_sync_folder: id,
                }),
            },
    {
        match &mut self.sync_option {
            SynchronizationOption::GoogleDrive { google_drive_sync_folder, .. } => {
                *google_drive_sync_folder = id;
            },
            SynchronizationOption::NoSync => {},
        }
    }
}

impl Default for DdCampaign {
    fn default() -> (res: Self)
        ensures
            res.name is None,
            res.path is None,
            res.sync_option is NoSync,
    {
        DdCampaign { name: None, path: None, sync_option: SynchronizationOption::NoSync }
    }
}

} // verus!
