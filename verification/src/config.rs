use vstd::prelude::*;

use crate::campaign::DdCampaign;
use crate::errors::DragonDisplayError;
use crate::text::{contains_string, extension_of, path_extension, str_eq};

verus! {

/// The file extensions of the images a campaign folder may hold.
pub const IMAGE_EXTENSIONS: [&'static str; 3] = ["jpeg", "jpg", "png"];

/// The file extensions of the videos a campaign folder may hold.
pub const VIDEO_EXTENSIONS: [&'static str; 2] = ["mp4", "webm"];

/// The file extensions of the virtual table top files a campaign folder may hold.
pub const VTT_EXTENSIONS: [&'static str; 1] = ["uvtt"];

/// The longest name a campaign may have.
pub const CAMPAIGN_MAX_CHAR_LENGTH: u16 = 25;

/// The most campaigns the configuration may hold.
pub const MAX_CAMPAIGN_AMOUNT: u16 = 10;

/// The ways a campaign folder can be kept up to date.
pub const SYNCHRONIZATION_OPTIONS: [&'static str; 2] = ["None", "Google Drive"];

/// How the images of a campaign are kept up to date.
pub enum SynchronizationOption {
    NoSync,
    GoogleDrive { access_token: String, refresh_token: String, google_drive_sync_folder: String },
}

/// A campaign as it is stored in the configuration file.
pub struct Campaign {
    pub name: String,
    pub path: String,
    pub sync_option: SynchronizationOption,
}

impl Clone for SynchronizationOption {
    fn clone(&self) -> (res: Self)
        ensures
            res == *self,
    {
        match self {
            SynchronizationOption::NoSync => SynchronizationOption::NoSync,
            SynchronizationOption::GoogleDrive {
                access_token,
                refresh_token,
                google_drive_sync_folder,
            } => SynchronizationOption::GoogleDrive {
                access_token: access_token.clone(),
                refresh_token: refresh_token.clone(),
                google_drive_sync_folder: google_drive_sync_folder.clone(),
            },
        }
    }
}

impl Clone for Campaign {
    fn clone(&self) -> (res: Self)
        ensures
            res == *self,
    {
        Campaign {
            name: self.name.clone(),
            path: self.path.clone(),
            sync_option: self.sync_option.clone(),
        }
    }
}

impl Default for SynchronizationOption {
    fn default() -> (res: Self)
        ensures
            res is NoSync,
    {
        SynchronizationOption::NoSync
    }
}

impl Default for Campaign {
    fn default() -> (res: Self)
        ensures
            res.name@ == Seq::<char>::empty(),
            res.path@ == Seq::<char>::empty(),
            res.sync_option is NoSync,
    {
        Campaign { name: String::new(), path: String::new(), sync_option: SynchronizationOption::NoSync }
    }
}

impl Campaign {
    /// A campaign that is not synchronised.
    pub fn new(name: String, path: String) -> (res: Self)
        ensures
            res.name == name,
            res.path == path,
            res.sync_option is NoSync,
    {
        Campaign { name, path, sync_option: SynchronizationOption::NoSync }
    }

    /// The stored form of a campaign that the program is working with.
    pub fn from(campaign: &DdCampaign) -> (res: Self)
        requires
            campaign.name is Some,
            campaign.path is Some,
        ensures
            res.name == campaign.name->0,
            res.path == campaign.path->0,
            res.sync_option == campaign.sync_option,
    {
        Campaign { name: campaign.name(), path: campaign.path(), sync_option: campaign.sync_option() }
    }

    /// A campaign that is synchronised with a Google Drive folder.
    pub fn new_googledrive(
        name: String,
        path: String,
        access_token: String,
        refresh_token: String,
        google_drive_sync_folder: String,
    ) -> (res: Self)
        ensures
            res.name == name,
            res.path == path,
            res.sync_option == (SynchronizationOption::GoogleDrive {
                access_token,
                refresh_token,
                google_drive_sync_folder,
            }),
    {
        Campaign {
            name,
            path,
            sync_option: SynchronizationOption::GoogleDrive {
                access_token,
                refresh_token,
                google_drive_sync_folder,
            },
        }
    }

    /// The same Google Drive campaign with new tokens.
    pub fn update_tokens(&self, access_token: String, refresh_token: String) -> (res: Self)
        requires
            self.sync_option is GoogleDrive,
        ensures
            res.name == self.name,
            res.path == self.path,
            res.sync_option == (SynchronizationOption::GoogleDrive {
                access_token,
                refresh_token,
                google_drive_sync_folder: self.sync_option->google_drive_sync_folder,
            }),
    {
        match &self.sync_option {
            SynchronizationOption::NoSync => self.clone(),
            SynchronizationOption::GoogleDrive { google_drive_sync_folder, .. } => Campaign {
                name: self.name.clone(),
                path: self.path.clone(),
                sync_option: SynchronizationOption::GoogleDrive {
                    access_token,
                    refresh_token,
                    google_drive_sync_folder: google_drive_sync_folder.clone(),
                },
            },
        }
    }

    /// Name, path, access token, refresh token and drive folder of the
    /// campaign; the last three are empty for a campaign that is not synchronised.
    pub fn get_campaign_data(&self) -> (res: (String, String, String, String, String))
        ensures
            res.0 == self.name,
            res.1 == self.path,
            match self.sync_option {
                SynchronizationOption::NoSync => {
                    &&& res.2@ == Seq::<char>::empty()
                    &&& res.3@ == Seq::<char>::empty()
                    &&& res.4@ == Seq::<char>::empty()
                },
                SynchronizationOption::GoogleDrive {
                    access_token,
                    refresh_token,
                    google_drive_sync_folder,
                } => {
                    &&& res.2 == access_token
                    &&& res.3 == refresh_token
                    &&& res.4 == google_drive_sync_folder
                },
            },
    {
        match &self.sync_option {
            SynchronizationOption::NoSync => (
                self.name.clone(),
                self.path.clone(),
                String::new(),
                String::new(),
                String::new(),
            ),
            SynchronizationOption::GoogleDrive {
                access_token,
                refresh_token,
                google_drive_sync_folder,
            } => (
                self.name.clone(),
                self.path.clone(),
                access_token.clone(),
                refresh_token.clone(),
                google_drive_sync_folder.clone(),
            ),
        }
    }
}

} // verus!

verus! {

/// Two different campaigns of the list keep their images in the same folder.
pub open spec fn has_duplicate_paths(list: Seq<Campaign>) -> bool {
    exists|i: int, j: int| 0 <= i < j < list.len() && #[trigger] list[i].path@ == #[trigger] list[j].path@
}

/// Two different campaigns of the list have the same name.
pub open spec fn has_duplicate_names(list: Seq<Campaign>) -> bool {
    exists|i: int, j: int| 0 <= i < j < list.len() && #[trigger] list[i].name@ == #[trigger] list[j].name@
}

/// What a configuration must satisfy to be accepted: no more than
/// `MAX_CAMPAIGN_AMOUNT` campaigns, and no two sharing a folder.
pub open spec fn integrity_holds(list: Seq<Campaign>) -> bool {
    list.len() <= MAX_CAMPAIGN_AMOUNT && !has_duplicate_paths(list)
}

/// A campaign of the list has the given name.
pub open spec fn has_name(list: Seq<Campaign>, name: Seq<char>) -> bool {
    exists|i: int| 0 <= i < list.len() && #[trigger] list[i].name@ == name
}

/// `i` is the first position of the list that holds a campaign of the given name.
pub open spec fn is_first_with_name(list: Seq<Campaign>, name: Seq<char>, i: int) -> bool {
    &&& 0 <= i < list.len()
    &&& list[i].name@ == name
    &&& forall|j: int| 0 <= j < i ==> #[trigger] list[j].name@ != name
}

/// The first position of the list that holds a campaign of the given name.
pub open spec fn first_with_name(list: Seq<Campaign>, name: Seq<char>) -> int {
    choose|i: int| is_first_with_name(list, name, i)
}

/// The message of a configuration with too many campaigns.
pub open spec fn too_many_campaigns_message() -> Seq<char> {
    "Too many campaigns found in the config file. Please remove the .config.toml file (a hidden file in this directory) and restart the application"@
}

/// The message of a configuration in which two campaigns share a folder.
pub open spec fn duplicate_path_message() -> Seq<char> {
    "Found a duplicate in the config file. Please remove the .config.toml file (a hidden file in this directory) and restart the application"@
}

/// The message of a removal that finds nothing to remove.
pub open spec fn campaign_not_found_message() -> Seq<char> {
    "Could not find the campaign to be removed"@
}

/// The list once the campaign of the given name is removed from it; `None`
/// where no campaign has that name. The last campaign of the list takes the
/// place of the removed one; removing the only campaign leaves the list empty.
pub open spec fn spec_after_removal(list: Seq<Campaign>, name: Seq<char>) -> Option<Seq<Campaign>> {
    if !has_name(list, name) {
        None
    } else {
        let i = first_with_name(list, name);
        Some(list.update(i, list.last()).drop_last())
    }
}

/// The list once a campaign is written to it: a campaign of the same name is
/// removed first, and the campaign is added at the end.
pub open spec fn spec_after_write(list: Seq<Campaign>, campaign: Campaign) -> Seq<Campaign> {
    if has_name(list, campaign.name@) {
        spec_after_removal(list, campaign.name@).unwrap().push(campaign)
    } else {
        list.push(campaign)
    }
}

/// Check that there are no more than `MAX_CAMPAIGN_AMOUNT` campaigns and that
/// no two campaigns keep their images in the same folder.
pub fn check_integrity(campaigns: &Vec<Campaign>) -> (res: Result<(), DragonDisplayError>)
    ensures
        campaigns@.len() > MAX_CAMPAIGN_AMOUNT ==> (res matches Err(DragonDisplayError::Other { msg })
            && msg@ == too_many_campaigns_message()),
        campaigns@.len() <= MAX_CAMPAIGN_AMOUNT && has_duplicate_paths(campaigns@) ==> (res matches Err(
            DragonDisplayError::Other { msg },
        ) && msg@ == duplicate_path_message()),
        integrity_holds(campaigns@) ==> res is Ok,
{
    if campaigns.len() > 10 {
        return Err(DragonDisplayError::Other { msg: String::from_str("Too many campaigns found in the config file. Please remove the .config.toml file (a hidden file in this directory) and restart the application") });
    }
    let mut path_names: Vec<String> = Vec::new();
    let mut i: usize = 0;
    while i < campaigns.len()
        invariant
            i <= campaigns@.len(),
            campaigns@.len() <= MAX_CAMPAIGN_AMOUNT,
            path_names@.len() == i,
            forall|k: int| 0 <= k < i ==> path_names@[k]@ == campaigns@[k].path@,
            !has_duplicate_paths(campaigns@.take(i as int)),
        decreases campaigns@.len() - i,
    {
        let found = contains_string(&path_names, &campaigns[i].path);
        if found {
            proof {
                let k = choose|k: int| 0 <= k < i && crate::text::views(path_names@)[k] == campaigns@[i as int].path@;
                assert(campaigns@[k].path@ == campaigns@[i as int].path@);
            }
            return Err(DragonDisplayError::Other { msg: String::from_str("Found a duplicate in the config file. Please remove the .config.toml file (a hidden file in this directory) and restart the application") });
        }
        proof {
            assert forall|a: int, b: int|
                0 <= a < b < i + 1 implies #[trigger] campaigns@.take(i + 1)[a].path@
                != #[trigger] campaigns@.take(i + 1)[b].path@ by {
                if b < i {
                    assert(campaigns@.take(i as int)[a] == campaigns@[a]);
                    assert(campaigns@.take(i as int)[b] == campaigns@[b]);
                } else {
                    assert(crate::text::views(path_names@)[a] == campaigns@[a].path@);
                }
            }
        }
        path_names.push(campaigns[i].path.clone());
        i = i + 1;
    }
    assert(campaigns@.take(campaigns@.len() as int) =~= campaigns@);
    Ok(())
}

/// Whether a campaign of the list has the name of the given campaign.
pub fn campaign_exists(campaign_list: &Vec<Campaign>, campaign: &Campaign) -> (res: bool)
    ensures
        res == has_name(campaign_list@, campaign.name@),
{
    let mut i: usize = 0;
    while i < campaign_list.len()
        invariant
            i <= campaign_list@.len(),
            forall|k: int| 0 <= k < i ==> #[trigger] campaign_list@[k].name@ != campaign.name@,
        decreases campaign_list@.len() - i,
    {
        if campaign_list[i].name == campaign.name {
            return true;
        }
        i = i + 1;
    }
    false
}

/// The first position of the list that holds a campaign of the given name.
fn position_of_name(campaign_list: &Vec<Campaign>, name: &String) -> (res: Option<usize>)
    ensures
        match res {
            Some(i) => is_first_with_name(campaign_list@, name@, i as int) && first_with_name(
                campaign_list@,
                name@,
            ) == i,
            None => !has_name(campaign_list@, name@),
        },
{
    let mut i: usize = 0;
    while i < campaign_list.len()
        invariant
            i <= campaign_list@.len(),
            forall|k: int| 0 <= k < i ==> #[trigger] campaign_list@[k].name@ != name@,
        decreases campaign_list@.len() - i,
    {
        if campaign_list[i].name == *name {
            proof {
                let c = first_with_name(campaign_list@, name@);
                assert(is_first_with_name(campaign_list@, name@, i as int));
                assert(is_first_with_name(campaign_list@, name@, c));
                if c < i {
                    assert(campaign_list@[c].name@ != name@);
                } else if i < c {
                    assert(campaign_list@[i as int].name@ != name@);
                }
            }
            return Some(i);
        }
        i = i + 1;
    }
    None
}

/// Remove the campaign of the given name from the list of stored campaigns:
/// the first campaign of that name is replaced by the last campaign of the
/// list. A name that no stored campaign has is an error.
pub fn remove_campaign_from_list(campaign_list: Vec<Campaign>, name: &String) -> (res: Result<
    Vec<Campaign>,
    DragonDisplayError,
>)
    ensures
        match spec_after_removal(campaign_list@, name@) {
            Some(list) => res matches Ok(l) && l@ == list,
            None => res matches Err(DragonDisplayError::Other { msg }) && msg@
                == campaign_not_found_message(),
        },
{
    let mut new_campaign_list = campaign_list;
    match position_of_name(&new_campaign_list, name) {
        None => Err(DragonDisplayError::Other { msg: String::from_str("Could not find the campaign to be removed") }),
        Some(index) => {
            new_campaign_list.swap_remove(index);
            Ok(new_campaign_list)
        },
    }
}

/// The list of stored campaigns once the given campaign is written to it: a
/// stored campaign of the same name is removed first, then the campaign is
/// added at the end.
pub fn campaigns_after_write(campaign_list: Vec<Campaign>, campaign: Campaign) -> (res: Vec<Campaign>)
    ensures
        res@ == spec_after_write(campaign_list@, campaign),
{
    let mut list = campaign_list;
    if campaign_exists(&list, &campaign) {
        list = match remove_campaign_from_list(list, &campaign.name) {
            Ok(l) => l,
            Err(_) => Vec::new(),
        };
    }
    list.push(campaign);
    list
}

} // verus!

verus! {

/// Where an entry of a list that had position `i` swap-removed came from.
pub open spec fn swap_removed_source(len: int, i: int, k: int) -> int {
    if k == i {
        len - 1
    } else {
        k
    }
}

/// The entries left by a swap-removal are the other entries of the list, each once.
proof fn lemma_swap_remove(list: Seq<Campaign>, i: int)
    requires
        0 <= i < list.len(),
    ensures
        list.update(i, list.last()).drop_last().len() == list.len() - 1,
        forall|k: int|
            0 <= k < list.len() - 1 ==> #[trigger] list.update(i, list.last()).drop_last()[k]
                == list[swap_removed_source(list.len() as int, i, k)],
        forall|k: int|
            0 <= k < list.len() - 1 ==> {
                let m = #[trigger] swap_removed_source(list.len() as int, i, k);
                0 <= m < list.len() && m != i
            },
{
}

/// After a campaign is written, the list holds it, as its last entry.
pub proof fn lemma_write_then_read(list: Seq<Campaign>, campaign: Campaign)
    ensures
        has_name(spec_after_write(list, campaign), campaign.name@),
        spec_after_write(list, campaign).last() == campaign,
{
    let after = spec_after_write(list, campaign);
    assert(after[after.len() - 1] == campaign);
}

/// Writing a campaign keeps every stored campaign of another name.
pub proof fn lemma_write_keeps_others(list: Seq<Campaign>, campaign: Campaign, other: Campaign)
    requires
        list.contains(other),
        other.name@ != campaign.name@,
    ensures
        spec_after_write(list, campaign).contains(other),
{
    let m = choose|m: int| 0 <= m < list.len() && list[m] == other;
    if has_name(list, campaign.name@) && list.len() > 1 {
        let i = first_with_name(list, campaign.name@);
        let w = choose|w: int| 0 <= w < list.len() && #[trigger] list[w].name@ == campaign.name@;
        assert(is_first_with_name(list, campaign.name@, i)) by {
            lemma_first_with_name_exists(list, campaign.name@, w);
        }
        lemma_swap_remove(list, i);
        let base = list.update(i, list.last()).drop_last();
        let k = if m == list.len() - 1 { i } else { m };
        assert(swap_removed_source(list.len() as int, i, k) == m);
        assert(base[k] == other);
        assert(spec_after_write(list, campaign)[k] == other);
    } else if has_name(list, campaign.name@) {
        assert(list[0].name@ == campaign.name@);
    } else {
        assert(spec_after_write(list, campaign)[m] == other);
    }
}

/// A list that holds a campaign of some name has a first such campaign.
pub proof fn lemma_first_with_name_exists(list: Seq<Campaign>, name: Seq<char>, w: int)
    requires
        0 <= w < list.len(),
        list[w].name@ == name,
    ensures
        is_first_with_name(list, name, first_with_name(list, name)),
    decreases w,
{
    if exists|j: int| 0 <= j < w && #[trigger] list[j].name@ == name {
        let j = choose|j: int| 0 <= j < w && #[trigger] list[j].name@ == name;
        lemma_first_with_name_exists(list, name, j);
    } else {
        assert(is_first_with_name(list, name, w));
    }
}

/// Writing a campaign keeps a sound configuration sound, provided the
/// campaign's folder is not the folder of a stored campaign of another name
/// and there is room for it: the list stays within `MAX_CAMPAIGN_AMOUNT`
/// campaigns, no two share a folder and no two share a name.
pub proof fn lemma_write_keeps_integrity(list: Seq<Campaign>, campaign: Campaign)
    requires
        integrity_holds(list),
        !has_duplicate_names(list),
        forall|k: int| 0 <= k < list.len() && #[trigger] list[k].name@ != campaign.name@ ==> list[k].path@ != campaign.path@,
        has_name(list, campaign.name@) || list.len() < MAX_CAMPAIGN_AMOUNT,
    ensures
        integrity_holds(spec_after_write(list, campaign)),
        !has_duplicate_names(spec_after_write(list, campaign)),
{
    let after = spec_after_write(list, campaign);
    if has_name(list, campaign.name@) {
        let w = choose|w: int| 0 <= w < list.len() && #[trigger] list[w].name@ == campaign.name@;
        let i = first_with_name(list, campaign.name@);
        lemma_first_with_name_exists(list, campaign.name@, w);
        lemma_swap_remove(list, i);
        let base = list.update(i, list.last()).drop_last();
        assert(after == base.push(campaign));
        assert forall|a: int, b: int| 0 <= a < b < after.len() implies #[trigger] after[a].path@
            != #[trigger] after[b].path@ && after[a].name@ != after[b].name@ by {
            let ma = swap_removed_source(list.len() as int, i, a);
            if b == after.len() - 1 {
                assert(after[a] == list[ma]);
                assert(list[ma].name@ != campaign.name@);
            } else {
                let mb = swap_removed_source(list.len() as int, i, b);
                assert(after[a] == list[ma]);
                assert(after[b] == list[mb]);
                if ma < mb {
                    assert(list[ma].path@ != list[mb].path@);
                    assert(list[ma].name@ != list[mb].name@);
                } else {
                    assert(list[mb].path@ != list[ma].path@);
                    assert(list[mb].name@ != list[ma].name@);
                }
            }
        }
    } else {
        assert(after == list.push(campaign));
        assert forall|a: int, b: int| 0 <= a < b < after.len() implies #[trigger] after[a].path@
            != #[trigger] after[b].path@ && after[a].name@ != after[b].name@ by {
            if b == after.len() - 1 {
                assert(after[a] == list[a]);
                assert(list[a].name@ != campaign.name@);
                assert(list[a].path@ != campaign.path@);
            } else {
                assert(after[a] == list[a]);
                assert(after[b] == list[b]);
                assert(list[a].path@ != list[b].path@);
                assert(list[a].name@ != list[b].name@);
            }
        }
    }
}

/// Removing a campaign keeps a sound configuration sound, and leaves no
/// campaign of that name behind when names were unique.
pub proof fn lemma_remove_keeps_integrity(list: Seq<Campaign>, name: Seq<char>)
    requires
        integrity_holds(list),
        !has_duplicate_names(list),
        spec_after_removal(list, name) is Some,
    ensures
        integrity_holds(spec_after_removal(list, name).unwrap()),
        !has_duplicate_names(spec_after_removal(list, name).unwrap()),
        !has_name(spec_after_removal(list, name).unwrap(), name),
{
    let w = choose|w: int| 0 <= w < list.len() && #[trigger] list[w].name@ == name;
    let i = first_with_name(list, name);
    lemma_first_with_name_exists(list, name, w);
    lemma_swap_remove(list, i);
    let after = spec_after_removal(list, name).unwrap();
    assert forall|a: int, b: int| 0 <= a < b < after.len() implies #[trigger] after[a].path@
        != #[trigger] after[b].path@ && after[a].name@ != after[b].name@ by {
        let ma = swap_removed_source(list.len() as int, i, a);
        let mb = swap_removed_source(list.len() as int, i, b);
        assert(after[a] == list[ma]);
        assert(after[b] == list[mb]);
        if ma < mb {
            assert(list[ma].path@ != list[mb].path@);
            assert(list[ma].name@ != list[mb].name@);
        } else {
            assert(list[mb].path@ != list[ma].path@);
            assert(list[mb].name@ != list[ma].name@);
        }
    }
    lemma_removal_drops_name(list, name);
}

/// Removing a campaign that was just written under a new name gives back the
/// campaigns as they were before.
pub proof fn lemma_write_then_remove(list: Seq<Campaign>, campaign: Campaign)
    requires
        !has_name(list, campaign.name@),
    ensures
        spec_after_removal(spec_after_write(list, campaign), campaign.name@) == Some(list),
{
    let after = spec_after_write(list, campaign);
    let n = list.len() as int;
    assert(after == list.push(campaign));
    assert(after[n] == campaign);
    assert(has_name(after, campaign.name@));
    lemma_first_with_name_exists(after, campaign.name@, n);
    let i = first_with_name(after, campaign.name@);
    if i < n {
        assert(after[i] == list[i]);
    }
    assert(i == n);
    assert(after.update(i, after.last()).drop_last() =~= list);
}

/// Removing a campaign keeps every stored campaign of another name.
pub proof fn lemma_remove_keeps_others(list: Seq<Campaign>, name: Seq<char>, other: Campaign)
    requires
        list.contains(other),
        other.name@ != name,
        spec_after_removal(list, name) is Some,
    ensures
        spec_after_removal(list, name).unwrap().contains(other),
{
    let m = choose|m: int| 0 <= m < list.len() && list[m] == other;
    let w = choose|w: int| 0 <= w < list.len() && #[trigger] list[w].name@ == name;
    let i = first_with_name(list, name);
    lemma_first_with_name_exists(list, name, w);
    lemma_swap_remove(list, i);
    let k = if m == list.len() - 1 { i } else { m };
    assert(swap_removed_source(list.len() as int, i, k) == m);
    assert(spec_after_removal(list, name).unwrap()[k] == other);
}


/// Swap-removing an entry leaves every other entry, each as often as before.
proof fn lemma_swap_remove_multiset(list: Seq<Campaign>, i: int)
    requires
        0 <= i < list.len(),
    ensures
        list.update(i, list.last()).drop_last().to_multiset() =~= list.to_multiset().remove(list[i]),
{
    broadcast use vstd::seq_lib::group_to_multiset_ensures;
    broadcast use vstd::multiset::group_multiset_axioms;

    let u = list.update(i, list.last());
    assert(u.drop_last() =~= u.remove(u.len() - 1));
    assert(u[u.len() - 1] == list.last());
    assert(u.to_multiset() == list.to_multiset().insert(list.last()).remove(list[i]));
    assert(u.drop_last().to_multiset() == u.to_multiset().remove(list.last()));
}

/// With unique names, no campaign of the removed name is left.
proof fn lemma_removal_drops_name(list: Seq<Campaign>, name: Seq<char>)
    requires
        !has_duplicate_names(list),
        has_name(list, name),
    ensures
        !has_name(spec_after_removal(list, name).unwrap(), name),
{
    let w = choose|w: int| 0 <= w < list.len() && #[trigger] list[w].name@ == name;
    let i = first_with_name(list, name);
    lemma_first_with_name_exists(list, name, w);
    lemma_swap_remove(list, i);
    let after = spec_after_removal(list, name).unwrap();
    assert forall|k: int| 0 <= k < after.len() implies #[trigger] after[k].name@ != name by {
        let mk = swap_removed_source(list.len() as int, i, k);
        assert(after[k] == list[mk]);
        if i < mk {
            assert(list[i].name@ != list[mk].name@);
        } else {
            assert(list[mk].name@ != list[i].name@);
        }
    }
}

/// Removing a stored campaign by name takes out the first campaign of that
/// name and leaves every other campaign, each as often as before, possibly in
/// another order.
pub proof fn lemma_remove_is_permutation(list: Seq<Campaign>, name: Seq<char>)
    requires
        has_name(list, name),
    ensures
        spec_after_removal(list, name) is Some,
        list[first_with_name(list, name)].name@ == name,
        spec_after_removal(list, name).unwrap().to_multiset() =~= list.to_multiset().remove(
            list[first_with_name(list, name)],
        ),
{
    let w = choose|w: int| 0 <= w < list.len() && #[trigger] list[w].name@ == name;
    lemma_first_with_name_exists(list, name, w);
    lemma_swap_remove_multiset(list, first_with_name(list, name));
}

/// Writing a campaign whose name is stored updates that campaign: with unique
/// names, the new list holds the campaign as the only one of its name, and the
/// other campaigns, each as often as before, possibly in another order.
pub proof fn lemma_write_updates_stored(list: Seq<Campaign>, campaign: Campaign)
    requires
        has_name(list, campaign.name@),
        !has_duplicate_names(list),
    ensures
        spec_after_write(list, campaign).to_multiset() =~= list.to_multiset().remove(
            list[first_with_name(list, campaign.name@)],
        ).insert(campaign),
        spec_after_write(list, campaign).last() == campaign,
        forall|k: int|
            0 <= k < spec_after_write(list, campaign).len() - 1 ==> #[trigger] spec_after_write(
                list,
                campaign,
            )[k].name@ != campaign.name@,
{
    broadcast use vstd::seq_lib::group_to_multiset_ensures;

    let removed = spec_after_removal(list, campaign.name@).unwrap();
    lemma_remove_is_permutation(list, campaign.name@);
    lemma_removal_drops_name(list, campaign.name@);
    let after = spec_after_write(list, campaign);
    assert(after == removed.push(campaign));
    assert forall|k: int| 0 <= k < after.len() - 1 implies #[trigger] after[k].name@ != campaign.name@ by {
        assert(after[k] == removed[k]);
    }
}

} // verus!

verus! {

/// An extension that marks an image.
pub open spec fn is_image_extension(ext: Seq<char>) -> bool {
    ext == "jpeg"@ || ext == "jpg"@ || ext == "png"@
}

/// An extension that marks a video.
pub open spec fn is_video_extension(ext: Seq<char>) -> bool {
    ext == "mp4"@ || ext == "webm"@
}

/// An extension that marks a virtual table top file.
pub open spec fn is_vtt_extension(ext: Seq<char>) -> bool {
    ext == "uvtt"@
}

/// Whether the extension is one of `IMAGE_EXTENSIONS`.
pub fn image_extension(ext: &str) -> (res: bool)
    ensures
        res == is_image_extension(ext@),
{
    str_eq(ext, "jpeg") || str_eq(ext, "jpg") || str_eq(ext, "png")
}

/// Whether the extension is one of `VIDEO_EXTENSIONS`.
pub fn video_extension(ext: &str) -> (res: bool)
    ensures
        res == is_video_extension(ext@),
{
    str_eq(ext, "mp4") || str_eq(ext, "webm")
}

/// Whether the extension is one of `VTT_EXTENSIONS`.
pub fn vtt_extension(ext: &str) -> (res: bool)
    ensures
        res == is_vtt_extension(ext@),
{
    str_eq(ext, "uvtt")
}

/// What reading the configuration file gave.
pub enum ConfigFile {
    /// There is no configuration file.
    NotFound,
    /// The file exists but could not be opened.
    OpenFailed,
    /// The file could not be read to the end as text.
    ReadFailed,
    /// The text is not a configuration.
    Corrupted,
    /// The campaigns that the file lists.
    Parsed(Vec<Campaign>),
}

/// The message of a configuration file that cannot be opened.
pub open spec fn open_failed_message() -> Seq<char> {
    "Could not read the config file"@
}

/// The message of a configuration file that cannot be read.
pub open spec fn read_failed_message() -> Seq<char> {
    "Could not read configuration file"@
}

/// The message of a configuration file whose text is not a configuration.
pub open spec fn corrupted_message() -> Seq<char> {
    "The config file got corrupted. Please remove the .config.toml file \n            (a hidden file in this directory) and restart the application"@
}

/// The stored campaigns, given what reading the configuration file gave: none
/// where there is no file, and those of a file that passes `check_integrity`.
pub fn read_campaign_from_config(file: ConfigFile) -> (res: Result<Vec<Campaign>, DragonDisplayError>)
    ensures
        match file {
            ConfigFile::NotFound => res matches Ok(l) && l@.len() == 0,
            ConfigFile::OpenFailed => res matches Err(DragonDisplayError::IOError { msg }) && msg@
                == open_failed_message(),
            ConfigFile::ReadFailed => res matches Err(DragonDisplayError::IOError { msg }) && msg@
                == read_failed_message(),
            ConfigFile::Corrupted => res matches Err(DragonDisplayError::SerializeError { msg })
                && msg@ == corrupted_message(),
            ConfigFile::Parsed(list) => {
                &&& list@.len() > MAX_CAMPAIGN_AMOUNT ==> (res matches Err(
                    DragonDisplayError::Other { msg },
                ) && msg@ == too_many_campaigns_message())
                &&& list@.len() <= MAX_CAMPAIGN_AMOUNT && has_duplicate_paths(list@) ==> (res matches Err(
                    DragonDisplayError::Other { msg },
                ) && msg@ == duplicate_path_message())
                &&& integrity_holds(list@) ==> res == Ok::<Vec<Campaign>, DragonDisplayError>(list)
            },
        },
{
    match file {
        ConfigFile::NotFound => Ok(Vec::new()),
        ConfigFile::OpenFailed => Err(DragonDisplayError::IOError { msg: String::from_str("Could not read the config file") }),
        ConfigFile::ReadFailed => Err(DragonDisplayError::IOError { msg: String::from_str("Could not read configuration file") }),
        ConfigFile::Corrupted => Err(DragonDisplayError::SerializeError { msg: String::from_str("The config file got corrupted. Please remove the .config.toml file \n            (a hidden file in this directory) and restart the application") }),
        ConfigFile::Parsed(list) => match check_integrity(&list) {
            Ok(()) => Ok(list),
            Err(e) => Err(e),
        },
    }
}

/// An entry of a campaign folder, as listing the folder gave it.
pub enum FolderEntry {
    /// The entry could not be read.
    Unreadable,
    /// The path of the entry, which is valid Unicode.
    Path(String),
    /// The path is not valid Unicode: `None` where the path has no extension,
    /// otherwise the extension, as text where it is valid Unicode.
    NonUnicode { extension: Option<Option<String>> },
}

/// What listing a campaign folder gave.
pub enum FolderListing {
    /// There is no such folder.
    NotFound,
    /// The folder could not be listed.
    Failed,
    /// The entries of the folder.
    Entries(Vec<FolderEntry>),
}

/// Why an entry of a campaign folder keeps the folder from being removed.
pub enum RemovalBlock {
    Unreadable,
    NoExtension,
    ExtensionNotUnicode,
    NotAnImage,
}

/// Why an extension keeps its folder from being removed, if it does.
pub open spec fn extension_block(ext: Option<Seq<char>>) -> Option<RemovalBlock> {
    match ext {
        None => Some(RemovalBlock::NoExtension),
        Some(e) => if is_image_extension(e) {
            None
        } else {
            Some(RemovalBlock::NotAnImage)
        },
    }
}

/// Why the entry keeps its folder from being removed, if it does.
pub open spec fn removal_block(entry: FolderEntry) -> Option<RemovalBlock> {
    match entry {
        FolderEntry::Unreadable => Some(RemovalBlock::Unreadable),
        FolderEntry::Path(p) => extension_block(path_extension(p@)),
        FolderEntry::NonUnicode { extension } => match extension {
            None => Some(RemovalBlock::NoExtension),
            Some(None) => Some(RemovalBlock::ExtensionNotUnicode),
            Some(Some(e)) => extension_block(Some(e@)),
        },
    }
}

/// The message of a campaign folder that cannot be listed.
pub open spec fn folder_unreadable_message() -> Seq<char> {
    "Could not read the campaign path"@
}

/// The message of a campaign folder entry without an extension.
pub open spec fn no_extension_message() -> Seq<char> {
    "Could not get file extension"@
}

/// The message of a campaign folder entry whose extension is not valid Unicode.
pub open spec fn extension_not_unicode_message() -> Seq<char> {
    "Some internal error occured while reading file extensions"@
}

/// The message of a campaign folder that holds something else than images.
pub open spec fn not_removable_message() -> Seq<char> {
    "Could not remove the campaign"@
}

/// The error that an entry's block gives.
pub open spec fn removal_block_error(block: RemovalBlock, err: DragonDisplayError) -> bool {
    match block {
        RemovalBlock::Unreadable => err matches DragonDisplayError::IOError { msg } && msg@
            == folder_unreadable_message(),
        RemovalBlock::NoExtension => err matches DragonDisplayError::Other { msg } && msg@
            == no_extension_message(),
        RemovalBlock::ExtensionNotUnicode => err matches DragonDisplayError::Other { msg } && msg@
            == extension_not_unicode_message(),
        RemovalBlock::NotAnImage => err matches DragonDisplayError::Other { msg } && msg@
            == not_removable_message(),
    }
}

/// A folder whose removal deletes nothing but images: one that does not
/// exist, or one whose entries are all readable images.
pub open spec fn removal_allowed(listing: FolderListing) -> bool {
    match listing {
        FolderListing::NotFound => true,
        FolderListing::Failed => false,
        FolderListing::Entries(entries) => forall|i: int| 0 <= i < entries@.len() ==> #[trigger] removal_block(entries@[i]) is None,
    }
}

/// What `check_save_removal` answers for a folder listing.
pub open spec fn save_removal_outcome(listing: FolderListing, res: Result<(), DragonDisplayError>) -> bool {
    match listing {
        FolderListing::NotFound => res is Ok,
        FolderListing::Failed => res matches Err(DragonDisplayError::IOError { msg }) && msg@
            == folder_unreadable_message(),
        FolderListing::Entries(entries) => match res {
            Ok(()) => forall|i: int| 0 <= i < entries@.len() ==> #[trigger] removal_block(entries@[i]) is None,
            Err(e) => exists|i: int|
                #![trigger entries@[i]]
                0 <= i < entries@.len() && (forall|j: int| 0 <= j < i ==> #[trigger] removal_block(entries@[j]) is None)
                    && (removal_block(entries@[i]) matches Some(b) && removal_block_error(b, e)),
        },
    }
}

/// Whether a folder entry with this extension may be removed with its folder.
fn check_extension(ext: &Option<String>) -> (res: Result<(), DragonDisplayError>)
    ensures
        match extension_block(
            match ext {
                Some(e) => Some(e@),
                None => None,
            },
        ) {
            None => res is Ok,
            Some(b) => res matches Err(e) && removal_block_error(b, e),
        },
{
    match ext {
        None => Err(DragonDisplayError::Other { msg: String::from_str("Could not get file extension") }),
        Some(e) => {
            if image_extension(e.as_str()) {
                Ok(())
            } else {
                Err(DragonDisplayError::Other { msg: String::from_str("Could not remove the campaign") })
            }
        },
    }
}

/// Check that the folder of a campaign to be removed holds only images, so
/// that removing it deletes nothing else. A folder that does not exist may be
/// removed; otherwise the first entry that is unreadable, has no extension or
/// is not an image decides the error.
pub fn check_save_removal(listing: &FolderListing) -> (res: Result<(), DragonDisplayError>)
    ensures
        save_removal_outcome(*listing, res),
        res is Ok <==> removal_allowed(*listing),
{
    match listing {
        FolderListing::NotFound => Ok(()),
        FolderListing::Failed => Err(DragonDisplayError::IOError { msg: String::from_str("Could not read the campaign path") }),
        FolderListing::Entries(entries) => {
            let mut i: usize = 0;
            while i < entries.len()
                invariant
                    *listing == FolderListing::Entries(*entries),
                    i <= entries@.len(),
                    forall|j: int| 0 <= j < i ==> #[trigger] removal_block(entries@[j]) is None,
                decreases entries@.len() - i,
            {
                match &entries[i] {
                    FolderEntry::Unreadable => {
                        return Err(DragonDisplayError::IOError { msg: String::from_str("Could not read the campaign path") });
                    },
                    FolderEntry::Path(path) => {
                        let ext = extension_of(path.as_str());
                        check_extension(&ext)?;
                    },
                    FolderEntry::NonUnicode { extension } => match extension {
                        None => {
                            return Err(DragonDisplayError::Other { msg: String::from_str("Could not get file extension") });
                        },
                        Some(None) => {
                            return Err(DragonDisplayError::Other { msg: String::from_str("Some internal error occured while reading file extensions") });
                        },
                        Some(Some(e)) => {
                            let ext = Some(e.clone());
                            check_extension(&ext)?;
                        },
                    },
                }
                i = i + 1;
            }
            Ok(())
        },
    }
}

/// The campaigns to store once a campaign is removed, given the listing of
/// the campaign's folder and the stored campaigns: the folder must hold only
/// images, and there must be something to remove. An empty result means the
/// configuration file is to be deleted.
pub fn remove_campaign_from_config(
    campaign: &Campaign,
    listing: &FolderListing,
    stored: Result<Vec<Campaign>, DragonDisplayError>,
) -> (res: Result<Vec<Campaign>, DragonDisplayError>)
    ensures
        !removal_allowed(*listing) ==> (res matches Err(e) && save_removal_outcome(*listing, Err(e))),
        removal_allowed(*listing) ==> match stored {
            Err(e) => res == Err::<Vec<Campaign>, DragonDisplayError>(e),
            Ok(list) => match spec_after_removal(list@, campaign.name@) {
                Some(after) => res matches Ok(l) && l@ == after,
                None => res matches Err(DragonDisplayError::Other { msg }) && msg@
                    == campaign_not_found_message(),
            },
        },
{
    match check_save_removal(listing) {
        Ok(()) => {},
        Err(e) => {
            return Err(e);
        },
    }
    let list = match stored {
        Ok(l) => l,
        Err(e) => {
            return Err(e);
        },
    };
    remove_campaign_from_list(list, &campaign.name)
}

/// The campaigns to store once a campaign is written, given the stored
/// campaigns: a stored campaign of the same name is updated (it is taken out
/// and the campaign is added at the end). An error reading the stored
/// campaigns is passed on.
pub fn write_campaign_to_config(
    campaign: Campaign,
    stored: Result<Vec<Campaign>, DragonDisplayError>,
) -> (res: Result<Vec<Campaign>, DragonDisplayError>)
    ensures
        match stored {
            Err(e) => res == Err::<Vec<Campaign>, DragonDisplayError>(e),
            Ok(list) => res matches Ok(l) && l@ == spec_after_write(list@, campaign),
        },
{
    let list = match stored {
        Ok(l) => l,
        Err(e) => {
            return Err(e);
        },
    };
    Ok(campaigns_after_write(list, campaign))
}

} // verus!

verus! {

broadcast use vstd::string::group_string_axioms;

/// No extension marks two kinds of media.
pub proof fn lemma_media_kinds_disjoint(e: Seq<char>)
    ensures
        is_image_extension(e) ==> !is_vtt_extension(e) && !is_video_extension(e),
        is_vtt_extension(e) ==> !is_video_extension(e),
{
    reveal_strlit("jpeg");
    reveal_strlit("jpg");
    reveal_strlit("png");
    reveal_strlit("uvtt");
    reveal_strlit("mp4");
    reveal_strlit("webm");
    if e.len() > 0 {
        assert("jpeg"@[0] == 'j');
        assert("jpg"@[0] == 'j');
        assert("png"@[0] == 'p');
        assert("uvtt"@[0] == 'u');
        assert("mp4"@[0] == 'm');
        assert("webm"@[0] == 'w');
    }
    if e == "jpeg"@ || e == "jpg"@ || e == "png"@ || e == "uvtt"@ {
        assert(e.len() > 0);
    }
}

} // verus!

verus! {

/// The extensions that mark an image are exactly those of `IMAGE_EXTENSIONS`.
pub proof fn lemma_image_extensions_are_listed(e: Seq<char>)
    ensures
        is_image_extension(e) <==> exists|i: int|
            0 <= i < IMAGE_EXTENSIONS@.len() && e == #[trigger] IMAGE_EXTENSIONS@[i]@,
{
    assert(IMAGE_EXTENSIONS@.len() == 3);
}

/// The extensions that mark a video are exactly those of `VIDEO_EXTENSIONS`.
pub proof fn lemma_video_extensions_are_listed(e: Seq<char>)
    ensures
        is_video_extension(e) <==> exists|i: int|
            0 <= i < VIDEO_EXTENSIONS@.len() && e == #[trigger] VIDEO_EXTENSIONS@[i]@,
{
    assert(VIDEO_EXTENSIONS@.len() == 2);
}

/// The extensions that mark a virtual table top file are exactly those of
/// `VTT_EXTENSIONS`.
pub proof fn lemma_vtt_extensions_are_listed(e: Seq<char>)
    ensures
        is_vtt_extension(e) <==> exists|i: int|
            0 <= i < VTT_EXTENSIONS@.len() && e == #[trigger] VTT_EXTENSIONS@[i]@,
{
    assert(VTT_EXTENSIONS@.len() == 1);
}

/// A folder may be removed with its campaign only if every entry of it is
/// readable and has an extension of `IMAGE_EXTENSIONS`: anything else, a VTT
/// map, a video or a document, keeps the folder.
pub proof fn lemma_removal_only_of_images(listing: FolderListing, i: int)
    requires
        removal_allowed(listing),
        listing is Entries,
        0 <= i < listing->Entries_0@.len(),
    ensures
        match listing->Entries_0@[i] {
            FolderEntry::Unreadable => false,
            FolderEntry::Path(p) => path_extension(p@) matches Some(e) && exists|k: int|
                0 <= k < IMAGE_EXTENSIONS@.len() && e == #[trigger] IMAGE_EXTENSIONS@[k]@,
            FolderEntry::NonUnicode { extension } => extension matches Some(Some(e)) && exists|k: int|
                0 <= k < IMAGE_EXTENSIONS@.len() && e@ == #[trigger] IMAGE_EXTENSIONS@[k]@,
        },
{
    let entry = listing->Entries_0@[i];
    assert(removal_block(entry) is None);
    match entry {
        FolderEntry::Unreadable => {},
        FolderEntry::Path(p) => {
            if let Some(e) = path_extension(p@) {
                lemma_image_extensions_are_listed(e);
            }
        },
        FolderEntry::NonUnicode { extension } => {
            if let Some(Some(e)) = extension {
                lemma_image_extensions_are_listed(e@);
            }
        },
    }
}

} // verus!
