//! The configuration as a map from campaign names to their data, the form in
//! which the campaign manager keeps it.
use vstd::prelude::*;

use crate::config::MAX_CAMPAIGN_AMOUNT;
use crate::text::str_eq;

verus! {

/// What the configuration holds of one campaign; its name is the key it is
/// stored under.
pub struct CampaignData {
    pub sync_option: String,
    pub path: String,
    pub access_token: Option<String>,
    pub refresh_token: Option<String>,
}

/// The kinds of failure of the campaign manager's configuration handling.
#[derive(PartialEq, Eq, Structural)]
pub enum ConfigErrorKind {
    /// More campaigns are stored than the program allows.
    OutOfMemory,
    /// Two stored campaigns share a folder.
    InvalidData,
    /// There is no campaign to remove.
    NotFound,
}

/// What becomes of the configuration file once a campaign is removed.
pub enum ConfigUpdate {
    /// Write these campaigns in place of the old ones.
    Rewrite(Vec<(String, CampaignData)>),
    /// The last campaign went: delete the file.
    DeleteFile,
}

/// Two different entries keep their images in the same folder.
pub open spec fn has_shared_folder(campaigns: Seq<(String, CampaignData)>) -> bool {
    exists|i: int, j: int|
        0 <= i < j < campaigns.len() && #[trigger] campaigns[i].1.path@ == #[trigger] campaigns[j].1.path@
}

/// No two entries share a name, as the keys of a map.
pub open spec fn names_unique(campaigns: Seq<(String, CampaignData)>) -> bool {
    forall|i: int, j: int|
        0 <= i < j < campaigns.len() ==> #[trigger] campaigns[i].0@ != #[trigger] campaigns[j].0@
}

/// The entries whose name differs from the given one, in their order.
pub open spec fn entries_without(campaigns: Seq<(String, CampaignData)>, name: Seq<char>) -> Seq<
    (String, CampaignData),
> {
    campaigns.filter(|e: (String, CampaignData)| e.0@ != name)
}

/// Check that no more campaigns are stored than `MAX_CAMPAIGN_AMOUNT`
/// (`OutOfMemory`) and that no two of them share a folder (`InvalidData`).
pub fn check_integrity(campaigns: &Vec<(String, CampaignData)>) -> (res: Result<(), ConfigErrorKind>)
    ensures
        campaigns@.len() > MAX_CAMPAIGN_AMOUNT ==> res == Err::<(), ConfigErrorKind>(ConfigErrorKind::OutOfMemory),
        campaigns@.len() <= MAX_CAMPAIGN_AMOUNT && has_shared_folder(campaigns@) ==> res == Err::<(), ConfigErrorKind>(
            ConfigErrorKind::InvalidData,
        ),
        campaigns@.len() <= MAX_CAMPAIGN_AMOUNT && !has_shared_folder(campaigns@) ==> res is Ok,
{
    if campaigns.len() > 10 {
        return Err(ConfigErrorKind::OutOfMemory);
    }
    let mut i: usize = 0;
    while i < campaigns.len()
        invariant
            i <= campaigns@.len(),
            campaigns@.len() <= MAX_CAMPAIGN_AMOUNT,
            !has_shared_folder(campaigns@.take(i as int)),
        decreases campaigns@.len() - i,
    {
        let mut j: usize = 0;
        while j < i
            invariant
                j <= i < campaigns@.len(),
                campaigns@.len() <= MAX_CAMPAIGN_AMOUNT,
                forall|k: int| 0 <= k < j ==> campaigns@[k].1.path@ != campaigns@[i as int].1.path@,
            decreases i - j,
        {
            if campaigns[j].1.path == campaigns[i].1.path {
                return Err(ConfigErrorKind::InvalidData);
            }
            j = j + 1;
        }
        proof {
            let t = campaigns@.take(i + 1);
            assert forall|a: int, b: int| 0 <= a < b < i + 1 implies #[trigger] t[a].1.path@
                != #[trigger] t[b].1.path@ by {
                if b < i {
                    assert(campaigns@.take(i as int)[a] == t[a]);
                    assert(campaigns@.take(i as int)[b] == t[b]);
                }
            }
        }
        i = i + 1;
    }
    assert(campaigns@.take(campaigns@.len() as int) =~= campaigns@);
    Ok(())
}

/// Remove the campaign of the given name from entries whose names, as the
/// keys of a map, are unique: with more than one campaign stored, the entries
/// of other names are written back; a single stored campaign takes the file
/// with it, whatever its name; with none stored there is nothing to remove.
pub fn campaigns_after_removal(campaign_list: Vec<(String, CampaignData)>, campaign_name: &str) -> (res:
    Result<ConfigUpdate, ConfigErrorKind>)
    requires
        names_unique(campaign_list@),
    ensures
        campaign_list@.len() > 1 ==> (res matches Ok(ConfigUpdate::Rewrite(l)) && l@ == entries_without(
            campaign_list@,
            campaign_name@,
        )),
        campaign_list@.len() == 1 ==> res matches Ok(ConfigUpdate::DeleteFile),
        campaign_list@.len() == 0 ==> res matches Err(ConfigErrorKind::NotFound),
{
    if campaign_list.len() == 0 {
        return Err(ConfigErrorKind::NotFound);
    }
    if campaign_list.len() == 1 {
        return Ok(ConfigUpdate::DeleteFile);
    }
    let ghost all = campaign_list@;
    let ghost keep = |e: (String, CampaignData)| e.0@ != campaign_name@;
    let mut kept: Vec<(String, CampaignData)> = Vec::new();
    for entry in it: campaign_list
        invariant
            it.seq() == all,
            keep == (|e: (String, CampaignData)| e.0@ != campaign_name@),
            kept@ == all.take(it.index() as int).filter(keep),
    {
        proof {
            reveal_with_fuel(Seq::filter, 1);
            assert(all.take(it.index() + 1).drop_last() =~= all.take(it.index() as int));
            assert(all.take(it.index() + 1).last() == entry);
        }
        if !str_eq(entry.0.as_str(), campaign_name) {
            kept.push(entry);
        }
        assert(kept@ =~= all.take(it.index() + 1).filter(keep));
    }
    assert(all.take(all.len() as int) =~= all);
    Ok(ConfigUpdate::Rewrite(kept))
}

} // verus!

verus! {

/// Removing a campaign by name leaves no entry of that name, and every entry
/// of another name is still there.
pub proof fn lemma_removal_keeps_others(campaigns: Seq<(String, CampaignData)>, name: Seq<char>)
    ensures
        forall|i: int|
            0 <= i < entries_without(campaigns, name).len() ==> #[trigger] entries_without(
                campaigns,
                name,
            )[i].0@ != name,
        forall|i: int|
            0 <= i < campaigns.len() && #[trigger] campaigns[i].0@ != name ==> entries_without(
                campaigns,
                name,
            ).contains(campaigns[i]),
{
    broadcast use vstd::seq_lib::group_filter_ensures;

}

} // verus!
