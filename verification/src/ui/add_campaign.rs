use vstd::prelude::*;

use crate::config::{
    has_duplicate_names, has_name, integrity_holds, lemma_write_keeps_integrity, spec_after_write, Campaign,
    MAX_CAMPAIGN_AMOUNT, SynchronizationOption,
};
use crate::campaign::DdCampaign;
use crate::errors::DragonDisplayError;
use crate::text::chars_of;

verus! {

broadcast use vstd::string::group_string_axioms;

/// A character with the Unicode `White_Space` property, which is what
/// `char::is_whitespace` tests.
pub open spec fn is_white_space(c: char) -> bool {
    let n = c as u32;
    (0x9 <= n && n <= 0xd) || n == 0x20 || n == 0x85 || n == 0xa0 || n == 0x1680 || (0x2000 <= n
        && n <= 0x200a) || n == 0x2028 || n == 0x2029 || n == 0x202f || n == 0x205f || n == 0x3000
}

/// Whether the character is whitespace.
pub fn char_is_whitespace(c: char) -> (res: bool)
    ensures
        res == is_white_space(c),
{
    let n = c as u32;
    (0x9 <= n && n <= 0xd) || n == 0x20 || n == 0x85 || n == 0xa0 || n == 0x1680 || (0x2000 <= n
        && n <= 0x200a) || n == 0x2028 || n == 0x2029 || n == 0x202f || n == 0x205f || n == 0x3000
}

/// A character that a campaign name may hold: an ASCII letter or digit, `-`,
/// `'`, a space or `_`.
pub open spec fn is_allowed_char(c: char) -> bool {
    ('a' <= c && c <= 'z') || ('A' <= c && c <= 'Z') || ('0' <= c && c <= '9') || c == '-' || c
        == '\'' || c == ' ' || c == '_'
}

/// The characters a campaign name may hold.
pub const ALLOWED_CHARS: [char; 66] = [
    'a', 'b', 'c', 'd', 'e', 'f', 'g', 'h', 'i', 'j', 'k', 'l', 'm', 'n', 'o', 'p', 'q', 'r', 's',
    't', 'u', 'v', 'w', 'x', 'y', 'z', 'A', 'B', 'C', 'D', 'E', 'F', 'G', 'H', 'I', 'J', 'K', 'L',
    'M', 'N', 'O', 'P', 'Q', 'R', 'S', 'T', 'U', 'V', 'W', 'X', 'Y', 'Z', '0', '1', '2', '3', '4',
    '5', '6', '7', '8', '9', '-', '\'', ' ', '_',
];

/// The characters a campaign name may hold are exactly those of `ALLOWED_CHARS`:
/// the ASCII letters and digits, `-`, `'`, the space and `_`.
pub proof fn lemma_allowed_chars_are_listed(c: char)
    ensures
        is_allowed_char(c) <==> exists|i: int| 0 <= i < ALLOWED_CHARS@.len() && #[trigger] ALLOWED_CHARS@[i] == c,
{
    assert(ALLOWED_CHARS@.len() == 66);
    assert(ALLOWED_CHARS@[0] == 'a');
    assert(ALLOWED_CHARS@[1] == 'b');
    assert(ALLOWED_CHARS@[2] == 'c');
    assert(ALLOWED_CHARS@[3] == 'd');
    assert(ALLOWED_CHARS@[4] == 'e');
    assert(ALLOWED_CHARS@[5] == 'f');
    assert(ALLOWED_CHARS@[6] == 'g');
    assert(ALLOWED_CHARS@[7] == 'h');
    assert(ALLOWED_CHARS@[8] == 'i');
    assert(ALLOWED_CHARS@[9] == 'j');
    assert(ALLOWED_CHARS@[10] == 'k');
    assert(ALLOWED_CHARS@[11] == 'l');
    assert(ALLOWED_CHARS@[12] == 'm');
    assert(ALLOWED_CHARS@[13] == 'n');
    assert(ALLOWED_CHARS@[14] == 'o');
    assert(ALLOWED_CHARS@[15] == 'p');
    assert(ALLOWED_CHARS@[16] == 'q');
    assert(ALLOWED_CHARS@[17] == 'r');
    assert(ALLOWED_CHARS@[18] == 's');
    assert(ALLOWED_CHARS@[19] == 't');
    assert(ALLOWED_CHARS@[20] == 'u');
    assert(ALLOWED_CHARS@[21] == 'v');
    assert(ALLOWED_CHARS@[22] == 'w');
    assert(ALLOWED_CHARS@[23] == 'x');
    assert(ALLOWED_CHARS@[24] == 'y');
    assert(ALLOWED_CHARS@[25] == 'z');
    assert(ALLOWED_CHARS@[26] == 'A');
    assert(ALLOWED_CHARS@[27] == 'B');
    assert(ALLOWED_CHARS@[28] == 'C');
    assert(ALLOWED_CHARS@[29] == 'D');
    assert(ALLOWED_CHARS@[30] == 'E');
    assert(ALLOWED_CHARS@[31] == 'F');
    assert(ALLOWED_CHARS@[32] == 'G');
    assert(ALLOWED_CHARS@[33] == 'H');
    assert(ALLOWED_CHARS@[34] == 'I');
    assert(ALLOWED_CHARS@[35] == 'J');
    assert(ALLOWED_CHARS@[36] == 'K');
    assert(ALLOWED_CHARS@[37] == 'L');
    assert(ALLOWED_CHARS@[38] == 'M');
    assert(ALLOWED_CHARS@[39] == 'N');
    assert(ALLOWED_CHARS@[40] == 'O');
    assert(ALLOWED_CHARS@[41] == 'P');
    assert(ALLOWED_CHARS@[42] == 'Q');
    assert(ALLOWED_CHARS@[43] == 'R');
    assert(ALLOWED_CHARS@[44] == 'S');
    assert(ALLOWED_CHARS@[45] == 'T');
    assert(ALLOWED_CHARS@[46] == 'U');
    assert(ALLOWED_CHARS@[47] == 'V');
    assert(ALLOWED_CHARS@[48] == 'W');
    assert(ALLOWED_CHARS@[49] == 'X');
    assert(ALLOWED_CHARS@[50] == 'Y');
    assert(ALLOWED_CHARS@[51] == 'Z');
    assert(ALLOWED_CHARS@[52] == '0');
    assert(ALLOWED_CHARS@[53] == '1');
    assert(ALLOWED_CHARS@[54] == '2');
    assert(ALLOWED_CHARS@[55] == '3');
    assert(ALLOWED_CHARS@[56] == '4');
    assert(ALLOWED_CHARS@[57] == '5');
    assert(ALLOWED_CHARS@[58] == '6');
    assert(ALLOWED_CHARS@[59] == '7');
    assert(ALLOWED_CHARS@[60] == '8');
    assert(ALLOWED_CHARS@[61] == '9');
    assert(ALLOWED_CHARS@[62] == '-');
    assert(ALLOWED_CHARS@[63] == '\'');
    assert(ALLOWED_CHARS@[64] == ' ');
    assert(ALLOWED_CHARS@[65] == '_');
}

/// Whether a campaign name may hold the character.
pub fn allowed_char(c: char) -> (res: bool)
    ensures
        res == is_allowed_char(c),
{
    ('a' <= c && c <= 'z') || ('A' <= c && c <= 'Z') || ('0' <= c && c <= '9') || c == '-' || c
        == '\'' || c == ' ' || c == '_'
}

/// The text without its leading whitespace.
pub open spec fn trim_start(s: Seq<char>) -> Seq<char>
    decreases s.len(),
{
    if s.len() > 0 && is_white_space(s[0]) {
        trim_start(s.skip(1))
    } else {
        s
    }
}

/// The text without its trailing whitespace.
pub open spec fn trim_end(s: Seq<char>) -> Seq<char>
    decreases s.len(),
{
    if s.len() > 0 && is_white_space(s.last()) {
        trim_end(s.drop_last())
    } else {
        s
    }
}

/// The text without leading and trailing whitespace, as `str::trim` leaves it.
pub open spec fn trim(s: Seq<char>) -> Seq<char> {
    trim_end(trim_start(s))
}

/// Whether every character of the text is whitespace.
pub open spec fn all_white_space(s: Seq<char>) -> bool {
    forall|i: int| 0 <= i < s.len() ==> is_white_space(#[trigger] s[i])
}

/// Whether every character of the text may stand in a campaign name.
pub open spec fn all_allowed(s: Seq<char>) -> bool {
    forall|i: int| 0 <= i < s.len() ==> is_allowed_char(#[trigger] s[i])
}

/// The message of a name that is all whitespace.
pub open spec fn whitespace_name_message() -> Seq<char> {
    "input may not be all whitespace"@
}

/// The message of a name with a character that is not allowed.
pub open spec fn invalid_character_message() -> Seq<char> {
    "Input contained invalid character"@
}

/// The message of a name that a stored campaign has.
pub open spec fn name_exists_message() -> Seq<char> {
    "Name already exists"@
}

/// The message of a folder that a stored campaign uses.
pub open spec fn path_in_use_message() -> Seq<char> {
    "Another campaign already uses this folder"@
}

/// The message of a working directory that cannot be had.
pub open spec fn working_dir_message() -> Seq<char> {
    "Could not get current working directory"@
}

/// The message of a folder that is the working directory.
pub open spec fn working_dir_path_message() -> Seq<char> {
    "Cannot use the current working directory as a folder for campaign images"@
}

/// A name that `valid_name` accepts against the stored campaigns.
pub open spec fn name_accepted(name: Seq<char>, list: Seq<Campaign>) -> bool {
    !all_white_space(trim(name)) && all_allowed(trim(name)) && !has_name(list, trim(name))
}

/// A stored campaign uses the folder.
pub open spec fn has_path(list: Seq<Campaign>, path: Seq<char>) -> bool {
    exists|i: int| 0 <= i < list.len() && #[trigger] list[i].path@ == path
}

/// Where the program runs.
pub enum WorkingDir {
    /// The working directory could not be had.
    Unavailable,
    /// The working directory is not valid Unicode.
    NotUnicode,
    /// The working directory.
    Path(String),
}

/// Positions of the first and last non-whitespace characters, as a range.
fn trim_bounds(v: &Vec<char>) -> (res: (usize, usize))
    ensures
        res.0 <= res.1 <= v@.len(),
        v@.subrange(res.0 as int, res.1 as int) == trim(v@),
{
    let mut start: usize = 0;
    assert(v@.skip(0) =~= v@);
    while start < v.len() && char_is_whitespace(v[start])
        invariant
            start <= v@.len(),
            trim_start(v@) == trim_start(v@.skip(start as int)),
        decreases v@.len() - start,
    {
        assert(v@.skip(start as int).skip(1) =~= v@.skip(start + 1));
        start = start + 1;
    }
    let mut end: usize = v.len();
    let ghost rest = v@.skip(start as int);
    assert(trim_start(rest) == rest);
    while end > start && char_is_whitespace(v[end - 1])
        invariant
            start <= end <= v@.len(),
            rest == v@.skip(start as int),
            trim_end(rest) == trim_end(v@.subrange(start as int, end as int)),
        decreases end,
    {
        assert(v@.subrange(start as int, end as int).drop_last() =~= v@.subrange(start as int, end - 1));
        end = end - 1;
    }
    assert(v@.skip(start as int) =~= v@.subrange(start as int, v@.len() as int));
    (start, end)
}

/// Check a name typed for a new campaign: once trimmed it must hold some
/// non-whitespace character, only allowed characters, and be no stored
/// campaign's name. The stored campaigns are only looked at when the first
/// two checks pass; an error reading them is passed on.
#[verifier::loop_isolation(false)]
pub fn valid_name(name: &str, campaign_list: Result<Vec<Campaign>, DragonDisplayError>) -> (res: Result<(), DragonDisplayError>)
    ensures
        all_white_space(trim(name@)) ==> (res matches Err(DragonDisplayError::InvalidName { msg })
            && msg@ == whitespace_name_message()),
        !all_white_space(trim(name@)) && !all_allowed(trim(name@)) ==> (res matches Err(
            DragonDisplayError::InvalidName { msg },
        ) && msg@ == invalid_character_message()),
        !all_white_space(trim(name@)) && all_allowed(trim(name@)) ==> match campaign_list {
            Err(e) => res == Err::<(), DragonDisplayError>(e),
            Ok(list) => if has_name(list@, trim(name@)) {
                res matches Err(DragonDisplayError::InvalidName { msg }) && msg@ == name_exists_message()
            } else {
                res is Ok
            },
        },
{
    let v = chars_of(name);
    let (start, end) = trim_bounds(&v);
    let ghost t = trim(name@);
    let mut i: usize = start;
    while i < end && char_is_whitespace(v[i])
        invariant
            start <= i <= end <= v@.len(),
            t == v@.subrange(start as int, end as int),
            forall|k: int| 0 <= k < i - start ==> is_white_space(#[trigger] t[k]),
        decreases end - i,
    {
        i = i + 1;
    }
    if i == end {
        return Err(DragonDisplayError::InvalidName { msg: String::from_str("input may not be all whitespace") });
    }
    assert(!is_white_space(t[i - start]));
    let mut j: usize = start;
    while j < end
        invariant
            start <= j <= end <= v@.len(),
            t == v@.subrange(start as int, end as int),
            forall|k: int| 0 <= k < j - start ==> is_allowed_char(#[trigger] t[k]),
        decreases end - j,
    {
        if !allowed_char(v[j]) {
            assert(!is_allowed_char(t[j - start]));
            return Err(DragonDisplayError::InvalidName { msg: String::from_str("Input contained invalid character") });
        }
        j = j + 1;
    }
    let list = match campaign_list {
        Ok(l) => l,
        Err(e) => {
            return Err(e);
        },
    };
    let trimmed = String::from_str(name.substring_char(start, end));
    let mut k: usize = 0;
    while k < list.len()
        invariant
            k <= list@.len(),
            trimmed@ == t,
            forall|m: int| 0 <= m < k ==> #[trigger] list@[m].name@ != t,
        decreases list@.len() - k,
    {
        if list[k].name == trimmed {
            return Err(DragonDisplayError::InvalidName { msg: String::from_str("Name already exists") });
        }
        k = k + 1;
    }
    Ok(())
}

/// Check a folder chosen for a new campaign: no stored campaign may use it and
/// it may not be the working directory. An error reading the stored campaigns
/// is passed on first.
#[verifier::loop_isolation(false)]
pub fn valid_path(
    path: &str,
    campaign_list: Result<Vec<Campaign>, DragonDisplayError>,
    current_dir: WorkingDir,
) -> (res: Result<(), DragonDisplayError>)
    ensures
        match campaign_list {
            Err(e) => res == Err::<(), DragonDisplayError>(e),
            Ok(list) => if has_path(list@, path@) {
                res matches Err(DragonDisplayError::InvalidPath { msg }) && msg@ == path_in_use_message()
            } else {
                match current_dir {
                    WorkingDir::Unavailable => res matches Err(DragonDisplayError::IOError { msg }) && msg@
                        == working_dir_message(),
                    WorkingDir::NotUnicode => res matches Err(DragonDisplayError::Other { msg }) && msg@
                        == working_dir_message(),
                    WorkingDir::Path(dir) => if dir@ == path@ {
                        res matches Err(DragonDisplayError::InvalidPath { msg }) && msg@
                            == working_dir_path_message()
                    } else {
                        res is Ok
                    },
                }
            },
        },
{
    let list = match campaign_list {
        Ok(l) => l,
        Err(e) => {
            return Err(e);
        },
    };
    let p = String::from_str(path);
    let mut k: usize = 0;
    while k < list.len()
        invariant
            k <= list@.len(),
            p@ == path@,
            forall|m: int| 0 <= m < k ==> #[trigger] list@[m].path@ != path@,
        decreases list@.len() - k,
    {
        if list[k].path == p {
            return Err(DragonDisplayError::InvalidPath { msg: String::from_str("Another campaign already uses this folder") });
        }
        k = k + 1;
    }
    match current_dir {
        WorkingDir::Unavailable => Err(DragonDisplayError::IOError { msg: String::from_str("Could not get current working directory") }),
        WorkingDir::NotUnicode => Err(DragonDisplayError::Other { msg: String::from_str("Could not get current working directory") }),
        WorkingDir::Path(dir) => {
            if dir == p {
                Err(DragonDisplayError::InvalidPath { msg: String::from_str("Cannot use the current working directory as a folder for campaign images") })
            } else {
                Ok(())
            }
        },
    }
}

} // verus!

verus! {

/// A campaign whose name `valid_name` accepted and whose folder `valid_path`
/// accepted can be written to a sound configuration that has room for it, and
/// the configuration stays sound.
pub proof fn lemma_validated_campaign_keeps_integrity(list: Seq<Campaign>, campaign: Campaign)
    requires
        integrity_holds(list),
        !has_duplicate_names(list),
        list.len() < MAX_CAMPAIGN_AMOUNT,
        name_accepted(campaign.name@, list),
        !has_path(list, campaign.path@),
    ensures
        integrity_holds(spec_after_write(list, campaign)),
        !has_duplicate_names(spec_after_write(list, campaign)),
{
    assert forall|k: int| 0 <= k < list.len() && #[trigger] list[k].name@ != campaign.name@ implies list[k].path@
        != campaign.path@ by {}
    lemma_write_keeps_integrity(list, campaign);
}

} // verus!

verus! {

/// The label of the last button of the form: a campaign without
/// synchronisation (choice 0) is finished there, one synchronised with Google
/// Drive goes on to connect the drive.
pub fn finish_label(sync_choice: u32) -> (res: &'static str)
    ensures
        sync_choice == 0 ==> res@ == "Finish"@,
        sync_choice != 0 ==> res@ == "Next"@,
{
    if sync_choice == 0 {
        "Finish"
    } else {
        "Next"
    }
}

/// The folder a campaign gets when the user does not choose one: a folder
/// named after the campaign in the working directory.
pub fn default_campaign_path(current_dir: WorkingDir, name: &str) -> (res: Result<String, DragonDisplayError>)
    ensures
        match current_dir {
            WorkingDir::Unavailable => res matches Err(DragonDisplayError::IOError { msg }) && msg@
                == working_dir_message(),
            WorkingDir::NotUnicode => res matches Err(DragonDisplayError::Other { msg }) && msg@
                == working_dir_message(),
            WorkingDir::Path(dir) => res matches Ok(p) && p@ == dir@ + "/"@ + name@,
        },
{
    match current_dir {
        WorkingDir::Unavailable => Err(DragonDisplayError::IOError { msg: String::from_str("Could not get current working directory") }),
        WorkingDir::NotUnicode => Err(DragonDisplayError::Other { msg: String::from_str("Could not get current working directory") }),
        WorkingDir::Path(dir) => {
            let mut p = dir;
            p.append("/");
            p.append(name);
            Ok(p)
        },
    }
}

/// The campaign the form produces, by the synchronisation chosen.
pub enum AddCampaignOutcome {
    /// A campaign without synchronisation, ready to be stored.
    CampaignNone(DdCampaign),
    /// A campaign synchronised with Google Drive, whose drive is still to be connected.
    CampaignGd(DdCampaign),
}

/// The campaign made of the name, the folder and the synchronisation chosen
/// (0: none, 1: Google Drive, with empty tokens and no folder yet).
pub fn chosen_campaign(name: String, path: String, sync_choice: u32) -> (res: AddCampaignOutcome)
    requires
        sync_choice < 2,
    ensures
        sync_choice == 0 ==> (res matches AddCampaignOutcome::CampaignNone(c) && c.name == Some(name)
            && c.path == Some(path) && c.sync_option is NoSync),
        sync_choice == 1 ==> (res matches AddCampaignOutcome::CampaignGd(c) && c.name == Some(name)
            && c.path == Some(path) && (c.sync_option matches SynchronizationOption::GoogleDrive {
            access_token,
            refresh_token,
            google_drive_sync_folder,
        } && access_token@.len() == 0 && refresh_token@.len() == 0
            && google_drive_sync_folder@.len() == 0)),
{
    if sync_choice == 0 {
        AddCampaignOutcome::CampaignNone(DdCampaign::new(name, path, SynchronizationOption::NoSync))
    } else {
        let sync_option = SynchronizationOption::GoogleDrive {
            access_token: String::new(),
            refresh_token: String::new(),
            google_drive_sync_folder: String::new(),
        };
        AddCampaignOutcome::CampaignGd(DdCampaign::new(name, path, sync_option))
    }
}

} // verus!
