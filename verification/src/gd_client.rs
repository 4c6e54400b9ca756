use base64::Engine;
use vstd::prelude::*;
use vstd::string::StringSliceAdditionalSpecFns;

use crate::errors::DragonDisplayError;
use crate::setup::{is_indexing_event, Token};
use crate::text::{
    chars_of, contains_string, find_last, has_prefix, has_suffix, last_occurrence,
    lemma_last_occurrence_unique, matches_at, occurs_at, subvec, views,
};

verus! {

broadcast use vstd::string::group_string_axioms;

/// The Google Drive permission that the program asks for.
pub const SCOPE: &'static str = "https://www.googleapis.com/auth/drive.readonly";

/// What Google's redirect to the local server starts with.
pub open spec fn state_prefix() -> Seq<char> {
    "/?state="@
}

/// What Google's redirect to the local server ends with.
pub open spec fn scope_suffix() -> Seq<char> {
    "&scope="@ + SCOPE@
}

/// What separates the state from the code in the redirect.
pub open spec fn code_marker() -> Seq<char> {
    "&code="@
}

/// The redirect without its prefix.
pub open spec fn after_state_prefix(request: Seq<char>) -> Seq<char> {
    request.skip(state_prefix().len() as int)
}

/// The redirect without its prefix and suffix.
pub open spec fn redirect_body(request: Seq<char>) -> Seq<char> {
    let rest = after_state_prefix(request);
    rest.take(rest.len() - scope_suffix().len())
}

/// The message of a redirect that lacks the scope.
pub open spec fn no_scope_message() -> Seq<char> {
    "The request gotten from google has unexpected format (no 'scope' found)"@
}

/// The message of a redirect that lacks the code.
pub open spec fn no_code_message() -> Seq<char> {
    "Could not find code in the google request"@
}

/// What the local server makes of the URL that Google redirects the browser to:
/// `None` where the URL is not a redirect (the server answers that it is still
/// listening), otherwise the state and code, or why they could not be read.
pub open spec fn spec_state_and_code(request: Seq<char>) -> Option<
    Result<(Seq<char>, Seq<char>), Seq<char>>,
> {
    if !has_prefix(request, state_prefix()) {
        None
    } else if !has_suffix(after_state_prefix(request), scope_suffix()) {
        Some(Err(no_scope_message()))
    } else {
        let body = redirect_body(request);
        match last_occurrence(body, code_marker()) {
            None => Some(Err(no_code_message())),
            Some(k) => Some(Ok((body.take(k), body.skip(k + code_marker().len())))),
        }
    }
}

/// Extract the state and code from a google response: the text between
/// `/?state=` and the last `&code=`, and the text between that and the final
/// `&scope=...`. A URL without the `/?state=` prefix gives `AddressInUse`.
pub fn get_state_and_code(request: &str) -> (res: Result<(String, String), DragonDisplayError>)
    ensures
        match spec_state_and_code(request@) {
            None => res matches Err(DragonDisplayError::AddressInUse),
            Some(Err(m)) => res matches Err(DragonDisplayError::InvalidData { msg }) && msg@ == m,
            Some(Ok((state, code))) => res matches Ok((s, c)) && s@ == state && c@ == code,
        },
{
    let r = chars_of(request);
    let prefix = chars_of("/?state=");
    proof {
        reveal_strlit("/?state=");
    }
    if !matches_at(&r, &prefix, 0) {
        return Err(DragonDisplayError::AddressInUse);
    }
    let mut suffix = chars_of("&scope=");
    let mut scope = chars_of(SCOPE);
    suffix.append(&mut scope);
    assert(suffix@ == scope_suffix());
    let ghost rest = after_state_prefix(request@);
    if suffix.len() > r.len() - prefix.len() || !matches_at(&r, &suffix, r.len() - suffix.len()) {
        proof {
            if rest.len() >= suffix@.len() {
                assert(rest.subrange(rest.len() - suffix@.len(), rest.len() as int) =~= r@.subrange(
                    r@.len() - suffix@.len(),
                    r@.len() as int,
                ));
            }
        }
        return Err(DragonDisplayError::InvalidData { msg: String::from_str("The request gotten from google has unexpected format (no 'scope' found)") });
    }
    proof {
        assert(rest.subrange(rest.len() - suffix@.len(), rest.len() as int) =~= r@.subrange(
            r@.len() - suffix@.len(),
            r@.len() as int,
        ));
    }
    let end = r.len() - suffix.len();
    let body = subvec(&r, prefix.len(), end);
    assert(body@ =~= redirect_body(request@));
    let marker = chars_of("&code=");
    proof {
        reveal_strlit("&code=");
    }
    match find_last(&body, &marker) {
        None => Err(DragonDisplayError::InvalidData { msg: String::from_str("Could not find code in the google request") }),
        Some(k) => {
            let state = request.substring_char(prefix.len(), prefix.len() + k);
            let code = request.substring_char(prefix.len() + k + marker.len(), end);
            assert(state@ =~= body@.take(k as int));
            assert(code@ =~= body@.skip(k + marker@.len()));
            Ok((String::from_str(state), String::from_str(code)))
        },
    }
}

/// What the local server does with a request: the state and code to hand on,
/// if the request carries them, and the text of the page it answers with.
pub fn redirect_reply(request: &str) -> (res: (Option<(String, String)>, &'static str))
    ensures
        match spec_state_and_code(request@) {
            Some(Ok((state, code))) => (res.0 matches Some((s, c)) && s@ == state && c@ == code)
                && res.1@ == "linked succesfully, you can close this page now!"@,
            None => res.0 is None && res.1@ == "sssshhhhh! I'm trying to listen!"@,
            Some(Err(_)) => res.0 is None && res.1@ == "The state or code given by google was invalid!"@,
        },
{
    match get_state_and_code(request) {
        Ok(state_and_code) => (Some(state_and_code), "linked succesfully, you can close this page now!"),
        Err(DragonDisplayError::AddressInUse) => (None, "sssshhhhh! I'm trying to listen!"),
        Err(_) => (None, "The state or code given by google was invalid!"),
    }
}

/// The URL that Google redirects the browser to for a given state and code.
pub open spec fn redirect_for(state: Seq<char>, code: Seq<char>) -> Seq<char> {
    state_prefix() + state + code_marker() + code + scope_suffix()
}

/// Reading the redirect for a state and a code gives back that state and that
/// code, whatever the state holds, provided `&code=` does not occur again after
/// the marker that precedes the code.
pub proof fn lemma_state_and_code_roundtrip(state: Seq<char>, code: Seq<char>)
    requires
        forall|k: int| 0 < k ==> !#[trigger] occurs_at(code_marker() + code, code_marker(), k),
    ensures
        spec_state_and_code(redirect_for(state, code)) == Some(
            Ok::<(Seq<char>, Seq<char>), Seq<char>>((state, code)),
        ),
{
    let r = redirect_for(state, code);
    let p = state_prefix();
    let m = code_marker();
    let x = scope_suffix();
    let tail = m + code;
    assert(r.subrange(0, p.len() as int) =~= p);
    let rest = after_state_prefix(r);
    let body = state + tail;
    assert(rest =~= body + x);
    assert(rest.subrange(rest.len() - x.len(), rest.len() as int) =~= x);
    assert(redirect_body(r) =~= body);
    let n = state.len() as int;
    assert(body.subrange(n, n + m.len()) =~= m);
    assert forall|j: int| n < j implies !#[trigger] occurs_at(body, m, j) by {
        if occurs_at(body, m, j) {
            assert(body.subrange(j, j + m.len()) =~= tail.subrange(j - n, j - n + m.len()));
            assert(occurs_at(tail, m, j - n));
        }
    }
    lemma_last_occurrence_unique(body, m, n);
    assert(body.take(n) =~= state);
    assert(body.skip(n + m.len()) =~= code);
}

} // verus!

verus! {

/// A file in a Google Drive folder.
pub struct DriveFile {
    pub id: String,
    pub name: String,
}

impl View for DriveFile {
    type V = (Seq<char>, Seq<char>);

    open spec fn view(&self) -> (Seq<char>, Seq<char>) {
        (self.id@, self.name@)
    }
}

/// The (id, name) pairs of a list of drive files.
pub open spec fn drive_views(files: Seq<DriveFile>) -> Seq<(Seq<char>, Seq<char>)> {
    files.map_values(|f: DriveFile| f@)
}

/// The names of a list of drive files.
pub open spec fn drive_names(files: Seq<(Seq<char>, Seq<char>)>) -> Seq<Seq<char>> {
    files.map_values(|f: (Seq<char>, Seq<char>)| f.1)
}

/// The drive files whose name is not among the local files, in drive order.
pub open spec fn spec_downloads(local: Seq<Seq<char>>, drive: Seq<(Seq<char>, Seq<char>)>) -> Seq<
    (Seq<char>, Seq<char>),
> {
    drive.filter(|f: (Seq<char>, Seq<char>)| !local.contains(f.1))
}

/// The local files whose name is not in the drive folder, in local order.
pub open spec fn spec_removals(local: Seq<Seq<char>>, drive: Seq<(Seq<char>, Seq<char>)>) -> Seq<
    Seq<char>,
> {
    local.filter(|n: Seq<char>| !drive_names(drive).contains(n))
}

/// What synchronising a local folder with a drive folder takes.
pub struct SyncPlan {
    /// The drive files to download, in drive order.
    pub downloads: Vec<DriveFile>,
    /// The local files to delete, in local order.
    pub removals: Vec<String>,
    /// The number of files the folder holds once the downloads are done.
    pub total: usize,
}

/// Decide which files of the drive folder must be downloaded (those whose name
/// no local file has) and which local files must be removed (those whose name
/// is not in the drive folder). The total counts the downloads and the local
/// files that are kept.
pub fn plan_get_and_remove(local: &Vec<String>, drive: &Vec<DriveFile>) -> (plan: SyncPlan)
    requires
        local@.len() + drive@.len() <= usize::MAX,
    ensures
        drive_views(plan.downloads@) == spec_downloads(views(local@), drive_views(drive@)),
        views(plan.removals@) == spec_removals(views(local@), drive_views(drive@)),
        plan.total == plan.downloads@.len() + local@.len() - plan.removals@.len(),
{
    let ghost lv = views(local@);
    let ghost dv = drive_views(drive@);
    let ghost pd = |f: (Seq<char>, Seq<char>)| !lv.contains(f.1);
    let mut downloads: Vec<DriveFile> = Vec::new();
    let mut total: usize = 0;
    let mut i: usize = 0;
    while i < drive.len()
        invariant
            i <= drive@.len(),
            lv == views(local@),
            dv == drive_views(drive@),
            pd == (|f: (Seq<char>, Seq<char>)| !lv.contains(f.1)),
            drive_views(downloads@) == dv.take(i as int).filter(pd),
            total == downloads@.len(),
            downloads@.len() <= i,
        decreases drive@.len() - i,
    {
        let present = contains_string(local, &drive[i].name);
        proof {
            reveal_with_fuel(Seq::filter, 1);
            assert(dv.take(i + 1).drop_last() =~= dv.take(i as int));
        }
        if !present {
            let f = DriveFile { id: drive[i].id.clone(), name: drive[i].name.clone() };
            downloads.push(f);
            total = total + 1;
            assert(drive_views(downloads@) =~= dv.take(i + 1).filter(pd));
        } else {
            assert(drive_views(downloads@) =~= dv.take(i + 1).filter(pd));
        }
        i = i + 1;
    }
    assert(dv.take(drive@.len() as int) =~= dv);
    let mut names: Vec<String> = Vec::new();
    let mut j: usize = 0;
    while j < drive.len()
        invariant
            j <= drive@.len(),
            dv == drive_views(drive@),
            views(names@) == drive_names(dv).take(j as int),
            names@.len() == j,
        decreases drive@.len() - j,
    {
        let ghost before = names@;
        names.push(drive[j].name.clone());
        proof {
            assert(dv[j as int] == drive@[j as int]@);
            assert forall|x: int| 0 <= x <= j implies views(names@)[x] == drive_names(dv)[x] by {
                if x < j {
                    assert(views(before)[x] == drive_names(dv).take(j as int)[x]);
                }
            }
        }
        j = j + 1;
        assert(views(names@) =~= drive_names(dv).take(j as int));
    }
    assert(views(names@) =~= drive_names(dv));
    let ghost dn = drive_names(dv);
    let ghost pr = |n: Seq<char>| !dn.contains(n);
    let mut removals: Vec<String> = Vec::new();
    let mut k: usize = 0;
    while k < local.len()
        invariant
            k <= local@.len(),
            lv == views(local@),
            views(names@) == dn,
            pr == (|n: Seq<char>| !dn.contains(n)),
            views(removals@) == lv.take(k as int).filter(pr),
            total == downloads@.len() + k - removals@.len(),
            removals@.len() <= k,
            downloads@.len() <= drive@.len(),
            local@.len() + drive@.len() <= usize::MAX,
        decreases local@.len() - k,
    {
        let on_drive = contains_string(&names, &local[k]);
        proof {
            reveal_with_fuel(Seq::filter, 1);
            assert(lv.take(k + 1).drop_last() =~= lv.take(k as int));
        }
        if !on_drive {
            removals.push(local[k].clone());
            assert(views(removals@) =~= lv.take(k + 1).filter(pr));
        } else {
            total = total + 1;
            assert(views(removals@) =~= lv.take(k + 1).filter(pr));
        }
        k = k + 1;
    }
    assert(lv.take(local@.len() as int) =~= lv);
    SyncPlan { downloads, removals, total }
}

} // verus!

verus! {

/// Once a plan's removals and downloads are carried out, the local folder holds
/// a file of a given name exactly when the drive folder does.
pub proof fn lemma_plan_synchronizes(
    local: Seq<Seq<char>>,
    drive: Seq<(Seq<char>, Seq<char>)>,
    name: Seq<char>,
)
    ensures
        ((local.contains(name) && !spec_removals(local, drive).contains(name)) || drive_names(
            spec_downloads(local, drive),
        ).contains(name)) <==> drive_names(drive).contains(name),
{
    broadcast use vstd::seq_lib::group_filter_ensures;

    let pd = |f: (Seq<char>, Seq<char>)| !local.contains(f.1);
    let dn = drive_names(drive);
    let pr = |n: Seq<char>| !dn.contains(n);
    let downloads = spec_downloads(local, drive);
    let removals = spec_removals(local, drive);
    if dn.contains(name) {
        let i = choose|i: int| 0 <= i < dn.len() && dn[i] == name;
        if !local.contains(name) {
            assert(pd(drive[i]));
            assert(downloads.contains(drive[i]));
            let j = choose|j: int| 0 <= j < downloads.len() && downloads[j] == drive[i];
            assert(drive_names(downloads)[j] == name);
        } else if removals.contains(name) {
            let j = choose|j: int| 0 <= j < removals.len() && removals[j] == name;
            assert(pr(removals[j]));
        }
    } else {
        if local.contains(name) {
            let i = choose|i: int| 0 <= i < local.len() && local[i] == name;
            assert(pr(local[i]));
            assert(removals.contains(local[i]));
        }
        if drive_names(downloads).contains(name) {
            let j = choose|j: int| 0 <= j < drive_names(downloads).len() && drive_names(downloads)[j] == name;
            assert(downloads.contains(downloads[j]));
            drive.lemma_filter_contains_rev(pd, downloads[j]);
            let i = choose|i: int| 0 <= i < drive.len() && drive[i] == downloads[j];
            assert(dn[i] == name);
        }
    }
}

} // verus!

verus! {

/// The character of the standard base64 alphabet for a six-bit value.
pub open spec fn base64_char(n: int) -> char {
    if n < 26 {
        ('A' as int + n) as char
    } else if n < 52 {
        ('a' as int + (n - 26)) as char
    } else if n < 62 {
        ('0' as int + (n - 52)) as char
    } else if n == 62 {
        '+'
    } else {
        '/'
    }
}

/// The standard base64 encoding (RFC 4648, with `=` padding) of the bytes:
/// each group of three bytes becomes four characters, and a last group of one
/// or two bytes is padded to four characters.
pub open spec fn spec_base64(b: Seq<u8>) -> Seq<char>
    decreases b.len(),
{
    if b.len() == 0 {
        Seq::<char>::empty()
    } else {
        let x = b[0] as int;
        let y = if b.len() > 1 { b[1] as int } else { 0 };
        let z = if b.len() > 2 { b[2] as int } else { 0 };
        let c0 = base64_char(x / 4);
        let c1 = base64_char((x % 4) * 16 + y / 16);
        let c2 = if b.len() > 1 { base64_char((y % 16) * 4 + z / 64) } else { '=' };
        let c3 = if b.len() > 2 { base64_char(z % 64) } else { '=' };
        let rest = if b.len() > 3 { spec_base64(b.skip(3)) } else { Seq::<char>::empty() };
        seq![c0, c1, c2, c3] + rest
    }
}

/// Calls `base64::Engine::encode` of the `STANDARD` engine, which encodes with
/// the standard alphabet and pads with `=`; the contract states that encoding.
/// The engine panics when the length of the encoding overflows `usize`, which
/// the `requires` rules out.
#[verifier::external_body]
fn base64_standard_encode(bytes: &[u8]) -> (res: String)
    requires
        (bytes@.len() / 3 + 1) * 4 <= usize::MAX,
    ensures
        res@ == spec_base64(bytes@),
{
    base64::engine::general_purpose::STANDARD.encode(bytes)
}

/// The value the Google Drive client reads its client secret from: the
/// contents of `client_secret.json` (as UTF-8 bytes), encoded in standard base64.
pub fn encoded_client_secret(contents: &str) -> (res: String)
    requires
        (contents.spec_bytes().len() / 3 + 1) * 4 <= usize::MAX,
    ensures
        res@ == spec_base64(contents.spec_bytes()),
{
    base64_standard_encode(contents.as_bytes())
}

/// The address a drive file's contents are downloaded from.
pub fn download_url(id: &str) -> (res: String)
    ensures
        res@ == "https://www.googleapis.com/drive/v3/files/"@ + id@ + "?alt=media"@,
{
    String::from_str("https://www.googleapis.com/drive/v3/files/").concat(id).concat("?alt=media")
}

/// The query for every folder of a drive that is not in the bin.
pub fn all_folders_query() -> (res: String)
    ensures
        res@ == "mimeType = 'application/vnd.google-apps.folder' and trashed = false"@,
{
    String::from_str("mimeType = 'application/vnd.google-apps.folder' and trashed = false")
}

/// The query for the folders directly inside a folder that are not in the bin.
pub fn child_folders_query(folder_id: &str) -> (res: String)
    ensures
        res@ == "mimeType = 'application/vnd.google-apps.folder' and '"@ + folder_id@
            + "' in parents and trashed = false"@,
{
    String::from_str("mimeType = 'application/vnd.google-apps.folder' and '").concat(folder_id).concat(
        "' in parents and trashed = false",
    )
}

/// The query for the files (not folders) directly inside a folder that are not in the bin.
pub fn folder_files_query(folder_id: &str) -> (res: String)
    ensures
        res@ == "mimeType != 'application/vnd.google-apps.folder' and '"@ + folder_id@
            + "' in parents and trashed = false"@,
{
    String::from_str("mimeType != 'application/vnd.google-apps.folder' and '").concat(folder_id).concat(
        "' in parents and trashed = false",
    )
}

} // verus!

verus! {

/// A folder of a Google Drive, with the ids of its child folders once they are known.
pub struct GoogleFolder {
    pub id: String,
    pub name: String,
    pub children: Vec<String>,
}

/// Two folders with the same id, name and children.
pub open spec fn same_folder(a: GoogleFolder, b: GoogleFolder) -> bool {
    a.id == b.id && a.name == b.name && a.children@ == b.children@
}

impl Clone for GoogleFolder {
    fn clone(&self) -> (res: Self)
        ensures
            same_folder(res, *self),
    {
        let children = self.children.clone();
        proof {
            assert(children@ =~= self.children@);
        }
        GoogleFolder { id: self.id.clone(), name: self.name.clone(), children }
    }
}

impl GoogleFolder {
    /// A folder whose children are not known yet.
    pub fn new(id: String, name: String) -> (res: Self)
        ensures
            res.id == id,
            res.name == name,
            res.children@.len() == 0,
    {
        GoogleFolder { id, name, children: Vec::new() }
    }

    /// Record the ids of the child folders.
    pub fn set_children(&mut self, children: Vec<String>)
        ensures
            final(self).id == old(self).id,
            final(self).name == old(self).name,
            final(self).children == children,
    {
        self.children = children;
    }
}

/// What the Google Drive client reports to the window that started it.
pub enum GdClientEvent {
    Url { url: String },
    Error { msg: String, fatal: bool },
    Accesstoken { token: Token },
    Totalfolders { total: usize },
    Childrenfolders { parent: GoogleFolder, children: usize },
    Folder { folder: GoogleFolder },
    DownloadFile { id: String, name: String },
    FileDownloaded,
    FailedFiles { files: Vec<String> },
    Finished,
    Reconnect,
    Refresh,
}

/// The event for the drive file as a folder whose children are not known yet.
pub open spec fn is_folder_event(event: GdClientEvent, file: DriveFile) -> bool {
    event matches GdClientEvent::Folder { folder } && folder.id == file.id && folder.name == file.name
        && folder.children@.len() == 0
}

/// What the client reports once the folders of a drive are listed: each
/// folder, then their number; `None` (the request failed) asks for the tokens
/// to be refreshed.
pub fn total_folders_events(listing: Option<Vec<DriveFile>>) -> (events: Vec<GdClientEvent>)
    ensures
        match listing {
            None => events@.len() == 1 && events@[0] is Refresh && is_indexing_event(events@[0]),
            Some(files) => {
                &&& forall|i: int| 0 <= i < events@.len() ==> is_indexing_event(#[trigger] events@[i])
                &&& events@.len() == files@.len() + 1
                &&& forall|i: int| 0 <= i < files@.len() ==> is_folder_event(#[trigger] events@[i], files@[i])
                &&& events@.last() == (GdClientEvent::Totalfolders { total: files@.len() as usize })
            },
        },
{
    let mut events: Vec<GdClientEvent> = Vec::new();
    match listing {
        None => {
            events.push(GdClientEvent::Refresh);
        },
        Some(files) => {
            let total = files.len();
            let mut i: usize = 0;
            while i < files.len()
                invariant
                    i <= files@.len(),
                    events@.len() == i,
                    forall|k: int| 0 <= k < i ==> is_folder_event(#[trigger] events@[k], files@[k]),
                decreases files@.len() - i,
            {
                events.push(
                    GdClientEvent::Folder {
                        folder: GoogleFolder::new(files[i].id.clone(), files[i].name.clone()),
                    },
                );
                i = i + 1;
            }
            events.push(GdClientEvent::Totalfolders { total });
        },
    }
    events
}

/// The event that reports a folder with the children the drive listed for it.
pub open spec fn is_children_event(event: GdClientEvent, folder: GoogleFolder, files: Seq<DriveFile>) -> bool {
    event matches GdClientEvent::Childrenfolders { parent, children } && children == files.len()
        && parent.id == folder.id && parent.name == folder.name && parent.children@.len() == files.len()
        && forall|i: int| 0 <= i < files.len() ==> #[trigger] parent.children@[i] == files[i].id
}

/// What the client reports once the children of a folder are listed: the
/// folder with its children's ids, and their number; `None` (the request
/// failed) asks for the tokens to be refreshed.
pub fn folder_listed(folder: GoogleFolder, listing: Option<Vec<DriveFile>>) -> (event: GdClientEvent)
    ensures
        is_indexing_event(event),
        match listing {
            None => event is Refresh,
            Some(files) => is_children_event(event, folder, files@),
        },
{
    match listing {
        None => GdClientEvent::Refresh,
        Some(files) => {
            let mut ids: Vec<String> = Vec::new();
            let mut i: usize = 0;
            while i < files.len()
                invariant
                    i <= files@.len(),
                    ids@.len() == i,
                    forall|k: int| 0 <= k < i ==> #[trigger] ids@[k] == files@[k].id,
                decreases files@.len() - i,
            {
                ids.push(files[i].id.clone());
                i = i + 1;
            }
            let amount = ids.len();
            let mut parent = folder;
            parent.set_children(ids);
            GdClientEvent::Childrenfolders { parent, children: amount }
        },
    }
}

/// One step of listing the children of the folders still to be listed. With
/// none left, the run is finished. Otherwise the last of them is taken off,
/// and `listing` is what the drive listed for it: the folder is reported with
/// its children, or, where the request failed, the tokens must be refreshed
/// and the run stops. The second result says whether the run is over.
pub fn list_step(pending: &mut Vec<GoogleFolder>, listing: Option<Vec<DriveFile>>) -> (res: (
    Vec<GdClientEvent>,
    bool,
))
    ensures
        forall|i: int| 0 <= i < res.0@.len() ==> is_indexing_event(#[trigger] res.0@[i]),
        old(pending)@.len() == 0 ==> res.0@ == seq![GdClientEvent::Finished] && res.1 && final(pending)@
            == old(pending)@,
        old(pending)@.len() > 0 ==> {
            &&& final(pending)@ == old(pending)@.drop_last()
            &&& res.0@.len() == 1
            &&& match listing {
                None => res.0@[0] is Refresh && res.1,
                Some(files) => is_children_event(res.0@[0], old(pending)@.last(), files@) && !res.1,
            }
        },
{
    match pending.pop() {
        None => (vec![GdClientEvent::Finished], true),
        Some(folder) => {
            let stop = listing.is_none();
            (vec![folder_listed(folder, listing)], stop)
        },
    }
}

/// What the client reports once it tried to refresh the tokens: the new
/// tokens, or, when that failed, that the drive must be connected again.
pub fn refreshed(result: Option<Token>) -> (event: GdClientEvent)
    ensures
        is_indexing_event(event),
        match result {
            Some(token) => event == (GdClientEvent::Accesstoken { token }),
            None => event is Reconnect,
        },
{
    match result {
        Some(token) => GdClientEvent::Accesstoken { token },
        None => GdClientEvent::Reconnect,
    }
}

/// How downloading one file went.
pub enum DownloadOutcome {
    /// The request for the file got no answer.
    RequestFailed,
    /// The answer came but the file could not be written.
    WriteFailed,
    /// The file is written.
    Downloaded,
}

/// The files that could not be written so far in a run of downloads.
pub struct DownloadProgress {
    pub failed_files: Vec<String>,
}

impl DownloadProgress {
    /// A run of downloads in which nothing failed yet.
    pub fn new() -> (res: Self)
        ensures
            res.failed_files@.len() == 0,
    {
        DownloadProgress { failed_files: Vec::new() }
    }

    /// Take note of how downloading a file went and say what to report, and
    /// whether the run stops: a failed request stops the run and asks for the
    /// tokens to be refreshed, a file that could not be written is noted and
    /// nothing is reported, a written file is reported.
    pub fn record(&mut self, name: String, outcome: DownloadOutcome) -> (res: (Option<GdClientEvent>, bool))
        ensures
            res.1 == (outcome is RequestFailed),
            match outcome {
                DownloadOutcome::RequestFailed => res.0 == Some(GdClientEvent::Refresh)
                    && final(self).failed_files == old(self).failed_files,
                DownloadOutcome::WriteFailed => res.0 is None && final(self).failed_files@
                    == old(self).failed_files@.push(name),
                DownloadOutcome::Downloaded => res.0 == Some(GdClientEvent::FileDownloaded)
                    && final(self).failed_files == old(self).failed_files,
            },
    {
        match outcome {
            DownloadOutcome::RequestFailed => (Some(GdClientEvent::Refresh), true),
            DownloadOutcome::WriteFailed => {
                self.failed_files.push(name);
                (None, false)
            },
            DownloadOutcome::Downloaded => (Some(GdClientEvent::FileDownloaded), false),
        }
    }

    /// What to report once every file was tried: the files that could not be
    /// written, if any, then that the run is finished.
    pub fn finish(self) -> (events: Vec<GdClientEvent>)
        ensures
            self.failed_files@.len() == 0 ==> events@ == seq![GdClientEvent::Finished],
            self.failed_files@.len() > 0 ==> events@ == seq![
                GdClientEvent::FailedFiles { files: self.failed_files },
                GdClientEvent::Finished,
            ],
    {
        let mut events: Vec<GdClientEvent> = Vec::new();
        if self.failed_files.len() > 0 {
            events.push(GdClientEvent::FailedFiles { files: self.failed_files });
        }
        events.push(GdClientEvent::Finished);
        events
    }
}

} // verus!
