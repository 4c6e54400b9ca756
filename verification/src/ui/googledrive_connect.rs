use vstd::prelude::*;

verus! {

/// The text the connect window opens with: an expired session is announced
/// as such.
pub open spec fn spec_connect_message(reconnect: bool) -> Seq<char> {
    if reconnect {
        "Google Drive session is expired, please reconnect to continue using google drive synchronization."@
    } else {
        "In order to use Google Drive synchronization you need to give Dragon-Display permission to connect to your Google Account"@
    }
}

/// The text the connect window opens with.
pub fn connect_message(reconnect: bool) -> (res: String)
    ensures
        res@ == spec_connect_message(reconnect),
{
    if reconnect {
        String::from_str("Google Drive session is expired, please reconnect to continue using google drive synchronization.")
    } else {
        String::from_str("In order to use Google Drive synchronization you need to give Dragon-Display permission to connect to your Google Account")
    }
}

/// The text shown with the link to the consent page.
pub fn url_message(url: &str) -> (res: String)
    ensures
        res@ == "If the browser does not open automatically, copy paste the following link into your browser: "@ + url@,
{
    String::from_str("If the browser does not open automatically, copy paste the following link into your browser: ").concat(url)
}

} // verus!
