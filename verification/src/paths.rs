//! Plain-text endpoints kept from the server's early scaffolding.

use vstd::prelude::*;
use vstd::string::*;

use crate::guard::auth::Auth;

verus! {

/// Describe the file addressed by an upload path. The filename is wrapped
/// in double quotes, the way a path's debug form prints it.
pub fn view_upload(filename: String) -> (r: String)
    ensures
        r@ == "FILE\n\nFILENAME: \""@ + filename@ + "\""@,
{
    let mut s = String::from_str("FILE\n\nFILENAME: \"");
    s.append(filename.as_str());
    s.append("\"");
    s
}

/// Acknowledge an authorized upload request.
pub fn make_upload(_auth: &Auth) -> (r: String)
    ensures
        r@ == "you will upload"@,
{
    String::from_str("you will upload")
}

/// Describe the redirect addressed by a short-url path.
pub fn redirect_short_url(id: String) -> (r: String)
    ensures
        r@ == "URL REDIRECT\n\nID: "@ + id@,
{
    let mut s = String::from_str("URL REDIRECT\n\nID: ");
    s.append(id.as_str());
    s
}

} // verus!
