//! The outbound request: its URL and its session cookie.

use vstd::prelude::*;
use vstd::string::*;

verus! {

/// The cookie that carries session credential `session_id`.
pub open spec fn cookie_of(session_id: Seq<char>) -> Seq<char> {
    "PHPSESSID="@ + session_id
}

/// The URL that asks the endpoint at `path` for the file `file_id`.
pub open spec fn url_of(path: Seq<char>, file_id: Seq<char>) -> Seq<char> {
    path + "?fileId="@ + file_id
}

/// The cookie header value for the session credential `session_id`.
pub fn make_php_session_cookie(session_id: &str) -> (r: String)
    ensures
        r@ == cookie_of(session_id@),
{
    let mut cookie = "PHPSESSID=".to_owned();
    cookie.append(session_id);
    cookie
}

/// The URL for file `file_id` under the endpoint `path`.
pub fn make_request(path: &str, file_id: &str) -> (r: String)
    ensures
        r@ == url_of(path@, file_id@),
{
    let mut url = path.to_owned();
    url.append("?fileId=");
    url.append(file_id);
    url
}

} // verus!
