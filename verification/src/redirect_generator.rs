//! The page that sends a browser on to another URL.

use vstd::prelude::*;
use vstd::string::StringSliceAdditionalSpecFns;
use vstd::utf8::encode_utf8;

verus! {

/// The text of the page up to the first place where the URL stands.
pub open spec fn page_head() -> Seq<char> {
    "<!DOCTYPE html>\n<html>\n<head>\n    <meta charset=\"utf-8\">\n    <meta http-equiv=\"refresh\" content=\"0; url="@
}

/// The text of a page that redirects to `url`: by a refresh, by a script,
/// and with a link for the reader.
pub open spec fn redirect_page(url: Seq<char>) -> Seq<char> {
    page_head() + url + "\">\n    <title>Redirect</title>\n    <script>window.location.href = \""@
        + url + "\";</script>\n</head>\n<body>\n    <p>Redirecting you to <a href=\""@ + url
        + "\">"@ + url + "</a></p>\n</body>\n</html>"@
}

/// Writes the page that redirects to `target_url`, as UTF-8. The URL is
/// put in as it is.
pub fn generate_redirect_html(target_url: &str) -> (page: Vec<u8>)
    ensures
        page@ == encode_utf8(redirect_page(target_url@)),
{
    let mut text = String::from_str(
        "<!DOCTYPE html>\n<html>\n<head>\n    <meta charset=\"utf-8\">\n    <meta http-equiv=\"refresh\" content=\"0; url=",
    );
    text.append(target_url);
    text.append("\">\n    <title>Redirect</title>\n    <script>window.location.href = \"");
    text.append(target_url);
    text.append("\";</script>\n</head>\n<body>\n    <p>Redirecting you to <a href=\"");
    text.append(target_url);
    text.append("\">");
    text.append(target_url);
    text.append("</a></p>\n</body>\n</html>");
    assert(text@ =~= redirect_page(target_url@));
    text.as_str().as_bytes_vec()
}

} // verus!
