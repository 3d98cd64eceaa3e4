//! Absolute links to profiles and posts.

use crate::text::starts_with;
use vstd::prelude::*;
use vstd::string::StringExecFns;

verus! {

/// The site's origin, scheme included.
pub open spec fn site_origin() -> Seq<char> {
    "https://twitter.com"@
}

/// The site's host name, as it appears in links without a scheme.
pub open spec fn site_host() -> Seq<char> {
    "twitter.com"@
}

/// The scheme put in front of links that start with the host name.
pub open spec fn scheme_prefix() -> Seq<char> {
    "https://"@
}

/// The absolute form of a post link: unchanged where it starts with the origin,
/// the scheme added where it starts with the host, the origin added otherwise.
pub open spec fn post_full_link(link: Seq<char>) -> Seq<char> {
    if site_origin().is_prefix_of(link) {
        link
    } else if site_host().is_prefix_of(link) {
        scheme_prefix() + link
    } else {
        site_origin() + link
    }
}

/// The profile link of a user: the origin, a slash and the user's name.
pub open spec fn user_link(username: Seq<char>) -> Seq<char> {
    "https://twitter.com/"@ + username
}

pub fn get_post_full_link(link: &str) -> (full: String)
    ensures
        full@ == post_full_link(link@),
{
    if starts_with(link, "https://twitter.com") {
        link.to_owned()
    } else if starts_with(link, "twitter.com") {
        String::from_str("https://").concat(link)
    } else {
        String::from_str("https://twitter.com").concat(link)
    }
}

pub fn get_user_link(username: &str) -> (link: String)
    ensures
        link@ == user_link(username@),
{
    String::from_str("https://twitter.com/").concat(username)
}

} // verus!
