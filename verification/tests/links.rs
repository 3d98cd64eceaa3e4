use twitarc::links::{get_post_full_link, get_user_link};

#[test]
fn post_link_with_origin_is_kept() {
    assert_eq!(get_post_full_link("https://twitter.com/a/status/1"), "https://twitter.com/a/status/1");
}

#[test]
fn post_link_with_host_gets_scheme() {
    assert_eq!(get_post_full_link("twitter.com/a/status/1"), "https://twitter.com/a/status/1");
}

#[test]
fn post_link_with_path_gets_origin() {
    assert_eq!(get_post_full_link("/a/status/1"), "https://twitter.com/a/status/1");
}

#[test]
fn user_link_is_origin_and_name() {
    assert_eq!(get_user_link("jack"), "https://twitter.com/jack");
}
