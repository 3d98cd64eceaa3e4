use twitarc::config::{Config, DriverConfig, FetchConfig, TwitterConfig};
use twitarc::post::{
    get_post, get_recent_posts_from_user, get_recent_posts_from_user_start, page_names_user,
    post_links, posts_from_links, status_link, PostsNext,
};
use twitarc::session::{Command, Reply};
use twitarc::users::FetchError;

fn config(max_links: usize, max_retries: usize) -> Config {
    Config {
        fetch_config: FetchConfig {
            max_links_per_fetch: max_links,
            max_concurrent_users: 1,
            max_sessions_per_user: 1,
            fetch_username: "me".to_string(),
            max_retries,
            users_from_following_retry_delay: 1,
        },
        driver_config: DriverConfig { driver_count: 1, base_port: 4444 },
        twitter_config: TwitterConfig::new("c".to_string(), None, None, vec![], vec![]),
    }
}

fn articles(links: &[&str]) -> String {
    let body: String = links
        .iter()
        .map(|l| format!("<article><a href=\"{}\">post</a><a>bare</a></article>", l))
        .collect();
    format!(
        "<html><body><div data-testid=\"UserName\">Jack @jack</div>\
         <a href=\"/outside/status/9\">outside</a>{}</body></html>",
        body
    )
}

#[test]
fn status_link_is_user_status_number() {
    assert!(status_link("/jack/status/123"));
    assert!(status_link("/j_4/status/0"));
    assert!(!status_link("/jack/status/"));
    assert!(!status_link("/jack/status/12a"));
    assert!(!status_link("/jack/status/123/photo/1"));
    assert!(!status_link("https://twitter.com/jack/status/123"));
    assert!(!status_link("//status/123"));
    assert!(!status_link("/jack/likes"));
    assert!(!status_link(""));
}

#[test]
fn post_links_are_the_status_links_inside_articles() {
    let page = "<html><body><a href=\"/out/status/1\">out</a>\
        <article><a href=\"/jack/status/2\">a</a><div><a href=\"/jack\">profile</a>\
        <a href=\"/other/status/3\">b</a></div></article>\
        <article><a href=\"/jack/status/2\">again</a><a href=\"/jack/status/4\">c</a></article>\
        </body></html>";
    assert_eq!(
        post_links(page),
        Some(vec![
            "/jack/status/2".to_string(),
            "/other/status/3".to_string(),
            "/jack/status/2".to_string(),
            "/jack/status/4".to_string(),
        ])
    );
    assert_eq!(post_links("<html></html>"), Some(vec![]));
}

#[test]
fn name_element_is_found_without_ascii_case() {
    assert_eq!(page_names_user("<div data-testid=\"UserName\">x</div>"), Some(true));
    assert_eq!(page_names_user("<div DATA-TESTID=\"username\">x</div>"), Some(true));
    assert_eq!(page_names_user("<span data-testid=\"UserName\">x</span>"), Some(false));
    assert_eq!(page_names_user("<div data-testid=\"UserNames\">x</div>"), Some(false));
    assert_eq!(page_names_user(""), Some(false));
}

#[test]
fn post_download_is_not_there_yet() {
    assert_eq!(get_post("/jack/status/1"), Err(FetchError::PostsUnimplemented));
}

#[test]
fn posts_behind_links_are_the_first_links_error() {
    assert_eq!(posts_from_links(&vec![], "/jack"), Ok(vec![]));
    assert_eq!(
        posts_from_links(&vec!["/jack/status/1".to_string(), "/x/status/2".to_string()], "/jack"),
        Err(FetchError::PostsUnimplemented)
    );
    assert_eq!(
        posts_from_links(&vec!["/x/status/2".to_string(), "/jack/status/1".to_string()], "/jack"),
        Err(FetchError::RetweetsUnsupported)
    );
}

fn drive(config: &Config, mut pages: Vec<String>) -> (Vec<Command>, Result<Vec<()>, FetchError>) {
    let (mut state, mut command) = get_recent_posts_from_user_start("jack");
    let mut asked = Vec::new();
    loop {
        let reply = match &command {
            Command::Source => Reply::Text(pages.remove(0)),
            _ => Reply::Done,
        };
        asked.push(command);
        match get_recent_posts_from_user(config, "jack", state, reply) {
            PostsNext::Finished(result) => return (asked, result),
            PostsNext::Perform(next, then) => {
                state = next;
                command = then;
            }
        }
    }
}

#[test]
fn recent_posts_are_harvested_until_enough_end_with_an_own_post() {
    let pages = vec![
        articles(&[]),
        articles(&["/jack/status/1"]),
        articles(&["/jack/status/1", "/other/status/2"]),
        articles(&["/other/status/2", "/jack/status/3"]),
    ];
    let (asked, result) = drive(&config(2, 5), pages);
    assert_eq!(result, Err(FetchError::PostsUnimplemented));
    let scroll = Command::Execute { script: "window.scrollBy(0,300);".to_string() };
    assert_eq!(
        asked,
        vec![
            Command::Goto { url: "https://twitter.com/jack".to_string() },
            Command::Sleep { secs: 4 },
            Command::Source,
            scroll.clone(),
            Command::Sleep { secs: 1 },
            Command::Source,
            scroll.clone(),
            Command::Sleep { secs: 1 },
            Command::Source,
            scroll.clone(),
            Command::Sleep { secs: 1 },
            Command::Source,
        ]
    );
}

#[test]
fn recent_posts_starting_with_a_retweet_are_refused() {
    let pages = vec![articles(&[]), articles(&["/other/status/2", "/jack/status/3"])];
    let (_, result) = drive(&config(2, 5), pages);
    assert_eq!(result, Err(FetchError::RetweetsUnsupported));
}

#[test]
fn recent_posts_of_a_still_profile_are_none() {
    let pages = vec![articles(&[]), articles(&[]), articles(&[])];
    let (asked, result) = drive(&config(2, 2), pages);
    assert_eq!(result, Ok(vec![]));
    assert_eq!(asked[4], Command::Sleep { secs: 1 });
    assert_eq!(asked[7], Command::Sleep { secs: 2 });
    assert_eq!(asked.len(), 9);
}

#[test]
fn recent_posts_need_the_name_element() {
    let (asked, result) = drive(&config(2, 2), vec!["<html><body></body></html>".to_string()]);
    assert_eq!(result, Err(FetchError::NoUsernameElement));
    assert_eq!(asked.len(), 3);
}

#[test]
fn recent_posts_with_no_minimum_need_no_scrolling() {
    let (asked, result) = drive(&config(0, 2), vec![articles(&[])]);
    assert_eq!(result, Ok(vec![]));
    assert_eq!(asked.len(), 3);
}

#[test]
fn recent_posts_fail_with_their_commands() {
    let (state, _) = get_recent_posts_from_user_start("jack");
    assert_eq!(
        get_recent_posts_from_user(&config(2, 2), "jack", state, Reply::Failed),
        PostsNext::Finished(Err(FetchError::RemoteFailed))
    );
}
