use fantoccini::cookies::Cookie;
use twitarc::auth::{
    auth, auth_start, select_token, set_auth_cookie, set_auth_cookie_start, AuthError,
    LoginNext, LoginState, RestoreNext, RestoreState,
};
use twitarc::config::TwitterConfig;
use twitarc::session::{Command, Reply, SessionToken};

fn config() -> TwitterConfig {
    TwitterConfig::new(
        "auth.cache".to_string(),
        Some("someone".to_string()),
        Some("secret".to_string()),
        vec![],
        vec![],
    )
}

fn token(name: &str, value: &str) -> SessionToken {
    SessionToken {
        name: name.to_string(),
        value: value.to_string(),
        text: Cookie::new(name.to_string(), value.to_string()).to_string(),
    }
}

/// What stands in for the browser and the cache file in these tests.
struct World {
    cache: Option<String>,
    jar: Vec<SessionToken>,
    pages: Vec<String>,
    after_login: Vec<SessionToken>,
    asked: Vec<Command>,
}

impl World {
    fn answer(&mut self, command: &Command) -> Reply {
        self.asked.push(command.clone());
        match command {
            Command::ReadCache => match &self.cache {
                Some(contents) => Reply::Text(contents.clone()),
                None => Reply::Missing,
            },
            Command::WriteCache { contents } => {
                self.cache = Some(contents.clone());
                Reply::Done
            }
            Command::DiscardCache => {
                self.cache = None;
                Reply::Done
            }
            Command::DeleteCookies => {
                self.jar.clear();
                Reply::Done
            }
            Command::AddCookie { token } => {
                self.jar.push(token.clone());
                Reply::Done
            }
            Command::GetCookies => Reply::Cookies(self.after_login.clone()),
            Command::Source => Reply::Text(self.pages.remove(0)),
            _ => Reply::Done,
        }
    }

    fn logins(&self) -> usize {
        self.asked
            .iter()
            .filter(|c| **c == Command::Goto { url: "https://twitter.com/".to_string() })
            .count()
    }
}

fn restore(world: &mut World) -> Result<(), AuthError> {
    let config = config();
    let (mut state, mut command) = set_auth_cookie_start();
    loop {
        let reply = world.answer(&command);
        match set_auth_cookie(&config, state, reply) {
            RestoreNext::Finished(result) => return result,
            RestoreNext::Perform(next, then) => {
                state = next;
                command = then;
            }
        }
    }
}

#[test]
fn cached_token_is_installed_without_a_login() {
    let cached = "auth_token=XYZ; Domain=example.com";
    let mut world = World {
        cache: Some(cached.to_string()),
        jar: vec![token("old", "1"), token("guest", "2")],
        pages: vec![],
        after_login: vec![],
        asked: vec![],
    };
    assert_eq!(restore(&mut world), Ok(()));
    assert_eq!(world.logins(), 0);
    assert_eq!(
        world.jar,
        vec![SessionToken {
            name: "auth_token".to_string(),
            value: "XYZ".to_string(),
            text: cached.to_string(),
        }]
    );
    let installed = Cookie::parse(world.jar[0].text.clone()).unwrap();
    assert_eq!(installed.name(), "auth_token");
    assert_eq!(installed.value(), "XYZ");
    assert_eq!(installed.domain(), Some("example.com"));
    assert_eq!(
        world.asked,
        vec![
            Command::ReadCache,
            Command::Goto { url: "https://twitter.com".to_string() },
            Command::DeleteCookies,
            Command::AddCookie { token: world.jar[0].clone() },
            Command::Refresh,
        ]
    );
    assert_eq!(world.cache, Some(cached.to_string()));
}

#[test]
fn missing_cache_is_filled_by_one_login() {
    let fresh = Cookie::build(("auth_token", "abc123")).domain("twitter.com").secure(true).build();
    let mut world = World {
        cache: None,
        jar: vec![],
        pages: vec!["<html>welcome</html>".to_string(), "<html>password</html>".to_string()],
        after_login: vec![
            token("guest_id", "v1"),
            SessionToken {
                name: fresh.name().to_string(),
                value: fresh.value().to_string(),
                text: fresh.to_string(),
            },
            token("ct0", "zzz"),
        ],
        asked: vec![],
    };
    assert_eq!(restore(&mut world), Ok(()));
    assert_eq!(world.logins(), 1);
    let contents = world.cache.clone().expect("a cached token");
    let parsed = Cookie::parse(contents.clone()).unwrap();
    assert_eq!(parsed.name(), "auth_token");
    assert_eq!(parsed.value(), "abc123");
    assert_eq!(SessionToken::parse(&contents).unwrap().name, "auth_token");
    assert_eq!(world.asked.last(), Some(&Command::WriteCache { contents }));

    assert_eq!(restore(&mut world), Ok(()));
    assert_eq!(world.logins(), 1);
    assert_eq!(world.jar.len(), 1);
    assert_eq!(world.jar[0].value, "abc123");
}

#[test]
fn cache_that_is_no_cookie_is_discarded() {
    let mut world = World {
        cache: Some("no cookie at all".to_string()),
        jar: vec![],
        pages: vec![],
        after_login: vec![],
        asked: vec![],
    };
    assert_eq!(restore(&mut world), Err(AuthError::CacheCorrupt));
    assert_eq!(world.cache, None);
    assert_eq!(world.asked, vec![Command::ReadCache, Command::DiscardCache]);
}

#[test]
fn failed_restore_discards_the_cache() {
    let config = config();
    let cached = SessionToken::parse("auth_token=XYZ").unwrap();
    for state in [
        RestoreState::Navigating(cached.clone()),
        RestoreState::Clearing(cached.clone()),
        RestoreState::Installing,
        RestoreState::Reloading,
    ] {
        let next = set_auth_cookie(&config, state, Reply::Failed);
        assert_eq!(
            next,
            RestoreNext::Perform(
                RestoreState::Discarding(AuthError::RemoteFailed),
                Command::DiscardCache
            )
        );
    }
    assert_eq!(
        set_auth_cookie(&config, RestoreState::Discarding(AuthError::RemoteFailed), Reply::Done),
        RestoreNext::Finished(Err(AuthError::RemoteFailed))
    );
}

#[test]
fn unreadable_cache_is_an_error() {
    assert_eq!(
        set_auth_cookie(&config(), RestoreState::ReadingCache, Reply::Failed),
        RestoreNext::Finished(Err(AuthError::CacheUnreadable))
    );
}

#[test]
fn token_that_cannot_be_cached_is_an_error() {
    assert_eq!(
        set_auth_cookie(&config(), RestoreState::Storing, Reply::Failed),
        RestoreNext::Finished(Err(AuthError::CacheWriteFailed))
    );
    assert_eq!(
        set_auth_cookie(&config(), RestoreState::Storing, Reply::Done),
        RestoreNext::Finished(Ok(()))
    );
}

fn login(pages: Vec<&str>, cookies: Vec<SessionToken>) -> (Vec<Command>, Result<SessionToken, AuthError>) {
    let config = config();
    let mut pages: Vec<String> = pages.iter().map(|p| p.to_string()).collect();
    let (mut state, mut command) = auth_start(&config);
    let mut asked = Vec::new();
    loop {
        let reply = match &command {
            Command::Source => Reply::Text(pages.remove(0)),
            Command::GetCookies => Reply::Cookies(cookies.clone()),
            _ => Reply::Done,
        };
        asked.push(command);
        match auth(&config, state, reply) {
            LoginNext::Finished(result) => return (asked, result),
            LoginNext::Perform(next, then) => {
                state = next;
                command = then;
            }
        }
    }
}

fn typed(asked: &[Command]) -> Vec<String> {
    asked
        .iter()
        .filter_map(|c| match c {
            Command::SendKeys { keys, .. } => Some(keys.clone()),
            _ => None,
        })
        .collect()
}

fn waits(asked: &[Command]) -> Vec<usize> {
    asked
        .iter()
        .filter_map(|c| match c {
            Command::Sleep { secs } => Some(*secs),
            _ => None,
        })
        .collect()
}

#[test]
fn login_types_the_credentials_and_takes_the_token() {
    let (asked, result) =
        login(vec!["<html>home</html>", "<html>next</html>"], vec![token("auth_token", "t1")]);
    assert_eq!(result, Ok(token("auth_token", "t1")));
    assert_eq!(asked.len(), 17);
    assert_eq!(asked[0], Command::Goto { url: "https://twitter.com/".to_string() });
    assert_eq!(
        asked[3],
        Command::Click {
            xpath: "/html/body/div/div/div/div[2]/main/div/div/div[1]/div/div/div[3]/div[5]/a/div"
                .to_string()
        }
    );
    assert_eq!(typed(&asked), vec!["someone", "secret"]);
    assert_eq!(waits(&asked), vec![5, 3, 3, 1, 5, 3, 7]);
    assert_eq!(asked[16], Command::GetCookies);
}

#[test]
fn login_confirms_the_account_where_asked() {
    let (asked, result) = login(
        vec!["<html>home</html>", "<h1>Enter your phone number or username</h1>"],
        vec![token("auth_token", "t1")],
    );
    assert_eq!(result, Ok(token("auth_token", "t1")));
    assert_eq!(asked.len(), 21);
    assert_eq!(typed(&asked), vec!["someone", "someone", "secret"]);
    assert_eq!(waits(&asked), vec![5, 3, 3, 1, 5, 2, 3, 3, 7]);
}

#[test]
fn login_gives_up_on_a_site_that_is_down() {
    let (asked, result) = login(vec!["<p>This page is down</p>"], vec![]);
    assert_eq!(result, Err(AuthError::SiteDown));
    assert_eq!(asked.len(), 3);
}

#[test]
fn login_without_token_cookie_is_an_error() {
    let (_, result) = login(vec!["home", "next"], vec![token("guest_id", "1")]);
    assert_eq!(result, Err(AuthError::NoAuthCookie));
}

#[test]
fn login_fails_with_its_commands() {
    let config = config();
    for at in [0usize, 2, 3, 7, 11, 20] {
        assert_eq!(
            auth(&config, LoginState { at }, Reply::Failed),
            LoginNext::Finished(Err(AuthError::RemoteFailed))
        );
    }
    assert_eq!(
        auth(&config, LoginState { at: 3 }, Reply::Missing),
        LoginNext::Finished(Err(AuthError::RemoteFailed))
    );
    assert_eq!(
        auth(&config, LoginState { at: 2 }, Reply::Done),
        LoginNext::Finished(Err(AuthError::RemoteFailed))
    );
}

#[test]
fn last_cookie_with_the_tokens_name_is_the_token() {
    let cookies = vec![
        token("auth_token", "first"),
        token("other", "x"),
        token("auth_token", "last"),
        token("AUTH_TOKEN", "upper"),
    ];
    assert_eq!(select_token(&cookies), Some(token("auth_token", "last")));
    assert_eq!(select_token(&vec![token("other", "x")]), None);
    assert_eq!(select_token(&vec![]), None);
}

#[test]
fn token_is_parsed_from_its_text() {
    let parsed = SessionToken::parse("auth_token=XYZ; Domain=example.com; Secure").unwrap();
    assert_eq!(parsed.name, "auth_token");
    assert_eq!(parsed.value, "XYZ");
    assert_eq!(parsed.text, "auth_token=XYZ; Domain=example.com; Secure");
    assert_eq!(SessionToken::parse("novalue"), None);
    assert_eq!(SessionToken::parse("=x"), None);
    assert_eq!(parsed.duplicate(), parsed);
}
