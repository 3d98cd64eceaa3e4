//! Authenticating a session: restoring the cached token where there is one,
//! and logging in through the site's sign-in dialog where there is none.

use crate::config::TwitterConfig;
use crate::seqs::{first_where, is_first, lemma_first_absent, lemma_first_found};
use crate::session::{Command, CommandView, Reply, ReplyView, SessionToken, TokenView};
use crate::text::{contains_text, occurs_in, same_text};
use vstd::prelude::*;
use vstd::string::StringExecFns;

verus! {

/// Why a session could not be authenticated.
#[derive(Debug, Clone, Copy, PartialEq, Eq, Structural)]
pub enum AuthError {
    /// The site says that it is down.
    SiteDown,
    /// A command on the session failed.
    RemoteFailed,
    /// The login left no cookie with the token's name.
    NoAuthCookie,
    /// The cached token is no cookie.
    CacheCorrupt,
    /// The cached token is there but could not be read.
    CacheUnreadable,
    /// The new token could not be cached.
    CacheWriteFailed,
}

/// The name of the cookie that is the session token.
pub open spec fn token_name() -> Seq<char> {
    "auth_token"@
}

/// Whether a cookie has the token's name.
pub open spec fn is_token() -> spec_fn(TokenView) -> bool {
    |cookie: TokenView| cookie.name == token_name()
}

/// The session token among the cookies: the last one with the token's name.
pub open spec fn token_among(cookies: Seq<TokenView>) -> Option<TokenView> {
    first_where(cookies.reverse(), is_token())
}

/// The session token among the cookies: see [`token_among`].
pub fn select_token(cookies: &Vec<SessionToken>) -> (token: Option<SessionToken>)
    ensures
        token.deep_view() == token_among(cookies.deep_view()),
{
    let ghost backwards = cookies.deep_view().reverse();
    let mut i: usize = cookies.len();
    while i > 0
        invariant
            i <= cookies.len(),
            backwards == cookies.deep_view().reverse(),
            forall|j: int| 0 <= j < cookies.len() - i ==> !is_token()(#[trigger] backwards[j]),
        decreases i,
    {
        i -= 1;
        let ghost k = cookies.len() - 1 - i;
        assert(backwards[k] == cookies[i as int]@);
        if same_text(cookies[i].name.as_str(), "auth_token") {
            proof {
                assert(is_first(backwards, is_token(), k));
                lemma_first_found(backwards, is_token(), k);
            }
            return Some(cookies[i].duplicate());
        }
    }
    proof {
        lemma_first_absent(backwards, is_token());
    }
    None
}

/// The page of the site where the login starts.
pub open spec fn login_url() -> Seq<char> {
    "https://twitter.com/"@
}

/// What the site's page says when the site is down.
pub open spec fn down_notice() -> Seq<char> {
    "This page is down"@
}

/// What the sign-in dialog says when it asks to confirm the account.
pub open spec fn phone_prompt() -> Seq<char> {
    "Enter your phone number"@
}

/// The link that opens the sign-in box.
pub open spec fn xpath_sign_in() -> Seq<char> {
    "/html/body/div/div/div/div[2]/main/div/div/div[1]/div/div/div[3]/div[5]/a/div"@
}

/// The user name box, to click on.
pub open spec fn xpath_user_box() -> Seq<char> {
    "/html/body/div[1]/div/div/div[1]/div[2]/div/div/div/div/div/div[2]/div[2]/div/div/div[2]/div[2]/div/div/div/div[5]/label/div/div[2]/div/input"@
}

/// The user name box, to type into.
pub open spec fn xpath_user_input() -> Seq<char> {
    "/html/body/div/div/div/div[1]/div[2]/div/div/div/div/div/div[2]/div[2]/div/div/div[2]/div[2]/div/div/div/div[5]/label/div/div[2]/div/input"@
}

/// The button behind the user name.
pub open spec fn xpath_next() -> Seq<char> {
    "/html/body/div/div/div/div[1]/div[2]/div/div/div/div/div/div[2]/div[2]/div/div/div[2]/div[2]/div/div/div/div[6]"@
}

/// The box of the dialog that asks to confirm the account.
pub open spec fn xpath_phone_input() -> Seq<char> {
    "/html/body/div/div/div/div[1]/div[2]/div/div/div/div/div/div[2]/div[2]/div/div/div[2]/div[2]/div[1]/div/div[2]/label/div/div[2]/div/input"@
}

/// The button of the dialog that asks to confirm the account.
pub open spec fn xpath_phone_button() -> Seq<char> {
    "/html/body/div/div/div/div[1]/div[2]/div/div/div/div/div/div[2]/div[2]/div/div/div[2]/div[2]/div[2]/div/div/div/div/div"@
}

/// The password box.
pub open spec fn xpath_password() -> Seq<char> {
    "/html/body/div/div/div/div[1]/div[2]/div/div/div/div/div/div[2]/div[2]/div/div/div[2]/div[2]/div[1]/div/div/div[3]/div/label/div/div[2]/div[1]/input"@
}

/// The button that logs in.
pub open spec fn xpath_log_in() -> Seq<char> {
    "/html/body/div/div/div/div[1]/div[2]/div/div/div/div/div/div[2]/div[2]/div/div/div[2]/div[2]/div[2]/div/div[1]/div/div/div/div"@
}

/// The command at a position of the login. The login opens the site and
/// reads the page; opens the sign-in box, types the user name and goes on;
/// reads the page again; confirms the account with the user name (positions
/// 12 to 15, left out where the page does not ask for it); types the password
/// and logs in; and lists the cookies. Between the commands it waits.
pub open spec fn login_command(at: nat, username: Seq<char>, password: Seq<char>) -> CommandView {
    if at == 0 {
        CommandView::Goto { url: login_url() }
    }     else if at == 1 {
        CommandView::Sleep { secs: 5 }
    }     else if at == 2 {
        CommandView::Source
    }     else if at == 3 {
        CommandView::Click { xpath: xpath_sign_in() }
    }     else if at == 4 {
        CommandView::Sleep { secs: 3 }
    }     else if at == 5 {
        CommandView::Click { xpath: xpath_user_box() }
    }     else if at == 6 {
        CommandView::Sleep { secs: 3 }
    }     else if at == 7 {
        CommandView::SendKeys { xpath: xpath_user_input(), keys: username }
    }     else if at == 8 {
        CommandView::Sleep { secs: 1 }
    }     else if at == 9 {
        CommandView::Click { xpath: xpath_next() }
    }     else if at == 10 {
        CommandView::Sleep { secs: 5 }
    }     else if at == 11 {
        CommandView::Source
    }     else if at == 12 {
        CommandView::SendKeys { xpath: xpath_phone_input(), keys: username }
    }     else if at == 13 {
        CommandView::Sleep { secs: 2 }
    }     else if at == 14 {
        CommandView::Click { xpath: xpath_phone_button() }
    }     else if at == 15 {
        CommandView::Sleep { secs: 3 }
    }     else if at == 16 {
        CommandView::SendKeys { xpath: xpath_password(), keys: password }
    }     else if at == 17 {
        CommandView::Sleep { secs: 3 }
    }     else if at == 18 {
        CommandView::Click { xpath: xpath_log_in() }
    }     else if at == 19 {
        CommandView::Sleep { secs: 7 }
    } else {
        CommandView::GetCookies
    }
}

/// How far a login has come: the position of the command that is under way.
#[derive(Debug, Clone, Copy, PartialEq, Eq, Structural)]
pub struct LoginState {
    pub at: usize,
}

/// What a step of a login leads to.
#[derive(Debug, PartialEq, Eq)]
pub enum LoginNext {
    /// The command is to be performed, and its reply handed to the next step.
    Perform(LoginState, Command),
    /// The login is over, with the session token or with an error.
    Finished(Result<SessionToken, AuthError>),
}

/// The content of a [`LoginNext`].
pub enum LoginNextView {
    Perform(LoginState, CommandView),
    Finished(Result<TokenView, AuthError>),
}

impl View for LoginNext {
    type V = LoginNextView;

    open spec fn view(&self) -> LoginNextView {
        match self {
            LoginNext::Perform(state, command) => LoginNextView::Perform(*state, command@),
            LoginNext::Finished(Ok(token)) => LoginNextView::Finished(Ok(token@)),
            LoginNext::Finished(Err(e)) => LoginNextView::Finished(Err(*e)),
        }
    }
}

/// The login going on with the command at position `at`.
pub open spec fn login_at(at: nat, username: Seq<char>, password: Seq<char>) -> LoginNextView {
    LoginNextView::Perform(LoginState { at: at as usize }, login_command(at, username, password))
}

/// What a login does with the reply to the command at position `at`. A page
/// that carries the down notice ends it, and so does any reply that is not
/// the command's proper answer. The second page decides whether the account
/// is confirmed. The cookies at the end give the token, or the error that
/// there is none. Any other command is followed by the next.
pub open spec fn login_step_spec(
    username: Seq<char>,
    password: Seq<char>,
    at: nat,
    reply: ReplyView,
) -> LoginNextView {
    match (login_command(at, username, password), reply) {
        (CommandView::Source, ReplyView::Text(page)) => if at == 2 {
            if occurs_in(down_notice(), page) {
                LoginNextView::Finished(Err(AuthError::SiteDown))
            } else {
                login_at(3, username, password)
            }
        } else {
            if occurs_in(phone_prompt(), page) {
                login_at(12, username, password)
            } else {
                login_at(16, username, password)
            }
        },
        (CommandView::GetCookies, ReplyView::Cookies(cookies)) => match token_among(cookies) {
            Some(token) => LoginNextView::Finished(Ok(token)),
            None => LoginNextView::Finished(Err(AuthError::NoAuthCookie)),
        },
        (CommandView::Source, _) => LoginNextView::Finished(Err(AuthError::RemoteFailed)),
        (CommandView::GetCookies, _) => LoginNextView::Finished(Err(AuthError::RemoteFailed)),
        (_, ReplyView::Done) => login_at(at + 1, username, password),
        _ => LoginNextView::Finished(Err(AuthError::RemoteFailed)),
    }
}

/// The command at a position of the login.
fn command_at(at: usize, username: &str, password: &str) -> (command: Command)
    ensures
        command@ == login_command(at as nat, username@, password@),
{
    if at == 0 {
        Command::Goto { url: String::from_str("https://twitter.com/") }
    }     else if at == 1 {
        Command::Sleep { secs: 5 }
    }     else if at == 2 {
        Command::Source
    }     else if at == 3 {
        Command::Click { xpath: String::from_str("/html/body/div/div/div/div[2]/main/div/div/div[1]/div/div/div[3]/div[5]/a/div") }
    }     else if at == 4 {
        Command::Sleep { secs: 3 }
    }     else if at == 5 {
        Command::Click { xpath: String::from_str("/html/body/div[1]/div/div/div[1]/div[2]/div/div/div/div/div/div[2]/div[2]/div/div/div[2]/div[2]/div/div/div/div[5]/label/div/div[2]/div/input") }
    }     else if at == 6 {
        Command::Sleep { secs: 3 }
    }     else if at == 7 {
        Command::SendKeys { xpath: String::from_str("/html/body/div/div/div/div[1]/div[2]/div/div/div/div/div/div[2]/div[2]/div/div/div[2]/div[2]/div/div/div/div[5]/label/div/div[2]/div/input"), keys: String::from_str(username) }
    }     else if at == 8 {
        Command::Sleep { secs: 1 }
    }     else if at == 9 {
        Command::Click { xpath: String::from_str("/html/body/div/div/div/div[1]/div[2]/div/div/div/div/div/div[2]/div[2]/div/div/div[2]/div[2]/div/div/div/div[6]") }
    }     else if at == 10 {
        Command::Sleep { secs: 5 }
    }     else if at == 11 {
        Command::Source
    }     else if at == 12 {
        Command::SendKeys { xpath: String::from_str("/html/body/div/div/div/div[1]/div[2]/div/div/div/div/div/div[2]/div[2]/div/div/div[2]/div[2]/div[1]/div/div[2]/label/div/div[2]/div/input"), keys: String::from_str(username) }
    }     else if at == 13 {
        Command::Sleep { secs: 2 }
    }     else if at == 14 {
        Command::Click { xpath: String::from_str("/html/body/div/div/div/div[1]/div[2]/div/div/div/div/div/div[2]/div[2]/div/div/div[2]/div[2]/div[2]/div/div/div/div/div") }
    }     else if at == 15 {
        Command::Sleep { secs: 3 }
    }     else if at == 16 {
        Command::SendKeys { xpath: String::from_str("/html/body/div/div/div/div[1]/div[2]/div/div/div/div/div/div[2]/div[2]/div/div/div[2]/div[2]/div[1]/div/div/div[3]/div/label/div/div[2]/div[1]/input"), keys: String::from_str(password) }
    }     else if at == 17 {
        Command::Sleep { secs: 3 }
    }     else if at == 18 {
        Command::Click { xpath: String::from_str("/html/body/div/div/div/div[1]/div[2]/div/div/div/div/div/div[2]/div[2]/div/div/div[2]/div[2]/div[2]/div/div[1]/div/div/div/div") }
    }     else if at == 19 {
        Command::Sleep { secs: 7 }
    } else {
        Command::GetCookies
    }
}

/// A login before its first step, and the command that it starts with.
pub fn auth_start(config: &TwitterConfig) -> (r: (LoginState, Command))
    requires
        config.username_view() is Some,
        config.password_view() is Some,
    ensures
        r.0.at == 0,
        r.1@ == login_command(0, config.username_view().unwrap(), config.password_view().unwrap()),
{
    (LoginState { at: 0 }, command_at(0, config.username(), config.password()))
}

/// One step of a login: see [`login_step_spec`].
pub fn auth(config: &TwitterConfig, state: LoginState, reply: Reply) -> (next: LoginNext)
    requires
        config.username_view() is Some,
        config.password_view() is Some,
    ensures
        next@ == login_step_spec(
            config.username_view().unwrap(),
            config.password_view().unwrap(),
            state.at as nat,
            reply@,
        ),
{
    let username = config.username();
    let password = config.password();
    let at = state.at;
    if at == 2 || at == 11 {
        match reply {
            Reply::Text(page) => {
                if at == 2 {
                    if contains_text(page.as_str(), "This page is down") {
                        LoginNext::Finished(Err(AuthError::SiteDown))
                    } else {
                        LoginNext::Perform(LoginState { at: 3 }, command_at(3, username, password))
                    }
                } else if contains_text(page.as_str(), "Enter your phone number") {
                    LoginNext::Perform(LoginState { at: 12 }, command_at(12, username, password))
                } else {
                    LoginNext::Perform(LoginState { at: 16 }, command_at(16, username, password))
                }
            },
            _ => LoginNext::Finished(Err(AuthError::RemoteFailed)),
        }
    } else if at >= 20 {
        match reply {
            Reply::Cookies(cookies) => match select_token(&cookies) {
                Some(token) => LoginNext::Finished(Ok(token)),
                None => LoginNext::Finished(Err(AuthError::NoAuthCookie)),
            },
            _ => LoginNext::Finished(Err(AuthError::RemoteFailed)),
        }
    } else {
        match reply {
            Reply::Done => LoginNext::Perform(
                LoginState { at: at + 1 },
                command_at(at + 1, username, password),
            ),
            _ => LoginNext::Finished(Err(AuthError::RemoteFailed)),
        }
    }
}

/// The page that a cached token is installed on.
pub open spec fn site_root() -> Seq<char> {
    "https://twitter.com"@
}

/// How far the authentication of a session has come.
#[derive(Debug, PartialEq, Eq)]
pub enum RestoreState {
    /// The cached token is being read.
    ReadingCache,
    /// There is a cached token, and the site is being opened for it.
    Navigating(SessionToken),
    /// The session's cookies are being deleted.
    Clearing(SessionToken),
    /// The cached token is being installed.
    Installing,
    /// The page is being reloaded with the token.
    Reloading,
    /// The cached token did not work and is being deleted.
    Discarding(AuthError),
    /// There is no cached token, and a login is under way.
    LoggingIn(LoginState),
    /// The new token is being cached.
    Storing,
}

/// The content of a [`RestoreState`].
pub enum RestoreStateView {
    ReadingCache,
    Navigating(TokenView),
    Clearing(TokenView),
    Installing,
    Reloading,
    Discarding(AuthError),
    LoggingIn(LoginState),
    Storing,
}

impl View for RestoreState {
    type V = RestoreStateView;

    open spec fn view(&self) -> RestoreStateView {
        match self {
            RestoreState::ReadingCache => RestoreStateView::ReadingCache,
            RestoreState::Navigating(token) => RestoreStateView::Navigating(token@),
            RestoreState::Clearing(token) => RestoreStateView::Clearing(token@),
            RestoreState::Installing => RestoreStateView::Installing,
            RestoreState::Reloading => RestoreStateView::Reloading,
            RestoreState::Discarding(e) => RestoreStateView::Discarding(*e),
            RestoreState::LoggingIn(login) => RestoreStateView::LoggingIn(*login),
            RestoreState::Storing => RestoreStateView::Storing,
        }
    }
}

/// What a step of the authentication leads to.
#[derive(Debug, PartialEq, Eq)]
pub enum RestoreNext {
    /// The command is to be performed, and its reply handed to the next step.
    Perform(RestoreState, Command),
    /// The authentication is over.
    Finished(Result<(), AuthError>),
}

/// The content of a [`RestoreNext`].
pub enum RestoreNextView {
    Perform(RestoreStateView, CommandView),
    Finished(Result<(), AuthError>),
}

impl View for RestoreNext {
    type V = RestoreNextView;

    open spec fn view(&self) -> RestoreNextView {
        match self {
            RestoreNext::Perform(state, command) => RestoreNextView::Perform(state@, command@),
            RestoreNext::Finished(r) => RestoreNextView::Finished(*r),
        }
    }
}

/// The cached token is deleted before the authentication fails with `error`.
pub open spec fn restore_discard(error: AuthError) -> RestoreNextView {
    RestoreNextView::Perform(RestoreStateView::Discarding(error), CommandView::DiscardCache)
}

/// What follows a command of the restore that was done, and what follows one
/// that was not: the cached token is deleted.
pub open spec fn restore_after(reply: ReplyView, next: RestoreNextView) -> RestoreNextView {
    if reply is Done {
        next
    } else {
        restore_discard(AuthError::RemoteFailed)
    }
}

/// What the authentication does with the reply to its last command. A cached
/// token is trusted: the site is opened, the session's cookies are deleted,
/// the token is installed and the page reloaded. Where that fails at any
/// point, or the cache holds no cookie, the cached token is deleted and the
/// authentication fails. Without a cached token a login runs, and the token
/// that it gives is cached.
pub open spec fn restore_step_spec(
    username: Seq<char>,
    password: Seq<char>,
    state: RestoreStateView,
    reply: ReplyView,
) -> RestoreNextView {
    match state {
        RestoreStateView::ReadingCache => match reply {
            ReplyView::Text(text) => match crate::session::cookie_parse(text) {
                Some((name, value)) => RestoreNextView::Perform(
                    RestoreStateView::Navigating(TokenView { name, value, text }),
                    CommandView::Goto { url: site_root() },
                ),
                None => restore_discard(AuthError::CacheCorrupt),
            },
            ReplyView::Missing => RestoreNextView::Perform(
                RestoreStateView::LoggingIn(LoginState { at: 0 }),
                login_command(0, username, password),
            ),
            _ => RestoreNextView::Finished(Err(AuthError::CacheUnreadable)),
        },
        RestoreStateView::Navigating(token) => restore_after(
            reply,
            RestoreNextView::Perform(RestoreStateView::Clearing(token), CommandView::DeleteCookies),
        ),
        RestoreStateView::Clearing(token) => restore_after(
            reply,
            RestoreNextView::Perform(RestoreStateView::Installing, CommandView::AddCookie { token }),
        ),
        RestoreStateView::Installing => restore_after(
            reply,
            RestoreNextView::Perform(RestoreStateView::Reloading, CommandView::Refresh),
        ),
        RestoreStateView::Reloading => restore_after(reply, RestoreNextView::Finished(Ok(()))),
        RestoreStateView::Discarding(error) => RestoreNextView::Finished(Err(error)),
        RestoreStateView::LoggingIn(login) => match login_step_spec(
            username,
            password,
            login.at as nat,
            reply,
        ) {
            LoginNextView::Perform(next, command) => RestoreNextView::Perform(
                RestoreStateView::LoggingIn(next),
                command,
            ),
            LoginNextView::Finished(Ok(token)) => RestoreNextView::Perform(
                RestoreStateView::Storing,
                CommandView::WriteCache { contents: token.text },
            ),
            LoginNextView::Finished(Err(error)) => RestoreNextView::Finished(Err(error)),
        },
        RestoreStateView::Storing => if reply is Done {
            RestoreNextView::Finished(Ok(()))
        } else {
            RestoreNextView::Finished(Err(AuthError::CacheWriteFailed))
        },
    }
}

/// With a cached token that is a cookie, and every command done, the
/// authentication never logs in: it opens the site, deletes the session's
/// cookies, installs exactly the cached token, reloads the page, and has
/// succeeded.
pub proof fn lemma_cached_token_is_installed(
    username: Seq<char>,
    password: Seq<char>,
    text: Seq<char>,
)
    requires
        crate::session::cookie_parse(text) is Some,
    ensures
        ({
            let parsed = crate::session::cookie_parse(text).unwrap();
            let token = TokenView { name: parsed.0, value: parsed.1, text };
            &&& restore_step_spec(
                username,
                password,
                RestoreStateView::ReadingCache,
                ReplyView::Text(text),
            ) == RestoreNextView::Perform(
                RestoreStateView::Navigating(token),
                CommandView::Goto { url: site_root() },
            )
            &&& restore_step_spec(
                username,
                password,
                RestoreStateView::Navigating(token),
                ReplyView::Done,
            ) == RestoreNextView::Perform(
                RestoreStateView::Clearing(token),
                CommandView::DeleteCookies,
            )
            &&& restore_step_spec(
                username,
                password,
                RestoreStateView::Clearing(token),
                ReplyView::Done,
            ) == RestoreNextView::Perform(
                RestoreStateView::Installing,
                CommandView::AddCookie { token },
            )
            &&& restore_step_spec(username, password, RestoreStateView::Installing, ReplyView::Done)
                == RestoreNextView::Perform(RestoreStateView::Reloading, CommandView::Refresh)
            &&& restore_step_spec(username, password, RestoreStateView::Reloading, ReplyView::Done)
                == RestoreNextView::Finished(Ok(()))
        }),
{
}

/// An authentication before its first step, and the command that it starts with.
pub fn set_auth_cookie_start() -> (r: (RestoreState, Command))
    ensures
        r.0@ == RestoreStateView::ReadingCache,
        r.1@ == CommandView::ReadCache,
{
    (RestoreState::ReadingCache, Command::ReadCache)
}

/// The cached token is deleted before the authentication fails with `error`.
fn discard(error: AuthError) -> (next: RestoreNext)
    ensures
        next@ == restore_discard(error),
{
    RestoreNext::Perform(RestoreState::Discarding(error), Command::DiscardCache)
}

/// One step of the authentication: see [`restore_step_spec`].
pub fn set_auth_cookie(config: &TwitterConfig, state: RestoreState, reply: Reply) -> (next:
    RestoreNext)
    requires
        config.username_view() is Some,
        config.password_view() is Some,
    ensures
        next@ == restore_step_spec(
            config.username_view().unwrap(),
            config.password_view().unwrap(),
            state@,
            reply@,
        ),
{
    let done = match &reply {
        Reply::Done => true,
        _ => false,
    };
    match state {
        RestoreState::ReadingCache => match reply {
            Reply::Text(text) => match SessionToken::parse(text.as_str()) {
                Some(token) => RestoreNext::Perform(
                    RestoreState::Navigating(token),
                    Command::Goto { url: String::from_str("https://twitter.com") },
                ),
                None => discard(AuthError::CacheCorrupt),
            },
            Reply::Missing => {
                let (login, command) = auth_start(config);
                RestoreNext::Perform(RestoreState::LoggingIn(login), command)
            },
            _ => RestoreNext::Finished(Err(AuthError::CacheUnreadable)),
        },
        RestoreState::Navigating(token) => {
            if done {
                RestoreNext::Perform(RestoreState::Clearing(token), Command::DeleteCookies)
            } else {
                discard(AuthError::RemoteFailed)
            }
        },
        RestoreState::Clearing(token) => {
            if done {
                RestoreNext::Perform(RestoreState::Installing, Command::AddCookie { token })
            } else {
                discard(AuthError::RemoteFailed)
            }
        },
        RestoreState::Installing => {
            if done {
                RestoreNext::Perform(RestoreState::Reloading, Command::Refresh)
            } else {
                discard(AuthError::RemoteFailed)
            }
        },
        RestoreState::Reloading => {
            if done {
                RestoreNext::Finished(Ok(()))
            } else {
                discard(AuthError::RemoteFailed)
            }
        },
        RestoreState::Discarding(error) => RestoreNext::Finished(Err(error)),
        RestoreState::LoggingIn(login) => match auth(config, login, reply) {
            LoginNext::Perform(next, command) => RestoreNext::Perform(
                RestoreState::LoggingIn(next),
                command,
            ),
            LoginNext::Finished(Ok(token)) => RestoreNext::Perform(
                RestoreState::Storing,
                Command::WriteCache { contents: token.text },
            ),
            LoginNext::Finished(Err(error)) => RestoreNext::Finished(Err(error)),
        },
        RestoreState::Storing => {
            if done {
                RestoreNext::Finished(Ok(()))
            } else {
                RestoreNext::Finished(Err(AuthError::CacheWriteFailed))
            }
        },
    }
}

} // verus!
