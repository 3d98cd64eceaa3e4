//! What the flows ask of a browser session and of the token cache, and what
//! they are told in return.

use vstd::prelude::*;

verus! {

/// A session token: a cookie by name and value, with its serialized form.
#[derive(Debug, Clone, PartialEq, Eq)]
pub struct SessionToken {
    pub name: String,
    pub value: String,
    /// The cookie as one string, attributes included.
    pub text: String,
}

/// The content of a [`SessionToken`].
pub struct TokenView {
    pub name: Seq<char>,
    pub value: Seq<char>,
    pub text: Seq<char>,
}

impl View for SessionToken {
    type V = TokenView;

    open spec fn view(&self) -> TokenView {
        TokenView { name: self.name@, value: self.value@, text: self.text@ }
    }
}

impl DeepView for SessionToken {
    type V = TokenView;

    open spec fn deep_view(&self) -> TokenView {
        self@
    }
}

/// The name and the value of the cookie that a text serializes; `None` where
/// the text is no cookie.
pub uninterp spec fn cookie_parse(text: Seq<char>) -> Option<(Seq<char>, Seq<char>)>;

/// `cookie::Cookie::parse`, reached as `fantoccini::cookies::Cookie`, with
/// `Cookie::name` and `Cookie::value` of what it gives: the name and value
/// of the cookie in `text`, `None` where the text does not parse.
#[verifier::external_body]
pub(crate) fn cookie_name_value(text: &str) -> (parsed: Option<(String, String)>)
    ensures
        parsed.deep_view() == cookie_parse(text@),
{
    fantoccini::cookies::Cookie::parse(text).ok().map(
        |c| (c.name().to_owned(), c.value().to_owned()),
    )
}

impl SessionToken {
    /// A copy of the token.
    pub fn duplicate(&self) -> (copy: SessionToken)
        ensures
            copy@ == self@,
    {
        SessionToken {
            name: self.name.clone(),
            value: self.value.clone(),
            text: self.text.clone(),
        }
    }

    /// The token that `text` serializes, `None` where `text` is no cookie.
    pub fn parse(text: &str) -> (token: Option<SessionToken>)
        ensures
            match token {
                Some(t) => cookie_parse(text@) == Some((t@.name, t@.value)) && t@.text == text@,
                None => cookie_parse(text@) is None,
            },
    {
        match cookie_name_value(text) {
            Some((name, value)) => Some(SessionToken { name, value, text: text.to_owned() }),
            None => None,
        }
    }
}

/// One thing to do on a browser session or on the token cache.
#[derive(Debug, Clone, PartialEq, Eq)]
pub enum Command {
    /// Navigate to a URL.
    Goto { url: String },
    /// Wait for so many seconds.
    Sleep { secs: usize },
    /// Take the page's source.
    Source,
    /// Find the element at an XPath and click it.
    Click { xpath: String },
    /// Find the element at an XPath and type into it.
    SendKeys { xpath: String, keys: String },
    /// Run a script in the page.
    Execute { script: String },
    /// List the session's cookies.
    GetCookies,
    /// Delete the session's cookies.
    DeleteCookies,
    /// Install a cookie.
    AddCookie { token: SessionToken },
    /// Reload the page.
    Refresh,
    /// Read the cached token.
    ReadCache,
    /// Replace the cached token.
    WriteCache { contents: String },
    /// Delete the cached token.
    DiscardCache,
}

/// The content of a [`Command`].
pub enum CommandView {
    Goto { url: Seq<char> },
    Sleep { secs: usize },
    Source,
    Click { xpath: Seq<char> },
    SendKeys { xpath: Seq<char>, keys: Seq<char> },
    Execute { script: Seq<char> },
    GetCookies,
    DeleteCookies,
    AddCookie { token: TokenView },
    Refresh,
    ReadCache,
    WriteCache { contents: Seq<char> },
    DiscardCache,
}

impl View for Command {
    type V = CommandView;

    open spec fn view(&self) -> CommandView {
        match self {
            Command::Goto { url } => CommandView::Goto { url: url@ },
            Command::Sleep { secs } => CommandView::Sleep { secs: *secs },
            Command::Source => CommandView::Source,
            Command::Click { xpath } => CommandView::Click { xpath: xpath@ },
            Command::SendKeys { xpath, keys } => CommandView::SendKeys {
                xpath: xpath@,
                keys: keys@,
            },
            Command::Execute { script } => CommandView::Execute { script: script@ },
            Command::GetCookies => CommandView::GetCookies,
            Command::DeleteCookies => CommandView::DeleteCookies,
            Command::AddCookie { token } => CommandView::AddCookie { token: token@ },
            Command::Refresh => CommandView::Refresh,
            Command::ReadCache => CommandView::ReadCache,
            Command::WriteCache { contents } => CommandView::WriteCache { contents: contents@ },
            Command::DiscardCache => CommandView::DiscardCache,
        }
    }
}

/// How a command ended.
#[derive(Debug, Clone, PartialEq, Eq)]
pub enum Reply {
    /// It was done, and there is nothing to hand in.
    Done,
    /// It was done, and gave this text: a page source or the cached token.
    Text(String),
    /// It was done, and gave these cookies.
    Cookies(Vec<SessionToken>),
    /// What it was aimed at is not there: no such element, no cached token.
    Missing,
    /// It failed.
    Failed,
}

/// The content of a [`Reply`].
pub enum ReplyView {
    Done,
    Text(Seq<char>),
    Cookies(Seq<TokenView>),
    Missing,
    Failed,
}

impl View for Reply {
    type V = ReplyView;

    open spec fn view(&self) -> ReplyView {
        match self {
            Reply::Done => ReplyView::Done,
            Reply::Text(text) => ReplyView::Text(text@),
            Reply::Cookies(cookies) => ReplyView::Cookies(cookies.deep_view()),
            Reply::Missing => ReplyView::Missing,
            Reply::Failed => ReplyView::Failed,
        }
    }
}

} // verus!
