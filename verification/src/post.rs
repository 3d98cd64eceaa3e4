//! A user's recent posts: harvesting the links to them from the profile.

use crate::collector::{CollectAction, Collector, CollectorView, StopCondition, StopView};
use crate::config::Config;
use crate::html::{html_select, html_select_within, select_elements, select_within, Element, ElementView};
use crate::links::get_post_full_link;
use crate::session::{Command, CommandView, Reply, ReplyView};
use crate::text::{ascii_fold, eq_ignore_ascii_case, starts_with};
use crate::users::FetchError;
use vstd::prelude::*;
use vstd::string::StringExecFns;

verus! {

/// Whether the regular expression `pattern` matches somewhere in `text`;
/// `None` where `pattern` is no valid regular expression.
pub uninterp spec fn regex_search(pattern: Seq<char>, text: Seq<char>) -> Option<bool>;

/// `regex::Regex::new` and `Regex::is_match` of what it gives: whether the
/// pattern matches somewhere in the text, `None` where the pattern does not
/// compile.
#[verifier::external_body]
pub(crate) fn regex_is_match(pattern: &str, text: &str) -> (r: Option<bool>)
    ensures
        r == regex_search(pattern@, text@),
{
    regex::Regex::new(pattern).ok().map(|re| re.is_match(text))
}

/// The regular expression for the path of a post: a slash, a user name,
/// `/status/` and a number, and nothing else.
pub open spec fn status_pattern() -> Seq<char> {
    "^/\\w+/status/\\d+$"@
}

/// Whether a link is the path of a post.
pub open spec fn is_status_link(link: Seq<char>) -> bool {
    regex_search(status_pattern(), link) == Some(true)
}

/// The link of an anchor, where it is the path of a post.
pub open spec fn post_link() -> spec_fn(ElementView) -> Option<Seq<char>> {
    |e: ElementView|
        match e.attr("href"@) {
            Some(href) => if is_status_link(href) {
                Some(href)
            } else {
                None
            },
            None => None,
        }
}

/// The post links among anchors, in order.
pub open spec fn post_links_among() -> spec_fn(Seq<ElementView>) -> Seq<Seq<char>> {
    |anchors: Seq<ElementView>| anchors.filter_map(post_link())
}

/// The post links in articles, each given by its anchors: those among the
/// anchors, article by article.
pub open spec fn post_links_in(articles: Seq<Seq<ElementView>>) -> Seq<Seq<char>> {
    articles.map_values(post_links_among()).flatten()
}

/// The post links on a page: those in its articles; `None` where the page
/// could not be searched.
pub open spec fn post_links_of(src: Seq<char>) -> Option<Seq<Seq<char>>> {
    match html_select_within(src, "article"@, "a"@) {
        Some(articles) => Some(post_links_in(articles)),
        None => None,
    }
}

/// Whether a link is the path of a post.
pub fn status_link(link: &str) -> (r: bool)
    ensures
        r == is_status_link(link@),
{
    match regex_is_match("^/\\w+/status/\\d+$", link) {
        Some(found) => found,
        None => false,
    }
}

/// The post links among anchors, in order.
fn links_among(anchors: &Vec<Element>) -> (links: Vec<String>)
    ensures
        links.deep_view() == post_links_among()(anchors.deep_view()),
{
    let ghost all = anchors.deep_view();
    let mut links: Vec<String> = Vec::new();
    let mut i: usize = 0;
    while i < anchors.len()
        invariant
            i <= anchors.len(),
            all == anchors.deep_view(),
            links.deep_view() == all.take(i as int).filter_map(post_link()),
        decreases anchors.len() - i,
    {
        let ghost prev = links.deep_view();
        proof {
            all.lemma_filter_map_take_succ(post_link(), i as int);
            assert(all[i as int] == anchors[i as int]@);
        }
        match anchors[i].attr("href") {
            Some(href) => {
                if status_link(href) {
                    links.push(href.to_owned());
                    assert(links.deep_view() == prev.push(href@));
                }
            },
            None => {},
        }
        i += 1;
    }
    assert(all.take(anchors.len() as int) == all);
    links
}

/// The post links in articles, each given by its anchors: see [`post_links_in`].
pub fn links_in(articles: &Vec<Vec<Element>>) -> (links: Vec<String>)
    ensures
        links.deep_view() == post_links_in(articles.deep_view()),
{
    let ghost all = articles.deep_view();
    let mut links: Vec<String> = Vec::new();
    let mut i: usize = 0;
    while i < articles.len()
        invariant
            i <= articles.len(),
            all == articles.deep_view(),
            links.deep_view() == all.take(i as int).map_values(post_links_among()).flatten(),
        decreases articles.len() - i,
    {
        let ghost prev = links.deep_view();
        let mut found = links_among(&articles[i]);
        proof {
            let done = all.take(i as int).map_values(post_links_among());
            assert(all[i as int] == articles[i as int].deep_view());
            assert(all.take(i + 1).map_values(post_links_among()) == done.push(found.deep_view()));
            done.lemma_flatten_push(found.deep_view());
        }
        links.append(&mut found);
        assert(links.deep_view() == prev + post_links_among()(all[i as int]));
        i += 1;
    }
    assert(all.take(articles.len() as int) == all);
    links
}

/// The post links on a page: see [`post_links_of`].
pub fn post_links(src: &str) -> (links: Option<Vec<String>>)
    ensures
        links.deep_view() == post_links_of(src@),
{
    match select_within(src, "article", "a") {
        Some(articles) => Some(links_in(&articles)),
        None => None,
    }
}

/// Whether an element carries the user's name: one of its attributes is
/// `data-testid` with the value `UserName`, the case of ASCII letters apart.
pub open spec fn is_name_element(e: ElementView) -> bool {
    exists|i: int|
        0 <= i < e.attrs.len() && ascii_fold((#[trigger] e.attrs[i]).0) == ascii_fold(
            "data-testid"@,
        ) && ascii_fold(e.attrs[i].1) == ascii_fold("UserName"@)
}

/// Whether one of the elements carries the user's name.
pub open spec fn any_name_element(elements: Seq<ElementView>) -> bool {
    exists|i: int| 0 <= i < elements.len() && #[trigger] is_name_element(elements[i])
}

/// Whether the page has a `div` that carries the user's name; `None` where
/// the page could not be searched.
pub open spec fn has_name_element(src: Seq<char>) -> Option<bool> {
    match html_select(src, "div"@) {
        Some(divs) => Some(any_name_element(divs)),
        None => None,
    }
}

/// Whether an element carries the user's name.
fn name_element(e: &Element) -> (r: bool)
    ensures
        r == is_name_element(e@),
{
    let mut i: usize = 0;
    while i < e.attrs.len()
        invariant
            i <= e.attrs.len(),
            forall|j: int|
                0 <= j < i ==> !(ascii_fold((#[trigger] e@.attrs[j]).0) == ascii_fold(
                    "data-testid"@,
                ) && ascii_fold(e@.attrs[j].1) == ascii_fold("UserName"@)),
        decreases e.attrs.len() - i,
    {
        assert(e@.attrs[i as int] == (e.attrs[i as int].0@, e.attrs[i as int].1@));
        if eq_ignore_ascii_case(e.attrs[i].0.as_str(), "data-testid") && eq_ignore_ascii_case(
            e.attrs[i].1.as_str(),
            "UserName",
        ) {
            return true;
        }
        i += 1;
    }
    false
}

/// Whether one of the elements carries the user's name.
pub fn names_user(elements: &Vec<Element>) -> (r: bool)
    ensures
        r == any_name_element(elements.deep_view()),
{
    let mut i: usize = 0;
    while i < elements.len()
        invariant
            i <= elements.len(),
            forall|j: int| 0 <= j < i ==> !#[trigger] is_name_element(elements.deep_view()[j]),
        decreases elements.len() - i,
    {
        assert(elements.deep_view()[i as int] == elements[i as int]@);
        if name_element(&elements[i]) {
            assert(is_name_element(elements.deep_view()[i as int]));
            return true;
        }
        i += 1;
    }
    false
}

/// Whether the page has a `div` that carries the user's name: see
/// [`has_name_element`].
pub fn page_names_user(src: &str) -> (r: Option<bool>)
    ensures
        r == has_name_element(src@),
{
    match select_elements(src, "div") {
        Some(divs) => Some(names_user(&divs)),
        None => None,
    }
}

/// A post cannot be downloaded yet: the result is always that error.
pub fn get_post(link: &str) -> (r: Result<(), FetchError>)
    ensures
        r == Err::<(), FetchError>(FetchError::PostsUnimplemented),
{
    let _full_link = get_post_full_link(link);
    Err(FetchError::PostsUnimplemented)
}

/// The posts behind the links: none for no links; otherwise the error that
/// the first link stands for, it being the user's own post, which cannot be
/// downloaded yet, or another user's, which is not supported.
pub open spec fn posts_of(links: Seq<Seq<char>>, prefix: Seq<char>) -> Result<Seq<()>, FetchError> {
    if links.len() == 0 {
        Ok(Seq::empty())
    } else if prefix.is_prefix_of(links[0]) {
        Err(FetchError::PostsUnimplemented)
    } else {
        Err(FetchError::RetweetsUnsupported)
    }
}

/// The posts behind the links: see [`posts_of`].
pub fn posts_from_links(links: &Vec<String>, prefix: &str) -> (r: Result<Vec<()>, FetchError>)
    ensures
        match r {
            Ok(posts) => posts_of(links.deep_view(), prefix@) == Ok::<Seq<()>, FetchError>(posts@),
            Err(e) => posts_of(links.deep_view(), prefix@) == Err::<Seq<()>, FetchError>(e),
        },
{
    let mut posts: Vec<()> = Vec::new();
    let mut i: usize = 0;
    while i < links.len()
        invariant
            i == 0,
            posts@.len() == 0,
        decreases links.len() - i,
    {
        assert(links.deep_view()[0] == links[0]@);
        if starts_with(links[i].as_str(), prefix) {
            match get_post(links[i].as_str()) {
                Ok(post) => {
                    posts.push(post);
                    i += 1;
                },
                Err(e) => {
                    return Err(e);
                },
            }
        } else {
            return Err(FetchError::RetweetsUnsupported);
        }
    }
    assert(posts@ == Seq::<()>::empty());
    Ok(posts)
}

/// The script that scrolls a profile on.
pub open spec fn posts_scroll() -> Seq<char> {
    "window.scrollBy(0,300);"@
}

/// The page of a user's profile.
pub open spec fn profile_url(user_id: Seq<char>) -> Seq<char> {
    "https://twitter.com/"@ + user_id
}

/// What the paths of a user's own posts start with.
pub open spec fn own_prefix(user_id: Seq<char>) -> Seq<char> {
    "/"@ + user_id
}

/// How far the reading of a user's recent posts has come.
#[derive(Debug, PartialEq, Eq)]
pub enum PostsState {
    /// The profile is being opened.
    Opening,
    /// The page is given time to load.
    Settling,
    /// The page is being read for the user's name.
    ReadingName,
    /// The profile is being scrolled on.
    Scrolling(Collector),
    /// The profile is given time to grow.
    Waiting(Collector),
    /// The page is being read for post links.
    Reading(Collector),
}

/// The content of a [`PostsState`].
pub enum PostsStateView {
    Opening,
    Settling,
    ReadingName,
    Scrolling(CollectorView),
    Waiting(CollectorView),
    Reading(CollectorView),
}

impl View for PostsState {
    type V = PostsStateView;

    open spec fn view(&self) -> PostsStateView {
        match self {
            PostsState::Opening => PostsStateView::Opening,
            PostsState::Settling => PostsStateView::Settling,
            PostsState::ReadingName => PostsStateView::ReadingName,
            PostsState::Scrolling(c) => PostsStateView::Scrolling(c@),
            PostsState::Waiting(c) => PostsStateView::Waiting(c@),
            PostsState::Reading(c) => PostsStateView::Reading(c@),
        }
    }
}

impl PostsState {
    /// The harvest under way, if there is one, is well formed.
    pub open spec fn wf(&self) -> bool {
        match self {
            PostsState::Scrolling(c) => c.wf(),
            PostsState::Waiting(c) => c.wf(),
            PostsState::Reading(c) => c.wf(),
            _ => true,
        }
    }
}

/// What a step of the reading of a user's recent posts leads to.
#[derive(Debug, PartialEq, Eq)]
pub enum PostsNext {
    Perform(PostsState, Command),
    Finished(Result<Vec<()>, FetchError>),
}

/// The content of a [`PostsNext`].
pub enum PostsNextView {
    Perform(PostsStateView, CommandView),
    Finished(Result<Seq<()>, FetchError>),
}

impl View for PostsNext {
    type V = PostsNextView;

    open spec fn view(&self) -> PostsNextView {
        match self {
            PostsNext::Perform(state, command) => PostsNextView::Perform(state@, command@),
            PostsNext::Finished(Ok(posts)) => PostsNextView::Finished(Ok(posts@)),
            PostsNext::Finished(Err(e)) => PostsNextView::Finished(Err(*e)),
        }
    }
}

impl PostsNext {
    /// The harvest that goes on, if one does, is well formed.
    pub open spec fn wf(&self) -> bool {
        match self {
            PostsNext::Perform(state, _) => state.wf(),
            _ => true,
        }
    }
}

/// The reading going on with a harvest: it scrolls on, or ends with the
/// posts behind the links gathered where the harvest is over.
pub open spec fn posts_continue(c: CollectorView, user_id: Seq<char>) -> PostsNextView {
    if c.finished() {
        PostsNextView::Finished(posts_of(c.items, own_prefix(user_id)))
    } else {
        PostsNextView::Perform(
            PostsStateView::Scrolling(c),
            CommandView::Execute { script: posts_scroll() },
        )
    }
}

/// What the reading of a user's recent posts does with the reply to its last
/// command. The profile is opened, given four seconds and read: without an
/// element that carries the user's name the reading fails. Then the post
/// links are harvested until there are `max_links` of them and the last one
/// is one of the user's own, or until the retry budget is used up: the
/// profile is scrolled on, given a second and one more for every snapshot in
/// a row that brought nothing new, and read. The posts behind the links are
/// the result. A command that fails ends the reading.
pub open spec fn posts_step_spec(
    max_links: usize,
    max_retries: usize,
    user_id: Seq<char>,
    state: PostsStateView,
    reply: ReplyView,
) -> PostsNextView {
    match (state, reply) {
        (PostsStateView::Opening, ReplyView::Done) => PostsNextView::Perform(
            PostsStateView::Settling,
            CommandView::Sleep { secs: 4 },
        ),
        (PostsStateView::Settling, ReplyView::Done) => PostsNextView::Perform(
            PostsStateView::ReadingName,
            CommandView::Source,
        ),
        (PostsStateView::ReadingName, ReplyView::Text(page)) => match has_name_element(page) {
            Some(true) => posts_continue(
                CollectorView::start(
                    StopView::EnoughEndingWith { min_items: max_links, prefix: own_prefix(user_id) },
                    max_retries as nat,
                    1,
                ),
                user_id,
            ),
            Some(false) => PostsNextView::Finished(Err(FetchError::NoUsernameElement)),
            None => PostsNextView::Finished(Err(FetchError::BadSelector)),
        },
        (PostsStateView::Scrolling(c), ReplyView::Done) => if c.finished() {
            PostsNextView::Finished(posts_of(c.items, own_prefix(user_id)))
        } else {
            PostsNextView::Perform(
                PostsStateView::Waiting(c),
                CommandView::Sleep { secs: c.wait_secs() as usize },
            )
        },
        (PostsStateView::Waiting(c), ReplyView::Done) => PostsNextView::Perform(
            PostsStateView::Reading(c),
            CommandView::Source,
        ),
        (PostsStateView::Reading(c), ReplyView::Text(page)) => match post_links_of(page) {
            Some(links) => posts_continue(c.absorb(links), user_id),
            None => PostsNextView::Finished(Err(FetchError::BadSelector)),
        },
        _ => PostsNextView::Finished(Err(FetchError::RemoteFailed)),
    }
}

/// The reading ending with the posts behind the links gathered.
fn finish_posts(c: &Collector, user_id: &str) -> (next: PostsNext)
    ensures
        next@ == PostsNextView::Finished(posts_of(c@.items, own_prefix(user_id@))),
        next.wf(),
{
    let prefix = String::from_str("/").concat(user_id);
    let links = c.items();
    PostsNext::Finished(posts_from_links(&links, prefix.as_str()))
}

/// The reading going on with a harvest: see [`posts_continue`].
fn continue_posts(c: Collector, user_id: &str) -> (next: PostsNext)
    requires
        c.wf(),
    ensures
        next@ == posts_continue(c@, user_id@),
        next.wf(),
{
    match c.action() {
        CollectAction::Done => finish_posts(&c, user_id),
        CollectAction::Scroll { .. } => PostsNext::Perform(
            PostsState::Scrolling(c),
            Command::Execute { script: String::from_str("window.scrollBy(0,300);") },
        ),
    }
}

/// The reading of a user's recent posts before its first step, and its first
/// command.
pub fn get_recent_posts_from_user_start(user_id: &str) -> (r: (PostsState, Command))
    ensures
        r.0@ == PostsStateView::Opening,
        r.0.wf(),
        r.1@ == (CommandView::Goto { url: profile_url(user_id@) }),
{
    (
        PostsState::Opening,
        Command::Goto { url: String::from_str("https://twitter.com/").concat(user_id) },
    )
}

/// One step of the reading of a user's recent posts: see [`posts_step_spec`].
pub fn get_recent_posts_from_user(
    config: &Config,
    user_id: &str,
    state: PostsState,
    reply: Reply,
) -> (next: PostsNext)
    requires
        state.wf(),
    ensures
        next@ == posts_step_spec(
            config.fetch_config.max_links_per_fetch,
            config.fetch_config.max_retries,
            user_id@,
            state@,
            reply@,
        ),
        next.wf(),
{
    match (state, reply) {
        (PostsState::Opening, Reply::Done) => PostsNext::Perform(
            PostsState::Settling,
            Command::Sleep { secs: 4 },
        ),
        (PostsState::Settling, Reply::Done) => PostsNext::Perform(
            PostsState::ReadingName,
            Command::Source,
        ),
        (PostsState::ReadingName, Reply::Text(page)) => match page_names_user(page.as_str()) {
            Some(true) => {
                let stop = StopCondition::EnoughEndingWith {
                    min_items: config.fetch_config.max_links_per_fetch,
                    prefix: String::from_str("/").concat(user_id),
                };
                continue_posts(Collector::new(stop, config.fetch_config.max_retries, 1), user_id)
            },
            Some(false) => PostsNext::Finished(Err(FetchError::NoUsernameElement)),
            None => PostsNext::Finished(Err(FetchError::BadSelector)),
        },
        (PostsState::Scrolling(c), Reply::Done) => match c.action() {
            CollectAction::Scroll { wait_secs } => PostsNext::Perform(
                PostsState::Waiting(c),
                Command::Sleep { secs: wait_secs },
            ),
            CollectAction::Done => finish_posts(&c, user_id),
        },
        (PostsState::Waiting(c), Reply::Done) => PostsNext::Perform(
            PostsState::Reading(c),
            Command::Source,
        ),
        (PostsState::Reading(c), Reply::Text(page)) => match post_links(page.as_str()) {
            Some(links) => {
                let mut c = c;
                c.absorb(&links);
                continue_posts(c, user_id)
            },
            None => PostsNext::Finished(Err(FetchError::BadSelector)),
        },
        _ => PostsNext::Finished(Err(FetchError::RemoteFailed)),
    }
}

} // verus!
