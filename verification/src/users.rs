//! Profile records and their extraction from a profile page.

use crate::html::{
    has_all_classes, has_classes, html_select, select_elements, Element, ElementView,
};
use crate::collector::{CollectAction, Collector, CollectorView, StopCondition, StopView};
use crate::config::{Config, TwitterConfig};
use crate::json::{json_document, parse_json, Json};
use crate::session::{Command, CommandView, Reply, ReplyView};
use crate::seqs::{first_where, is_first, lemma_first_absent, lemma_first_found};
use crate::text::{
    contains_char, contains_text, decimal_of, first_word, first_word_of, occurs_in, parse_usize,
};
use vstd::prelude::*;
use vstd::string::StringExecFns;

verus! {

/// What the structured data of a profile page says of a user.
#[derive(Debug, Clone, PartialEq, Eq)]
pub struct JsonFetchedUser {
    pub display_name: String,
    pub username: String,
    pub description: String,
    pub date_created: String,
    pub related_link: Option<String>,
    pub location: Option<String>,
    pub following: usize,
    pub followers: usize,
    pub pfp_url: String,
}

/// The mathematical content of a [`JsonFetchedUser`].
pub struct JsonFetchedUserView {
    pub display_name: Seq<char>,
    pub username: Seq<char>,
    pub description: Seq<char>,
    pub date_created: Seq<char>,
    pub related_link: Option<Seq<char>>,
    pub location: Option<Seq<char>>,
    pub following: usize,
    pub followers: usize,
    pub pfp_url: Seq<char>,
}

impl View for JsonFetchedUser {
    type V = JsonFetchedUserView;

    open spec fn view(&self) -> JsonFetchedUserView {
        JsonFetchedUserView {
            display_name: self.display_name@,
            username: self.username@,
            description: self.description@,
            date_created: self.date_created@,
            related_link: self.related_link.deep_view(),
            location: self.location.deep_view(),
            following: self.following,
            followers: self.followers,
            pfp_url: self.pfp_url@,
        }
    }
}

/// The string under `key` in an object.
pub open spec fn text_member(json: Json, key: Seq<char>) -> Option<Seq<char>> {
    match json.member(key) {
        Some(value) => value.text(),
        None => None,
    }
}

/// The object under `key` in an object.
pub open spec fn object_member(json: Json, key: Seq<char>) -> Option<Json> {
    match json.member(key) {
        Some(value) => if value.members() is Some {
            Some(value)
        } else {
            None
        },
        None => None,
    }
}

/// The second entry of the document's `relatedLink` array, where it is a string.
pub open spec fn related_link_of(doc: Json) -> Option<Seq<char>> {
    match doc.member("relatedLink"@) {
        Some(links) => match links.item(1) {
            Some(link) => link.text(),
            None => None,
        },
        None => None,
    }
}

/// The name of the author's home location: a non-empty string in an object
/// whose `@type`, where it has one, is the string `Place`.
pub open spec fn location_of(author: Json) -> Option<Seq<char>> {
    match object_member(author, "homeLocation"@) {
        Some(home) => if home.member("@type"@) matches Some(kind) && !kind.is_text("Place"@) {
            None
        } else {
            match text_member(home, "name"@) {
                Some(name) => if name.len() == 0 {
                    None
                } else {
                    Some(name)
                },
                None => None,
            }
        },
        None => None,
    }
}

/// Whether an interaction statistic is the one called `name`.
pub open spec fn statistic_named(name: Seq<char>) -> spec_fn(Json) -> bool {
    |item: Json| item.member("name"@) matches Some(found) && found.is_text(name)
}

/// The count of the first of the author's interaction statistics called `name`.
pub open spec fn interaction_count(author: Json, name: Seq<char>) -> Option<u64> {
    match author.member("interactionStatistic"@) {
        Some(statistics) => match statistics.items() {
            Some(items) => match first_where(items, statistic_named(name)) {
                Some(statistic) => match statistic.member("userInteractionCount"@) {
                    Some(count) => count.count(),
                    None => None,
                },
                None => None,
            },
            None => None,
        },
        None => None,
    }
}

/// The profile that a document of structured data describes. It is there
/// where the document has a creation date and an author with given name,
/// additional name, description, follower and friend counts and an image with
/// a content URL; the related link and the location may be missing.
pub open spec fn profile_of(doc: Json) -> Option<JsonFetchedUserView> {
    match object_member(doc, "author"@) {
        Some(author) => {
            if text_member(doc, "dateCreated"@) is Some && text_member(author, "givenName"@) is Some
                && text_member(author, "additionalName"@) is Some && text_member(
                author,
                "description"@,
            ) is Some && interaction_count(author, "Follows"@) is Some && interaction_count(
                author,
                "Friends"@,
            ) is Some && object_member(author, "image"@) is Some && text_member(
                object_member(author, "image"@).unwrap(),
                "contentUrl"@,
            ) is Some {
                Some(
                    JsonFetchedUserView {
                        display_name: text_member(author, "givenName"@).unwrap(),
                        username: text_member(author, "additionalName"@).unwrap(),
                        description: text_member(author, "description"@).unwrap(),
                        date_created: text_member(doc, "dateCreated"@).unwrap(),
                        related_link: related_link_of(doc),
                        location: location_of(author),
                        following: interaction_count(author, "Friends"@).unwrap() as usize,
                        followers: interaction_count(author, "Follows"@).unwrap() as usize,
                        pfp_url: text_member(
                            object_member(author, "image"@).unwrap(),
                            "contentUrl"@,
                        ).unwrap(),
                    },
                )
            } else {
                None
            }
        },
        None => None,
    }
}

/// The string under `key` in an object.
fn get_text(json: &Json, key: &str) -> (r: Option<String>)
    ensures
        r.deep_view() == text_member(*json, key@),
{
    match json.get(key) {
        Some(value) => match value.as_str() {
            Some(s) => Some(s.to_owned()),
            None => None,
        },
        None => None,
    }
}

/// The object under `key` in an object.
fn get_object<'a>(json: &'a Json, key: &str) -> (r: Option<&'a Json>)
    ensures
        match r {
            Some(value) => object_member(*json, key@) == Some(*value),
            None => object_member(*json, key@) is None,
        },
{
    match json.get(key) {
        Some(value) => match value.as_object() {
            Some(_) => Some(value),
            None => None,
        },
        None => None,
    }
}

fn get_related_link(doc: &Json) -> (r: Option<String>)
    ensures
        r.deep_view() == related_link_of(*doc),
{
    match doc.get("relatedLink") {
        Some(links) => match links.as_array() {
            Some(items) => {
                if items.len() > 1 {
                    match items[1].as_str() {
                        Some(s) => Some(s.to_owned()),
                        None => None,
                    }
                } else {
                    None
                }
            },
            None => None,
        },
        None => None,
    }
}

fn get_location(author: &Json) -> (r: Option<String>)
    ensures
        r.deep_view() == location_of(*author),
{
    match get_object(author, "homeLocation") {
        Some(home) => {
            let other_kind = match home.get("@type") {
                Some(kind) => !kind.eq_str("Place"),
                None => false,
            };
            if other_kind {
                None
            } else {
                match get_text(home, "name") {
                    Some(name) => if name.as_str().is_empty() {
                        None
                    } else {
                        Some(name)
                    },
                    None => None,
                }
            }
        },
        None => None,
    }
}

fn get_interaction_count(author: &Json, name: &str) -> (r: Option<u64>)
    ensures
        r == interaction_count(*author, name@),
{
    let items = match author.get("interactionStatistic") {
        Some(statistics) => match statistics.as_array() {
            Some(items) => items,
            None => {
                return None;
            },
        },
        None => {
            return None;
        },
    };
    let mut i: usize = 0;
    while i < items.len()
        invariant
            i <= items.len(),
            author.member("interactionStatistic"@) matches Some(statistics)
                && statistics.items() == Some(items@),
            forall|j: int| 0 <= j < i ==> !statistic_named(name@)(#[trigger] items@[j]),
        decreases items.len() - i,
    {
        let is_named = match items[i].get("name") {
            Some(found) => found.eq_str(name),
            None => false,
        };
        if is_named {
            proof {
                assert(is_first(items@, statistic_named(name@), i as int));
                lemma_first_found(items@, statistic_named(name@), i as int);
            }
            return match items[i].get("userInteractionCount") {
                Some(count) => count.as_u64(),
                None => None,
            };
        }
        i += 1;
    }
    proof {
        lemma_first_absent(items@, statistic_named(name@));
    }
    None
}

/// Reads a profile out of a document of structured data.
pub fn user_from_json(doc: &Json) -> (r: Option<JsonFetchedUser>)
    ensures
        match r {
            Some(user) => profile_of(*doc) == Some(user@),
            None => profile_of(*doc) is None,
        },
{
    let date_created = match get_text(doc, "dateCreated") {
        Some(s) => s,
        None => {
            return None;
        },
    };
    let related_link = get_related_link(doc);
    let author = match get_object(doc, "author") {
        Some(a) => a,
        None => {
            return None;
        },
    };
    let display_name = match get_text(author, "givenName") {
        Some(s) => s,
        None => {
            return None;
        },
    };
    let username = match get_text(author, "additionalName") {
        Some(s) => s,
        None => {
            return None;
        },
    };
    let description = match get_text(author, "description") {
        Some(s) => s,
        None => {
            return None;
        },
    };
    let location = get_location(author);
    let followers = match get_interaction_count(author, "Follows") {
        Some(n) => n,
        None => {
            return None;
        },
    };
    let following = match get_interaction_count(author, "Friends") {
        Some(n) => n,
        None => {
            return None;
        },
    };
    let image = match get_object(author, "image") {
        Some(i) => i,
        None => {
            return None;
        },
    };
    let pfp_url = match get_text(image, "contentUrl") {
        Some(s) => s,
        None => {
            return None;
        },
    };
    Some(
        JsonFetchedUser {
            pfp_url,
            display_name,
            username,
            description,
            date_created,
            related_link,
            location,
            following: #[verifier::truncate] (following as usize),
            followers: #[verifier::truncate] (followers as usize),
        },
    )
}

/// Whether a `script` element carries the profile's structured data.
pub open spec fn is_profile_script() -> spec_fn(ElementView) -> bool {
    |e: ElementView|
        e.attr("type"@) == Some("application/ld+json"@) && e.attr("data-testid"@) == Some(
            "UserProfileSchema-test"@,
        )
}

/// The first element that carries the profile's structured data.
pub fn find_profile_script(elements: &Vec<Element>) -> (r: Option<&Element>)
    ensures
        match r {
            Some(e) => first_where(elements.deep_view(), is_profile_script()) == Some(e@),
            None => first_where(elements.deep_view(), is_profile_script()) is None,
        },
{
    let mut i: usize = 0;
    while i < elements.len()
        invariant
            i <= elements.len(),
            forall|j: int|
                0 <= j < i ==> !is_profile_script()(#[trigger] elements.deep_view()[j]),
        decreases elements.len() - i,
    {
        let e = &elements[i];
        if e.attr_is("type", "application/ld+json") && e.attr_is(
            "data-testid",
            "UserProfileSchema-test",
        ) {
            proof {
                assert(elements.deep_view()[i as int] == e@);
                assert(is_first(elements.deep_view(), is_profile_script(), i as int));
                lemma_first_found(elements.deep_view(), is_profile_script(), i as int);
            }
            return Some(e);
        }
        assert(!is_profile_script()(elements.deep_view()[i as int]));
        i += 1;
    }
    proof {
        lemma_first_absent(elements.deep_view(), is_profile_script());
    }
    None
}

/// The profile that the structured data of the page `src` describes: the
/// profile of the JSON document in the first `script` element that carries
/// the profile's structured data.
pub open spec fn info_from_json(src: Seq<char>) -> Option<JsonFetchedUserView> {
    match html_select(src, "script"@) {
        Some(scripts) => match first_where(scripts, is_profile_script()) {
            Some(script) => match json_document(script.text()) {
                Some(doc) => profile_of(doc),
                None => None,
            },
            None => None,
        },
        None => None,
    }
}

pub fn try_get_info_from_json(src: &str) -> (r: Option<JsonFetchedUser>)
    ensures
        match r {
            Some(user) => info_from_json(src@) == Some(user@),
            None => info_from_json(src@) is None,
        },
{
    let scripts = match select_elements(src, "script") {
        Some(scripts) => scripts,
        None => {
            return None;
        },
    };
    let script = match find_profile_script(&scripts) {
        Some(script) => script,
        None => {
            return None;
        },
    };
    let text = script.text();
    match parse_json(text.as_str()) {
        Some(doc) => user_from_json(&doc),
        None => None,
    }
}

/// Why a fetch did not give what it was after.
#[derive(Debug, Clone, Copy, PartialEq, Eq, Structural)]
pub enum FetchError {
    /// A command on the session failed.
    RemoteFailed,
    /// The settings lack a selector that the fetch needs.
    NotInConfig,
    /// The longest wait between two snapshots does not fit the machine's integers.
    InvalidSettings,
    /// A selector of the fetch is no valid selector.
    BadSelector,
    /// The page shows no banner image.
    NoBanner,
    /// The banner image has no source.
    BannerWithoutSource,
    /// The page has no element with the user's name.
    NoUsernameElement,
    /// The profile could not be read off the page.
    Page(PageError),
    /// A post cannot be downloaded yet.
    PostsUnimplemented,
    /// A link among the posts is another user's post.
    RetweetsUnsupported,
}

/// Why a profile could not be read off a page.
#[derive(Debug, Clone, Copy, PartialEq, Eq, Structural)]
pub enum PageError {
    /// A selector is no valid selector.
    BadSelector,
    /// There is no element with the user's name, or no `@` in it.
    NoUsername,
    /// There is no element with the user's description.
    NoDescription,
    /// No link leads to the list of followed users.
    NoFollowingLink,
    /// The link to the followed users has no text.
    NoFollowingCount,
    /// The number of followed users is no number.
    BadFollowingCount,
    /// No link leads to the list of followers.
    NoFollowersLink,
    /// The link to the followers has no text.
    NoFollowersCount,
    /// The number of followers is no number.
    BadFollowersCount,
    /// Everything was found, and nothing is made of it yet.
    Unimplemented,
}

/// Whether an image is the banner.
pub open spec fn is_banner() -> spec_fn(ElementView) -> bool {
    |e: ElementView| e.attr("alt"@) == Some("Image"@)
}

/// The banner's URL among images: the source of the first image whose
/// alternative text is `Image`.
pub open spec fn banner_among_spec(images: Seq<ElementView>) -> Result<Seq<char>, FetchError> {
    match first_where(images, is_banner()) {
        Some(image) => match image.attr("src"@) {
            Some(url) => Ok(url),
            None => Err(FetchError::BannerWithoutSource),
        },
        None => Err(FetchError::NoBanner),
    }
}

/// The banner's URL on a page that shows the banner: the one among the
/// page's images.
pub open spec fn banner_url_of(src: Seq<char>) -> Result<Seq<char>, FetchError> {
    match html_select(src, "img"@) {
        Some(images) => banner_among_spec(images),
        None => Err(FetchError::BadSelector),
    }
}

/// The banner's URL among images: see [`banner_among_spec`].
pub fn banner_among(images: &Vec<Element>) -> (r: Result<String, FetchError>)
    ensures
        match r {
            Ok(url) => banner_among_spec(images.deep_view()) == Ok::<Seq<char>, FetchError>(url@),
            Err(e) => banner_among_spec(images.deep_view()) == Err::<Seq<char>, FetchError>(e),
        },
{
    let mut i: usize = 0;
    while i < images.len()
        invariant
            i <= images.len(),
            forall|j: int| 0 <= j < i ==> !is_banner()(#[trigger] images.deep_view()[j]),
        decreases images.len() - i,
    {
        if images[i].attr_is("alt", "Image") {
            proof {
                assert(images.deep_view()[i as int] == images[i as int]@);
                assert(is_first(images.deep_view(), is_banner(), i as int));
                lemma_first_found(images.deep_view(), is_banner(), i as int);
            }
            return match images[i].attr("src") {
                Some(url) => Ok(url.to_owned()),
                None => Err(FetchError::BannerWithoutSource),
            };
        }
        assert(!is_banner()(images.deep_view()[i as int]));
        i += 1;
    }
    proof {
        lemma_first_absent(images.deep_view(), is_banner());
    }
    Err(FetchError::NoBanner)
}

/// The banner's URL on a page that shows the banner: see [`banner_url_of`].
pub fn get_banner_url_impl(src: &str) -> (r: Result<String, FetchError>)
    ensures
        match r {
            Ok(url) => banner_url_of(src@) == Ok::<Seq<char>, FetchError>(url@),
            Err(e) => banner_url_of(src@) == Err::<Seq<char>, FetchError>(e),
        },
{
    match select_elements(src, "img") {
        Some(images) => banner_among(&images),
        None => Err(FetchError::BadSelector),
    }
}

/// The user that a profile link names: the link without its first character,
/// where that is an ASCII character.
pub open spec fn handle_of(href: Seq<char>) -> Option<Seq<char>> {
    if href.len() > 0 && href[0] <= '\x7f' {
        Some(href.skip(1))
    } else {
        None
    }
}

/// The user that an anchor of the following list stands for: the one that
/// its link names, where the anchor has all the classes.
pub open spec fn followed_user(classes: Seq<Seq<char>>) -> spec_fn(ElementView) -> Option<
    Seq<char>,
> {
    |e: ElementView|
        if has_all_classes(e, classes) {
            match e.attr("href"@) {
                Some(href) => handle_of(href),
                None => None,
            }
        } else {
            None
        }
}

/// The users that the anchors of a following list stand for, in order.
pub open spec fn followed_users(anchors: Seq<ElementView>, classes: Seq<Seq<char>>) -> Seq<
    Seq<char>,
> {
    anchors.filter_map(followed_user(classes))
}

/// The user that a profile link names: see [`handle_of`].
fn handle(href: &str) -> (r: Option<String>)
    ensures
        r.deep_view() == handle_of(href@),
{
    let n = href.unicode_len();
    if n > 0 && href.get_char(0) <= '\x7f' {
        let rest = href.substring_char(1, n);
        assert(href@.skip(1) == href@.subrange(1, n as int));
        Some(rest.to_owned())
    } else {
        None
    }
}

/// The users that the anchors of a following list stand for: see
/// [`followed_users`].
pub fn users_among(anchors: &Vec<Element>, classes: &[&str]) -> (users: Vec<String>)
    ensures
        users.deep_view() == followed_users(anchors.deep_view(), classes.deep_view()),
{
    let ghost f = followed_user(classes.deep_view());
    let ghost all = anchors.deep_view();
    let mut users: Vec<String> = Vec::new();
    let mut i: usize = 0;
    while i < anchors.len()
        invariant
            i <= anchors.len(),
            all == anchors.deep_view(),
            f == followed_user(classes.deep_view()),
            users.deep_view() == all.take(i as int).filter_map(f),
        decreases anchors.len() - i,
    {
        let ghost prev = users.deep_view();
        proof {
            all.lemma_filter_map_take_succ(f, i as int);
            assert(all[i as int] == anchors[i as int]@);
        }
        if has_classes(&anchors[i], classes) {
            match anchors[i].attr("href") {
                Some(href) => match handle(href) {
                    Some(user) => {
                        users.push(user);
                        assert(users.deep_view() == prev.push(user@));
                    },
                    None => {},
                },
                None => {},
            }
        }
        i += 1;
    }
    assert(all.take(anchors.len() as int) == all);
    users
}

/// The users on a page of a following list: those that its anchors stand
/// for, or `None` where the page could not be searched.
pub open spec fn users_on_page(src: Seq<char>, classes: Seq<Seq<char>>) -> Option<Seq<Seq<char>>> {
    match html_select(src, "a"@) {
        Some(anchors) => Some(followed_users(anchors, classes)),
        None => None,
    }
}

/// The users on a page of a following list: see [`users_on_page`].
pub fn following_snapshot(src: &str, classes: &[&str]) -> (users: Option<Vec<String>>)
    ensures
        users.deep_view() == users_on_page(src@, classes.deep_view()),
{
    match select_elements(src, "a") {
        Some(anchors) => Some(users_among(&anchors, classes)),
        None => None,
    }
}

/// The button that confirms the wish to see a profile with sensitive content.
pub open spec fn xpath_view_profile() -> Seq<char> {
    "/html/body/div[1]/div/div/div[2]/main/div/div/div/div/div/div[3]/div/div/div[2]/div/div[3]/div"@
}

/// How far the opening of a profile has come.
#[derive(Debug, Clone, Copy, PartialEq, Eq, Structural)]
pub enum ProfileState {
    /// The profile's page is being opened.
    Opening,
    /// The page is given time to load.
    Settling,
    /// The wish to see the profile is being confirmed.
    Confirming,
    /// The page is given time again.
    Resting,
}

/// What a step of the opening of a profile leads to.
#[derive(Debug, PartialEq, Eq)]
pub enum ProfileNext {
    Perform(ProfileState, Command),
    Finished(Result<(), FetchError>),
}

/// The content of a [`ProfileNext`].
pub enum ProfileNextView {
    Perform(ProfileState, CommandView),
    Finished(Result<(), FetchError>),
}

impl View for ProfileNext {
    type V = ProfileNextView;

    open spec fn view(&self) -> ProfileNextView {
        match self {
            ProfileNext::Perform(state, command) => ProfileNextView::Perform(*state, command@),
            ProfileNext::Finished(r) => ProfileNextView::Finished(*r),
        }
    }
}

/// What the opening of a profile does with the reply to its last command:
/// the page is opened and given four seconds, the wish to see the profile is
/// confirmed where the page asks for it, and the page is given four seconds
/// more. A command that fails ends it; a confirmation that is not asked for
/// is no failure.
pub open spec fn profile_step_spec(state: ProfileState, reply: ReplyView) -> ProfileNextView {
    match (state, reply) {
        (ProfileState::Opening, ReplyView::Done) => ProfileNextView::Perform(
            ProfileState::Settling,
            CommandView::Sleep { secs: 4 },
        ),
        (ProfileState::Settling, ReplyView::Done) => ProfileNextView::Perform(
            ProfileState::Confirming,
            CommandView::Click { xpath: xpath_view_profile() },
        ),
        (ProfileState::Confirming, ReplyView::Done) => ProfileNextView::Perform(
            ProfileState::Resting,
            CommandView::Sleep { secs: 4 },
        ),
        (ProfileState::Confirming, ReplyView::Missing) => ProfileNextView::Perform(
            ProfileState::Resting,
            CommandView::Sleep { secs: 4 },
        ),
        (ProfileState::Resting, ReplyView::Done) => ProfileNextView::Finished(Ok(())),
        _ => ProfileNextView::Finished(Err(FetchError::RemoteFailed)),
    }
}

/// The opening of a profile before its first step, and its first command.
pub fn goto_user_profile_start(user_link: &str) -> (r: (ProfileState, Command))
    ensures
        r.0 == ProfileState::Opening,
        r.1@ == (CommandView::Goto { url: user_link@ }),
{
    (ProfileState::Opening, Command::Goto { url: user_link.to_owned() })
}

/// One step of the opening of a profile: see [`profile_step_spec`].
pub fn goto_user_profile(state: ProfileState, reply: Reply) -> (next: ProfileNext)
    ensures
        next@ == profile_step_spec(state, reply@),
{
    match (state, reply) {
        (ProfileState::Opening, Reply::Done) => ProfileNext::Perform(
            ProfileState::Settling,
            Command::Sleep { secs: 4 },
        ),
        (ProfileState::Settling, Reply::Done) => ProfileNext::Perform(
            ProfileState::Confirming,
            Command::Click {
                xpath: String::from_str(
                    "/html/body/div[1]/div/div/div[2]/main/div/div/div/div/div/div[3]/div/div/div[2]/div/div[3]/div",
                ),
            },
        ),
        (ProfileState::Confirming, Reply::Done) => ProfileNext::Perform(
            ProfileState::Resting,
            Command::Sleep { secs: 4 },
        ),
        (ProfileState::Confirming, Reply::Missing) => ProfileNext::Perform(
            ProfileState::Resting,
            Command::Sleep { secs: 4 },
        ),
        (ProfileState::Resting, Reply::Done) => ProfileNext::Finished(Ok(())),
        _ => ProfileNext::Finished(Err(FetchError::RemoteFailed)),
    }
}

/// How far the reading of a banner's URL has come.
#[derive(Debug, PartialEq, Eq)]
pub enum BannerState {
    /// The banner is being clicked on.
    Opening,
    /// The banner's view is given time to load.
    Settling,
    /// The page with the banner's view is being read.
    Reading,
    /// The banner's view is being left, what was read in hand.
    Closing(Result<String, FetchError>),
    /// The view had no way out, and the profile is being opened again.
    Returning(Result<String, FetchError>, ProfileState),
}

/// The content of a [`BannerState`].
pub enum BannerStateView {
    Opening,
    Settling,
    Reading,
    Closing(Result<Seq<char>, FetchError>),
    Returning(Result<Seq<char>, FetchError>, ProfileState),
}

/// The content of what was read of a banner.
pub open spec fn read_view(read: Result<String, FetchError>) -> Result<Seq<char>, FetchError> {
    match read {
        Ok(url) => Ok(url@),
        Err(e) => Err(e),
    }
}

impl View for BannerState {
    type V = BannerStateView;

    open spec fn view(&self) -> BannerStateView {
        match self {
            BannerState::Opening => BannerStateView::Opening,
            BannerState::Settling => BannerStateView::Settling,
            BannerState::Reading => BannerStateView::Reading,
            BannerState::Closing(read) => BannerStateView::Closing(read_view(*read)),
            BannerState::Returning(read, state) => BannerStateView::Returning(
                read_view(*read),
                *state,
            ),
        }
    }
}

/// What a step of the reading of a banner's URL leads to.
#[derive(Debug, PartialEq, Eq)]
pub enum BannerNext {
    Perform(BannerState, Command),
    Finished(Result<String, FetchError>),
}

/// The content of a [`BannerNext`].
pub enum BannerNextView {
    Perform(BannerStateView, CommandView),
    Finished(Result<Seq<char>, FetchError>),
}

impl View for BannerNext {
    type V = BannerNextView;

    open spec fn view(&self) -> BannerNextView {
        match self {
            BannerNext::Perform(state, command) => BannerNextView::Perform(state@, command@),
            BannerNext::Finished(read) => BannerNextView::Finished(read_view(*read)),
        }
    }
}

/// The XPath that the settings give under `name`, as a click on it; the
/// reading ends where they give none.
pub open spec fn banner_click(
    xpaths: Map<Seq<char>, String>,
    name: Seq<char>,
    state: BannerStateView,
) -> BannerNextView {
    if xpaths.contains_key(name) {
        BannerNextView::Perform(state, CommandView::Click { xpath: xpaths[name]@ })
    } else {
        BannerNextView::Finished(Err(FetchError::NotInConfig))
    }
}

/// How the reading of a banner's URL starts: with a click on the banner.
pub open spec fn banner_start_spec(xpaths: Map<Seq<char>, String>) -> BannerNextView {
    banner_click(xpaths, "banner_img"@, BannerStateView::Opening)
}

/// What the reading of a banner's URL does with the reply to its last
/// command. The banner is clicked on and given five seconds, and the URL is
/// read off the page. Then the view is left by its exit; where there is no
/// exit the profile is opened again. What was read is the result, unless
/// leaving the view fails.
pub open spec fn banner_step_spec(
    xpaths: Map<Seq<char>, String>,
    user_link: Seq<char>,
    state: BannerStateView,
    reply: ReplyView,
) -> BannerNextView {
    match (state, reply) {
        (BannerStateView::Opening, ReplyView::Done) => BannerNextView::Perform(
            BannerStateView::Settling,
            CommandView::Sleep { secs: 5 },
        ),
        (BannerStateView::Settling, ReplyView::Done) => BannerNextView::Perform(
            BannerStateView::Reading,
            CommandView::Source,
        ),
        (BannerStateView::Reading, ReplyView::Text(page)) => banner_click(
            xpaths,
            "banner_exit"@,
            BannerStateView::Closing(banner_url_of(page)),
        ),
        (BannerStateView::Closing(read), ReplyView::Done) => BannerNextView::Finished(read),
        (BannerStateView::Closing(read), ReplyView::Missing) => BannerNextView::Perform(
            BannerStateView::Returning(read, ProfileState::Opening),
            CommandView::Goto { url: user_link },
        ),
        (BannerStateView::Returning(read, profile), _) => match profile_step_spec(profile, reply) {
            ProfileNextView::Perform(next, command) => BannerNextView::Perform(
                BannerStateView::Returning(read, next),
                command,
            ),
            ProfileNextView::Finished(Ok(())) => BannerNextView::Finished(read),
            ProfileNextView::Finished(Err(e)) => BannerNextView::Finished(Err(e)),
        },
        _ => BannerNextView::Finished(Err(FetchError::RemoteFailed)),
    }
}

/// The XPath that the settings give under `name`, as a click on it.
fn click_on(config: &TwitterConfig, name: &str, state: BannerState) -> (next: BannerNext)
    ensures
        next@ == banner_click(config.xpath_map(), name@, state@),
{
    match config.xpath(name) {
        Ok(xpath) => BannerNext::Perform(state, Command::Click { xpath: xpath.to_owned() }),
        Err(_) => BannerNext::Finished(Err(FetchError::NotInConfig)),
    }
}

/// How the reading of a banner's URL starts: see [`banner_start_spec`].
pub fn get_banner_url_start(config: &Config) -> (next: BannerNext)
    ensures
        next@ == banner_start_spec(config.twitter_config.xpath_map()),
{
    click_on(&config.twitter_config, "banner_img", BannerState::Opening)
}

/// One step of the reading of a banner's URL: see [`banner_step_spec`].
pub fn get_banner_url(config: &Config, user_link: &str, state: BannerState, reply: Reply) -> (next:
    BannerNext)
    ensures
        next@ == banner_step_spec(config.twitter_config.xpath_map(), user_link@, state@, reply@),
{
    match (state, reply) {
        (BannerState::Opening, Reply::Done) => BannerNext::Perform(
            BannerState::Settling,
            Command::Sleep { secs: 5 },
        ),
        (BannerState::Settling, Reply::Done) => BannerNext::Perform(
            BannerState::Reading,
            Command::Source,
        ),
        (BannerState::Reading, Reply::Text(page)) => {
            let read = get_banner_url_impl(page.as_str());
            click_on(&config.twitter_config, "banner_exit", BannerState::Closing(read))
        },
        (BannerState::Closing(read), Reply::Done) => BannerNext::Finished(read),
        (BannerState::Closing(read), Reply::Missing) => BannerNext::Perform(
            BannerState::Returning(read, ProfileState::Opening),
            Command::Goto { url: user_link.to_owned() },
        ),
        (BannerState::Returning(read, profile), reply) => match goto_user_profile(profile, reply) {
            ProfileNext::Perform(next, command) => BannerNext::Perform(
                BannerState::Returning(read, next),
                command,
            ),
            ProfileNext::Finished(Ok(())) => BannerNext::Finished(read),
            ProfileNext::Finished(Err(e)) => BannerNext::Finished(Err(e)),
        },
        _ => BannerNext::Finished(Err(FetchError::RemoteFailed)),
    }
}

/// What the page itself shows of a user.
#[derive(Debug, Clone, PartialEq, Eq)]
pub struct PageUserInfo {
    pub display_name: String,
    pub username: String,
    pub description: String,
    pub date_created: String,
    pub related_link: Option<String>,
    pub location: Option<String>,
    pub following: Option<usize>,
    pub followers: Option<usize>,
}

/// The elements whose test id is `id`.
pub open spec fn has_test_id(id: Seq<char>) -> spec_fn(ElementView) -> bool {
    |e: ElementView| e.attr("data-testid"@) == Some(id)
}

/// The anchors whose link holds `word`.
pub open spec fn links_to(word: Seq<char>) -> spec_fn(ElementView) -> bool {
    |e: ElementView| e.attr("href"@) matches Some(href) && occurs_in(word, href)
}

/// What is wrong with a count on a profile page.
#[derive(Debug, Clone, Copy, PartialEq, Eq, Structural)]
pub enum CountError {
    /// No anchor links to the list that is counted.
    NoLink,
    /// The anchor has no text.
    NoCount,
    /// The anchor's first word is neither abbreviated nor a number.
    BadCount,
}

/// What is wrong with the count on the first anchor that links to `word`, if
/// anything: its first word has to be a decimal number, unless it is
/// abbreviated with `K` or `M`.
pub open spec fn count_error_of(anchors: Seq<ElementView>, word: Seq<char>) -> Option<CountError> {
    match first_where(anchors, links_to(word)) {
        Some(anchor) => match first_word_of(anchor.text()) {
            Some(count) => if count.contains('K') || count.contains('M') {
                None
            } else if decimal_of(count) is None {
                Some(CountError::BadCount)
            } else {
                None
            },
            None => Some(CountError::NoCount),
        },
        None => Some(CountError::NoLink),
    }
}

/// Why no profile comes of the `div` elements and the anchors of a page: the
/// first thing that is missing among them, and that nothing is made of them
/// yet where nothing is missing. The user's name has to stand in an element
/// of its own, with an `@` in it, and the description in another; the counts
/// of followed users and of followers are looked for in this order.
pub open spec fn page_error_among(divs: Seq<ElementView>, anchors: Seq<ElementView>) -> PageError {
    match first_where(divs, has_test_id("UserName"@)) {
        Some(name) => if !name.text().contains('@') {
            PageError::NoUsername
        } else if first_where(divs, has_test_id("UserDescription"@)) is None {
            PageError::NoDescription
        } else {
            match count_error_of(anchors, "following"@) {
                Some(CountError::NoLink) => PageError::NoFollowingLink,
                Some(CountError::NoCount) => PageError::NoFollowingCount,
                Some(CountError::BadCount) => PageError::BadFollowingCount,
                None => match count_error_of(anchors, "followers"@) {
                    Some(CountError::NoLink) => PageError::NoFollowersLink,
                    Some(CountError::NoCount) => PageError::NoFollowersCount,
                    Some(CountError::BadCount) => PageError::BadFollowersCount,
                    None => PageError::Unimplemented,
                },
            }
        },
        None => PageError::NoUsername,
    }
}

/// Why no profile comes of a page: see [`page_error_among`].
pub open spec fn page_error_of(src: Seq<char>) -> PageError {
    match (html_select(src, "div"@), html_select(src, "a"@)) {
        (Some(divs), Some(anchors)) => page_error_among(divs, anchors),
        _ => PageError::BadSelector,
    }
}

/// The first element whose test id is `id`.
fn find_test_id<'a>(elements: &'a Vec<Element>, id: &str) -> (r: Option<&'a Element>)
    ensures
        match r {
            Some(e) => first_where(elements.deep_view(), has_test_id(id@)) == Some(e@),
            None => first_where(elements.deep_view(), has_test_id(id@)) is None,
        },
{
    let mut i: usize = 0;
    while i < elements.len()
        invariant
            i <= elements.len(),
            forall|j: int| 0 <= j < i ==> !has_test_id(id@)(#[trigger] elements.deep_view()[j]),
        decreases elements.len() - i,
    {
        if elements[i].attr_is("data-testid", id) {
            proof {
                assert(elements.deep_view()[i as int] == elements[i as int]@);
                assert(is_first(elements.deep_view(), has_test_id(id@), i as int));
                lemma_first_found(elements.deep_view(), has_test_id(id@), i as int);
            }
            return Some(&elements[i]);
        }
        assert(!has_test_id(id@)(elements.deep_view()[i as int]));
        i += 1;
    }
    proof {
        lemma_first_absent(elements.deep_view(), has_test_id(id@));
    }
    None
}

/// What is wrong with the count on the first anchor that links to `word`:
/// see [`count_error_of`].
fn count_error(anchors: &Vec<Element>, word: &str) -> (r: Option<CountError>)
    ensures
        r == count_error_of(anchors.deep_view(), word@),
{
    let mut i: usize = 0;
    while i < anchors.len()
        invariant
            i <= anchors.len(),
            forall|j: int| 0 <= j < i ==> !links_to(word@)(#[trigger] anchors.deep_view()[j]),
        decreases anchors.len() - i,
    {
        let links = match anchors[i].attr("href") {
            Some(href) => contains_text(href, word),
            None => false,
        };
        assert(anchors.deep_view()[i as int] == anchors[i as int]@);
        if links {
            proof {
                assert(is_first(anchors.deep_view(), links_to(word@), i as int));
                lemma_first_found(anchors.deep_view(), links_to(word@), i as int);
            }
            let text = anchors[i].text();
            return match first_word(text.as_str()) {
                Some(count) => {
                    if contains_char(count, 'K') || contains_char(count, 'M') {
                        None
                    } else if parse_usize(count).is_none() {
                        Some(CountError::BadCount)
                    } else {
                        None
                    }
                },
                None => Some(CountError::NoCount),
            };
        }
        i += 1;
    }
    proof {
        lemma_first_absent(anchors.deep_view(), links_to(word@));
    }
    Some(CountError::NoLink)
}

/// Why no profile comes of the `div` elements and the anchors of a page: see
/// [`page_error_among`].
pub fn page_error(divs: &Vec<Element>, anchors: &Vec<Element>) -> (e: PageError)
    ensures
        e == page_error_among(divs.deep_view(), anchors.deep_view()),
{
    let name = match find_test_id(divs, "UserName") {
        Some(name) => name,
        None => {
            return PageError::NoUsername;
        },
    };
    let text = name.text();
    if !contains_char(text.as_str(), '@') {
        return PageError::NoUsername;
    }
    if find_test_id(divs, "UserDescription").is_none() {
        return PageError::NoDescription;
    }
    match count_error(anchors, "following") {
        Some(CountError::NoLink) => {
            return PageError::NoFollowingLink;
        },
        Some(CountError::NoCount) => {
            return PageError::NoFollowingCount;
        },
        Some(CountError::BadCount) => {
            return PageError::BadFollowingCount;
        },
        None => {},
    }
    match count_error(anchors, "followers") {
        Some(CountError::NoLink) => PageError::NoFollowersLink,
        Some(CountError::NoCount) => PageError::NoFollowersCount,
        Some(CountError::BadCount) => PageError::BadFollowersCount,
        None => PageError::Unimplemented,
    }
}

/// Looks for a user's profile on the page itself. It finds out what the page
/// lacks, and makes nothing yet of a page that lacks nothing: the result is
/// always an error.
pub fn try_get_info_from_page(_user: &str, src: &str) -> (r: Result<PageUserInfo, PageError>)
    ensures
        r matches Err(e) && e == page_error_of(src@),
{
    let divs = match select_elements(src, "div") {
        Some(divs) => divs,
        None => {
            return Err(PageError::BadSelector);
        },
    };
    let anchors = match select_elements(src, "a") {
        Some(anchors) => anchors,
        None => {
            return Err(PageError::BadSelector);
        },
    };
    Err(page_error(&divs, &anchors))
}

/// All that is fetched of a user.
#[derive(Debug, Clone, PartialEq, Eq)]
pub struct FetchedUser {
    pub display_name: String,
    pub username: String,
    pub description: String,
    pub date_created: String,
    pub related_link: Option<String>,
    pub location: Option<String>,
    pub following: usize,
    pub followers: usize,
    pub pfp_url: String,
    pub banner_url: String,
}

/// The content of a [`FetchedUser`].
pub struct FetchedUserView {
    pub info: JsonFetchedUserView,
    pub banner_url: Seq<char>,
}

impl View for FetchedUser {
    type V = FetchedUserView;

    open spec fn view(&self) -> FetchedUserView {
        FetchedUserView {
            info: JsonFetchedUserView {
                display_name: self.display_name@,
                username: self.username@,
                description: self.description@,
                date_created: self.date_created@,
                related_link: self.related_link.deep_view(),
                location: self.location.deep_view(),
                following: self.following,
                followers: self.followers,
                pfp_url: self.pfp_url@,
            },
            banner_url: self.banner_url@,
        }
    }
}

/// How far the fetch of a user's profile has come.
#[derive(Debug, PartialEq, Eq)]
pub enum UserInfoState {
    /// The profile is being opened.
    Visiting(ProfileState),
    /// The profile's page is being read.
    ReadingProfile,
    /// The page gave the profile, and the banner's URL is being read.
    FetchingBanner(JsonFetchedUser, BannerState),
    /// The page gave no structured data, and is being read once more.
    ReadingPage,
}

/// The content of a [`UserInfoState`].
pub enum UserInfoStateView {
    Visiting(ProfileState),
    ReadingProfile,
    FetchingBanner(JsonFetchedUserView, BannerStateView),
    ReadingPage,
}

impl View for UserInfoState {
    type V = UserInfoStateView;

    open spec fn view(&self) -> UserInfoStateView {
        match self {
            UserInfoState::Visiting(state) => UserInfoStateView::Visiting(*state),
            UserInfoState::ReadingProfile => UserInfoStateView::ReadingProfile,
            UserInfoState::FetchingBanner(user, state) => UserInfoStateView::FetchingBanner(
                user@,
                state@,
            ),
            UserInfoState::ReadingPage => UserInfoStateView::ReadingPage,
        }
    }
}

/// What a step of the fetch of a user's profile leads to.
#[derive(Debug, PartialEq, Eq)]
pub enum UserInfoNext {
    Perform(UserInfoState, Command),
    Finished(Result<FetchedUser, FetchError>),
}

/// The content of a [`UserInfoNext`].
pub enum UserInfoNextView {
    Perform(UserInfoStateView, CommandView),
    Finished(Result<FetchedUserView, FetchError>),
}

impl View for UserInfoNext {
    type V = UserInfoNextView;

    open spec fn view(&self) -> UserInfoNextView {
        match self {
            UserInfoNext::Perform(state, command) => UserInfoNextView::Perform(state@, command@),
            UserInfoNext::Finished(Ok(user)) => UserInfoNextView::Finished(Ok(user@)),
            UserInfoNext::Finished(Err(e)) => UserInfoNextView::Finished(Err(*e)),
        }
    }
}

/// The fetch going on with the reading of the banner's URL, or ending with
/// what that reading ended with.
pub open spec fn with_banner(user: JsonFetchedUserView, banner: BannerNextView) -> UserInfoNextView {
    match banner {
        BannerNextView::Perform(state, command) => UserInfoNextView::Perform(
            UserInfoStateView::FetchingBanner(user, state),
            command,
        ),
        BannerNextView::Finished(Ok(url)) => UserInfoNextView::Finished(
            Ok(FetchedUserView { info: user, banner_url: url }),
        ),
        BannerNextView::Finished(Err(e)) => UserInfoNextView::Finished(Err(e)),
    }
}

/// What the fetch of a user's profile does with the reply to its last
/// command. The profile is opened and its page read. Where the page's
/// structured data give the profile, the banner's URL is read and completes
/// it. Where they do not, the page is read once more and searched itself,
/// which gives an error. A command that fails ends the fetch.
pub open spec fn user_info_step_spec(
    xpaths: Map<Seq<char>, String>,
    user_link: Seq<char>,
    state: UserInfoStateView,
    reply: ReplyView,
) -> UserInfoNextView {
    match (state, reply) {
        (UserInfoStateView::Visiting(profile), _) => match profile_step_spec(profile, reply) {
            ProfileNextView::Perform(next, command) => UserInfoNextView::Perform(
                UserInfoStateView::Visiting(next),
                command,
            ),
            ProfileNextView::Finished(Ok(())) => UserInfoNextView::Perform(
                UserInfoStateView::ReadingProfile,
                CommandView::Source,
            ),
            ProfileNextView::Finished(Err(e)) => UserInfoNextView::Finished(Err(e)),
        },
        (UserInfoStateView::ReadingProfile, ReplyView::Text(page)) => match info_from_json(page) {
            Some(user) => with_banner(user, banner_start_spec(xpaths)),
            None => UserInfoNextView::Perform(UserInfoStateView::ReadingPage, CommandView::Source),
        },
        (UserInfoStateView::FetchingBanner(user, banner), _) => with_banner(
            user,
            banner_step_spec(xpaths, user_link, banner, reply),
        ),
        (UserInfoStateView::ReadingPage, ReplyView::Text(page)) => UserInfoNextView::Finished(
            Err(FetchError::Page(page_error_of(page))),
        ),
        _ => UserInfoNextView::Finished(Err(FetchError::RemoteFailed)),
    }
}

/// The fetch going on with the reading of the banner's URL: see [`with_banner`].
fn continue_with_banner(user: JsonFetchedUser, banner: BannerNext) -> (next: UserInfoNext)
    ensures
        next@ == with_banner(user@, banner@),
{
    match banner {
        BannerNext::Perform(state, command) => UserInfoNext::Perform(
            UserInfoState::FetchingBanner(user, state),
            command,
        ),
        BannerNext::Finished(Ok(url)) => UserInfoNext::Finished(
            Ok(
                FetchedUser {
                    display_name: user.display_name,
                    username: user.username,
                    description: user.description,
                    date_created: user.date_created,
                    related_link: user.related_link,
                    location: user.location,
                    following: user.following,
                    followers: user.followers,
                    pfp_url: user.pfp_url,
                    banner_url: url,
                },
            ),
        ),
        BannerNext::Finished(Err(e)) => UserInfoNext::Finished(Err(e)),
    }
}

/// The fetch of a user's profile before its first step, and its first command.
pub fn get_user_info_start(user_link: &str) -> (r: (UserInfoState, Command))
    ensures
        r.0@ == UserInfoStateView::Visiting(ProfileState::Opening),
        r.1@ == (CommandView::Goto { url: user_link@ }),
{
    let (profile, command) = goto_user_profile_start(user_link);
    (UserInfoState::Visiting(profile), command)
}

/// One step of the fetch of a user's profile: see [`user_info_step_spec`].
pub fn get_user_info(
    config: &Config,
    user: &str,
    user_link: &str,
    state: UserInfoState,
    reply: Reply,
) -> (next: UserInfoNext)
    ensures
        next@ == user_info_step_spec(
            config.twitter_config.xpath_map(),
            user_link@,
            state@,
            reply@,
        ),
{
    match (state, reply) {
        (UserInfoState::Visiting(profile), reply) => match goto_user_profile(profile, reply) {
            ProfileNext::Perform(next, command) => UserInfoNext::Perform(
                UserInfoState::Visiting(next),
                command,
            ),
            ProfileNext::Finished(Ok(())) => UserInfoNext::Perform(
                UserInfoState::ReadingProfile,
                Command::Source,
            ),
            ProfileNext::Finished(Err(e)) => UserInfoNext::Finished(Err(e)),
        },
        (UserInfoState::ReadingProfile, Reply::Text(page)) => match try_get_info_from_json(
            page.as_str(),
        ) {
            Some(found) => continue_with_banner(found, get_banner_url_start(config)),
            None => UserInfoNext::Perform(UserInfoState::ReadingPage, Command::Source),
        },
        (UserInfoState::FetchingBanner(found, banner), reply) => continue_with_banner(
            found,
            get_banner_url(config, user_link, banner, reply),
        ),
        (UserInfoState::ReadingPage, Reply::Text(page)) => match try_get_info_from_page(
            user,
            page.as_str(),
        ) {
            Ok(_) => UserInfoNext::Finished(Err(FetchError::Page(PageError::Unimplemented))),
            Err(e) => UserInfoNext::Finished(Err(FetchError::Page(e))),
        },
        _ => UserInfoNext::Finished(Err(FetchError::RemoteFailed)),
    }
}

/// The script that scrolls a following list on.
pub open spec fn following_scroll() -> Seq<char> {
    "window.scrollBy(0,100);"@
}

/// The page that lists whom a user follows.
pub open spec fn following_url(username: Seq<char>) -> Seq<char> {
    "https://twitter.com/"@ + username + "/following"@
}

/// How far the reading of a following list has come.
#[derive(Debug, PartialEq, Eq)]
pub enum FollowingState {
    /// The list's page is being opened.
    Opening,
    /// The page is given time to load.
    Settling,
    /// The list is being scrolled on.
    Scrolling(Collector),
    /// The list is given time to grow.
    Waiting(Collector),
    /// The page is being read.
    Reading(Collector),
}

/// The content of a [`FollowingState`].
pub enum FollowingStateView {
    Opening,
    Settling,
    Scrolling(CollectorView),
    Waiting(CollectorView),
    Reading(CollectorView),
}

impl View for FollowingState {
    type V = FollowingStateView;

    open spec fn view(&self) -> FollowingStateView {
        match self {
            FollowingState::Opening => FollowingStateView::Opening,
            FollowingState::Settling => FollowingStateView::Settling,
            FollowingState::Scrolling(c) => FollowingStateView::Scrolling(c@),
            FollowingState::Waiting(c) => FollowingStateView::Waiting(c@),
            FollowingState::Reading(c) => FollowingStateView::Reading(c@),
        }
    }
}

impl FollowingState {
    /// The harvest under way, if there is one, is well formed.
    pub open spec fn wf(&self) -> bool {
        match self {
            FollowingState::Scrolling(c) => c.wf(),
            FollowingState::Waiting(c) => c.wf(),
            FollowingState::Reading(c) => c.wf(),
            _ => true,
        }
    }
}

/// What a step of the reading of a following list leads to.
#[derive(Debug, PartialEq, Eq)]
pub enum FollowingNext {
    Perform(FollowingState, Command),
    Finished(Result<Vec<String>, FetchError>),
}

/// The content of a [`FollowingNext`].
pub enum FollowingNextView {
    Perform(FollowingStateView, CommandView),
    Finished(Result<Seq<Seq<char>>, FetchError>),
}

impl View for FollowingNext {
    type V = FollowingNextView;

    open spec fn view(&self) -> FollowingNextView {
        match self {
            FollowingNext::Perform(state, command) => FollowingNextView::Perform(state@, command@),
            FollowingNext::Finished(Ok(users)) => FollowingNextView::Finished(
                Ok(users.deep_view()),
            ),
            FollowingNext::Finished(Err(e)) => FollowingNextView::Finished(Err(*e)),
        }
    }
}

impl FollowingNext {
    /// The harvest that goes on, if one does, is well formed.
    pub open spec fn wf(&self) -> bool {
        match self {
            FollowingNext::Perform(state, _) => state.wf(),
            _ => true,
        }
    }
}

/// The reading going on with a harvest: it scrolls on, or ends with the
/// users gathered where the harvest is over.
pub open spec fn following_continue(c: CollectorView) -> FollowingNextView {
    if c.finished() {
        FollowingNextView::Finished(Ok(c.items))
    } else {
        FollowingNextView::Perform(
            FollowingStateView::Scrolling(c),
            CommandView::Execute { script: following_scroll() },
        )
    }
}

/// What the reading of a following list does with the reply to its last
/// command. The page is opened and given six seconds. Then the list is
/// harvested with no stop condition but the retry budget: it is scrolled on,
/// given the time that the harvest asks for, and read, and the users on the
/// page are handed to the harvest. The reading fails where a command fails,
/// where the settings name no classes for the list's anchors, or where the
/// longest wait would not fit the machine's integers.
pub open spec fn following_step_spec(
    max_retries: usize,
    retry_delay: usize,
    classes: Option<Seq<Seq<char>>>,
    state: FollowingStateView,
    reply: ReplyView,
) -> FollowingNextView {
    match (state, reply) {
        (FollowingStateView::Opening, ReplyView::Done) => FollowingNextView::Perform(
            FollowingStateView::Settling,
            CommandView::Sleep { secs: 6 },
        ),
        (FollowingStateView::Settling, ReplyView::Done) => if classes is None {
            FollowingNextView::Finished(Err(FetchError::NotInConfig))
        } else if retry_delay * max_retries > usize::MAX {
            FollowingNextView::Finished(Err(FetchError::InvalidSettings))
        } else {
            following_continue(
                CollectorView::start(StopView::Never, max_retries as nat, retry_delay as nat),
            )
        },
        (FollowingStateView::Scrolling(c), ReplyView::Done) => if c.finished() {
            FollowingNextView::Finished(Ok(c.items))
        } else {
            FollowingNextView::Perform(
                FollowingStateView::Waiting(c),
                CommandView::Sleep { secs: c.wait_secs() as usize },
            )
        },
        (FollowingStateView::Waiting(c), ReplyView::Done) => FollowingNextView::Perform(
            FollowingStateView::Reading(c),
            CommandView::Source,
        ),
        (FollowingStateView::Reading(c), ReplyView::Text(page)) => match classes {
            Some(classes) => match users_on_page(page, classes) {
                Some(users) => following_continue(c.absorb(users)),
                None => FollowingNextView::Finished(Err(FetchError::BadSelector)),
            },
            None => FollowingNextView::Finished(Err(FetchError::NotInConfig)),
        },
        _ => FollowingNextView::Finished(Err(FetchError::RemoteFailed)),
    }
}

/// The classes that the settings give for the anchors of a following list.
pub open spec fn following_classes(config: &TwitterConfig) -> Option<Seq<Seq<char>>> {
    if config.css_class_map().contains_key("following_users"@) {
        Some(config.css_class_map()["following_users"@].deep_view())
    } else {
        None
    }
}

/// The reading going on with a harvest: see [`following_continue`].
fn continue_following(c: Collector) -> (next: FollowingNext)
    requires
        c.wf(),
    ensures
        next@ == following_continue(c@),
        next.wf(),
{
    match c.action() {
        CollectAction::Done => FollowingNext::Finished(Ok(c.items())),
        CollectAction::Scroll { .. } => FollowingNext::Perform(
            FollowingState::Scrolling(c),
            Command::Execute { script: String::from_str("window.scrollBy(0,100);") },
        ),
    }
}

/// The reading of a following list before its first step, and its first command.
pub fn get_users_from_following_start(config: &Config) -> (r: (FollowingState, Command))
    ensures
        r.0@ == FollowingStateView::Opening,
        r.0.wf(),
        r.1@ == (CommandView::Goto { url: following_url(config.fetch_config.fetch_username@) }),
{
    let url = String::from_str("https://twitter.com/").concat(
        config.fetch_config.fetch_username.as_str(),
    ).concat("/following");
    (FollowingState::Opening, Command::Goto { url })
}

/// One step of the reading of a following list: see [`following_step_spec`].
pub fn get_users_from_following(config: &Config, state: FollowingState, reply: Reply) -> (next:
    FollowingNext)
    requires
        state.wf(),
    ensures
        next@ == following_step_spec(
            config.fetch_config.max_retries,
            config.fetch_config.users_from_following_retry_delay,
            following_classes(&config.twitter_config),
            state@,
            reply@,
        ),
        next.wf(),
{
    match (state, reply) {
        (FollowingState::Opening, Reply::Done) => FollowingNext::Perform(
            FollowingState::Settling,
            Command::Sleep { secs: 6 },
        ),
        (FollowingState::Settling, Reply::Done) => {
            if config.twitter_config.css_class("following_users").is_err() {
                return FollowingNext::Finished(Err(FetchError::NotInConfig));
            }
            let max_retries = config.fetch_config.max_retries;
            let retry_delay = config.fetch_config.users_from_following_retry_delay;
            match retry_delay.checked_mul(max_retries) {
                Some(_) => continue_following(
                    Collector::new(StopCondition::Never, max_retries, retry_delay),
                ),
                None => FollowingNext::Finished(Err(FetchError::InvalidSettings)),
            }
        },
        (FollowingState::Scrolling(c), Reply::Done) => match c.action() {
            CollectAction::Scroll { wait_secs } => FollowingNext::Perform(
                FollowingState::Waiting(c),
                Command::Sleep { secs: wait_secs },
            ),
            CollectAction::Done => FollowingNext::Finished(Ok(c.items())),
        },
        (FollowingState::Waiting(c), Reply::Done) => FollowingNext::Perform(
            FollowingState::Reading(c),
            Command::Source,
        ),
        (FollowingState::Reading(c), Reply::Text(page)) => {
            let classes = match config.twitter_config.css_class("following_users") {
                Ok(classes) => classes,
                Err(_) => {
                    return FollowingNext::Finished(Err(FetchError::NotInConfig));
                },
            };
            match following_snapshot(page.as_str(), classes.as_slice()) {
                Some(users) => {
                    let mut c = c;
                    c.absorb(&users);
                    continue_following(c)
                },
                None => FollowingNext::Finished(Err(FetchError::BadSelector)),
            }
        },
        _ => FollowingNext::Finished(Err(FetchError::RemoteFailed)),
    }
}

} // verus!
