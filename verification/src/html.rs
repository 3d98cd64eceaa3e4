//! Page snapshots as plain values: the elements that a selector finds in a
//! document, each with its attributes, its classes and its text.

use crate::seqs::{first_where, is_first, lemma_first_absent, lemma_first_found};
use crate::text::{ascii_fold, eq_ignore_ascii_case, same_text};
use vstd::prelude::*;
use vstd::string::StringExecFns;

verus! {

/// One element of a parsed page, reduced to what the scrapers read.
#[derive(Debug, Clone, PartialEq, Eq)]
pub struct Element {
    /// Attribute names (without namespace) and values.
    pub attrs: Vec<(String, String)>,
    /// The element's classes.
    pub classes: Vec<String>,
    /// The text nodes below the element, in document order.
    pub texts: Vec<String>,
}

/// The mathematical content of an [`Element`].
pub struct ElementView {
    pub attrs: Seq<(Seq<char>, Seq<char>)>,
    pub classes: Seq<Seq<char>>,
    pub texts: Seq<Seq<char>>,
}

impl View for Element {
    type V = ElementView;

    open spec fn view(&self) -> ElementView {
        ElementView {
            attrs: self.attrs.deep_view(),
            classes: self.classes.deep_view(),
            texts: self.texts.deep_view(),
        }
    }
}

impl DeepView for Element {
    type V = ElementView;

    open spec fn deep_view(&self) -> ElementView {
        self@
    }
}

/// The elements that `selector` matches in the document `src`, in the order in
/// which the parser's tree yields them; `None` where `selector` is no valid
/// selector group.
pub uninterp spec fn html_select(src: Seq<char>, selector: Seq<char>) -> Option<Seq<ElementView>>;

/// For each element that `outer` matches in the document `src`, the elements
/// below it that `inner` matches; `None` where either is no valid selector group.
pub uninterp spec fn html_select_within(src: Seq<char>, outer: Seq<char>, inner: Seq<char>) -> Option<
    Seq<Seq<ElementView>>,
>;

/// `scraper::Html::parse_document` and `Html::select` with a selector made by
/// `Selector::parse`: the matching elements, each copied out through
/// `Element::attrs`, `Element::classes` and `ElementRef::text`. A selector that
/// does not parse gives `None`.
#[verifier::external_body]
pub(crate) fn select_elements(src: &str, selector: &str) -> (found: Option<Vec<Element>>)
    ensures
        found.deep_view() == html_select(src@, selector@),
{
    let selector = scraper::Selector::parse(selector).ok()?;
    let document = scraper::Html::parse_document(src);
    Some(document.select(&selector).map(|e| Element {
        attrs: e.value().attrs().map(|(k, v)| (k.to_owned(), v.to_owned())).collect(),
        classes: e.value().classes().map(|c| c.to_owned()).collect(),
        texts: e.text().map(|t| t.to_owned()).collect(),
    }).collect())
}

/// `scraper::ElementRef::select` on each element that `Html::select` finds for
/// `outer`: the descendants matching `inner`, copied out as in
/// [`select_elements`]. A selector that does not parse gives `None`.
#[verifier::external_body]
pub(crate) fn select_within(src: &str, outer: &str, inner: &str) -> (found: Option<Vec<Vec<Element>>>)
    ensures
        found.deep_view() == html_select_within(src@, outer@, inner@),
{
    let outer = scraper::Selector::parse(outer).ok()?;
    let inner = scraper::Selector::parse(inner).ok()?;
    let document = scraper::Html::parse_document(src);
    Some(document.select(&outer).map(|o| o.select(&inner).map(|e| Element {
        attrs: e.value().attrs().map(|(k, v)| (k.to_owned(), v.to_owned())).collect(),
        classes: e.value().classes().map(|c| c.to_owned()).collect(),
        texts: e.text().map(|t| t.to_owned()).collect(),
    }).collect()).collect())
}

/// Whether an attribute has the name `name`.
pub open spec fn attr_named(name: Seq<char>) -> spec_fn((Seq<char>, Seq<char>)) -> bool {
    |attr: (Seq<char>, Seq<char>)| attr.0 == name
}

impl ElementView {
    /// The value of the first attribute named `name`.
    pub open spec fn attr(self, name: Seq<char>) -> Option<Seq<char>> {
        match first_where(self.attrs, attr_named(name)) {
            Some(attr) => Some(attr.1),
            None => None,
        }
    }

    /// Whether one of the classes equals `class` up to the case of ASCII letters.
    pub open spec fn has_class(self, class: Seq<char>) -> bool {
        exists|i: int|
            0 <= i < self.classes.len() && ascii_fold(#[trigger] self.classes[i]) == ascii_fold(
                class,
            )
    }

    /// The element's text: its text nodes, one after the other.
    pub open spec fn text(self) -> Seq<char> {
        self.texts.flatten()
    }
}

impl Element {
    /// The value of the first attribute named `name`.
    pub fn attr(&self, name: &str) -> (r: Option<&str>)
        ensures
            match r {
                Some(value) => self@.attr(name@) == Some(value@),
                None => self@.attr(name@) is None,
            },
    {
        let mut i: usize = 0;
        while i < self.attrs.len()
            invariant
                i <= self.attrs.len(),
                forall|j: int| 0 <= j < i ==> !attr_named(name@)(#[trigger] self@.attrs[j]),
            decreases self.attrs.len() - i,
        {
            if same_text(self.attrs[i].0.as_str(), name) {
                proof {
                    assert(is_first(self@.attrs, attr_named(name@), i as int));
                    lemma_first_found(self@.attrs, attr_named(name@), i as int);
                }
                return Some(self.attrs[i].1.as_str());
            }
            i += 1;
        }
        proof {
            lemma_first_absent(self@.attrs, attr_named(name@));
        }
        None
    }

    /// Whether the first attribute named `name` has the value `value`.
    pub fn attr_is(&self, name: &str, value: &str) -> (r: bool)
        ensures
            r == (self@.attr(name@) == Some(value@)),
    {
        match self.attr(name) {
            Some(found) => same_text(found, value),
            None => false,
        }
    }

    /// Whether one of the classes equals `class` up to the case of ASCII letters.
    pub fn has_class(&self, class: &str) -> (r: bool)
        ensures
            r == self@.has_class(class@),
    {
        let mut i: usize = 0;
        while i < self.classes.len()
            invariant
                i <= self.classes.len(),
                forall|j: int|
                    0 <= j < i ==> ascii_fold(#[trigger] self@.classes[j]) != ascii_fold(class@),
            decreases self.classes.len() - i,
        {
            if eq_ignore_ascii_case(self.classes[i].as_str(), class) {
                assert(ascii_fold(self@.classes[i as int]) == ascii_fold(class@));
                return true;
            }
            i += 1;
        }
        false
    }

    /// The element's text: its text nodes, one after the other.
    pub fn text(&self) -> (r: String)
        ensures
            r@ == self@.text(),
    {
        let mut out = String::new();
        let mut i: usize = 0;
        while i < self.texts.len()
            invariant
                i <= self.texts.len(),
                out@ == self@.texts.take(i as int).flatten(),
            decreases self.texts.len() - i,
        {
            proof {
                let taken = self@.texts.take(i as int);
                assert(self@.texts.take(i + 1) == taken.push(self@.texts[i as int]));
                taken.lemma_flatten_push(self@.texts[i as int]);
            }
            out.append(self.texts[i].as_str());
            i += 1;
        }
        assert(self@.texts.take(self.texts.len() as int) == self@.texts);
        out
    }
}

/// Whether the element has every one of `classes`, up to the case of ASCII letters.
pub open spec fn has_all_classes(e: ElementView, classes: Seq<Seq<char>>) -> bool {
    forall|i: int| 0 <= i < classes.len() ==> e.has_class(#[trigger] classes[i])
}

pub fn has_classes(e: &Element, classes: &[&str]) -> (r: bool)
    ensures
        r == has_all_classes(e@, classes.deep_view()),
{
    let mut i: usize = 0;
    while i < classes.len()
        invariant
            i <= classes.len(),
            forall|j: int| 0 <= j < i ==> e@.has_class(#[trigger] classes.deep_view()[j]),
        decreases classes.len() - i,
    {
        if !e.has_class(classes[i]) {
            assert(!e@.has_class(classes.deep_view()[i as int]));
            return false;
        }
        i += 1;
    }
    true
}

} // verus!
