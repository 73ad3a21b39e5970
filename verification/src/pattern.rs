//! URL patterns: exact, prefix and substring matches over the characters of
//! a URL.
//!
//! A URL is compared character by character, with no normalisation: case,
//! trailing slashes, query and fragment all count.

use vstd::prelude::*;

verus! {

/// `pat` occurs in `url` starting at position `at`.
pub open spec fn occurs_at(pat: Seq<char>, url: Seq<char>, at: int) -> bool {
    &&& 0 <= at
    &&& at + pat.len() <= url.len()
    &&& url.subrange(at, at + pat.len()) == pat
}

/// `pat` occurs somewhere in `url`.
pub open spec fn occurs_in(pat: Seq<char>, url: Seq<char>) -> bool {
    exists|at: int| occurs_at(pat, url, at)
}

/// A pattern that a URL either matches or does not.
#[derive(Debug)]
pub enum UrlPattern {
    /// The URL is exactly this text.
    Exact(String),
    /// The URL starts with this text.
    Prefix(String),
    /// The URL holds this text somewhere.
    Contains(String),
}

/// The mathematical model of a [`UrlPattern`].
pub enum PatternView {
    Exact(Seq<char>),
    Prefix(Seq<char>),
    Contains(Seq<char>),
}

impl PatternView {
    /// Whether `url` matches this pattern.
    pub open spec fn matches(self, url: Seq<char>) -> bool {
        match self {
            PatternView::Exact(text) => url == text,
            PatternView::Prefix(text) => text.is_prefix_of(url),
            PatternView::Contains(text) => occurs_in(text, url),
        }
    }
}

impl View for UrlPattern {
    type V = PatternView;

    open spec fn view(&self) -> PatternView {
        match self {
            UrlPattern::Exact(text) => PatternView::Exact(text@),
            UrlPattern::Prefix(text) => PatternView::Prefix(text@),
            UrlPattern::Contains(text) => PatternView::Contains(text@),
        }
    }
}

/// The models of a list of patterns, in the same order.
pub open spec fn patterns_view(pats: Seq<UrlPattern>) -> Seq<PatternView> {
    Seq::new(pats.len(), |i: int| pats[i]@)
}

/// At least one pattern of the list matches `url`.
pub open spec fn any_matches(pats: Seq<PatternView>, url: Seq<char>) -> bool {
    exists|i: int| 0 <= i < pats.len() && #[trigger] pats[i].matches(url)
}

/// The characters of a string, in order.
fn chars_of(s: &str) -> (v: Vec<char>)
    ensures
        v@ == s@,
{
    let mut v: Vec<char> = Vec::new();
    for c in it: s.chars()
        invariant
            it.seq() == s@,
            v@ == it.history(),
    {
        v.push(c);
    }
    v
}

/// Whether two strings hold the same characters.
pub fn same_text(a: &str, b: &str) -> (same: bool)
    ensures
        same == (a@ == b@),
{
    let left = chars_of(a);
    let right = chars_of(b);
    if left.len() != right.len() {
        return false;
    }
    let same = matches_at(&left, &right, 0);
    assert(left@.subrange(0, right@.len() as int) =~= left@);
    same
}

/// Compares `pat` with the characters of `url` that start at `at`.
fn matches_at(url: &Vec<char>, pat: &Vec<char>, at: usize) -> (b: bool)
    requires
        at + pat.len() <= url.len(),
    ensures
        b == occurs_at(pat@, url@, at as int),
{
    let mut i: usize = 0;
    while i < pat.len()
        invariant
            i <= pat.len(),
            at + pat.len() <= url.len(),
            forall|k: int| 0 <= k < i ==> url@[at + k] == pat@[k],
        decreases pat.len() - i,
    {
        if url[at + i] != pat[i] {
            assert(url@.subrange(at as int, at + pat@.len())[i as int] == url@[at + i]);
            return false;
        }
        i += 1;
    }
    assert(url@.subrange(at as int, at + pat@.len()) =~= pat@);
    true
}

/// Looks for `pat` in `url`, trying each starting position from the left.
fn occurs(url: &Vec<char>, pat: &Vec<char>) -> (b: bool)
    ensures
        b == occurs_in(pat@, url@),
{
    if pat.len() > url.len() {
        return false;
    }
    let last: usize = url.len() - pat.len();
    let mut at: usize = 0;
    while at < last
        invariant
            at <= last,
            last == url.len() - pat.len(),
            forall|k: int| 0 <= k < at ==> !occurs_at(pat@, url@, k),
        decreases last - at,
    {
        if matches_at(url, pat, at) {
            return true;
        }
        at += 1;
    }
    matches_at(url, pat, last)
}

impl UrlPattern {
    /// Whether `url` matches this pattern.
    pub fn matches(&self, url: &str) -> (b: bool)
        ensures
            b == self@.matches(url@),
    {
        let url_chars = chars_of(url);
        self.matches_chars(&url_chars)
    }

    /// Whether the URL with the characters `url` matches this pattern.
    fn matches_chars(&self, url: &Vec<char>) -> (b: bool)
        ensures
            b == self@.matches(url@),
    {
        match self {
            UrlPattern::Exact(text) => {
                let pat = chars_of(text.as_str());
                if pat.len() != url.len() {
                    return false;
                }
                let same = matches_at(url, &pat, 0);
                assert(url@.subrange(0, pat@.len() as int) =~= url@);
                same
            },
            UrlPattern::Prefix(text) => {
                let pat = chars_of(text.as_str());
                pat.len() <= url.len() && matches_at(url, &pat, 0)
            },
            UrlPattern::Contains(text) => {
                let pat = chars_of(text.as_str());
                occurs(url, &pat)
            },
        }
    }
}

/// Whether at least one pattern of `pats` matches `url`.
pub fn matches_any(pats: &Vec<UrlPattern>, url: &str) -> (b: bool)
    ensures
        b == any_matches(patterns_view(pats@), url@),
{
    let url_chars = chars_of(url);
    let mut i: usize = 0;
    while i < pats.len()
        invariant
            i <= pats.len(),
            url_chars@ == url@,
            forall|k: int| 0 <= k < i ==> !(#[trigger] patterns_view(pats@)[k]).matches(url@),
        decreases pats.len() - i,
    {
        if pats[i].matches_chars(&url_chars) {
            assert(patterns_view(pats@)[i as int].matches(url@));
            return true;
        }
        i += 1;
    }
    false
}

} // verus!
