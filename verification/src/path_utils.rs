//! Links: their parts, the host they name, and file names made from them.
//!
//! A link is taken apart by `hyper`'s `Uri`. The library keeps the parts as
//! texts of its own and works on those.
//!
//! `hyper` takes the authority of a link to begin three bytes after the
//! first colon of the text. Where one of the two characters after that colon
//! is not ASCII, that place may lie inside a character and `hyper` cannot be
//! asked; such a text counts as no link. Every other text is `hyper`'s to
//! judge, characters outside ASCII included.

use vstd::prelude::*;
use crate::models::{text_view, HnItem, HnItemView};
use crate::text::{joined, texts_of};

verus! {

/// The parts of a link that the client reads.
#[derive(Debug, Clone, PartialEq, Eq)]
pub struct UriParts {
    pub scheme: Option<String>,
    pub authority: Option<String>,
    pub path: String,
}

/// The mathematical value of [`UriParts`].
pub struct UriPartsView {
    pub scheme: Option<Seq<char>>,
    pub authority: Option<Seq<char>>,
    pub path: Seq<char>,
}

impl View for UriParts {
    type V = UriPartsView;

    open spec fn view(&self) -> UriPartsView {
        UriPartsView {
            scheme: text_view(self.scheme),
            authority: text_view(self.authority),
            path: self.path@,
        }
    }
}

/// The parts that `hyper`'s `Uri` finds in a text, or nothing where it does
/// not take the text for a link.
pub uninterp spec fn uri_parts(text: Seq<char>) -> Option<UriPartsView>;

/// Whether a character is ASCII.
pub open spec fn is_ascii_char(c: char) -> bool {
    (c as u32) < 128
}

/// Whether the third byte after the first colon of a text begins a
/// character: each of the two characters after that colon, where the text
/// has it, is ASCII. A text without a colon qualifies.
pub open spec fn cuts_between_characters(text: Seq<char>) -> bool {
    let colon = first_index_of(text, ':');
    &&& colon + 1 < text.len() ==> is_ascii_char(text[colon + 1])
    &&& colon + 2 < text.len() ==> is_ascii_char(text[colon + 2])
}

/// The parts of a link. A text in which one of the two characters after the
/// first colon is not ASCII is no link; of every other text `hyper` decides.
pub open spec fn parsed_url(text: Seq<char>) -> Option<UriPartsView> {
    if cuts_between_characters(text) {
        uri_parts(text)
    } else {
        None
    }
}

/// The index of the last `c` in `s`, or -1 where there is none.
pub open spec fn last_index_of(s: Seq<char>, c: char) -> int
    decreases s.len(),
{
    if s.len() == 0 {
        -1
    } else if s.last() == c {
        s.len() - 1
    } else {
        last_index_of(s.drop_last(), c)
    }
}

/// The index of the first `c` in `s`, or the length of `s` where there is
/// none.
pub open spec fn first_index_of(s: Seq<char>, c: char) -> int
    decreases s.len(),
{
    if s.len() == 0 {
        0
    } else if s[0] == c {
        0
    } else {
        1 + first_index_of(s.drop_first(), c)
    }
}

/// What follows the last `@` of an authority: the host and the port. The
/// whole authority where it has no `@`.
pub open spec fn host_and_port(authority: Seq<char>) -> Seq<char> {
    authority.skip(last_index_of(authority, '@') + 1)
}

/// The host that an authority names. In brackets, it is what stands between
/// them; otherwise it is what stands before the first colon. An authority
/// with nothing after its last `@`, or with a bracket that is not closed,
/// names no host.
pub open spec fn host_of(authority: Seq<char>) -> Option<Seq<char>> {
    let named = host_and_port(authority);
    if named.len() == 0 {
        None
    } else if named[0] == '[' {
        let close = first_index_of(named, ']');
        if close < named.len() {
            Some(named.subrange(1, close))
        } else {
            None
        }
    } else {
        Some(named.take(first_index_of(named, ':')))
    }
}

impl UriPartsView {
    /// The host of the link, where its authority names one.
    pub open spec fn host(self) -> Option<Seq<char>> {
        match self.authority {
            Some(authority) => host_of(authority),
            None => None,
        }
    }
}

/// `s` with `to` in the place of every `from`.
pub open spec fn replaced(s: Seq<char>, from: char, to: Seq<char>) -> Seq<char>
    decreases s.len(),
{
    if s.len() == 0 {
        Seq::empty()
    } else if s.last() == from {
        replaced(s.drop_last(), from, to) + to
    } else {
        replaced(s.drop_last(), from, to).push(s.last())
    }
}

/// The name of the file that a page is saved under: title and author where
/// the item has a title, else the path of its link with `_` for every `/`;
/// then `.html`.
pub open spec fn filename_of(item: HnItemView) -> Seq<char> {
    match item.title {
        Some(title) => title + item.by + ".html"@,
        None => replaced(parsed_url(item.url->0)->0.path, '/', "_"@) + ".html"@,
    }
}

/// Whether a file name can be made for an item: it has a title, or a link
/// that parses.
pub open spec fn has_filename(item: HnItemView) -> bool {
    item.title is Some || (item.url is Some && parsed_url(item.url->0) is Some)
}

/// Calls `Uri::from_str` of `hyper` on the text and, where that gives a
/// `Uri`, copies out what its `scheme`, `authority` and `path` return. The
/// contract gives the outcome its name. `authority` cuts the text three
/// bytes after its first colon and panics where that is inside a character;
/// every other cut is made at a delimiter or at an end of the text. So the
/// two characters after the first colon must be ASCII.
#[verifier::external_body]
fn split_uri(text: &str) -> (parts: Option<UriParts>)
    requires
        cuts_between_characters(text@),
    ensures
        match parts {
            Some(p) => uri_parts(text@) == Some(p@),
            None => uri_parts(text@) is None,
        },
{
    match text.parse::<hyper::Uri>() {
        Ok(uri) => Some(
            UriParts {
                scheme: uri.scheme().map(String::from),
                authority: uri.authority().map(String::from),
                path: String::from(uri.path()),
            },
        ),
        Err(_) => None,
    }
}

/// Calls std's `str::replace` with a character as the pattern: every `from`
/// in `text` gives way to `to`.
#[verifier::external_body]
fn replace_char(text: &str, from: char, to: &str) -> (out: String)
    ensures
        out@ == replaced(text@, from, to@),
{
    text.replace(from, to)
}

/// Where the last `c` of `s` stands is fixed by what stands there and by `c`
/// not occurring after it.
proof fn lemma_last_index_of(s: Seq<char>, c: char, k: int)
    requires
        -1 <= k < s.len(),
        k >= 0 ==> s[k] == c,
        forall|j: int| k < j < s.len() ==> s[j] != c,
    ensures
        last_index_of(s, c) == k,
    decreases s.len(),
{
    if s.len() > 0 && s.last() != c {
        lemma_last_index_of(s.drop_last(), c, k);
    }
}

/// Where the first `c` of `s` stands is fixed by what stands there and by `c`
/// not occurring before it.
proof fn lemma_first_index_of(s: Seq<char>, c: char, k: int)
    requires
        0 <= k <= s.len(),
        k < s.len() ==> s[k] == c,
        forall|j: int| 0 <= j < k ==> s[j] != c,
    ensures
        first_index_of(s, c) == k,
    decreases s.len(),
{
    if s.len() > 0 && s[0] != c {
        let rest = s.drop_first();
        assert forall|j: int| 0 <= j < k - 1 implies rest[j] != c by {
            assert(rest[j] == s[j + 1]);
        }
        lemma_first_index_of(rest, c, k - 1);
    }
}

/// The position after the last `c` of `text`; zero where there is none.
fn position_after_last(text: &str, c: char) -> (at: usize)
    ensures
        at == last_index_of(text@, c) + 1,
        at <= text@.len(),
{
    let mut at: usize = text.unicode_len();
    while at > 0 && text.get_char(at - 1) != c
        invariant
            at <= text@.len(),
            forall|j: int| at <= j < text@.len() ==> text@[j] != c,
        decreases at,
    {
        at -= 1;
    }
    proof {
        lemma_last_index_of(text@, c, at - 1);
    }
    at
}

/// The position of the first `c` of `text`; its length where there is none.
fn position_of_first(text: &str, c: char) -> (at: usize)
    ensures
        at == first_index_of(text@, c),
        at <= text@.len(),
        at < text@.len() ==> text@[at as int] == c,
{
    let len = text.unicode_len();
    let mut at: usize = 0;
    while at < len && text.get_char(at) != c
        invariant
            at <= len,
            len == text@.len(),
            forall|j: int| 0 <= j < at ==> text@[j] != c,
        decreases len - at,
    {
        at += 1;
    }
    proof {
        lemma_first_index_of(text@, c, at as int);
    }
    at
}

/// The host that an authority names, where it names one.
pub fn host_in_authority(authority: &str) -> (host: Option<&str>)
    ensures
        match host {
            Some(h) => host_of(authority@) == Some(h@),
            None => host_of(authority@) is None,
        },
{
    let len = authority.unicode_len();
    let start = position_after_last(authority, '@');
    let named = authority.substring_char(start, len);
    assert(named@ == host_and_port(authority@));
    let named_len = named.unicode_len();
    if named_len == 0 {
        None
    } else if named.get_char(0) == '[' {
        let close = position_of_first(named, ']');
        if close < named_len {
            assert(close >= 1);
            Some(named.substring_char(1, close))
        } else {
            None
        }
    } else {
        let colon = position_of_first(named, ':');
        Some(named.substring_char(0, colon))
    }
}

impl UriParts {
    /// The scheme of the link, where it has one.
    pub fn scheme(&self) -> (scheme: Option<&str>)
        ensures
            match scheme {
                Some(s) => self@.scheme == Some(s@),
                None => self@.scheme is None,
            },
    {
        match &self.scheme {
            Some(s) => Some(s.as_str()),
            None => None,
        }
    }

    /// The authority of the link, where it has one: user, host and port.
    pub fn authority(&self) -> (authority: Option<&str>)
        ensures
            match authority {
                Some(a) => self@.authority == Some(a@),
                None => self@.authority is None,
            },
    {
        match &self.authority {
            Some(a) => Some(a.as_str()),
            None => None,
        }
    }

    /// The path of the link.
    pub fn path(&self) -> (path: &str)
        ensures
            path@ == self@.path,
    {
        self.path.as_str()
    }

    /// The host of the link, where its authority names one.
    pub fn host(&self) -> (host: Option<&str>)
        ensures
            match host {
                Some(h) => self@.host() == Some(h@),
                None => self@.host() is None,
            },
    {
        match &self.authority {
            Some(a) => host_in_authority(a.as_str()),
            None => None,
        }
    }
}

/// Whether the two characters after the first colon of a text are ASCII.
fn cuts_between_characters_of(text: &str) -> (yes: bool)
    ensures
        yes == cuts_between_characters(text@),
{
    let len = text.unicode_len();
    let colon = position_of_first(text, ':');
    if colon < len && len - colon > 1 && text.get_char(colon + 1) as u32 >= 128 {
        return false;
    }
    if colon < len && len - colon > 2 && text.get_char(colon + 2) as u32 >= 128 {
        return false;
    }
    true
}

/// Takes a link apart, where the text is one. What is a link is for `hyper`
/// to say, but for the texts in which one of the two characters after the
/// first colon is not ASCII: those are refused unseen.
pub fn try_parse_url(url_str: &str) -> (url: Option<UriParts>)
    ensures
        match url {
            Some(parts) => parsed_url(url_str@) == Some(parts@),
            None => parsed_url(url_str@) is None,
        },
{
    if cuts_between_characters_of(url_str) {
        split_uri(url_str)
    } else {
        None
    }
}

/// Takes a link apart. The text must be a link: one that `hyper` takes for
/// one, and in which the two characters after the first colon are ASCII.
pub fn parse_url_from_str(url_str: &str) -> (url: UriParts)
    requires
        parsed_url(url_str@) is Some,
    ensures
        Some(url@) == parsed_url(url_str@),
{
    split_uri(url_str).unwrap()
}

/// The host that a link names. Nothing where the text is no link, as
/// [`try_parse_url`] judges it, or the link names no host.
pub fn get_host_from_link(link: &str) -> (host: Option<String>)
    ensures
        text_view(host) == match parsed_url(link@) {
            Some(parts) => parts.host(),
            None => None,
        },
{
    match try_parse_url(link) {
        Some(_) => {
            let parts = parse_url_from_str(link);
            match parts.host() {
                Some(h) => Some(h.to_owned()),
                None => None,
            }
        },
        None => None,
    }
}

/// Joins the texts of a list, in order, with nothing between them.
pub fn combine_strings(strings: Vec<&str>) -> (combined: String)
    ensures
        combined@ == joined(texts_of(strings@)),
{
    let mut combined = String::new();
    let mut i: usize = 0;
    while i < strings.len()
        invariant
            i <= strings.len(),
            combined@ == joined(texts_of(strings@).take(i as int)),
        decreases strings.len() - i,
    {
        combined.append(strings[i]);
        proof {
            let all = texts_of(strings@);
            assert(all.take(i + 1).drop_last() == all.take(i as int));
            assert(all.take(i + 1).last() == strings@[i as int]@);
        }
        i += 1;
    }
    proof {
        let all = texts_of(strings@);
        assert(all.take(strings.len() as int) == all);
    }
    combined
}

/// The name of the file that the page of an item is saved under. The item
/// must have a title, or a link that parses, as [`try_parse_url`] judges it.
pub fn generate_filename_for_hnitem(item: &HnItem) -> (name: String)
    requires
        has_filename(item@),
    ensures
        name@ == filename_of(item@),
{
    match &item.title {
        Some(title) => {
            let mut parts: Vec<&str> = Vec::new();
            parts.push(title.as_str());
            parts.push(item.by.as_str());
            parts.push(".html");
            proof {
                lemma_joined_three(title@, item.by@, ".html"@);
                assert(texts_of(parts@) == seq![title@, item.by@, ".html"@]);
            }
            combine_strings(parts)
        },
        None => {
            let link = item.url.as_ref().unwrap();
            let url = parse_url_from_str(link.as_str());
            let flat = replace_char(url.path(), '/', "_");
            let mut parts: Vec<&str> = Vec::new();
            parts.push(flat.as_str());
            parts.push(".html");
            proof {
                lemma_joined_two(flat@, ".html"@);
                assert(texts_of(parts@) == seq![flat@, ".html"@]);
            }
            combine_strings(parts)
        },
    }
}

/// The name of the file that the page of an item is saved under, where one
/// can be made: the item has a title, or a link that parses, as
/// [`try_parse_url`] judges it.
pub fn try_generate_filename(item: &HnItem) -> (name: Option<String>)
    ensures
        match name {
            Some(n) => has_filename(item@) && n@ == filename_of(item@),
            None => !has_filename(item@),
        },
{
    let named = match &item.title {
        Some(_) => true,
        None => match &item.url {
            Some(link) => try_parse_url(link.as_str()).is_some(),
            None => false,
        },
    };
    if named {
        Some(generate_filename_for_hnitem(item))
    } else {
        None
    }
}

/// Two texts joined are the first followed by the second.
proof fn lemma_joined_two(a: Seq<char>, b: Seq<char>)
    ensures
        joined(seq![a, b]) == a + b,
{
    reveal_with_fuel(joined, 3);
    let two = seq![a, b];
    assert(two.drop_last() == seq![a]);
    assert(seq![a].drop_last() == Seq::<Seq<char>>::empty());
    assert(Seq::<char>::empty() + a == a);
}

/// Three texts joined are the first followed by the second and the third.
proof fn lemma_joined_three(a: Seq<char>, b: Seq<char>, c: Seq<char>)
    ensures
        joined(seq![a, b, c]) == a + b + c,
{
    let three = seq![a, b, c];
    assert(three.drop_last() == seq![a, b]);
    lemma_joined_two(a, b);
}

} // verus!
