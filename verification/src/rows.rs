//! The lines that the client shows for stories and comments.
//!
//! Nothing is printed here. Each function builds the text of a line, or the
//! lines of a listing, from an item and from what the caller has made of its
//! body: unescaping a body and fitting it to the terminal is the caller's
//! work.

use vstd::prelude::*;
use crate::models::{text_view, HnItem, HnItemView};
use crate::path_utils::{get_host_from_link, parsed_url};
use crate::text::{decimal, decimal_string, pad_left, pad_right, padded_number, padded_text};

verus! {

/// The width that a row's number is aligned to.
pub const INDEX_WIDTH: usize = 3;

/// The width that a row's text is padded to.
pub const TEXT_WIDTH: usize = 70;

/// What stands for the host of a link that names none.
pub open spec fn no_link_text() -> Seq<char> {
    "could not parse link"@
}

/// The host that a story links to, or [`no_link_text`] where the story has
/// no link, the link does not parse, or it names no host.
pub open spec fn link_host(item: HnItemView) -> Seq<char> {
    match item.url {
        Some(url) => match parsed_url(url) {
            Some(parts) => match parts.host() {
                Some(host) => host,
                None => no_link_text(),
            },
            None => no_link_text(),
        },
        None => no_link_text(),
    }
}

/// The number of child ids of an item; zero where it lists none.
pub open spec fn kid_count(item: HnItemView) -> nat {
    match item.kids {
        Some(ids) => ids.len(),
        None => 0,
    }
}

/// The headline of a story: its number, its title with the host it links
/// to, its author and the number of its comments.
pub open spec fn headline_of(item: HnItemView, index: int) -> Seq<char> {
    "["@ + pad_left(decimal(index), INDEX_WIDTH as int) + "] "@ + pad_right(
        item.title->0 + " ("@ + link_host(item) + ")"@,
        TEXT_WIDTH as int,
    ) + " by "@ + item.by + " with ["@ + decimal(kid_count(item) as int) + "] comments"@
}

/// The row of a comment: its number, the text shown for it and its author;
/// then, where the comment has a list of child ids, their number.
pub open spec fn comment_row_of(item: HnItemView, index: int, shown: Seq<char>) -> Seq<char> {
    let row = "["@ + pad_left(decimal(index), INDEX_WIDTH as int) + "] "@ + pad_right(
        shown,
        TEXT_WIDTH as int,
    ) + " by "@ + item.by;
    match item.kids {
        Some(ids) => row + " with ["@ + pad_left(decimal(ids.len() as int), INDEX_WIDTH as int)
            + "] comments"@,
        None => row,
    }
}

/// The host to show for a story's link.
fn link_host_text(item: &HnItem) -> (host: String)
    ensures
        host@ == link_host(item@),
{
    let found = match &item.url {
        Some(url) => get_host_from_link(url.as_str()),
        None => None,
    };
    match found {
        Some(host) => host,
        None => String::from_str("could not parse link"),
    }
}

/// The headline of a story under the number `index`. An item without a
/// title is no story and has no headline.
pub fn create_headline_with_author(item: &HnItem, index: &i32) -> (headline: Result<
    String,
    String,
>)
    ensures
        match item@.title {
            Some(_) => headline matches Ok(line) && line@ == headline_of(item@, *index as int),
            None => headline matches Err(reason) && reason@ == "Not headline"@,
        },
{
    match &item.title {
        Some(title) => {
            let mut titled = title.clone();
            titled.append(" (");
            titled.append(link_host_text(item).as_str());
            titled.append(")");
            let kids: usize = match &item.kids {
                Some(ids) => ids.len(),
                None => 0,
            };
            let mut line = String::from_str("[");
            line.append(padded_number(*index as i128, INDEX_WIDTH).as_str());
            line.append("] ");
            line.append(padded_text(titled.as_str(), TEXT_WIDTH).as_str());
            line.append(" by ");
            line.append(item.by.as_str());
            line.append(" with [");
            line.append(decimal_string(kids as i128).as_str());
            line.append("] comments");
            Ok(line)
        },
        None => Err(String::from_str("Not headline")),
    }
}

/// The row of a comment under the number `index`, where there is a text to
/// show for it. `shown` is the comment's body as the caller wants it shown;
/// a comment with nothing to show has no row.
pub fn create_comment_row(index: usize, item: &HnItem, shown: Option<&str>) -> (row: Option<String>)
    ensures
        match shown {
            Some(text) => row matches Some(line) && line@ == comment_row_of(
                item@,
                index as int,
                text@,
            ),
            None => row is None,
        },
{
    match shown {
        Some(text) => {
            let mut line = String::from_str("[");
            line.append(padded_number(index as i128, INDEX_WIDTH).as_str());
            line.append("] ");
            line.append(padded_text(text, TEXT_WIDTH).as_str());
            line.append(" by ");
            line.append(item.by.as_str());
            match &item.kids {
                Some(ids) => {
                    line.append(" with [");
                    line.append(padded_number(ids.len() as i128, INDEX_WIDTH).as_str());
                    line.append("] comments");
                },
                None => {},
            }
            Some(line)
        },
        None => None,
    }
}

/// The characters of each line of a listing.
pub open spec fn lines_view(lines: Seq<String>) -> Seq<Seq<char>> {
    Seq::new(lines.len(), |i: int| lines[i]@)
}

/// The values of the items of a list.
pub open spec fn item_views(items: Seq<&HnItem>) -> Seq<HnItemView> {
    Seq::new(items.len(), |i: int| items[i]@)
}

/// The texts to show for the comments of a list, each where there is one.
pub open spec fn shown_view(shown: Seq<Option<String>>) -> Seq<Option<Seq<char>>> {
    Seq::new(shown.len(), |i: int| text_view(shown[i]))
}

/// The text to show for the comment at `i`; none where the list of texts
/// does not reach that far.
pub open spec fn shown_for(shown: Seq<Option<Seq<char>>>, i: int) -> Option<Seq<char>> {
    if 0 <= i < shown.len() {
        shown[i]
    } else {
        None
    }
}

/// The rows of the first `n` comments of a list. A comment with nothing to
/// show has no row. The rows are numbered without gaps, the first with
/// `index + 1`.
pub open spec fn comment_rows_upto(
    comments: Seq<HnItemView>,
    shown: Seq<Option<Seq<char>>>,
    index: int,
    n: nat,
) -> Seq<Seq<char>>
    decreases n,
{
    if n == 0 {
        Seq::empty()
    } else {
        let before = comment_rows_upto(comments, shown, index, (n - 1) as nat);
        match shown_for(shown, n - 1) {
            Some(text) => before.push(
                comment_row_of(comments[n - 1], index + before.len() + 1, text),
            ),
            None => before,
        }
    }
}

/// The rows of a list of comments.
pub open spec fn comment_rows_of(
    comments: Seq<HnItemView>,
    shown: Seq<Option<Seq<char>>>,
    index: int,
) -> Seq<Seq<char>> {
    comment_rows_upto(comments, shown, index, comments.len())
}

/// The number of rows that the first `n` comments of a list have: one for
/// each of them that has a text to show.
pub open spec fn rows_before(shown: Seq<Option<Seq<char>>>, n: nat) -> nat
    decreases n,
{
    if n == 0 {
        0
    } else if shown_for(shown, n - 1) is Some {
        rows_before(shown, (n - 1) as nat) + 1
    } else {
        rows_before(shown, (n - 1) as nat)
    }
}

/// Whether the comment at position `k` has the row numbered `numb`, in a
/// listing whose first row has the number `index + 1`.
pub open spec fn has_row_number(
    shown: Seq<Option<Seq<char>>>,
    index: int,
    k: int,
    numb: int,
) -> bool {
    k >= 0 && shown_for(shown, k) is Some && index + rows_before(shown, k as nat) + 1 == numb
}

/// The line above the rows of an item's comments.
pub open spec fn comments_heading_of(item: HnItemView) -> Seq<char> {
    match item.title {
        Some(title) => "Comments for item id "@ + decimal(item.id as int) + " with title "@
            + title,
        None => "Comments for item id "@ + decimal(item.id as int),
    }
}

/// The line shown for an item that has no comments.
pub open spec fn no_comments_line_of(item: HnItemView) -> Seq<char> {
    "No comments for "@ + decimal(item.id as int) + " or all were dead (probably spam)"@
}

/// The line shown for an item whose comments could not be had.
pub open spec fn comments_missing_line_of(item: HnItemView) -> Seq<char> {
    "Could not get comments for item with id "@ + decimal(item.id as int)
}

/// The lines shown for the comments of an item: the heading and the rows
/// where there are comments, else one line that says there are none.
pub open spec fn comments_listing_of(
    item: HnItemView,
    comments: Seq<HnItemView>,
    shown: Seq<Option<Seq<char>>>,
    index: int,
) -> Seq<Seq<char>> {
    if comments.len() > 0 {
        seq![comments_heading_of(item)] + comment_rows_of(comments, shown, index)
    } else {
        seq![no_comments_line_of(item)]
    }
}

/// The rows of a list of comments, numbered from `index + 1`. `shown` holds,
/// for each comment, the text to show for it, or nothing where the comment
/// is to have no row; a comment that `shown` does not reach has none
/// either. The numbers must fit a `usize`.
pub fn create_comment_rows(comments: &Vec<&HnItem>, shown: &Vec<Option<String>>, index: usize) -> (rows:
    Vec<String>)
    requires
        index + comments@.len() <= usize::MAX,
    ensures
        lines_view(rows@) == comment_rows_of(
            item_views(comments@),
            shown_view(shown@),
            index as int,
        ),
{
    let mut rows: Vec<String> = Vec::new();
    let mut i: usize = 0;
    let ghost all = item_views(comments@);
    let ghost texts = shown_view(shown@);
    assert(lines_view(rows@) =~= Seq::<Seq<char>>::empty());
    while i < comments.len()
        invariant
            i <= comments.len(),
            index + comments@.len() <= usize::MAX,
            all == item_views(comments@),
            texts == shown_view(shown@),
            rows@.len() <= i,
            lines_view(rows@) == comment_rows_upto(all, texts, index as int, i as nat),
        decreases comments.len() - i,
    {
        let ghost before = lines_view(rows@);
        let text: Option<&str> = if i < shown.len() {
            match &shown[i] {
                Some(t) => Some(t.as_str()),
                None => None,
            }
        } else {
            None
        };
        match create_comment_row(index + rows.len() + 1, comments[i], text) {
            Some(row) => {
                rows.push(row);
                assert(lines_view(rows@) =~= before.push(row@));
            },
            None => {},
        }
        i += 1;
    }
    rows
}

/// The position of the comment whose row has the number `numb`, among the
/// first `count` comments of a listing numbered from `index + 1`. Nothing
/// where no row has that number. `shown` is as for [`create_comment_rows`].
pub fn comment_on_row(shown: &Vec<Option<String>>, count: usize, index: usize, numb: usize) -> (at:
    Option<usize>)
    requires
        index + count <= usize::MAX,
    ensures
        match at {
            Some(k) => k < count && has_row_number(shown_view(shown@), index as int, k as int, numb as int),
            None => forall|k: int|
                0 <= k < count ==> !has_row_number(shown_view(shown@), index as int, k, numb as int),
        },
{
    let ghost texts = shown_view(shown@);
    let mut seen: usize = 0;
    let mut k: usize = 0;
    while k < count
        invariant
            k <= count,
            seen <= k,
            index + count <= usize::MAX,
            texts == shown_view(shown@),
            seen == rows_before(texts, k as nat),
            forall|j: int| 0 <= j < k ==> !has_row_number(texts, index as int, j, numb as int),
        decreases count - k,
    {
        let has_row = k < shown.len() && shown[k].is_some();
        assert(has_row == (shown_for(texts, k as int) is Some));
        if has_row {
            if index + seen + 1 == numb {
                return Some(k);
            }
            seen += 1;
        }
        k += 1;
    }
    None
}

/// The lines shown for the comments of an item, the first row numbered
/// `index + 1`.
pub fn comments_listing(
    item: &HnItem,
    comments: &Vec<&HnItem>,
    shown: &Vec<Option<String>>,
    index: usize,
) -> (lines: Vec<String>)
    requires
        index + comments@.len() <= usize::MAX,
    ensures
        lines_view(lines@) == comments_listing_of(
            item@,
            item_views(comments@),
            shown_view(shown@),
            index as int,
        ),
{
    let mut lines: Vec<String> = Vec::new();
    if comments.len() > 0 {
        let mut heading = String::from_str("Comments for item id ");
        heading.append(decimal_string(item.id as i128).as_str());
        match &item.title {
            Some(title) => {
                heading.append(" with title ");
                heading.append(title.as_str());
            },
            None => {},
        }
        lines.push(heading);
        let mut rows = create_comment_rows(comments, shown, index);
        let ghost row_lines = lines_view(rows@);
        lines.append(&mut rows);
        assert(lines_view(lines@) =~= seq![comments_heading_of(item@)] + row_lines);
    } else {
        let mut line = String::from_str("No comments for ");
        line.append(decimal_string(item.id as i128).as_str());
        line.append(" or all were dead (probably spam)");
        lines.push(line);
        assert(lines_view(lines@) =~= seq![no_comments_line_of(item@)]);
    }
    lines
}

/// The lines shown for an item and its comments. Without an item there is
/// nothing to show; with an item whose comments could not be had, one line
/// says so.
pub fn comments_and_parent_listing(
    item: Option<&HnItem>,
    comments: &Option<Vec<&HnItem>>,
    shown: &Vec<Option<String>>,
    index: usize,
) -> (lines: Vec<String>)
    requires
        comments matches Some(list) ==> index + list@.len() <= usize::MAX,
    ensures
        lines_view(lines@) == match item {
            Some(parent) => match comments {
                Some(list) => comments_listing_of(
                    parent@,
                    item_views(list@),
                    shown_view(shown@),
                    index as int,
                ),
                None => seq![comments_missing_line_of(parent@)],
            },
            None => Seq::empty(),
        },
{
    match item {
        Some(parent) => match comments {
            Some(list) => comments_listing(parent, list, shown, index),
            None => {
                let mut line = String::from_str("Could not get comments for item with id ");
                line.append(decimal_string(parent.id as i128).as_str());
                let mut lines: Vec<String> = Vec::new();
                lines.push(line);
                assert(lines_view(lines@) =~= seq![comments_missing_line_of(parent@)]);
                lines
            },
        },
        None => {
            let lines: Vec<String> = Vec::new();
            assert(lines_view(lines@) =~= Seq::<Seq<char>>::empty());
            lines
        },
    }
}

/// The first `n` comments of a list have as many rows as there are texts to
/// show among them, so the row of the comment at position `n`, where it has
/// one, is numbered `index + rows_before(shown, n) + 1`.
pub proof fn lemma_rows_are_counted(
    comments: Seq<HnItemView>,
    shown: Seq<Option<Seq<char>>>,
    index: int,
    n: nat,
)
    ensures
        comment_rows_upto(comments, shown, index, n).len() == rows_before(shown, n),
        shown_for(shown, n as int) matches Some(text) ==> comment_rows_upto(
            comments,
            shown,
            index,
            n + 1,
        ).last() == comment_row_of(comments[n as int], index + rows_before(shown, n) + 1, text),
    decreases n,
{
    if n > 0 {
        lemma_rows_are_counted(comments, shown, index, (n - 1) as nat);
    }
}

/// No two comments of a listing have the same row number.
pub proof fn lemma_row_numbers_differ(
    shown: Seq<Option<Seq<char>>>,
    index: int,
    j: int,
    k: int,
    numb: int,
)
    requires
        0 <= j < k,
        has_row_number(shown, index, j, numb),
    ensures
        !has_row_number(shown, index, k, numb),
{
    lemma_rows_grow(shown, j + 1, k);
}

/// The count of rows does not fall as more comments are counted.
proof fn lemma_rows_grow(shown: Seq<Option<Seq<char>>>, from: int, to: int)
    requires
        0 <= from <= to,
    ensures
        rows_before(shown, from as nat) <= rows_before(shown, to as nat),
    decreases to - from,
{
    if from < to {
        lemma_rows_grow(shown, from, to - 1);
    }
}

impl HnItem {
    /// The body of the item with its HTML entities resolved by `decode`.
    /// Nothing where the item has no body or `decode` fails on it: what
    /// comes back is what `decode` makes of the body.
    pub fn text_unescaped<E, F: Fn(&str) -> Result<String, E>>(&self, decode: F) -> (unescaped:
        Option<String>)
        requires
            forall|body: &str| call_requires(decode, (body,)),
        ensures
            match self.text {
                Some(text) => exists|body: &str, decoded: Result<String, E>|
                    body@ == text@ && call_ensures(decode, (body,), decoded) && unescaped == match decoded {
                        Ok(plain) => Some(plain),
                        Err(_) => None,
                    },
                None => unescaped is None,
            },
    {
        match &self.text {
            Some(text) => {
                let decoded = decode(text.as_str());
                match decoded {
                    Ok(plain) => Some(plain),
                    Err(_) => None,
                }
            },
            None => None,
        }
    }
}

} // verus!
