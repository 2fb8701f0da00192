use rs_ycomb_hn_cli::codec::decode_item;
use rs_ycomb_hn_cli::models::HnItem;
use rs_ycomb_hn_cli::rows::{
    comment_on_row, comments_and_parent_listing, comments_listing, create_comment_row,
    create_comment_rows, create_headline_with_author, INDEX_WIDTH, TEXT_WIDTH,
};

const STORY: &str = r#"{
  "by" : "dhouston",
  "descendants" : 71,
  "id" : 8863,
  "kids" : [ 8952, 9224, 8917, 8884, 8887, 8943, 8869, 8958, 9005, 9671 ],
  "score" : 111,
  "time" : 1175714200,
  "title" : "My YC app: Dropbox - Throw away your USB drive",
  "type" : "story",
  "url" : "http://www.getdropbox.com/u/2/screencast.html"
}"#;

const CHILD: &str = r#"{
  "by" : "cholantesh",
  "id" : 14373436,
  "kids" : [ 14373852 ],
  "parent" : 14373272,
  "text" : "That is not a valid concern. Unless you are planning to host it yourself, see https:&#x2F;&#x2F;example.com&#x2F;pricing first.",
  "time" : 1495235620,
  "type" : "comment"
}"#;

fn unescape(body: &str) -> Result<String, ()> {
    Ok(body.replace("&#x2F;", "/"))
}

fn comment(id: i32, by: &str, kids: Option<Vec<i32>>) -> HnItem {
    HnItem {
        by: String::from(by),
        parent: Some(1),
        descendants: None,
        id,
        kids,
        title: None,
        score: None,
        text: Some(String::from("body")),
        time: 1_500_000_000,
        type_str: String::from("comment"),
        url: None,
        dead: None,
    }
}

#[test]
fn create_headline_with_author_test() {
    let deserialized: HnItem = decode_item(STORY).unwrap();
    let index = 1;
    let s: String = create_headline_with_author(&deserialized, &index).unwrap();
    assert!(s.len() != 0);
    assert!(s.contains("1"));
    assert!(s.contains("dhouston"));
    assert!(s.contains("My YC app: Dropbox - Throw away your USB drive"));
    assert!(deserialized.by.len() != 0);
    assert!(deserialized.title.unwrap().len() != 0);
}

#[test]
fn create_comment_row_test() {
    let deserialized: HnItem = decode_item(CHILD).unwrap();
    let text = deserialized.text_unescaped(unescape);
    let comment_str = create_comment_row(1, &deserialized, text.as_deref()).unwrap();
    assert!(comment_str.contains("is not a valid concern. Unless you are planning"));
    assert!(comment_str.contains("cholantesh"));
}

#[test]
fn the_widths() {
    assert_eq!(INDEX_WIDTH, 3);
    assert_eq!(TEXT_WIDTH, 70);
}

#[test]
fn a_headline_to_the_letter() {
    let story = decode_item(STORY).unwrap();
    let line = create_headline_with_author(&story, &1).unwrap();
    assert_eq!(
        line,
        "[  1] My YC app: Dropbox - Throw away your USB drive (www.getdropbox.com)    by dhouston with [10] comments"
    );
    let line = create_headline_with_author(&story, &-12).unwrap();
    assert!(line.starts_with("[-12] My YC app"));
    let line = create_headline_with_author(&story, &1234).unwrap();
    assert!(line.starts_with("[1234] My YC app"));
}

#[test]
fn a_headline_without_a_usable_link() {
    let mut story = decode_item(STORY).unwrap();
    story.title = Some(String::from("Ask HN"));
    story.kids = None;
    story.url = None;
    let expected = format!("[  7] {:70} by dhouston with [0] comments", "Ask HN (could not parse link)");
    assert_eq!(create_headline_with_author(&story, &7).unwrap(), expected);
    story.url = Some(String::from("no link at all/"));
    assert_eq!(create_headline_with_author(&story, &7).unwrap(), expected);
    story.url = Some(String::from("/only/a/path"));
    assert_eq!(create_headline_with_author(&story, &7).unwrap(), expected);
}

#[test]
fn a_long_title_is_not_cut() {
    let mut story = decode_item(STORY).unwrap();
    let title = "t".repeat(80);
    story.title = Some(title.clone());
    let line = create_headline_with_author(&story, &100).unwrap();
    assert_eq!(line, format!("[100] {} (www.getdropbox.com) by dhouston with [10] comments", title));
}

#[test]
fn an_item_without_a_title_has_no_headline() {
    let child = decode_item(CHILD).unwrap();
    assert_eq!(create_headline_with_author(&child, &1), Err(String::from("Not headline")));
}

#[test]
fn a_comment_row_to_the_letter() {
    let with_kids = comment(5, "norvig", Some(vec![1, 2]));
    assert_eq!(
        create_comment_row(3, &with_kids, Some("Aw shucks")).unwrap(),
        format!("[  3] {:70} by norvig with [  2] comments", "Aw shucks")
    );
    let empty_kids = comment(5, "norvig", Some(vec![]));
    assert_eq!(
        create_comment_row(42, &empty_kids, Some("Aw shucks")).unwrap(),
        format!("[ 42] {:70} by norvig with [  0] comments", "Aw shucks")
    );
    let no_kids = comment(5, "norvig", None);
    assert_eq!(
        create_comment_row(1000, &no_kids, Some("")).unwrap(),
        format!("[1000] {:70} by norvig", "")
    );
    assert_eq!(
        create_comment_row(0, &no_kids, Some("h\u{e9}")).unwrap(),
        format!("[  0] h\u{e9}{} by norvig", " ".repeat(68))
    );
}

#[test]
fn a_comment_with_nothing_to_show_has_no_row() {
    assert_eq!(create_comment_row(1, &comment(5, "norvig", None), None), None);
}

#[test]
fn rows_are_numbered_without_gaps() {
    let comments = vec![
        comment(1, "a", None),
        comment(2, "b", None),
        comment(3, "c", Some(vec![9])),
        comment(4, "d", None),
    ];
    let shown = vec![Some(String::from("one")), None, Some(String::from("three")), Some(String::from("four"))];
    let comments: Vec<&HnItem> = comments.iter().collect();
    let rows = create_comment_rows(&comments, &shown, 10);
    assert_eq!(
        rows,
        vec![
            format!("[ 11] {:70} by a", "one"),
            format!("[ 12] {:70} by c with [  1] comments", "three"),
            format!("[ 13] {:70} by d", "four"),
        ]
    );
    assert_eq!(create_comment_rows(&vec![], &vec![], 0), Vec::<String>::new());
    let nothing = create_comment_rows(&comments, &vec![None, None, None, None], 0);
    assert_eq!(nothing, Vec::<String>::new());
    // texts for the first two comments only
    let some = create_comment_rows(&comments, &vec![None, Some(String::from("two"))], usize::MAX - 4);
    assert_eq!(some, vec![format!("[{}] {:70} by b", usize::MAX - 3, "two")]);
    // more texts than comments
    let one: Vec<&HnItem> = comments[..1].to_vec();
    let rows = create_comment_rows(&one, &shown, 0);
    assert_eq!(rows, vec![format!("[  1] {:70} by a", "one")]);
}

#[test]
fn the_listing_of_a_thread() {
    let story = decode_item(STORY).unwrap();
    let comments = vec![comment(1, "a", None), comment(2, "b", None)];
    let comments: Vec<&HnItem> = comments.iter().collect();
    let shown = vec![Some(String::from("one")), Some(String::from("two"))];
    let lines = comments_listing(&story, &comments, &shown, 0);
    assert_eq!(
        lines,
        vec![
            String::from("Comments for item id 8863 with title My YC app: Dropbox - Throw away your USB drive"),
            format!("[  1] {:70} by a", "one"),
            format!("[  2] {:70} by b", "two"),
        ]
    );
    let child = decode_item(CHILD).unwrap();
    let lines = comments_listing(&child, &comments, &vec![None, None], 0);
    assert_eq!(lines, vec![String::from("Comments for item id 14373436")]);
}

#[test]
fn the_listing_of_a_thread_without_comments() {
    let story = decode_item(STORY).unwrap();
    let lines = comments_listing(&story, &vec![], &vec![Some(String::from("unused"))], 0);
    assert_eq!(lines, vec![String::from("No comments for 8863 or all were dead (probably spam)")]);
}

#[test]
fn the_listing_with_or_without_its_parent() {
    let story = decode_item(STORY).unwrap();
    let comments = vec![comment(1, "a", None)];
    let comments: Option<Vec<&HnItem>> = Some(comments.iter().collect());
    let shown = vec![Some(String::from("one"))];
    assert_eq!(comments_and_parent_listing(None, &comments, &shown, 0), Vec::<String>::new());
    assert_eq!(comments_and_parent_listing(None, &None, &vec![], 0), Vec::<String>::new());
    assert_eq!(
        comments_and_parent_listing(Some(&story), &None, &vec![], 0),
        vec![String::from("Could not get comments for item with id 8863")]
    );
    assert_eq!(
        comments_and_parent_listing(Some(&story), &comments, &shown, 4),
        vec![
            String::from("Comments for item id 8863 with title My YC app: Dropbox - Throw away your USB drive"),
            format!("[  5] {:70} by a", "one"),
        ]
    );
}

#[test]
fn a_row_number_leads_to_its_comment() {
    let shown = vec![Some(String::from("one")), None, Some(String::from("three")), Some(String::from("four"))];
    // the rows are numbered 11, 12 and 13
    assert_eq!(comment_on_row(&shown, 4, 10, 11), Some(0));
    assert_eq!(comment_on_row(&shown, 4, 10, 12), Some(2));
    assert_eq!(comment_on_row(&shown, 4, 10, 13), Some(3));
    assert_eq!(comment_on_row(&shown, 4, 10, 14), None);
    assert_eq!(comment_on_row(&shown, 4, 10, 10), None);
    assert_eq!(comment_on_row(&shown, 4, 10, 0), None);
    // fewer comments than texts, and fewer texts than comments
    assert_eq!(comment_on_row(&shown, 2, 10, 12), None);
    assert_eq!(comment_on_row(&shown, 9, 10, 13), Some(3));
    assert_eq!(comment_on_row(&shown, 9, 10, 14), None);
    assert_eq!(comment_on_row(&vec![], 0, 0, 1), None);
    assert_eq!(comment_on_row(&vec![None, None], 2, 0, 1), None);
    assert_eq!(comment_on_row(&shown, 4, usize::MAX - 4, usize::MAX - 1), Some(3));
}

#[test]
fn the_number_on_a_row_is_the_number_that_finds_it() {
    let comments = vec![
        comment(1, "a", None),
        comment(2, "b", None),
        comment(3, "c", Some(vec![9])),
        comment(4, "d", None),
    ];
    let comments: Vec<&HnItem> = comments.iter().collect();
    let shown = vec![Some(String::from("one")), None, Some(String::from("three")), Some(String::from("four"))];
    let rows = create_comment_rows(&comments, &shown, 20);
    for number in 0..30 {
        match comment_on_row(&shown, comments.len(), 20, number) {
            Some(place) => {
                let row = create_comment_row(number, comments[place], shown[place].as_deref()).unwrap();
                assert!(rows.contains(&row));
                assert!(row.starts_with(&format!("[{:3}]", number)));
            }
            None => assert!(!rows.iter().any(|row| row.starts_with(&format!("[{:3}]", number)))),
        }
    }
}
