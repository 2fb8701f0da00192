use rs_ycomb_hn_cli::codec::{
    decode_id_list, decode_item, decode_user, id_list_from_json, item_from_json, item_to_json,
    member, read_flag, read_i32, read_i64, read_ids, read_text, user_from_json,
};
use rs_ycomb_hn_cli::errors::DecodeError;
use rs_ycomb_hn_cli::json::{parse_json, JsonValue};
use rs_ycomb_hn_cli::models::{default_user, HnItem};

const STORY: &str = r#"{
  "by" : "dhouston",
  "descendants" : 71,
  "id" : 8863,
  "kids" : [ 8952, 9224, 8917, 8884, 8887, 8943, 8869, 8958, 9005, 9671 ],
  "score" : 111,
  "time" : 1175714200,
  "title" : "My YC app: Dropbox - Throw away your USB drive",
  "type" : "story",
  "url" : "http://www.getdropbox.com/u/2/screencast.html"
}"#;

const CHILD: &str = r#"{
  "by" : "cholantesh",
  "id" : 14373436,
  "kids" : [ 14373852 ],
  "parent" : 14373272,
  "text" : "That is not a valid concern. Unless you are planning to host it yourself, see https:&#x2F;&#x2F;example.com&#x2F;pricing first.",
  "time" : 1495235620,
  "type" : "comment"
}"#;

const DEAD: &str = r#"{
  "by" : "spammer",
  "dead" : true,
  "id" : 14373999,
  "parent" : 14373272,
  "text" : "buy now",
  "time" : 1495235999,
  "type" : "comment"
}"#;

const USER: &str = r#"{
  "about" : "This is a test",
  "created" : 1173923446,
  "id" : "jl",
  "karma" : 3496,
  "submitted" : [ 8265435, 8168423, 8090946, 8090326, 7699907 ]
}"#;

const TOP_STORIES: &str = "[ 9129911, 9129199, 9127761, 9128141, 9128264, 9127792 ]";

fn unescape(body: &str) -> Result<String, ()> {
    Ok(body.replace("&#x2F;", "/"))
}

fn full_item() -> HnItem {
    HnItem {
        by: String::from("dhouston"),
        parent: Some(-7),
        descendants: Some(71),
        id: 8863,
        kids: Some(vec![8952, -1, i32::MAX, i32::MIN]),
        title: Some(String::from("A \"quoted\" title")),
        score: Some(111),
        text: Some(String::from("line\nbreak & <p>")),
        time: 1175714200,
        type_str: String::from("story"),
        url: Some(String::from("http://www.getdropbox.com/u/2/screencast.html")),
        dead: Some(false),
    }
}

fn bare_item() -> HnItem {
    HnItem {
        by: String::from("x"),
        parent: None,
        descendants: None,
        id: 1,
        kids: None,
        title: None,
        score: None,
        text: None,
        time: 0,
        type_str: String::from("job"),
        url: None,
        dead: None,
    }
}

fn same(a: &HnItem, b: &HnItem) -> bool {
    a.by == b.by
        && a.parent == b.parent
        && a.descendants == b.descendants
        && a.id == b.id
        && a.kids == b.kids
        && a.title == b.title
        && a.score == b.score
        && a.text == b.text
        && a.time == b.time
        && a.type_str == b.type_str
        && a.url == b.url
        && a.dead == b.dead
}

#[test]
fn hn_item_serde_test() {
    let deserialized: HnItem = decode_item(STORY).unwrap();
    assert_eq!(71, deserialized.descendants.unwrap());
    assert_eq!("dhouston", deserialized.by);
    assert_eq!(8863, deserialized.id);
    assert_eq!(111, deserialized.score.unwrap());
    assert_eq!(1175714200.0f64, deserialized.time as f64);
    assert_eq!(
        "My YC app: Dropbox - Throw away your USB drive",
        deserialized.title.unwrap()
    );
    assert_eq!("story", deserialized.type_str);
    assert_eq!(
        "http://www.getdropbox.com/u/2/screencast.html",
        deserialized.url.unwrap()
    );
}

#[test]
fn hn_item_decode_test() {
    let deserialized: HnItem = decode_item(CHILD).unwrap();
    let text_decoded = deserialized.text_unescaped(unescape).unwrap();
    println!("{}", text_decoded);
    assert!(!text_decoded.contains("&#x2F;"));
}

#[test]
fn hn_top_stories_serde_test() {
    let deserialized = decode_id_list(TOP_STORIES).unwrap();
    assert!(deserialized.values.len() > 3);
}

#[test]
fn hn_user_serde_test() {
    let deserialized = decode_user(USER).unwrap();
    assert_eq!("This is a test", deserialized.about);
    assert_eq!(1173923446.0f64, deserialized.created as f64);
    assert_eq!("jl", deserialized.id);
    assert_eq!(3496, deserialized.karma);
    assert!(deserialized.submitted.len() > 3);
}

#[test]
fn dead_hnitem() {
    let deserialized: HnItem = decode_item(DEAD).unwrap();
    assert_eq!(true, deserialized.dead.unwrap());
}

#[test]
fn the_order_of_an_id_list_is_kept() {
    let list = decode_id_list(TOP_STORIES).unwrap();
    assert_eq!(list.values, vec![9129911, 9129199, 9127761, 9128141, 9128264, 9127792]);
    assert_eq!(list.values.len(), 6);
    assert_eq!(decode_id_list("[]").unwrap().values, Vec::<i32>::new());
}

#[test]
fn every_member_of_a_story_is_read() {
    let item = decode_item(STORY).unwrap();
    assert_eq!(item.kids, Some(vec![8952, 9224, 8917, 8884, 8887, 8943, 8869, 8958, 9005, 9671]));
    assert_eq!(item.parent, None);
    assert_eq!(item.text, None);
    assert_eq!(item.dead, None);
    assert_eq!(item.time, 1175714200);
}

#[test]
fn a_missing_author_is_the_undefined_user() {
    let item = decode_item(r#"{"id": 5, "time": 10, "type": "comment"}"#).unwrap();
    assert_eq!(item.by, "Undefined user");
    assert_eq!(default_user(), "Undefined user");
    let item = decode_item(r#"{"id":5,"time":10,"type":"story","title":"t","kids":[1]}"#).unwrap();
    assert_eq!(item.by, "Undefined user");
}

#[test]
fn every_optional_member_may_be_absent_or_null() {
    let item = decode_item(r#"{"id": 5, "time": 10, "type": "comment"}"#).unwrap();
    assert!(same(
        &item,
        &HnItem {
            by: String::from("Undefined user"),
            parent: None,
            descendants: None,
            id: 5,
            kids: None,
            title: None,
            score: None,
            text: None,
            time: 10,
            type_str: String::from("comment"),
            url: None,
            dead: None,
        }
    ));
    let nulls = r#"{"by":"a","parent":null,"descendants":null,"id":5,"kids":null,"title":null,
        "score":null,"text":null,"time":10,"type":"comment","url":null,"dead":null}"#;
    let item = decode_item(nulls).unwrap();
    assert_eq!(item.by, "a");
    assert_eq!(item.parent, None);
    assert_eq!(item.kids, None);
    assert_eq!(item.title, None);
    assert_eq!(item.dead, None);
}

#[test]
fn unknown_members_are_passed_over() {
    let item =
        decode_item(r#"{"id": 5, "time": 10, "type": "poll", "parts": [1, 2], "deleted": true}"#)
            .unwrap();
    assert_eq!(item.id, 5);
    assert_eq!(item.type_str, "poll");
}

#[test]
fn text_that_is_not_json_is_malformed() {
    assert_eq!(decode_item("").err(), Some(DecodeError::Malformed));
    assert_eq!(decode_item("{\"id\": 5,").err(), Some(DecodeError::Malformed));
    assert_eq!(decode_item("not json").err(), Some(DecodeError::Malformed));
    assert_eq!(decode_id_list("[1, 2").err(), Some(DecodeError::Malformed));
    assert_eq!(decode_user("{").err(), Some(DecodeError::Malformed));
    assert_eq!(parse_json("{]").err(), Some(DecodeError::Malformed));
}

#[test]
fn json_of_another_shape_is_a_schema_mismatch() {
    let mismatch = Some(DecodeError::SchemaMismatch);
    // needed members
    assert_eq!(decode_item(r#"{"time": 10, "type": "story"}"#).err(), mismatch);
    assert_eq!(decode_item(r#"{"id": 5, "type": "story"}"#).err(), mismatch);
    assert_eq!(decode_item(r#"{"id": 5, "time": 10}"#).err(), mismatch);
    // a null where a value is needed
    assert_eq!(decode_item(r#"{"id": null, "time": 10, "type": "story"}"#).err(), mismatch);
    assert_eq!(decode_item(r#"{"by": null, "id": 5, "time": 10, "type": "story"}"#).err(), mismatch);
    // values of another kind
    assert_eq!(decode_item(r#"{"id": "5", "time": 10, "type": "story"}"#).err(), mismatch);
    assert_eq!(decode_item(r#"{"id": 5, "time": 10, "type": 3}"#).err(), mismatch);
    assert_eq!(decode_item(r#"{"id": 5, "time": 10, "type": "s", "kids": [1, "2"]}"#).err(), mismatch);
    assert_eq!(decode_item(r#"{"id": 5, "time": 10, "type": "s", "kids": 7}"#).err(), mismatch);
    assert_eq!(decode_item(r#"{"id": 5, "time": 10, "type": "s", "dead": 1}"#).err(), mismatch);
    assert_eq!(decode_item(r#"{"id": 5, "time": 10, "type": "s", "title": ["t"]}"#).err(), mismatch);
    assert_eq!(decode_item(r#"{"id": 5.5, "time": 10, "type": "story"}"#).err(), mismatch);
    assert_eq!(decode_item(r#"{"id": 5, "time": 10.25, "type": "story"}"#).err(), mismatch);
    // documents that are no objects
    assert_eq!(decode_item("[1, 2]").err(), mismatch);
    assert_eq!(decode_item("null").err(), mismatch);
    assert_eq!(decode_item("8863").err(), mismatch);
    assert_eq!(decode_id_list(r#"{"a": 1}"#).err(), mismatch);
    assert_eq!(decode_id_list(r#"[1, "2"]"#).err(), mismatch);
    assert_eq!(decode_id_list("[1, 2.5]").err(), mismatch);
    assert_eq!(decode_user(r#"{"about":"a","created":1,"id":"jl","karma":1}"#).err(), mismatch);
    assert_eq!(decode_user("[]").err(), mismatch);
}

#[test]
fn ids_must_fit_thirty_two_bits() {
    let mismatch = Some(DecodeError::SchemaMismatch);
    assert_eq!(decode_item(r#"{"id": 2147483647, "time": 10, "type": "s"}"#).unwrap().id, i32::MAX);
    assert_eq!(decode_item(r#"{"id": -2147483648, "time": 10, "type": "s"}"#).unwrap().id, i32::MIN);
    assert_eq!(decode_item(r#"{"id": 2147483648, "time": 10, "type": "s"}"#).err(), mismatch);
    assert_eq!(decode_item(r#"{"id": -2147483649, "time": 10, "type": "s"}"#).err(), mismatch);
    assert_eq!(decode_id_list("[2147483648]").err(), mismatch);
    // the time has sixty-four
    let item = decode_item(r#"{"id": 1, "time": 9223372036854775807, "type": "s"}"#).unwrap();
    assert_eq!(item.time, i64::MAX);
    assert_eq!(
        decode_item(r#"{"id": 1, "time": 9223372036854775808, "type": "s"}"#).err(),
        mismatch
    );
}

#[test]
fn an_item_is_written_with_the_members_it_has() {
    let text = decode_item(STORY).unwrap().to_json();
    assert_eq!(
        text,
        "{\"by\":\"dhouston\",\"descendants\":71,\"id\":8863,\
         \"kids\":[8952,9224,8917,8884,8887,8943,8869,8958,9005,9671],\
         \"title\":\"My YC app: Dropbox - Throw away your USB drive\",\"score\":111,\
         \"time\":1175714200,\"type\":\"story\",\
         \"url\":\"http://www.getdropbox.com/u/2/screencast.html\"}"
    );
    assert_eq!(bare_item().to_json(), r#"{"by":"x","id":1,"time":0,"type":"job"}"#);
}

#[test]
fn an_item_is_written_indented() {
    assert_eq!(
        bare_item().to_json_pretty(),
        "{\n  \"by\": \"x\",\n  \"id\": 1,\n  \"time\": 0,\n  \"type\": \"job\"\n}"
    );
}

#[test]
fn an_item_written_and_read_back_is_itself() {
    for item in vec![full_item(), bare_item(), decode_item(STORY).unwrap(), decode_item(CHILD).unwrap(), decode_item(DEAD).unwrap()] {
        let back = decode_item(&item.to_json()).unwrap();
        assert!(same(&item, &back));
        let back = decode_item(&item.to_json_pretty()).unwrap();
        assert!(same(&item, &back));
        let back = item_from_json(&item_to_json(&item)).unwrap();
        assert!(same(&item, &back));
    }
}

#[test]
fn an_empty_list_of_kids_is_written_and_read_back() {
    let mut item = bare_item();
    item.kids = Some(vec![]);
    assert_eq!(item.to_json(), r#"{"by":"x","id":1,"kids":[],"time":0,"type":"job"}"#);
    assert_eq!(decode_item(&item.to_json()).unwrap().kids, Some(vec![]));
}

#[test]
fn members_are_found_by_name() {
    let document = parse_json(r#"{"a": 1, "b": "two", "c": [3], "d": true, "e": null}"#).unwrap();
    assert_eq!(read_i32(member(&document, "a").unwrap()), Some(1));
    assert_eq!(read_i64(member(&document, "a").unwrap()), Some(1));
    assert_eq!(read_text(member(&document, "b").unwrap()), Some(String::from("two")));
    assert_eq!(read_ids(member(&document, "c").unwrap()), Some(vec![3]));
    assert_eq!(read_flag(member(&document, "d").unwrap()), Some(true));
    assert!(matches!(member(&document, "e"), Some(JsonValue::Null)));
    assert!(member(&document, "f").is_none());
    assert!(member(&document, "").is_none());
    assert_eq!(read_i32(member(&document, "b").unwrap()), None);
    assert_eq!(read_text(member(&document, "a").unwrap()), None);
    assert_eq!(read_flag(member(&document, "a").unwrap()), None);
    assert_eq!(read_ids(member(&document, "a").unwrap()), None);
    let array = parse_json("[1]").unwrap();
    assert!(member(&array, "a").is_none());
}

#[test]
fn the_first_of_two_members_of_one_name_counts() {
    let document = JsonValue::Object(vec![
        (String::from("id"), JsonValue::Number(Some(1))),
        (String::from("id"), JsonValue::Number(Some(2))),
    ]);
    assert_eq!(read_i32(member(&document, "id").unwrap()), Some(1));
}

#[test]
fn a_parsed_document_keeps_the_order_of_its_members() {
    let document = parse_json(r#"{"z": 1, "a": [true, null, "s", 2.5, -3]}"#).unwrap();
    match document {
        JsonValue::Object(members) => {
            assert_eq!(members.len(), 2);
            assert_eq!(members[0].0, "z");
            assert!(matches!(members[0].1, JsonValue::Number(Some(1))));
            assert_eq!(members[1].0, "a");
            match &members[1].1 {
                JsonValue::Array(items) => {
                    assert_eq!(items.len(), 5);
                    assert!(matches!(items[0], JsonValue::Bool(true)));
                    assert!(matches!(items[1], JsonValue::Null));
                    assert!(matches!(&items[2], JsonValue::Text(s) if s == "s"));
                    assert!(matches!(items[3], JsonValue::Number(None)));
                    assert!(matches!(items[4], JsonValue::Number(Some(-3))));
                },
                _ => panic!("an array was written"),
            }
        },
        _ => panic!("an object was written"),
    }
}

#[test]
fn documents_are_read_without_text() {
    let document = JsonValue::Array(vec![JsonValue::Number(Some(4)), JsonValue::Number(Some(2))]);
    assert_eq!(id_list_from_json(&document).unwrap().values, vec![4, 2]);
    assert_eq!(item_from_json(&document).err(), Some(DecodeError::SchemaMismatch));
    assert_eq!(user_from_json(&document).err(), Some(DecodeError::SchemaMismatch));
    let user = user_from_json(&parse_json(USER).unwrap()).unwrap();
    assert_eq!(user.submitted, vec![8265435, 8168423, 8090946, 8090326, 7699907]);
    assert_eq!(user.created, 1173923446);
}

#[test]
fn a_body_is_unescaped_by_the_decoder_given() {
    let item = decode_item(CHILD).unwrap();
    assert_eq!(
        item.text_unescaped(unescape).unwrap(),
        "That is not a valid concern. Unless you are planning to host it yourself, see https://example.com/pricing first."
    );
    let failing = |_: &str| -> Result<String, ()> { Err(()) };
    assert_eq!(item.text_unescaped(failing), None);
    assert_eq!(decode_item(STORY).unwrap().text_unescaped(unescape), None);
}
