//! The codec between JSON documents and the entities.
//!
//! An item is read from an object by member name. A member that an entity
//! may lack can be absent or `null`; the author falls back to a fixed name
//! where the member is absent; members that the entity does not know are
//! passed over. An item is written with the members it has, in a fixed
//! order, and reads back as itself.

use vstd::prelude::*;
use crate::errors::DecodeError;
use crate::json::{
    json_parse,
    json_text,
    json_text_pretty,
    lemma_view_of_collections,
    items_model,
    members_model,
    parse_json,
    write_document,
    write_document_pretty,
    JsonModel,
    JsonValue,
};
use crate::models::{
    default_user,
    default_user_text,
    ids_view,
    text_view,
    HnItem,
    HnItemView,
    HnListOfItems,
    HnUser,
    HnUserView,
};

verus! {

/// The value of the first member named `key`.
pub open spec fn find_member(members: Seq<(Seq<char>, JsonModel)>, key: Seq<char>) -> Option<
    JsonModel,
>
    decreases members.len(),
{
    if members.len() == 0 {
        None
    } else if members[0].0 == key {
        Some(members[0].1)
    } else {
        find_member(members.drop_first(), key)
    }
}

impl JsonModel {
    /// The value of the first member named `key`, where the document is an
    /// object that has one.
    pub open spec fn member(self, key: Seq<char>) -> Option<JsonModel> {
        match self {
            JsonModel::Object(members) => find_member(members, key),
            _ => None,
        }
    }
}

/// The document as a 64-bit integer.
pub open spec fn as_int64(value: JsonModel) -> Option<i64> {
    match value {
        JsonModel::Number(Some(n)) => Some(n),
        _ => None,
    }
}

/// The document as a 32-bit integer.
pub open spec fn as_int32(value: JsonModel) -> Option<i32> {
    match value {
        JsonModel::Number(Some(n)) => if i32::MIN <= n <= i32::MAX {
            Some(n as i32)
        } else {
            None
        },
        _ => None,
    }
}

/// The document as a text.
pub open spec fn as_text(value: JsonModel) -> Option<Seq<char>> {
    match value {
        JsonModel::Text(s) => Some(s),
        _ => None,
    }
}

/// The document as a truth value.
pub open spec fn as_flag(value: JsonModel) -> Option<bool> {
    match value {
        JsonModel::Bool(b) => Some(b),
        _ => None,
    }
}

/// The document as a list of ids: an array of which every element is a
/// 32-bit integer.
pub open spec fn as_ids(value: JsonModel) -> Option<Seq<i32>> {
    match value {
        JsonModel::Array(items) => if forall|i: int|
            0 <= i < items.len() ==> (#[trigger] as_int32(items[i])) is Some {
            Some(Seq::new(items.len(), |i: int| as_int32(items[i])->0))
        } else {
            None
        },
        _ => None,
    }
}

/// What a member that the entity needs gives: what `read` makes of it.
/// Nothing where the member is absent or `read` rejects it.
pub open spec fn required<T>(member: Option<JsonModel>, read: spec_fn(JsonModel) -> Option<T>)
    -> Option<T> {
    match member {
        Some(value) => read(value),
        None => None,
    }
}

/// What a member that the entity may lack gives. An absent member and a
/// `null` both give `Some(None)`; any other value gives what `read` makes of
/// it, and nothing where `read` rejects it.
pub open spec fn optional<T>(member: Option<JsonModel>, read: spec_fn(JsonModel) -> Option<T>)
    -> Option<Option<T>> {
    match member {
        None => Some(None),
        Some(JsonModel::Null) => Some(None),
        Some(value) => match read(value) {
            Some(x) => Some(Some(x)),
            None => None,
        },
    }
}

/// The author that a document names: the fixed fallback where it has no
/// member `by`, else that member as a text.
pub open spec fn author_of(document: JsonModel) -> Option<Seq<char>> {
    match document.member("by"@) {
        None => Some(default_user_text()),
        Some(value) => as_text(value),
    }
}

/// The item that a document describes, or nothing where the document does
/// not have the shape of an item.
pub open spec fn item_of_json(document: JsonModel) -> Option<HnItemView> {
    let by = author_of(document);
    let parent = optional(document.member("parent"@), |v: JsonModel| as_int32(v));
    let descendants = optional(document.member("descendants"@), |v: JsonModel| as_int32(v));
    let id = required(document.member("id"@), |v: JsonModel| as_int32(v));
    let kids = optional(document.member("kids"@), |v: JsonModel| as_ids(v));
    let title = optional(document.member("title"@), |v: JsonModel| as_text(v));
    let score = optional(document.member("score"@), |v: JsonModel| as_int32(v));
    let text = optional(document.member("text"@), |v: JsonModel| as_text(v));
    let time = required(document.member("time"@), |v: JsonModel| as_int64(v));
    let type_str = required(document.member("type"@), |v: JsonModel| as_text(v));
    let url = optional(document.member("url"@), |v: JsonModel| as_text(v));
    let dead = optional(document.member("dead"@), |v: JsonModel| as_flag(v));
    if by is Some && parent is Some && descendants is Some && id is Some && kids is Some
        && title is Some && score is Some && text is Some && time is Some && type_str is Some
        && url is Some && dead is Some {
        Some(
            HnItemView {
                by: by->0,
                parent: parent->0,
                descendants: descendants->0,
                id: id->0,
                kids: kids->0,
                title: title->0,
                score: score->0,
                text: text->0,
                time: time->0,
                type_str: type_str->0,
                url: url->0,
                dead: dead->0,
            },
        )
    } else {
        None
    }
}

/// The user that a document describes, or nothing where the document does
/// not have the shape of a user.
pub open spec fn user_of_json(document: JsonModel) -> Option<HnUserView> {
    let about = required(document.member("about"@), |v: JsonModel| as_text(v));
    let created = required(document.member("created"@), |v: JsonModel| as_int64(v));
    let id = required(document.member("id"@), |v: JsonModel| as_text(v));
    let karma = required(document.member("karma"@), |v: JsonModel| as_int32(v));
    let submitted = required(document.member("submitted"@), |v: JsonModel| as_ids(v));
    if about is Some && created is Some && id is Some && karma is Some && submitted is Some {
        Some(
            HnUserView {
                about: about->0,
                created: created->0,
                id: id->0,
                karma: karma->0,
                submitted: submitted->0,
            },
        )
    } else {
        None
    }
}

/// The member list of one member, or of none.
pub open spec fn entry(key: Seq<char>, value: Option<JsonModel>) -> Seq<(Seq<char>, JsonModel)> {
    match value {
        Some(v) => seq![(key, v)],
        None => Seq::empty(),
    }
}

/// An integer as a document.
pub open spec fn int_json(n: int) -> JsonModel {
    JsonModel::Number(Some(n as i64))
}

/// An optional 32-bit integer as an optional document.
pub open spec fn opt_int_json(n: Option<i32>) -> Option<JsonModel> {
    match n {
        Some(x) => Some(int_json(x as int)),
        None => None,
    }
}

/// An optional text as an optional document.
pub open spec fn opt_text_json(s: Option<Seq<char>>) -> Option<JsonModel> {
    match s {
        Some(x) => Some(JsonModel::Text(x)),
        None => None,
    }
}

/// An optional truth value as an optional document.
pub open spec fn opt_flag_json(b: Option<bool>) -> Option<JsonModel> {
    match b {
        Some(x) => Some(JsonModel::Bool(x)),
        None => None,
    }
}

/// A list of ids as a document: the array of the ids.
pub open spec fn ids_json(ids: Seq<i32>) -> JsonModel {
    JsonModel::Array(Seq::new(ids.len(), |i: int| int_json(ids[i] as int)))
}

/// An optional list of ids as an optional document.
pub open spec fn opt_ids_json(ids: Option<Seq<i32>>) -> Option<JsonModel> {
    match ids {
        Some(x) => Some(ids_json(x)),
        None => None,
    }
}

/// The members that an item is written with, in order. A member that the
/// item lacks is left out.
pub open spec fn item_members(item: HnItemView) -> Seq<(Seq<char>, JsonModel)> {
    entry("by"@, Some(JsonModel::Text(item.by))) + entry("parent"@, opt_int_json(item.parent))
        + entry("descendants"@, opt_int_json(item.descendants)) + entry(
        "id"@,
        Some(int_json(item.id as int)),
    ) + entry("kids"@, opt_ids_json(item.kids)) + entry("title"@, opt_text_json(item.title))
        + entry("score"@, opt_int_json(item.score)) + entry("text"@, opt_text_json(item.text))
        + entry("time"@, Some(int_json(item.time as int))) + entry(
        "type"@,
        Some(JsonModel::Text(item.type_str)),
    ) + entry("url"@, opt_text_json(item.url)) + entry("dead"@, opt_flag_json(item.dead))
}

/// The document that an item is written as.
pub open spec fn json_of_item(item: HnItemView) -> JsonModel {
    JsonModel::Object(item_members(item))
}

/// Looks up the first member named `key`. Nothing where the document is not
/// an object or has no such member.
pub fn member<'a>(document: &'a JsonValue, key: &str) -> (found: Option<&'a JsonValue>)
    ensures
        match found {
            Some(value) => document@.member(key@) == Some(value@),
            None => document@.member(key@) is None,
        },
{
    match document {
        JsonValue::Object(members) => {
            proof {
                lemma_view_of_collections(*document);
            }
            let ghost all = members_model(members@);
            let wanted = String::from_str(key);
            let mut i: usize = 0;
            assert(all.skip(0) == all);
            while i < members.len()
                invariant
                    i <= members.len(),
                    wanted@ == key@,
                    all == members_model(members@),
                    document@ == JsonModel::Object(all),
                    find_member(all, key@) == find_member(all.skip(i as int), key@),
                decreases members.len() - i,
            {
                if members[i].0 == wanted {
                    assert(all.skip(i as int)[0] == all[i as int]);
                    return Some(&members[i].1);
                }
                proof {
                    assert(all.skip(i as int)[0] == all[i as int]);
                    assert(all.skip(i as int).drop_first() == all.skip(i + 1));
                }
                i += 1;
            }
            None
        },
        _ => None,
    }
}

/// Reads a document as a 64-bit integer.
pub fn read_i64(value: &JsonValue) -> (n: Option<i64>)
    ensures
        n == as_int64(value@),
{
    match value {
        JsonValue::Number(Some(n)) => Some(*n),
        _ => None,
    }
}

/// Reads a document as a 32-bit integer.
pub fn read_i32(value: &JsonValue) -> (n: Option<i32>)
    ensures
        n == as_int32(value@),
{
    match value {
        JsonValue::Number(Some(n)) => {
            if -0x8000_0000 <= *n && *n <= 0x7fff_ffff {
                Some(*n as i32)
            } else {
                None
            }
        },
        _ => None,
    }
}

/// Reads a document as a text.
pub fn read_text(value: &JsonValue) -> (s: Option<String>)
    ensures
        text_view(s) == as_text(value@),
{
    match value {
        JsonValue::Text(s) => Some(s.clone()),
        _ => None,
    }
}

/// Reads a document as a truth value.
pub fn read_flag(value: &JsonValue) -> (b: Option<bool>)
    ensures
        b == as_flag(value@),
{
    match value {
        JsonValue::Bool(b) => Some(*b),
        _ => None,
    }
}

/// Reads a document as a list of ids.
pub fn read_ids(value: &JsonValue) -> (ids: Option<Vec<i32>>)
    ensures
        ids_view(ids) == as_ids(value@),
{
    match value {
        JsonValue::Array(items) => {
            proof {
                lemma_view_of_collections(*value);
            }
            let ghost all = items_model(items@);
            let mut ids: Vec<i32> = Vec::new();
            let mut i: usize = 0;
            while i < items.len()
                invariant
                    i <= items.len(),
                    all == items_model(items@),
                    value@ == JsonModel::Array(all),
                    ids@.len() == i,
                    forall|j: int| 0 <= j < i ==> #[trigger] as_int32(all[j]) == Some(ids@[j]),
                decreases items.len() - i,
            {
                match read_i32(&items[i]) {
                    Some(id) => {
                        ids.push(id);
                    },
                    None => {
                        assert(as_int32(all[i as int]) is None);
                        return None;
                    },
                }
                i += 1;
            }
            assert(as_ids(value@) is Some);
            assert forall|j: int| 0 <= j < ids@.len() implies ids@[j] == as_ids(value@)->0[j] by {
                assert(as_int32(all[j]) == Some(ids@[j]));
            }
            assert(ids@ =~= as_ids(value@)->0);
            Some(ids)
        },
        _ => None,
    }
}

/// Reads a member that the entity may lack as a 32-bit integer.
fn optional_i32(document: &JsonValue, key: &str) -> (r: Result<Option<i32>, DecodeError>)
    ensures
        match optional(document@.member(key@), |v: JsonModel| as_int32(v)) {
            Some(n) => r == Ok::<Option<i32>, DecodeError>(n),
            None => r == Err::<Option<i32>, DecodeError>(DecodeError::SchemaMismatch),
        },
{
    match member(document, key) {
        None => Ok(None),
        Some(JsonValue::Null) => Ok(None),
        Some(value) => match read_i32(value) {
            Some(n) => Ok(Some(n)),
            None => Err(DecodeError::SchemaMismatch),
        },
    }
}

/// Reads a member that the entity may lack as a text.
fn optional_text(document: &JsonValue, key: &str) -> (r: Result<Option<String>, DecodeError>)
    ensures
        match optional(document@.member(key@), |v: JsonModel| as_text(v)) {
            Some(s) => r matches Ok(t) && text_view(t) == s,
            None => r == Err::<Option<String>, DecodeError>(DecodeError::SchemaMismatch),
        },
{
    match member(document, key) {
        None => Ok(None),
        Some(JsonValue::Null) => Ok(None),
        Some(value) => match read_text(value) {
            Some(s) => Ok(Some(s)),
            None => Err(DecodeError::SchemaMismatch),
        },
    }
}

/// Reads a member that the entity may lack as a truth value.
fn optional_flag(document: &JsonValue, key: &str) -> (r: Result<Option<bool>, DecodeError>)
    ensures
        match optional(document@.member(key@), |v: JsonModel| as_flag(v)) {
            Some(b) => r == Ok::<Option<bool>, DecodeError>(b),
            None => r == Err::<Option<bool>, DecodeError>(DecodeError::SchemaMismatch),
        },
{
    match member(document, key) {
        None => Ok(None),
        Some(JsonValue::Null) => Ok(None),
        Some(value) => match read_flag(value) {
            Some(b) => Ok(Some(b)),
            None => Err(DecodeError::SchemaMismatch),
        },
    }
}

/// Reads a member that the entity may lack as a list of ids.
fn optional_ids(document: &JsonValue, key: &str) -> (r: Result<Option<Vec<i32>>, DecodeError>)
    ensures
        match optional(document@.member(key@), |v: JsonModel| as_ids(v)) {
            Some(ids) => r matches Ok(v) && ids_view(v) == ids,
            None => r == Err::<Option<Vec<i32>>, DecodeError>(DecodeError::SchemaMismatch),
        },
{
    match member(document, key) {
        None => Ok(None),
        Some(JsonValue::Null) => Ok(None),
        Some(value) => match read_ids(value) {
            Some(ids) => Ok(Some(ids)),
            None => Err(DecodeError::SchemaMismatch),
        },
    }
}

/// Reads a member that the entity needs as a 32-bit integer.
fn required_i32(document: &JsonValue, key: &str) -> (r: Result<i32, DecodeError>)
    ensures
        match required(document@.member(key@), |v: JsonModel| as_int32(v)) {
            Some(n) => r == Ok::<i32, DecodeError>(n),
            None => r == Err::<i32, DecodeError>(DecodeError::SchemaMismatch),
        },
{
    match member(document, key) {
        None => Err(DecodeError::SchemaMismatch),
        Some(value) => match read_i32(value) {
            Some(n) => Ok(n),
            None => Err(DecodeError::SchemaMismatch),
        },
    }
}

/// Reads a member that the entity needs as a 64-bit integer.
fn required_i64(document: &JsonValue, key: &str) -> (r: Result<i64, DecodeError>)
    ensures
        match required(document@.member(key@), |v: JsonModel| as_int64(v)) {
            Some(n) => r == Ok::<i64, DecodeError>(n),
            None => r == Err::<i64, DecodeError>(DecodeError::SchemaMismatch),
        },
{
    match member(document, key) {
        None => Err(DecodeError::SchemaMismatch),
        Some(value) => match read_i64(value) {
            Some(n) => Ok(n),
            None => Err(DecodeError::SchemaMismatch),
        },
    }
}

/// Reads a member that the entity needs as a text.
fn required_text(document: &JsonValue, key: &str) -> (r: Result<String, DecodeError>)
    ensures
        match required(document@.member(key@), |v: JsonModel| as_text(v)) {
            Some(s) => r matches Ok(t) && t@ == s,
            None => r == Err::<String, DecodeError>(DecodeError::SchemaMismatch),
        },
{
    match member(document, key) {
        None => Err(DecodeError::SchemaMismatch),
        Some(value) => match read_text(value) {
            Some(s) => Ok(s),
            None => Err(DecodeError::SchemaMismatch),
        },
    }
}

/// Reads a member that the entity needs as a list of ids.
fn required_ids(document: &JsonValue, key: &str) -> (r: Result<Vec<i32>, DecodeError>)
    ensures
        match required(document@.member(key@), |v: JsonModel| as_ids(v)) {
            Some(ids) => r matches Ok(v) && v@ == ids,
            None => r == Err::<Vec<i32>, DecodeError>(DecodeError::SchemaMismatch),
        },
{
    match member(document, key) {
        None => Err(DecodeError::SchemaMismatch),
        Some(value) => match read_ids(value) {
            Some(ids) => Ok(ids),
            None => Err(DecodeError::SchemaMismatch),
        },
    }
}

/// Reads the author of an item: the member `by` as a text, or the fixed
/// fallback where the document has no such member.
fn read_author(document: &JsonValue) -> (r: Result<String, DecodeError>)
    ensures
        match author_of(document@) {
            Some(s) => r matches Ok(t) && t@ == s,
            None => r == Err::<String, DecodeError>(DecodeError::SchemaMismatch),
        },
{
    match member(document, "by") {
        None => Ok(default_user()),
        Some(value) => match read_text(value) {
            Some(s) => Ok(s),
            None => Err(DecodeError::SchemaMismatch),
        },
    }
}

/// Reads an item from a document. Succeeds exactly on the documents that
/// have the shape of an item, and then gives that item; any other document
/// is a `SchemaMismatch`. Where the document has no member `by`, the item's
/// author is the fixed fallback.
pub fn item_from_json(document: &JsonValue) -> (r: Result<HnItem, DecodeError>)
    ensures
        match item_of_json(document@) {
            Some(item) => r matches Ok(decoded) && decoded@ == item,
            None => r == Err::<HnItem, DecodeError>(DecodeError::SchemaMismatch),
        },
        document@.member("by"@) is None ==> (r matches Ok(decoded) ==> decoded.by@
            == default_user_text()),
{
    let by = read_author(document)?;
    let parent = optional_i32(document, "parent")?;
    let descendants = optional_i32(document, "descendants")?;
    let id = required_i32(document, "id")?;
    let kids = optional_ids(document, "kids")?;
    let title = optional_text(document, "title")?;
    let score = optional_i32(document, "score")?;
    let text = optional_text(document, "text")?;
    let time = required_i64(document, "time")?;
    let type_str = required_text(document, "type")?;
    let url = optional_text(document, "url")?;
    let dead = optional_flag(document, "dead")?;
    Ok(
        HnItem {
            by,
            parent,
            descendants,
            id,
            kids,
            title,
            score,
            text,
            time,
            type_str,
            url,
            dead,
        },
    )
}

/// Reads a list of ids from a document: an array of 32-bit integers, in the
/// order of the array. Any other document is a `SchemaMismatch`.
pub fn id_list_from_json(document: &JsonValue) -> (r: Result<HnListOfItems, DecodeError>)
    ensures
        match as_ids(document@) {
            Some(ids) => r matches Ok(list) && list@ == ids,
            None => r == Err::<HnListOfItems, DecodeError>(DecodeError::SchemaMismatch),
        },
{
    match read_ids(document) {
        Some(values) => Ok(HnListOfItems { values }),
        None => Err(DecodeError::SchemaMismatch),
    }
}

/// Reads a user from a document. Succeeds exactly on the documents that have
/// the shape of a user; any other document is a `SchemaMismatch`.
pub fn user_from_json(document: &JsonValue) -> (r: Result<HnUser, DecodeError>)
    ensures
        match user_of_json(document@) {
            Some(user) => r matches Ok(decoded) && decoded@ == user,
            None => r == Err::<HnUser, DecodeError>(DecodeError::SchemaMismatch),
        },
{
    let about = required_text(document, "about")?;
    let created = required_i64(document, "created")?;
    let id = required_text(document, "id")?;
    let karma = required_i32(document, "karma")?;
    let submitted = required_ids(document, "submitted")?;
    Ok(HnUser { about, created, id, karma, submitted })
}

/// What reading a text as an entity gives: `Malformed` where the text is
/// not JSON, `SchemaMismatch` where its document does not have the entity's
/// shape, else the entity.
pub open spec fn decoded<T>(document: Option<JsonModel>, read: spec_fn(JsonModel) -> Option<T>)
    -> Result<T, DecodeError> {
    match document {
        None => Err(DecodeError::Malformed),
        Some(d) => match read(d) {
            Some(entity) => Ok(entity),
            None => Err(DecodeError::SchemaMismatch),
        },
    }
}

/// Reads an item from JSON text. The text is read by `serde_json`; the
/// document it gives is read as [`item_from_json`] reads it.
pub fn decode_item(text: &str) -> (r: Result<HnItem, DecodeError>)
    ensures
        match decoded(json_parse(text@), |d: JsonModel| item_of_json(d)) {
            Ok(item) => r matches Ok(value) && value@ == item,
            Err(e) => r == Err::<HnItem, DecodeError>(e),
        },
        json_parse(text@) matches Some(d) && d.member("by"@) is None ==> (r matches Ok(value)
            ==> value.by@ == default_user_text()),
{
    match parse_json(text) {
        Ok(document) => item_from_json(&document),
        Err(e) => Err(e),
    }
}

/// Reads a list of ids from JSON text. The order of the ids is that of the
/// text.
pub fn decode_id_list(text: &str) -> (r: Result<HnListOfItems, DecodeError>)
    ensures
        match decoded(json_parse(text@), |d: JsonModel| as_ids(d)) {
            Ok(ids) => r matches Ok(list) && list@ == ids,
            Err(e) => r == Err::<HnListOfItems, DecodeError>(e),
        },
{
    match parse_json(text) {
        Ok(document) => id_list_from_json(&document),
        Err(e) => Err(e),
    }
}

/// Reads a user from JSON text.
pub fn decode_user(text: &str) -> (r: Result<HnUser, DecodeError>)
    ensures
        match decoded(json_parse(text@), |d: JsonModel| user_of_json(d)) {
            Ok(user) => r matches Ok(value) && value@ == user,
            Err(e) => r == Err::<HnUser, DecodeError>(e),
        },
{
    match parse_json(text) {
        Ok(document) => user_from_json(&document),
        Err(e) => Err(e),
    }
}

/// The model of an optional document.
pub open spec fn opt_model(value: Option<JsonValue>) -> Option<JsonModel> {
    match value {
        Some(v) => Some(v@),
        None => None,
    }
}

/// An integer as a document.
fn number(n: i64) -> (value: JsonValue)
    ensures
        value@ == int_json(n as int),
{
    JsonValue::Number(Some(n))
}

/// A text as a document.
fn text_value(s: &String) -> (value: JsonValue)
    ensures
        value@ == JsonModel::Text(s@),
{
    JsonValue::Text(s.clone())
}

/// A list of ids as a document.
fn ids_value(ids: &Vec<i32>) -> (value: JsonValue)
    ensures
        value@ == ids_json(ids@),
{
    let mut items: Vec<JsonValue> = Vec::new();
    let mut i: usize = 0;
    while i < ids.len()
        invariant
            i <= ids.len(),
            items@.len() == i,
            forall|j: int| 0 <= j < i ==> (#[trigger] items@[j])@ == int_json(ids@[j] as int),
        decreases ids.len() - i,
    {
        items.push(number(ids[i] as i64));
        i += 1;
    }
    let value = JsonValue::Array(items);
    proof {
        lemma_view_of_collections(value);
        assert(items_model(items@) =~= ids_json(ids@)->Array_0);
    }
    value
}

/// Appends a member, where there is a value for it.
fn push_member(members: &mut Vec<(String, JsonValue)>, key: &str, value: Option<JsonValue>)
    ensures
        members_model(final(members)@) == members_model(old(members)@) + entry(
            key@,
            opt_model(value),
        ),
{
    match value {
        Some(v) => {
            members.push((String::from_str(key), v));
        },
        None => {},
    }
    assert(members_model(members@) =~= members_model(old(members)@) + entry(
        key@,
        opt_model(value),
    ));
}

/// An optional 32-bit integer as an optional document.
fn opt_number(n: &Option<i32>) -> (value: Option<JsonValue>)
    ensures
        opt_model(value) == opt_int_json(*n),
{
    match n {
        Some(x) => Some(number(*x as i64)),
        None => None,
    }
}

/// An optional text as an optional document.
fn opt_text(s: &Option<String>) -> (value: Option<JsonValue>)
    ensures
        opt_model(value) == opt_text_json(text_view(*s)),
{
    match s {
        Some(x) => Some(text_value(x)),
        None => None,
    }
}

/// An optional truth value as an optional document.
fn opt_flag(b: &Option<bool>) -> (value: Option<JsonValue>)
    ensures
        opt_model(value) == opt_flag_json(*b),
{
    match b {
        Some(x) => Some(JsonValue::Bool(*x)),
        None => None,
    }
}

/// An optional list of ids as an optional document.
fn opt_ids(ids: &Option<Vec<i32>>) -> (value: Option<JsonValue>)
    ensures
        opt_model(value) == opt_ids_json(ids_view(*ids)),
{
    match ids {
        Some(x) => Some(ids_value(x)),
        None => None,
    }
}

/// Writes an item as a document: an object of the members that the item
/// has, in a fixed order. A member that the item lacks is left out.
pub fn item_to_json(item: &HnItem) -> (document: JsonValue)
    ensures
        document@ == json_of_item(item@),
{
    let mut members: Vec<(String, JsonValue)> = Vec::new();
    assert(members_model(members@) =~= Seq::empty());
    push_member(&mut members, "by", Some(text_value(&item.by)));
    assert(members_model(members@) =~= entry("by"@, Some(JsonModel::Text(item.by@))));
    push_member(&mut members, "parent", opt_number(&item.parent));
    push_member(&mut members, "descendants", opt_number(&item.descendants));
    push_member(&mut members, "id", Some(number(item.id as i64)));
    push_member(&mut members, "kids", opt_ids(&item.kids));
    push_member(&mut members, "title", opt_text(&item.title));
    push_member(&mut members, "score", opt_number(&item.score));
    push_member(&mut members, "text", opt_text(&item.text));
    push_member(&mut members, "time", Some(number(item.time)));
    push_member(&mut members, "type", Some(text_value(&item.type_str)));
    push_member(&mut members, "url", opt_text(&item.url));
    push_member(&mut members, "dead", opt_flag(&item.dead));
    let document = JsonValue::Object(members);
    proof {
        lemma_view_of_collections(document);
    }
    document
}

impl HnItem {
    /// The item as JSON text on one line: the text that `serde_json` writes
    /// for the document of [`item_to_json`].
    pub fn to_json(&self) -> (text: String)
        ensures
            text@ == json_text(json_of_item(self@)),
    {
        write_document(&item_to_json(self))
    }

    /// The item as indented JSON text.
    pub fn to_json_pretty(&self) -> (text: String)
        ensures
            text@ == json_text_pretty(json_of_item(self@)),
    {
        write_document_pretty(&item_to_json(self))
    }
}

/// Looking a key up in two member lists, one after the other, finds what the
/// first list has for it, else what the second has.
pub proof fn lemma_find_in_concat(
    first: Seq<(Seq<char>, JsonModel)>,
    second: Seq<(Seq<char>, JsonModel)>,
    key: Seq<char>,
)
    ensures
        find_member(first + second, key) == match find_member(first, key) {
            Some(v) => Some(v),
            None => find_member(second, key),
        },
    decreases first.len(),
{
    if first.len() == 0 {
        assert(first + second == second);
    } else {
        assert((first + second)[0] == first[0]);
        assert((first + second).drop_first() == first.drop_first() + second);
        if first[0].0 != key {
            lemma_find_in_concat(first.drop_first(), second, key);
        }
    }
}

/// Looking a key up in the member list of one optional member finds that
/// member's value, where the key is its name.
pub proof fn lemma_find_in_entry(name: Seq<char>, value: Option<JsonModel>, key: Seq<char>)
    ensures
        find_member(entry(name, value), key) == if name == key {
            value
        } else {
            None
        },
{
    match value {
        Some(v) => {
            reveal_with_fuel(find_member, 2);
            let one = entry(name, value);
            assert(one[0] == (name, v));
            assert(one.drop_first().len() == 0);
        },
        None => {},
    }
}

/// A list of ids, written as a document, reads back as itself.
pub proof fn lemma_ids_round_trip(ids: Seq<i32>)
    ensures
        as_ids(ids_json(ids)) == Some(ids),
{
    let items = ids_json(ids)->Array_0;
    assert forall|i: int| 0 <= i < items.len() implies (#[trigger] as_int32(items[i])) == Some(
        ids[i],
    ) by {}
    assert(as_ids(ids_json(ids))->0 =~= ids);
}

/// What an item is written with under a name: the value of the member of
/// that name, or nothing where the item lacks it or no member has that name.
pub open spec fn written_member(item: HnItemView, key: Seq<char>) -> Option<JsonModel> {
    if key == "by"@ {
        Some(JsonModel::Text(item.by))
    } else if key == "parent"@ {
        opt_int_json(item.parent)
    } else if key == "descendants"@ {
        opt_int_json(item.descendants)
    } else if key == "id"@ {
        Some(int_json(item.id as int))
    } else if key == "kids"@ {
        opt_ids_json(item.kids)
    } else if key == "title"@ {
        opt_text_json(item.title)
    } else if key == "score"@ {
        opt_int_json(item.score)
    } else if key == "text"@ {
        opt_text_json(item.text)
    } else if key == "time"@ {
        Some(int_json(item.time as int))
    } else if key == "type"@ {
        Some(JsonModel::Text(item.type_str))
    } else if key == "url"@ {
        opt_text_json(item.url)
    } else if key == "dead"@ {
        opt_flag_json(item.dead)
    } else {
        None
    }
}

/// The names of an item's members differ from one another.
proof fn lemma_member_names_differ()
    ensures
        "by"@.len() == 2,
        "id"@.len() == 2,
        "by"@[0] != "id"@[0],
        "url"@.len() == 3,
        "kids"@.len() == 4,
        "text"@.len() == 4,
        "time"@.len() == 4,
        "type"@.len() == 4,
        "dead"@.len() == 4,
        "kids"@[0] != "text"@[0],
        "kids"@[0] != "dead"@[0],
        "text"@[0] != "dead"@[0],
        "text"@[0] == "time"@[0] && "time"@[0] == "type"@[0],
        "text"@[1] != "time"@[1],
        "text"@[1] != "type"@[1],
        "time"@[1] != "type"@[1],
        "title"@.len() == 5,
        "score"@.len() == 5,
        "title"@[0] != "score"@[0],
        "parent"@.len() == 6,
        "descendants"@.len() == 11,
{
    reveal_strlit("by");
    reveal_strlit("parent");
    reveal_strlit("descendants");
    reveal_strlit("id");
    reveal_strlit("kids");
    reveal_strlit("title");
    reveal_strlit("score");
    reveal_strlit("text");
    reveal_strlit("time");
    reveal_strlit("type");
    reveal_strlit("url");
    reveal_strlit("dead");
}

/// Looking a name up in what an item is written as finds the member of that
/// name, where the item has it.
pub proof fn lemma_find_written_member(item: HnItemView, key: Seq<char>)
    ensures
        json_of_item(item).member(key) == written_member(item, key),
{
    lemma_member_names_differ();
    let member_1 = entry("by"@, Some(JsonModel::Text(item.by)));
    let member_2 = entry("parent"@, opt_int_json(item.parent));
    let member_3 = entry("descendants"@, opt_int_json(item.descendants));
    let member_4 = entry("id"@, Some(int_json(item.id as int)));
    let member_5 = entry("kids"@, opt_ids_json(item.kids));
    let member_6 = entry("title"@, opt_text_json(item.title));
    let member_7 = entry("score"@, opt_int_json(item.score));
    let member_8 = entry("text"@, opt_text_json(item.text));
    let member_9 = entry("time"@, Some(int_json(item.time as int)));
    let member_10 = entry("type"@, Some(JsonModel::Text(item.type_str)));
    let member_11 = entry("url"@, opt_text_json(item.url));
    let member_12 = entry("dead"@, opt_flag_json(item.dead));
    let upto_2 = member_1 + member_2;
    let upto_3 = upto_2 + member_3;
    let upto_4 = upto_3 + member_4;
    let upto_5 = upto_4 + member_5;
    let upto_6 = upto_5 + member_6;
    let upto_7 = upto_6 + member_7;
    let upto_8 = upto_7 + member_8;
    let upto_9 = upto_8 + member_9;
    let upto_10 = upto_9 + member_10;
    let upto_11 = upto_10 + member_11;
    let upto_12 = upto_11 + member_12;
    assert(item_members(item) == upto_12);
    lemma_find_in_entry("by"@, Some(JsonModel::Text(item.by)), key);
    lemma_find_in_entry("parent"@, opt_int_json(item.parent), key);
    lemma_find_in_entry("descendants"@, opt_int_json(item.descendants), key);
    lemma_find_in_entry("id"@, Some(int_json(item.id as int)), key);
    lemma_find_in_entry("kids"@, opt_ids_json(item.kids), key);
    lemma_find_in_entry("title"@, opt_text_json(item.title), key);
    lemma_find_in_entry("score"@, opt_int_json(item.score), key);
    lemma_find_in_entry("text"@, opt_text_json(item.text), key);
    lemma_find_in_entry("time"@, Some(int_json(item.time as int)), key);
    lemma_find_in_entry("type"@, Some(JsonModel::Text(item.type_str)), key);
    lemma_find_in_entry("url"@, opt_text_json(item.url), key);
    lemma_find_in_entry("dead"@, opt_flag_json(item.dead), key);
    lemma_find_in_concat(member_1, member_2, key);
    lemma_find_in_concat(upto_2, member_3, key);
    lemma_find_in_concat(upto_3, member_4, key);
    lemma_find_in_concat(upto_4, member_5, key);
    lemma_find_in_concat(upto_5, member_6, key);
    lemma_find_in_concat(upto_6, member_7, key);
    lemma_find_in_concat(upto_7, member_8, key);
    lemma_find_in_concat(upto_8, member_9, key);
    lemma_find_in_concat(upto_9, member_10, key);
    lemma_find_in_concat(upto_10, member_11, key);
    lemma_find_in_concat(upto_11, member_12, key);
}

/// An item, written as a document and read back, is the item again: every
/// member it has is restored, and every member it lacks is lacking again.
pub proof fn lemma_item_round_trip(item: HnItemView)
    ensures
        item_of_json(json_of_item(item)) == Some(item),
{
    let document = json_of_item(item);
    lemma_member_names_differ();
    lemma_find_written_member(item, "by"@);
    lemma_find_written_member(item, "parent"@);
    lemma_find_written_member(item, "descendants"@);
    lemma_find_written_member(item, "id"@);
    lemma_find_written_member(item, "kids"@);
    lemma_find_written_member(item, "title"@);
    lemma_find_written_member(item, "score"@);
    lemma_find_written_member(item, "text"@);
    lemma_find_written_member(item, "time"@);
    lemma_find_written_member(item, "type"@);
    lemma_find_written_member(item, "url"@);
    lemma_find_written_member(item, "dead"@);
    if item.kids is Some {
        lemma_ids_round_trip(item.kids->0);
    }
    let decoded = item_of_json(document);
    assert(decoded is Some);
    assert(decoded->0.kids == item.kids);
    assert(decoded->0 == item);
}

/// Where a document that has the shape of an item has no member `by`, the
/// item read from it has the fixed fallback as its author.
pub proof fn lemma_missing_author_is_default(document: JsonModel)
    requires
        document.member("by"@) is None,
        item_of_json(document) is Some,
    ensures
        item_of_json(document)->0.by == default_user_text(),
{
}

} // verus!
