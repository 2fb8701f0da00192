use rs_ycomb_hn_cli::cache::StoryCategory;
use rs_ycomb_hn_cli::connector::{begin_connect, ConnectAction};
use rs_ycomb_hn_cli::endpoint::HnNewsEndpoint;
use rs_ycomb_hn_cli::path_utils::parse_url_from_str;

#[test]
fn the_default_endpoint_is_the_public_api() {
    let endpoint = HnNewsEndpoint::build_default();
    assert_eq!(endpoint.base_url, "https://hacker-news.firebaseio.com/v0/");
}

#[test]
fn the_addresses_of_the_rankings() {
    let endpoint = HnNewsEndpoint::build_default();
    assert_eq!(
        endpoint.story_list_url(StoryCategory::Top),
        "https://hacker-news.firebaseio.com/v0/topstories.json"
    );
    assert_eq!(
        endpoint.story_list_url(StoryCategory::Best),
        "https://hacker-news.firebaseio.com/v0/beststories.json"
    );
    assert_eq!(
        endpoint.story_list_url(StoryCategory::New),
        "https://hacker-news.firebaseio.com/v0/newstories.json"
    );
}

#[test]
fn the_addresses_of_items_and_users() {
    let endpoint = HnNewsEndpoint::build_default();
    assert_eq!(endpoint.item_url(8863), "https://hacker-news.firebaseio.com/v0/item/8863.json");
    assert_eq!(endpoint.item_url(0), "https://hacker-news.firebaseio.com/v0/item/0.json");
    assert_eq!(endpoint.item_url(-5), "https://hacker-news.firebaseio.com/v0/item/-5.json");
    assert_eq!(
        endpoint.item_url(i32::MAX),
        "https://hacker-news.firebaseio.com/v0/item/2147483647.json"
    );
    assert_eq!(endpoint.user_url("jl"), "https://hacker-news.firebaseio.com/v0/user/jl.json");
    let other = HnNewsEndpoint { base_url: String::from("https://example.com/api/") };
    assert_eq!(other.item_url(1), "https://example.com/api/item/1.json");
}

#[test]
fn the_addresses_can_be_connected_to() {
    let endpoint = HnNewsEndpoint::build_default();
    let target = parse_url_from_str(&endpoint.item_url(8863));
    assert_eq!(target.host(), Some("hacker-news.firebaseio.com"));
    assert_eq!(target.path(), "/v0/item/8863.json");
    assert_eq!(
        begin_connect(&target).1,
        ConnectAction::OpenConnection { authority: String::from("hacker-news.firebaseio.com") }
    );
}
