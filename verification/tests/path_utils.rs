use hyper::Uri;
use rs_ycomb_hn_cli::models::HnItem;
use rs_ycomb_hn_cli::path_utils::{
    combine_strings, generate_filename_for_hnitem, get_host_from_link, host_in_authority,
    parse_url_from_str, try_generate_filename, try_parse_url,
};

fn item(title: Option<&str>, url: Option<&str>) -> HnItem {
    HnItem {
        by: String::from("dhouston"),
        parent: None,
        descendants: None,
        id: 8863,
        kids: None,
        title: title.map(String::from),
        score: None,
        text: None,
        time: 1175714200,
        type_str: String::from("story"),
        url: url.map(String::from),
        dead: None,
    }
}

#[test]
fn parse_url_from_str_test() {
    let url = parse_url_from_str("http://www.google.fi");
    assert_eq!("http", url.scheme().unwrap());
    assert_eq!("www.google.fi", url.authority().unwrap());
}

#[test]
fn the_parts_of_a_link() {
    let url = parse_url_from_str("https://user@news.ycombinator.com:443/item?id=8863#top");
    assert_eq!(url.scheme(), Some("https"));
    assert_eq!(url.authority(), Some("user@news.ycombinator.com:443"));
    assert_eq!(url.host(), Some("news.ycombinator.com"));
    assert_eq!(url.path(), "/item");
    let url = parse_url_from_str("http://www.google.fi");
    assert_eq!(url.path(), "/");
    let url = parse_url_from_str("/v0/topstories.json");
    assert_eq!(url.scheme(), None);
    assert_eq!(url.authority(), None);
    assert_eq!(url.host(), None);
    assert_eq!(url.path(), "/v0/topstories.json");
}

#[test]
fn the_parts_are_those_that_hyper_finds() {
    for text in [
        "http://www.google.fi",
        "https://a.b.c:8080/x/y/z.html?q=1",
        "https://example.com?q",
        "/only/a/path?x#y",
        "example.com:80",
        "*",
        "ftp://user:pw@[2001:db8::1]:21/file",
    ] {
        let uri: Uri = text.parse().unwrap();
        let parts = try_parse_url(text).unwrap();
        assert_eq!(parts.scheme(), uri.scheme());
        assert_eq!(parts.authority(), uri.authority());
        assert_eq!(parts.path(), uri.path());
        assert_eq!(parts.host(), uri.host());
    }
}

#[test]
fn what_is_no_link() {
    assert!(try_parse_url("").is_none());
    assert!(try_parse_url("http://").is_none());
    assert!(try_parse_url("a/b").is_none());
    assert!(try_parse_url("caf\u{e9}.example/menu").is_none());
    assert_eq!(get_host_from_link(""), None);
    assert_eq!(get_host_from_link("not a link/"), None);
}

#[test]
fn the_host_of_an_authority() {
    assert_eq!(host_in_authority("example.com"), Some("example.com"));
    assert_eq!(host_in_authority("example.com:8080"), Some("example.com"));
    assert_eq!(host_in_authority("user@example.com"), Some("example.com"));
    assert_eq!(host_in_authority("user:pw@example.com:1"), Some("example.com"));
    assert_eq!(host_in_authority("a@b@example.com"), Some("example.com"));
    assert_eq!(host_in_authority("[::1]"), Some("::1"));
    assert_eq!(host_in_authority("[::1]:8080"), Some("::1"));
    assert_eq!(host_in_authority("u@[2001:db8::1]:21"), Some("2001:db8::1"));
    assert_eq!(host_in_authority("[]"), Some(""));
    assert_eq!(host_in_authority(":80"), Some(""));
    assert_eq!(host_in_authority(""), None);
    assert_eq!(host_in_authority("user@"), None);
    assert_eq!(host_in_authority("[::1"), None);
    assert_eq!(host_in_authority("]@["), None);
}

#[test]
fn the_host_is_the_one_that_hyper_names() {
    for text in [
        "http://www.getdropbox.com/u/2/screencast.html",
        "https://user:pw@example.com:8443/",
        "https://[::1]:443/x",
        "http://:80/",
        "example.com:80",
        "u@h",
    ] {
        let uri: Uri = text.parse().unwrap();
        assert_eq!(get_host_from_link(text).as_deref(), uri.host());
    }
}

#[test]
fn the_host_of_a_link() {
    assert_eq!(
        get_host_from_link("http://www.getdropbox.com/u/2/screencast.html"),
        Some(String::from("www.getdropbox.com"))
    );
    assert_eq!(get_host_from_link("/relative/path"), None);
    assert_eq!(get_host_from_link("https://user@/x"), None);
}

#[test]
fn strings_are_combined_in_order() {
    assert_eq!(combine_strings(vec![]), "");
    assert_eq!(combine_strings(vec!["a"]), "a");
    assert_eq!(combine_strings(vec!["a", "", "bc", ".html"]), "abc.html");
    assert_eq!(combine_strings(vec!["\u{e9}", "\u{1f600}"]), "\u{e9}\u{1f600}");
}

#[test]
fn a_titled_item_is_filed_under_title_and_author() {
    let story = item(Some("My YC app"), Some("http://www.getdropbox.com/u/2/screencast.html"));
    assert_eq!(generate_filename_for_hnitem(&story), "My YC appdhouston.html");
    assert_eq!(try_generate_filename(&story), Some(String::from("My YC appdhouston.html")));
    let no_link = item(Some("Ask HN"), None);
    assert_eq!(generate_filename_for_hnitem(&no_link), "Ask HNdhouston.html");
}

#[test]
fn an_untitled_item_is_filed_under_the_path_of_its_link() {
    let linked = item(None, Some("http://www.getdropbox.com/u/2/screencast.html?x=1"));
    assert_eq!(generate_filename_for_hnitem(&linked), "_u_2_screencast.html.html");
    assert_eq!(try_generate_filename(&linked), Some(String::from("_u_2_screencast.html.html")));
    let root = item(None, Some("https://example.com"));
    assert_eq!(generate_filename_for_hnitem(&root), "_.html");
}

#[test]
fn an_item_without_title_or_link_has_no_file_name() {
    assert_eq!(try_generate_filename(&item(None, None)), None);
    assert_eq!(try_generate_filename(&item(None, Some(""))), None);
    assert_eq!(try_generate_filename(&item(None, Some("a/b"))), None);
}

#[test]
fn a_link_may_hold_characters_outside_ascii() {
    for text in [
        "https://caf\u{e9}.example/",
        "https://example.com/caf\u{e9}/men\u{fc}?q=\u{1f600}",
        "http://\u{4f8b}\u{3048}.jp/\u{30d1}\u{30b9}",
        "/only/\u{e9}",
        "\u{e9}xample.com:80",
        "\u{e9}\u{e9}://ab",
    ] {
        let uri: Uri = text.parse().unwrap();
        let parts = try_parse_url(text).unwrap();
        assert_eq!(parts.scheme(), uri.scheme());
        assert_eq!(parts.authority(), uri.authority());
        assert_eq!(parts.path(), uri.path());
        assert_eq!(parts.host(), uri.host());
    }
    let url = parse_url_from_str("https://example.com/caf\u{e9}/men\u{fc}");
    assert_eq!(url.host(), Some("example.com"));
    assert_eq!(url.path(), "/caf\u{e9}/men\u{fc}");
    let linked = item(None, Some("https://example.com/caf\u{e9}/men\u{fc}"));
    assert_eq!(generate_filename_for_hnitem(&linked), "_caf\u{e9}_men\u{fc}.html");
    assert_eq!(
        try_generate_filename(&linked),
        Some(String::from("_caf\u{e9}_men\u{fc}.html"))
    );
    assert_eq!(
        get_host_from_link("https://b\u{fc}cher.example/x"),
        Some(String::from("b\u{fc}cher.example"))
    );
}

#[test]
fn a_text_that_cannot_be_cut_after_its_first_colon_is_no_link() {
    for text in [
        "a:b\u{e9}://c",
        "a:\u{e9}//c",
        "x:\u{1f600}",
        "http:/\u{e9}",
        "\u{e9}:\u{e9}://h/",
    ] {
        assert!(try_parse_url(text).is_none());
        assert_eq!(get_host_from_link(text), None);
        assert_eq!(try_generate_filename(&item(None, Some(text))), None);
    }
    // one colon and less than two characters after it: for hyper to judge
    assert!(try_parse_url("h:8").is_some());
    assert!(try_parse_url("h:").is_some());
    assert!(try_parse_url("\u{e9}:1").is_some());
}

fn texts_over(alphabet: &[char], length: usize) -> Vec<String> {
    let mut texts = vec![String::new()];
    for _ in 0..length {
        let mut longer = Vec::new();
        for text in &texts {
            for c in alphabet {
                let mut next = text.clone();
                next.push(*c);
                longer.push(next);
            }
        }
        texts = longer;
    }
    texts
}

#[test]
fn every_short_text_is_taken_apart_as_hyper_does_it() {
    let alphabet = ['a', ':', '/', '@', '\u{e9}', '\u{1f600}', '?', '#', '['];
    let mut links = 0;
    for length in 0..6 {
        for text in texts_over(&alphabet, length) {
            if let Some(parts) = try_parse_url(&text) {
                let uri: Uri = text.parse().unwrap();
                assert_eq!(parts.scheme(), uri.scheme());
                assert_eq!(parts.authority(), uri.authority());
                assert_eq!(parts.path(), uri.path());
                let _ = parts.host();
                links += 1;
            }
        }
    }
    assert!(links > 1000);
}
