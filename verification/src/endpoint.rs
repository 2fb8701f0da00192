//! Where the content API is found: the addresses of its rankings, items and
//! users.

use vstd::prelude::*;
use crate::cache::StoryCategory;
use crate::text::{decimal, decimal_string};

verus! {

/// The root of the public API.
pub open spec fn default_base() -> Seq<char> {
    "https://hacker-news.firebaseio.com/v0/"@
}

/// The file that holds the id list of a ranking.
pub open spec fn list_file(category: StoryCategory) -> Seq<char> {
    match category {
        StoryCategory::Top => "topstories.json"@,
        StoryCategory::Best => "beststories.json"@,
        StoryCategory::New => "newstories.json"@,
    }
}

/// The API under one root address.
#[derive(Debug, Clone)]
pub struct HnNewsEndpoint {
    pub base_url: String,
}

impl HnNewsEndpoint {
    /// The public API.
    pub fn build_default() -> (endpoint: HnNewsEndpoint)
        ensures
            endpoint.base_url@ == default_base(),
    {
        HnNewsEndpoint { base_url: String::from_str("https://hacker-news.firebaseio.com/v0/") }
    }

    /// The address of the id list of a ranking.
    pub fn story_list_url(&self, category: StoryCategory) -> (url: String)
        ensures
            url@ == self.base_url@ + list_file(category),
    {
        let mut url = self.base_url.clone();
        match category {
            StoryCategory::Top => {
                url.append("topstories.json");
            },
            StoryCategory::Best => {
                url.append("beststories.json");
            },
            StoryCategory::New => {
                url.append("newstories.json");
            },
        }
        url
    }

    /// The address of an item.
    pub fn item_url(&self, id: i32) -> (url: String)
        ensures
            url@ == self.base_url@ + "item/"@ + decimal(id as int) + ".json"@,
    {
        let mut url = self.base_url.clone();
        url.append("item/");
        url.append(decimal_string(id as i128).as_str());
        url.append(".json");
        url
    }

    /// The address of a user.
    pub fn user_url(&self, id: &str) -> (url: String)
        ensures
            url@ == self.base_url@ + "user/"@ + id@ + ".json"@,
    {
        let mut url = self.base_url.clone();
        url.append("user/");
        url.append(id);
        url.append(".json");
        url
    }
}

} // verus!
