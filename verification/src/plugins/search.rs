use vstd::prelude::*;
use vstd::string::*;
use crate::builder::feed::{or_empty, post_address, post_url, text_or_empty, text_result_view};
use crate::builder::post::readable_date;
use crate::parser::{field, posts_view, Post, PostView};
use crate::plugin::{with_output, Plugin, PluginError, PluginErrorView, Site, SiteView};
use crate::text::{join, joined, replace, replaced, texts};

verus! {

pub const HOST_PLACEHOLDER: &'static str = "{host}";

pub const WEBSITE_NAME_PLACEHOLDER: &'static str = "{website_name}";

pub const WEBSITE_DESCRIPTION_PLACEHOLDER: &'static str = "{website_description}";

pub const WEBSITE_LOGO_URL_PLACEHOLDER: &'static str = "{website_logo_url}";

pub const AUTHOR_NAME_PLACEHOLDER: &'static str = "{author_name}";

pub const TWITTER_HANDLE_PLACEHOLDER: &'static str = "{twitter_handle}";

pub const RESOURCES_PLACEHOLDER: &'static str = "{resources}";

pub const ENTRY_TITLE: &'static str = "{\"title\":\"";

pub const ENTRY_URL: &'static str = "\",\"url\":\"";

pub const ENTRY_DATE: &'static str = "\",\"dateTimestamp\":\"";

pub const ENTRY_READABLE_DATE: &'static str = "\",\"dateHumanReadable\":\"";

pub const ENTRY_EXCERPT: &'static str = "\",\"excerpt\":\"";

pub const ENTRY_CLOSE: &'static str = "\"}";

/// Writes the search page of the site, `search/index.html`, with the posts
/// as a JSON list for the page's script.
pub struct SearchPlugin {
    pub template: String,
}

/// A text with a backslash before each of its double quotes.
pub open spec fn escaped(text: Seq<char>) -> Seq<char> {
    replaced(text, "\""@, "\\\""@)
}

/// The JSON object of one post.
pub open spec fn search_entry(host: Seq<char>, post: PostView) -> Seq<char> {
    ENTRY_TITLE@ + escaped(post.frontmatter.title) + ENTRY_URL@ + post_address(
        host,
        post.permalink,
    ) + ENTRY_DATE@ + post.frontmatter.date + ENTRY_READABLE_DATE@ + readable_date(
        post.frontmatter.date,
    ) + ENTRY_EXCERPT@ + escaped(or_empty(post.frontmatter.description)) + ENTRY_CLOSE@
}

/// The JSON list of the posts: their objects in order, commas between
/// them, in square brackets.
pub open spec fn search_json(host: Seq<char>, posts: Seq<PostView>) -> Seq<char> {
    "["@ + joined(posts.map_values(|post: PostView| search_entry(host, post)), ","@) + "]"@
}

/// The page: the template with the site's values and the list filled in.
pub open spec fn search_html(
    template: Seq<char>,
    host: Seq<char>,
    website_name: Seq<char>,
    website_description: Seq<char>,
    website_logo_url: Seq<char>,
    author_name: Seq<char>,
    twitter_handle: Seq<char>,
    resources: Seq<char>,
) -> Seq<char> {
    let hosted = replaced(template, HOST_PLACEHOLDER@, host);
    let named = replaced(hosted, WEBSITE_NAME_PLACEHOLDER@, website_name);
    let described = replaced(named, WEBSITE_DESCRIPTION_PLACEHOLDER@, website_description);
    let pictured = replaced(described, WEBSITE_LOGO_URL_PLACEHOLDER@, website_logo_url);
    let signed = replaced(pictured, AUTHOR_NAME_PLACEHOLDER@, author_name);
    let handled = replaced(signed, TWITTER_HANDLE_PLACEHOLDER@, twitter_handle);
    replaced(handled, RESOURCES_PLACEHOLDER@, resources)
}

/// The page for a site: the first setting that is missing, in the order
/// `HOST`, `WEBSITE_NAME`, `WEBSITE_DESCRIPTION`, `WEBSITE_LOGO_URL`,
/// `AUTHOR_NAME`, `TWITTER_HANDLE`, or the text.
pub open spec fn search_outcome(template: Seq<char>, site: SiteView) -> Result<
    Seq<char>,
    PluginErrorView,
> {
    if field(site.metadata, "HOST"@) is None {
        Err(PluginErrorView::MissingSetting("HOST"@))
    } else if field(site.metadata, "WEBSITE_NAME"@) is None {
        Err(PluginErrorView::MissingSetting("WEBSITE_NAME"@))
    } else if field(site.metadata, "WEBSITE_DESCRIPTION"@) is None {
        Err(PluginErrorView::MissingSetting("WEBSITE_DESCRIPTION"@))
    } else if field(site.metadata, "WEBSITE_LOGO_URL"@) is None {
        Err(PluginErrorView::MissingSetting("WEBSITE_LOGO_URL"@))
    } else if field(site.metadata, "AUTHOR_NAME"@) is None {
        Err(PluginErrorView::MissingSetting("AUTHOR_NAME"@))
    } else if field(site.metadata, "TWITTER_HANDLE"@) is None {
        Err(PluginErrorView::MissingSetting("TWITTER_HANDLE"@))
    } else {
        Ok(
            search_html(
                template,
                site.metadata["HOST"@],
                site.metadata["WEBSITE_NAME"@],
                site.metadata["WEBSITE_DESCRIPTION"@],
                site.metadata["WEBSITE_LOGO_URL"@],
                site.metadata["AUTHOR_NAME"@],
                site.metadata["TWITTER_HANDLE"@],
                search_json(site.metadata["HOST"@], site.posts),
            ),
        )
    }
}

impl SearchPlugin {
    pub fn new(template: String) -> (plugin: SearchPlugin)
        ensures
            plugin.template == template,
    {
        SearchPlugin { template }
    }

    pub fn format_date(date: &str) -> (readable: String)
        ensures
            readable@ == readable_date(date@),
    {
        replace(date, "-", "/")
    }

    /// Writes the JSON object of one post.
    pub fn entry(post: &Post, host: &str) -> (json: String)
        ensures
            json@ == search_entry(host@, post@),
    {
        let url = post_url(host, post.permalink.as_str());
        let date_timestamp = post.frontmatter.date.as_str();
        let date_human_readable = SearchPlugin::format_date(date_timestamp);
        let excerpt = replace(text_or_empty(&post.frontmatter.description), "\"", "\\\"");
        let title = replace(post.frontmatter.title.as_str(), "\"", "\\\"");
        let mut json = ENTRY_TITLE.to_owned();
        json.append(title.as_str());
        json.append(ENTRY_URL);
        json.append(url.as_str());
        json.append(ENTRY_DATE);
        json.append(date_timestamp);
        json.append(ENTRY_READABLE_DATE);
        json.append(date_human_readable.as_str());
        json.append(ENTRY_EXCERPT);
        json.append(excerpt.as_str());
        json.append(ENTRY_CLOSE);
        assert(json@ =~= search_entry(host@, post@));
        json
    }

    pub fn generate_search_json(site: &Site, host: &str) -> (json: String)
        ensures
            json@ == search_json(host@, site@.posts),
    {
        let ghost views = posts_view(site.posts@);
        let ghost entries = views.map_values(|post: PostView| search_entry(host@, post));
        let mut items: Vec<String> = Vec::new();
        let mut i: usize = 0;
        while i < site.posts.len()
            invariant
                i <= site.posts@.len(),
                views == posts_view(site.posts@),
                entries == views.map_values(|post: PostView| search_entry(host@, post)),
                texts(items@) == entries.take(i as int),
            decreases site.posts@.len() - i,
        {
            let ghost before = items@;
            let item = SearchPlugin::entry(&site.posts[i], host);
            items.push(item);
            assert(texts(items@) =~= entries.take(i + 1)) by {
                assert(texts(items@) =~= texts(before).push(item@));
                assert(entries.take(i + 1) =~= entries.take(i as int).push(entries[i as int]));
            }
            i = i + 1;
        }
        assert(entries.take(site.posts@.len() as int) =~= entries);
        let list = join(&items, ",");
        let mut json = "[".to_owned();
        json.append(list.as_str());
        json.append("]");
        json
    }

    /// Writes the search page of a site.
    pub fn render(&self, site: &Site) -> (result: Result<String, PluginError>)
        ensures
            text_result_view(result) == search_outcome(self.template@, site@),
    {
        let host = match site.setting("HOST") {
            Ok(v) => v,
            Err(e) => {
                return Err(e);
            },
        };
        let website_name = match site.setting("WEBSITE_NAME") {
            Ok(v) => v,
            Err(e) => {
                return Err(e);
            },
        };
        let website_description = match site.setting("WEBSITE_DESCRIPTION") {
            Ok(v) => v,
            Err(e) => {
                return Err(e);
            },
        };
        let website_logo_url = match site.setting("WEBSITE_LOGO_URL") {
            Ok(v) => v,
            Err(e) => {
                return Err(e);
            },
        };
        let author_name = match site.setting("AUTHOR_NAME") {
            Ok(v) => v,
            Err(e) => {
                return Err(e);
            },
        };
        let twitter_handle = match site.setting("TWITTER_HANDLE") {
            Ok(v) => v,
            Err(e) => {
                return Err(e);
            },
        };
        let resources_json = SearchPlugin::generate_search_json(site, host.as_str());
        let hosted = replace(self.template.as_str(), HOST_PLACEHOLDER, host.as_str());
        let named = replace(hosted.as_str(), WEBSITE_NAME_PLACEHOLDER, website_name.as_str());
        let described = replace(
            named.as_str(),
            WEBSITE_DESCRIPTION_PLACEHOLDER,
            website_description.as_str(),
        );
        let pictured = replace(
            described.as_str(),
            WEBSITE_LOGO_URL_PLACEHOLDER,
            website_logo_url.as_str(),
        );
        let signed = replace(pictured.as_str(), AUTHOR_NAME_PLACEHOLDER, author_name.as_str());
        let handled = replace(signed.as_str(), TWITTER_HANDLE_PLACEHOLDER, twitter_handle.as_str());
        Ok(replace(handled.as_str(), RESOURCES_PLACEHOLDER, resources_json.as_str()))
    }
}

impl Plugin for SearchPlugin {
    /// With its settings the site gains `search/index.html`; without one of
    /// them the stage fails for that setting and the site stays as it is.
    open spec fn effect(
        &self,
        before: SiteView,
        after: SiteView,
        failure: Option<PluginErrorView>,
    ) -> bool {
        match search_outcome(self.template@, before) {
            Ok(html) => failure is None && after == with_output(
                before,
                "search/index.html"@,
                html,
            ),
            Err(e) => failure == Some(e) && after == before,
        }
    }

    open spec fn named(&self, name: Seq<char>) -> bool {
        name == "search"@
    }

    fn name(&self) -> (name: &str) {
        "search"
    }

    fn run(&self, site: &mut Site) -> (result: Result<(), PluginError>) {
        match self.render(site) {
            Ok(html) => {
                site.emit("search/index.html".to_owned(), html);
                Ok(())
            },
            Err(e) => Err(e),
        }
    }
}

} // verus!
