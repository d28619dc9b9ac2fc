use vstd::prelude::*;
use vstd::string::*;
use crate::builder::feed::{or_empty, post_address, post_url, text_or_empty, text_result_view};
use crate::builder::post::{format_date, readable_date};
use crate::parser::{field, posts_view, Post, PostView};
use crate::plugin::{with_output, Plugin, PluginError, PluginErrorView, Site, SiteView};
use crate::text::{replace, replaced};

verus! {

pub const POST_ITEMS_PLACEHOLDER: &'static str = "{post_items}";

pub const HOST_PLACEHOLDER: &'static str = "{host}";

pub const WEBSITE_NAME: &'static str = "{website_name}";

pub const WEBSITE_LOGO_URL: &'static str = "{website_logo_url}";

pub const WEBSITE_DESCRIPTION: &'static str = "{website_description}";

pub const AUTHOR_NAME: &'static str = "{author_name}";

pub const POST_ITEM_LINK_PLACEHOLDER: &'static str = "{post_link}";

pub const POST_ITEM_DATE_TIMESTAMP_PLACEHOLDER: &'static str = "{post_date_timestamp}";

pub const POST_ITEM_DATE_READABLE_PLACEHOLDER: &'static str = "{post_date_human_readable}";

pub const POST_ITEM_TITLE_PLACEHOLDER: &'static str = "{post_title}";

pub const POST_ITEM_EXCERPT_PLACEHOLDER: &'static str = "{post_excerpt}";

/// Writes the home page of the site, `index.html`, with a line for every post.
pub struct HomepagePlugin {
    pub template: String,
    pub item_template: String,
}

/// The line of one post: the item template with the post's address, its
/// date as written and with slashes, its title and its description filled in.
pub open spec fn post_item(item_template: Seq<char>, host: Seq<char>, post: PostView) -> Seq<char> {
    replaced(
        replaced(
            replaced(
                replaced(
                    replaced(
                        item_template,
                        POST_ITEM_LINK_PLACEHOLDER@,
                        post_address(host, post.permalink),
                    ),
                    POST_ITEM_DATE_TIMESTAMP_PLACEHOLDER@,
                    post.frontmatter.date,
                ),
                POST_ITEM_DATE_READABLE_PLACEHOLDER@,
                readable_date(post.frontmatter.date),
            ),
            POST_ITEM_TITLE_PLACEHOLDER@,
            post.frontmatter.title,
        ),
        POST_ITEM_EXCERPT_PLACEHOLDER@,
        or_empty(post.frontmatter.description),
    )
}

/// The lines of the posts, one after the other.
pub open spec fn post_items(item_template: Seq<char>, host: Seq<char>, posts: Seq<PostView>) -> Seq<
    char,
>
    decreases posts.len(),
{
    if posts.len() == 0 {
        Seq::empty()
    } else {
        post_items(item_template, host, posts.drop_last()) + post_item(
            item_template,
            host,
            posts.last(),
        )
    }
}

/// The page: the template with the lines of the posts and the site's values filled in.
pub open spec fn homepage_html(
    template: Seq<char>,
    items: Seq<char>,
    host: Seq<char>,
    website_name: Seq<char>,
    website_logo_url: Seq<char>,
    website_description: Seq<char>,
    author_name: Seq<char>,
) -> Seq<char> {
    let listed = replaced(template, POST_ITEMS_PLACEHOLDER@, items);
    let hosted = replaced(listed, HOST_PLACEHOLDER@, host);
    let named = replaced(hosted, WEBSITE_NAME@, website_name);
    let pictured = replaced(named, WEBSITE_LOGO_URL@, website_logo_url);
    let described = replaced(pictured, WEBSITE_DESCRIPTION@, website_description);
    replaced(described, AUTHOR_NAME@, author_name)
}

/// The page for a site: the first setting that is missing, in the order
/// `WEBSITE_NAME`, `AUTHOR_NAME`, `HOST`, `WEBSITE_LOGO_URL`,
/// `WEBSITE_DESCRIPTION`, or the text.
pub open spec fn homepage_outcome(
    template: Seq<char>,
    item_template: Seq<char>,
    site: SiteView,
) -> Result<Seq<char>, PluginErrorView> {
    if field(site.metadata, "WEBSITE_NAME"@) is None {
        Err(PluginErrorView::MissingSetting("WEBSITE_NAME"@))
    } else if field(site.metadata, "AUTHOR_NAME"@) is None {
        Err(PluginErrorView::MissingSetting("AUTHOR_NAME"@))
    } else if field(site.metadata, "HOST"@) is None {
        Err(PluginErrorView::MissingSetting("HOST"@))
    } else if field(site.metadata, "WEBSITE_LOGO_URL"@) is None {
        Err(PluginErrorView::MissingSetting("WEBSITE_LOGO_URL"@))
    } else if field(site.metadata, "WEBSITE_DESCRIPTION"@) is None {
        Err(PluginErrorView::MissingSetting("WEBSITE_DESCRIPTION"@))
    } else {
        Ok(
            homepage_html(
                template,
                post_items(item_template, site.metadata["HOST"@], site.posts),
                site.metadata["HOST"@],
                site.metadata["WEBSITE_NAME"@],
                site.metadata["WEBSITE_LOGO_URL"@],
                site.metadata["WEBSITE_DESCRIPTION"@],
                site.metadata["AUTHOR_NAME"@],
            ),
        )
    }
}

impl HomepagePlugin {
    pub fn new(template: String, item_template: String) -> (plugin: HomepagePlugin)
        ensures
            plugin.template == template,
            plugin.item_template == item_template,
    {
        HomepagePlugin { template, item_template }
    }

    /// Writes the lines of the posts.
    pub fn render_items(item_template: &str, host: &str, posts: &Vec<Post>) -> (items: String)
        ensures
            items@ == post_items(item_template@, host@, posts_view(posts@)),
    {
        let ghost views = posts_view(posts@);
        let mut items = String::new();
        let mut i: usize = 0;
        while i < posts.len()
            invariant
                i <= posts@.len(),
                views == posts_view(posts@),
                items@ == post_items(item_template@, host@, views.take(i as int)),
            decreases posts@.len() - i,
        {
            proof {
                assert(views.take(i + 1).drop_last() =~= views.take(i as int));
                assert(views.take(i + 1).last() == posts@[i as int]@);
            }
            let post = &posts[i];
            let date_human_readable = format_date(post.frontmatter.date.as_str());
            let url = post_url(host, post.permalink.as_str());
            let linked = replace(item_template, POST_ITEM_LINK_PLACEHOLDER, url.as_str());
            let stamped = replace(
                linked.as_str(),
                POST_ITEM_DATE_TIMESTAMP_PLACEHOLDER,
                post.frontmatter.date.as_str(),
            );
            let dated = replace(
                stamped.as_str(),
                POST_ITEM_DATE_READABLE_PLACEHOLDER,
                date_human_readable.as_str(),
            );
            let titled = replace(
                dated.as_str(),
                POST_ITEM_TITLE_PLACEHOLDER,
                post.frontmatter.title.as_str(),
            );
            let item = replace(
                titled.as_str(),
                POST_ITEM_EXCERPT_PLACEHOLDER,
                text_or_empty(&post.frontmatter.description),
            );
            items.append(item.as_str());
            i = i + 1;
        }
        assert(views.take(posts@.len() as int) =~= views);
        items
    }

    /// Writes the home page of a site.
    pub fn render(&self, site: &Site) -> (result: Result<String, PluginError>)
        ensures
            text_result_view(result) == homepage_outcome(
                self.template@,
                self.item_template@,
                site@,
            ),
    {
        let website_name = match site.setting("WEBSITE_NAME") {
            Ok(v) => v,
            Err(e) => {
                return Err(e);
            },
        };
        let author_name = match site.setting("AUTHOR_NAME") {
            Ok(v) => v,
            Err(e) => {
                return Err(e);
            },
        };
        let host = match site.setting("HOST") {
            Ok(v) => v,
            Err(e) => {
                return Err(e);
            },
        };
        let website_logo_url = match site.setting("WEBSITE_LOGO_URL") {
            Ok(v) => v,
            Err(e) => {
                return Err(e);
            },
        };
        let website_description = match site.setting("WEBSITE_DESCRIPTION") {
            Ok(v) => v,
            Err(e) => {
                return Err(e);
            },
        };
        let items = HomepagePlugin::render_items(
            self.item_template.as_str(),
            host.as_str(),
            &site.posts,
        );
        let listed = replace(self.template.as_str(), POST_ITEMS_PLACEHOLDER, items.as_str());
        let hosted = replace(listed.as_str(), HOST_PLACEHOLDER, host.as_str());
        let named = replace(hosted.as_str(), WEBSITE_NAME, website_name.as_str());
        let pictured = replace(named.as_str(), WEBSITE_LOGO_URL, website_logo_url.as_str());
        let described = replace(
            pictured.as_str(),
            WEBSITE_DESCRIPTION,
            website_description.as_str(),
        );
        Ok(replace(described.as_str(), AUTHOR_NAME, author_name.as_str()))
    }
}

impl Plugin for HomepagePlugin {
    /// With its settings the site gains `index.html`; without one of them
    /// the stage fails for that setting and the site stays as it is.
    open spec fn effect(
        &self,
        before: SiteView,
        after: SiteView,
        failure: Option<PluginErrorView>,
    ) -> bool {
        match homepage_outcome(self.template@, self.item_template@, before) {
            Ok(html) => failure is None && after == with_output(before, "index.html"@, html),
            Err(e) => failure == Some(e) && after == before,
        }
    }

    open spec fn named(&self, name: Seq<char>) -> bool {
        name == "homepage"@
    }

    fn name(&self) -> (name: &str) {
        "homepage"
    }

    fn run(&self, site: &mut Site) -> (result: Result<(), PluginError>) {
        match self.render(site) {
            Ok(html) => {
                site.emit("index.html".to_owned(), html);
                Ok(())
            },
            Err(e) => Err(e),
        }
    }
}

} // verus!
