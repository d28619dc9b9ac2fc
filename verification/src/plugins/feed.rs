use vstd::prelude::*;
use vstd::string::*;
use crate::builder::feed::{or_empty, text_or_empty};
use crate::parser::{field, posts_view, Post, PostView};
use crate::plugin::{with_output, Plugin, PluginError, PluginErrorView, Site, SiteView};
use crate::text::{replace, replaced};

verus! {

pub const HOST_PLACEHOLDER: &'static str = "{host}";

pub const WEBSITE_NAME: &'static str = "{website_name}";

pub const WEBSITE_DESCRIPTION: &'static str = "{website_description}";

pub const FEED_ITEMS_PLACEHOLDER: &'static str = "{feed_items}";

pub const ITEM_OPEN: &'static str = "    <item>\n        <title>";

pub const ITEM_LINK: &'static str = "</title>\n        <link>";

pub const ITEM_DESCRIPTION: &'static str = "</link>\n        <description>";

pub const ITEM_DATE: &'static str = "</description>\n        <pubDate>";

pub const ITEM_GUID: &'static str = "</pubDate>\n        <guid>";

pub const ITEM_CLOSE: &'static str = "</guid>\n    </item>\n";

/// Writes the feed of the site, `feed.xml`, from its template.
pub struct FeedPlugin {
    pub template: String,
}

/// The item of one post: its title, its address, its description and its date.
pub open spec fn feed_item(host: Seq<char>, post: PostView) -> Seq<char> {
    ITEM_OPEN@ + post.frontmatter.title + ITEM_LINK@ + host + post.permalink + ITEM_DESCRIPTION@
        + or_empty(post.frontmatter.description) + ITEM_DATE@ + post.frontmatter.date + ITEM_GUID@
        + host + post.permalink + ITEM_CLOSE@
}

/// The items of the posts, one after the other.
pub open spec fn feed_items(host: Seq<char>, posts: Seq<PostView>) -> Seq<char>
    decreases posts.len(),
{
    if posts.len() == 0 {
        Seq::empty()
    } else {
        feed_items(host, posts.drop_last()) + feed_item(host, posts.last())
    }
}

/// The feed: the template with the site's values and the items filled in.
pub open spec fn feed_xml(
    template: Seq<char>,
    host: Seq<char>,
    website_name: Seq<char>,
    website_description: Seq<char>,
    posts: Seq<PostView>,
) -> Seq<char> {
    replaced(
        replaced(
            replaced(replaced(template, HOST_PLACEHOLDER@, host), WEBSITE_NAME@, website_name),
            WEBSITE_DESCRIPTION@,
            website_description,
        ),
        FEED_ITEMS_PLACEHOLDER@,
        feed_items(host, posts),
    )
}

/// The feed for a site: the first setting that is missing, in the order
/// `WEBSITE_NAME`, `WEBSITE_DESCRIPTION`, `HOST`, or the text.
pub open spec fn feed_outcome(template: Seq<char>, site: SiteView) -> Result<
    Seq<char>,
    PluginErrorView,
> {
    if field(site.metadata, "WEBSITE_NAME"@) is None {
        Err(PluginErrorView::MissingSetting("WEBSITE_NAME"@))
    } else if field(site.metadata, "WEBSITE_DESCRIPTION"@) is None {
        Err(PluginErrorView::MissingSetting("WEBSITE_DESCRIPTION"@))
    } else if field(site.metadata, "HOST"@) is None {
        Err(PluginErrorView::MissingSetting("HOST"@))
    } else {
        Ok(
            feed_xml(
                template,
                site.metadata["HOST"@],
                site.metadata["WEBSITE_NAME"@],
                site.metadata["WEBSITE_DESCRIPTION"@],
                site.posts,
            ),
        )
    }
}

impl FeedPlugin {
    pub fn new(template: String) -> (plugin: FeedPlugin)
        ensures
            plugin.template == template,
    {
        FeedPlugin { template }
    }

    /// Writes the items of the posts.
    pub fn render_items(host: &str, posts: &Vec<Post>) -> (items: String)
        ensures
            items@ == feed_items(host@, posts_view(posts@)),
    {
        let ghost views = posts_view(posts@);
        let mut items = String::new();
        let mut i: usize = 0;
        while i < posts.len()
            invariant
                i <= posts@.len(),
                views == posts_view(posts@),
                items@ == feed_items(host@, views.take(i as int)),
            decreases posts@.len() - i,
        {
            proof {
                assert(views.take(i + 1).drop_last() =~= views.take(i as int));
                assert(views.take(i + 1).last() == posts@[i as int]@);
            }
            let ghost before = items@;
            let post = &posts[i];
            items.append(ITEM_OPEN);
            items.append(post.frontmatter.title.as_str());
            items.append(ITEM_LINK);
            items.append(host);
            items.append(post.permalink.as_str());
            items.append(ITEM_DESCRIPTION);
            items.append(text_or_empty(&post.frontmatter.description));
            items.append(ITEM_DATE);
            items.append(post.frontmatter.date.as_str());
            items.append(ITEM_GUID);
            items.append(host);
            items.append(post.permalink.as_str());
            items.append(ITEM_CLOSE);
            assert(items@ =~= before + feed_item(host@, post@));
            i = i + 1;
        }
        assert(views.take(posts@.len() as int) =~= views);
        items
    }

    /// Writes the feed of a site.
    pub fn render(&self, site: &Site) -> (result: Result<String, PluginError>)
        ensures
            crate::builder::feed::text_result_view(result) == feed_outcome(self.template@, site@),
    {
        let website_name = match site.setting("WEBSITE_NAME") {
            Ok(v) => v,
            Err(e) => {
                return Err(e);
            },
        };
        let website_description = match site.setting("WEBSITE_DESCRIPTION") {
            Ok(v) => v,
            Err(e) => {
                return Err(e);
            },
        };
        let host = match site.setting("HOST") {
            Ok(v) => v,
            Err(e) => {
                return Err(e);
            },
        };
        let feed_items = FeedPlugin::render_items(host.as_str(), &site.posts);
        let hosted = replace(self.template.as_str(), HOST_PLACEHOLDER, host.as_str());
        let named = replace(hosted.as_str(), WEBSITE_NAME, website_name.as_str());
        let described = replace(named.as_str(), WEBSITE_DESCRIPTION, website_description.as_str());
        Ok(replace(described.as_str(), FEED_ITEMS_PLACEHOLDER, feed_items.as_str()))
    }
}

impl Plugin for FeedPlugin {
    /// With its settings the site gains `feed.xml`; without one of them the
    /// stage fails for that setting and the site stays as it is.
    open spec fn effect(
        &self,
        before: SiteView,
        after: SiteView,
        failure: Option<PluginErrorView>,
    ) -> bool {
        match feed_outcome(self.template@, before) {
            Ok(xml) => failure is None && after == with_output(before, "feed.xml"@, xml),
            Err(e) => failure == Some(e) && after == before,
        }
    }

    open spec fn named(&self, name: Seq<char>) -> bool {
        name == "feed"@
    }

    fn name(&self) -> (name: &str) {
        "feed"
    }

    fn run(&self, site: &mut Site) -> (result: Result<(), PluginError>) {
        match self.render(site) {
            Ok(xml) => {
                site.emit("feed.xml".to_owned(), xml);
                Ok(())
            },
            Err(e) => Err(e),
        }
    }
}

} // verus!
