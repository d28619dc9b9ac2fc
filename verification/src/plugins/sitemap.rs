use vstd::prelude::*;
use vstd::string::*;
use crate::parser::{field, Post, PostView};
use crate::plugin::{with_output, Plugin, PluginError, PluginErrorView, Site, SiteView};

verus! {

pub const SITEMAP_OPEN: &'static str =
    "<?xml version=\"1.0\" encoding=\"UTF-8\"?><urlset xmlns=\"http://www.sitemaps.org/schemas/sitemap/0.9\">";

pub const SITEMAP_CLOSE: &'static str = "</urlset>";

pub const URL_OPEN: &'static str = "<url><loc>";

pub const URL_CLOSE: &'static str = "</loc><changefreq>weekly</changefreq><priority>0.5</priority></url>";

/// Lists the address of every post, and of the home page, in `sitemap.xml`.
pub struct SitemapPlugin;

/// The entry of one post.
pub open spec fn post_entry(host: Seq<char>, permalink: Seq<char>) -> Seq<char> {
    URL_OPEN@ + host + "/"@ + permalink + "/"@ + URL_CLOSE@
}

/// The entries of the posts, in their order.
pub open spec fn post_entries(host: Seq<char>, posts: Seq<PostView>) -> Seq<char>
    decreases posts.len(),
{
    if posts.len() == 0 {
        Seq::empty()
    } else {
        post_entries(host, posts.drop_last()) + post_entry(host, posts.last().permalink)
    }
}

/// The whole document: the posts first, the home page last.
pub open spec fn sitemap_xml(host: Seq<char>, posts: Seq<PostView>) -> Seq<char> {
    SITEMAP_OPEN@ + post_entries(host, posts) + URL_OPEN@ + host + URL_CLOSE@ + SITEMAP_CLOSE@
}

impl SitemapPlugin {
    pub fn new() -> (plugin: SitemapPlugin) {
        SitemapPlugin
    }

    /// Writes the document for the given host and posts.
    pub fn render(host: &str, posts: &Vec<Post>) -> (xml: String)
        ensures
            xml@ == sitemap_xml(host@, crate::parser::posts_view(posts@)),
    {
        let ghost views = crate::parser::posts_view(posts@);
        let mut xml = SITEMAP_OPEN.to_owned();
        let mut i: usize = 0;
        while i < posts.len()
            invariant
                i <= posts@.len(),
                views == crate::parser::posts_view(posts@),
                xml@ == SITEMAP_OPEN@ + post_entries(host@, views.take(i as int)),
            decreases posts@.len() - i,
        {
            proof {
                assert(views.take(i + 1).drop_last() =~= views.take(i as int));
                assert(views.take(i + 1).last() == posts@[i as int]@);
            }
            xml.append(URL_OPEN);
            xml.append(host);
            xml.append("/");
            xml.append(posts[i].permalink.as_str());
            xml.append("/");
            xml.append(URL_CLOSE);
            assert(xml@ =~= SITEMAP_OPEN@ + post_entries(host@, views.take(i + 1)));
            i = i + 1;
        }
        assert(views.take(posts@.len() as int) =~= views);
        xml.append(URL_OPEN);
        xml.append(host);
        xml.append(URL_CLOSE);
        xml.append(SITEMAP_CLOSE);
        assert(xml@ =~= sitemap_xml(host@, views));
        xml
    }
}

impl Plugin for SitemapPlugin {
    /// With a `HOST` the site gains `sitemap.xml`; without one the stage
    /// fails and the site stays as it is.
    open spec fn effect(
        &self,
        before: SiteView,
        after: SiteView,
        failure: Option<PluginErrorView>,
    ) -> bool {
        match field(before.metadata, "HOST"@) {
            Some(host) => failure is None && after == with_output(
                before,
                "sitemap.xml"@,
                sitemap_xml(host, before.posts),
            ),
            None => failure == Some(PluginErrorView::MissingSetting("HOST"@)) && after == before,
        }
    }

    open spec fn named(&self, name: Seq<char>) -> bool {
        name == "sitemap"@
    }

    fn name(&self) -> (name: &str) {
        "sitemap"
    }

    fn run(&self, site: &mut Site) -> (result: Result<(), PluginError>) {
        let host = match site.setting("HOST") {
            Ok(host) => host,
            Err(e) => {
                return Err(e);
            },
        };
        let xml = SitemapPlugin::render(host.as_str(), &site.posts);
        site.emit("sitemap.xml".to_owned(), xml);
        Ok(())
    }
}

} // verus!
