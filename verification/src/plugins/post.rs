use vstd::prelude::*;
use vstd::string::*;
use crate::builder::feed::{or_empty, text_or_empty};
use crate::parser::{field, FrontmatterData, Post, PostView};
use crate::plugin::{
    outputs_view,
    OutputFile,
    OutputFileView,
    Plugin,
    PluginError,
    PluginErrorView,
    Site,
    SiteView,
};
use crate::text::{replace, replaced};

verus! {

pub const HOST_PLACEHOLDER: &'static str = "{host}";

pub const WEBSITE_NAME: &'static str = "{website_name}";

pub const AUTHOR_NAME: &'static str = "{author_name}";

pub const POST_ITEM_DATE_TIMESTAMP_PLACEHOLDER: &'static str = "{post_date_timestamp}";

pub const POST_ITEM_DATE_READABLE_PLACEHOLDER: &'static str = "{post_date_human_readable}";

pub const POST_ITEM_TITLE_PLACEHOLDER: &'static str = "{post_title}";

pub const POST_ITEM_DESCRIPTION_PLACEHOLDER: &'static str = "{post_description}";

pub const POST_ITEM_CONTENT_PLACEHOLDER: &'static str = "{post_content}";

pub const POST_ITEM_URL_PLACEHOLDER: &'static str = "{post_url}";

pub const POST_ITEM_KEYWORDS_PLACEHOLDER: &'static str = "{post_keywords}";

pub const POST_ITEM_IMAGE_URL_PLACEHOLDER: &'static str = "{post_image_url}";

pub const THEME_CLASS_PLACEHOLDER: &'static str = "{theme_class}";

/// Writes the page of every post, `index.html` in a directory named by the
/// post's permalink.
pub struct PostPlugin {
    pub template: String,
}

/// The page of a post: the template with the site's values and the post's filled in.
pub open spec fn post_html(
    template: Seq<char>,
    host: Seq<char>,
    website_name: Seq<char>,
    author_name: Seq<char>,
    post: PostView,
) -> Seq<char> {
    let hosted = replaced(template, HOST_PLACEHOLDER@, host);
    let named = replaced(hosted, WEBSITE_NAME@, website_name);
    let signed = replaced(named, AUTHOR_NAME@, author_name);
    let stamped = replaced(signed, POST_ITEM_DATE_TIMESTAMP_PLACEHOLDER@, post.frontmatter.date);
    let dated = replaced(stamped, POST_ITEM_DATE_READABLE_PLACEHOLDER@, post.frontmatter.date);
    let titled = replaced(dated, POST_ITEM_TITLE_PLACEHOLDER@, post.frontmatter.title);
    let described = replaced(
        titled,
        POST_ITEM_DESCRIPTION_PLACEHOLDER@,
        or_empty(post.frontmatter.description),
    );
    let filled = replaced(described, POST_ITEM_CONTENT_PLACEHOLDER@, post.html);
    let linked = replaced(filled, POST_ITEM_URL_PLACEHOLDER@, post.permalink);
    let tagged = replaced(
        linked,
        POST_ITEM_KEYWORDS_PLACEHOLDER@,
        or_empty(post.frontmatter.keywords),
    );
    let pictured = replaced(tagged, POST_ITEM_IMAGE_URL_PLACEHOLDER@, host + "/img/logo.png"@);
    replaced(pictured, THEME_CLASS_PLACEHOLDER@, FrontmatterData::theme(post.frontmatter))
}

/// The file of a post's page.
pub open spec fn post_output(
    template: Seq<char>,
    host: Seq<char>,
    website_name: Seq<char>,
    author_name: Seq<char>,
    post: PostView,
) -> OutputFileView {
    OutputFileView {
        path: post.permalink + "/index.html"@,
        contents: post_html(template, host, website_name, author_name, post),
    }
}

/// The files of the posts' pages, in the order of the posts.
pub open spec fn post_outputs(
    template: Seq<char>,
    host: Seq<char>,
    website_name: Seq<char>,
    author_name: Seq<char>,
    posts: Seq<PostView>,
) -> Seq<OutputFileView> {
    posts.map_values(|post: PostView| post_output(template, host, website_name, author_name, post))
}

/// The setting that the stage lacks: the first that is missing, in the order
/// `WEBSITE_NAME`, `AUTHOR_NAME`, `HOST`.
pub open spec fn missing_setting(site: SiteView) -> Option<Seq<char>> {
    if field(site.metadata, "WEBSITE_NAME"@) is None {
        Some("WEBSITE_NAME"@)
    } else if field(site.metadata, "AUTHOR_NAME"@) is None {
        Some("AUTHOR_NAME"@)
    } else if field(site.metadata, "HOST"@) is None {
        Some("HOST"@)
    } else {
        None
    }
}

impl PostPlugin {
    pub fn new(template: String) -> (plugin: PostPlugin)
        ensures
            plugin.template == template,
    {
        PostPlugin { template }
    }

    /// Writes the page of one post.
    pub fn render(&self, host: &str, website_name: &str, author_name: &str, post: &Post) -> (file:
        OutputFile)
        ensures
            file@ == post_output(self.template@, host@, website_name@, author_name@, post@),
    {
        let path = post.permalink.clone().concat("/index.html");
        let image = host.to_owned().concat("/img/logo.png");
        let hosted = replace(self.template.as_str(), HOST_PLACEHOLDER, host);
        let named = replace(hosted.as_str(), WEBSITE_NAME, website_name);
        let signed = replace(named.as_str(), AUTHOR_NAME, author_name);
        let stamped = replace(
            signed.as_str(),
            POST_ITEM_DATE_TIMESTAMP_PLACEHOLDER,
            post.frontmatter.date.as_str(),
        );
        let dated = replace(
            stamped.as_str(),
            POST_ITEM_DATE_READABLE_PLACEHOLDER,
            post.frontmatter.date.as_str(),
        );
        let titled = replace(
            dated.as_str(),
            POST_ITEM_TITLE_PLACEHOLDER,
            post.frontmatter.title.as_str(),
        );
        let described = replace(
            titled.as_str(),
            POST_ITEM_DESCRIPTION_PLACEHOLDER,
            text_or_empty(&post.frontmatter.description),
        );
        let filled = replace(described.as_str(), POST_ITEM_CONTENT_PLACEHOLDER, post.html.as_str());
        let linked = replace(filled.as_str(), POST_ITEM_URL_PLACEHOLDER, post.permalink.as_str());
        let tagged = replace(
            linked.as_str(),
            POST_ITEM_KEYWORDS_PLACEHOLDER,
            text_or_empty(&post.frontmatter.keywords),
        );
        let pictured = replace(tagged.as_str(), POST_ITEM_IMAGE_URL_PLACEHOLDER, image.as_str());
        let contents = replace(
            pictured.as_str(),
            THEME_CLASS_PLACEHOLDER,
            post.frontmatter.theme_class(),
        );
        OutputFile { path, contents }
    }
}

impl Plugin for PostPlugin {
    /// With its settings the site gains the page of every post, in the order
    /// of the posts; without one of them the stage fails for that setting
    /// and the site stays as it is.
    open spec fn effect(
        &self,
        before: SiteView,
        after: SiteView,
        failure: Option<PluginErrorView>,
    ) -> bool {
        match missing_setting(before) {
            Some(name) => failure == Some(PluginErrorView::MissingSetting(name)) && after
                == before,
            None => failure is None && after == (SiteView {
                outputs: before.outputs + post_outputs(
                    self.template@,
                    before.metadata["HOST"@],
                    before.metadata["WEBSITE_NAME"@],
                    before.metadata["AUTHOR_NAME"@],
                    before.posts,
                ),
                ..before
            }),
        }
    }

    open spec fn named(&self, name: Seq<char>) -> bool {
        name == "post"@
    }

    fn name(&self) -> (name: &str) {
        "post"
    }

    fn run(&self, site: &mut Site) -> (result: Result<(), PluginError>) {
        let website_name = match site.setting("WEBSITE_NAME") {
            Ok(v) => v,
            Err(e) => {
                return Err(e);
            },
        };
        let author_name = match site.setting("AUTHOR_NAME") {
            Ok(v) => v,
            Err(e) => {
                return Err(e);
            },
        };
        let host = match site.setting("HOST") {
            Ok(v) => v,
            Err(e) => {
                return Err(e);
            },
        };
        let ghost before = site@;
        let ghost pages = post_outputs(
            self.template@,
            host@,
            website_name@,
            author_name@,
            before.posts,
        );
        let mut i: usize = 0;
        assert(before.outputs + pages.take(0) =~= before.outputs);
        while i < site.posts.len()
            invariant
                i <= site.posts@.len(),
                pages == post_outputs(
                    self.template@,
                    host@,
                    website_name@,
                    author_name@,
                    before.posts,
                ),
                site@ == (SiteView { outputs: before.outputs + pages.take(i as int), ..before }),
            decreases site.posts@.len() - i,
        {
            let file = self.render(
                host.as_str(),
                website_name.as_str(),
                author_name.as_str(),
                &site.posts[i],
            );
            let ghost outputs = outputs_view(site.outputs@);
            assert(file@ == pages[i as int]);
            site.outputs.push(file);
            assert(outputs_view(site.outputs@) =~= before.outputs + pages.take(i + 1)) by {
                assert(outputs_view(site.outputs@) =~= outputs.push(file@));
                assert(pages.take(i + 1) =~= pages.take(i as int).push(pages[i as int]));
            }
            i = i + 1;
        }
        assert(pages.take(site.posts@.len() as int) =~= pages);
        Ok(())
    }
}

} // verus!
