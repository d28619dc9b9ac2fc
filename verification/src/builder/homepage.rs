use vstd::prelude::*;
use vstd::string::*;
use crate::builder::feed::{
    file_result_view,
    or_empty,
    post_address,
    post_url,
    text_or_empty,
    text_result_view,
};
use crate::parser::{field, posts_view, Post, PostView};
use crate::plugin::{setting, OutputFile, OutputFileView, PluginError, PluginErrorView};
use crate::string_map::StringMap;
use crate::text::{replace, replaced};

verus! {

pub const POST_ITEMS_PLACEHOLDER: &'static str = "{post_items}";

pub const HOST_PLACEHOLDER: &'static str = "{host}";

pub const WEBSITE_NAME: &'static str = "{website_name}";

pub const WEBSITE_LOGO_URL: &'static str = "{website_logo_url}";

pub const WEBSITE_DESCRIPTION: &'static str = "{website_description}";

pub const AUTHOR_NAME: &'static str = "{author_name}";

pub const POST_ITEM_LINK_PLACEHOLDER: &'static str = "{post_link}";

pub const POST_ITEM_DATE_TIMESTAMP_PLACEHOLDER: &'static str = "{post_date_timestamp}";

pub const POST_ITEM_DATE_READABLE_PLACEHOLDER: &'static str = "{post_date_human_readable}";

pub const POST_ITEM_TITLE_PLACEHOLDER: &'static str = "{post_title}";

pub const POST_ITEM_EXCERPT_PLACEHOLDER: &'static str = "{post_excerpt}";

/// The line of one post in the archive: the item template with the post's
/// address, its date in both places, its title and its description filled in.
pub open spec fn archive_item(item_template: Seq<char>, host: Seq<char>, post: PostView) -> Seq<
    char,
> {
    replaced(
        replaced(
            replaced(
                replaced(
                    replaced(
                        item_template,
                        POST_ITEM_LINK_PLACEHOLDER@,
                        post_address(host, post.permalink),
                    ),
                    POST_ITEM_DATE_TIMESTAMP_PLACEHOLDER@,
                    post.frontmatter.date,
                ),
                POST_ITEM_DATE_READABLE_PLACEHOLDER@,
                post.frontmatter.date,
            ),
            POST_ITEM_TITLE_PLACEHOLDER@,
            post.frontmatter.title,
        ),
        POST_ITEM_EXCERPT_PLACEHOLDER@,
        or_empty(post.frontmatter.description),
    )
}

/// The lines of the posts, one after the other.
pub open spec fn archive_items(item_template: Seq<char>, host: Seq<char>, posts: Seq<PostView>) -> Seq<
    char,
>
    decreases posts.len(),
{
    if posts.len() == 0 {
        Seq::empty()
    } else {
        archive_items(item_template, host, posts.drop_last()) + archive_item(
            item_template,
            host,
            posts.last(),
        )
    }
}

/// The archive for these settings: it needs a `HOST`.
pub open spec fn posts_markup_outcome(
    item_template: Seq<char>,
    settings: Map<Seq<char>, Seq<char>>,
    posts: Seq<PostView>,
) -> Result<Seq<char>, PluginErrorView> {
    match field(settings, "HOST"@) {
        Some(host) => Ok(archive_items(item_template, host, posts)),
        None => Err(PluginErrorView::MissingSetting("HOST"@)),
    }
}

pub fn get_posts_markup(posts: &Vec<Post>, item_template: &str, settings: &StringMap) -> (result:
    Result<String, PluginError>)
    ensures
        text_result_view(result) == posts_markup_outcome(
            item_template@,
            settings@,
            posts_view(posts@),
        ),
{
    let host = match setting(settings, "HOST") {
        Ok(v) => v,
        Err(e) => {
            return Err(e);
        },
    };
    let ghost views = posts_view(posts@);
    let mut markup = String::new();
    let mut i: usize = 0;
    while i < posts.len()
        invariant
            i <= posts@.len(),
            views == posts_view(posts@),
            markup@ == archive_items(item_template@, host@, views.take(i as int)),
        decreases posts@.len() - i,
    {
        proof {
            assert(views.take(i + 1).drop_last() =~= views.take(i as int));
            assert(views.take(i + 1).last() == posts@[i as int]@);
        }
        let post = &posts[i];
        let post_link = post_url(host.as_str(), post.permalink.as_str());
        let post_date = post.frontmatter.date.as_str();
        let post_description = text_or_empty(&post.frontmatter.description);
        let linked = replace(item_template, POST_ITEM_LINK_PLACEHOLDER, post_link.as_str());
        let stamped = replace(linked.as_str(), POST_ITEM_DATE_TIMESTAMP_PLACEHOLDER, post_date);
        let dated = replace(stamped.as_str(), POST_ITEM_DATE_READABLE_PLACEHOLDER, post_date);
        let titled = replace(
            dated.as_str(),
            POST_ITEM_TITLE_PLACEHOLDER,
            post.frontmatter.title.as_str(),
        );
        let item_markup = replace(titled.as_str(), POST_ITEM_EXCERPT_PLACEHOLDER, post_description);
        markup.append(item_markup.as_str());
        i = i + 1;
    }
    assert(views.take(posts@.len() as int) =~= views);
    Ok(markup)
}

/// The home page template with the site's own values filled in.
pub open spec fn home_template(
    template: Seq<char>,
    host: Seq<char>,
    website_name: Seq<char>,
    website_logo_url: Seq<char>,
    website_description: Seq<char>,
    author_name: Seq<char>,
) -> Seq<char> {
    replaced(
        replaced(
            replaced(
                replaced(replaced(template, HOST_PLACEHOLDER@, host), WEBSITE_NAME@, website_name),
                WEBSITE_LOGO_URL@,
                website_logo_url,
            ),
            WEBSITE_DESCRIPTION@,
            website_description,
        ),
        AUTHOR_NAME@,
        author_name,
    )
}

/// What filling in the home page template gives: the first setting that is
/// missing, in the order `HOST`, `WEBSITE_NAME`, `WEBSITE_LOGO_URL`,
/// `WEBSITE_DESCRIPTION`, `AUTHOR_NAME`, or the text.
pub open spec fn home_template_outcome(
    template: Seq<char>,
    settings: Map<Seq<char>, Seq<char>>,
) -> Result<Seq<char>, PluginErrorView> {
    if field(settings, "HOST"@) is None {
        Err(PluginErrorView::MissingSetting("HOST"@))
    } else if field(settings, "WEBSITE_NAME"@) is None {
        Err(PluginErrorView::MissingSetting("WEBSITE_NAME"@))
    } else if field(settings, "WEBSITE_LOGO_URL"@) is None {
        Err(PluginErrorView::MissingSetting("WEBSITE_LOGO_URL"@))
    } else if field(settings, "WEBSITE_DESCRIPTION"@) is None {
        Err(PluginErrorView::MissingSetting("WEBSITE_DESCRIPTION"@))
    } else if field(settings, "AUTHOR_NAME"@) is None {
        Err(PluginErrorView::MissingSetting("AUTHOR_NAME"@))
    } else {
        Ok(
            home_template(
                template,
                settings["HOST"@],
                settings["WEBSITE_NAME"@],
                settings["WEBSITE_LOGO_URL"@],
                settings["WEBSITE_DESCRIPTION"@],
                settings["AUTHOR_NAME"@],
            ),
        )
    }
}

pub fn get_home_template(template: &str, settings: &StringMap) -> (result: Result<
    String,
    PluginError,
>)
    ensures
        text_result_view(result) == home_template_outcome(template@, settings@),
{
    let host = match setting(settings, "HOST") {
        Ok(v) => v,
        Err(e) => {
            return Err(e);
        },
    };
    let website_name = match setting(settings, "WEBSITE_NAME") {
        Ok(v) => v,
        Err(e) => {
            return Err(e);
        },
    };
    let website_logo_url = match setting(settings, "WEBSITE_LOGO_URL") {
        Ok(v) => v,
        Err(e) => {
            return Err(e);
        },
    };
    let website_description = match setting(settings, "WEBSITE_DESCRIPTION") {
        Ok(v) => v,
        Err(e) => {
            return Err(e);
        },
    };
    let author_name = match setting(settings, "AUTHOR_NAME") {
        Ok(v) => v,
        Err(e) => {
            return Err(e);
        },
    };
    let hosted = replace(template, HOST_PLACEHOLDER, host.as_str());
    let named = replace(hosted.as_str(), WEBSITE_NAME, website_name.as_str());
    let pictured = replace(named.as_str(), WEBSITE_LOGO_URL, website_logo_url.as_str());
    let described = replace(pictured.as_str(), WEBSITE_DESCRIPTION, website_description.as_str());
    Ok(replace(described.as_str(), AUTHOR_NAME, author_name.as_str()))
}

/// The home page: the filled template with the archive in the place that
/// the template keeps for it.
pub open spec fn homepage_markup_outcome(
    posts: Seq<PostView>,
    template: Seq<char>,
    item_template: Seq<char>,
    settings: Map<Seq<char>, Seq<char>>,
) -> Result<Seq<char>, PluginErrorView> {
    match home_template_outcome(template, settings) {
        Ok(filled) => match posts_markup_outcome(item_template, settings, posts) {
            Ok(items) => Ok(replaced(filled, POST_ITEMS_PLACEHOLDER@, items)),
            Err(e) => Err(e),
        },
        Err(e) => Err(e),
    }
}

pub fn get_homepage_markup(
    posts: &Vec<Post>,
    template: &str,
    item_template: &str,
    settings: &StringMap,
) -> (result: Result<String, PluginError>)
    ensures
        text_result_view(result) == homepage_markup_outcome(
            posts_view(posts@),
            template@,
            item_template@,
            settings@,
        ),
{
    let filled = match get_home_template(template, settings) {
        Ok(v) => v,
        Err(e) => {
            return Err(e);
        },
    };
    let posts_markup = match get_posts_markup(posts, item_template, settings) {
        Ok(v) => v,
        Err(e) => {
            return Err(e);
        },
    };
    Ok(replace(filled.as_str(), POST_ITEMS_PLACEHOLDER, posts_markup.as_str()))
}

/// The file of the home page: `index.html` in the build directory. Any
/// place for the archive that the page still shows is filled with the page itself.
pub open spec fn homepage_outcome(
    posts: Seq<PostView>,
    template: Seq<char>,
    item_template: Seq<char>,
    settings: Map<Seq<char>, Seq<char>>,
    build_path: Seq<char>,
) -> Result<OutputFileView, PluginErrorView> {
    match homepage_markup_outcome(posts, template, item_template, settings) {
        Ok(markup) => Ok(
            OutputFileView {
                path: build_path + "/index.html"@,
                contents: replaced(markup, POST_ITEMS_PLACEHOLDER@, markup),
            },
        ),
        Err(e) => Err(e),
    }
}

pub fn create_homepage(
    posts: &Vec<Post>,
    template: &str,
    item_template: &str,
    settings: &StringMap,
    build_path: &str,
) -> (result: Result<OutputFile, PluginError>)
    ensures
        file_result_view(result) == homepage_outcome(
            posts_view(posts@),
            template@,
            item_template@,
            settings@,
            build_path@,
        ),
{
    let homepage_markup = match get_homepage_markup(posts, template, item_template, settings) {
        Ok(v) => v,
        Err(e) => {
            return Err(e);
        },
    };
    let contents = replace(
        homepage_markup.as_str(),
        POST_ITEMS_PLACEHOLDER,
        homepage_markup.as_str(),
    );
    let path = build_path.to_owned().concat("/index.html");
    Ok(OutputFile { path, contents })
}

} // verus!
