use vstd::prelude::*;
use vstd::string::*;
use crate::builder::feed::{file_result_view, or_empty, text_or_empty, text_result_view};
use crate::parser::{field, Post, PostView};
use crate::plugin::{setting, OutputFile, OutputFileView, PluginError, PluginErrorView};
use crate::string_map::StringMap;
use crate::text::{replace, replaced};

verus! {

pub const HOST_PLACEHOLDER: &'static str = "{host}";

pub const WEBSITE_NAME: &'static str = "{website_name}";

pub const AUTHOR_NAME: &'static str = "{author_name}";

pub const POST_ITEM_DATE_TIMESTAMP_PLACEHOLDER: &'static str = "{post_date_timestamp}";

pub const POST_ITEM_DATE_READABLE_PLACEHOLDER: &'static str = "{post_date_human_readable}";

pub const POST_ITEM_TITLE_PLACEHOLDER: &'static str = "{post_title}";

pub const POST_ITEM_DESCRIPTION_PLACEHOLDER: &'static str = "{post_description}";

pub const POST_ITEM_CONTENT_PLACEHOLDER: &'static str = "{post_content}";

pub const POST_ITEM_URL_PLACEHOLDER: &'static str = "{post_url}";

pub const POST_ITEM_KEYWORDS_PLACEHOLDER: &'static str = "{post_keywords}";

pub const POST_ITEM_IMAGE_URL_PLACEHOLDER: &'static str = "{post_image_url}";

/// A date with slashes in the place of its hyphens.
pub open spec fn readable_date(date: Seq<char>) -> Seq<char> {
    replaced(date, "-"@, "/"@)
}

pub fn format_date(date: &str) -> (readable: String)
    ensures
        readable@ == readable_date(date@),
{
    replace(date, "-", "/")
}

/// The page of a post: the layout with the site's values and the post's filled in.
/// The address of the page is the host, then the path of the post's source
/// between slashes; its picture is the site's logo.
pub open spec fn post_page(
    template: Seq<char>,
    host: Seq<char>,
    website_name: Seq<char>,
    author_name: Seq<char>,
    post: PostView,
) -> Seq<char> {
    let hosted = replaced(template, HOST_PLACEHOLDER@, host);
    let named = replaced(hosted, WEBSITE_NAME@, website_name);
    let signed = replaced(named, AUTHOR_NAME@, author_name);
    let stamped = replaced(signed, POST_ITEM_DATE_TIMESTAMP_PLACEHOLDER@, post.frontmatter.date);
    let dated = replaced(
        stamped,
        POST_ITEM_DATE_READABLE_PLACEHOLDER@,
        readable_date(post.frontmatter.date),
    );
    let titled = replaced(dated, POST_ITEM_TITLE_PLACEHOLDER@, post.frontmatter.title);
    let described = replaced(
        titled,
        POST_ITEM_DESCRIPTION_PLACEHOLDER@,
        or_empty(post.frontmatter.description),
    );
    let filled = replaced(described, POST_ITEM_CONTENT_PLACEHOLDER@, post.html);
    let linked = replaced(
        filled,
        POST_ITEM_URL_PLACEHOLDER@,
        host + "/"@ + post.full_path + "/"@,
    );
    let tagged = replaced(
        linked,
        POST_ITEM_KEYWORDS_PLACEHOLDER@,
        or_empty(post.frontmatter.keywords),
    );
    replaced(tagged, POST_ITEM_IMAGE_URL_PLACEHOLDER@, host + "/img/logo.png"@)
}

/// The page for these settings: the first setting that is missing, in the
/// order `HOST`, `WEBSITE_NAME`, `AUTHOR_NAME`, or the page.
pub open spec fn post_page_outcome(
    template: Seq<char>,
    settings: Map<Seq<char>, Seq<char>>,
    post: PostView,
) -> Result<Seq<char>, PluginErrorView> {
    if field(settings, "HOST"@) is None {
        Err(PluginErrorView::MissingSetting("HOST"@))
    } else if field(settings, "WEBSITE_NAME"@) is None {
        Err(PluginErrorView::MissingSetting("WEBSITE_NAME"@))
    } else if field(settings, "AUTHOR_NAME"@) is None {
        Err(PluginErrorView::MissingSetting("AUTHOR_NAME"@))
    } else {
        Ok(
            post_page(
                template,
                settings["HOST"@],
                settings["WEBSITE_NAME"@],
                settings["AUTHOR_NAME"@],
                post,
            ),
        )
    }
}

pub fn wrap_post_with_layout(post: &Post, template: &str, settings: &StringMap) -> (result: Result<
    String,
    PluginError,
>)
    ensures
        text_result_view(result) == post_page_outcome(template@, settings@, post@),
{
    let host = match setting(settings, "HOST") {
        Ok(v) => v,
        Err(e) => {
            return Err(e);
        },
    };
    let website_name = match setting(settings, "WEBSITE_NAME") {
        Ok(v) => v,
        Err(e) => {
            return Err(e);
        },
    };
    let author_name = match setting(settings, "AUTHOR_NAME") {
        Ok(v) => v,
        Err(e) => {
            return Err(e);
        },
    };
    let image = host.clone().concat("/img/logo.png");
    let post_link = host.clone().concat("/").concat(post.full_path.as_str()).concat("/");
    let post_description = text_or_empty(&post.frontmatter.description);
    let post_keywords = text_or_empty(&post.frontmatter.keywords);
    let readable = format_date(post.frontmatter.date.as_str());
    let hosted = replace(template, HOST_PLACEHOLDER, host.as_str());
    let named = replace(hosted.as_str(), WEBSITE_NAME, website_name.as_str());
    let signed = replace(named.as_str(), AUTHOR_NAME, author_name.as_str());
    let stamped = replace(
        signed.as_str(),
        POST_ITEM_DATE_TIMESTAMP_PLACEHOLDER,
        post.frontmatter.date.as_str(),
    );
    let dated = replace(stamped.as_str(), POST_ITEM_DATE_READABLE_PLACEHOLDER, readable.as_str());
    let titled = replace(
        dated.as_str(),
        POST_ITEM_TITLE_PLACEHOLDER,
        post.frontmatter.title.as_str(),
    );
    let described = replace(titled.as_str(), POST_ITEM_DESCRIPTION_PLACEHOLDER, post_description);
    let filled = replace(described.as_str(), POST_ITEM_CONTENT_PLACEHOLDER, post.html.as_str());
    let linked = replace(filled.as_str(), POST_ITEM_URL_PLACEHOLDER, post_link.as_str());
    let tagged = replace(linked.as_str(), POST_ITEM_KEYWORDS_PLACEHOLDER, post_keywords);
    Ok(replace(tagged.as_str(), POST_ITEM_IMAGE_URL_PLACEHOLDER, image.as_str()))
}

/// The directory of a post: the build directory, a slash, and the post's permalink.
pub open spec fn post_dir(build_path: Seq<char>, post: PostView) -> Seq<char> {
    build_path + "/"@ + post.permalink
}

pub fn get_post_full_path(build_path: &str, post: &Post) -> (full_dir_path: String)
    ensures
        full_dir_path@ == post_dir(build_path@, post@),
{
    build_path.to_owned().concat("/").concat(post.permalink.as_str())
}

/// The file of a post's page: `index.html` in the post's directory.
pub open spec fn post_file_outcome(
    build_path: Seq<char>,
    template: Seq<char>,
    settings: Map<Seq<char>, Seq<char>>,
    post: PostView,
) -> Result<OutputFileView, PluginErrorView> {
    match post_page_outcome(template, settings, post) {
        Ok(page) => Ok(
            OutputFileView { path: post_dir(build_path, post) + "/index.html"@, contents: page },
        ),
        Err(e) => Err(e),
    }
}

pub fn create_post_file(build_path: &str, post: &Post, template: &str, settings: &StringMap) -> (result:
    Result<OutputFile, PluginError>)
    ensures
        file_result_view(result) == post_file_outcome(build_path@, template@, settings@, post@),
{
    let full_path = get_post_full_path(build_path, post);
    let file_path = full_path.concat("/index.html");
    match wrap_post_with_layout(post, template, settings) {
        Ok(contents) => Ok(OutputFile { path: file_path, contents }),
        Err(e) => Err(e),
    }
}

/// The directory to make for a post, and the file to write into it.
pub fn create_post_dir_and_file(
    build_path: &str,
    post: &Post,
    template: &str,
    settings: &StringMap,
) -> (output: (String, Result<OutputFile, PluginError>))
    ensures
        output.0@ == post_dir(build_path@, post@),
        file_result_view(output.1) == post_file_outcome(build_path@, template@, settings@, post@),
{
    let full_dir_path = get_post_full_path(build_path, post);
    (full_dir_path, create_post_file(build_path, post, template, settings))
}

} // verus!
