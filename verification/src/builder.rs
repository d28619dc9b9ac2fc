pub mod feed;
pub mod homepage;
pub mod post;

use vstd::prelude::*;
use vstd::string::*;
use crate::builder::homepage::{create_homepage, homepage_outcome};
use crate::parser::{permalink_of, posts_view, Post, PostView};
use crate::plugin::{outputs_view, OutputFile, OutputFileView, PluginError, PluginErrorView};
use crate::string_map::StringMap;

verus! {

/// The directory of the built site, below the directory the build runs in.
pub open spec fn build_dir(current_dir: Seq<char>) -> Seq<char> {
    current_dir + "/build/"@
}

pub fn get_build_dir(current_dir: &str) -> (build_path: String)
    ensures
        build_path@ == build_dir(current_dir@),
{
    current_dir.to_owned().concat("/build/")
}

pub fn get_permalink_from_title(post_title: String) -> (permalink: String)
    ensures
        permalink@ == permalink_of(post_title@),
{
    crate::parser::get_permalink_from_title(&post_title)
}

/// The directory of a post: the build directory, a slash, and the permalink
/// of the post's title.
pub open spec fn post_dir(build_path: Seq<char>, post: PostView) -> Seq<char> {
    build_path + "/"@ + permalink_of(post.frontmatter.title)
}

pub fn get_post_full_path(build_path: &str, post: &Post) -> (full_dir_path: String)
    ensures
        full_dir_path@ == post_dir(build_path@, post@),
{
    let post_dir_name = get_permalink_from_title(post.frontmatter.title.clone());
    build_path.to_owned().concat("/").concat(post_dir_name.as_str())
}

/// The page of a post: `index.html` in the post's directory, holding the post's HTML.
pub open spec fn post_file(build_path: Seq<char>, post: PostView) -> OutputFileView {
    OutputFileView { path: post_dir(build_path, post) + "/index.html"@, contents: post.html }
}

pub fn create_post_file(build_path: &str, post: &Post) -> (file: OutputFile)
    ensures
        file@ == post_file(build_path@, post@),
{
    let full_path = get_post_full_path(build_path, post);
    let file_path = full_path.concat("/index.html");
    OutputFile { path: file_path, contents: post.html.clone() }
}

/// The directory to make for a post, and the file to write into it.
pub fn create_post_dir_and_file(build_path: &str, post: &Post) -> (output: (String, OutputFile))
    ensures
        output.0@ == post_dir(build_path@, post@),
        output.1@ == post_file(build_path@, post@),
{
    let full_dir_path = get_post_full_path(build_path, post);
    (full_dir_path, create_post_file(build_path, post))
}

/// The pages of the posts, in the order of the posts.
pub open spec fn post_files(build_path: Seq<char>, posts: Seq<PostView>) -> Seq<OutputFileView> {
    posts.map_values(|post: PostView| post_file(build_path, post))
}

/// The files of a build: the page of every post, then the home page. A
/// setting that the home page lacks fails the whole build.
pub open spec fn build_outcome(
    posts: Seq<PostView>,
    template: Seq<char>,
    item_template: Seq<char>,
    settings: Map<Seq<char>, Seq<char>>,
    build_path: Seq<char>,
) -> Result<Seq<OutputFileView>, PluginErrorView> {
    match homepage_outcome(posts, template, item_template, settings, build_path) {
        Ok(homepage) => Ok(post_files(build_path, posts).push(homepage)),
        Err(e) => Err(e),
    }
}

/// A list of files or an error, by its view.
pub open spec fn files_result_view(result: Result<Vec<OutputFile>, PluginError>) -> Result<
    Seq<OutputFileView>,
    PluginErrorView,
> {
    match result {
        Ok(files) => Ok(outputs_view(files@)),
        Err(e) => Err(e@),
    }
}

pub fn build(
    posts: &Vec<Post>,
    template: &str,
    item_template: &str,
    settings: &StringMap,
    build_path: &str,
) -> (result: Result<Vec<OutputFile>, PluginError>)
    ensures
        files_result_view(result) == build_outcome(
            posts_view(posts@),
            template@,
            item_template@,
            settings@,
            build_path@,
        ),
{
    let ghost views = posts_view(posts@);
    let mut files: Vec<OutputFile> = Vec::new();
    let mut i: usize = 0;
    while i < posts.len()
        invariant
            i <= posts@.len(),
            views == posts_view(posts@),
            outputs_view(files@) == post_files(build_path@, views.take(i as int)),
        decreases posts@.len() - i,
    {
        let ghost before = files@;
        let output = create_post_dir_and_file(build_path, &posts[i]);
        files.push(output.1);
        assert(outputs_view(files@) =~= post_files(build_path@, views.take(i + 1))) by {
            assert(outputs_view(files@) =~= outputs_view(before).push(output.1@));
            assert(views.take(i + 1) =~= views.take(i as int).push(posts@[i as int]@));
        }
        i = i + 1;
    }
    assert(views.take(posts@.len() as int) =~= views);
    let ghost pages = files@;
    match create_homepage(posts, template, item_template, settings, build_path) {
        Ok(homepage) => {
            files.push(homepage);
            assert(outputs_view(files@) =~= outputs_view(pages).push(homepage@));
            Ok(files)
        },
        Err(e) => Err(e),
    }
}

} // verus!
