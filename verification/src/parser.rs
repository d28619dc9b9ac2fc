use std::collections::BTreeMap;
use markdown::mdast::Node;
use markdown::{CompileOptions, Constructs, Options, ParseOptions};
use vstd::prelude::*;
use vstd::string::*;
use crate::string_map::{pairs_map, pairs_of, StringMap};
use crate::text::{lowercased, replace, replaced, to_lowercase};

verus! {

/// The metadata block at the head of a content file.
#[derive(Debug, Clone, PartialEq, Eq)]
pub struct FrontmatterData {
    pub date: String,
    pub description: Option<String>,
    pub keywords: Option<String>,
    pub title: String,
    pub publish: Option<String>,
    pub light_theme: bool,
}

/// One content file after parsing.
#[derive(Debug, Clone, PartialEq, Eq)]
pub struct Post {
    pub file_name: String,
    pub frontmatter: FrontmatterData,
    pub full_path: String,
    pub html: String,
    pub permalink: String,
}

/// Why a content file gave no post.
#[derive(Debug, Clone, PartialEq, Eq)]
pub enum ParseError {
    /// The file could not be read.
    Io(String),
    /// The document does not open with a front matter block.
    MissingFrontMatter,
    /// The front matter block is not a mapping from strings to strings.
    InvalidFrontMatter(String),
    /// A required key is absent or empty.
    MissingField(String),
}

/// One entry of the content directory as it was read: where it lies, and its
/// text or the reason why the text could not be read.
#[derive(Debug, PartialEq, Eq)]
pub struct SourceFile {
    pub full_path: String,
    pub file_name: String,
    pub contents: Result<String, String>,
}

/// A file that gave no post, with the reason.
#[derive(Debug, PartialEq, Eq)]
pub struct LoadFailure {
    pub file_name: String,
    pub error: ParseError,
}

/// What loading a directory gave: the posts, and the files that were skipped.
#[derive(Debug, PartialEq, Eq)]
pub struct LoadReport {
    pub posts: Vec<Post>,
    pub failures: Vec<LoadFailure>,
}

/// A top-level node of a parsed document, as far as the parser reads it.
#[derive(Debug, Clone, PartialEq, Eq)]
pub enum Block {
    /// A YAML front matter block with its text.
    Yaml(String),
    /// Any other node.
    Other,
}

pub struct FrontmatterView {
    pub date: Seq<char>,
    pub description: Option<Seq<char>>,
    pub keywords: Option<Seq<char>>,
    pub title: Seq<char>,
    pub publish: Option<Seq<char>>,
    pub light_theme: bool,
}

pub struct PostView {
    pub file_name: Seq<char>,
    pub frontmatter: FrontmatterView,
    pub full_path: Seq<char>,
    pub html: Seq<char>,
    pub permalink: Seq<char>,
}

pub enum ParseErrorView {
    Io(Seq<char>),
    MissingFrontMatter,
    InvalidFrontMatter(Seq<char>),
    MissingField(Seq<char>),
}

/// The characters of an optional string.
pub open spec fn text_of(value: Option<String>) -> Option<Seq<char>> {
    match value {
        Some(s) => Some(s@),
        None => None,
    }
}

impl View for FrontmatterData {
    type V = FrontmatterView;

    open spec fn view(&self) -> FrontmatterView {
        FrontmatterView {
            date: self.date@,
            description: text_of(self.description),
            keywords: text_of(self.keywords),
            title: self.title@,
            publish: text_of(self.publish),
            light_theme: self.light_theme,
        }
    }
}

impl View for Post {
    type V = PostView;

    open spec fn view(&self) -> PostView {
        PostView {
            file_name: self.file_name@,
            frontmatter: self.frontmatter@,
            full_path: self.full_path@,
            html: self.html@,
            permalink: self.permalink@,
        }
    }
}

impl View for ParseError {
    type V = ParseErrorView;

    open spec fn view(&self) -> ParseErrorView {
        match self {
            ParseError::Io(detail) => ParseErrorView::Io(detail@),
            ParseError::MissingFrontMatter => ParseErrorView::MissingFrontMatter,
            ParseError::InvalidFrontMatter(detail) => ParseErrorView::InvalidFrontMatter(detail@),
            ParseError::MissingField(name) => ParseErrorView::MissingField(name@),
        }
    }
}

impl View for Block {
    type V = Option<Seq<char>>;

    /// The YAML text of a front matter block, nothing for any other node.
    open spec fn view(&self) -> Option<Seq<char>> {
        match self {
            Block::Yaml(text) => Some(text@),
            Block::Other => None,
        }
    }
}

/// The views of a list of posts.
pub open spec fn posts_view(posts: Seq<Post>) -> Seq<PostView> {
    posts.map_values(|p: Post| p@)
}

/// The views of the top-level nodes of a document, where there is a document.
pub open spec fn blocks_view(blocks: Option<Vec<Block>>) -> Option<Seq<Option<Seq<char>>>> {
    match blocks {
        Some(nodes) => Some(nodes@.map_values(|b: Block| b@)),
        None => None,
    }
}

/// A YAML result by its characters.
pub open spec fn fields_view(parsed: Result<Vec<(String, String)>, String>) -> Result<
    Seq<(Seq<char>, Seq<char>)>,
    Seq<char>,
> {
    match parsed {
        Ok(entries) => Ok(pairs_of(entries@)),
        Err(detail) => Err(detail@),
    }
}

pub open spec fn frontmatter_result_view(result: Result<FrontmatterData, ParseError>) -> Result<
    FrontmatterView,
    ParseErrorView,
> {
    match result {
        Ok(data) => Ok(data@),
        Err(e) => Err(e@),
    }
}

pub open spec fn post_result_view(result: Result<Post, ParseError>) -> Result<
    PostView,
    ParseErrorView,
> {
    match result {
        Ok(post) => Ok(post@),
        Err(e) => Err(e@),
    }
}

impl FrontmatterData {
    /// A post is a draft exactly when its `publish` value is `draft`.
    pub open spec fn draft(view: FrontmatterView) -> bool {
        view.publish == Some("draft"@)
    }

    pub fn is_draft(&self) -> (draft: bool)
        ensures
            draft == Self::draft(self@),
    {
        match &self.publish {
            Some(state) => crate::text::same_text(state.as_str(), "draft"),
            None => false,
        }
    }

    /// The style class of the page: `light` for a post that asks for the light
    /// theme, nothing otherwise.
    pub open spec fn theme(view: FrontmatterView) -> Seq<char> {
        if view.light_theme {
            "light"@
        } else {
            ""@
        }
    }

    pub fn theme_class(&self) -> (class: &'static str)
        ensures
            class@ == Self::theme(self@),
    {
        if self.light_theme {
            "light"
        } else {
            ""
        }
    }
}

impl ParseError {
    /// The error in words.
    pub open spec fn described(view: ParseErrorView) -> Seq<char> {
        match view {
            ParseErrorView::Io(detail) => "could not read the file: "@ + detail,
            ParseErrorView::MissingFrontMatter => "the document has no front matter block"@,
            ParseErrorView::InvalidFrontMatter(detail) => "the front matter is not valid: "@
                + detail,
            ParseErrorView::MissingField(name) => "the front matter lacks the field "@ + name,
        }
    }

    pub fn message(&self) -> (text: String)
        ensures
            text@ == Self::described(self@),
    {
        match self {
            ParseError::Io(detail) => "could not read the file: ".to_owned().concat(
                detail.as_str(),
            ),
            ParseError::MissingFrontMatter => "the document has no front matter block".to_owned(),
            ParseError::InvalidFrontMatter(detail) => "the front matter is not valid: ".to_owned()
                .concat(detail.as_str()),
            ParseError::MissingField(name) => "the front matter lacks the field ".to_owned().concat(
                name.as_str(),
            ),
        }
    }
}

/// The HTML that the markdown engine compiles a document to.
pub uninterp spec fn rendered_html(source: Seq<char>) -> Seq<char>;

/// The top-level nodes that the markdown engine finds in a document, each by
/// the YAML text it holds if it is a front matter block; nothing where the
/// engine gives no tree.
pub uninterp spec fn document_blocks(source: Seq<char>) -> Option<Seq<Option<Seq<char>>>>;

/// What the YAML reader makes of a text that should hold a mapping from
/// strings to strings: the entries in the order of their keys, or the
/// reader's message.
pub uninterp spec fn yaml_fields(text: Seq<char>) -> Result<Seq<(Seq<char>, Seq<char>)>, Seq<char>>;

/// Calls `markdown::to_html_with_options`, with raw HTML let through and
/// front matter recognised; an error of the engine gives the empty string.
/// The result is taken to depend on the source text alone.
#[verifier::external_body]
pub(crate) fn parse_html(post_markdown: &str) -> (html: String)
    ensures
        html@ == rendered_html(post_markdown@),
{
    let compile = CompileOptions { allow_dangerous_html: true, ..CompileOptions::default() };
    let constructs = Constructs { frontmatter: true, ..Constructs::default() };
    let parse = ParseOptions { constructs, ..ParseOptions::default() };
    markdown::to_html_with_options(post_markdown, &Options { compile, parse }).unwrap_or_default()
}

/// Calls `markdown::to_mdast` with the GFM constructs and front matter, and
/// hands out the children of the root, one `Block` for each. The result is
/// taken to depend on the source text alone.
#[verifier::external_body]
pub(crate) fn parse_blocks(source: &str) -> (blocks: Option<Vec<Block>>)
    ensures
        blocks_view(blocks) == document_blocks(source@),
{
    let constructs = Constructs { frontmatter: true, ..Constructs::gfm() };
    let options = ParseOptions { constructs, ..ParseOptions::default() };
    let tree = markdown::to_mdast(source, &options).ok()?;
    let nodes = tree.children()?;
    Some(nodes.iter().map(|node| match node {
        Node::Yaml(yaml) => Block::Yaml(yaml.value.clone()),
        _ => Block::Other,
    }).collect())
}

/// Calls `serde_yaml::from_str` for a map from strings to strings and hands
/// out its entries, or the text of the error. The result is taken to depend
/// on the YAML text alone.
#[verifier::external_body]
pub(crate) fn parse_yaml_fields(text: &str) -> (parsed: Result<Vec<(String, String)>, String>)
    ensures
        fields_view(parsed) == yaml_fields(text@),
{
    match serde_yaml::from_str::<BTreeMap<String, String>>(text) {
        Ok(map) => Ok(map.into_iter().collect()),
        Err(e) => Err(e.to_string()),
    }
}

/// The path segment under which a post with this title is published.
pub open spec fn permalink_of(title: Seq<char>) -> Seq<char> {
    replaced(lowercased(title), " "@, "-"@)
}

/// Puts a hyphen in the place of every space of a title already in lower case.
pub fn permalink_from_lowercase(lowercase: &str) -> (permalink: String)
    ensures
        permalink@ == replaced(lowercase@, " "@, "-"@),
{
    replace(lowercase, " ", "-")
}

pub fn get_permalink_from_title(post_title: &String) -> (permalink: String)
    ensures
        permalink@ == permalink_of(post_title@),
{
    let lowercase = to_lowercase(post_title.as_str());
    permalink_from_lowercase(lowercase.as_str())
}

/// The value under `key`, if there is one.
pub open spec fn field(fields: Map<Seq<char>, Seq<char>>, key: Seq<char>) -> Option<Seq<char>> {
    if fields.dom().contains(key) {
        Some(fields[key])
    } else {
        None
    }
}

/// `key` has a value, and the value is not empty.
pub open spec fn filled(fields: Map<Seq<char>, Seq<char>>, key: Seq<char>) -> bool {
    fields.dom().contains(key) && fields[key].len() > 0
}

/// The front matter that a mapping of keys to values stands for: `title` and
/// `date` are required, the other keys are taken where they are present.
pub open spec fn frontmatter_of(fields: Map<Seq<char>, Seq<char>>) -> Result<
    FrontmatterView,
    ParseErrorView,
> {
    if !filled(fields, "title"@) {
        Err(ParseErrorView::MissingField("title"@))
    } else if !filled(fields, "date"@) {
        Err(ParseErrorView::MissingField("date"@))
    } else {
        Ok(
            FrontmatterView {
                date: fields["date"@],
                description: field(fields, "description"@),
                keywords: field(fields, "keywords"@),
                title: fields["title"@],
                publish: field(fields, "publish"@),
                light_theme: field(fields, "lightTheme"@) == Some("true"@),
            },
        )
    }
}

fn optional_field(fields: &StringMap, key: &str) -> (value: Option<String>)
    ensures
        text_of(value) == field(fields@, key@),
{
    match fields.get(key) {
        Some(v) => Some(v.clone()),
        None => None,
    }
}

fn required_field(fields: &StringMap, key: &str) -> (value: Option<String>)
    ensures
        match value {
            Some(v) => filled(fields@, key@) && v@ == fields@[key@],
            None => !filled(fields@, key@),
        },
{
    match fields.get(key) {
        Some(v) => {
            if v.as_str().unicode_len() == 0 {
                None
            } else {
                Some(v.clone())
            }
        },
        None => None,
    }
}

/// Reads the front matter out of the mapping that its YAML block holds.
pub fn frontmatter_from_fields(fields: &StringMap) -> (result: Result<FrontmatterData, ParseError>)
    ensures
        frontmatter_result_view(result) == frontmatter_of(fields@),
{
    let title = match required_field(fields, "title") {
        Some(title) => title,
        None => {
            return Err(ParseError::MissingField("title".to_owned()));
        },
    };
    let date = match required_field(fields, "date") {
        Some(date) => date,
        None => {
            return Err(ParseError::MissingField("date".to_owned()));
        },
    };
    let light_theme = match fields.get("lightTheme") {
        Some(flag) => crate::text::same_text(flag.as_str(), "true"),
        None => false,
    };
    Ok(
        FrontmatterData {
            date,
            description: optional_field(fields, "description"),
            keywords: optional_field(fields, "keywords"),
            title,
            publish: optional_field(fields, "publish"),
            light_theme,
        },
    )
}

/// The front matter that the result of the YAML reader stands for.
pub open spec fn yaml_frontmatter(parsed: Result<Seq<(Seq<char>, Seq<char>)>, Seq<char>>) -> Result<
    FrontmatterView,
    ParseErrorView,
> {
    match parsed {
        Ok(pairs) => frontmatter_of(pairs_map(pairs)),
        Err(detail) => Err(ParseErrorView::InvalidFrontMatter(detail)),
    }
}

/// Reads the front matter out of what the YAML reader returned.
pub fn frontmatter_from_yaml(parsed: Result<Vec<(String, String)>, String>) -> (result: Result<
    FrontmatterData,
    ParseError,
>)
    ensures
        frontmatter_result_view(result) == yaml_frontmatter(fields_view(parsed)),
{
    match parsed {
        Ok(entries) => {
            let fields = StringMap::from_entries(entries);
            frontmatter_from_fields(&fields)
        },
        Err(detail) => Err(ParseError::InvalidFrontMatter(detail)),
    }
}

/// The front matter that a top-level node holds: only a YAML block has one.
pub open spec fn block_frontmatter(block: Option<Seq<char>>) -> Result<
    FrontmatterView,
    ParseErrorView,
> {
    match block {
        Some(yaml) => yaml_frontmatter(yaml_fields(yaml)),
        None => Err(ParseErrorView::MissingFrontMatter),
    }
}

pub fn parse_frontmatter_data(frontmatter_data: &Block) -> (result: Result<
    FrontmatterData,
    ParseError,
>)
    ensures
        frontmatter_result_view(result) == block_frontmatter(frontmatter_data@),
{
    match frontmatter_data {
        Block::Yaml(text) => frontmatter_from_yaml(parse_yaml_fields(text.as_str())),
        Block::Other => Err(ParseError::MissingFrontMatter),
    }
}

/// The first top-level node of a document, by its YAML text: nothing where
/// there is no tree, no node, or a first node that is no front matter block.
pub open spec fn leading_block(blocks: Option<Seq<Option<Seq<char>>>>) -> Option<Seq<char>> {
    match blocks {
        Some(nodes) => if nodes.len() > 0 {
            nodes[0]
        } else {
            None
        },
        None => None,
    }
}

/// The post that a document gives, from its compiled HTML and its top-level nodes.
pub open spec fn assembled(
    file_name: Seq<char>,
    full_path: Seq<char>,
    html: Seq<char>,
    blocks: Option<Seq<Option<Seq<char>>>>,
) -> Result<PostView, ParseErrorView> {
    match block_frontmatter(leading_block(blocks)) {
        Ok(frontmatter) => Ok(
            PostView {
                file_name,
                frontmatter,
                full_path,
                html,
                permalink: permalink_of(frontmatter.title),
            },
        ),
        Err(e) => Err(e),
    }
}

/// Builds the post of a document from what the markdown engine made of it.
pub fn assemble_post(
    full_path: &str,
    file_name: &str,
    html: String,
    blocks: Option<Vec<Block>>,
) -> (result: Result<Post, ParseError>)
    ensures
        post_result_view(result) == assembled(file_name@, full_path@, html@, blocks_view(blocks)),
{
    let nodes = match blocks {
        Some(nodes) => nodes,
        None => {
            return Err(ParseError::MissingFrontMatter);
        },
    };
    if nodes.len() == 0 {
        return Err(ParseError::MissingFrontMatter);
    }
    let frontmatter = match parse_frontmatter_data(&nodes[0]) {
        Ok(frontmatter) => frontmatter,
        Err(e) => {
            return Err(e);
        },
    };
    let permalink = get_permalink_from_title(&frontmatter.title);
    Ok(
        Post {
            file_name: file_name.to_owned(),
            frontmatter,
            full_path: full_path.to_owned(),
            html,
            permalink,
        },
    )
}

/// What parsing a document gives: a function of the file's identity and text.
pub open spec fn parse_outcome(file_name: Seq<char>, full_path: Seq<char>, source: Seq<char>) -> Result<
    PostView,
    ParseErrorView,
> {
    assembled(file_name, full_path, rendered_html(source), document_blocks(source))
}

pub fn parse_post(full_path: &str, file_name: &str, post_markdown: &str) -> (result: Result<
    Post,
    ParseError,
>)
    ensures
        post_result_view(result) == parse_outcome(file_name@, full_path@, post_markdown@),
{
    let parsed_post_html = parse_html(post_markdown);
    let blocks = parse_blocks(post_markdown);
    assemble_post(full_path, file_name, parsed_post_html, blocks)
}

/// What one directory entry gives: its post, or the reason why it has none.
pub open spec fn file_outcome(file: SourceFile) -> Result<PostView, ParseErrorView> {
    match file.contents {
        Ok(text) => parse_outcome(file.file_name@, file.full_path@, text@),
        Err(detail) => Err(ParseErrorView::Io(detail@)),
    }
}

/// The posts of the files that parse, in the order of the files.
pub open spec fn loaded(files: Seq<SourceFile>) -> Seq<PostView>
    decreases files.len(),
{
    if files.len() == 0 {
        Seq::empty()
    } else {
        match file_outcome(files.last()) {
            Ok(post) => loaded(files.drop_last()).push(post),
            Err(_) => loaded(files.drop_last()),
        }
    }
}

/// The files that do not parse, each with its reason, in the order of the files.
pub open spec fn skipped(files: Seq<SourceFile>) -> Seq<(Seq<char>, ParseErrorView)>
    decreases files.len(),
{
    if files.len() == 0 {
        Seq::empty()
    } else {
        match file_outcome(files.last()) {
            Ok(_) => skipped(files.drop_last()),
            Err(e) => skipped(files.drop_last()).push((files.last().file_name@, e)),
        }
    }
}

/// The views of a list of failures.
pub open spec fn failures_view(failures: Seq<LoadFailure>) -> Seq<(Seq<char>, ParseErrorView)> {
    failures.map_values(|f: LoadFailure| (f.file_name@, f.error@))
}

/// Parses one directory entry.
pub fn parse_file(file: &SourceFile) -> (result: Result<Post, ParseError>)
    ensures
        post_result_view(result) == file_outcome(*file),
{
    match &file.contents {
        Ok(text) => parse_post(file.full_path.as_str(), file.file_name.as_str(), text.as_str()),
        Err(detail) => Err(ParseError::Io(detail.clone())),
    }
}

/// Parses every file; a file that fails is skipped and reported, the others
/// give their posts in the order in which the files came.
pub fn load_all(files: &Vec<SourceFile>) -> (report: LoadReport)
    ensures
        posts_view(report.posts@) == loaded(files@),
        failures_view(report.failures@) == skipped(files@),
{
    let mut posts: Vec<Post> = Vec::new();
    let mut failures: Vec<LoadFailure> = Vec::new();
    let mut i: usize = 0;
    while i < files.len()
        invariant
            i <= files@.len(),
            posts_view(posts@) == loaded(files@.take(i as int)),
            failures_view(failures@) == skipped(files@.take(i as int)),
        decreases files@.len() - i,
    {
        proof {
            assert(files@.take(i + 1).drop_last() =~= files@.take(i as int));
            assert(files@.take(i + 1).last() == files@[i as int]);
        }
        let ghost posts_before = posts@;
        let ghost failures_before = failures@;
        match parse_file(&files[i]) {
            Ok(post) => {
                posts.push(post);
                assert(posts_view(posts@) =~= posts_view(posts_before).push(post@));
            },
            Err(error) => {
                let failure = LoadFailure { file_name: files[i].file_name.clone(), error };
                failures.push(failure);
                assert(failures_view(failures@) =~= failures_view(failures_before).push(
                    (failure.file_name@, failure.error@),
                ));
            },
        }
        i = i + 1;
    }
    assert(files@.take(files@.len() as int) =~= files@);
    LoadReport { posts, failures }
}

pub fn get_posts(files: &Vec<SourceFile>) -> (parsed_posts: Vec<Post>)
    ensures
        posts_view(parsed_posts@) == loaded(files@),
{
    load_all(files).posts
}

/// What reading a content directory gives: a directory that cannot be listed
/// fails as a whole, a listed one gives the posts of the files that parse.
pub open spec fn directory_outcome(listing: Result<Vec<SourceFile>, String>) -> Result<
    Seq<PostView>,
    ParseErrorView,
> {
    match listing {
        Ok(files) => Ok(loaded(files@)),
        Err(detail) => Err(ParseErrorView::Io(detail@)),
    }
}

/// Loads the posts of a directory from its listing, or from the reason why
/// it could not be listed.
pub fn load_directory(listing: Result<Vec<SourceFile>, String>) -> (result: Result<
    LoadReport,
    ParseError,
>)
    ensures
        match result {
            Ok(report) => directory_outcome(listing) == Ok::<Seq<PostView>, ParseErrorView>(
                posts_view(report.posts@),
            ) && listing is Ok && failures_view(report.failures@) == skipped(listing->Ok_0@),
            Err(e) => directory_outcome(listing) == Err::<Seq<PostView>, ParseErrorView>(e@),
        },
{
    match listing {
        Ok(files) => Ok(load_all(&files)),
        Err(detail) => Err(ParseError::Io(detail)),
    }
}

/// A document whose first node is a YAML mapping with a non-empty `title` and
/// `date` parses, keeps both values, and gets the permalink of its title.
pub proof fn lemma_parse_round_trip(
    file_name: Seq<char>,
    full_path: Seq<char>,
    source: Seq<char>,
    title: Seq<char>,
    date: Seq<char>,
)
    requires
        leading_block(document_blocks(source)) is Some,
        yaml_fields(leading_block(document_blocks(source))->0) is Ok,
        ({
            let fields = pairs_map(yaml_fields(leading_block(document_blocks(source))->0)->Ok_0);
            &&& field(fields, "title"@) == Some(title)
            &&& field(fields, "date"@) == Some(date)
        }),
        title.len() > 0,
        date.len() > 0,
    ensures
        parse_outcome(file_name, full_path, source) is Ok,
        parse_outcome(file_name, full_path, source)->Ok_0.frontmatter.title == title,
        parse_outcome(file_name, full_path, source)->Ok_0.frontmatter.date == date,
        parse_outcome(file_name, full_path, source)->Ok_0.permalink == replaced(
            lowercased(title),
            " "@,
            "-"@,
        ),
{
}

/// Parsing is a function of the file: two results for the same file name,
/// path and text are the same, error or post.
pub proof fn lemma_parse_deterministic(
    full_path: &str,
    file_name: &str,
    post_markdown: &str,
    first: Result<Post, ParseError>,
    second: Result<Post, ParseError>,
)
    requires
        post_result_view(first) == parse_outcome(file_name@, full_path@, post_markdown@),
        post_result_view(second) == parse_outcome(file_name@, full_path@, post_markdown@),
    ensures
        post_result_view(first) == post_result_view(second),
{
}

/// A file that fails to parse adds nothing to the posts that are loaded, and
/// a file that parses adds its post after those of the files before it.
pub proof fn lemma_loaded_push(files: Seq<SourceFile>, file: SourceFile)
    ensures
        file_outcome(file) is Err ==> loaded(files.push(file)) == loaded(files),
        file_outcome(file) is Ok ==> loaded(files.push(file)) == loaded(files).push(
            file_outcome(file)->Ok_0,
        ),
{
    assert(files.push(file).drop_last() =~= files);
}

/// Loading treats each file by itself: the posts of two lists of files, one
/// after the other, are the posts of the first followed by those of the second.
pub proof fn lemma_loaded_concat(first: Seq<SourceFile>, second: Seq<SourceFile>)
    ensures
        loaded(first + second) == loaded(first) + loaded(second),
    decreases second.len(),
{
    if second.len() == 0 {
        assert(first + second =~= first);
        assert(loaded(first) + loaded(second) =~= loaded(first));
    } else {
        lemma_loaded_concat(first, second.drop_last());
        assert((first + second).drop_last() =~= first + second.drop_last());
        assert((first + second).last() == second.last());
        match file_outcome(second.last()) {
            Ok(post) => {
                assert(loaded(first + second) =~= loaded(first) + loaded(second));
            },
            Err(_) => {},
        }
    }
}

/// Every file is either loaded or skipped: the posts and the failures
/// together are as many as the files.
pub proof fn lemma_loaded_or_skipped(files: Seq<SourceFile>)
    ensures
        loaded(files).len() + skipped(files).len() == files.len(),
    decreases files.len(),
{
    if files.len() > 0 {
        lemma_loaded_or_skipped(files.drop_last());
    }
}

/// A front matter without a non-empty `title` is refused for that field,
/// whatever else it holds; with a title but without a non-empty `date`, for
/// the date.
pub proof fn lemma_missing_field(fields: Map<Seq<char>, Seq<char>>)
    ensures
        !filled(fields, "title"@) ==> frontmatter_of(fields) == Err::<
            FrontmatterView,
            ParseErrorView,
        >(ParseErrorView::MissingField("title"@)),
        filled(fields, "title"@) && !filled(fields, "date"@) ==> frontmatter_of(fields) == Err::<
            FrontmatterView,
            ParseErrorView,
        >(ParseErrorView::MissingField("date"@)),
        filled(fields, "title"@) && filled(fields, "date"@) ==> frontmatter_of(fields) is Ok,
{
}

/// A front matter that is accepted is a draft exactly when its `publish`
/// value is `draft`; without a `publish` key, or with any other value, it is not.
pub proof fn lemma_draft_detection(fields: Map<Seq<char>, Seq<char>>)
    requires
        frontmatter_of(fields) is Ok,
    ensures
        FrontmatterData::draft(frontmatter_of(fields)->Ok_0) <==> field(fields, "publish"@)
            == Some("draft"@),
        field(fields, "publish"@) is None ==> !FrontmatterData::draft(frontmatter_of(fields)->Ok_0),
{
}

/// No two posts of the list share a permalink.
pub open spec fn permalinks_distinct(posts: Seq<PostView>) -> bool {
    forall|i: int, j: int|
        0 <= i < j < posts.len() ==> (#[trigger] posts[i]).permalink != (
        #[trigger] posts[j]).permalink
}

/// The first pair of posts that share a permalink, if there is one: the
/// later post of the pair has the lowest index that repeats a permalink,
/// the earlier is the first post with that permalink.
pub fn find_permalink_collision(posts: &Vec<Post>) -> (pair: Option<(usize, usize)>)
    ensures
        match pair {
            Some((first, second)) => {
                &&& first < second < posts@.len()
                &&& posts@[first as int].permalink@ == posts@[second as int].permalink@
                &&& permalinks_distinct(posts_view(posts@).take(second as int))
                &&& forall|k: int|
                    0 <= k < first ==> posts@[k].permalink@ != posts@[second as int].permalink@
            },
            None => permalinks_distinct(posts_view(posts@)),
        },
{
    let ghost views = posts_view(posts@);
    let mut j: usize = 0;
    while j < posts.len()
        invariant
            j <= posts@.len(),
            views == posts_view(posts@),
            permalinks_distinct(views.take(j as int)),
        decreases posts@.len() - j,
    {
        let mut i: usize = 0;
        while i < j
            invariant
                i <= j < posts@.len(),
                views == posts_view(posts@),
                permalinks_distinct(views.take(j as int)),
                forall|k: int| 0 <= k < i ==> posts@[k].permalink@ != posts@[j as int].permalink@,
            decreases j - i,
        {
            if crate::text::same_text(posts[i].permalink.as_str(), posts[j].permalink.as_str()) {
                return Some((i, j));
            }
            i = i + 1;
        }
        proof {
            let next = views.take(j + 1);
            assert forall|a: int, b: int| 0 <= a < b < next.len() implies (#[trigger] next[a]).permalink
                != (#[trigger] next[b]).permalink by {
                if b < j {
                    assert(views.take(j as int)[a] == next[a]);
                    assert(views.take(j as int)[b] == next[b]);
                }
            }
        }
        j = j + 1;
    }
    assert(views.take(posts@.len() as int) =~= views);
    None
}

} // verus!
