use vstd::prelude::*;
use crate::dates::{earlier, iso_date, lemma_iso_dates_order_as_days, writable, Day};
use crate::parser::{loaded, posts_view, Post, PostView, SourceFile};
use crate::plugin::{Plugin, PluginError, PluginErrorView, Site, SiteView};
use crate::text::{lemma_lex_total, lemma_lex_transitive, lex_lt, str_lt};

verus! {

/// Where a post with this date goes in a list that is ordered newest first:
/// behind every post with a later date, before the first with the same date
/// or an earlier one.
pub open spec fn slot(sorted: Seq<PostView>, date: Seq<char>) -> int
    decreases sorted.len(),
{
    if sorted.len() == 0 || !lex_lt(date, sorted[0].frontmatter.date) {
        0
    } else {
        1 + slot(sorted.skip(1), date)
    }
}

/// The posts ordered by date, newest first, the dates compared as strings;
/// posts of one date keep the order in which they came.
pub open spec fn newest_first(posts: Seq<PostView>) -> Seq<PostView>
    decreases posts.len(),
{
    if posts.len() == 0 {
        Seq::empty()
    } else {
        let rest = newest_first(posts.skip(1));
        rest.insert(slot(rest, posts[0].frontmatter.date), posts[0])
    }
}

/// No post of the list comes before a post with a later date.
pub open spec fn descending(posts: Seq<PostView>) -> bool {
    forall|i: int, j: int|
        0 <= i < j < posts.len() ==> !lex_lt(
            #[trigger] posts[i].frontmatter.date,
            #[trigger] posts[j].frontmatter.date,
        )
}

proof fn lemma_slot(sorted: Seq<PostView>, date: Seq<char>)
    ensures
        0 <= slot(sorted, date) <= sorted.len(),
        forall|i: int|
            0 <= i < slot(sorted, date) ==> lex_lt(date, #[trigger] sorted[i].frontmatter.date),
        slot(sorted, date) < sorted.len() ==> !lex_lt(
            date,
            sorted[slot(sorted, date)].frontmatter.date,
        ),
    decreases sorted.len(),
{
    if sorted.len() > 0 && lex_lt(date, sorted[0].frontmatter.date) {
        lemma_slot(sorted.skip(1), date);
        assert forall|i: int| 0 <= i < slot(sorted, date) implies lex_lt(
            date,
            #[trigger] sorted[i].frontmatter.date,
        ) by {
            if i > 0 {
                assert(sorted.skip(1)[i - 1] == sorted[i]);
            }
        }
    }
}

proof fn lemma_insert_keeps_order(sorted: Seq<PostView>, post: PostView)
    requires
        descending(sorted),
    ensures
        descending(sorted.insert(slot(sorted, post.frontmatter.date), post)),
{
    let date = post.frontmatter.date;
    let at = slot(sorted, date);
    lemma_slot(sorted, date);
    let out = sorted.insert(at, post);
    assert forall|i: int, j: int| 0 <= i < j < out.len() implies !lex_lt(
        #[trigger] out[i].frontmatter.date,
        #[trigger] out[j].frontmatter.date,
    ) by {
        if j == at {
            // out[i] is dated after the new post.
            assert(out[i] == sorted[i]);
            lemma_lex_total(date, sorted[i].frontmatter.date);
        } else if i == at {
            // out[j] lies at or behind the slot, so it is no newer than sorted[at].
            assert(out[j] == sorted[j - 1]);
            let head = sorted[at].frontmatter.date;
            let other = sorted[j - 1].frontmatter.date;
            if lex_lt(date, other) {
                if j - 1 > at {
                    lemma_lex_total(head, other);
                    lemma_lex_total(date, head);
                    if date != head {
                        lemma_lex_transitive(head, date, other);
                    }
                }
            }
        } else {
            let a = if i < at {
                i
            } else {
                i - 1
            };
            let b = if j < at {
                j
            } else {
                j - 1
            };
            assert(out[i] == sorted[a]);
            assert(out[j] == sorted[b]);
        }
    }
}

/// The ordered list holds no post before one with a later date.
pub proof fn lemma_newest_first_descending(posts: Seq<PostView>)
    ensures
        descending(newest_first(posts)),
    decreases posts.len(),
{
    if posts.len() > 0 {
        lemma_newest_first_descending(posts.skip(1));
        lemma_insert_keeps_order(newest_first(posts.skip(1)), posts[0]);
    }
}

/// Ordering neither drops nor adds a post: the ordered list holds each post
/// as often as the list it was made from.
pub proof fn lemma_newest_first_permutes(posts: Seq<PostView>)
    ensures
        newest_first(posts).len() == posts.len(),
        newest_first(posts).to_multiset() == posts.to_multiset(),
    decreases posts.len(),
{
    if posts.len() == 0 {
        assert(newest_first(posts) =~= posts);
    } else {
        let rest = newest_first(posts.skip(1));
        lemma_newest_first_permutes(posts.skip(1));
        lemma_slot(rest, posts[0].frontmatter.date);
        let at = slot(rest, posts[0].frontmatter.date);
        vstd::seq_lib::to_multiset_insert(rest, at, posts[0]);
        vstd::seq_lib::to_multiset_insert(posts.skip(1), 0, posts[0]);
        assert(posts.skip(1).insert(0, posts[0]) =~= posts);
    }
}

/// A list that is already ordered newest first stays as it is.
pub proof fn lemma_newest_first_fixes_sorted(posts: Seq<PostView>)
    requires
        descending(posts),
    ensures
        newest_first(posts) == posts,
    decreases posts.len(),
{
    if posts.len() > 0 {
        let tail = posts.skip(1);
        assert(descending(tail)) by {
            assert forall|i: int, j: int| 0 <= i < j < tail.len() implies !lex_lt(
                #[trigger] tail[i].frontmatter.date,
                #[trigger] tail[j].frontmatter.date,
            ) by {
                assert(tail[i] == posts[i + 1]);
                assert(tail[j] == posts[j + 1]);
            }
        }
        lemma_newest_first_fixes_sorted(tail);
        if tail.len() > 0 {
            assert(tail[0] == posts[1]);
            assert(!lex_lt(posts[0].frontmatter.date, posts[1].frontmatter.date));
        }
        assert(tail.insert(0, posts[0]) =~= posts);
    }
}

/// In a list that is ordered newest first, of two posts whose dates are the
/// dates of days of the calendar the one that stands first has no earlier day.
pub proof fn lemma_descending_is_chronological(
    posts: Seq<PostView>,
    i: int,
    j: int,
    first: Day,
    second: Day,
)
    requires
        descending(posts),
        0 <= i < j < posts.len(),
        writable(first),
        writable(second),
        posts[i].frontmatter.date == iso_date(first),
        posts[j].frontmatter.date == iso_date(second),
    ensures
        !earlier(first, second),
{
    lemma_iso_dates_order_as_days(first, second);
}

/// Orders the posts by date, newest first.
pub fn sort_newest_first(posts: Vec<Post>) -> (sorted: Vec<Post>)
    ensures
        posts_view(sorted@) == newest_first(posts_view(posts@)),
{
    let ghost all = posts_view(posts@);
    let mut rest = posts;
    let mut sorted: Vec<Post> = Vec::new();
    assert(all.skip(all.len() as int) =~= Seq::<PostView>::empty());
    assert(posts_view(sorted@) =~= Seq::<PostView>::empty());
    while rest.len() > 0
        invariant
            rest@.len() <= all.len(),
            posts_view(rest@) == all.take(rest@.len() as int),
            posts_view(sorted@) == newest_first(all.skip(rest@.len() as int)),
        decreases rest@.len(),
    {
        let ghost before = rest@;
        let ghost done = posts_view(sorted@);
        let post = rest.pop().unwrap();
        let ghost k = rest@.len() as int;
        proof {
            assert(post@ == all[k]) by {
                assert(posts_view(before)[k] == all.take(before.len() as int)[k]);
            }
            assert(posts_view(rest@) =~= all.take(k)) by {
                assert forall|i: int| 0 <= i < k implies posts_view(rest@)[i] == all.take(k)[i] by {
                    assert(posts_view(before)[i] == all.take(before.len() as int)[i]);
                }
            }
            assert(all.skip(k).skip(1) =~= all.skip(k + 1));
            assert(all.skip(k)[0] == all[k]);
            assert(done.skip(0) =~= done);
        }
        let mut at: usize = 0;
        while at < sorted.len() && str_lt(
            post.frontmatter.date.as_str(),
            sorted[at].frontmatter.date.as_str(),
        )
            invariant
                at <= sorted@.len(),
                done == posts_view(sorted@),
                slot(done, post@.frontmatter.date) == at + slot(
                    done.skip(at as int),
                    post@.frontmatter.date,
                ),
            decreases sorted@.len() - at,
        {
            proof {
                assert(done.skip(at as int)[0] == sorted@[at as int]@);
                assert(done.skip(at as int).skip(1) =~= done.skip(at + 1));
            }
            at = at + 1;
        }
        proof {
            if at < sorted@.len() {
                assert(done.skip(at as int)[0] == sorted@[at as int]@);
            }
        }
        sorted.insert(at, post);
        assert(posts_view(sorted@) =~= done.insert(at as int, post@));
    }
    assert(all.skip(0) =~= all);
    sorted
}

/// Finds the posts of the site: parses the files of the content directory
/// and orders the posts that result, newest first.
pub struct PostsPlugin {
    pub listing: Result<Vec<SourceFile>, String>,
}

impl PostsPlugin {
    /// The stage for a content directory as it was read: its files, or the
    /// reason why it could not be listed.
    pub fn new(listing: Result<Vec<SourceFile>, String>) -> (plugin: PostsPlugin)
        ensures
            plugin.listing == listing,
    {
        PostsPlugin { listing }
    }
}

impl Plugin for PostsPlugin {
    /// A directory that was listed gives the site its posts, newest first;
    /// one that could not be listed fails the stage and leaves the site as it is.
    open spec fn effect(
        &self,
        before: SiteView,
        after: SiteView,
        failure: Option<PluginErrorView>,
    ) -> bool {
        match self.listing {
            Ok(files) => failure is None && after == (SiteView {
                posts: newest_first(loaded(files@)),
                ..before
            }),
            Err(detail) => failure == Some(PluginErrorView::Io(detail@)) && after == before,
        }
    }

    open spec fn named(&self, name: Seq<char>) -> bool {
        name == "posts"@
    }

    fn name(&self) -> (name: &str) {
        "posts"
    }

    fn run(&self, site: &mut Site) -> (result: Result<(), PluginError>) {
        match &self.listing {
            Ok(files) => {
                let posts = crate::parser::get_posts(files);
                site.posts = sort_newest_first(posts);
                Ok(())
            },
            Err(detail) => Err(PluginError::Io(detail.clone())),
        }
    }
}

} // verus!
