//! CRUD orchestration over posts, enforcing ownership.
//!
//! The owner of a new post is always the authenticated identity, never a
//! client-supplied value. Mutation and deletion check ownership before
//! touching anything: a non-owner's call is `Forbidden` even though the
//! post exists and the requester is authenticated, and leaves the store
//! exactly as it was.

use vstd::prelude::*;

use crate::blog_repository::{
    apply_update, lemma_post_author_of_contained, post_author, post_present, posts_wf,
    BlogRepository,
};
use crate::error::BlogError;
use crate::post::{CreatePost, Post, PostView, UpdatePost};

verus! {

/// Orchestrates the post store.
pub struct BlogService<R: BlogRepository> {
    repo: R,
}

impl<R: BlogRepository> BlogService<R> {
    /// The posts of the underlying store.
    pub closed spec fn posts(&self) -> Seq<PostView> {
        self.repo.posts()
    }

    /// The service's invariant: the store contents are well-formed, so an
    /// identifier names at most one post.
    pub closed spec fn inv(&self) -> bool {
        posts_wf(self.repo.posts())
    }

    pub fn new(repo: R) -> (r: Self)
        ensures
            r.posts() == repo.posts(),
            r.inv() <==> posts_wf(repo.posts()),
    {
        BlogService { repo }
    }

    /// Creates a post owned by `author_id` and stamped with `now`. It
    /// succeeds on every valid input; any failure is internal and leaves
    /// the store unchanged.
    pub fn create_post(&mut self, title: String, content: String, author_id: i64, now: i64) -> (r:
        Result<Post, BlogError>)
        requires
            old(self).inv(),
        ensures
            final(self).inv(),
            r matches Ok(p) ==> {
                &&& p@.title == title@
                &&& p@.content == content@
                &&& p@.author_id == author_id as int
                &&& p@.created_at == now as int
                &&& p@.updated_at == now as int
                &&& !post_present(old(self).posts(), p@.id)
                &&& final(self).posts() == old(self).posts().push(p@)
            },
            r is Err ==> final(self).posts() == old(self).posts(),
            r matches Err(e) ==> (e matches BlogError::Internal(_) || e matches BlogError::DatabaseError(_)),
    {
        let create_post = CreatePost::new(title, content);
        let ghost prior = self.posts();
        match self.repo.create(author_id, create_post, now) {
            Ok(p) => {
                proof {
                    let grown = self.posts();
                    assert forall|i: int, j: int| 0 <= i < j < grown.len() implies (
                    #[trigger] grown[i]).id != (#[trigger] grown[j]).id by {
                        if j == grown.len() - 1 {
                            assert(grown[i] == prior[i]);
                            assert(!(prior[i].id == p@.id));
                        } else {
                            assert(grown[i] == prior[i] && grown[j] == prior[j]);
                        }
                    }
                }
                Ok(p)
            },
            Err(e) => Err(BlogError::from(e)),
        }
    }

    /// Updates title and content of post `post_id` on behalf of requester
    /// `author_id`, stamping it with `now`. The ownership check precedes
    /// any mutation: a missing post is `PostNotFound`; a requester that is
    /// not the owner gets `Forbidden` — even though the post exists — and
    /// the store stays exactly as it was; only the owner's call rewrites
    /// the post, and only that post.
    pub fn update_post(&mut self, post_id: i64, author_id: i64, update_post: UpdatePost, now: i64) -> (r:
        Result<Post, BlogError>)
        requires
            old(self).inv(),
        ensures
            final(self).inv(),
            !post_present(old(self).posts(), post_id as int) ==> (r matches Err(e)
                && e matches BlogError::PostNotFound
                && final(self).posts() == old(self).posts()),
            post_present(old(self).posts(), post_id as int) && post_author(
                old(self).posts(),
                post_id as int,
            ) != author_id as int ==> (r matches Err(e) && e matches BlogError::Forbidden
                && final(self).posts() == old(self).posts()),
            post_present(old(self).posts(), post_id as int) && post_author(
                old(self).posts(),
                post_id as int,
            ) == author_id as int ==> (r matches Ok(p) && exists|i: int| {
                &&& 0 <= i < old(self).posts().len()
                &&& (#[trigger] old(self).posts()[i]).id == post_id as int
                &&& p@ == apply_update(
                    old(self).posts()[i],
                    update_post.title@,
                    update_post.content@,
                    now as int,
                )
                &&& final(self).posts() == old(self).posts().update(i, p@)
            }),
    {
        let existing = match self.repo.find_by_id(post_id) {
            Some(p) => p,
            None => {
                return Err(BlogError::PostNotFound);
            },
        };
        proof {
            lemma_post_author_of_contained(self.posts(), existing@);
        }
        if existing.author_id != author_id {
            return Err(BlogError::Forbidden);
        }
        let ghost prior = self.posts();
        match self.repo.update_post(post_id, update_post, now) {
            Ok(p) => {
                proof {
                    let grown = self.posts();
                    let i = choose|i: int| {
                        &&& 0 <= i < prior.len()
                        &&& (#[trigger] prior[i]).id == post_id as int
                        &&& p@ == apply_update(
                            prior[i],
                            update_post.title@,
                            update_post.content@,
                            now as int,
                        )
                        &&& grown == prior.update(i, p@)
                    };
                    assert forall|x: int| 0 <= x < grown.len() implies (#[trigger] grown[x]).id
                        == prior[x].id by {
                        if x != i {
                            assert(grown[x] == prior[x]);
                        }
                    }
                }
                Ok(p)
            },
            Err(_) => {
                proof {
                    assert(false);
                }
                Err(BlogError::PostNotFound)
            },
        }
    }

    /// Deletes post `post_id` on behalf of requester `author_id`, under
    /// the same ownership precondition as updating: `PostNotFound` when
    /// missing, `Forbidden` for a non-owner with the store untouched, and
    /// removal of exactly that post for the owner.
    pub fn delete_post(&mut self, post_id: i64, author_id: i64) -> (r: Result<(), BlogError>)
        requires
            old(self).inv(),
        ensures
            final(self).inv(),
            !post_present(old(self).posts(), post_id as int) ==> (r matches Err(e)
                && e matches BlogError::PostNotFound
                && final(self).posts() == old(self).posts()),
            post_present(old(self).posts(), post_id as int) && post_author(
                old(self).posts(),
                post_id as int,
            ) != author_id as int ==> (r matches Err(e) && e matches BlogError::Forbidden
                && final(self).posts() == old(self).posts()),
            post_present(old(self).posts(), post_id as int) && post_author(
                old(self).posts(),
                post_id as int,
            ) == author_id as int ==> (r is Ok && exists|i: int| {
                &&& 0 <= i < old(self).posts().len()
                &&& (#[trigger] old(self).posts()[i]).id == post_id as int
                &&& final(self).posts() == old(self).posts().remove(i)
            }),
    {
        let existing = match self.repo.find_by_id(post_id) {
            Some(p) => p,
            None => {
                return Err(BlogError::PostNotFound);
            },
        };
        proof {
            lemma_post_author_of_contained(self.posts(), existing@);
        }
        if existing.author_id != author_id {
            return Err(BlogError::Forbidden);
        }
        let ghost prior = self.posts();
        match self.repo.delete_post(post_id) {
            Ok(()) => {
                proof {
                    let grown = self.posts();
                    let i = choose|i: int| {
                        &&& 0 <= i < prior.len()
                        &&& (#[trigger] prior[i]).id == post_id as int
                        &&& grown == prior.remove(i)
                    };
                    assert forall|a: int, b: int| 0 <= a < b < grown.len() implies (
                    #[trigger] grown[a]).id != (#[trigger] grown[b]).id by {
                        let pa: int = if a < i { a } else { a + 1 };
                        let pb: int = if b < i { b } else { b + 1 };
                        assert(grown[a] == prior[pa]);
                        assert(grown[b] == prior[pb]);
                    }
                }
                Ok(())
            },
            Err(_) => {
                proof {
                    assert(false);
                }
                Err(BlogError::PostNotFound)
            },
        }
    }

    /// All posts owned by `author_id`, oldest first.
    pub fn get_posts(&self, author_id: i64) -> (r: Result<Vec<Post>, BlogError>)
        ensures
            r matches Ok(v) && v@.map_values(|p: Post| p@) == self.posts().filter(
                |p: PostView| p.author_id == author_id as int,
            ),
    {
        Ok(self.repo.get_posts(author_id))
    }

    /// Public read of one post: no ownership check by design.
    pub fn get_post(&self, post_id: i64) -> (r: Result<Option<Post>, BlogError>)
        ensures
            r matches Ok(o) && (o is Some <==> post_present(self.posts(), post_id as int)),
            r matches Ok(o) ==> (o matches Some(p) ==> p@.id == post_id as int
                && self.posts().contains(p@)),
    {
        Ok(self.repo.find_by_id(post_id))
    }
}

} // verus!
