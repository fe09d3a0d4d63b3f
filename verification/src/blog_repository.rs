//! The post store: persistence of posts with unique identifiers.
//!
//! Ownership is not the store's business: the service checks it before any
//! mutating call, so the store's contract is plain keyed CRUD.

use vstd::prelude::*;
use vstd::seq_lib::group_filter_ensures;

use crate::error::DomainError;
use crate::post::{CreatePost, Post, PostView, UpdatePost};

verus! {

/// Well-formedness of a store's contents: no two posts share an identifier.
pub open spec fn posts_wf(posts: Seq<PostView>) -> bool {
    forall|i: int, j: int|
        0 <= i < j < posts.len() ==> (#[trigger] posts[i]).id != (#[trigger] posts[j]).id
}

/// Whether some post carries `id` as its identifier.
pub open spec fn post_present(posts: Seq<PostView>, id: int) -> bool {
    exists|i: int| 0 <= i < posts.len() && (#[trigger] posts[i]).id == id
}

/// The owner of the post carrying `id`, read off the store contents;
/// meaningful when the store is well-formed, where at most one post
/// carries `id`.
pub open spec fn post_author(posts: Seq<PostView>, id: int) -> int {
    posts[choose|i: int| 0 <= i < posts.len() && (#[trigger] posts[i]).id == id].author_id
}

/// In a well-formed store, a contained post is the one its identifier
/// names, so `post_author` reads that post's owner.
pub proof fn lemma_post_author_of_contained(posts: Seq<PostView>, p: PostView)
    requires
        posts_wf(posts),
        posts.contains(p),
    ensures
        post_present(posts, p.id),
        post_author(posts, p.id) == p.author_id,
{
    let j = choose|j: int| 0 <= j < posts.len() && posts[j] == p;
    assert(0 <= j < posts.len() && (#[trigger] posts[j]).id == p.id);
    let i = choose|i: int| 0 <= i < posts.len() && (#[trigger] posts[i]).id == p.id;
    if i < j {
        assert(posts[i].id != posts[j].id);
    } else if j < i {
        assert(posts[j].id != posts[i].id);
    }
    assert(posts[i] == posts[j]);
}

/// The image of `p` after an update: fresh title, content and update
/// instant; identifier, author and creation instant untouched.
pub open spec fn apply_update(p: PostView, title: Seq<char>, content: Seq<char>, now: int) -> PostView {
    PostView {
        id: p.id,
        title,
        content,
        author_id: p.author_id,
        created_at: p.created_at,
        updated_at: now,
    }
}

/// What a post store promises. `posts()` is the stored posts in insertion
/// order; `now` is the caller's clock, stamped into the records.
pub trait BlogRepository: Sized {
    /// The stored posts, in insertion order.
    spec fn posts(&self) -> Seq<PostView>;

    /// Persists a new post under a fresh identifier, owned by `author_id`
    /// and stamped with `now`; any failure is internal and leaves the
    /// store unchanged.
    fn create(&mut self, author_id: i64, create_post: CreatePost, now: i64) -> (r: Result<
        Post,
        DomainError,
    >)
        ensures
            r matches Ok(p) ==> {
                &&& p@.title == create_post.title@
                &&& p@.content == create_post.content@
                &&& p@.author_id == author_id as int
                &&& p@.created_at == now as int
                &&& p@.updated_at == now as int
                &&& !post_present(old(self).posts(), p@.id)
                &&& final(self).posts() == old(self).posts().push(p@)
            },
            r is Err ==> final(self).posts() == old(self).posts(),
            r matches Err(e) ==> (e matches DomainError::Internal(_)
                || e matches DomainError::DatabaseError(_)),
    ;

    /// Looks a post up by identifier.
    fn find_by_id(&self, id: i64) -> (r: Option<Post>)
        ensures
            r is Some <==> post_present(self.posts(), id as int),
            r matches Some(p) ==> p@.id == id as int && self.posts().contains(p@),
    ;

    /// Replaces title and content of the post with identifier `post_id`
    /// and stamps it with `now`; `PostNotFound` when no post carries that
    /// identifier.
    fn update_post(&mut self, post_id: i64, update_post: UpdatePost, now: i64) -> (r: Result<
        Post,
        DomainError,
    >)
        ensures
            !post_present(old(self).posts(), post_id as int) ==> (r matches Err(e)
                && e matches DomainError::PostNotFound
                && final(self).posts() == old(self).posts()),
            post_present(old(self).posts(), post_id as int) ==> (r matches Ok(p)
                && exists|i: int| {
                    &&& 0 <= i < old(self).posts().len()
                    &&& (#[trigger] old(self).posts()[i]).id == post_id as int
                    &&& p@ == apply_update(
                        old(self).posts()[i],
                        update_post.title@,
                        update_post.content@,
                        now as int,
                    )
                    &&& final(self).posts() == old(self).posts().update(i, p@)
                }),
    ;

    /// Removes the post with identifier `post_id`; `PostNotFound` when no
    /// post carries that identifier.
    fn delete_post(&mut self, post_id: i64) -> (r: Result<(), DomainError>)
        ensures
            !post_present(old(self).posts(), post_id as int) ==> (r matches Err(e)
                && e matches DomainError::PostNotFound
                && final(self).posts() == old(self).posts()),
            post_present(old(self).posts(), post_id as int) ==> (r is Ok && exists|i: int| {
                &&& 0 <= i < old(self).posts().len()
                &&& (#[trigger] old(self).posts()[i]).id == post_id as int
                &&& final(self).posts() == old(self).posts().remove(i)
            }),
    ;

    /// All posts owned by `author_id`, in insertion order.
    fn get_posts(&self, author_id: i64) -> (r: Vec<Post>)
        ensures
            r@.map_values(|p: Post| p@) == self.posts().filter(
                |p: PostView| p.author_id == author_id as int,
            ),
    ;
}

/// The in-memory post store: a vector of posts plus the next free
/// identifier. Its invariant keeps identifiers unique and below `next_id`,
/// so assigned identifiers are always fresh.
pub struct InMemBlogRepository {
    posts: Vec<Post>,
    next_id: i64,
}

impl InMemBlogRepository {
    #[verifier::type_invariant]
    spec fn inv(&self) -> bool {
        &&& posts_wf(self.posts())
        &&& forall|i: int|
            0 <= i < self.posts().len() ==> (#[trigger] self.posts()[i]).id < self.next_id as int
    }

    /// An empty store; assigned identifiers start at 1.
    pub fn new() -> (r: Self)
        ensures
            r.posts() == Seq::<PostView>::empty(),
    {
        let r = InMemBlogRepository { posts: Vec::new(), next_id: 1 };
        proof {
            assert(r.posts() =~= Seq::<PostView>::empty());
        }
        r
    }

    /// The index of the post carrying `id`, or the store's length when
    /// there is none.
    fn index_of(&self, id: i64) -> (r: usize)
        ensures
            r <= self.posts().len(),
            r < self.posts().len() ==> self.posts()[r as int].id == id as int,
            r == self.posts().len() ==> !post_present(self.posts(), id as int),
    {
        let mut k: usize = 0;
        while k < self.posts.len()
            invariant
                k <= self.posts.len(),
                forall|j: int| 0 <= j < k ==> (#[trigger] self.posts()[j]).id != id as int,
            decreases self.posts.len() - k,
        {
            if self.posts[k].id == id {
                return k;
            }
            k += 1;
        }
        k
    }
}

impl BlogRepository for InMemBlogRepository {
    closed spec fn posts(&self) -> Seq<PostView> {
        self.posts@.map_values(|p: Post| p@)
    }

    fn create(&mut self, author_id: i64, create_post: CreatePost, now: i64) -> (r: Result<
        Post,
        DomainError,
    >) {
        proof {
            use_type_invariant(&*self);
        }
        if self.next_id == i64::MAX {
            return Err(DomainError::Internal("identifier space exhausted".to_owned()));
        }
        let id = self.next_id;
        let created = Post {
            id,
            title: create_post.title,
            content: create_post.content,
            author_id,
            created_at: now,
            updated_at: now,
        };
        let result = created.duplicate();
        let ghost prior = self.posts();
        let mut posts: Vec<Post> = Vec::new();
        std::mem::swap(&mut posts, &mut self.posts);
        posts.push(created);
        self.next_id = id + 1;
        proof {
            assert(posts@.map_values(|p: Post| p@) =~= prior.push(result@));
        }
        self.posts = posts;
        Ok(result)
    }

    fn find_by_id(&self, id: i64) -> (r: Option<Post>) {
        let k = self.index_of(id);
        if k < self.posts.len() {
            let found = self.posts[k].duplicate();
            proof {
                assert(self.posts().contains(found@)) by {
                    assert(self.posts()[k as int] == found@);
                }
            }
            Some(found)
        } else {
            None
        }
    }

    fn update_post(&mut self, post_id: i64, update_post: UpdatePost, now: i64) -> (r: Result<
        Post,
        DomainError,
    >) {
        proof {
            use_type_invariant(&*self);
        }
        let k = self.index_of(post_id);
        if k == self.posts.len() {
            return Err(DomainError::PostNotFound);
        }
        let ghost prior = self.posts();
        let mut posts: Vec<Post> = Vec::new();
        std::mem::swap(&mut posts, &mut self.posts);
        let old_post = posts.remove(k);
        let updated = Post {
            id: old_post.id,
            title: update_post.title,
            content: update_post.content,
            author_id: old_post.author_id,
            created_at: old_post.created_at,
            updated_at: now,
        };
        let result = updated.duplicate();
        posts.insert(k, updated);
        proof {
            assert(posts@ =~= old(self).posts@.update(k as int, posts@[k as int]));
            assert(posts@.map_values(|p: Post| p@) =~= prior.update(k as int, result@));
        }
        self.posts = posts;
        Ok(result)
    }

    fn delete_post(&mut self, post_id: i64) -> (r: Result<(), DomainError>) {
        proof {
            use_type_invariant(&*self);
        }
        let k = self.index_of(post_id);
        if k == self.posts.len() {
            return Err(DomainError::PostNotFound);
        }
        let ghost prior = self.posts();
        let mut posts: Vec<Post> = Vec::new();
        std::mem::swap(&mut posts, &mut self.posts);
        posts.remove(k);
        proof {
            assert(posts@.map_values(|p: Post| p@) =~= prior.remove(k as int));
        }
        self.posts = posts;
        Ok(())
    }

    fn get_posts(&self, author_id: i64) -> (r: Vec<Post>) {
        broadcast use group_filter_ensures;

        let mut out: Vec<Post> = Vec::new();
        let mut k: usize = 0;
        proof {
            assert(self.posts().take(0).filter(|p: PostView| p.author_id == author_id as int)
                =~= Seq::<PostView>::empty());
            assert(out@.map_values(|p: Post| p@) =~= Seq::<PostView>::empty());
        }
        while k < self.posts.len()
            invariant
                k <= self.posts.len(),
                out@.map_values(|p: Post| p@) == self.posts().take(k as int).filter(
                    |p: PostView| p.author_id == author_id as int,
                ),
            decreases self.posts.len() - k,
        {
            let ghost taken = self.posts().take(k as int);
            let ghost next = self.posts().take(k + 1 as int);
            proof {
                reveal(Seq::filter);
                assert(next.drop_last() =~= taken);
                assert(next.last() == self.posts()[k as int]);
            }
            if self.posts[k].author_id == author_id {
                let found = self.posts[k].duplicate();
                let ghost before = out@;
                out.push(found);
                proof {
                    assert(out@.map_values(|p: Post| p@) =~= before.map_values(|p: Post| p@).push(
                        found@,
                    ));
                }
            }
            k += 1;
        }
        proof {
            assert(self.posts().take(self.posts@.len() as int) =~= self.posts());
        }
        out
    }
}

} // verus!
