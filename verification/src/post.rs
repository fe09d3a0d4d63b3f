//! Blog posts and the request bodies of the post endpoints.
//!
//! Timestamps are Unix seconds; turning them into calendar form is the
//! presentation layer's business.

use vstd::prelude::*;

verus! {

/// The mathematical image of a [`Post`]: every field as a plain value.
pub ghost struct PostView {
    pub id: int,
    pub title: Seq<char>,
    pub content: Seq<char>,
    pub author_id: int,
    pub created_at: int,
    pub updated_at: int,
}

/// A persisted post. Every post has exactly one owner, its author;
/// mutation and deletion demand that the requester be that owner.
#[derive(Debug, Clone)]
pub struct Post {
    pub id: i64,
    pub title: String,
    pub content: String,
    pub author_id: i64,
    pub created_at: i64,
    pub updated_at: i64,
}

impl View for Post {
    type V = PostView;

    open spec fn view(&self) -> PostView {
        PostView {
            id: self.id as int,
            title: self.title@,
            content: self.content@,
            author_id: self.author_id as int,
            created_at: self.created_at as int,
            updated_at: self.updated_at as int,
        }
    }
}

impl Post {
    /// A field-wise copy whose image is the same as the original's.
    pub fn duplicate(&self) -> (r: Self)
        ensures
            r@ == self@,
    {
        Self {
            id: self.id,
            title: self.title.clone(),
            content: self.content.clone(),
            author_id: self.author_id,
            created_at: self.created_at,
            updated_at: self.updated_at,
        }
    }
}

/// The body of a post-creation request. The author is never taken from
/// the body: it comes from the authenticated identity.
#[derive(Debug, Clone)]
pub struct CreatePost {
    pub title: String,
    pub content: String,
}

impl CreatePost {
    pub fn new(title: String, content: String) -> (r: Self)
        ensures
            r.title@ == title@,
            r.content@ == content@,
    {
        Self { title, content }
    }
}

/// The body of a post-update request.
#[derive(Debug, Clone)]
pub struct UpdatePost {
    pub title: String,
    pub content: String,
}

} // verus!
