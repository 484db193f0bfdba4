//! The /users/{user_id}/posts API: a user's posts.
use vstd::pervasive::unreached;
use vstd::prelude::*;

use crate::db::DbError;
use crate::error::{AppError, STATUS_CREATED, STATUS_OK};
use crate::models::post::request::{New, NewPayload};
use crate::models::post::response::Created;
use crate::models::post::Post;
use crate::routes::users::{is_internal_error, is_lookup_error, user_lookup_error};
use crate::routes::Reply;

verus! {

/// The body that a post is stored with: an empty body counts as none.
pub open spec fn stored_body(body: Option<String>) -> Option<String> {
    match body {
        Some(b) => if b@.len() == 0 {
            None
        } else {
            Some(b)
        },
        None => None,
    }
}

/// The body that a post is stored with: `body`, unless it is empty.
pub fn nonempty_body(body: Option<String>) -> (r: Option<String>)
    ensures
        r == stored_body(body),
{
    match body {
        Some(b) => if b.as_str().is_empty() {
            None
        } else {
            Some(b)
        },
        None => None,
    }
}

/// The post that the payload `payload` creates for the user `user_id`.
pub open spec fn new_post(user_id: u128, payload: NewPayload) -> New {
    New { user_id, title: payload.title, body: stored_body(payload.body) }
}

// GET /users/{user_id}/posts
// ==========================

/// Where a listing of a user's posts stands.
pub enum ListPosts {
    /// Waiting for a database connection.
    Connecting { user_id: u128 },
    /// Waiting for the posts.
    Loading,
    /// Answered.
    Done,
}

/// What the outside world reports to a listing of a user's posts.
pub enum ListPostsEvent {
    Connected,
    ConnectFailed(String),
    Loaded(Vec<Post>),
    LoadFailed(DbError),
}

/// What a listing of a user's posts asks the outside world to do next.
pub enum ListPostsAction {
    /// Get a database connection.
    Connect,
    /// Load every post whose `user_id` is this one.
    LoadPosts(u128),
    /// Answer the request.
    Respond(Reply<Vec<Post>>),
}

impl ListPosts {
    /// How many more events the flow can wait for before it is done.
    pub open spec fn remaining_steps(&self) -> nat {
        match *self {
            ListPosts::Connecting { .. } => 2,
            ListPosts::Loading => 1,
            ListPosts::Done => 0,
        }
    }

    /// Whether the listing waits for `ev`.
    pub open spec fn awaits(&self, ev: &ListPostsEvent) -> bool {
        match *self {
            ListPosts::Connecting { .. } => ev is Connected || ev is ConnectFailed,
            ListPosts::Loading => ev is Loaded || ev is LoadFailed,
            ListPosts::Done => false,
        }
    }

    /// The step from `self` on `ev` to the state and action `r`.
    pub open spec fn next(self, ev: ListPostsEvent, r: (ListPosts, ListPostsAction)) -> bool {
        match (self, ev) {
            (ListPosts::Connecting { user_id }, ListPostsEvent::Connected) => r.0 is Loading && r.1
                == ListPostsAction::LoadPosts(user_id),
            (ListPosts::Connecting { .. }, ListPostsEvent::ConnectFailed(d)) => {
                &&& r.0 is Done
                &&& r.1 matches ListPostsAction::Respond(Reply::Failure(e)) && is_internal_error(e, d@)
            },
            (ListPosts::Loading, ListPostsEvent::Loaded(posts)) => r.0 is Done && r.1
                == ListPostsAction::Respond(Reply::Success { status: STATUS_OK, body: posts }),
            (ListPosts::Loading, ListPostsEvent::LoadFailed(err)) => {
                &&& r.0 is Done
                &&& r.1 matches ListPostsAction::Respond(Reply::Failure(e)) && is_internal_error(
                    e,
                    err.detail@,
                )
            },
            _ => false,
        }
    }

    /// Whether the listing waits for `ev`.
    pub fn accepts(&self, ev: &ListPostsEvent) -> (b: bool)
        ensures
            b == self.awaits(ev),
    {
        match self {
            ListPosts::Connecting { .. } => match ev {
                ListPostsEvent::Connected | ListPostsEvent::ConnectFailed(_) => true,
                _ => false,
            },
            ListPosts::Loading => match ev {
                ListPostsEvent::Loaded(_) | ListPostsEvent::LoadFailed(_) => true,
                _ => false,
            },
            ListPosts::Done => false,
        }
    }

    /// Advances the listing on `ev`.
    pub fn step(self, ev: ListPostsEvent) -> (r: (ListPosts, ListPostsAction))
        requires
            self.awaits(&ev),
        ensures
            ListPosts::next(self, ev, r),
    {
        match self {
            ListPosts::Connecting { user_id } => match ev {
                ListPostsEvent::Connected => (ListPosts::Loading, ListPostsAction::LoadPosts(user_id)),
                ListPostsEvent::ConnectFailed(d) => (
                    ListPosts::Done,
                    ListPostsAction::Respond(Reply::Failure(AppError::internal(d))),
                ),
                _ => unreached(),
            },
            ListPosts::Loading => match ev {
                ListPostsEvent::Loaded(posts) => (
                    ListPosts::Done,
                    ListPostsAction::Respond(Reply::Success { status: STATUS_OK, body: posts }),
                ),
                ListPostsEvent::LoadFailed(err) => (
                    ListPosts::Done,
                    ListPostsAction::Respond(Reply::Failure(AppError::internal(err.detail))),
                ),
                _ => unreached(),
            },
            ListPosts::Done => unreached(),
        }
    }
}

/// GET /users/{user_id}/posts: starts a listing of the posts of the user
/// `user_id`, which first asks for a database connection.
pub fn list_posts(user_id: u128) -> (r: (ListPosts, ListPostsAction))
    ensures
        r.0 == (ListPosts::Connecting { user_id }),
        r.1 is Connect,
{
    (ListPosts::Connecting { user_id }, ListPostsAction::Connect)
}

// POST /users/{user_id}/posts
// ===========================

/// Where the creation of a post stands.
pub enum CreatePost {
    /// Waiting for a database connection.
    Connecting { user_id: u128, payload: NewPayload },
    /// Waiting to learn whether the user exists.
    FindingUser { user_id: u128, payload: NewPayload },
    /// Waiting for the insert.
    Inserting,
    /// Answered.
    Done,
}

/// What the outside world reports to the creation of a post.
pub enum CreatePostEvent {
    Connected,
    ConnectFailed(String),
    UserFound,
    UserLookupFailed(DbError),
    Inserted(Post),
    InsertFailed(DbError),
}

/// What the creation of a post asks the outside world to do next.
pub enum CreatePostAction {
    /// Get a database connection.
    Connect,
    /// Look up the user with this id.
    FindUser(u128),
    /// Insert this post, returning the stored row.
    Insert(New),
    /// Answer the request.
    Respond(Reply<Created>),
}

impl CreatePost {
    /// How many more events the flow can wait for before it is done.
    pub open spec fn remaining_steps(&self) -> nat {
        match *self {
            CreatePost::Connecting { .. } => 3,
            CreatePost::FindingUser { .. } => 2,
            CreatePost::Inserting => 1,
            CreatePost::Done => 0,
        }
    }

    /// Whether the creation waits for `ev`.
    pub open spec fn awaits(&self, ev: &CreatePostEvent) -> bool {
        match *self {
            CreatePost::Connecting { .. } => ev is Connected || ev is ConnectFailed,
            CreatePost::FindingUser { .. } => ev is UserFound || ev is UserLookupFailed,
            CreatePost::Inserting => ev is Inserted || ev is InsertFailed,
            CreatePost::Done => false,
        }
    }

    /// The step from `self` on `ev` to the state and action `r`.
    pub open spec fn next(self, ev: CreatePostEvent, r: (CreatePost, CreatePostAction)) -> bool {
        match (self, ev) {
            (CreatePost::Connecting { user_id, payload }, CreatePostEvent::Connected) => r.0 == (
            CreatePost::FindingUser { user_id, payload }) && r.1 == CreatePostAction::FindUser(
                user_id,
            ),
            (CreatePost::Connecting { .. }, CreatePostEvent::ConnectFailed(d)) => {
                &&& r.0 is Done
                &&& r.1 matches CreatePostAction::Respond(Reply::Failure(e)) && is_internal_error(e, d@)
            },
            (CreatePost::FindingUser { user_id, payload }, CreatePostEvent::UserFound) => r.0 is Inserting
                && r.1 == CreatePostAction::Insert(new_post(user_id, payload)),
            (CreatePost::FindingUser { user_id, .. }, CreatePostEvent::UserLookupFailed(err)) => {
                &&& r.0 is Done
                &&& r.1 matches CreatePostAction::Respond(Reply::Failure(e)) && is_lookup_error(
                    e,
                    user_id,
                    err,
                )
            },
            (CreatePost::Inserting, CreatePostEvent::Inserted(post)) => r.0 is Done && r.1
                == CreatePostAction::Respond(
                Reply::Success { status: STATUS_CREATED, body: Created { id: post.id } },
            ),
            (CreatePost::Inserting, CreatePostEvent::InsertFailed(err)) => {
                &&& r.0 is Done
                &&& r.1 matches CreatePostAction::Respond(Reply::Failure(e)) && is_internal_error(
                    e,
                    err.detail@,
                )
            },
            _ => false,
        }
    }

    /// Whether the creation waits for `ev`.
    pub fn accepts(&self, ev: &CreatePostEvent) -> (b: bool)
        ensures
            b == self.awaits(ev),
    {
        match self {
            CreatePost::Connecting { .. } => match ev {
                CreatePostEvent::Connected | CreatePostEvent::ConnectFailed(_) => true,
                _ => false,
            },
            CreatePost::FindingUser { .. } => match ev {
                CreatePostEvent::UserFound | CreatePostEvent::UserLookupFailed(_) => true,
                _ => false,
            },
            CreatePost::Inserting => match ev {
                CreatePostEvent::Inserted(_) | CreatePostEvent::InsertFailed(_) => true,
                _ => false,
            },
            CreatePost::Done => false,
        }
    }

    /// Advances the creation on `ev`.
    pub fn step(self, ev: CreatePostEvent) -> (r: (CreatePost, CreatePostAction))
        requires
            self.awaits(&ev),
        ensures
            CreatePost::next(self, ev, r),
    {
        match self {
            CreatePost::Connecting { user_id, payload } => match ev {
                CreatePostEvent::Connected => (
                    CreatePost::FindingUser { user_id, payload },
                    CreatePostAction::FindUser(user_id),
                ),
                CreatePostEvent::ConnectFailed(d) => (
                    CreatePost::Done,
                    CreatePostAction::Respond(Reply::Failure(AppError::internal(d))),
                ),
                _ => unreached(),
            },
            CreatePost::FindingUser { user_id, payload } => match ev {
                CreatePostEvent::UserFound => {
                    let post = New { user_id, title: payload.title, body: nonempty_body(payload.body) };
                    (CreatePost::Inserting, CreatePostAction::Insert(post))
                },
                CreatePostEvent::UserLookupFailed(err) => (
                    CreatePost::Done,
                    CreatePostAction::Respond(Reply::Failure(user_lookup_error(user_id, err))),
                ),
                _ => unreached(),
            },
            CreatePost::Inserting => match ev {
                CreatePostEvent::Inserted(post) => (
                    CreatePost::Done,
                    CreatePostAction::Respond(
                        Reply::Success { status: STATUS_CREATED, body: Created { id: post.id } },
                    ),
                ),
                CreatePostEvent::InsertFailed(err) => (
                    CreatePost::Done,
                    CreatePostAction::Respond(Reply::Failure(AppError::internal(err.detail))),
                ),
                _ => unreached(),
            },
            CreatePost::Done => unreached(),
        }
    }
}

/// POST /users/{user_id}/posts: starts the creation of a post for the user
/// `user_id`, which first asks for a database connection.
pub fn create_post(user_id: u128, payload: NewPayload) -> (r: (CreatePost, CreatePostAction))
    ensures
        r.0 == (CreatePost::Connecting { user_id, payload }),
        r.1 is Connect,
{
    (CreatePost::Connecting { user_id, payload }, CreatePostAction::Connect)
}

} // verus!

verus! {

/// A post is stored without a body exactly when the payload has none or an
/// empty one; any other body is stored as given.
pub proof fn lemma_stored_body(body: Option<String>)
    ensures
        stored_body(body) is None <==> (body is None || body->0@.len() == 0),
        stored_body(body) is Some ==> stored_body(body) == body,
{
}

/// The creation of a post inserts only right after learning that its user
/// exists, and then inserts exactly the payload's post for that user: a
/// post is never inserted for a user that was not found.
pub proof fn lemma_insert_only_for_found_user(
    s: CreatePost,
    ev: CreatePostEvent,
    r: (CreatePost, CreatePostAction),
)
    requires
        CreatePost::next(s, ev, r),
        r.1 is Insert,
    ensures
        s matches CreatePost::FindingUser { user_id, payload } && ev is UserFound && r.1
            == CreatePostAction::Insert(new_post(user_id, payload)),
{
}

/// Each step of the creation of a post brings it closer to its end, and it
/// answers exactly when it reaches `Done`, which waits for nothing more:
/// from its start it answers once, after at most as many events as its
/// first state has remaining steps.
pub proof fn lemma_create_post_answers_once(
    s: CreatePost,
    ev: CreatePostEvent,
    r: (CreatePost, CreatePostAction),
)
    requires
        CreatePost::next(s, ev, r),
    ensures
        r.1 is Respond <==> r.0 is Done,
        r.0.remaining_steps() < s.remaining_steps(),
        r.0 is Done ==> forall|later: CreatePostEvent| !r.0.awaits(&later),
{
}

/// Each step of a listing of posts brings it closer to its end, and it
/// answers exactly when it reaches `Done`, which waits for nothing more:
/// from its start it answers once, after at most as many events as its
/// first state has remaining steps.
pub proof fn lemma_list_posts_answers_once(
    s: ListPosts,
    ev: ListPostsEvent,
    r: (ListPosts, ListPostsAction),
)
    requires
        ListPosts::next(s, ev, r),
    ensures
        r.1 is Respond <==> r.0 is Done,
        r.0.remaining_steps() < s.remaining_steps(),
        r.0 is Done ==> forall|later: ListPostsEvent| !r.0.awaits(&later),
{
}

} // verus!

verus! {

/// The post that a payload creates belongs to the given user, keeps the
/// payload's title, and keeps its body unless that body is empty.
pub proof fn lemma_new_post_fields(user_id: u128, payload: NewPayload)
    ensures
        new_post(user_id, payload).user_id == user_id,
        new_post(user_id, payload).title == payload.title,
        payload.body matches Some(b) && b@.len() > 0 ==> new_post(user_id, payload).body
            == payload.body,
        !(payload.body matches Some(b) && b@.len() > 0) ==> new_post(user_id, payload).body is None,
{
}

/// The creation of a post looks up exactly the user it was started with,
/// then inserts a post for exactly that user with the payload's title, and
/// answers 201 with the id of exactly the row that was stored.
pub proof fn lemma_create_post_follows_its_user(
    user_id: u128,
    payload: NewPayload,
    post: Post,
    r: (CreatePost, CreatePostAction),
)
    ensures
        CreatePost::next(CreatePost::Connecting { user_id, payload }, CreatePostEvent::Connected, r)
            ==> r.1 == CreatePostAction::FindUser(user_id),
        CreatePost::next(CreatePost::FindingUser { user_id, payload }, CreatePostEvent::UserFound, r)
            ==> (r.1 matches CreatePostAction::Insert(n) && n.user_id == user_id && n.title
            == payload.title),
        CreatePost::next(CreatePost::Inserting, CreatePostEvent::Inserted(post), r) ==> (r.1 matches CreatePostAction::Respond(
            Reply::Success { status, body },
        ) && status == 201 && body.id == post.id),
{
    lemma_new_post_fields(user_id, payload);
}

/// A listing of posts loads exactly the posts of the user it was started
/// with, and answers 200 with every loaded post, in the order loaded.
pub proof fn lemma_list_posts_follows_its_user(
    user_id: u128,
    posts: Vec<Post>,
    r: (ListPosts, ListPostsAction),
)
    ensures
        ListPosts::next(ListPosts::Connecting { user_id }, ListPostsEvent::Connected, r) ==> r.1
            == ListPostsAction::LoadPosts(user_id),
        ListPosts::next(ListPosts::Loading, ListPostsEvent::Loaded(posts), r) ==> (r.1 matches ListPostsAction::Respond(
            Reply::Success { status, body },
        ) && status == 200 && body@ == posts@),
{
}

} // verus!
