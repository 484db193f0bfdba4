//! The /users API: which columns a listing selects, and the SQL it runs.
use vstd::pervasive::unreached;
use vstd::prelude::*;

use crate::db::{DbError, DbErrorKind};
use crate::error::{
    AppError, STATUS_CONFLICT, STATUS_CREATED, STATUS_INTERNAL_SERVER_ERROR, STATUS_NOT_FOUND,
    STATUS_OK,
};
use crate::models::user::request::New;
use crate::models::user::response::Created;
use crate::models::user::User;
use crate::routes::Reply;
use crate::text::{
    chars_of, debug_string, debug_text, join, join_strings, json_array_parse, JsonValue,
    lemma_split_on_push, parse_json_array, range_equals, split_on, trim, trim_bounds, uuid_string,
    uuid_text, views,
};

verus! {

/// The columns of the `users` table, in table order.
pub open spec fn user_columns() -> Seq<Seq<char>> {
    seq!["id"@, "name"@, "email"@, "created_at"@]
}

/// A requested name that adds a column to a listing: a non-empty name of a
/// column of the table other than `id`, which every listing holds already.
pub open spec fn requestable_column(t: Seq<char>) -> bool {
    t.len() > 0 && t != "id"@ && user_columns().contains(t)
}

/// The columns that the comma-separated `pieces` request, in the order requested:
/// each piece trimmed, and kept only where it names a requestable column.
pub open spec fn requested_columns(pieces: Seq<Seq<char>>) -> Seq<Seq<char>>
    decreases pieces.len(),
{
    if pieces.len() == 0 {
        Seq::<Seq<char>>::empty()
    } else {
        let before = requested_columns(pieces.drop_last());
        let t = trim(pieces.last());
        if requestable_column(t) {
            before.push(t)
        } else {
            before
        }
    }
}

/// The columns a listing selects for the optional `?fields` value: `id` first,
/// then the requested columns.
pub open spec fn selected_columns(fields: Option<Seq<char>>) -> Seq<Seq<char>> {
    seq!["id"@] + match fields {
        Some(raw) => requested_columns(split_on(raw, ',')),
        None => Seq::<Seq<char>>::empty(),
    }
}

/// The `SELECT` list of a listing: the selected columns separated by `", "`.
pub open spec fn select_clause_text(fields: Option<Seq<char>>) -> Seq<char> {
    join(selected_columns(fields), ", "@)
}

/// The query that lists users with the given `SELECT` list, aggregated into
/// one JSON array.
pub open spec fn list_users_sql_text(columns: Seq<char>) -> Seq<char> {
    "SELECT COALESCE(jsonb_agg(to_jsonb(t)), '[]'::jsonb)::text AS data FROM (SELECT "@
        + columns + " FROM users) t"@
}

/// The view of an optional string.
pub open spec fn opt_view(s: Option<&str>) -> Option<Seq<char>> {
    match s {
        Some(s) => Some(s@),
        None => None,
    }
}

/// The column that the piece `v[lo..hi]` requests, if it requests one.
fn requested_column(v: &Vec<char>, lo: usize, hi: usize) -> (r: Option<String>)
    requires
        lo <= hi <= v.len(),
    ensures
        r is Some <==> requestable_column(trim(v@.subrange(lo as int, hi as int))),
        r matches Some(c) ==> c@ == trim(v@.subrange(lo as int, hi as int)),
{
    let (s, e) = trim_bounds(v, lo, hi);
    proof {
        lemma_requestable_columns(v@.subrange(s as int, e as int));
    }
    if range_equals(v, s, e, "name") {
        Some("name".to_owned())
    } else if range_equals(v, s, e, "email") {
        Some("email".to_owned())
    } else if range_equals(v, s, e, "created_at") {
        Some("created_at".to_owned())
    } else {
        None
    }
}

/// The columns that a listing selects for the optional `?fields` value.
///
/// `id` always comes first; the comma-separated names follow in the order
/// given, each trimmed of whitespace; empty names, `id` itself and names
/// that are not columns of the table are dropped.
pub fn select_columns(fields: Option<&str>) -> (cols: Vec<String>)
    ensures
        views(cols@) == selected_columns(opt_view(fields)),
{
    let mut cols: Vec<String> = Vec::new();
    cols.push("id".to_owned());
    if let Some(raw) = fields {
        let v = chars_of(raw);
        let ghost mut done: Seq<Seq<char>> = Seq::empty();
        let mut start: usize = 0;
        let mut i: usize = 0;
        assert(v@.take(0) =~= Seq::<char>::empty());
        assert(v@.subrange(0, 0) =~= Seq::<char>::empty());
        while i < v.len()
            invariant
                start <= i <= v.len(),
                v@ == raw@,
                split_on(v@.take(i as int), ',') == done.push(v@.subrange(start as int, i as int)),
                views(cols@) == seq!["id"@] + requested_columns(done),
            decreases v.len() - i,
        {
            proof {
                lemma_split_on_push(v@.take(i as int), v@[i as int], ',');
                assert(v@.take(i + 1) =~= v@.take(i as int).push(v@[i as int]));
            }
            if v[i] == ',' {
                let c = requested_column(&v, start, i);
                let ghost piece = v@.subrange(start as int, i as int);
                let ghost before = views(cols@);
                proof {
                    assert(done.push(piece).drop_last() =~= done);
                    assert(done.push(piece).last() == piece);
                }
                if let Some(c) = c {
                    cols.push(c);
                    assert(views(cols@) =~= before.push(trim(piece)));
                }
                proof {
                    assert(views(cols@) =~= seq!["id"@] + requested_columns(done.push(piece)));
                    done = done.push(piece);
                }
                start = i + 1;
                assert(v@.subrange(start as int, start as int) =~= Seq::<char>::empty());
            } else {
                assert(v@.subrange(start as int, i + 1) =~= v@.subrange(start as int, i as int).push(v@[i as int]));
            }
            i = i + 1;
        }
        let c = requested_column(&v, start, v.len());
        let ghost piece = v@.subrange(start as int, v.len() as int);
        let ghost before = views(cols@);
        proof {
            assert(v@.take(v.len() as int) =~= raw@);
            assert(done.push(piece).drop_last() =~= done);
            assert(done.push(piece).last() == piece);
        }
        if let Some(c) = c {
            cols.push(c);
            assert(views(cols@) =~= before.push(trim(piece)));
        }
        assert(views(cols@) =~= seq!["id"@] + requested_columns(
            done.push(v@.subrange(start as int, v.len() as int)),
        ));
    } else {
        assert(views(cols@) =~= seq!["id"@]);
    }
    cols
}

} // verus!

verus! {

/// The `SELECT` list for the optional `?fields` value: the selected columns
/// separated by `", "`.
pub fn select_clause(fields: Option<&str>) -> (clause: String)
    ensures
        clause@ == select_clause_text(opt_view(fields)),
{
    let cols = select_columns(fields);
    join_strings(&cols, ", ")
}

/// The SQL that lists all users as one JSON array text, each user holding
/// the columns that `?fields` selects.
pub fn list_users_sql(fields: Option<&str>) -> (sql: String)
    ensures
        sql@ == list_users_sql_text(select_clause_text(opt_view(fields))),
{
    let columns = select_clause(fields);
    let mut sql = String::new();
    sql.append("SELECT COALESCE(jsonb_agg(to_jsonb(t)), '[]'::jsonb)::text AS data FROM (SELECT ");
    sql.append(columns.as_str());
    sql.append(" FROM users) t");
    sql
}

/// The names that add a column are exactly `name`, `email` and `created_at`.
pub proof fn lemma_requestable_columns(t: Seq<char>)
    ensures
        requestable_column(t) <==> (t == "name"@ || t == "email"@ || t == "created_at"@),
{
    reveal_strlit("id");
    reveal_strlit("name");
    reveal_strlit("email");
    reveal_strlit("created_at");
    if user_columns().contains(t) {
        let k = choose|k: int| 0 <= k < user_columns().len() && user_columns()[k] == t;
        assert(k == 0 || k == 1 || k == 2 || k == 3);
    }
    if t == "name"@ {
        assert(user_columns()[1] == t);
        assert(t[0] != "id"@[0]);
    }
    if t == "email"@ {
        assert(user_columns()[2] == t);
        assert(t[0] != "id"@[0]);
    }
    if t == "created_at"@ {
        assert(user_columns()[3] == t);
        assert(t.len() != "id"@.len());
    }
}

/// Every requested column is a requestable column.
proof fn lemma_requested_columns_requestable(pieces: Seq<Seq<char>>)
    ensures
        forall|i: int|
            0 <= i < requested_columns(pieces).len() ==> requestable_column(
                #[trigger] requested_columns(pieces)[i],
            ),
    decreases pieces.len(),
{
    if pieces.len() > 0 {
        let before = requested_columns(pieces.drop_last());
        lemma_requested_columns_requestable(pieces.drop_last());
        assert forall|i: int|
            0 <= i < requested_columns(pieces).len() implies requestable_column(
            #[trigger] requested_columns(pieces)[i],
        ) by {
            if i < before.len() {
                assert(requested_columns(pieces)[i] == before[i]);
            }
        }
    }
}

/// A listing's columns start with `id`, hold `id` once only, and every one of
/// them is a column of the `users` table: nothing a client writes into
/// `?fields` reaches the SQL but the table's own column names.
pub proof fn lemma_selected_columns_are_table_columns(fields: Option<Seq<char>>)
    ensures
        selected_columns(fields).len() >= 1,
        selected_columns(fields)[0] == "id"@,
        forall|i: int|
            0 <= i < selected_columns(fields).len() ==> user_columns().contains(
                #[trigger] selected_columns(fields)[i],
            ),
        forall|i: int|
            1 <= i < selected_columns(fields).len() ==> #[trigger] selected_columns(fields)[i]
                != "id"@,
{
    let cols = selected_columns(fields);
    let req = match fields {
        Some(raw) => requested_columns(split_on(raw, ',')),
        None => Seq::<Seq<char>>::empty(),
    };
    assert(cols =~= seq!["id"@] + req);
    if let Some(raw) = fields {
        lemma_requested_columns_requestable(split_on(raw, ','));
    }
    assert(user_columns()[0] == "id"@);
    assert forall|i: int| 0 <= i < cols.len() implies user_columns().contains(#[trigger] cols[i]) by {
        if i > 0 {
            assert(cols[i] == req[i - 1]);
        }
    }
    assert forall|i: int| 1 <= i < cols.len() implies #[trigger] cols[i] != "id"@ by {
        assert(cols[i] == req[i - 1]);
    }
}

/// Without `?fields`, a listing selects `id` alone.
pub proof fn lemma_no_fields_selects_id()
    ensures
        select_clause_text(None) == "id"@,
{
    assert(selected_columns(None) =~= seq!["id"@]);
}

} // verus!

verus! {

/// The message that answers a lookup of the unknown user `user_id`.
pub open spec fn user_not_found_text(user_id: u128) -> Seq<char> {
    "User "@ + uuid_text(user_id) + " not found"@
}

/// The message that answers a new user whose email is taken.
pub open spec fn duplicate_email_text() -> Seq<char> {
    "A user with this email already exists"@
}

/// `e` is the internal server error whose message is `detail`.
pub open spec fn is_internal_error(e: AppError, detail: Seq<char>) -> bool {
    e.status_code() == STATUS_INTERNAL_SERVER_ERROR && e.message_text() == detail
}

/// `e` answers the failed lookup `err` of the user `user_id`: 404 with
/// "User {id} not found" where no such user exists, 500 with the failure's
/// detail otherwise.
pub open spec fn is_lookup_error(e: AppError, user_id: u128, err: DbError) -> bool {
    match err.kind {
        DbErrorKind::NotFound => e.status_code() == STATUS_NOT_FOUND && e.message_text()
            == user_not_found_text(user_id),
        _ => is_internal_error(e, err.detail@),
    }
}

/// `e` answers the failed insert `err` of a new user: 409 where the email is
/// taken, 500 with the failure's detail otherwise.
pub open spec fn is_insert_error(e: AppError, err: DbError) -> bool {
    match err.kind {
        DbErrorKind::UniqueViolation => e.status_code() == STATUS_CONFLICT && e.message_text()
            == duplicate_email_text(),
        _ => is_internal_error(e, err.detail@),
    }
}

/// The not-found error for the user `user_id`.
pub fn user_not_found(user_id: u128) -> (e: AppError)
    ensures
        e.status_code() == STATUS_NOT_FOUND,
        e.message_text() == user_not_found_text(user_id),
{
    let mut msg = String::new();
    msg.append("User ");
    let id = uuid_string(user_id);
    msg.append(id.as_str());
    msg.append(" not found");
    AppError::not_found(msg.as_str())
}

/// The error that answers the failed lookup `err` of the user `user_id`.
pub fn user_lookup_error(user_id: u128, err: DbError) -> (e: AppError)
    ensures
        is_lookup_error(e, user_id, err),
{
    match err.kind {
        DbErrorKind::NotFound => user_not_found(user_id),
        _ => AppError::internal(err.detail),
    }
}

/// The error that answers the failed insert `err` of a new user.
pub fn user_insert_error(err: DbError) -> (e: AppError)
    ensures
        is_insert_error(e, err),
{
    match err.kind {
        DbErrorKind::UniqueViolation => AppError::conflict("A user with this email already exists"),
        _ => AppError::internal(err.detail),
    }
}

// GET /users/{id}
// ===============

/// Where a fetch of one user stands.
pub enum GetUser {
    /// Waiting for a database connection.
    Connecting { user_id: u128 },
    /// Waiting for the user's row.
    Finding { user_id: u128 },
    /// Answered.
    Done,
}

/// What the outside world reports to a fetch of one user.
pub enum GetUserEvent {
    Connected,
    ConnectFailed(String),
    Found(User),
    FindFailed(DbError),
}

/// What a fetch of one user asks the outside world to do next.
pub enum GetUserAction {
    /// Get a database connection.
    Connect,
    /// Load the user with this id.
    FindUser(u128),
    /// Answer the request.
    Respond(Reply<User>),
}

impl GetUser {
    /// How many more events the flow can wait for before it is done.
    pub open spec fn remaining_steps(&self) -> nat {
        match *self {
            GetUser::Connecting { .. } => 2,
            GetUser::Finding { .. } => 1,
            GetUser::Done => 0,
        }
    }

    /// Whether the fetch waits for `ev`.
    pub open spec fn awaits(&self, ev: &GetUserEvent) -> bool {
        match *self {
            GetUser::Connecting { .. } => ev is Connected || ev is ConnectFailed,
            GetUser::Finding { .. } => ev is Found || ev is FindFailed,
            GetUser::Done => false,
        }
    }

    /// The step from `self` on `ev` to the state and action `r`.
    pub open spec fn next(self, ev: GetUserEvent, r: (GetUser, GetUserAction)) -> bool {
        match (self, ev) {
            (GetUser::Connecting { user_id }, GetUserEvent::Connected) => r.0 == (GetUser::Finding {
                user_id,
            }) && r.1 == GetUserAction::FindUser(user_id),
            (GetUser::Connecting { .. }, GetUserEvent::ConnectFailed(d)) => {
                &&& r.0 is Done
                &&& r.1 matches GetUserAction::Respond(Reply::Failure(e)) && is_internal_error(e, d@)
            },
            (GetUser::Finding { .. }, GetUserEvent::Found(u)) => r.0 is Done && r.1
                == GetUserAction::Respond(Reply::Success { status: STATUS_OK, body: u }),
            (GetUser::Finding { user_id }, GetUserEvent::FindFailed(err)) => {
                &&& r.0 is Done
                &&& r.1 matches GetUserAction::Respond(Reply::Failure(e)) && is_lookup_error(e, user_id, err)
            },
            _ => false,
        }
    }

    /// Whether the fetch waits for `ev`.
    pub fn accepts(&self, ev: &GetUserEvent) -> (b: bool)
        ensures
            b == self.awaits(ev),
    {
        match self {
            GetUser::Connecting { .. } => match ev {
                GetUserEvent::Connected | GetUserEvent::ConnectFailed(_) => true,
                _ => false,
            },
            GetUser::Finding { .. } => match ev {
                GetUserEvent::Found(_) | GetUserEvent::FindFailed(_) => true,
                _ => false,
            },
            GetUser::Done => false,
        }
    }

    /// Advances the fetch on `ev`.
    pub fn step(self, ev: GetUserEvent) -> (r: (GetUser, GetUserAction))
        requires
            self.awaits(&ev),
        ensures
            GetUser::next(self, ev, r),
    {
        match self {
            GetUser::Connecting { user_id } => match ev {
                GetUserEvent::Connected => (GetUser::Finding { user_id }, GetUserAction::FindUser(user_id)),
                GetUserEvent::ConnectFailed(d) => (
                    GetUser::Done,
                    GetUserAction::Respond(Reply::Failure(AppError::internal(d))),
                ),
                _ => unreached(),
            },
            GetUser::Finding { user_id } => match ev {
                GetUserEvent::Found(u) => (
                    GetUser::Done,
                    GetUserAction::Respond(Reply::Success { status: STATUS_OK, body: u }),
                ),
                GetUserEvent::FindFailed(err) => (
                    GetUser::Done,
                    GetUserAction::Respond(Reply::Failure(user_lookup_error(user_id, err))),
                ),
                _ => unreached(),
            },
            GetUser::Done => unreached(),
        }
    }
}

/// GET /users/{id}: starts a fetch of the user `user_id`, which first asks for
/// a database connection.
pub fn get_user(user_id: u128) -> (r: (GetUser, GetUserAction))
    ensures
        r.0 == (GetUser::Connecting { user_id }),
        r.1 is Connect,
{
    (GetUser::Connecting { user_id }, GetUserAction::Connect)
}

} // verus!

verus! {

// POST /users
// ===========

/// Where the creation of a user stands.
pub enum CreateUser {
    /// Waiting for a database connection.
    Connecting { new_user: New },
    /// Waiting for the insert.
    Inserting,
    /// Answered.
    Done,
}

/// What the outside world reports to the creation of a user.
pub enum CreateUserEvent {
    Connected,
    ConnectFailed(String),
    Inserted(User),
    InsertFailed(DbError),
}

/// What the creation of a user asks the outside world to do next.
pub enum CreateUserAction {
    /// Get a database connection.
    Connect,
    /// Insert this user, returning the stored row.
    Insert(New),
    /// Answer the request.
    Respond(Reply<Created>),
}

impl CreateUser {
    /// How many more events the flow can wait for before it is done.
    pub open spec fn remaining_steps(&self) -> nat {
        match *self {
            CreateUser::Connecting { .. } => 2,
            CreateUser::Inserting => 1,
            CreateUser::Done => 0,
        }
    }

    /// Whether the creation waits for `ev`.
    pub open spec fn awaits(&self, ev: &CreateUserEvent) -> bool {
        match *self {
            CreateUser::Connecting { .. } => ev is Connected || ev is ConnectFailed,
            CreateUser::Inserting => ev is Inserted || ev is InsertFailed,
            CreateUser::Done => false,
        }
    }

    /// The step from `self` on `ev` to the state and action `r`.
    pub open spec fn next(self, ev: CreateUserEvent, r: (CreateUser, CreateUserAction)) -> bool {
        match (self, ev) {
            (CreateUser::Connecting { new_user }, CreateUserEvent::Connected) => r.0 is Inserting
                && r.1 == CreateUserAction::Insert(new_user),
            (CreateUser::Connecting { .. }, CreateUserEvent::ConnectFailed(d)) => {
                &&& r.0 is Done
                &&& r.1 matches CreateUserAction::Respond(Reply::Failure(e)) && is_internal_error(e, d@)
            },
            (CreateUser::Inserting, CreateUserEvent::Inserted(u)) => r.0 is Done && r.1
                == CreateUserAction::Respond(
                Reply::Success { status: STATUS_CREATED, body: Created { id: u.id } },
            ),
            (CreateUser::Inserting, CreateUserEvent::InsertFailed(err)) => {
                &&& r.0 is Done
                &&& r.1 matches CreateUserAction::Respond(Reply::Failure(e)) && is_insert_error(e, err)
            },
            _ => false,
        }
    }

    /// Whether the creation waits for `ev`.
    pub fn accepts(&self, ev: &CreateUserEvent) -> (b: bool)
        ensures
            b == self.awaits(ev),
    {
        match self {
            CreateUser::Connecting { .. } => match ev {
                CreateUserEvent::Connected | CreateUserEvent::ConnectFailed(_) => true,
                _ => false,
            },
            CreateUser::Inserting => match ev {
                CreateUserEvent::Inserted(_) | CreateUserEvent::InsertFailed(_) => true,
                _ => false,
            },
            CreateUser::Done => false,
        }
    }

    /// Advances the creation on `ev`.
    pub fn step(self, ev: CreateUserEvent) -> (r: (CreateUser, CreateUserAction))
        requires
            self.awaits(&ev),
        ensures
            CreateUser::next(self, ev, r),
    {
        match self {
            CreateUser::Connecting { new_user } => match ev {
                CreateUserEvent::Connected => (CreateUser::Inserting, CreateUserAction::Insert(new_user)),
                CreateUserEvent::ConnectFailed(d) => (
                    CreateUser::Done,
                    CreateUserAction::Respond(Reply::Failure(AppError::internal(d))),
                ),
                _ => unreached(),
            },
            CreateUser::Inserting => match ev {
                CreateUserEvent::Inserted(u) => (
                    CreateUser::Done,
                    CreateUserAction::Respond(
                        Reply::Success { status: STATUS_CREATED, body: Created { id: u.id } },
                    ),
                ),
                CreateUserEvent::InsertFailed(err) => (
                    CreateUser::Done,
                    CreateUserAction::Respond(Reply::Failure(user_insert_error(err))),
                ),
                _ => unreached(),
            },
            CreateUser::Done => unreached(),
        }
    }
}

/// POST /users: starts the creation of `new_user`, which first asks for a
/// database connection. A created user is answered with its id alone.
pub fn create_user(new_user: New) -> (r: (CreateUser, CreateUserAction))
    ensures
        r.0 == (CreateUser::Connecting { new_user }),
        r.1 is Connect,
{
    (CreateUser::Connecting { new_user }, CreateUserAction::Connect)
}

// GET /users
// ==========

/// Query parameters for the users collection endpoint.
pub struct UsersQuery {
    /// Comma-separated list of extra fields (beyond the mandatory `id`)
    /// to include in each user object.  When omitted, only `id` is returned.
    pub fields: Option<String>,
}

/// Where a listing of users stands.
pub enum ListUsers {
    /// Waiting for a database connection; `sql` is the query to run.
    Connecting { sql: String },
    /// Waiting for the query's one row.
    Querying,
    /// Answered.
    Done,
}

/// What the outside world reports to a listing of users.
pub enum ListUsersEvent {
    Connected,
    ConnectFailed(String),
    /// The text of the row's `data` column.
    Fetched(String),
    /// The `Display` text of the failure.
    QueryFailed(String),
}

/// What a listing of users asks the outside world to do next.
pub enum ListUsersAction {
    /// Get a database connection.
    Connect,
    /// Run this SQL and read the `data` column of its one row.
    RunQuery(String),
    /// Answer the request.
    Respond(Reply<Vec<JsonValue>>),
}

/// The SQL that a listing runs for the query `q`.
pub open spec fn list_users_query_sql(q: UsersQuery) -> Seq<char> {
    list_users_sql_text(
        select_clause_text(
            match q.fields {
                Some(f) => Some(f@),
                None => None,
            },
        ),
    )
}

impl ListUsers {
    /// How many more events the flow can wait for before it is done.
    pub open spec fn remaining_steps(&self) -> nat {
        match *self {
            ListUsers::Connecting { .. } => 2,
            ListUsers::Querying => 1,
            ListUsers::Done => 0,
        }
    }

    /// Whether the listing waits for `ev`.
    pub open spec fn awaits(&self, ev: &ListUsersEvent) -> bool {
        match *self {
            ListUsers::Connecting { .. } => ev is Connected || ev is ConnectFailed,
            ListUsers::Querying => ev is Fetched || ev is QueryFailed,
            ListUsers::Done => false,
        }
    }

    /// The step from `self` on `ev` to the state and action `r`.
    ///
    /// A fetched text answers 200 with exactly the elements it parses to as a
    /// JSON array; where it does not parse, and where the query fails, the
    /// answer is a 500 whose message is the `Debug` rendering of the failure's
    /// text.
    pub open spec fn next(self, ev: ListUsersEvent, r: (ListUsers, ListUsersAction)) -> bool {
        match (self, ev) {
            (ListUsers::Connecting { sql }, ListUsersEvent::Connected) => {
                &&& r.0 is Querying
                &&& r.1 matches ListUsersAction::RunQuery(q) && q@ == sql@
            },
            (ListUsers::Connecting { .. }, ListUsersEvent::ConnectFailed(d)) => {
                &&& r.0 is Done
                &&& r.1 matches ListUsersAction::Respond(Reply::Failure(e)) && is_internal_error(e, d@)
            },
            (ListUsers::Querying, ListUsersEvent::Fetched(data)) => {
                &&& r.0 is Done
                &&& match json_array_parse(data@) {
                    Ok(items) => r.1 matches ListUsersAction::Respond(
                        Reply::Success { status, body },
                    ) && status == STATUS_OK && body@ == items,
                    Err(m) => r.1 matches ListUsersAction::Respond(Reply::Failure(e))
                        && is_internal_error(e, debug_text(m)),
                }
            },
            (ListUsers::Querying, ListUsersEvent::QueryFailed(m)) => {
                &&& r.0 is Done
                &&& r.1 matches ListUsersAction::Respond(Reply::Failure(e)) && is_internal_error(
                    e,
                    debug_text(m@),
                )
            },
            _ => false,
        }
    }

    /// Whether the listing waits for `ev`.
    pub fn accepts(&self, ev: &ListUsersEvent) -> (b: bool)
        ensures
            b == self.awaits(ev),
    {
        match self {
            ListUsers::Connecting { .. } => match ev {
                ListUsersEvent::Connected | ListUsersEvent::ConnectFailed(_) => true,
                _ => false,
            },
            ListUsers::Querying => match ev {
                ListUsersEvent::Fetched(_) | ListUsersEvent::QueryFailed(_) => true,
                _ => false,
            },
            ListUsers::Done => false,
        }
    }

    /// Advances the listing on `ev`.
    pub fn step(self, ev: ListUsersEvent) -> (r: (ListUsers, ListUsersAction))
        requires
            self.awaits(&ev),
        ensures
            ListUsers::next(self, ev, r),
    {
        match self {
            ListUsers::Connecting { sql } => match ev {
                ListUsersEvent::Connected => (ListUsers::Querying, ListUsersAction::RunQuery(sql)),
                ListUsersEvent::ConnectFailed(d) => (
                    ListUsers::Done,
                    ListUsersAction::Respond(Reply::Failure(AppError::internal(d))),
                ),
                _ => unreached(),
            },
            ListUsers::Querying => match ev {
                ListUsersEvent::Fetched(data) => match parse_json_array(data.as_str()) {
                    Ok(items) => (
                        ListUsers::Done,
                        ListUsersAction::Respond(Reply::Success { status: STATUS_OK, body: items }),
                    ),
                    Err(m) => (
                        ListUsers::Done,
                        ListUsersAction::Respond(
                            Reply::Failure(AppError::internal(debug_string(m.as_str()))),
                        ),
                    ),
                },
                ListUsersEvent::QueryFailed(m) => (
                    ListUsers::Done,
                    ListUsersAction::Respond(
                        Reply::Failure(AppError::internal(debug_string(m.as_str()))),
                    ),
                ),
                _ => unreached(),
            },
            ListUsers::Done => unreached(),
        }
    }
}

/// GET /users: starts a listing of all users, each holding `id` and the
/// columns that `?fields` selects. The listing first asks for a database
/// connection; the SQL it will run is fixed here.
pub fn list_users(params: UsersQuery) -> (r: (ListUsers, ListUsersAction))
    ensures
        r.0 matches ListUsers::Connecting { sql } && sql@ == list_users_query_sql(params),
        r.1 is Connect,
{
    let sql = match &params.fields {
        Some(f) => list_users_sql(Some(f.as_str())),
        None => list_users_sql(None),
    };
    (ListUsers::Connecting { sql }, ListUsersAction::Connect)
}

} // verus!

verus! {

/// Each step of a fetch of one user brings it closer to its end, and it
/// answers exactly when it reaches `Done`, which waits for nothing more:
/// from its start it answers once, after at most as many events as its
/// first state has remaining steps.
pub proof fn lemma_get_user_answers_once(s: GetUser, ev: GetUserEvent, r: (GetUser, GetUserAction))
    requires
        GetUser::next(s, ev, r),
    ensures
        r.1 is Respond <==> r.0 is Done,
        r.0.remaining_steps() < s.remaining_steps(),
        r.0 is Done ==> forall|later: GetUserEvent| !r.0.awaits(&later),
{
}

/// Each step of the creation of a user brings it closer to its end, and it
/// answers exactly when it reaches `Done`, which waits for nothing more:
/// from its start it answers once, after at most as many events as its
/// first state has remaining steps.
pub proof fn lemma_create_user_answers_once(
    s: CreateUser,
    ev: CreateUserEvent,
    r: (CreateUser, CreateUserAction),
)
    requires
        CreateUser::next(s, ev, r),
    ensures
        r.1 is Respond <==> r.0 is Done,
        r.0.remaining_steps() < s.remaining_steps(),
        r.0 is Done ==> forall|later: CreateUserEvent| !r.0.awaits(&later),
{
}

/// Each step of a listing of users brings it closer to its end, and it
/// answers exactly when it reaches `Done`, which waits for nothing more:
/// from its start it answers once, after at most as many events as its
/// first state has remaining steps.
pub proof fn lemma_list_users_answers_once(
    s: ListUsers,
    ev: ListUsersEvent,
    r: (ListUsers, ListUsersAction),
)
    requires
        ListUsers::next(s, ev, r),
    ensures
        r.1 is Respond <==> r.0 is Done,
        r.0.remaining_steps() < s.remaining_steps(),
        r.0 is Done ==> forall|later: ListUsersEvent| !r.0.awaits(&later),
{
}

/// A lookup that finds no user answers 404 with a message that names the
/// user's id and says it was not found; a failed insert of a user whose email
/// is taken answers 409 saying that the user already exists.
pub proof fn lemma_error_messages(e: AppError, user_id: u128, err: DbError)
    ensures
        err.kind is NotFound && is_lookup_error(e, user_id, err) ==> e.status_code() == 404
            && e.message_text() == "User "@ + uuid_text(user_id) + " not found"@,
        err.kind is UniqueViolation && is_insert_error(e, err) ==> e.status_code() == 409
            && e.message_text() == "A user with this email already exists"@,
        !(err.kind is NotFound) && is_lookup_error(e, user_id, err) ==> e.status_code() == 500
            && e.message_text() == err.detail@,
{
}

} // verus!

verus! {

/// Reading a list of comma pieces piecewise: the columns that the pieces
/// `a` followed by `b` request are those that `a` requests followed by those
/// that `b` requests. An unknown or empty piece never hides the pieces after it.
pub proof fn lemma_requested_columns_concat(a: Seq<Seq<char>>, b: Seq<Seq<char>>)
    ensures
        requested_columns(a + b) == requested_columns(a) + requested_columns(b),
    decreases b.len(),
{
    if b.len() == 0 {
        assert(a + b =~= a);
        assert(requested_columns(a) + requested_columns(b) =~= requested_columns(a));
    } else {
        lemma_requested_columns_concat(a, b.drop_last());
        assert((a + b).drop_last() =~= a + b.drop_last());
        assert((a + b).last() == b.last());
        let t = trim(b.last());
        if requestable_column(t) {
            assert(requested_columns(a) + requested_columns(b) =~= (requested_columns(a)
                + requested_columns(b.drop_last())).push(t));
        } else {
            assert(requested_columns(b) == requested_columns(b.drop_last()));
        }
    }
}

/// A single piece requests its trimmed name exactly when that name is a
/// column other than `id`, and nothing otherwise.
pub proof fn lemma_requested_columns_single(p: Seq<char>)
    ensures
        requested_columns(seq![p]) == (if trim(p) == "name"@ || trim(p) == "email"@ || trim(p)
            == "created_at"@ {
            seq![trim(p)]
        } else {
            Seq::<Seq<char>>::empty()
        }),
{
    lemma_requestable_columns(trim(p));
    assert(seq![p].drop_last() =~= Seq::<Seq<char>>::empty());
    assert(seq![p].last() == p);
    assert(requested_columns(Seq::<Seq<char>>::empty()) == Seq::<Seq<char>>::empty());
    assert(requested_columns(seq![p]) == (if requestable_column(trim(p)) {
        requested_columns(Seq::<Seq<char>>::empty()).push(trim(p))
    } else {
        requested_columns(Seq::<Seq<char>>::empty())
    }));
    if requestable_column(trim(p)) {
        assert(Seq::<Seq<char>>::empty().push(trim(p)) =~= seq![trim(p)]);
    }
}

/// The columns that the comma pieces request are, piece by piece, the
/// trimmed pieces that name a column other than `id`, whatever the other
/// pieces hold: each piece contributes its own name or nothing.
pub proof fn lemma_requested_columns_piecewise(pieces: Seq<Seq<char>>, k: int)
    requires
        0 <= k < pieces.len(),
    ensures
        requested_columns(pieces) == requested_columns(pieces.take(k)) + requested_columns(
            seq![pieces[k]],
        ) + requested_columns(pieces.skip(k + 1)),
{
    lemma_requested_columns_concat(pieces.take(k), seq![pieces[k]]);
    lemma_requested_columns_concat(pieces.take(k) + seq![pieces[k]], pieces.skip(k + 1));
    assert(pieces.take(k) + seq![pieces[k]] + pieces.skip(k + 1) =~= pieces);
}

/// A fetch of one user asks for exactly the user it was started with,
/// answers with exactly the row that was found, and answers a user that
/// does not exist with 404 naming that user's id.
pub proof fn lemma_get_user_follows_its_id(user_id: u128, u: User, err: DbError, r: (GetUser, GetUserAction))
    ensures
        GetUser::next(GetUser::Connecting { user_id }, GetUserEvent::Connected, r) ==> r.1
            == GetUserAction::FindUser(user_id) && r.0 == (GetUser::Finding { user_id }),
        GetUser::next(GetUser::Finding { user_id }, GetUserEvent::Found(u), r) ==> r.1
            == GetUserAction::Respond(Reply::Success { status: 200, body: u }),
        GetUser::next(GetUser::Finding { user_id }, GetUserEvent::FindFailed(err), r)
            && err.kind is NotFound ==> (r.1 matches GetUserAction::Respond(Reply::Failure(e))
            && e.status_code() == 404 && e.message_text() == "User "@ + uuid_text(user_id)
            + " not found"@),
{
}

/// The creation of a user inserts exactly the user it was started with, and
/// answers 201 with the id of exactly the row that was stored.
pub proof fn lemma_create_user_follows_its_user(new_user: New, u: User, r: (CreateUser, CreateUserAction))
    ensures
        CreateUser::next(CreateUser::Connecting { new_user }, CreateUserEvent::Connected, r)
            ==> r.1 == CreateUserAction::Insert(new_user),
        CreateUser::next(CreateUser::Inserting, CreateUserEvent::Inserted(u), r) ==> (r.1 matches CreateUserAction::Respond(
            Reply::Success { status, body },
        ) && status == 201 && body.id == u.id),
{
}

/// A listing of users runs exactly the SQL it was started with, and answers
/// 200 with exactly the elements of the fetched array, in order.
pub proof fn lemma_list_users_follows_its_query(sql: String, data: String, r: (ListUsers, ListUsersAction))
    ensures
        ListUsers::next(ListUsers::Connecting { sql }, ListUsersEvent::Connected, r) ==> (r.1 matches ListUsersAction::RunQuery(q)
            && q@ == sql@),
        ListUsers::next(ListUsers::Querying, ListUsersEvent::Fetched(data), r) && json_array_parse(
            data@,
        ) is Ok ==> (r.1 matches ListUsersAction::Respond(Reply::Success { status, body })
            && status == 200 && body@ == json_array_parse(data@)->Ok_0),
{
}

} // verus!
