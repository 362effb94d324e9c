use vstd::prelude::*;

use crate::auth::{access_granted, admin_in, can_access, is_admin, User, UserView};
use crate::enums::ApplicationStatus;
use crate::error::{is_bad_request, is_forbidden, is_internal, is_not_found, ApiError};
use crate::query::{
    build_query, follow_count_invalid, query_valid, select, username_invalid, ApplicationQuery,
};
use crate::types::{
    authored, new_record, submitted, NewApplication, Application, ApplicationComment, ApplicationView, CommentView, Timestamp,
};
use crate::workflow::{can_transition, transition_comment, transition_note};

verus! {

/// The longest comment that is accepted, in characters.
pub const MAX_COMMENT_CHARS: usize = 1000;

/// The single gate in front of every per-application operation: the
/// application must exist and the caller must own it or be an admin. Both
/// failures look the same, so a caller learns nothing of applications that
/// are hidden from them.
pub fn gate(application: Option<&Application>, caller: &User, admins: &Vec<i32>) -> (r: Result<(), ApiError>)
    ensures
        r is Ok <==> (application matches Some(a) && access_granted(
            caller.twitch_user_id,
            a.twitch_id,
            admins@,
        )),
        r matches Err(e) ==> is_not_found(e),
{
    match application {
        Some(a) => {
            if can_access(caller, a.twitch_id, admins) {
                Ok(())
            } else {
                Err(ApiError::not_found())
            }
        },
        None => Err(ApiError::not_found()),
    }
}

/// Decides a submission: only callers who are not admins may apply, and
/// what they file is pending, with their identity copied in.
pub fn submission(user: &User, admins: &Vec<i32>, reason: String, support_clip_url: String) -> (r: Result<NewApplication, ApiError>)
    ensures
        admin_in(user.twitch_user_id, admins@) ==> (r matches Err(e) && is_forbidden(e)),
        !admin_in(user.twitch_user_id, admins@) ==> (r matches Ok(n) && n@ == new_record(
            user@,
            reason@,
            support_clip_url@,
        )),
{
    if is_admin(user.twitch_user_id, admins) {
        return Err(ApiError::forbidden());
    }
    Ok(NewApplication::for_user(user, reason, support_clip_url))
}

/// Checks a comment body against the length limit.
pub fn check_comment_body(body: &str) -> (r: Result<(), ApiError>)
    ensures
        r is Ok <==> body@.len() <= MAX_COMMENT_CHARS,
        r matches Err(e) ==> is_bad_request(e) && e.message@ == "comment too long"@,
{
    if body.unicode_len() > MAX_COMMENT_CHARS {
        Err(ApiError::bad_request("comment too long"))
    } else {
        Ok(())
    }
}

/// What a store holds: its applications and its comments, each in the order
/// of creation, and the first identifier of each kind that it handed out.
pub struct StoreView {
    pub applications: Seq<ApplicationView>,
    pub comments: Seq<CommentView>,
    pub first_application_id: i32,
    pub first_comment_id: i32,
}

pub open spec fn app_views(v: Seq<Application>) -> Seq<ApplicationView> {
    v.map_values(|a: Application| a@)
}

pub open spec fn comment_views(v: Seq<ApplicationComment>) -> Seq<CommentView> {
    v.map_values(|c: ApplicationComment| c@)
}

/// The identifier that the next application receives.
pub open spec fn next_application_id(v: StoreView) -> int {
    v.first_application_id + v.applications.len()
}

/// The identifier that the next comment receives.
pub open spec fn next_comment_id(v: StoreView) -> int {
    v.first_comment_id + v.comments.len()
}

/// Whether an application with identifier `id` exists.
pub open spec fn has_application(v: StoreView, id: i32) -> bool {
    0 <= id - v.first_application_id < v.applications.len()
}

/// The application with identifier `id`.
pub open spec fn application_at(v: StoreView, id: i32) -> ApplicationView {
    v.applications[id - v.first_application_id]
}

/// The comments on application `id`, in the order they were made.
pub open spec fn comments_on(v: StoreView, id: i32) -> Seq<CommentView> {
    v.comments.filter(|c: CommentView| c.application_id == id)
}

/// The applications that account `owner` submitted, in the order of submission.
pub open spec fn owned_by(v: StoreView, owner: i32) -> Seq<ApplicationView> {
    v.applications.filter(|a: ApplicationView| a.twitch_id == owner)
}

/// `a` after a move to `to` at time `now`: the status and the time of the
/// last update change, nothing else does.
pub open spec fn transitioned(a: ApplicationView, to: ApplicationStatus, now: Timestamp) -> ApplicationView {
    ApplicationView { status: to, updated_at: now, ..a }
}

/// The store after `user` submitted an application at time `now`.
pub open spec fn after_submission(
    v: StoreView,
    user: UserView,
    reason: Seq<char>,
    support_clip_url: Seq<char>,
    now: Timestamp,
) -> StoreView {
    StoreView {
        applications: v.applications.push(
            submitted(next_application_id(v) as i32, user, reason, support_clip_url, now),
        ),
        ..v
    }
}

/// The store after application `id` moved to `to` on behalf of `admin` at
/// time `now`: the application changed, and the audit comment appended.
pub open spec fn after_transition(
    v: StoreView,
    id: i32,
    to: ApplicationStatus,
    admin: UserView,
    now: Timestamp,
) -> StoreView {
    StoreView {
        applications: v.applications.update(
            id - v.first_application_id,
            transitioned(application_at(v, id), to, now),
        ),
        comments: v.comments.push(
            authored(next_comment_id(v) as i32, id, transition_note(to), admin, now),
        ),
        ..v
    }
}

/// The store after `author` commented `body` on application `id` at time `now`.
pub open spec fn after_comment(
    v: StoreView,
    id: i32,
    body: Seq<char>,
    author: UserView,
    now: Timestamp,
) -> StoreView {
    StoreView {
        comments: v.comments.push(authored(next_comment_id(v) as i32, id, body, author, now)),
        ..v
    }
}

/// Identifiers are handed out in sequence, every comment belongs to an
/// application of the store, and the next identifiers still fit.
pub open spec fn store_wf(v: StoreView) -> bool {
    &&& forall|i: int|
        0 <= i < v.applications.len() ==> #[trigger] v.applications[i].id == v.first_application_id
            + i
    &&& forall|i: int|
        0 <= i < v.comments.len() ==> #[trigger] v.comments[i].id == v.first_comment_id + i
    &&& forall|i: int|
        0 <= i < v.comments.len() ==> has_application(v, #[trigger] v.comments[i].application_id)
    &&& next_application_id(v) <= i32::MAX + 1
    &&& next_comment_id(v) <= i32::MAX + 1
}

/// Applications and their comments, kept in memory.
pub struct ApplicationStore {
    applications: Vec<Application>,
    comments: Vec<ApplicationComment>,
    first_application_id: i32,
    first_comment_id: i32,
}

impl View for ApplicationStore {
    type V = StoreView;

    closed spec fn view(&self) -> StoreView {
        StoreView {
            applications: app_views(self.applications@),
            comments: comment_views(self.comments@),
            first_application_id: self.first_application_id,
            first_comment_id: self.first_comment_id,
        }
    }
}

impl ApplicationStore {
    /// An empty store whose first application and first comment receive the
    /// given identifiers.
    pub fn new(first_application_id: i32, first_comment_id: i32) -> (r: ApplicationStore)
        ensures
            store_wf(r@),
            r@.applications.len() == 0,
            r@.comments.len() == 0,
            r@.first_application_id == first_application_id,
            r@.first_comment_id == first_comment_id,
    {
        let r = ApplicationStore {
            applications: Vec::new(),
            comments: Vec::new(),
            first_application_id,
            first_comment_id,
        };
        assert(r@.applications =~= Seq::<ApplicationView>::empty());
        assert(r@.comments =~= Seq::<CommentView>::empty());
        r
    }

    /// Where application `id` stands in the store, if it exists.
    fn position(&self, id: i32) -> (r: Option<usize>)
        requires
            store_wf(self@),
        ensures
            has_application(self@, id) ==> r == Some((id - self@.first_application_id) as usize),
            !has_application(self@, id) ==> r is None,
    {
        let offset: i64 = id as i64 - self.first_application_id as i64;
        if 0 <= offset && offset < self.applications.len() as i64 {
            Some(offset as usize)
        } else {
            None
        }
    }

    /// The application with identifier `id`, if there is one.
    pub fn fetch_by_id(&self, id: i32) -> (r: Option<Application>)
        requires
            store_wf(self@),
        ensures
            has_application(self@, id) ==> (r matches Some(a) && a@ == application_at(self@, id)),
            !has_application(self@, id) ==> r is None,
    {
        match self.position(id) {
            Some(k) => Some(self.applications[k].duplicate()),
            None => None,
        }
    }

    /// Files an application for `user`: it starts pending, stamped `now`,
    /// with the user's identity copied in. Fails as forbidden for an admin,
    /// and as an internal error where application identifiers are exhausted.
    pub fn submit_application(
        &mut self,
        user: &User,
        admins: &Vec<i32>,
        reason: String,
        support_clip_url: String,
        now: Timestamp,
    ) -> (r: Result<i32, ApiError>)
        requires
            store_wf(old(self)@),
        ensures
            store_wf(final(self)@),
            admin_in(user.twitch_user_id, admins@) ==> (r matches Err(e) && is_forbidden(e)),
            !admin_in(user.twitch_user_id, admins@) && next_application_id(old(self)@) <= i32::MAX ==> r
                == Ok::<i32, ApiError>(next_application_id(old(self)@) as i32),
            !admin_in(user.twitch_user_id, admins@) && next_application_id(old(self)@) > i32::MAX ==> (r matches Err(e)
                && is_internal(e)),
            r is Ok ==> final(self)@ == after_submission(old(self)@, user@, reason@, support_clip_url@, now),
            r is Err ==> final(self)@ == old(self)@,
    {
        let record = match submission(user, admins, reason, support_clip_url) {
            Ok(n) => n,
            Err(e) => return Err(e),
        };
        let len = self.applications.len();
        if len as i64 > i32::MAX as i64 - self.first_application_id as i64 {
            return Err(ApiError::internal_server_error());
        }
        let id: i32 = (self.first_application_id as i64 + len as i64) as i32;
        let application = record.place(id, now);
        let ghost before = self@;
        self.applications.push(application);
        proof {
            assert(self@.applications =~= before.applications.push(
                submitted(id, user@, reason@, support_clip_url@, now),
            ));
            assert(forall|i: int| 0 <= i < before.comments.len() ==> has_application(before, #[trigger] before.comments[i].application_id));
        }
        Ok(id)
    }

    /// The application `id`, as `caller` may see it: owners and admins see
    /// it; to everyone else it does not exist.
    pub fn get_application(&self, id: i32, caller: &User, admins: &Vec<i32>) -> (r: Result<Application, ApiError>)
        requires
            store_wf(self@),
        ensures
            has_application(self@, id) && access_granted(
                caller.twitch_user_id,
                application_at(self@, id).twitch_id,
                admins@,
            ) ==> (r matches Ok(a) && a@ == application_at(self@, id)),
            !(has_application(self@, id) && access_granted(
                caller.twitch_user_id,
                application_at(self@, id).twitch_id,
                admins@,
            )) ==> (r matches Err(e) && is_not_found(e)),
    {
        let application = self.fetch_by_id(id);
        if let Err(e) = gate(application.as_ref(), caller, admins) {
            return Err(e);
        }
        match application {
            Some(a) => Ok(a),
            None => Err(ApiError::not_found()),
        }
    }

    /// Moves application `id` to `status` on behalf of an admin, and records
    /// the move as a comment by that admin, both stamped `now`. Either both
    /// happen or neither does. Fails as forbidden for a caller who is not an
    /// admin, as not found for an unknown application, and as an internal
    /// error where comment identifiers are exhausted.
    pub fn update_application(
        &mut self,
        id: i32,
        status: ApplicationStatus,
        caller: &User,
        admins: &Vec<i32>,
        now: Timestamp,
    ) -> (r: Result<i32, ApiError>)
        requires
            store_wf(old(self)@),
        ensures
            store_wf(final(self)@),
            !admin_in(caller.twitch_user_id, admins@) ==> (r matches Err(e) && is_forbidden(e)),
            admin_in(caller.twitch_user_id, admins@) && !has_application(old(self)@, id) ==> (r matches Err(e)
                && is_not_found(e)),
            admin_in(caller.twitch_user_id, admins@) && has_application(old(self)@, id)
                && next_comment_id(old(self)@) > i32::MAX ==> (r matches Err(e) && is_internal(e)),
            admin_in(caller.twitch_user_id, admins@) && has_application(old(self)@, id)
                && next_comment_id(old(self)@) <= i32::MAX ==> r == Ok::<i32, ApiError>(id),
            r is Ok ==> final(self)@ == after_transition(old(self)@, id, status, caller@, now),
            r is Err ==> final(self)@ == old(self)@,
    {
        if !is_admin(caller.twitch_user_id, admins) {
            return Err(ApiError::forbidden());
        }
        let k = match self.position(id) {
            Some(k) => k,
            None => return Err(ApiError::not_found()),
        };
        let comment_count = self.comments.len();
        if comment_count as i64 > i32::MAX as i64 - self.first_comment_id as i64 {
            return Err(ApiError::internal_server_error());
        }
        let comment_id: i32 = (self.first_comment_id as i64 + comment_count as i64) as i32;
        let mut application = self.applications[k].duplicate();
        if !can_transition(application.status, status) {
            return Err(ApiError::bad_request("invalid status transition"));
        }
        application.status = status;
        application.updated_at = now;
        let note = transition_comment(status);
        let comment = ApplicationComment::by_author(comment_id, id, String::from_str(note), caller, now);
        let ghost before = self@;
        self.applications.set(k, application);
        self.comments.push(comment);
        proof {
            assert(self@.applications =~= before.applications.update(
                k as int,
                transitioned(application_at(before, id), status, now),
            ));
            assert(self@.comments =~= before.comments.push(
                authored(comment_id, id, transition_note(status), caller@, now),
            ));
            assert forall|i: int| 0 <= i < self@.applications.len() implies #[trigger] self@.applications[i].id
                == self@.first_application_id + i by {
                if i != k {
                    assert(self@.applications[i] == before.applications[i]);
                }
            }
            assert forall|i: int| 0 <= i < self@.comments.len() implies has_application(
                self@,
                #[trigger] self@.comments[i].application_id,
            ) by {
                if i < before.comments.len() {
                    assert(self@.comments[i] == before.comments[i]);
                }
            }
        }
        Ok(id)
    }

    /// Leaves a comment by `caller` on application `id`, stamped `now`.
    /// Fails as not found where the application is absent or hidden from the
    /// caller, as a bad request where the body is over the length limit, and
    /// as an internal error where comment identifiers are exhausted.
    pub fn add_comment(
        &mut self,
        id: i32,
        caller: &User,
        admins: &Vec<i32>,
        body: String,
        now: Timestamp,
    ) -> (r: Result<i32, ApiError>)
        requires
            store_wf(old(self)@),
        ensures
            store_wf(final(self)@),
            !(has_application(old(self)@, id) && access_granted(
                caller.twitch_user_id,
                application_at(old(self)@, id).twitch_id,
                admins@,
            )) ==> (r matches Err(e) && is_not_found(e)),
            has_application(old(self)@, id) && access_granted(
                caller.twitch_user_id,
                application_at(old(self)@, id).twitch_id,
                admins@,
            ) ==> {
                &&& body@.len() > MAX_COMMENT_CHARS ==> (r matches Err(e) && is_bad_request(e)
                    && e.message@ == "comment too long"@)
                &&& body@.len() <= MAX_COMMENT_CHARS && next_comment_id(old(self)@) > i32::MAX ==> (
                r matches Err(e) && is_internal(e))
                &&& body@.len() <= MAX_COMMENT_CHARS && next_comment_id(old(self)@) <= i32::MAX ==> r
                    == Ok::<i32, ApiError>(next_comment_id(old(self)@) as i32)
            },
            r is Ok ==> final(self)@ == after_comment(old(self)@, id, body@, caller@, now),
            r is Err ==> final(self)@ == old(self)@,
    {
        let application = self.fetch_by_id(id);
        if let Err(e) = gate(application.as_ref(), caller, admins) {
            return Err(e);
        }
        if let Err(e) = check_comment_body(body.as_str()) {
            return Err(e);
        }
        let comment_count = self.comments.len();
        if comment_count as i64 > i32::MAX as i64 - self.first_comment_id as i64 {
            return Err(ApiError::internal_server_error());
        }
        let comment_id: i32 = (self.first_comment_id as i64 + comment_count as i64) as i32;
        let ghost body_view = body@;
        let comment = ApplicationComment::by_author(comment_id, id, body, caller, now);
        let ghost before = self@;
        self.comments.push(comment);
        proof {
            assert(self@.applications =~= before.applications);
            assert(self@.comments =~= before.comments.push(authored(comment_id, id, body_view, caller@, now)));
            assert forall|i: int| 0 <= i < self@.comments.len() implies has_application(
                self@,
                #[trigger] self@.comments[i].application_id,
            ) by {
                if i < before.comments.len() {
                    assert(self@.comments[i] == before.comments[i]);
                }
            }
        }
        Ok(comment_id)
    }

    /// The comments on application `id` in the order they were made, as
    /// `caller` may see them: owners and admins see them; to everyone else
    /// the application does not exist.
    pub fn get_comments(&self, id: i32, caller: &User, admins: &Vec<i32>) -> (r: Result<Vec<ApplicationComment>, ApiError>)
        requires
            store_wf(self@),
        ensures
            has_application(self@, id) && access_granted(
                caller.twitch_user_id,
                application_at(self@, id).twitch_id,
                admins@,
            ) ==> (r matches Ok(cs) && comment_views(cs@) == comments_on(self@, id)),
            !(has_application(self@, id) && access_granted(
                caller.twitch_user_id,
                application_at(self@, id).twitch_id,
                admins@,
            )) ==> (r matches Err(e) && is_not_found(e)),
    {
        let application = self.fetch_by_id(id);
        if let Err(e) = gate(application.as_ref(), caller, admins) {
            return Err(e);
        }
        let ghost pred = |c: CommentView| c.application_id == id;
        let ghost all = self@.comments;
        let mut found: Vec<ApplicationComment> = Vec::new();
        let mut i: usize = 0;
        while i < self.comments.len()
            invariant
                all == self@.comments,
                all == comment_views(self.comments@),
                pred == (|c: CommentView| c.application_id == id),
                0 <= i <= all.len(),
                comment_views(found@) == all.subrange(0, i as int).filter(pred),
            decreases all.len() - i,
        {
            let ghost prefix = all.subrange(0, i as int + 1);
            proof {
                reveal(Seq::filter);
                assert(prefix.drop_last() =~= all.subrange(0, i as int));
                assert(prefix.last() == self.comments@[i as int]@);
            }
            if self.comments[i].application_id == id {
                let ghost before = found@;
                found.push(self.comments[i].duplicate());
                assert(comment_views(found@) =~= comment_views(before).push(self.comments@[i as int]@));
            }
            i = i + 1;
        }
        assert(all.subrange(0, all.len() as int) =~= all);
        Ok(found)
    }

    /// The applications that `caller` submitted, in the order of submission.
    pub fn get_my_applications(&self, caller: &User) -> (r: Vec<Application>)
        requires
            store_wf(self@),
        ensures
            app_views(r@) == owned_by(self@, caller.twitch_user_id),
    {
        let owner = caller.twitch_user_id;
        let ghost pred = |a: ApplicationView| a.twitch_id == owner;
        let ghost all = self@.applications;
        let mut found: Vec<Application> = Vec::new();
        let mut i: usize = 0;
        while i < self.applications.len()
            invariant
                all == app_views(self.applications@),
                pred == (|a: ApplicationView| a.twitch_id == owner),
                0 <= i <= all.len(),
                app_views(found@) == all.subrange(0, i as int).filter(pred),
            decreases all.len() - i,
        {
            let ghost prefix = all.subrange(0, i as int + 1);
            proof {
                reveal(Seq::filter);
                assert(prefix.drop_last() =~= all.subrange(0, i as int));
                assert(prefix.last() == self.applications@[i as int]@);
            }
            if self.applications[i].twitch_id == owner {
                let ghost before = found@;
                found.push(self.applications[i].duplicate());
                assert(app_views(found@) =~= app_views(before).push(self.applications@[i as int]@));
            }
            i = i + 1;
        }
        assert(all.subrange(0, all.len() as int) =~= all);
        found
    }

    /// The applications that meet an admin's search, in the order of
    /// submission. Fails as forbidden for a caller who is not an admin, and
    /// as a bad request where the search is invalid.
    pub fn get_applications(&self, caller: &User, admins: &Vec<i32>, query: ApplicationQuery) -> (r: Result<Vec<Application>, ApiError>)
        requires
            store_wf(self@),
        ensures
            !admin_in(caller.twitch_user_id, admins@) ==> (r matches Err(e) && is_forbidden(e)),
            admin_in(caller.twitch_user_id, admins@) && follow_count_invalid(query@) ==> (r matches Err(
                e,
            ) && is_bad_request(e) && e.message@ == "min_follow_count must be greater than 0"@),
            admin_in(caller.twitch_user_id, admins@) && !follow_count_invalid(query@) && username_invalid(
                query@,
            ) ==> (r matches Err(e) && is_bad_request(e) && e.message@ == "twitch_username too long"@),
            admin_in(caller.twitch_user_id, admins@) && query_valid(query@) ==> (r matches Ok(v)
                && app_views(v@) == select(self@.applications, query@)),
    {
        if !is_admin(caller.twitch_user_id, admins) {
            return Err(ApiError::forbidden());
        }
        let ghost q = query@;
        let plan = match build_query(query) {
            Ok(p) => p,
            Err(e) => return Err(e),
        };
        let ghost all = self@.applications;
        let mut found: Vec<Application> = Vec::new();
        let mut i: usize = 0;
        while i < self.applications.len()
            invariant
                all == app_views(self.applications@),
                plan@ == q,
                0 <= i <= all.len(),
                app_views(found@) == select(all.subrange(0, i as int), q),
            decreases all.len() - i,
        {
            let ghost prefix = all.subrange(0, i as int + 1);
            proof {
                assert(prefix.drop_last() =~= all.subrange(0, i as int));
                assert(prefix.last() == self.applications@[i as int]@);
            }
            if plan.matches(&self.applications[i]) {
                let ghost before = found@;
                found.push(self.applications[i].duplicate());
                assert(app_views(found@) =~= app_views(before).push(self.applications@[i as int]@));
            }
            i = i + 1;
        }
        assert(all.subrange(0, all.len() as int) =~= all);
        Ok(found)
    }
}

/// A transition leaves exactly one new comment on the application that it
/// moves: the list of its comments is the one before, followed by the audit
/// comment, whose text names the target status. The comments on every other
/// application stay as they were.
pub proof fn lemma_transition_audit_trail(
    v: StoreView,
    id: i32,
    to: ApplicationStatus,
    admin: UserView,
    now: Timestamp,
    other: i32,
)
    requires
        store_wf(v),
        has_application(v, id),
        next_comment_id(v) <= i32::MAX,
    ensures
        comments_on(after_transition(v, id, to, admin, now), id) == comments_on(v, id).push(
            authored(next_comment_id(v) as i32, id, transition_note(to), admin, now),
        ),
        comments_on(after_transition(v, id, to, admin, now), id).last().comment == transition_note(to),
        other != id ==> comments_on(after_transition(v, id, to, admin, now), other) == comments_on(v, other),
        application_at(after_transition(v, id, to, admin, now), id).status == to,
        application_at(after_transition(v, id, to, admin, now), id).updated_at == now,
        now != application_at(v, id).updated_at ==> application_at(
            after_transition(v, id, to, admin, now),
            id,
        ).updated_at != application_at(v, id).updated_at,
{
    let w = after_transition(v, id, to, admin, now);
    reveal(Seq::filter);
    assert(w.comments.drop_last() =~= v.comments);
}

/// A comment appears, last, in the list of comments on the application it
/// was left on, and nowhere else.
pub proof fn lemma_comment_listed(
    v: StoreView,
    id: i32,
    body: Seq<char>,
    author: UserView,
    now: Timestamp,
    other: i32,
)
    requires
        store_wf(v),
        has_application(v, id),
        next_comment_id(v) <= i32::MAX,
    ensures
        comments_on(after_comment(v, id, body, author, now), id) == comments_on(v, id).push(
            authored(next_comment_id(v) as i32, id, body, author, now),
        ),
        other != id ==> comments_on(after_comment(v, id, body, author, now), other) == comments_on(v, other),
{
    let w = after_comment(v, id, body, author, now);
    reveal(Seq::filter);
    assert(w.comments.drop_last() =~= v.comments);
}

/// A submission creates exactly one application, under the next
/// identifier: it is pending, and its identity fields are those of the
/// submitter at the time of the call. Nothing else changes.
pub proof fn lemma_submission_snapshot(
    v: StoreView,
    user: UserView,
    reason: Seq<char>,
    support_clip_url: Seq<char>,
    now: Timestamp,
)
    requires
        store_wf(v),
        next_application_id(v) <= i32::MAX,
    ensures
        ({
            let w = after_submission(v, user, reason, support_clip_url, now);
            let id = next_application_id(v) as i32;
            &&& store_wf(w)
            &&& has_application(w, id)
            &&& application_at(w, id).id == id
            &&& application_at(w, id).status == ApplicationStatus::Pending
            &&& application_at(w, id).twitch_id == user.twitch_user_id
            &&& application_at(w, id).twitch_username == user.twitch_username
            &&& application_at(w, id).twitch_display_name == user.twitch_display_name
            &&& application_at(w, id).twitch_profile_image_url == user.twitch_profile_image_url
            &&& application_at(w, id).twitch_account_type == user.twitch_account_type
            &&& application_at(w, id).follow_count == user.follow_count
            &&& application_at(w, id).reason == reason
            &&& application_at(w, id).support_clip_url == support_clip_url
            &&& w.applications.drop_last() == v.applications
            &&& w.comments == v.comments
        }),
{
    let w = after_submission(v, user, reason, support_clip_url, now);
    assert(w.applications.drop_last() =~= v.applications);
    assert forall|i: int| 0 <= i < w.comments.len() implies has_application(w, #[trigger] w.comments[i].application_id) by {
        assert(has_application(v, v.comments[i].application_id));
    }
}

} // verus!
