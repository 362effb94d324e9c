use vstd::prelude::*;

use crate::auth::{User, UserView};
use crate::enums::{ApplicationStatus, TwitchAccountType};

verus! {

/// A point in time: microseconds since the Unix epoch, UTC.
pub type Timestamp = i64;

/// A submitted application, with a snapshot of the submitter's identity
/// taken at submission time.
#[derive(Debug, Clone)]
pub struct Application {
    pub id: i32,
    pub twitch_id: i32,
    pub twitch_username: String,
    pub twitch_display_name: String,
    pub twitch_profile_image_url: String,
    pub twitch_account_type: TwitchAccountType,
    pub status: ApplicationStatus,
    pub reason: String,
    pub support_clip_url: String,
    pub follow_count: i32,
    pub created_at: Timestamp,
    pub updated_at: Timestamp,
    pub completed_at: Option<Timestamp>,
}

pub struct ApplicationView {
    pub id: i32,
    pub twitch_id: i32,
    pub twitch_username: Seq<char>,
    pub twitch_display_name: Seq<char>,
    pub twitch_profile_image_url: Seq<char>,
    pub twitch_account_type: TwitchAccountType,
    pub status: ApplicationStatus,
    pub reason: Seq<char>,
    pub support_clip_url: Seq<char>,
    pub follow_count: i32,
    pub created_at: Timestamp,
    pub updated_at: Timestamp,
    pub completed_at: Option<Timestamp>,
}

impl View for Application {
    type V = ApplicationView;

    open spec fn view(&self) -> ApplicationView {
        ApplicationView {
            id: self.id,
            twitch_id: self.twitch_id,
            twitch_username: self.twitch_username@,
            twitch_display_name: self.twitch_display_name@,
            twitch_profile_image_url: self.twitch_profile_image_url@,
            twitch_account_type: self.twitch_account_type,
            status: self.status,
            reason: self.reason@,
            support_clip_url: self.support_clip_url@,
            follow_count: self.follow_count,
            created_at: self.created_at,
            updated_at: self.updated_at,
            completed_at: self.completed_at,
        }
    }
}

/// The application that a submission by `user` creates: pending, stamped
/// `now`, with the submitter's identity copied in.
pub open spec fn submitted(
    id: i32,
    user: UserView,
    reason: Seq<char>,
    support_clip_url: Seq<char>,
    now: Timestamp,
) -> ApplicationView {
    ApplicationView {
        id,
        twitch_id: user.twitch_user_id,
        twitch_username: user.twitch_username,
        twitch_display_name: user.twitch_display_name,
        twitch_profile_image_url: user.twitch_profile_image_url,
        twitch_account_type: user.twitch_account_type,
        status: ApplicationStatus::Pending,
        reason,
        support_clip_url,
        follow_count: user.follow_count,
        created_at: now,
        updated_at: now,
        completed_at: None,
    }
}

/// A submission that has yet to be stored: everything but the identifier and
/// the timestamps.
#[derive(Debug, Clone)]
pub struct NewApplication {
    pub twitch_id: i32,
    pub twitch_username: String,
    pub twitch_display_name: String,
    pub twitch_profile_image_url: String,
    pub twitch_account_type: TwitchAccountType,
    pub status: ApplicationStatus,
    pub reason: String,
    pub support_clip_url: String,
    pub follow_count: i32,
}

pub struct NewApplicationView {
    pub twitch_id: i32,
    pub twitch_username: Seq<char>,
    pub twitch_display_name: Seq<char>,
    pub twitch_profile_image_url: Seq<char>,
    pub twitch_account_type: TwitchAccountType,
    pub status: ApplicationStatus,
    pub reason: Seq<char>,
    pub support_clip_url: Seq<char>,
    pub follow_count: i32,
}

impl View for NewApplication {
    type V = NewApplicationView;

    open spec fn view(&self) -> NewApplicationView {
        NewApplicationView {
            twitch_id: self.twitch_id,
            twitch_username: self.twitch_username@,
            twitch_display_name: self.twitch_display_name@,
            twitch_profile_image_url: self.twitch_profile_image_url@,
            twitch_account_type: self.twitch_account_type,
            status: self.status,
            reason: self.reason@,
            support_clip_url: self.support_clip_url@,
            follow_count: self.follow_count,
        }
    }
}

/// The record that a submission by `user` asks to store: pending, with the
/// user's identity copied in.
pub open spec fn new_record(user: UserView, reason: Seq<char>, support_clip_url: Seq<char>) -> NewApplicationView {
    NewApplicationView {
        twitch_id: user.twitch_user_id,
        twitch_username: user.twitch_username,
        twitch_display_name: user.twitch_display_name,
        twitch_profile_image_url: user.twitch_profile_image_url,
        twitch_account_type: user.twitch_account_type,
        status: ApplicationStatus::Pending,
        reason,
        support_clip_url,
        follow_count: user.follow_count,
    }
}

/// The application that record `n` becomes when stored as `id` at time `now`.
pub open spec fn placed(n: NewApplicationView, id: i32, now: Timestamp) -> ApplicationView {
    ApplicationView {
        id,
        twitch_id: n.twitch_id,
        twitch_username: n.twitch_username,
        twitch_display_name: n.twitch_display_name,
        twitch_profile_image_url: n.twitch_profile_image_url,
        twitch_account_type: n.twitch_account_type,
        status: n.status,
        reason: n.reason,
        support_clip_url: n.support_clip_url,
        follow_count: n.follow_count,
        created_at: now,
        updated_at: now,
        completed_at: None,
    }
}

impl NewApplication {
    /// The record that a submission by `user` asks to store.
    pub fn for_user(user: &User, reason: String, support_clip_url: String) -> (r: NewApplication)
        ensures
            r@ == new_record(user@, reason@, support_clip_url@),
    {
        NewApplication {
            twitch_id: user.twitch_user_id,
            twitch_username: user.twitch_username.clone(),
            twitch_display_name: user.twitch_display_name.clone(),
            twitch_profile_image_url: user.twitch_profile_image_url.clone(),
            twitch_account_type: user.twitch_account_type,
            status: ApplicationStatus::Pending,
            reason,
            support_clip_url,
            follow_count: user.follow_count,
        }
    }

    /// The application that this record becomes when stored as `id` at `now`.
    pub fn place(self, id: i32, now: Timestamp) -> (r: Application)
        ensures
            r@ == placed(self@, id, now),
    {
        Application {
            id,
            twitch_id: self.twitch_id,
            twitch_username: self.twitch_username,
            twitch_display_name: self.twitch_display_name,
            twitch_profile_image_url: self.twitch_profile_image_url,
            twitch_account_type: self.twitch_account_type,
            status: self.status,
            reason: self.reason,
            support_clip_url: self.support_clip_url,
            follow_count: self.follow_count,
            created_at: now,
            updated_at: now,
            completed_at: None,
        }
    }
}

impl Application {
    /// A copy of the record.
    pub fn duplicate(&self) -> (r: Application)
        ensures
            r@ == self@,
    {
        Application {
            id: self.id,
            twitch_id: self.twitch_id,
            twitch_username: self.twitch_username.clone(),
            twitch_display_name: self.twitch_display_name.clone(),
            twitch_profile_image_url: self.twitch_profile_image_url.clone(),
            twitch_account_type: self.twitch_account_type,
            status: self.status,
            reason: self.reason.clone(),
            support_clip_url: self.support_clip_url.clone(),
            follow_count: self.follow_count,
            created_at: self.created_at,
            updated_at: self.updated_at,
            completed_at: self.completed_at,
        }
    }
}

/// A remark on an application, with a snapshot of its author's identity.
#[derive(Debug, Clone)]
pub struct ApplicationComment {
    pub id: i32,
    pub application_id: i32,
    pub comment: String,
    pub twitch_user_id: i32,
    pub twitch_username: String,
    pub twitch_display_name: String,
    pub twitch_profile_image_url: String,
    pub created_at: Timestamp,
}

pub struct CommentView {
    pub id: i32,
    pub application_id: i32,
    pub comment: Seq<char>,
    pub twitch_user_id: i32,
    pub twitch_username: Seq<char>,
    pub twitch_display_name: Seq<char>,
    pub twitch_profile_image_url: Seq<char>,
    pub created_at: Timestamp,
}

impl View for ApplicationComment {
    type V = CommentView;

    open spec fn view(&self) -> CommentView {
        CommentView {
            id: self.id,
            application_id: self.application_id,
            comment: self.comment@,
            twitch_user_id: self.twitch_user_id,
            twitch_username: self.twitch_username@,
            twitch_display_name: self.twitch_display_name@,
            twitch_profile_image_url: self.twitch_profile_image_url@,
            created_at: self.created_at,
        }
    }
}

/// The comment that `author` leaves on application `application_id`.
pub open spec fn authored(
    id: i32,
    application_id: i32,
    body: Seq<char>,
    author: UserView,
    now: Timestamp,
) -> CommentView {
    CommentView {
        id,
        application_id,
        comment: body,
        twitch_user_id: author.twitch_user_id,
        twitch_username: author.twitch_username,
        twitch_display_name: author.twitch_display_name,
        twitch_profile_image_url: author.twitch_profile_image_url,
        created_at: now,
    }
}

impl ApplicationComment {
    /// A copy of the record.
    pub fn duplicate(&self) -> (r: ApplicationComment)
        ensures
            r@ == self@,
    {
        ApplicationComment {
            id: self.id,
            application_id: self.application_id,
            comment: self.comment.clone(),
            twitch_user_id: self.twitch_user_id,
            twitch_username: self.twitch_username.clone(),
            twitch_display_name: self.twitch_display_name.clone(),
            twitch_profile_image_url: self.twitch_profile_image_url.clone(),
            created_at: self.created_at,
        }
    }

    /// The comment that `author` leaves on application `application_id`.
    pub fn by_author(id: i32, application_id: i32, body: String, author: &User, now: Timestamp) -> (r: ApplicationComment)
        ensures
            r@ == authored(id, application_id, body@, author@, now),
    {
        ApplicationComment {
            id,
            application_id,
            comment: body,
            twitch_user_id: author.twitch_user_id,
            twitch_username: author.twitch_username.clone(),
            twitch_display_name: author.twitch_display_name.clone(),
            twitch_profile_image_url: author.twitch_profile_image_url.clone(),
            created_at: now,
        }
    }
}

} // verus!
