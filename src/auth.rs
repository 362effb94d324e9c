use vstd::prelude::*;

use crate::enums::TwitchAccountType;
use crate::error::{is_forbidden, is_unauthorized, ApiError};

verus! {

/// The claims that a verified credential carries about its holder.
#[derive(Debug, Clone)]
pub struct User {
    pub twitch_user_id: i32,
    pub twitch_username: String,
    pub twitch_display_name: String,
    pub twitch_profile_image_url: String,
    pub twitch_account_type: TwitchAccountType,
    pub follow_count: i32,
}

pub struct UserView {
    pub twitch_user_id: i32,
    pub twitch_username: Seq<char>,
    pub twitch_display_name: Seq<char>,
    pub twitch_profile_image_url: Seq<char>,
    pub twitch_account_type: TwitchAccountType,
    pub follow_count: i32,
}

impl View for User {
    type V = UserView;

    open spec fn view(&self) -> UserView {
        UserView {
            twitch_user_id: self.twitch_user_id,
            twitch_username: self.twitch_username@,
            twitch_display_name: self.twitch_display_name@,
            twitch_profile_image_url: self.twitch_profile_image_url@,
            twitch_account_type: self.twitch_account_type,
            follow_count: self.follow_count,
        }
    }
}

/// A caller whose credential verified.
#[derive(Debug, Clone)]
pub struct TwitchUser(pub User);

/// A caller whose credential verified and whose account is on the admin list.
#[derive(Debug, Clone)]
pub struct TwitchAdminUser(pub User);

/// An account is an admin exactly when the server-held list names it; the
/// credential itself carries no role.
pub open spec fn admin_in(id: i32, admins: Seq<i32>) -> bool {
    admins.contains(id)
}

/// Access to a resource is granted to its owner and to every admin.
pub open spec fn access_granted(caller: i32, owner: i32, admins: Seq<i32>) -> bool {
    caller == owner || admin_in(caller, admins)
}

/// Whether `id` is on the admin list.
pub fn is_admin(id: i32, admins: &Vec<i32>) -> (r: bool)
    ensures
        r == admin_in(id, admins@),
{
    let mut i: usize = 0;
    while i < admins.len()
        invariant
            0 <= i <= admins@.len(),
            forall|j: int| 0 <= j < i ==> admins@[j] != id,
        decreases admins@.len() - i,
    {
        if admins[i] == id {
            assert(admins@[i as int] == id);
            return true;
        }
        i = i + 1;
    }
    false
}

/// Whether `user` may read or annotate a resource owned by `owner`.
pub fn can_access(user: &User, owner: i32, admins: &Vec<i32>) -> (r: bool)
    ensures
        r == access_granted(user.twitch_user_id, owner, admins@),
{
    user.twitch_user_id == owner || is_admin(user.twitch_user_id, admins)
}

impl TwitchUser {
    /// Turns the outcome of credential verification into a caller: the
    /// decoded claims, or `None` where the credential was missing or did not
    /// verify.
    pub fn resolve(claims: Option<User>) -> (r: Result<TwitchUser, ApiError>)
        ensures
            match claims {
                Some(u) => r matches Ok(t) && t.0@ == u@,
                None => r matches Err(e) && is_unauthorized(e),
            },
    {
        match claims {
            Some(u) => Ok(TwitchUser(u)),
            None => Err(ApiError::unauthorized()),
        }
    }
}

impl TwitchAdminUser {
    /// Turns the outcome of credential verification into an admin caller.
    /// Fails as unauthorized without claims, and as forbidden where the
    /// account is not on the admin list.
    pub fn resolve(claims: Option<User>, admins: &Vec<i32>) -> (r: Result<TwitchAdminUser, ApiError>)
        ensures
            match claims {
                Some(u) => if admin_in(u.twitch_user_id, admins@) {
                    r matches Ok(t) && t.0@ == u@
                } else {
                    r matches Err(e) && is_forbidden(e)
                },
                None => r matches Err(e) && is_unauthorized(e),
            },
    {
        let TwitchUser(user) = match TwitchUser::resolve(claims) {
            Ok(t) => t,
            Err(e) => return Err(e),
        };
        if !is_admin(user.twitch_user_id, admins) {
            return Err(ApiError::forbidden());
        }
        Ok(TwitchAdminUser(user))
    }

    /// The admin's claims, viewed as those of an ordinary caller.
    pub fn as_user(&self) -> (r: &User)
        ensures
            r@ == self.0@,
    {
        &self.0
    }
}

} // verus!
