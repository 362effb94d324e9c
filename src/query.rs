use vstd::prelude::*;

use crate::enums::{ApplicationStatus, TwitchAccountType};
use crate::error::{is_bad_request, ApiError};
use crate::types::{Application, ApplicationView};

verus! {

/// The longest username fragment that a search accepts, in characters.
pub const MAX_USERNAME_FILTER: usize = 100;

/// What `str::to_lowercase` makes of a string.
pub uninterp spec fn lower_of(s: Seq<char>) -> Seq<char>;

/// Relies on str::to_lowercase: the lowercase form depends on the characters
/// alone.
#[verifier::external_body]
fn lowercase(s: &str) -> (r: String)
    ensures
        r@ == lower_of(s@),
{
    s.to_lowercase()
}

/// Whether `needle` occurs in `haystack` at some position.
pub open spec fn occurs_in(needle: Seq<char>, haystack: Seq<char>) -> bool {
    exists|i: int|
        0 <= i && i + needle.len() <= haystack.len() && #[trigger] haystack.subrange(
            i,
            i + needle.len(),
        ) == needle
}

/// An admin's search: each field that is present narrows the result, absent
/// fields impose nothing.
#[derive(Debug, Clone)]
pub struct ApplicationQuery {
    pub status: Option<ApplicationStatus>,
    pub twitch_account_type: Option<TwitchAccountType>,
    pub min_follow_count: Option<i32>,
    pub twitch_username: Option<String>,
}

/// A search whose criteria have been checked.
#[derive(Debug, Clone)]
pub struct QueryPlan {
    pub status: Option<ApplicationStatus>,
    pub twitch_account_type: Option<TwitchAccountType>,
    pub min_follow_count: Option<i32>,
    pub twitch_username: Option<String>,
}

pub struct QueryPlanView {
    pub status: Option<ApplicationStatus>,
    pub twitch_account_type: Option<TwitchAccountType>,
    pub min_follow_count: Option<i32>,
    pub twitch_username: Option<Seq<char>>,
}

pub open spec fn opt_string_view(s: Option<String>) -> Option<Seq<char>> {
    match s {
        Some(t) => Some(t@),
        None => None,
    }
}

impl View for ApplicationQuery {
    type V = QueryPlanView;

    open spec fn view(&self) -> QueryPlanView {
        QueryPlanView {
            status: self.status,
            twitch_account_type: self.twitch_account_type,
            min_follow_count: self.min_follow_count,
            twitch_username: opt_string_view(self.twitch_username),
        }
    }
}

impl View for QueryPlan {
    type V = QueryPlanView;

    open spec fn view(&self) -> QueryPlanView {
        QueryPlanView {
            status: self.status,
            twitch_account_type: self.twitch_account_type,
            min_follow_count: self.min_follow_count,
            twitch_username: opt_string_view(self.twitch_username),
        }
    }
}

/// A negative minimum follower count is rejected.
pub open spec fn follow_count_invalid(q: QueryPlanView) -> bool {
    q.min_follow_count matches Some(m) && m < 0
}

/// A username fragment over the length limit is rejected.
pub open spec fn username_invalid(q: QueryPlanView) -> bool {
    q.twitch_username matches Some(u) && u.len() > MAX_USERNAME_FILTER
}

pub open spec fn query_valid(q: QueryPlanView) -> bool {
    !follow_count_invalid(q) && !username_invalid(q)
}

/// Whether an application meets every criterion of the search. The username
/// fragment matches anywhere in the username, ignoring case.
pub open spec fn plan_matches(q: QueryPlanView, a: ApplicationView) -> bool {
    &&& (q.status matches Some(s) ==> a.status == s)
    &&& (q.twitch_account_type matches Some(t) ==> a.twitch_account_type == t)
    &&& (q.min_follow_count matches Some(m) ==> a.follow_count >= m)
    &&& (q.twitch_username matches Some(u) ==> occurs_in(lower_of(u), lower_of(a.twitch_username)))
}

/// The applications of `s` that meet the search, in their order in `s`.
pub open spec fn select(s: Seq<ApplicationView>, q: QueryPlanView) -> Seq<ApplicationView>
    decreases s.len(),
{
    if s.len() == 0 {
        Seq::empty()
    } else if plan_matches(q, s.last()) {
        select(s.drop_last(), q).push(s.last())
    } else {
        select(s.drop_last(), q)
    }
}

/// Checks a search. Fails with a bad request where the minimum follower
/// count is negative or the username fragment is too long.
pub fn build_query(query: ApplicationQuery) -> (r: Result<QueryPlan, ApiError>)
    ensures
        r is Ok <==> query_valid(query@),
        r matches Ok(p) ==> p@ == query@,
        follow_count_invalid(query@) ==> (r matches Err(e) && is_bad_request(e)
            && e.message@ == "min_follow_count must be greater than 0"@),
        !follow_count_invalid(query@) && username_invalid(query@) ==> (r matches Err(e)
            && is_bad_request(e) && e.message@ == "twitch_username too long"@),
{
    if let Some(m) = query.min_follow_count {
        if m < 0 {
            return Err(ApiError::bad_request("min_follow_count must be greater than 0"));
        }
    }
    match &query.twitch_username {
        Some(u) => {
            if u.as_str().unicode_len() > MAX_USERNAME_FILTER {
                return Err(ApiError::bad_request("twitch_username too long"));
            }
        },
        None => {},
    }
    Ok(
        QueryPlan {
            status: query.status,
            twitch_account_type: query.twitch_account_type,
            min_follow_count: query.min_follow_count,
            twitch_username: query.twitch_username,
        },
    )
}

/// The characters of `s`, one by one.
fn chars_of(s: &str) -> (r: Vec<char>)
    ensures
        r@ == s@,
{
    let n = s.unicode_len();
    let mut r: Vec<char> = Vec::new();
    let mut i: usize = 0;
    while i < n
        invariant
            n == s@.len(),
            0 <= i <= n,
            r@ == s@.subrange(0, i as int),
        decreases n - i,
    {
        r.push(s.get_char(i));
        i = i + 1;
        assert(r@ =~= s@.subrange(0, i as int));
    }
    assert(r@ =~= s@);
    r
}

/// Whether `needle` occurs at position `start` of `haystack`.
fn occurs_at(needle: &Vec<char>, haystack: &Vec<char>, start: usize) -> (r: bool)
    requires
        start + needle@.len() <= haystack@.len(),
    ensures
        r == (haystack@.subrange(start as int, start + needle@.len()) == needle@),
{
    let total = haystack.len();
    let mut j: usize = 0;
    while j < needle.len()
        invariant
            start + needle@.len() <= haystack@.len(),
            0 <= j <= needle@.len(),
            total == haystack@.len(),
            forall|k: int| 0 <= k < j ==> haystack@[start + k] == needle@[k],
        decreases needle@.len() - j,
    {
        if haystack[start + j] != needle[j] {
            assert(haystack@.subrange(start as int, start + needle@.len())[j as int] != needle@[j as int]);
            return false;
        }
        j = j + 1;
    }
    assert(haystack@.subrange(start as int, start + needle@.len()) =~= needle@);
    true
}

/// Whether `needle` occurs anywhere in `haystack`.
pub fn contains_text(haystack: &str, needle: &str) -> (r: bool)
    ensures
        r == occurs_in(needle@, haystack@),
{
    let h = chars_of(haystack);
    let n = chars_of(needle);
    if n.len() > h.len() {
        return false;
    }
    let last = h.len() - n.len();
    let mut i: usize = 0;
    loop
        invariant
            h@ == haystack@,
            n@ == needle@,
            last == h@.len() - n@.len(),
            0 <= i <= last,
            forall|k: int| 0 <= k < i ==> #[trigger] h@.subrange(k, k + n@.len()) != n@,
        decreases last - i,
    {
        if occurs_at(&n, &h, i) {
            return true;
        }
        if i == last {
            return false;
        }
        i = i + 1;
    }
}

/// Characters that a SQL `LIKE` pattern gives a meaning of their own.
pub open spec fn like_special(c: char) -> bool {
    c == '%' || c == '_' || c == '\\'
}

/// `s` with each special character preceded by a backslash, so that a
/// `LIKE` pattern takes it literally.
pub open spec fn like_escaped(s: Seq<char>) -> Seq<char>
    decreases s.len(),
{
    if s.len() == 0 {
        Seq::empty()
    } else if like_special(s.last()) {
        like_escaped(s.drop_last()) + seq!['\\', s.last()]
    } else {
        like_escaped(s.drop_last()) + seq![s.last()]
    }
}

/// The `LIKE` pattern that matches every text in which `s` occurs.
pub open spec fn like_pattern_of(s: Seq<char>) -> Seq<char> {
    seq!['%'] + like_escaped(s) + seq!['%']
}

/// The `LIKE` pattern under which a database runs the username search.
pub fn substring_pattern(fragment: &str) -> (r: String)
    ensures
        r@ == like_pattern_of(fragment@),
{
    proof {
        reveal_strlit("%");
        reveal_strlit("\\");
    }
    let n = fragment.unicode_len();
    let mut r = String::from_str("%");
    let mut i: usize = 0;
    while i < n
        invariant
            n == fragment@.len(),
            0 <= i <= n,
            r@ == seq!['%'] + like_escaped(fragment@.subrange(0, i as int)),
        decreases n - i,
    {
        let ghost prefix = fragment@.subrange(0, i as int + 1);
        let ghost before = r@;
        proof {
            reveal_strlit("\\");
            assert(prefix.drop_last() =~= fragment@.subrange(0, i as int));
            assert(prefix.last() == fragment@[i as int]);
        }
        let c = fragment.get_char(i);
        let one = fragment.substring_char(i, i + 1);
        if c == '%' || c == '_' || c == '\\' {
            r.append("\\");
        }
        r.append(one);
        proof {
            assert(one@ =~= seq![c]);
            assert(like_escaped(prefix) == like_escaped(fragment@.subrange(0, i as int)) + (if like_special(c) {
                seq!['\\', c]
            } else {
                seq![c]
            }));
            if like_special(c) {
                assert(r@ =~= before + seq!['\\', c]);
            } else {
                assert(r@ =~= before + seq![c]);
            }
            assert(r@ =~= seq!['%'] + like_escaped(prefix));
        }
        i = i + 1;
    }
    assert(fragment@.subrange(0, n as int) =~= fragment@);
    proof {
        reveal_strlit("%");
    }
    r.append("%");
    assert(r@ =~= like_pattern_of(fragment@));
    r
}

impl QueryPlan {
    /// Whether `application` meets every criterion of this search.
    pub fn matches(&self, application: &Application) -> (r: bool)
        ensures
            r == plan_matches(self@, application@),
    {
        if let Some(s) = self.status {
            if application.status != s {
                return false;
            }
        }
        if let Some(t) = self.twitch_account_type {
            if application.twitch_account_type != t {
                return false;
            }
        }
        if let Some(m) = self.min_follow_count {
            if application.follow_count < m {
                return false;
            }
        }
        match &self.twitch_username {
            Some(u) => {
                let needle = lowercase(u.as_str());
                let haystack = lowercase(application.twitch_username.as_str());
                contains_text(haystack.as_str(), needle.as_str())
            },
            None => true,
        }
    }
}

/// Everything that a search returns meets all of its criteria and is one of
/// the records searched; a search on a status returns only applications in
/// that status.
pub proof fn lemma_select_sound(s: Seq<ApplicationView>, q: QueryPlanView)
    ensures
        forall|i: int|
            0 <= i < select(s, q).len() ==> plan_matches(q, #[trigger] select(s, q)[i]) && s.contains(
                select(s, q)[i],
            ),
        forall|i: int|
            0 <= i < select(s, q).len() ==> (q.status matches Some(st) ==> #[trigger] select(s, q)[i].status == st),
    decreases s.len(),
{
    if s.len() > 0 {
        lemma_select_sound(s.drop_last(), q);
        assert forall|i: int| 0 <= i < select(s, q).len() implies plan_matches(q, #[trigger] select(s, q)[i]) && s.contains(select(s, q)[i]) by {
            if i < select(s.drop_last(), q).len() {
                let j = choose|j: int| 0 <= j < s.drop_last().len() && s.drop_last()[j] == select(s.drop_last(), q)[i];
                assert(s[j] == select(s, q)[i]);
            } else {
                assert(s[s.len() - 1] == select(s, q)[i]);
            }
        }
    }
}

/// An application is returned by a search exactly when it meets every
/// criterion: a record of `s` that matches is in the result.
pub proof fn lemma_select_complete(s: Seq<ApplicationView>, q: QueryPlanView, k: int)
    requires
        0 <= k < s.len(),
        plan_matches(q, s[k]),
    ensures
        select(s, q).contains(s[k]),
    decreases s.len(),
{
    if k == s.len() - 1 {
        assert(select(s, q)[select(s, q).len() - 1] == s[k]);
    } else {
        lemma_select_complete(s.drop_last(), q, k);
        let j = choose|j: int| 0 <= j < select(s.drop_last(), q).len() && select(s.drop_last(), q)[j] == s.drop_last()[k];
        assert(select(s, q)[j] == s[k]);
    }
}

} // verus!
