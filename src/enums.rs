use vstd::prelude::*;

verus! {

/// Where an application stands in the review workflow.
#[derive(Debug, Clone, Copy, PartialEq, Eq, Structural)]
pub enum ApplicationStatus {
    Pending,
    Approved,
    Maybe,
    Rejected,
}

/// The tier of a streaming account.
#[derive(Debug, Clone, Copy, PartialEq, Eq, Structural)]
pub enum TwitchAccountType {
    Pleb,
    Affiliate,
    Partner,
}

/// The label under which a status is stored in the database.
pub open spec fn status_label(s: ApplicationStatus) -> Seq<u8> {
    match s {
        ApplicationStatus::Pending => seq![112u8, 101, 110, 100, 105, 110, 103],
        ApplicationStatus::Approved => seq![97u8, 112, 112, 114, 111, 118, 101, 100],
        ApplicationStatus::Maybe => seq![109u8, 97, 121, 98, 101],
        ApplicationStatus::Rejected => seq![114u8, 101, 106, 101, 99, 116, 101, 100],
    }
}

/// The label under which an account tier is stored in the database.
pub open spec fn account_type_label(t: TwitchAccountType) -> Seq<u8> {
    match t {
        TwitchAccountType::Pleb => seq![112u8, 108, 101, 98],
        TwitchAccountType::Affiliate => seq![97u8, 102, 102, 105, 108, 105, 97, 116, 101],
        TwitchAccountType::Partner => seq![112u8, 97, 114, 116, 110, 101, 114],
    }
}

/// Whether two byte strings are equal.
fn bytes_equal(a: &[u8], b: &[u8]) -> (r: bool)
    ensures
        r == (a@ == b@),
{
    if a.len() != b.len() {
        return false;
    }
    let mut i: usize = 0;
    while i < a.len()
        invariant
            a@.len() == b@.len(),
            0 <= i <= a@.len(),
            forall|j: int| 0 <= j < i ==> a@[j] == b@[j],
        decreases a@.len() - i,
    {
        if a[i] != b[i] {
            return false;
        }
        i = i + 1;
    }
    assert(a@ =~= b@);
    true
}

impl ApplicationStatus {
    /// The database label of this status (`pending`, `approved`, `maybe`, `rejected`).
    pub fn to_sql_bytes(&self) -> (r: Vec<u8>)
        ensures
            r@ == status_label(*self),
    {
        let r = match self {
            ApplicationStatus::Pending => vec![112u8, 101, 110, 100, 105, 110, 103],
            ApplicationStatus::Approved => vec![97u8, 112, 112, 114, 111, 118, 101, 100],
            ApplicationStatus::Maybe => vec![109u8, 97, 121, 98, 101],
            ApplicationStatus::Rejected => vec![114u8, 101, 106, 101, 99, 116, 101, 100],
        };
        assert(r@ =~= status_label(*self));
        r
    }

    /// Reads a status from its database label; `None` for any other bytes.
    pub fn from_sql_bytes(bytes: &[u8]) -> (r: Option<ApplicationStatus>)
        ensures
            match r {
                Some(s) => status_label(s) == bytes@,
                None => forall|s: ApplicationStatus| status_label(s) != bytes@,
            },
    {
        let pending = ApplicationStatus::Pending.to_sql_bytes();
        let approved = ApplicationStatus::Approved.to_sql_bytes();
        let maybe = ApplicationStatus::Maybe.to_sql_bytes();
        let rejected = ApplicationStatus::Rejected.to_sql_bytes();
        if bytes_equal(bytes, pending.as_slice()) {
            Some(ApplicationStatus::Pending)
        } else if bytes_equal(bytes, approved.as_slice()) {
            Some(ApplicationStatus::Approved)
        } else if bytes_equal(bytes, maybe.as_slice()) {
            Some(ApplicationStatus::Maybe)
        } else if bytes_equal(bytes, rejected.as_slice()) {
            Some(ApplicationStatus::Rejected)
        } else {
            assert forall|s: ApplicationStatus| status_label(s) != bytes@ by {
                match s {
                    ApplicationStatus::Pending => {},
                    ApplicationStatus::Approved => {},
                    ApplicationStatus::Maybe => {},
                    ApplicationStatus::Rejected => {},
                }
            }
            None
        }
    }
}

impl TwitchAccountType {
    /// The database label of this tier (`pleb`, `affiliate`, `partner`).
    pub fn to_sql_bytes(&self) -> (r: Vec<u8>)
        ensures
            r@ == account_type_label(*self),
    {
        let r = match self {
            TwitchAccountType::Pleb => vec![112u8, 108, 101, 98],
            TwitchAccountType::Affiliate => vec![97u8, 102, 102, 105, 108, 105, 97, 116, 101],
            TwitchAccountType::Partner => vec![112u8, 97, 114, 116, 110, 101, 114],
        };
        assert(r@ =~= account_type_label(*self));
        r
    }

    /// Reads a tier from its database label; `None` for any other bytes.
    pub fn from_sql_bytes(bytes: &[u8]) -> (r: Option<TwitchAccountType>)
        ensures
            match r {
                Some(t) => account_type_label(t) == bytes@,
                None => forall|t: TwitchAccountType| account_type_label(t) != bytes@,
            },
    {
        let pleb = TwitchAccountType::Pleb.to_sql_bytes();
        let affiliate = TwitchAccountType::Affiliate.to_sql_bytes();
        let partner = TwitchAccountType::Partner.to_sql_bytes();
        if bytes_equal(bytes, pleb.as_slice()) {
            Some(TwitchAccountType::Pleb)
        } else if bytes_equal(bytes, affiliate.as_slice()) {
            Some(TwitchAccountType::Affiliate)
        } else if bytes_equal(bytes, partner.as_slice()) {
            Some(TwitchAccountType::Partner)
        } else {
            assert forall|t: TwitchAccountType| account_type_label(t) != bytes@ by {
                match t {
                    TwitchAccountType::Pleb => {},
                    TwitchAccountType::Affiliate => {},
                    TwitchAccountType::Partner => {},
                }
            }
            None
        }
    }
}

/// Distinct statuses are stored under distinct labels, so reading a stored
/// label gives back the status that was written.
pub proof fn lemma_status_label_round_trip(s: ApplicationStatus)
    ensures
        forall|t: ApplicationStatus| #[trigger] status_label(t) == status_label(s) ==> t == s,
{
    assert forall|t: ApplicationStatus| #[trigger] status_label(t) == status_label(s) implies t == s by {
        if t != s {
            match (t, s) {
                (ApplicationStatus::Pending, _) => assert(status_label(t)[0] != status_label(s)[0] || status_label(t).len() != status_label(s).len()),
                (ApplicationStatus::Approved, _) => assert(status_label(t)[0] != status_label(s)[0] || status_label(t)[1] != status_label(s)[1] || status_label(t).len() != status_label(s).len()),
                (ApplicationStatus::Maybe, _) => assert(status_label(t)[0] != status_label(s)[0] || status_label(t).len() != status_label(s).len()),
                (ApplicationStatus::Rejected, _) => assert(status_label(t)[0] != status_label(s)[0] || status_label(t).len() != status_label(s).len()),
            }
        }
    }
}

} // verus!
