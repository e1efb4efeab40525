use vstd::prelude::*;

use crate::addr::Address;

verus! {

/// One issued badge: who issued it, whom it certifies, and when. Created
/// once, never mutated, never destroyed; only `user` is read at transfer
/// time.
#[derive(Clone, Debug, PartialEq, Eq)]
pub struct TokenBadge {
    pub authority: Address,
    pub user: Address,
    pub issued_at: i64,
}

/// The mathematical value of a `TokenBadge`.
pub struct TokenBadgeV {
    pub authority: Seq<u8>,
    pub user: Seq<u8>,
    pub issued_at: i64,
}

impl View for TokenBadge {
    type V = TokenBadgeV;

    open spec fn view(&self) -> TokenBadgeV {
        TokenBadgeV {
            authority: self.authority.bytes@,
            user: self.user.bytes@,
            issued_at: self.issued_at,
        }
    }
}

impl TokenBadge {
    pub open spec fn wf(&self) -> bool {
        self.authority.wf() && self.user.wf()
    }

    pub fn new(authority: Address, user: Address, issued_at: i64) -> (r: TokenBadge)
        ensures
            r.authority == authority,
            r.user == user,
            r.issued_at == issued_at,
    {
        TokenBadge { authority, user, issued_at }
    }
}

} // verus!
