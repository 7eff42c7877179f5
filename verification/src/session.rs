//! The decisions the board makes on a request: who a token belongs to, whether
//! a login succeeds, and whether a registration is taken.

use vstd::prelude::*;
use crate::model::{Member, AuthRequest, AuthResponse};
use crate::server::{ServerData, has_account, has_login, first_with};
use crate::token::{token_for, is_token_shape};

verus! {

/// The account that the bearer token `bearer` was handed out for, if any:
/// `None` when no token is given or the token is unknown, which the board
/// answers with "Access denied".
pub fn authenticator(data: &ServerData, bearer: Option<&String>) -> (r: Option<String>)
    ensures
        match bearer {
            Some(t) => match r {
                Some(a) => data.auth@.contains_key(t@) && a@ == data.auth@[t@].account@,
                None => !data.auth@.contains_key(t@),
            },
            None => r is None,
        },
{
    match bearer {
        Some(t) => match data.auth.get(t.as_str()) {
            Some(u) => Some(u.account.clone()),
            None => None,
        },
        None => None,
    }
}

impl ServerData {
    /// Answers a request to log in: when a member has the account and
    /// password asked for, a new token is handed out for it; otherwise the
    /// board is left as it was and the answer says the login failed.
    pub fn login(&mut self, req: &AuthRequest) -> (r: AuthResponse)
        ensures
            r.success == has_login(old(self).accounts@, req.account()@, req.password()@),
            r.success ==> {
                &&& r.token matches Some(t)
                &&& exists|time: i64| t@ == token_for(req.account()@, req.password()@, time)
                &&& is_token_shape(t@)
                &&& final(self).auth@ == old(self).auth@.insert(
                    t@,
                    first_with(old(self).accounts@, req.account()@).unwrap(),
                )
                &&& r.explain@ == "Login succeed."@
            },
            !r.success ==> {
                &&& r.token is None
                &&& final(self).auth@ == old(self).auth@
                &&& r.explain@ == "Login fail."@
            },
            final(self).accounts@ == old(self).accounts@,
            final(self).daily@ == old(self).daily@,
    {
        let acc = req.get_account();
        let pwd = req.get_password();
        if self.is_authorized(acc, pwd) {
            let jwt = self.authorize(acc, pwd);
            AuthResponse { success: true, token: Some(jwt), explain: "Login succeed.".to_owned() }
        } else {
            AuthResponse { success: false, token: None, explain: "Login fail.".to_owned() }
        }
    }

    /// Registers `m` unless a member already has its account; returns
    /// whether it was registered.
    pub fn register(&mut self, m: Member) -> (r: bool)
        ensures
            r == !has_account(old(self).accounts@, m.account@),
            final(self).accounts@ == if r {
                old(self).accounts@.push(m)
            } else {
                old(self).accounts@
            },
            final(self).auth@ == old(self).auth@,
            final(self).daily@ == old(self).daily@,
    {
        if self.is_member(&m.account) {
            false
        } else {
            self.add_member(m);
            true
        }
    }
}

} // verus!
