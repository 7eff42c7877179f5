//! The plain records of the board: members, work items, issues and reports.

use vstd::prelude::*;

verus! {

/// A member of the team, who logs in with `account` and `password`.
#[derive(Hash, Debug)]
pub struct Member {
    pub name: String,
    pub account: String,
    pub password: String,
}

/// What a member is, as text.
pub struct MemberView {
    pub name: Seq<char>,
    pub account: Seq<char>,
    pub password: Seq<char>,
}

impl View for Member {
    type V = MemberView;

    open spec fn view(&self) -> MemberView {
        MemberView { name: self.name@, account: self.account@, password: self.password@ }
    }
}

impl Clone for Member {
    fn clone(&self) -> (r: Self)
        ensures
            r == *self,
    {
        Member {
            name: self.name.clone(),
            account: self.account.clone(),
            password: self.password.clone(),
        }
    }
}

/// Two members are the same member when they have the same account.
impl PartialEq for Member {
    fn eq(&self, other: &Member) -> (r: bool) {
        self.account == other.account
    }
}

impl vstd::std_specs::cmp::PartialEqSpecImpl for Member {
    open spec fn obeys_eq_spec() -> bool {
        true
    }

    open spec fn eq_spec(&self, other: &Member) -> bool {
        self.account@ == other.account@
    }
}

impl Eq for Member {
}

/// A piece of work that was done or is to do.
#[derive(Debug)]
pub struct Work {
    pub title: String,
}

impl Clone for Work {
    fn clone(&self) -> (r: Self)
        ensures
            r == *self,
    {
        Work { title: self.title.clone() }
    }
}

/// A problem that stands in a member's way.
#[derive(Debug)]
pub struct Issue {
    pub title: String,
}

impl Clone for Issue {
    fn clone(&self) -> (r: Self)
        ensures
            r == *self,
    {
        Issue { title: self.title.clone() }
    }
}

/// A member's report for the day.
pub struct Entry {
    pub done: Vec<Work>,
    pub to_do: Vec<Work>,
    pub problem: Vec<Issue>,
}

/// The three lists of a report.
pub struct EntryView {
    pub done: Seq<Work>,
    pub to_do: Seq<Work>,
    pub problem: Seq<Issue>,
}

impl View for Entry {
    type V = EntryView;

    open spec fn view(&self) -> EntryView {
        EntryView { done: self.done@, to_do: self.to_do@, problem: self.problem@ }
    }
}

/// The report with nothing in it.
pub open spec fn empty_entry() -> EntryView {
    EntryView { done: Seq::empty(), to_do: Seq::empty(), problem: Seq::empty() }
}

/// A copy of a list of work items.
pub fn copy_works(v: &Vec<Work>) -> (r: Vec<Work>)
    ensures
        r@ == v@,
{
    let r = v.clone();
    assert(r@ =~= v@);
    r
}

/// A copy of a list of issues.
pub fn copy_issues(v: &Vec<Issue>) -> (r: Vec<Issue>)
    ensures
        r@ == v@,
{
    let r = v.clone();
    assert(r@ =~= v@);
    r
}

impl Entry {
    /// A copy of this report.
    pub fn copy(&self) -> (r: Entry)
        ensures
            r@ == self@,
    {
        Entry {
            done: copy_works(&self.done),
            to_do: copy_works(&self.to_do),
            problem: copy_issues(&self.problem),
        }
    }
}

/// One member's report, as it is sent to the board.
pub struct JsonEntry<'a> {
    pub member: &'a String,
    pub done: Vec<Work>,
    pub to_do: Vec<Work>,
    pub problem: Vec<Issue>,
}

/// The reports of all members for one date.
pub struct JsonDaily<'a> {
    pub date: String,
    pub entries: Vec<JsonEntry<'a>>,
}

/// The members taking part in a sprint.
pub struct Sprint {
    pub members: Vec<Member>,
}

/// A request to log in.
pub struct AuthRequest {
    account: String,
    password: String,
}

impl AuthRequest {
    /// A request to log in to `account` with `password`.
    pub fn new(account: String, password: String) -> (r: AuthRequest)
        ensures
            r.account() == account,
            r.password() == password,
    {
        AuthRequest { account, password }
    }

    /// The account that asks to log in.
    pub closed spec fn account(&self) -> String {
        self.account
    }

    /// The password given with the request.
    pub closed spec fn password(&self) -> String {
        self.password
    }

    /// The account that asks to log in.
    pub fn get_account(&self) -> (r: &String)
        ensures
            *r == self.account(),
    {
        &self.account
    }

    /// The password given with the request.
    pub fn get_password(&self) -> (r: &String)
        ensures
            *r == self.password(),
    {
        &self.password
    }
}

/// The answer to a request to log in.
#[derive(Debug)]
pub struct AuthResponse {
    pub success: bool,
    pub token: Option<String>,
    pub explain: String,
}

} // verus!
