//! The state of the board: its members, the tokens handed out at login, and
//! the day's reports.

use vstd::prelude::*;
use vstd::hash_map::StringHashMap;
use crate::model::{Member, MemberView, Work, Issue, Entry, EntryView, JsonEntry, JsonDaily, empty_entry, copy_works, copy_issues};
use crate::daily::DailyBook;
use crate::token::{make_token, token_for, is_token_shape};
use crate::outside::{now_timestamp, today_text, is_date_text};

verus! {

/// Everything the board keeps.
pub struct ServerData {
    /// The registered members, in the order they registered.
    pub accounts: Vec<Member>,
    /// The member that each token handed out at login stands for.
    pub auth: StringHashMap<Member>,
    /// The day's report of each member who has one.
    pub daily: DailyBook,
}

/// Whether a member in `members` has account `acc`.
pub open spec fn has_account(members: Seq<Member>, acc: Seq<char>) -> bool {
    exists|i: int| 0 <= i < members.len() && members[i].account@ == acc
}

/// Whether a member in `members` has account `acc` and password `pwd`.
pub open spec fn has_login(members: Seq<Member>, acc: Seq<char>, pwd: Seq<char>) -> bool {
    exists|i: int|
        0 <= i < members.len() && members[i].account@ == acc && members[i].password@ == pwd
}

/// Whether `i` is the first position in `members` that holds account `acc`.
pub open spec fn is_first_with(members: Seq<Member>, acc: Seq<char>, i: int) -> bool {
    &&& 0 <= i < members.len()
    &&& members[i].account@ == acc
    &&& forall|j: int| 0 <= j < i ==> members[j].account@ != acc
}

/// The first member in `members` with account `acc`, if any.
pub open spec fn first_with(members: Seq<Member>, acc: Seq<char>) -> Option<Member> {
    if has_account(members, acc) {
        Some(members[choose|i: int| is_first_with(members, acc, i)])
    } else {
        None
    }
}

/// The report of `m` in `daily`, or the empty report if it has none.
pub open spec fn report_of(daily: Map<MemberView, EntryView>, m: MemberView) -> EntryView {
    if daily.contains_key(m) {
        daily[m]
    } else {
        empty_entry()
    }
}

/// The titles of a list of work items.
pub open spec fn work_titles(s: Seq<Work>) -> Seq<Seq<char>> {
    Seq::new(s.len(), |i: int| s[i].title@)
}

/// The titles of a list of issues.
pub open spec fn issue_titles(s: Seq<Issue>) -> Seq<Seq<char>> {
    Seq::new(s.len(), |i: int| s[i].title@)
}

/// Whether `e` shows member name `name` with report `rep`.
pub open spec fn shows_report(e: JsonEntry, name: String, rep: EntryView) -> bool {
    &&& *e.member == name
    &&& e.done@ == rep.done
    &&& e.to_do@ == rep.to_do
    &&& e.problem@ == rep.problem
}

/// When `i` is the first position holding account `acc`, the member there is
/// the one `first_with` names.
pub proof fn lemma_first_with(members: Seq<Member>, acc: Seq<char>, i: int)
    requires
        is_first_with(members, acc, i),
    ensures
        has_account(members, acc),
        first_with(members, acc) == Some(members[i]),
{
    let c: int = choose|c: int| is_first_with(members, acc, c);
    assert(is_first_with(members, acc, c));
    if c < i {
        assert(members[c].account@ != acc);
    } else if i < c {
        assert(members[i].account@ != acc);
    }
}

fn empty_report() -> (r: Entry)
    ensures
        r@ == empty_entry(),
{
    Entry { done: Vec::new(), to_do: Vec::new(), problem: Vec::new() }
}

impl ServerData {
    /// A board with no member, no token and no report.
    pub fn new() -> (r: ServerData)
        ensures
            r.accounts@ == Seq::<Member>::empty(),
            r.auth@ == Map::<Seq<char>, Member>::empty(),
            r.daily@ == Map::<MemberView, EntryView>::empty(),
    {
        ServerData { accounts: Vec::new(), auth: StringHashMap::new(), daily: DailyBook::new() }
    }

    /// A board with two members, taro and hana, each with a report.
    pub fn seed() -> (r: ServerData)
        ensures
            r.accounts@.len() == 2,
            r.accounts@[0]@ == (MemberView { name: "太郎"@, account: "taro"@, password: "secret"@ }),
            r.accounts@[1]@ == (MemberView { name: "花子"@, account: "hana"@, password: "abc123"@ }),
            r.auth@ == Map::<Seq<char>, Member>::empty(),
            r.daily@.dom() == set![r.accounts@[0]@, r.accounts@[1]@],
            work_titles(r.daily@[r.accounts@[0]@].done) == seq!["チケット#2"@, "チケット#4"@],
            work_titles(r.daily@[r.accounts@[0]@].to_do) == seq!["チケット#3"@],
            issue_titles(r.daily@[r.accounts@[0]@].problem) == seq!["結合テスト環境が動いていない"@],
            work_titles(r.daily@[r.accounts@[1]@].done) == seq!["チケット#1"@],
            work_titles(r.daily@[r.accounts@[1]@].to_do) == seq!["チケット#1"@],
            issue_titles(r.daily@[r.accounts@[1]@].problem) == seq!["チケット＃１が終わらなくて大変"@],
    {
        let mut sv_data = ServerData {
            accounts: Vec::new(),
            auth: StringHashMap::new(),
            daily: DailyBook::new(),
        };
        let taro = Member {
            name: "太郎".to_owned(),
            account: "taro".to_owned(),
            password: "secret".to_owned(),
        };
        sv_data.add_member(taro);
        let first = sv_data.accounts.last().unwrap().clone();
        sv_data.daily.insert(first, Entry {
            done: vec![Work { title: "チケット#2".to_owned() }, Work { title: "チケット#4".to_owned() }],
            to_do: vec![Work { title: "チケット#3".to_owned() }],
            problem: vec![Issue { title: "結合テスト環境が動いていない".to_owned() }],
        });

        let hanako = Member {
            name: "花子".to_owned(),
            account: "hana".to_owned(),
            password: "abc123".to_owned(),
        };
        sv_data.add_member(hanako);
        let second = sv_data.accounts.last().unwrap().clone();
        sv_data.daily.insert(second, Entry {
            done: vec![Work { title: "チケット#1".to_owned() }],
            to_do: vec![Work { title: "チケット#1".to_owned() }],
            problem: vec![Issue { title: "チケット＃１が終わらなくて大変".to_owned() }],
        });
        proof {
            reveal_strlit("taro");
            reveal_strlit("hana");
            let a0 = sv_data.accounts@[0]@;
            let a1 = sv_data.accounts@[1]@;
            assert(a0.account[0] != a1.account[0]);
            assert(sv_data.daily@.dom() =~= set![a0, a1]);
            assert(work_titles(sv_data.daily@[a0].done) =~= seq!["チケット#2"@, "チケット#4"@]);
            assert(work_titles(sv_data.daily@[a0].to_do) =~= seq!["チケット#3"@]);
            assert(issue_titles(sv_data.daily@[a0].problem) =~= seq!["結合テスト環境が動いていない"@]);
            assert(work_titles(sv_data.daily@[a1].done) =~= seq!["チケット#1"@]);
            assert(work_titles(sv_data.daily@[a1].to_do) =~= seq!["チケット#1"@]);
            assert(issue_titles(sv_data.daily@[a1].problem) =~= seq!["チケット＃１が終わらなくて大変"@]);
        }
        sv_data
    }

    /// Whether some member has account `acc`.
    pub fn is_member(&self, acc: &String) -> (r: bool)
        ensures
            r == has_account(self.accounts@, acc@),
    {
        let mut i: usize = 0;
        while i < self.accounts.len()
            invariant
                i <= self.accounts@.len(),
                forall|j: int| 0 <= j < i ==> self.accounts@[j].account@ != acc@,
            decreases self.accounts@.len() - i,
        {
            if *acc == self.accounts[i].account {
                return true;
            }
            i += 1;
        }
        false
    }

    /// Whether some member has account `acc` and password `pwd`.
    pub fn is_authorized(&self, acc: &String, pwd: &String) -> (r: bool)
        ensures
            r == has_login(self.accounts@, acc@, pwd@),
    {
        let mut i: usize = 0;
        while i < self.accounts.len()
            invariant
                i <= self.accounts@.len(),
                forall|j: int|
                    0 <= j < i ==> !(self.accounts@[j].account@ == acc@
                        && self.accounts@[j].password@ == pwd@),
            decreases self.accounts@.len() - i,
        {
            if *acc == self.accounts[i].account && *pwd == self.accounts[i].password {
                return true;
            }
            i += 1;
        }
        false
    }

    /// Registers member `m`, after all members registered before.
    pub fn add_member(&mut self, m: Member) -> (r: &ServerData)
        ensures
            final(self).accounts@ == old(self).accounts@.push(m),
            final(self).auth@ == old(self).auth@,
            final(self).daily@ == old(self).daily@,
            *r == *final(self),
    {
        self.accounts.push(m);
        return self;
    }

    /// A copy of the first member with account `acc`, if any.
    pub fn member_called(&self, acc: &String) -> (r: Option<Member>)
        ensures
            r == first_with(self.accounts@, acc@),
    {
        let mut i: usize = 0;
        while i < self.accounts.len()
            invariant
                i <= self.accounts@.len(),
                forall|j: int| 0 <= j < i ==> self.accounts@[j].account@ != acc@,
            decreases self.accounts@.len() - i,
        {
            if self.accounts[i].account == *acc {
                proof { lemma_first_with(self.accounts@, acc@, i as int); }
                return Some(self.accounts[i].clone());
            }
            i += 1;
        }
        None
    }

    /// Hands out the token for `acc` and `pwd` at time `time` (seconds since
    /// the Unix epoch), and remembers that it stands for the first member with
    /// account `acc`.
    pub fn authorize_at(&mut self, acc: &String, pwd: &String, time: i64) -> (r: String)
        requires
            has_account(old(self).accounts@, acc@),
        ensures
            r@ == token_for(acc@, pwd@, time),
            is_token_shape(r@),
            final(self).auth@ == old(self).auth@.insert(r@, first_with(old(self).accounts@, acc@).unwrap()),
            final(self).accounts@ == old(self).accounts@,
            final(self).daily@ == old(self).daily@,
    {
        let js = make_token(acc, pwd, time);
        let m = self.member_called(acc).unwrap();
        self.auth.insert(js.clone(), m);
        js
    }

    /// Hands out the token for `acc` and `pwd` at the present time, and
    /// remembers that it stands for the first member with account `acc`.
    pub fn authorize(&mut self, acc: &String, pwd: &String) -> (r: String)
        requires
            has_account(old(self).accounts@, acc@),
        ensures
            exists|time: i64| r@ == token_for(acc@, pwd@, time),
            is_token_shape(r@),
            final(self).auth@ == old(self).auth@.insert(r@, first_with(old(self).accounts@, acc@).unwrap()),
            final(self).accounts@ == old(self).accounts@,
            final(self).daily@ == old(self).daily@,
    {
        let now: i64 = now_timestamp();
        self.authorize_at(acc, pwd, now)
    }

    /// Every member's report, in the order the members registered, dated
    /// `date`; a member with no report shows an empty one.
    pub fn to_json_entry_on(&self, date: String) -> (r: JsonDaily<'_>)
        ensures
            r.date == date,
            r.entries@.len() == self.accounts@.len(),
            forall|i: int|
                0 <= i < self.accounts@.len() ==> shows_report(
                    #[trigger] r.entries@[i],
                    self.accounts@[i].name,
                    report_of(self.daily@, self.accounts@[i]@),
                ),
    {
        let mut entries: Vec<JsonEntry> = Vec::new();
        let mut i: usize = 0;
        while i < self.accounts.len()
            invariant
                i <= self.accounts@.len(),
                entries@.len() == i,
                forall|j: int|
                    0 <= j < i ==> shows_report(
                        #[trigger] entries@[j],
                        self.accounts@[j].name,
                        report_of(self.daily@, self.accounts@[j]@),
                    ),
            decreases self.accounts@.len() - i,
        {
            let m = &self.accounts[i];
            match self.daily.get(m) {
                Some(v) => {
                    entries.push(JsonEntry {
                        member: &m.name,
                        done: copy_works(&v.done),
                        to_do: copy_works(&v.to_do),
                        problem: copy_issues(&v.problem),
                    });
                },
                None => {
                    entries.push(JsonEntry {
                        member: &m.name,
                        done: Vec::new(),
                        to_do: Vec::new(),
                        problem: Vec::new(),
                    });
                },
            }
            i += 1;
        }
        JsonDaily { date, entries }
    }

    /// Every member's report, in the order the members registered, dated
    /// today; a member with no report shows an empty one.
    pub fn to_json_entry(&self) -> (r: JsonDaily<'_>)
        ensures
            is_date_text(r.date@),
            r.entries@.len() == self.accounts@.len(),
            forall|i: int|
                0 <= i < self.accounts@.len() ==> shows_report(
                    #[trigger] r.entries@[i],
                    self.accounts@[i].name,
                    report_of(self.daily@, self.accounts@[i]@),
                ),
    {
        let date = today_text();
        self.to_json_entry_on(date)
    }

    /// A copy of the report of `m`, or an empty report if it has none.
    pub fn entries_for(&self, m: &Member) -> (r: Entry)
        ensures
            r@ == report_of(self.daily@, m@),
    {
        match self.daily.get(m) {
            Some(v) => v.copy(),
            None => empty_report(),
        }
    }

    /// Replaces the done list in the report of `user`, if it has one;
    /// returns whether it has one.
    pub fn update_done(&mut self, user: &Member, done: &Vec<Work>) -> (r: bool)
        ensures
            r == old(self).daily@.contains_key(user@),
            final(self).daily@ == if r {
                old(self).daily@.insert(user@, with_done(old(self).daily@[user@], done@))
            } else {
                old(self).daily@
            },
            final(self).accounts@ == old(self).accounts@,
            final(self).auth@ == old(self).auth@,
    {
        match self.daily.get_mut(user) {
            Some(v) => {
                v.done = copy_works(done);
                true
            },
            None => false,
        }
    }

    /// Removes item `id` from the done list in the report of `user`, if it
    /// has a report; returns whether it has one.
    pub fn delete_done_at(&mut self, user: &Member, id: usize) -> (r: bool)
        requires
            old(self).daily@.contains_key(user@) ==> id < old(self).daily@[user@].done.len(),
        ensures
            r == old(self).daily@.contains_key(user@),
            final(self).daily@ == if r {
                let e = old(self).daily@[user@];
                old(self).daily@.insert(user@, with_done(e, e.done.remove(id as int)))
            } else {
                old(self).daily@
            },
            final(self).accounts@ == old(self).accounts@,
            final(self).auth@ == old(self).auth@,
    {
        match self.daily.get_mut(user) {
            Some(v) => {
                v.done.remove(id);
                true
            },
            None => false,
        }
    }

    /// Replaces the to-do list in the report of `user`, if it has one;
    /// returns whether it has one.
    pub fn update_todo(&mut self, user: &Member, todo: &Vec<Work>) -> (r: bool)
        ensures
            r == old(self).daily@.contains_key(user@),
            final(self).daily@ == if r {
                old(self).daily@.insert(user@, with_to_do(old(self).daily@[user@], todo@))
            } else {
                old(self).daily@
            },
            final(self).accounts@ == old(self).accounts@,
            final(self).auth@ == old(self).auth@,
    {
        match self.daily.get_mut(user) {
            Some(v) => {
                v.to_do = copy_works(todo);
                true
            },
            None => false,
        }
    }

    /// Removes item `id` from the to-do list in the report of `user`, if it
    /// has a report; returns whether it has one.
    pub fn delete_todo_at(&mut self, user: &Member, id: usize) -> (r: bool)
        requires
            old(self).daily@.contains_key(user@) ==> id < old(self).daily@[user@].to_do.len(),
        ensures
            r == old(self).daily@.contains_key(user@),
            final(self).daily@ == if r {
                let e = old(self).daily@[user@];
                old(self).daily@.insert(user@, with_to_do(e, e.to_do.remove(id as int)))
            } else {
                old(self).daily@
            },
            final(self).accounts@ == old(self).accounts@,
            final(self).auth@ == old(self).auth@,
    {
        match self.daily.get_mut(user) {
            Some(v) => {
                v.to_do.remove(id);
                true
            },
            None => false,
        }
    }

    /// Replaces the problem list in the report of `user`, if it has one;
    /// returns whether it has one.
    pub fn update_problem(&mut self, user: &Member, problem: &Vec<Issue>) -> (r: bool)
        ensures
            r == old(self).daily@.contains_key(user@),
            final(self).daily@ == if r {
                old(self).daily@.insert(user@, with_problem(old(self).daily@[user@], problem@))
            } else {
                old(self).daily@
            },
            final(self).accounts@ == old(self).accounts@,
            final(self).auth@ == old(self).auth@,
    {
        match self.daily.get_mut(user) {
            Some(v) => {
                v.problem = copy_issues(problem);
                true
            },
            None => false,
        }
    }

    /// Removes item `id` from the problem list in the report of `user`, if
    /// it has a report; returns whether it has one.
    pub fn delete_problem_at(&mut self, user: &Member, id: usize) -> (r: bool)
        requires
            old(self).daily@.contains_key(user@) ==> id < old(self).daily@[user@].problem.len(),
        ensures
            r == old(self).daily@.contains_key(user@),
            final(self).daily@ == if r {
                let e = old(self).daily@[user@];
                old(self).daily@.insert(user@, with_problem(e, e.problem.remove(id as int)))
            } else {
                old(self).daily@
            },
            final(self).accounts@ == old(self).accounts@,
            final(self).auth@ == old(self).auth@,
    {
        match self.daily.get_mut(user) {
            Some(v) => {
                v.problem.remove(id);
                true
            },
            None => false,
        }
    }
}

/// Report `e` with its done list replaced by `done`.
pub open spec fn with_done(e: EntryView, done: Seq<Work>) -> EntryView {
    EntryView { done: done, to_do: e.to_do, problem: e.problem }
}

/// Report `e` with its to-do list replaced by `to_do`.
pub open spec fn with_to_do(e: EntryView, to_do: Seq<Work>) -> EntryView {
    EntryView { done: e.done, to_do: to_do, problem: e.problem }
}

/// Report `e` with its problem list replaced by `problem`.
pub open spec fn with_problem(e: EntryView, problem: Seq<Issue>) -> EntryView {
    EntryView { done: e.done, to_do: e.to_do, problem: problem }
}

} // verus!
