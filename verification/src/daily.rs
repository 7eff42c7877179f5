//! The reports of the day, one per member.

use vstd::prelude::*;
use crate::model::{Member, MemberView, Entry, EntryView};

verus! {

broadcast use {vstd::map::group_map_axioms, vstd::set::group_set_axioms};

/// The reports of the day, keyed by the member who wrote each.
///
/// A report is filed under the whole member, name, account and password
/// together: it is found again only through a member equal in all three.
pub struct DailyBook {
    members: Vec<Member>,
    entries: Vec<Entry>,
}

/// Whether two members have the same name, account and password.
pub fn same_member(a: &Member, b: &Member) -> (r: bool)
    ensures
        r == (a@ == b@),
{
    a.name == b.name && a.account == b.account && a.password == b.password
}

impl DailyBook {
    /// Each member has one report, and no member occurs twice.
    #[verifier::type_invariant]
    spec fn well_formed(self) -> bool {
        &&& self.members@.len() == self.entries@.len()
        &&& forall|i: int, j: int|
            0 <= i < j < self.members@.len() ==> self.members@[i]@ != self.members@[j]@
    }

    spec fn holds_at(self, k: MemberView, i: int) -> bool {
        0 <= i < self.members@.len() && self.members@[i]@ == k
    }

    /// The report of each member who has one.
    pub closed spec fn reports(self) -> Map<MemberView, EntryView> {
        Map::new(
            |k: MemberView| exists|i: int| self.holds_at(k, i),
            |k: MemberView| self.entries@[choose|i: int| self.holds_at(k, i)]@,
        )
    }

    proof fn lemma_report_at(self, i: int)
        requires
            self.well_formed(),
            0 <= i < self.members@.len(),
        ensures
            self.reports().contains_key(self.members@[i]@),
            self.reports()[self.members@[i]@] == self.entries@[i]@,
    {
        let k = self.members@[i]@;
        assert(self.holds_at(k, i));
        let j: int = choose|j: int| self.holds_at(k, j);
        if j < i {
            assert(self.members@[j]@ != self.members@[i]@);
        } else if i < j {
            assert(self.members@[i]@ != self.members@[j]@);
        }
    }

    /// A book with no report in it.
    pub fn new() -> (r: DailyBook)
        ensures
            r@ == Map::<MemberView, EntryView>::empty(),
    {
        let r = DailyBook { members: Vec::new(), entries: Vec::new() };
        assert(r.reports() =~= Map::<MemberView, EntryView>::empty());
        r
    }

    fn find(&self, m: &Member) -> (r: Option<usize>)
        ensures
            match r {
                Some(i) => i < self.members@.len() && self.members@[i as int]@ == m@,
                None => !self@.contains_key(m@),
            },
    {
        let mut i: usize = 0;
        while i < self.members.len()
            invariant
                i <= self.members@.len(),
                forall|j: int| 0 <= j < i ==> self.members@[j]@ != m@,
            decreases self.members@.len() - i,
        {
            if same_member(&self.members[i], m) {
                return Some(i);
            }
            i += 1;
        }
        None
    }

    /// The report of member `m`, if it has one.
    pub fn get(&self, m: &Member) -> (r: Option<&Entry>)
        ensures
            match r {
                Some(e) => self@.contains_key(m@) && e@ == self@[m@],
                None => !self@.contains_key(m@),
            },
    {
        proof { use_type_invariant(self); }
        match self.find(m) {
            Some(i) => {
                proof { self.lemma_report_at(i as int); }
                Some(&self.entries[i])
            },
            None => None,
        }
    }

    /// The report of member `m`, to be changed in place, if it has one.
    pub fn get_mut(&mut self, m: &Member) -> (r: Option<&mut Entry>)
        ensures
            match r {
                Some(e) => {
                    &&& old(self)@.contains_key(m@)
                    &&& (*e)@ == old(self)@[m@]
                    &&& final(self)@ == old(self)@.insert(m@, final(e)@)
                },
                None => !old(self)@.contains_key(m@) && final(self)@ == old(self)@,
            },
    {
        proof { use_type_invariant(&*self); }
        match self.find(m) {
            Some(i) => {
                proof {
                    self.lemma_report_at(i as int);
                    self.lemma_replace_report(i as int);
                }
                Some(&mut self.entries[i])
            },
            None => None,
        }
    }

    /// Files report `e` for member `m`, in place of any report `m` had.
    pub fn insert(&mut self, m: Member, e: Entry)
        ensures
            final(self)@ == old(self)@.insert(m@, e@),
    {
        proof { use_type_invariant(&*self); }
        let ghost pre = *self;
        let ghost ge = e;
        match self.find(&m) {
            Some(i) => {
                self.entries[i] = e;
                proof { pre.lemma_replace_one(*self, i as int, ge); }
            },
            None => {
                let ghost gm = m;
                let mut book = DailyBook::new();
                std::mem::swap(self, &mut book);
                let DailyBook { mut members, mut entries } = book;
                members.push(m);
                entries.push(e);
                proof {
                    pre.lemma_push_one(DailyBook { members, entries }, gm, ge);
                }
                *self = DailyBook { members, entries };
            },
        }
    }

    proof fn lemma_push_one(self, b: DailyBook, m: Member, e: Entry)
        requires
            self.well_formed(),
            !self.reports().dom().contains(m@),
            b.members@ == self.members@.push(m),
            b.entries@ == self.entries@.push(e),
        ensures
            b.well_formed(),
            b.reports() == self.reports().insert(m@, e@),
    {
        let n: int = self.members@.len() as int;
        let target = self.reports().insert(m@, e@);
        assert forall|i: int, j: int| 0 <= i < j < b.members@.len()
            implies b.members@[i]@ != b.members@[j]@
        by {
            if j == n {
                assert(self.holds_at(self.members@[i]@, i));
            }
        }
        assert forall|k: MemberView|
            #[trigger] b.reports().dom().contains(k) == target.dom().contains(k)
        by {
            if b.reports().dom().contains(k) {
                let j: int = choose|j: int| b.holds_at(k, j);
                if j < n {
                    assert(self.holds_at(k, j));
                }
            }
            if target.dom().contains(k) {
                if k != m@ {
                    let j: int = choose|j: int| self.holds_at(k, j);
                    assert(b.holds_at(k, j));
                } else {
                    assert(b.holds_at(k, n));
                }
            }
        }
        assert forall|k: MemberView| #[trigger] b.reports().dom().contains(k)
            implies b.reports()[k] == target[k]
        by {
            let j: int = choose|j: int| b.holds_at(k, j);
            b.lemma_report_at(j);
            if j < n {
                assert(self.holds_at(k, j));
                self.lemma_report_at(j);
            }
        }
        assert(b.reports() =~= target);
    }

    proof fn lemma_replace_report(self, i: int)
        requires
            self.well_formed(),
            0 <= i < self.members@.len(),
        ensures
            forall|b: DailyBook, e: Entry|
                #![trigger b.reports(), self.entries@.update(i, e)]
                b.members@ == self.members@ && b.entries@ == self.entries@.update(i, e)
                    ==> b.reports() == self.reports().insert(self.members@[i]@, e@),
    {
        assert forall|b: DailyBook, e: Entry|
            #![trigger b.reports(), self.entries@.update(i, e)]
            b.members@ == self.members@ && b.entries@ == self.entries@.update(i, e)
            implies b.reports() == self.reports().insert(self.members@[i]@, e@)
        by {
            self.lemma_replace_one(b, i, e);
        }
    }

    proof fn lemma_replace_one(self, b: DailyBook, i: int, e: Entry)
        requires
            self.well_formed(),
            0 <= i < self.members@.len(),
            b.members@ == self.members@,
            b.entries@ == self.entries@.update(i, e),
        ensures
            b.reports() == self.reports().insert(self.members@[i]@, e@),
    {
        let m = self.members@[i]@;
        let target = self.reports().insert(m, e@);
        assert forall|k: MemberView|
            #[trigger] b.reports().dom().contains(k) == target.dom().contains(k)
        by {
            if b.reports().dom().contains(k) {
                let j: int = choose|j: int| b.holds_at(k, j);
                assert(self.holds_at(k, j));
                self.lemma_report_at(j);
            }
            if target.dom().contains(k) {
                if k != m {
                    let j: int = choose|j: int| self.holds_at(k, j);
                    assert(b.holds_at(k, j));
                } else {
                    assert(b.holds_at(k, i));
                }
            }
        }
        assert forall|k: MemberView| #[trigger] b.reports().dom().contains(k)
            implies b.reports()[k] == target[k]
        by {
            let j: int = choose|j: int| b.holds_at(k, j);
            assert(self.holds_at(k, j));
            self.lemma_report_at(j);
            if j != i {
                if j < i {
                    assert(self.members@[j]@ != self.members@[i]@);
                } else {
                    assert(self.members@[i]@ != self.members@[j]@);
                }
            }
        }
        assert(b.reports() =~= target);
    }
}

impl View for DailyBook {
    type V = Map<MemberView, EntryView>;

    closed spec fn view(&self) -> Map<MemberView, EntryView> {
        self.reports()
    }
}

} // verus!
