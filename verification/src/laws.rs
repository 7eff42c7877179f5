//! What holds of the board across its operations.

use vstd::prelude::*;
use crate::model::{Member, MemberView, EntryView, Work, Issue};
use crate::param::{ParseIndexError, is_digit, scan_digits, index_of_text};
use crate::server::{
    has_account, has_login, is_first_with, first_with, report_of, with_done, with_to_do,
    with_problem, lemma_first_with,
};

verus! {

/// Whether no two members in `members` share an account.
pub open spec fn accounts_unique(members: Seq<Member>) -> bool {
    forall|i: int, j: int|
        0 <= i < j < members.len() ==> members[i].account@ != members[j].account@
}

/// Some position holding account `acc` is the first one.
proof fn lemma_first_exists(members: Seq<Member>, acc: Seq<char>, i: int)
    requires
        0 <= i < members.len(),
        members[i].account@ == acc,
    ensures
        exists|f: int| is_first_with(members, acc, f),
    decreases i,
{
    if exists|j: int| 0 <= j < i && members[j].account@ == acc {
        let j: int = choose|j: int| 0 <= j < i && members[j].account@ == acc;
        lemma_first_exists(members, acc, j);
    } else {
        assert(is_first_with(members, acc, i));
    }
}

/// A member who may log in is a member: whoever has an account and password
/// that `is_authorized` accepts has an account that `is_member` accepts.
pub proof fn law_authorized_is_member(members: Seq<Member>, acc: Seq<char>, pwd: Seq<char>)
    requires
        has_login(members, acc, pwd),
    ensures
        has_account(members, acc),
{
    let i: int = choose|i: int|
        0 <= i < members.len() && members[i].account@ == acc && members[i].password@ == pwd;
    assert(members[i].account@ == acc);
}

/// `member_called` finds a member exactly when `is_member` holds, and what it
/// finds is a registered member with that account.
pub proof fn law_member_called_finds_members(members: Seq<Member>, acc: Seq<char>)
    ensures
        first_with(members, acc) is Some <==> has_account(members, acc),
        first_with(members, acc) matches Some(m) ==> m.account@ == acc && members.contains(m),
{
    if has_account(members, acc) {
        let i: int = choose|i: int| 0 <= i < members.len() && members[i].account@ == acc;
        lemma_first_exists(members, acc, i);
        let f: int = choose|f: int| is_first_with(members, acc, f);
        lemma_first_with(members, acc, f);
        assert(members[f] == members[f]);
    }
}

/// A token handed out at login lets its bearer in as the account that
/// logged in: after `authorize` (or a successful `login`) for account `acc`,
/// the token it returned is known, and `authenticator` answers it with `acc`.
pub proof fn law_token_opens_session(
    auth: Map<Seq<char>, Member>,
    members: Seq<Member>,
    acc: Seq<char>,
    token: Seq<char>,
)
    requires
        has_account(members, acc),
    ensures
        auth.insert(token, first_with(members, acc).unwrap()).contains_key(token),
        auth.insert(token, first_with(members, acc).unwrap())[token].account@ == acc,
{
    law_member_called_finds_members(members, acc);
}

/// Registering a member never changes whom an existing account stands for,
/// and the new member's account is known afterwards.
pub proof fn law_registration_keeps_accounts(members: Seq<Member>, m: Member, acc: Seq<char>)
    ensures
        has_account(members.push(m), m.account@),
        has_account(members, acc) ==> has_account(members.push(m), acc),
        has_account(members, acc) ==> first_with(members.push(m), acc) == first_with(members, acc),
{
    let s = members.push(m);
    assert(s[members.len() as int] == m);
    if has_account(members, acc) {
        let i: int = choose|i: int| 0 <= i < members.len() && members[i].account@ == acc;
        assert(s[i] == members[i]);
        lemma_first_exists(members, acc, i);
        let f: int = choose|f: int| is_first_with(members, acc, f);
        lemma_first_with(members, acc, f);
        assert(is_first_with(s, acc, f)) by {
            assert forall|j: int| 0 <= j < f implies s[j].account@ != acc by {
                assert(s[j] == members[j]);
            }
        }
        lemma_first_with(s, acc, f);
    }
}

/// `register` keeps accounts unique: a list of members without a shared
/// account stays so when a member whose account is not yet taken is added.
pub proof fn law_register_keeps_accounts_unique(members: Seq<Member>, m: Member)
    requires
        accounts_unique(members),
        !has_account(members, m.account@),
    ensures
        accounts_unique(members.push(m)),
{
    let s = members.push(m);
    assert forall|i: int, j: int| 0 <= i < j < s.len() implies s[i].account@ != s[j].account@ by {
        assert(s[i] == members[i]);
        if j == members.len() {
            assert(s[j] == m);
        } else {
            assert(s[j] == members[j]);
        }
    }
}

/// What an update writes, a later read gives back: after a list in the
/// report of `user` is replaced, `entries_for(user)` shows the new list and
/// the other two lists as they were, and every other member's report is
/// unchanged.
pub proof fn law_update_then_read(
    daily: Map<MemberView, EntryView>,
    user: MemberView,
    other: MemberView,
    works: Seq<Work>,
    issues: Seq<Issue>,
)
    requires
        daily.contains_key(user),
        other != user,
    ensures
        report_of(daily.insert(user, with_done(daily[user], works)), user)
            == (EntryView { done: works, to_do: daily[user].to_do, problem: daily[user].problem }),
        report_of(daily.insert(user, with_to_do(daily[user], works)), user)
            == (EntryView { done: daily[user].done, to_do: works, problem: daily[user].problem }),
        report_of(daily.insert(user, with_problem(daily[user], issues)), user)
            == (EntryView { done: daily[user].done, to_do: daily[user].to_do, problem: issues }),
        report_of(daily.insert(user, with_done(daily[user], works)), other) == report_of(daily, other),
        report_of(daily.insert(user, with_to_do(daily[user], works)), other) == report_of(daily, other),
        report_of(daily.insert(user, with_problem(daily[user], issues)), other)
            == report_of(daily, other),
{
}

/// Deleting item `id` from a list shortens it by one and keeps the items
/// before and after it in order, as `entries_for` then shows; the other two
/// lists stay as they were.
pub proof fn law_delete_then_read(daily: Map<MemberView, EntryView>, user: MemberView, id: int)
    requires
        daily.contains_key(user),
        0 <= id,
    ensures
        ({
            let e = daily[user];
            let after = report_of(daily.insert(user, with_done(e, e.done.remove(id))), user);
            id < e.done.len() ==> {
                &&& after.done.len() == e.done.len() - 1
                &&& forall|k: int| 0 <= k < id ==> after.done[k] == e.done[k]
                &&& forall|k: int| id <= k < after.done.len() ==> after.done[k] == e.done[k + 1]
                &&& after.to_do == e.to_do
                &&& after.problem == e.problem
            }
        }),
        ({
            let e = daily[user];
            let after = report_of(daily.insert(user, with_to_do(e, e.to_do.remove(id))), user);
            id < e.to_do.len() ==> {
                &&& after.to_do.len() == e.to_do.len() - 1
                &&& forall|k: int| 0 <= k < id ==> after.to_do[k] == e.to_do[k]
                &&& forall|k: int| id <= k < after.to_do.len() ==> after.to_do[k] == e.to_do[k + 1]
                &&& after.done == e.done
                &&& after.problem == e.problem
            }
        }),
        ({
            let e = daily[user];
            let after = report_of(daily.insert(user, with_problem(e, e.problem.remove(id))), user);
            id < e.problem.len() ==> {
                &&& after.problem.len() == e.problem.len() - 1
                &&& forall|k: int| 0 <= k < id ==> after.problem[k] == e.problem[k]
                &&& forall|k: int|
                    id <= k < after.problem.len() ==> after.problem[k] == e.problem[k + 1]
                &&& after.done == e.done
                &&& after.to_do == e.to_do
            }
        }),
{
}

/// Logging in adds a session without ending any other: every token known
/// before still stands for the same member, unless it is the very token just
/// handed out.
pub proof fn law_login_keeps_other_sessions(
    auth: Map<Seq<char>, Member>,
    token: Seq<char>,
    m: Member,
    other: Seq<char>,
)
    requires
        auth.contains_key(other),
        other != token,
    ensures
        auth.insert(token, m).contains_key(other),
        auth.insert(token, m)[other] == auth[other],
{
}

/// Every registered member, wherever it stands in the list, is a member and
/// may log in with its own account and password.
pub proof fn law_every_member_can_log_in(members: Seq<Member>, i: int)
    requires
        0 <= i < members.len(),
    ensures
        has_account(members, members[i].account@),
        has_login(members, members[i].account@, members[i].password@),
{
}

/// A member registered last may log in with its own account and password,
/// whatever came before it.
pub proof fn law_registered_member_can_log_in(members: Seq<Member>, m: Member)
    ensures
        has_login(members.push(m), m.account@, m.password@),
{
    law_every_member_can_log_in(members.push(m), members.len() as int);
}

/// A login is accepted exactly when some registered member has both the
/// account and the password given, and an account is known exactly when some
/// registered member has it.
pub proof fn law_login_needs_a_member(members: Seq<Member>, acc: Seq<char>, pwd: Seq<char>)
    ensures
        has_login(members, acc, pwd) <==> exists|m: Member|
            members.contains(m) && m.account@ == acc && m.password@ == pwd,
        has_account(members, acc) <==> exists|m: Member| members.contains(m) && m.account@ == acc,
{
    if has_login(members, acc, pwd) {
        let i: int = choose|i: int|
            0 <= i < members.len() && members[i].account@ == acc && members[i].password@ == pwd;
        assert(members.contains(members[i]));
    }
    if exists|m: Member| members.contains(m) && m.account@ == acc && m.password@ == pwd {
        let m = choose|m: Member| members.contains(m) && m.account@ == acc && m.password@ == pwd;
        let i: int = choose|i: int| 0 <= i < members.len() && members[i] == m;
        law_every_member_can_log_in(members, i);
    }
    if has_account(members, acc) {
        let i: int = choose|i: int| 0 <= i < members.len() && members[i].account@ == acc;
        assert(members.contains(members[i]));
    }
    if exists|m: Member| members.contains(m) && m.account@ == acc {
        let m = choose|m: Member| members.contains(m) && m.account@ == acc;
        let i: int = choose|i: int| 0 <= i < members.len() && members[i] == m;
        law_every_member_can_log_in(members, i);
    }
}

/// The number that the decimal digits `d` write, most significant first.
pub open spec fn decimal_value(d: Seq<u8>) -> nat
    decreases d.len(),
{
    if d.len() == 0 {
        0
    } else {
        decimal_value(d.drop_last()) * 10 + (d.last() - 48) as nat
    }
}

/// Whether every byte of `d` is an ASCII decimal digit.
pub open spec fn all_digits(d: Seq<u8>) -> bool {
    forall|k: int| 0 <= k < d.len() ==> is_digit(#[trigger] d[k])
}

/// The part of `s` that holds the digits: all of it, or all after a leading
/// `+`.
pub open spec fn digits_part(s: Seq<u8>) -> Seq<u8> {
    if s.len() > 0 && s[0] == 43 {
        s.subrange(1, s.len() as int)
    } else {
        s
    }
}

proof fn lemma_scan(s: Seq<u8>, b: int, i: int)
    requires
        0 <= b <= i <= s.len(),
        all_digits(s.subrange(b, i)),
        decimal_value(s.subrange(b, i)) <= usize::MAX,
    ensures
        ({
            let r = scan_digits(s, i, decimal_value(s.subrange(b, i)) as int);
            let whole = s.subrange(b, s.len() as int);
            &&& all_digits(whole) && decimal_value(whole) <= usize::MAX
                ==> r == Ok::<usize, ParseIndexError>(decimal_value(whole) as usize)
            &&& all_digits(whole) && decimal_value(whole) > usize::MAX
                ==> r == Err::<usize, ParseIndexError>(ParseIndexError::PosOverflow)
            &&& r matches Ok(v) ==> all_digits(whole) && v == decimal_value(whole)
        }),
    decreases s.len() - i,
{
    let acc = decimal_value(s.subrange(b, i));
    let whole = s.subrange(b, s.len() as int);
    if i == s.len() {
        assert(whole =~= s.subrange(b, i));
    } else {
        let next = s.subrange(b, i + 1);
        assert(next.drop_last() =~= s.subrange(b, i));
        assert(next.last() == s[i]);
        if is_digit(s[i]) {
            assert(decimal_value(next) == acc * 10 + (s[i] - 48));
            assert forall|k: int| 0 <= k < next.len() implies is_digit(#[trigger] next[k]) by {
                if k < i - b {
                    assert(next[k] == s.subrange(b, i)[k]);
                }
            }
            if acc * 10 + (s[i] - 48) <= usize::MAX {
                lemma_scan(s, b, i + 1);
            } else {
                if all_digits(whole) {
                    lemma_prefix_value(whole, i + 1 - b);
                    assert(whole.subrange(0, i + 1 - b) =~= next);
                }
            }
        } else {
            assert(whole[i - b] == s[i]);
        }
    }
}

proof fn lemma_scan_never_empty(s: Seq<u8>, i: int, acc: int)
    ensures
        scan_digits(s, i, acc) != Err::<usize, ParseIndexError>(ParseIndexError::Empty),
    decreases s.len() - i,
{
    if i < s.len() && is_digit(s[i]) && acc * 10 + (s[i] - 48) <= usize::MAX {
        lemma_scan_never_empty(s, i + 1, acc * 10 + (s[i] - 48));
    }
}

/// A longer run of digits writes a number no smaller than its prefix.
proof fn lemma_prefix_value(d: Seq<u8>, j: int)
    requires
        0 <= j <= d.len(),
        all_digits(d),
    ensures
        decimal_value(d.subrange(0, j)) <= decimal_value(d),
    decreases d.len(),
{
    if j < d.len() {
        let p = d.drop_last();
        assert(all_digits(p)) by {
            assert forall|k: int| 0 <= k < p.len() implies is_digit(#[trigger] p[k]) by {
                assert(p[k] == d[k]);
            }
        }
        lemma_prefix_value(p, j);
        assert(p.subrange(0, j) =~= d.subrange(0, j));
    } else {
        assert(d.subrange(0, j) =~= d);
    }
}

/// An index is read as `str::parse::<usize>` reads one: the empty text is
/// refused as empty; digits after an optional `+` give the number they write
/// when it fits a `usize`, and are refused as too large when it does not;
/// and nothing else gives a number, so any other byte is refused.
pub proof fn law_parse_index_reads_decimal(s: Seq<u8>)
    ensures
        (index_of_text(s) == Err::<usize, ParseIndexError>(ParseIndexError::Empty)) <==> s.len() == 0,
        digits_part(s).len() > 0 && all_digits(digits_part(s))
            && decimal_value(digits_part(s)) <= usize::MAX
            ==> index_of_text(s) == Ok::<usize, ParseIndexError>(
                decimal_value(digits_part(s)) as usize,
            ),
        digits_part(s).len() > 0 && all_digits(digits_part(s))
            && decimal_value(digits_part(s)) > usize::MAX
            ==> index_of_text(s) == Err::<usize, ParseIndexError>(ParseIndexError::PosOverflow),
        index_of_text(s) matches Ok(v) ==> digits_part(s).len() > 0 && all_digits(digits_part(s))
            && v == decimal_value(digits_part(s)),
{
    if s.len() > 0 {
        let b: int = if s[0] == 43 { 1 } else { 0 };
        assert(digits_part(s) =~= s.subrange(b, s.len() as int));
        assert(s.subrange(b, b).len() == 0);
        assert(decimal_value(s.subrange(b, b)) == 0);
        if s.len() == 1 && (s[0] == 43 || s[0] == 45) {
            if s[0] == 45 {
                assert(!is_digit(digits_part(s)[0]));
            }
        } else {
            lemma_scan(s, b, b);
            lemma_scan_never_empty(s, b, 0);
        }
    }
}

} // verus!
