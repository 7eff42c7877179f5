use daily_standup::daily::DailyBook;
use daily_standup::model::{AuthRequest, Entry, Issue, Member, Work};
use daily_standup::server::ServerData;
use daily_standup::session::authenticator;

fn member(name: &str, account: &str, password: &str) -> Member {
    Member { name: name.to_string(), account: account.to_string(), password: password.to_string() }
}

fn works(titles: &[&str]) -> Vec<Work> {
    titles.iter().map(|t| Work { title: t.to_string() }).collect()
}

fn issues(titles: &[&str]) -> Vec<Issue> {
    titles.iter().map(|t| Issue { title: t.to_string() }).collect()
}

fn titles(v: &[Work]) -> Vec<String> {
    v.iter().map(|w| w.title.clone()).collect()
}

fn issue_titles(v: &[Issue]) -> Vec<String> {
    v.iter().map(|w| w.title.clone()).collect()
}

#[test]
fn new_board_is_empty() {
    let data = ServerData::new();
    assert_eq!(data.accounts.len(), 0);
    assert_eq!(data.auth.len(), 0);
    assert!(!data.is_member(&"taro".to_string()));
    assert!(data.daily.get(&member("太郎", "taro", "secret")).is_none());
}

#[test]
fn seed_has_two_members_with_reports() {
    let data = ServerData::seed();
    assert_eq!(data.accounts.len(), 2);
    assert_eq!(data.accounts[0].name, "太郎");
    assert_eq!(data.accounts[0].account, "taro");
    assert_eq!(data.accounts[0].password, "secret");
    assert_eq!(data.accounts[1].name, "花子");
    assert_eq!(data.accounts[1].account, "hana");
    assert_eq!(data.accounts[1].password, "abc123");
    assert_eq!(data.auth.len(), 0);
    let taro = data.entries_for(&data.accounts[0]);
    assert_eq!(titles(&taro.done), vec!["チケット#2", "チケット#4"]);
    assert_eq!(titles(&taro.to_do), vec!["チケット#3"]);
    assert_eq!(issue_titles(&taro.problem), vec!["結合テスト環境が動いていない"]);
    let hana = data.entries_for(&data.accounts[1]);
    assert_eq!(titles(&hana.done), vec!["チケット#1"]);
    assert_eq!(titles(&hana.to_do), vec!["チケット#1"]);
    assert_eq!(issue_titles(&hana.problem), vec!["チケット＃１が終わらなくて大変"]);
}

#[test]
fn is_member_checks_accounts() {
    let data = ServerData::seed();
    assert!(data.is_member(&"taro".to_string()));
    assert!(data.is_member(&"hana".to_string()));
    assert!(!data.is_member(&"jiro".to_string()));
    assert!(!data.is_member(&"太郎".to_string()));
}

#[test]
fn is_authorized_needs_account_and_password() {
    let data = ServerData::seed();
    assert!(data.is_authorized(&"taro".to_string(), &"secret".to_string()));
    assert!(data.is_authorized(&"hana".to_string(), &"abc123".to_string()));
    assert!(!data.is_authorized(&"taro".to_string(), &"abc123".to_string()));
    assert!(!data.is_authorized(&"jiro".to_string(), &"secret".to_string()));
}

#[test]
fn authorized_is_member() {
    let data = ServerData::seed();
    let acc = "hana".to_string();
    let pwd = "abc123".to_string();
    assert!(data.is_authorized(&acc, &pwd));
    assert!(data.is_member(&acc));
}

#[test]
fn member_called_returns_first_with_account() {
    let mut data = ServerData::new();
    data.add_member(member("One", "same", "p1"));
    data.add_member(member("Two", "same", "p2"));
    let m = data.member_called(&"same".to_string()).unwrap();
    assert_eq!(m.name, "One");
    assert_eq!(m.password, "p1");
    assert!(data.member_called(&"other".to_string()).is_none());
}

#[test]
fn add_member_appends() {
    let mut data = ServerData::seed();
    let len = data.add_member(member("次郎", "jiro", "pw")).accounts.len();
    assert_eq!(len, 3);
    assert_eq!(data.accounts[2].account, "jiro");
    assert!(data.is_member(&"jiro".to_string()));
    assert!(data.entries_for(&data.accounts[2]).done.is_empty());
}

#[test]
fn registration_keeps_existing_accounts() {
    let mut data = ServerData::seed();
    let before = data.member_called(&"taro".to_string()).unwrap();
    data.add_member(member("偽太郎", "taro", "other"));
    let after = data.member_called(&"taro".to_string()).unwrap();
    assert_eq!(before.name, after.name);
    assert_eq!(before.password, after.password);
}

#[test]
fn register_refuses_taken_account() {
    let mut data = ServerData::seed();
    assert!(!data.register(member("偽太郎", "taro", "x")));
    assert_eq!(data.accounts.len(), 2);
    assert!(data.register(member("次郎", "jiro", "pw")));
    assert_eq!(data.accounts.len(), 3);
    assert!(!data.register(member("次郎2", "jiro", "pw2")));
    assert_eq!(data.accounts.len(), 3);
}

#[test]
fn authorize_at_gives_known_token() {
    let mut data = ServerData::seed();
    let tok = data.authorize_at(&"taro".to_string(), &"secret".to_string(), 0);
    assert_eq!(tok, "JV+9IBli63I9p/se7/QQSBlEYClfM7izmeqq1APrvNs=");
    assert_eq!(data.auth.len(), 1);
    assert_eq!(data.auth.get(tok.as_str()).unwrap().name, "太郎");
}

#[test]
fn token_opens_session() {
    let mut data = ServerData::seed();
    let tok = data.authorize(&"hana".to_string(), &"abc123".to_string());
    assert_eq!(tok.len(), 44);
    assert_eq!(authenticator(&data, Some(&tok)), Some("hana".to_string()));
}

#[test]
fn authenticator_refuses_missing_or_unknown_token() {
    let mut data = ServerData::seed();
    assert_eq!(authenticator(&data, None), None);
    let tok = data.authorize_at(&"taro".to_string(), &"secret".to_string(), 1500000000);
    assert_eq!(tok, "aGdanOOVZMXmn0tm2Wf/EuXlqGPz1P7axzkScwlN4JQ=");
    assert_eq!(authenticator(&data, Some(&"not a token".to_string())), None);
    assert_eq!(authenticator(&data, Some(&tok)), Some("taro".to_string()));
}

#[test]
fn login_succeeds_with_right_password() {
    let mut data = ServerData::seed();
    let res = data.login(&AuthRequest::new("taro".to_string(), "secret".to_string()));
    assert!(res.success);
    assert_eq!(res.explain, "Login succeed.");
    let tok = res.token.unwrap();
    assert_eq!(authenticator(&data, Some(&tok)), Some("taro".to_string()));
}

#[test]
fn login_fails_and_changes_nothing() {
    let mut data = ServerData::seed();
    let res = data.login(&AuthRequest::new("taro".to_string(), "wrong".to_string()));
    assert!(!res.success);
    assert!(res.token.is_none());
    assert_eq!(res.explain, "Login fail.");
    assert_eq!(data.auth.len(), 0);
    assert_eq!(data.accounts.len(), 2);
}

#[test]
fn json_entry_lists_every_member_in_order() {
    let mut data = ServerData::seed();
    data.add_member(member("次郎", "jiro", "pw"));
    let daily = data.to_json_entry_on("2017-06-01".to_string());
    assert_eq!(daily.date, "2017-06-01");
    assert_eq!(daily.entries.len(), 3);
    assert_eq!(daily.entries[0].member, "太郎");
    assert_eq!(titles(&daily.entries[0].done), vec!["チケット#2", "チケット#4"]);
    assert_eq!(daily.entries[1].member, "花子");
    assert_eq!(issue_titles(&daily.entries[1].problem), vec!["チケット＃１が終わらなくて大変"]);
    assert_eq!(daily.entries[2].member, "次郎");
    assert!(daily.entries[2].done.is_empty());
    assert!(daily.entries[2].to_do.is_empty());
    assert!(daily.entries[2].problem.is_empty());
}

#[test]
fn json_entry_is_dated_today() {
    let data = ServerData::seed();
    let daily = data.to_json_entry();
    assert_eq!(daily.date.len(), 10);
    assert_eq!(daily.entries.len(), 2);
}

#[test]
fn entries_for_unknown_member_is_empty() {
    let data = ServerData::seed();
    let e = data.entries_for(&member("次郎", "jiro", "pw"));
    assert!(e.done.is_empty() && e.to_do.is_empty() && e.problem.is_empty());
}

#[test]
fn report_key_is_the_whole_member() {
    let data = ServerData::seed();
    let e = data.entries_for(&member("太郎", "taro", "changed"));
    assert!(e.done.is_empty());
}

#[test]
fn update_then_read() {
    let mut data = ServerData::seed();
    let taro = data.accounts[0].clone();
    let hana = data.accounts[1].clone();
    assert!(data.update_done(&taro, &works(&["a", "b", "c"])));
    let e = data.entries_for(&taro);
    assert_eq!(titles(&e.done), vec!["a", "b", "c"]);
    assert_eq!(titles(&e.to_do), vec!["チケット#3"]);
    assert!(data.update_todo(&taro, &works(&["t"])));
    assert_eq!(titles(&data.entries_for(&taro).to_do), vec!["t"]);
    assert_eq!(titles(&data.entries_for(&taro).done), vec!["a", "b", "c"]);
    assert!(data.update_problem(&taro, &issues(&["p1", "p2"])));
    assert_eq!(issue_titles(&data.entries_for(&taro).problem), vec!["p1", "p2"]);
    let h = data.entries_for(&hana);
    assert_eq!(titles(&h.done), vec!["チケット#1"]);
}

#[test]
fn update_without_report_is_refused() {
    let mut data = ServerData::seed();
    let jiro = member("次郎", "jiro", "pw");
    data.add_member(jiro.clone());
    assert!(!data.update_done(&jiro, &works(&["a"])));
    assert!(!data.update_todo(&jiro, &works(&["a"])));
    assert!(!data.update_problem(&jiro, &issues(&["a"])));
    assert!(data.entries_for(&jiro).done.is_empty());
    assert!(!data.delete_done_at(&jiro, 0));
    assert!(!data.delete_todo_at(&jiro, 5));
    assert!(!data.delete_problem_at(&jiro, 9));
}

#[test]
fn delete_then_read() {
    let mut data = ServerData::seed();
    let taro = data.accounts[0].clone();
    assert!(data.update_done(&taro, &works(&["a", "b", "c"])));
    assert!(data.delete_done_at(&taro, 1));
    assert_eq!(titles(&data.entries_for(&taro).done), vec!["a", "c"]);
    assert!(data.delete_todo_at(&taro, 0));
    assert!(data.entries_for(&taro).to_do.is_empty());
    assert!(data.delete_problem_at(&taro, 0));
    assert!(data.entries_for(&taro).problem.is_empty());
    assert_eq!(titles(&data.entries_for(&taro).done), vec!["a", "c"]);
}

#[test]
fn member_equality_is_by_account() {
    assert!(member("A", "acc", "x") == member("B", "acc", "y"));
    assert!(member("A", "acc", "x") != member("A", "other", "x"));
}

#[test]
fn daily_book_insert_replaces() {
    let mut book = DailyBook::new();
    let m = member("A", "a", "p");
    book.insert(m.clone(), Entry { done: works(&["x"]), to_do: vec![], problem: vec![] });
    book.insert(m.clone(), Entry { done: works(&["y"]), to_do: vec![], problem: vec![] });
    assert_eq!(titles(&book.get(&m).unwrap().done), vec!["y"]);
    assert!(book.get(&member("A", "a", "q")).is_none());
    if let Some(e) = book.get_mut(&m) {
        e.to_do = works(&["z"]);
    }
    assert_eq!(titles(&book.get(&m).unwrap().to_do), vec!["z"]);
}

#[test]
fn login_keeps_other_sessions() {
    let mut data = ServerData::seed();
    let t1 = data.authorize_at(&"taro".to_string(), &"secret".to_string(), 10);
    let t2 = data.authorize_at(&"hana".to_string(), &"abc123".to_string(), 11);
    let t3 = data.authorize_at(&"taro".to_string(), &"secret".to_string(), 12);
    assert_eq!(data.auth.len(), 3);
    assert_eq!(authenticator(&data, Some(&t1)), Some("taro".to_string()));
    assert_eq!(authenticator(&data, Some(&t2)), Some("hana".to_string()));
    assert_eq!(authenticator(&data, Some(&t3)), Some("taro".to_string()));
}

#[test]
fn same_login_at_same_time_gives_same_token() {
    let mut data = ServerData::seed();
    let t1 = data.authorize_at(&"taro".to_string(), &"secret".to_string(), 42);
    let t2 = data.authorize_at(&"taro".to_string(), &"secret".to_string(), 42);
    assert_eq!(t1, t2);
    assert_eq!(data.auth.len(), 1);
}

#[test]
fn token_has_base64_shape() {
    let mut data = ServerData::seed();
    let tok = data.authorize(&"taro".to_string(), &"secret".to_string());
    assert_eq!(tok.len(), 44);
    assert!(tok.ends_with('='));
    assert!(!tok[..43].contains('='));
}

#[test]
fn board_date_has_iso_shape() {
    let data = ServerData::seed();
    let d = data.to_json_entry().date;
    let b = d.as_bytes();
    assert_eq!(b.len(), 10);
    assert_eq!(b[4], b'-');
    assert_eq!(b[7], b'-');
    assert!(b.iter().enumerate().all(|(i, c)| i == 4 || i == 7 || c.is_ascii_digit()));
}
