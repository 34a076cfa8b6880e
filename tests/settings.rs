use irc_tui::app::{name, Name};
use irc_tui::config::{Config, Server, User};

fn s(x: &str) -> String {
    x.to_string()
}

#[test]
fn program_names() {
    assert_eq!(name(), "irc_tui");
    assert_eq!(Name(), "Irc_tui");
}

#[test]
fn clean_trims_and_drops_empty_nicknames() {
    let user = User::new(vec![s("  alice "), s("   "), s("bob\t")], s(" al "), s("\nAlice A. "));
    let clean = user.clean();
    assert_eq!(clean.nicknames, vec![s("alice"), s("bob")]);
    assert_eq!(clean.username, "al");
    assert_eq!(clean.realname, "Alice A.");
}

#[test]
fn clean_keeps_inner_spaces_and_unicode_space() {
    let user = User::new(vec![s("\u{3000}a b\u{00A0}")], s("u"), s("r"));
    let clean = user.clean();
    assert_eq!(clean.nicknames, vec![s("a b")]);
}

#[test]
fn same_as_compares_texts() {
    let a = User::new(vec![s("a")], s("u"), s("r"));
    let b = User::new(vec![s("a")], s("u"), s("r"));
    let c = User::new(vec![s("a"), s("b")], s("u"), s("r"));
    assert!(a.same_as(&b));
    assert!(!a.same_as(&c));
    assert!(!a.same_as(&User::new(vec![s("a")], s("u"), s("x"))));
}

#[test]
fn config_needs_a_nickname() {
    assert!(Config::new(User::new(vec![], s("u"), s("r")), None).is_none());
    let c = Config::new(User::new(vec![s("n")], s("u"), s("r")), None).unwrap();
    assert_eq!(c.user.unwrap().nicknames, vec![s("n")]);
}

#[test]
fn sanitized_keeps_clean_settings_unchanged() {
    let c = Config { user: Some(User::new(vec![s("n")], s("u"), s("r"))), servers: None };
    let (kept, changed) = c.sanitized();
    assert!(kept.is_some());
    assert!(!changed);
}

#[test]
fn sanitized_cleans_and_asks_to_store_again() {
    let servers = Some(vec![Server::new(s("net"), s("irc.example"), 6667)]);
    let c = Config { user: Some(User::new(vec![s(" n ")], s("u"), s("r"))), servers };
    let (kept, changed) = c.sanitized();
    let kept = kept.unwrap();
    assert!(changed);
    assert_eq!(kept.user.unwrap().nicknames, vec![s("n")]);
    assert_eq!(kept.servers.unwrap().len(), 1);
}

#[test]
fn sanitized_rejects_incomplete_settings() {
    let c = Config { user: Some(User::new(vec![s("  ")], s("u"), s("r"))), servers: None };
    assert_eq!(c.sanitized().0.is_none(), true);
    let c = Config { user: Some(User::new(vec![s("n")], s(" "), s("r"))), servers: None };
    let (kept, changed) = c.sanitized();
    assert!(kept.is_none());
    assert!(!changed);
    let c = Config { user: None, servers: None };
    assert!(c.sanitized().0.is_none());
}
