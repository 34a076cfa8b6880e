use irc_tui::client::parse::{dispatch_line, parse_reply, ping_reply};
use irc_tui::client::repliestypes::Replies;
use irc_tui::client::{
    Client, ClientError, ConnectError, MessageDisplay, PeekOutcome, ReadOutcome, UserInfo,
};

fn user() -> UserInfo {
    UserInfo::new("nick".to_string(), "user".to_string(), "Real Name".to_string()).unwrap()
}

fn connected_client() -> Client {
    let mut client = Client::new(user());
    assert_eq!(client.connect(Ok(())), Ok(()));
    client.take_outgoing();
    client.process(None);
    client
}

fn feed(client: &mut Client, data: &[u8]) -> Vec<MessageDisplay> {
    let (a, b) = client.slices();
    assert!(data.len() <= a.len() + b.len());
    let k = a.len().min(data.len());
    a[..k].copy_from_slice(&data[..k]);
    let rest = &data[k..];
    b[..rest.len()].copy_from_slice(rest);
    client.process(Some(ReadOutcome::Data(data.len())))
}

fn ok(s: &str) -> MessageDisplay {
    Ok(s.to_string())
}

fn err(s: &str) -> MessageDisplay {
    Err(s.to_string())
}

#[test]
fn user_info_checks_each_part_in_order() {
    let e = UserInfo::new(String::new(), String::new(), String::new()).unwrap_err();
    assert_eq!(e, ClientError::NoNickDefined);
    let e = UserInfo::new("n".to_string(), String::new(), String::new()).unwrap_err();
    assert_eq!(e, ClientError::NoUserDefined);
    let e = UserInfo::new("n".to_string(), "u".to_string(), String::new()).unwrap_err();
    assert_eq!(e, ClientError::NoNameDefined);
    assert!(UserInfo::new("n".to_string(), "u".to_string(), "r".to_string()).is_ok());
}

#[test]
fn client_error_texts() {
    assert_eq!(ClientError::NoNickDefined.text(), "No nick was defined");
    assert_eq!(ClientError::NoUserDefined.text(), "No user was defined");
    assert_eq!(ClientError::NoNameDefined.text(), "No name was defined");
}

#[test]
fn connect_sends_the_identity_handshake() {
    let mut client = Client::new(user());
    assert_eq!(client.connect(Ok(())), Ok(()));
    assert_eq!(
        client.take_outgoing(),
        vec![b"NICK nick\r\n".to_vec(), b"USER user 0 * :Real Name\r\n".to_vec()]
    );
    assert_eq!(
        client.process(None),
        vec![ok(">>> NICK nick"), ok(">>> USER user 0 * :Real Name")]
    );
}

#[test]
fn failed_transport_is_reported_and_leaves_client_detached() {
    let mut client = Client::new(user());
    assert_eq!(
        client.connect(Err("refused".to_string())),
        Err(ConnectError::Transport("refused".to_string()))
    );
    assert!(!client.has_socket());
    assert!(client.take_outgoing().is_empty());
}

#[test]
fn connection_lifecycle() {
    let mut client = Client::new(user());
    assert!(!client.is_connected(PeekOutcome::WouldBlock));
    assert!(!client.is_connected(PeekOutcome::Data(3)));
    assert_eq!(client.can_connect(), Ok(()));
    assert_eq!(client.connect(Ok(())), Ok(()));
    assert!(client.is_connected(PeekOutcome::WouldBlock));
    assert!(client.is_connected(PeekOutcome::Data(1)));
    assert!(!client.is_connected(PeekOutcome::Data(0)));
    assert!(!client.is_connected(PeekOutcome::Failed));
    let queued = client.take_outgoing();
    assert_eq!(queued.len(), 2);
    assert_eq!(client.can_connect(), Err(ConnectError::AlreadyConnected));
    assert_eq!(client.connect(Ok(())), Err(ConnectError::AlreadyConnected));
    assert!(client.has_socket());
    assert!(client.take_outgoing().is_empty());
    client.disconnect();
    assert!(!client.has_socket());
    assert!(!client.is_connected(PeekOutcome::WouldBlock));
    client.disconnect();
    assert!(!client.is_connected(PeekOutcome::WouldBlock));
}

#[test]
fn ping_gives_one_keep_alive_event_and_one_pong() {
    let mut client = connected_client();
    let shown = feed(&mut client, b"PING :abc\r\n");
    assert_eq!(shown, vec![ok("<<< PING :abc"), ok(">>> PONG :abc")]);
    assert_eq!(client.take_outgoing(), vec![b"PONG :abc\r\n".to_vec()]);
}

#[test]
fn ping_split_across_two_reads_gives_the_same() {
    let mut client = connected_client();
    let first = feed(&mut client, b"PING :ab");
    assert!(first.is_empty());
    assert!(client.take_outgoing().is_empty());
    let second = feed(&mut client, b"c\r\n");
    assert_eq!(second, vec![ok("<<< PING :abc"), ok(">>> PONG :abc")]);
    assert_eq!(client.take_outgoing(), vec![b"PONG :abc\r\n".to_vec()]);
}

#[test]
fn welcome_reply_shows_its_content() {
    let mut client = connected_client();
    let shown = feed(&mut client, b":server 001 nick :Welcome to the network\r\n");
    assert_eq!(shown, vec![ok("Welcome to the network")]);
    assert!(client.take_outgoing().is_empty());
}

#[test]
fn motd_replies_are_shown() {
    let mut client = connected_client();
    let shown = feed(
        &mut client,
        b":irc.example 375 nick :- irc.example Message of the day\r\n:irc.example 372 nick :- hello\r\n:irc.example 376 nick :End of MOTD\r\n",
    );
    assert_eq!(
        shown,
        vec![ok("- irc.example Message of the day"), ok("- hello"), ok("End of MOTD")]
    );
}

#[test]
fn two_digit_code_is_unparsed() {
    let mut client = connected_client();
    let shown = feed(&mut client, b":server 01 nick :hello\r\n");
    assert_eq!(shown, vec![err("<<< :server 01 nick :hello")]);
}

#[test]
fn four_digit_code_is_unparsed() {
    let mut client = connected_client();
    let shown = feed(&mut client, b":server 0001 nick :hello\r\n");
    assert_eq!(shown, vec![err("<<< :server 0001 nick :hello")]);
}

#[test]
fn line_without_leading_colon_is_unparsed() {
    let mut client = connected_client();
    let shown = feed(&mut client, b"server 001 nick :hello\r\n");
    assert_eq!(shown, vec![err("<<< server 001 nick :hello")]);
}

#[test]
fn other_codes_and_commands_are_unparsed() {
    let (shown, sent) = dispatch_line(":server 433 * nick :Nickname is already in use");
    assert_eq!(shown, vec![err("<<< :server 433 * nick :Nickname is already in use")]);
    assert!(sent.is_empty());
    let (shown, _) = dispatch_line(":nick!u@h JOIN #chan");
    assert_eq!(shown, vec![err("<<< :nick!u@h JOIN #chan")]);
}

#[test]
fn several_lines_in_one_read_keep_their_order_and_the_tail_waits() {
    let mut client = connected_client();
    let shown = feed(&mut client, b"junk\r\nPING x\r\n:s 002 n :Your host\r\n:s 00");
    assert_eq!(
        shown,
        vec![err("<<< junk"), ok("<<< PING x"), ok(">>> PONG x"), ok("Your host")]
    );
    let shown = feed(&mut client, b"3 n :Created\r\n");
    assert_eq!(shown, vec![ok("Created")]);
}

#[test]
fn empty_line_is_unparsed() {
    let mut client = connected_client();
    let shown = feed(&mut client, b"\r\n");
    assert_eq!(shown, vec![err("<<< ")]);
}

#[test]
fn pong_is_not_queued_without_a_socket() {
    let mut client = Client::new(user());
    let shown = feed(&mut client, b"PING :zz\r\n");
    assert_eq!(shown, vec![ok("<<< PING :zz"), ok(">>> PONG :zz")]);
    assert!(client.take_outgoing().is_empty());
}

#[test]
fn invalid_utf8_is_replaced() {
    let mut client = connected_client();
    let shown = feed(&mut client, b"\xff\r\n");
    assert_eq!(shown, vec![err("<<< \u{FFFD}")]);
}

#[test]
fn failed_read_is_shown_and_detaches() {
    let mut client = connected_client();
    let shown = client.process(Some(ReadOutcome::Failed("reset".to_string())));
    assert_eq!(shown, vec![err("reset")]);
    assert!(!client.has_socket());
    assert!(!client.is_connected(PeekOutcome::WouldBlock));
}

#[test]
fn would_block_changes_nothing() {
    let mut client = connected_client();
    assert!(client.process(Some(ReadOutcome::WouldBlock)).is_empty());
    assert!(client.process(Some(ReadOutcome::Data(0))).is_empty());
    assert!(client.has_socket());
}

#[test]
fn join_and_message_are_sent_and_shown() {
    let mut client = connected_client();
    client.join("rust");
    client.send_message("rust".to_string(), "hi all".to_string());
    assert_eq!(
        client.take_outgoing(),
        vec![b"JOIN #rust\r\n".to_vec(), b"PRIVMSG #rust :hi all\r\n".to_vec()]
    );
    assert_eq!(client.process(None), vec![ok(">>> JOIN #rust"), ok(">>> PRIVMSG #rust :hi all")]);
}

#[test]
fn ping_reply_takes_the_first_word() {
    let line: Vec<char> = "PING   tok  rest".chars().collect();
    assert_eq!(ping_reply(&line), Some("PONG tok".to_string()));
    let line: Vec<char> = "PING    ".chars().collect();
    assert_eq!(ping_reply(&line), None);
    let line: Vec<char> = "PONG x".chars().collect();
    assert_eq!(ping_reply(&line), None);
}

#[test]
fn reply_parts_are_split() {
    let line: Vec<char> = ":srv 372 me :- a b c".chars().collect();
    let m = parse_reply(&line).unwrap();
    assert_eq!(m.source, "srv");
    assert!(matches!(m.reply_type, Replies::RplMotd));
    assert_eq!(m.dest, "me");
    assert_eq!(m.content, ":- a b c");
    let line: Vec<char> = ":srv 999 me x".chars().collect();
    let m = parse_reply(&line).unwrap();
    assert!(matches!(m.reply_type, Replies::Unknown(ref c) if c == "999"));
    let line: Vec<char> = ":srv 001 me".chars().collect();
    assert!(parse_reply(&line).is_none());
}

#[test]
fn reply_table_lookup() {
    let code = |s: &str| Replies::from_code(&s.chars().collect::<Vec<char>>());
    assert!(matches!(code("001"), Replies::RplWelcome));
    assert!(matches!(code("002"), Replies::RplYourHost));
    assert!(matches!(code("003"), Replies::RplCreated));
    assert!(matches!(code("004"), Replies::RplMyInfo));
    assert!(matches!(code("005"), Replies::RplBounce));
    assert!(matches!(code("251"), Replies::RplLuserClient));
    assert!(matches!(code("255"), Replies::RplLuserMe));
    assert!(matches!(code("375"), Replies::RplMotdStart));
    assert!(matches!(code("372"), Replies::RplMotd));
    assert!(matches!(code("376"), Replies::RplEndOfMotd));
    assert!(code("001").is_greeting());
    assert!(!code("433").is_greeting());
    assert!(!code("PRIVMSG").is_greeting());
}

#[test]
fn greeting_content_trims_colons_and_spaces() {
    let (shown, sent) = dispatch_line(":s 004 n : :: info here ");
    assert_eq!(shown, vec![ok("info here ")]);
    assert!(sent.is_empty());
}
