use openintent_adapters::email::session::{imap_next, smtp_next, ImapAction, ImapTask, SmtpAction};
use openintent_adapters::json::to_json_text;

fn lines(v: &[&str]) -> Vec<String> {
    v.iter().map(|s| s.to_string()).collect()
}

fn exchange(a: ImapAction) -> (Option<String>, String) {
    match a {
        ImapAction::Exchange { command, tag } => (command, tag),
        ImapAction::Finish { .. } => panic!("expected an exchange"),
    }
}

fn finish(a: ImapAction) -> (String, String) {
    match a {
        ImapAction::Finish { farewell, result } => (farewell, to_json_text(&result.unwrap())),
        ImapAction::Exchange { .. } => panic!("expected a finish"),
    }
}

fn opened(select: &[&str]) -> Vec<Vec<String>> {
    vec![lines(&["* OK ready"]), lines(&["A001 OK logged in"]), lines(select)]
}

#[test]
fn imap_opening_is_greeting_login_select() {
    let task = ImapTask::ListInbox { count: 10 };
    let mut replies: Vec<Vec<String>> = Vec::new();
    assert_eq!(exchange(imap_next("u", "p", &task, &replies)), (None, "*".to_string()));
    replies.push(lines(&["* OK ready"]));
    assert_eq!(
        exchange(imap_next("u", "p", &task, &replies)),
        (Some("A001 LOGIN \"u\" \"p\"\r\n".to_string()), "A001".to_string())
    );
    replies.push(lines(&["A001 OK"]));
    assert_eq!(
        exchange(imap_next("u", "p", &task, &replies)),
        (Some("A002 SELECT \"INBOX\"\r\n".to_string()), "A002".to_string())
    );
}

#[test]
fn empty_inbox_sends_no_fetch() {
    let task = ImapTask::ListInbox { count: 10 };
    let replies = opened(&["* 0 EXISTS", "A002 OK"]);
    let (farewell, result) = finish(imap_next("u", "p", &task, &replies));
    assert_eq!(farewell, "A003 LOGOUT\r\n");
    assert_eq!(result, r#"{"emails":[],"total":0,"fetched":0}"#);
}

#[test]
fn inbox_listing_fetches_the_most_recent_messages() {
    let task = ImapTask::ListInbox { count: 10 };
    let mut replies = opened(&["* 25 EXISTS", "A002 OK"]);
    let (command, tag) = exchange(imap_next("u", "p", &task, &replies));
    assert_eq!(command.unwrap(), "A003 FETCH 16:25 (FLAGS ENVELOPE BODY.PEEK[HEADER.FIELDS (MESSAGE-ID)])\r\n");
    assert_eq!(tag, "A003");
    replies.push(lines(&["A003 OK FETCH completed"]));
    let (farewell, result) = finish(imap_next("u", "p", &task, &replies));
    assert_eq!(farewell, "A004 LOGOUT\r\n");
    assert_eq!(result, r#"{"emails":[],"total":25,"fetched":0}"#);
}

#[test]
fn reading_fetches_one_message() {
    let task = ImapTask::Read { message_id: "7".to_string() };
    let replies = opened(&["* 9 EXISTS", "A002 OK"]);
    let (command, tag) = exchange(imap_next("u", "p", &task, &replies));
    assert_eq!(command.unwrap(), "A003 FETCH 7 (FLAGS ENVELOPE BODY[TEXT] BODY[HEADER])\r\n");
    assert_eq!(tag, "A003");
}

#[test]
fn search_without_kept_matches_sends_no_fetch() {
    let task = ImapTask::Search { query: "FROM \"bob\"".to_string(), count: 5 };
    let mut replies = opened(&["* 3 EXISTS", "A002 OK"]);
    let (command, _) = exchange(imap_next("u", "p", &task, &replies));
    assert_eq!(command.unwrap(), "A003 SEARCH FROM \"bob\"\r\n");
    replies.push(lines(&["* SEARCH", "A003 OK SEARCH completed"]));
    let (farewell, result) = finish(imap_next("u", "p", &task, &replies));
    assert_eq!(farewell, "A004 LOGOUT\r\n");
    assert_eq!(result, r#"{"query":"FROM \"bob\"","total_matches":0,"emails":[],"fetched":0}"#);
}

#[test]
fn search_fetches_the_most_recent_matches() {
    let task = ImapTask::Search { query: "ALL".to_string(), count: 2 };
    let mut replies = opened(&["* 9 EXISTS", "A002 OK"]);
    replies.push(lines(&["* SEARCH 2 4 6 8", "A003 OK SEARCH completed"]));
    let (command, tag) = exchange(imap_next("u", "p", &task, &replies));
    assert_eq!(command.unwrap(), "A004 FETCH 6,8 (FLAGS ENVELOPE BODY.PEEK[HEADER.FIELDS (MESSAGE-ID)])\r\n");
    assert_eq!(tag, "A004");
    replies.push(lines(&["A004 OK FETCH completed"]));
    let (farewell, result) = finish(imap_next("u", "p", &task, &replies));
    assert_eq!(farewell, "A005 LOGOUT\r\n");
    assert_eq!(result, r#"{"query":"ALL","total_matches":4,"emails":[],"fetched":0}"#);
}

fn smtp(replies: &Vec<(u16, Vec<String>)>) -> SmtpAction {
    smtp_next("me@x.com", "pw", "you@y.com", "Hi", "Body", replies)
}

#[test]
fn smtp_sends_each_step_then_quit() {
    let statuses = [220u16, 250, 334, 334, 235, 250, 250, 354, 250];
    let mut replies: Vec<(u16, Vec<String>)> = Vec::new();
    let mut sent = Vec::new();
    for st in statuses {
        match smtp(&replies) {
            SmtpAction::Exchange { command } => sent.push(command),
            SmtpAction::Finish { .. } => panic!("finished early"),
        }
        replies.push((st, vec![format!("{st} ok")]));
    }
    assert_eq!(sent[0], None);
    assert_eq!(sent[1].as_deref(), Some("EHLO openintentos.local\r\n"));
    assert_eq!(sent[2].as_deref(), Some("AUTH LOGIN\r\n"));
    assert_eq!(sent[3].as_deref(), Some("bWVAeC5jb20=\r\n"));
    assert_eq!(sent[4].as_deref(), Some("cHc=\r\n"));
    assert_eq!(sent[5].as_deref(), Some("MAIL FROM:<me@x.com>\r\n"));
    assert_eq!(sent[6].as_deref(), Some("RCPT TO:<you@y.com>\r\n"));
    assert_eq!(sent[7].as_deref(), Some("DATA\r\n"));
    assert!(sent[8].as_deref().unwrap().ends_with("\r\n.\r\n"));
    match smtp(&replies) {
        SmtpAction::Finish { farewell, result } => {
            assert_eq!(farewell.as_deref(), Some("QUIT\r\n"));
            assert_eq!(to_json_text(&result.unwrap()), r#"{"status":"sent","to":"you@y.com","subject":"Hi"}"#);
        }
        SmtpAction::Exchange { .. } => panic!("expected the end"),
    }
}

#[test]
fn smtp_stops_at_the_first_mismatch() {
    let replies: Vec<(u16, Vec<String>)> = vec![
        (220, vec!["220 hi".to_string()]),
        (250, vec!["250 ok".to_string()]),
        (535, vec!["535 bad auth".to_string()]),
    ];
    match smtp(&replies) {
        SmtpAction::Finish { farewell, result } => {
            assert!(farewell.is_none());
            let e = result.unwrap_err().to_string();
            assert!(e.contains("SMTP error: expected 3xx, got 535: 535 bad auth"), "{e}");
        }
        SmtpAction::Exchange { .. } => panic!("expected a stop"),
    }
}

#[test]
fn smtp_rejected_greeting_stops() {
    let replies: Vec<(u16, Vec<String>)> = vec![(554, vec!["554 no".to_string()])];
    match smtp(&replies) {
        SmtpAction::Finish { farewell, result } => {
            assert!(farewell.is_none());
            assert!(result.unwrap_err().to_string().contains("SMTP server rejected connection with status 554"));
        }
        SmtpAction::Exchange { .. } => panic!("expected a stop"),
    }
}
