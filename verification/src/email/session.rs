//! The conversations with the mail servers, step by step.
//!
//! Given what a tool asks and the replies read so far, each function here
//! decides what the service does next: send a command and read the reply,
//! or say farewell and answer.  The service only performs these actions.

use vstd::prelude::*;
use vstd::string::*;

use crate::email::imap::{
    EnvelopeSummary, exists_count, fetch_body_text, fetch_parts, imap_fetch_body_command, imap_fetch_envelope_command,
    imap_login_command, imap_logout_command, imap_search_command, imap_select_command, is_header_line, line_views,
    parse_exists_count, parse_fetch_body, parse_fetch_envelopes, parse_search_results, search_numbers, summaries_of,
};
use crate::email::smtp::{
    SmtpStep, send_steps, smtp_check_greeting, smtp_check_reply, smtp_quit_command, smtp_send_plan,
    unexpected_reply_reason,
};
use crate::email::{
    decimals, inbox_sequence_set, inbox_start, list_inbox_result, list_json, read_json, read_result, recent,
    recent_matches, search_json, search_result, send_json, send_result, sequence_set_of,
};
use crate::error::{AdapterError, execution_failed, is_execution_failed};
use crate::json::JsonValue;
use crate::text::{decimal, join};

verus! {

/// What an IMAP tool asks once logged in with INBOX selected.
pub enum ImapTask {
    /// List the `count` most recent messages.
    ListInbox { count: u64 },
    /// Read one message by its sequence number.
    Read { message_id: String },
    /// Search and list the `count` most recent matches.
    Search { query: String, count: u64 },
}

/// The next step of an IMAP conversation.
pub enum ImapAction {
    /// Send `command` (nothing for the greeting), then read the reply up to
    /// the line tagged `tag` and hand its lines back.
    Exchange { command: Option<String>, tag: String },
    /// Send `farewell` without waiting for its reply, and answer `result`.
    Finish { farewell: String, result: Result<JsonValue, AdapterError> },
}

/// The reason given when a mailbox reports more messages than can be
/// numbered from the requested count.
pub open spec fn count_overflow_reason() -> Seq<char> {
    "mailbox message count out of range"@
}

/// The reply lines read so far, as texts.
pub open spec fn reply_views(replies: Seq<Vec<String>>) -> Seq<Seq<Seq<char>>> {
    replies.map_values(|r: Vec<String>| line_views(r@))
}

/// The EXISTS count of a SELECT reply, 0 when it names none.
pub open spec fn exists_or_zero(select: Seq<Seq<char>>) -> u64 {
    match exists_count(select) {
        Some(n) => n,
        None => 0,
    }
}

/// Whether `a` is the exchange that sends `command` (none when `None`) and
/// reads up to `tag`.
pub open spec fn is_exchange(a: ImapAction, command: Option<Seq<char>>, tag: Seq<char>) -> bool {
    a matches ImapAction::Exchange { command: c, tag: t } && t@ == tag && match (c, command) {
        (None, None) => true,
        (Some(x), Some(y)) => x@ == y,
        _ => false,
    }
}

/// Whether `a` says farewell with a LOGOUT tagged `tag` and answers a
/// result for which `ok` holds.
pub open spec fn is_logout_with(a: ImapAction, tag: Seq<char>, ok: spec_fn(JsonValue) -> bool) -> bool {
    match a {
        ImapAction::Finish { farewell, result } => farewell@ == tag + " LOGOUT\r\n"@ && match result {
            Ok(j) => ok(j),
            Err(_) => false,
        },
        _ => false,
    }
}

/// The IMAP conversation, decided on the replies read so far: the greeting,
/// LOGIN as A001, SELECT INBOX as A002; then
/// - listing: no FETCH when the inbox is empty (LOGOUT A003, nothing listed);
///   else FETCH A003 of the sequence set from `inbox_start` to the count,
///   then LOGOUT A004 and the listing of what was fetched;
/// - reading: FETCH A003 of the message, then LOGOUT A004 and its headers
///   and body;
/// - searching: SEARCH A003; no FETCH when no match is kept (LOGOUT A004);
///   else FETCH A004 of the kept matches, then LOGOUT A005; the answer
///   counts all matches.
pub open spec fn imap_step(username: Seq<char>, password: Seq<char>, task: ImapTask, rs: Seq<Seq<Seq<char>>>, a: ImapAction) -> bool {
    if rs.len() == 0 {
        is_exchange(a, None, "*"@)
    } else if rs.len() == 1 {
        is_exchange(
            a,
            Some("A001"@ + " LOGIN \""@ + username + "\" \""@ + password + "\"\r\n"@),
            "A001"@,
        )
    } else if rs.len() == 2 {
        is_exchange(a, Some("A002"@ + " SELECT \""@ + "INBOX"@ + "\"\r\n"@), "A002"@)
    } else {
        match task {
            ImapTask::ListInbox { count } => {
                let e = exists_or_zero(rs[2]);
                if e == 0 {
                    is_logout_with(a, "A003"@, |j: JsonValue| list_json(j, Seq::empty(), 0))
                } else if count == 0 && e == u64::MAX {
                    match a {
                        ImapAction::Finish { farewell, result } => farewell@ == "A003"@ + " LOGOUT\r\n"@ && match result {
                            Err(err) => is_execution_failed(err, "email_list_inbox"@, count_overflow_reason()),
                            Ok(_) => false,
                        },
                        _ => false,
                    }
                } else if rs.len() == 3 {
                    is_exchange(
                        a,
                        Some(
                            "A003"@ + " FETCH "@ + (decimal(inbox_start(e, count) as nat) + ":"@ + decimal(
                                e as nat,
                            )) + " (FLAGS ENVELOPE BODY.PEEK[HEADER.FIELDS (MESSAGE-ID)])\r\n"@,
                        ),
                        "A003"@,
                    )
                } else {
                    is_logout_with(
                        a,
                        "A004"@,
                        |j: JsonValue|
                            exists|es: Seq<EnvelopeSummary>| #[trigger]
                                summaries_of(es, fetch_parts(rs[3])) && list_json(j, es, e),
                    )
                }
            },
            ImapTask::Read { message_id } => {
                if rs.len() == 3 {
                    is_exchange(
                        a,
                        Some("A003"@ + " FETCH "@ + message_id@ + " (FLAGS ENVELOPE BODY[TEXT] BODY[HEADER])\r\n"@),
                        "A003"@,
                    )
                } else {
                    is_logout_with(
                        a,
                        "A004"@,
                        |j: JsonValue|
                            read_json(
                                j,
                                message_id@,
                                join(rs[3].filter(|l: Seq<char>| is_header_line(l)), "\n"@),
                                fetch_body_text(rs[3]),
                            ),
                    )
                }
            },
            ImapTask::Search { query, count } => {
                if rs.len() == 3 {
                    is_exchange(a, Some("A003"@ + " SEARCH "@ + query@ + "\r\n"@), "A003"@)
                } else {
                    let ids = search_numbers(rs[3]);
                    let kept = recent(ids, count);
                    if kept.len() == 0 {
                        is_logout_with(a, "A004"@, |j: JsonValue| search_json(j, query@, ids.len() as u64, Seq::empty()))
                    } else if rs.len() == 4 {
                        is_exchange(
                            a,
                            Some(
                                "A004"@ + " FETCH "@ + join(decimals(kept), ","@)
                                    + " (FLAGS ENVELOPE BODY.PEEK[HEADER.FIELDS (MESSAGE-ID)])\r\n"@,
                            ),
                            "A004"@,
                        )
                    } else {
                        is_logout_with(
                            a,
                            "A005"@,
                            |j: JsonValue|
                                exists|es: Seq<EnvelopeSummary>| #[trigger]
                                    summaries_of(es, fetch_parts(rs[4])) && search_json(j, query@, ids.len() as u64, es),
                        )
                    }
                }
            },
        }
    }
}

fn exchange(command: Option<String>, tag: &str) -> (a: ImapAction)
    ensures
        a matches ImapAction::Exchange { command: c, tag: t } && c == command && t@ == tag@,
{
    ImapAction::Exchange { command, tag: String::from_str(tag) }
}

/// Decides the next step of an IMAP conversation from the replies read so
/// far, each as its lines.
pub fn imap_next(username: &str, password: &str, task: &ImapTask, replies: &Vec<Vec<String>>) -> (a: ImapAction)
    ensures
        imap_step(username@, password@, *task, reply_views(replies@), a),
{
    let ghost rs = reply_views(replies@);
    let n = replies.len();
    if n == 0 {
        return exchange(None, "*");
    }
    if n == 1 {
        return exchange(Some(imap_login_command("A001", username, password)), "A001");
    }
    if n == 2 {
        return exchange(Some(imap_select_command("A002", "INBOX")), "A002");
    }
    assert(rs[2] == line_views(replies@[2]@));
    match task {
        ImapTask::ListInbox { count } => {
            let e: u64 = match parse_exists_count(replies[2].as_slice()) {
                Some(x) => x,
                None => 0,
            };
            if e == 0 {
                let emails: Vec<EnvelopeSummary> = Vec::new();
                let j = list_inbox_result(&emails, 0);
                assert(emails@ =~= Seq::<EnvelopeSummary>::empty());
                return ImapAction::Finish { farewell: imap_logout_command("A003"), result: Ok(j) };
            }
            if *count == 0 && e == u64::MAX {
                return ImapAction::Finish {
                    farewell: imap_logout_command("A003"),
                    result: Err(execution_failed("email_list_inbox", String::from_str("mailbox message count out of range"))),
                };
            }
            if n == 3 {
                let set = inbox_sequence_set(e, *count);
                return exchange(Some(imap_fetch_envelope_command("A003", set.as_str())), "A003");
            }
            assert(rs[3] == line_views(replies@[3]@));
            let emails = parse_fetch_envelopes(replies[3].as_slice());
            let j = list_inbox_result(&emails, e);
            assert(summaries_of(emails@, fetch_parts(rs[3])) && list_json(j, emails@, e));
            ImapAction::Finish { farewell: imap_logout_command("A004"), result: Ok(j) }
        },
        ImapTask::Read { message_id } => {
            if n == 3 {
                return exchange(Some(imap_fetch_body_command("A003", message_id.as_str())), "A003");
            }
            assert(rs[3] == line_views(replies@[3]@));
            let (headers, body) = parse_fetch_body(replies[3].as_slice());
            let j = read_result(message_id.as_str(), headers.as_str(), body.as_str());
            ImapAction::Finish { farewell: imap_logout_command("A004"), result: Ok(j) }
        },
        ImapTask::Search { query, count } => {
            if n == 3 {
                return exchange(Some(imap_search_command("A003", query.as_str())), "A003");
            }
            assert(rs[3] == line_views(replies@[3]@));
            let ids = parse_search_results(replies[3].as_slice());
            let total = ids.len() as u64;
            let kept = recent_matches(&ids, *count);
            if kept.len() == 0 {
                let emails: Vec<EnvelopeSummary> = Vec::new();
                let j = search_result(query.as_str(), total, &emails);
                assert(emails@ =~= Seq::<EnvelopeSummary>::empty());
                return ImapAction::Finish { farewell: imap_logout_command("A004"), result: Ok(j) };
            }
            if n == 4 {
                let set = sequence_set_of(&kept);
                return exchange(Some(imap_fetch_envelope_command("A004", set.as_str())), "A004");
            }
            assert(rs[4] == line_views(replies@[4]@));
            let emails = parse_fetch_envelopes(replies[4].as_slice());
            let j = search_result(query.as_str(), total, &emails);
            assert(summaries_of(emails@, fetch_parts(rs[4])) && search_json(j, query@, total, emails@));
            ImapAction::Finish { farewell: imap_logout_command("A005"), result: Ok(j) }
        },
    }
}

// ---------------------------------------------------------------------------
// SMTP
// ---------------------------------------------------------------------------

/// The next step of an SMTP conversation.
pub enum SmtpAction {
    /// Send `command` (nothing for the greeting), then read one reply and
    /// hand back its status and lines.
    Exchange { command: Option<String> },
    /// Send `farewell`, if any, without waiting for a reply, and answer
    /// `result`.
    Finish { farewell: Option<String>, result: Result<JsonValue, AdapterError> },
}

/// The status and lines of a reply, as texts.
pub open spec fn smtp_reply_views(replies: Seq<(u16, Vec<String>)>) -> Seq<(u16, Seq<Seq<char>>)> {
    replies.map_values(|r: (u16, Vec<String>)| (r.0, line_views(r.1@)))
}

/// Whether reply `k` has the status class it needs: 2xx for the greeting,
/// then the class each step of `steps` expects.
pub open spec fn reply_fits(steps: Seq<(Seq<char>, u16)>, k: int, status: u16) -> bool {
    if k == 0 {
        status / 100 == 2
    } else if k <= steps.len() {
        status / 100 == steps[k - 1].1 / 100
    } else {
        true
    }
}

/// The error for reply `k` when it does not fit.
pub open spec fn reply_error(e: AdapterError, steps: Seq<(Seq<char>, u16)>, k: int, reply: (u16, Seq<Seq<char>>)) -> bool {
    if k == 0 {
        is_execution_failed(e, "email_send"@, "SMTP server rejected connection with status "@ + decimal(reply.0 as nat))
    } else {
        is_execution_failed(
            e,
            "email_send"@,
            unexpected_reply_reason((steps[k - 1].1 / 100) as nat, reply.0, reply.1),
        )
    }
}

/// The SMTP conversation of `email_send`, decided on the replies read so
/// far: read the greeting, then send each command of `send_steps` in turn;
/// the first reply outside its expected class ends the conversation with
/// its error and nothing more is sent; after the last step, QUIT is sent
/// and the answer is `{status: "sent", to, subject}`.
pub open spec fn smtp_step(steps: Seq<(Seq<char>, u16)>, to: Seq<char>, subject: Seq<char>, rs: Seq<(u16, Seq<Seq<char>>)>, a: SmtpAction) -> bool {
    if exists|k: int| 0 <= k < rs.len() && !reply_fits(steps, k, #[trigger] rs[k].0) {
        let k = choose|k: int|
            0 <= k < rs.len() && !reply_fits(steps, k, #[trigger] rs[k].0) && forall|i: int|
                0 <= i < k ==> reply_fits(steps, i, #[trigger] rs[i].0);
        match a {
            SmtpAction::Finish { farewell, result } => farewell is None && match result {
                Err(e) => reply_error(e, steps, k, rs[k]),
                Ok(_) => false,
            },
            _ => false,
        }
    } else if rs.len() == 0 {
        a matches SmtpAction::Exchange { command } && command is None
    } else if rs.len() <= steps.len() {
        a matches SmtpAction::Exchange { command } && command matches Some(c) && c@ == steps[rs.len() - 1].0
    } else {
        match a {
            SmtpAction::Finish { farewell, result } => (match farewell {
                Some(q) => q@ == "QUIT\r\n"@,
                None => false,
            }) && match result {
                Ok(j) => send_json(j, to, subject),
                Err(_) => false,
            },
            _ => false,
        }
    }
}

/// Decides the next step of the SMTP conversation that sends a message,
/// from the replies read so far.
pub fn smtp_next(username: &str, password: &str, to: &str, subject: &str, body: &str, replies: &Vec<(u16, Vec<String>)>) -> (a: SmtpAction)
    ensures
        smtp_step(
            send_steps(username@, password@, to@, subject@, body@, username.spec_bytes(), password.spec_bytes()),
            to@,
            subject@,
            smtp_reply_views(replies@),
            a,
        ),
{
    let steps = smtp_send_plan(username, password, to, subject, body);
    let ghost sv = send_steps(username@, password@, to@, subject@, body@, username.spec_bytes(), password.spec_bytes());
    let ghost rs = smtp_reply_views(replies@);
    assert(steps@.len() == sv.len());
    assert forall|i: int| 0 <= i < sv.len() implies #[trigger] sv[i] == (steps@[i].command@, steps@[i].expected_status) by {
        assert(steps@.map_values(|s: SmtpStep| (s.command@, s.expected_status))[i] == sv[i]);
    }
    let mut k: usize = 0;
    while k < replies.len()
        invariant
            k <= replies@.len(),
            rs == smtp_reply_views(replies@),
            sv == send_steps(username@, password@, to@, subject@, body@, username.spec_bytes(), password.spec_bytes()),
            steps@.len() == sv.len() == 8,
            forall|i: int| 0 <= i < sv.len() ==> #[trigger] sv[i] == (steps@[i].command@, steps@[i].expected_status),
            forall|i: int| 0 <= i < k ==> reply_fits(sv, i, #[trigger] rs[i].0),
        decreases replies.len() - k,
    {
        let status = replies[k].0;
        assert(rs[k as int] == (replies@[k as int].0, line_views(replies@[k as int].1@)));
        if k == 0 {
            match smtp_check_greeting(status, "email_send") {
                Ok(()) => {},
                Err(e) => {
                    proof {
                        assert(!reply_fits(sv, 0, rs[0].0));
                        let w = choose|j: int|
                            0 <= j < rs.len() && !reply_fits(sv, j, #[trigger] rs[j].0) && forall|i: int|
                                0 <= i < j ==> reply_fits(sv, i, #[trigger] rs[i].0);
                        assert(0 <= w < rs.len() && !reply_fits(sv, w, rs[w].0));
                        if w > 0 {
                            assert(reply_fits(sv, 0, rs[0].0));
                        }
                        assert(w == 0);
                    }
                    return SmtpAction::Finish { farewell: None, result: Err(e) };
                },
            }
        } else if k <= steps.len() {
            let lines = replies[k].1.as_slice();
            match smtp_check_reply(status, lines, "email_send", steps[k - 1].expected_status) {
                Ok(()) => {},
                Err(e) => {
                    proof {
                        assert(!reply_fits(sv, k as int, rs[k as int].0));
                        let w = choose|j: int|
                            0 <= j < rs.len() && !reply_fits(sv, j, #[trigger] rs[j].0) && forall|i: int|
                                0 <= i < j ==> reply_fits(sv, i, #[trigger] rs[i].0);
                        assert(0 <= w < rs.len() && !reply_fits(sv, w, rs[w].0));
                        if w < k {
                            assert(reply_fits(sv, w, rs[w].0));
                        } else if w > k {
                            assert(reply_fits(sv, k as int, rs[k as int].0));
                        }
                        assert(w == k);
                        assert(sv[k - 1] == (steps@[k - 1].command@, steps@[k - 1].expected_status));
                        assert(lines@ == replies@[k as int].1@);
                        assert(replies@[k as int].1@.map_values(|l: String| l@) == line_views(replies@[k as int].1@));
                        assert(rs[k as int].1 == line_views(replies@[k as int].1@));
                    }
                    return SmtpAction::Finish { farewell: None, result: Err(e) };
                },
            }
        }
        k = k + 1;
    }
    if replies.len() == 0 {
        SmtpAction::Exchange { command: None }
    } else if replies.len() <= steps.len() {
        let c = steps[replies.len() - 1].command.clone();
        SmtpAction::Exchange { command: Some(c) }
    } else {
        SmtpAction::Finish { farewell: Some(smtp_quit_command()), result: Ok(send_result(to, subject)) }
    }
}

} // verus!
