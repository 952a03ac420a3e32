//! SMTP command builders, reply reading rules and the send conversation.

use vstd::prelude::*;
use vstd::string::*;

use crate::crypto::{base64_encode, base64_of};
use crate::error::{AdapterError, is_execution_failed};
use crate::text::{chars_of, decimal, join, join_strings, parse_u64, parse_u64_spec, u64_to_decimal};

verus! {

// ---------------------------------------------------------------------------
// SMTP command builders
// ---------------------------------------------------------------------------

/// Builds an SMTP EHLO command.
pub fn smtp_ehlo_command(domain: &str) -> (r: String)
    ensures
        r@ == "EHLO "@ + domain@ + "\r\n"@,
{
    let mut s = String::from_str("EHLO ");
    s.append(domain);
    s.append("\r\n");
    s
}

/// Builds an SMTP AUTH LOGIN command.
pub fn smtp_auth_login_command() -> (r: String)
    ensures
        r@ == "AUTH LOGIN\r\n"@,
{
    String::from_str("AUTH LOGIN\r\n")
}

/// Encodes a string's UTF-8 bytes in base64 for SMTP AUTH.
pub fn smtp_base64_encode(input: &str) -> (r: String)
    ensures
        r@ == base64_of(input.spec_bytes()),
{
    base64_encode(input.as_bytes())
}

/// Builds an SMTP MAIL FROM command.
pub fn smtp_mail_from_command(from: &str) -> (r: String)
    ensures
        r@ == "MAIL FROM:<"@ + from@ + ">\r\n"@,
{
    let mut s = String::from_str("MAIL FROM:<");
    s.append(from);
    s.append(">\r\n");
    s
}

/// Builds an SMTP RCPT TO command.
pub fn smtp_rcpt_to_command(to: &str) -> (r: String)
    ensures
        r@ == "RCPT TO:<"@ + to@ + ">\r\n"@,
{
    let mut s = String::from_str("RCPT TO:<");
    s.append(to);
    s.append(">\r\n");
    s
}

/// Builds an SMTP DATA command.
pub fn smtp_data_command() -> (r: String)
    ensures
        r@ == "DATA\r\n"@,
{
    String::from_str("DATA\r\n")
}

/// The full message sent after DATA.
pub open spec fn message_text(from: Seq<char>, to: Seq<char>, subject: Seq<char>, body: Seq<char>) -> Seq<char> {
    "From: "@ + from + "\r\nTo: "@ + to + "\r\nSubject: "@ + subject
        + "\r\nMIME-Version: 1.0\r\nContent-Type: text/plain; charset=UTF-8\r\n\r\n"@ + body
        + "\r\n.\r\n"@
}

/// Builds a full email message for SMTP DATA, ending with the lone `.` line.
pub fn smtp_message_body(from: &str, to: &str, subject: &str, body: &str) -> (r: String)
    ensures
        r@ == message_text(from@, to@, subject@, body@),
{
    let mut s = String::from_str("From: ");
    s.append(from);
    s.append("\r\nTo: ");
    s.append(to);
    s.append("\r\nSubject: ");
    s.append(subject);
    s.append("\r\nMIME-Version: 1.0\r\nContent-Type: text/plain; charset=UTF-8\r\n\r\n");
    s.append(body);
    s.append("\r\n.\r\n");
    s
}

/// Builds an SMTP QUIT command.
pub fn smtp_quit_command() -> (r: String)
    ensures
        r@ == "QUIT\r\n"@,
{
    String::from_str("QUIT\r\n")
}

// ---------------------------------------------------------------------------
// Reading replies
// ---------------------------------------------------------------------------

/// Whether a trimmed reply line ends the reply: a line of fewer than four
/// bytes, or one whose fourth byte is a space (`NNN text`; `NNN-text`
/// continues).
pub open spec fn is_final_reply_line(bytes: Seq<u8>) -> bool {
    bytes.len() < 4 || bytes[3] == 32
}

/// Whether a trimmed reply line ends an SMTP reply.
pub fn smtp_is_final_line(line: &str) -> (r: bool)
    ensures
        r == is_final_reply_line(line.spec_bytes()),
{
    let b = line.as_bytes();
    if b.len() >= 4 {
        b[3] == 32u8
    } else {
        true
    }
}

/// The status code of a reply: the first three characters of its first line
/// as a number, or 0.
pub open spec fn reply_status(lines: Seq<Seq<char>>) -> u16 {
    if lines.len() > 0 && lines[0].len() >= 3 {
        match parse_u64_spec(lines[0].take(3)) {
            Some(n) => if n <= 65535 {
                n as u16
            } else {
                0
            },
            None => 0,
        }
    } else {
        0
    }
}

/// Parses the status code of an SMTP reply from its lines.
pub fn smtp_reply_status(lines: &[String]) -> (r: u16)
    ensures
        r == reply_status(lines@.map_values(|l: String| l@)),
{
    if lines.len() == 0 {
        return 0;
    }
    let v = chars_of(lines[0].as_str());
    if v.len() < 3 {
        return 0;
    }
    let head: [char; 3] = [v[0], v[1], v[2]];
    assert(head@ =~= v@.take(3));
    match parse_u64(&head) {
        Some(n) => if n <= 65535 {
            n as u16
        } else {
            0
        },
        None => 0,
    }
}

/// The reason given when a reply is not in the expected class.
pub open spec fn unexpected_reply_reason(expected_class: nat, status: u16, lines: Seq<Seq<char>>) -> Seq<char> {
    "SMTP error: expected "@ + decimal(expected_class) + "xx, got "@ + decimal(status as nat) + ": "@
        + join(lines, "; "@)
}

/// Checks that a reply status is in the class of `expected_status_prefix`
/// (its hundreds digit).
pub fn smtp_check_reply(status: u16, lines: &[String], tool_name: &str, expected_status_prefix: u16) -> (r: Result<(), AdapterError>)
    ensures
        status / 100 == expected_status_prefix / 100 ==> r is Ok,
        status / 100 != expected_status_prefix / 100 ==> (r matches Err(e) && is_execution_failed(
            e,
            tool_name@,
            unexpected_reply_reason(
                (expected_status_prefix / 100) as nat,
                status,
                lines@.map_values(|l: String| l@),
            ),
        )),
{
    let expected_first_digit = expected_status_prefix / 100;
    if status / 100 != expected_first_digit {
        let mut reason = String::from_str("SMTP error: expected ");
        let d = u64_to_decimal(expected_first_digit as u64);
        reason.append(d.as_str());
        reason.append("xx, got ");
        let st = u64_to_decimal(status as u64);
        reason.append(st.as_str());
        reason.append(": ");
        let joined = join_strings(lines, "; ");
        reason.append(joined.as_str());
        return Err(AdapterError::ExecutionFailed { tool_name: String::from_str(tool_name), reason });
    }
    Ok(())
}

/// Checks the greeting: the server must answer with a 2xx status.
pub fn smtp_check_greeting(status: u16, tool_name: &str) -> (r: Result<(), AdapterError>)
    ensures
        status / 100 == 2 ==> r is Ok,
        status / 100 != 2 ==> (r matches Err(e) && is_execution_failed(
            e,
            tool_name@,
            "SMTP server rejected connection with status "@ + decimal(status as nat),
        )),
{
    if status / 100 != 2 {
        let mut reason = String::from_str("SMTP server rejected connection with status ");
        let st = u64_to_decimal(status as u64);
        reason.append(st.as_str());
        return Err(AdapterError::ExecutionFailed { tool_name: String::from_str(tool_name), reason });
    }
    Ok(())
}

// ---------------------------------------------------------------------------
// The send conversation
// ---------------------------------------------------------------------------

/// One command of the send conversation and the status it expects.
#[derive(Debug)]
pub struct SmtpStep {
    pub command: String,
    pub expected_status: u16,
}

/// The commands of the send conversation and the statuses they expect, after
/// a 2xx greeting and before QUIT.
pub open spec fn send_steps(username: Seq<char>, password: Seq<char>, to: Seq<char>, subject: Seq<char>, body: Seq<char>, user_bytes: Seq<u8>, pass_bytes: Seq<u8>) -> Seq<(Seq<char>, u16)> {
    seq![
        ("EHLO openintentos.local\r\n"@, 200u16),
        ("AUTH LOGIN\r\n"@, 300u16),
        (base64_of(user_bytes) + "\r\n"@, 300u16),
        (base64_of(pass_bytes) + "\r\n"@, 200u16),
        ("MAIL FROM:<"@ + username + ">\r\n"@, 200u16),
        ("RCPT TO:<"@ + to + ">\r\n"@, 200u16),
        ("DATA\r\n"@, 300u16),
        (message_text(username, to, subject, body), 200u16),
    ]
}

fn step(command: String, expected_status: u16) -> (r: SmtpStep)
    ensures
        r.command@ == command@,
        r.expected_status == expected_status,
{
    SmtpStep { command, expected_status }
}

/// The send conversation for a message from `username` to `to`.
pub fn smtp_send_plan(username: &str, password: &str, to: &str, subject: &str, body: &str) -> (r: Vec<SmtpStep>)
    ensures
        r@.map_values(|s: SmtpStep| (s.command@, s.expected_status)) == send_steps(
            username@,
            password@,
            to@,
            subject@,
            body@,
            username.spec_bytes(),
            password.spec_bytes(),
        ),
{
    let mut steps: Vec<SmtpStep> = Vec::new();
    steps.push(step(smtp_ehlo_command("openintentos.local"), 200));
    steps.push(step(smtp_auth_login_command(), 300));
    let mut user = smtp_base64_encode(username);
    user.append("\r\n");
    steps.push(step(user, 300));
    let mut pass = smtp_base64_encode(password);
    pass.append("\r\n");
    steps.push(step(pass, 200));
    steps.push(step(smtp_mail_from_command(username), 200));
    steps.push(step(smtp_rcpt_to_command(to), 200));
    steps.push(step(smtp_data_command(), 300));
    steps.push(step(smtp_message_body(username, to, subject, body), 200));
    proof {
        reveal_strlit("EHLO ");
        reveal_strlit("openintentos.local");
        reveal_strlit("\r\n");
        reveal_strlit("EHLO openintentos.local\r\n");
        assert("EHLO "@ + "openintentos.local"@ + "\r\n"@ =~= "EHLO openintentos.local\r\n"@);
    }
    assert(steps@.map_values(|s: SmtpStep| (s.command@, s.expected_status)) =~= send_steps(
        username@,
        password@,
        to@,
        subject@,
        body@,
        username.spec_bytes(),
        password.spec_bytes(),
    ));
    steps
}

} // verus!
