//! IMAP command builders and response parsers.
//!
//! Commands are built from their parts exactly; response lines are read as
//! the server sends them (one string per line, already trimmed by the reader).

use vstd::prelude::*;
use vstd::string::*;

use crate::text::{
    chars_of, contains, contains_exec, ends_with, ends_with_exec, find, find_from_exec, join,
    join_chars, lemma_find_from, lines, parse_u64, parse_u64_spec, split_lines, split_on,
    split_on_exec, split_words, starts_with, starts_with_exec, string_of, string_of_range, trim,
    trim_chars, words, str_contains,
};
use crate::error::{AdapterError, execution_failed, is_execution_failed};

verus! {

/// Connection timeout in seconds.
pub const CONNECT_TIMEOUT_SECS: u64 = 30;

// ---------------------------------------------------------------------------
// IMAP command builders
// ---------------------------------------------------------------------------

/// Builds an IMAP LOGIN command.
pub fn imap_login_command(tag: &str, username: &str, password: &str) -> (r: String)
    ensures
        r@ == tag@ + " LOGIN \""@ + username@ + "\" \""@ + password@ + "\"\r\n"@,
{
    let mut s = String::from_str(tag);
    s.append(" LOGIN \"");
    s.append(username);
    s.append("\" \"");
    s.append(password);
    s.append("\"\r\n");
    s
}

/// Builds an IMAP SELECT command.
pub fn imap_select_command(tag: &str, mailbox: &str) -> (r: String)
    ensures
        r@ == tag@ + " SELECT \""@ + mailbox@ + "\"\r\n"@,
{
    let mut s = String::from_str(tag);
    s.append(" SELECT \"");
    s.append(mailbox);
    s.append("\"\r\n");
    s
}

/// Builds an IMAP FETCH command for envelope data.
pub fn imap_fetch_envelope_command(tag: &str, sequence_set: &str) -> (r: String)
    ensures
        r@ == tag@ + " FETCH "@ + sequence_set@
            + " (FLAGS ENVELOPE BODY.PEEK[HEADER.FIELDS (MESSAGE-ID)])\r\n"@,
{
    let mut s = String::from_str(tag);
    s.append(" FETCH ");
    s.append(sequence_set);
    s.append(" (FLAGS ENVELOPE BODY.PEEK[HEADER.FIELDS (MESSAGE-ID)])\r\n");
    s
}

/// Builds an IMAP FETCH command for the full message body.
pub fn imap_fetch_body_command(tag: &str, sequence_number: &str) -> (r: String)
    ensures
        r@ == tag@ + " FETCH "@ + sequence_number@ + " (FLAGS ENVELOPE BODY[TEXT] BODY[HEADER])\r\n"@,
{
    let mut s = String::from_str(tag);
    s.append(" FETCH ");
    s.append(sequence_number);
    s.append(" (FLAGS ENVELOPE BODY[TEXT] BODY[HEADER])\r\n");
    s
}

/// Builds an IMAP SEARCH command.
pub fn imap_search_command(tag: &str, query: &str) -> (r: String)
    ensures
        r@ == tag@ + " SEARCH "@ + query@ + "\r\n"@,
{
    let mut s = String::from_str(tag);
    s.append(" SEARCH ");
    s.append(query);
    s.append("\r\n");
    s
}

/// Builds an IMAP LOGOUT command.
pub fn imap_logout_command(tag: &str) -> (r: String)
    ensures
        r@ == tag@ + " LOGOUT\r\n"@,
{
    let mut s = String::from_str(tag);
    s.append(" LOGOUT\r\n");
    s
}

// ---------------------------------------------------------------------------
// SELECT response: the EXISTS count
// ---------------------------------------------------------------------------

/// Whether a trimmed line is an untagged `* N EXISTS` candidate with at least
/// three words.
pub open spec fn is_exists_line(t: Seq<char>) -> bool {
    starts_with(t, "*"@) && ends_with(t, "EXISTS"@) && words(t).len() >= 3
}

/// The EXISTS count of a SELECT response: the first candidate line decides,
/// by whether its second word parses as a number.
pub open spec fn exists_count(lines: Seq<Seq<char>>) -> Option<u64>
    decreases lines.len(),
{
    if lines.len() == 0 {
        None
    } else {
        let t = trim(lines[0]);
        if is_exists_line(t) {
            parse_u64_spec(words(t)[1])
        } else {
            exists_count(lines.drop_first())
        }
    }
}

/// The views of a list of strings.
pub open spec fn line_views(lines: Seq<String>) -> Seq<Seq<char>> {
    lines.map_values(|l: String| l@)
}

/// Extracts the EXISTS count from IMAP SELECT response lines.
pub fn parse_exists_count(lines: &[String]) -> (r: Option<u64>)
    ensures
        r == exists_count(line_views(lines@)),
{
    let ghost ls = line_views(lines@);
    let mut i: usize = 0;
    assert(ls.skip(0) =~= ls);
    while i < lines.len()
        invariant
            i <= lines.len(),
            ls == line_views(lines@),
            exists_count(ls) == exists_count(ls.skip(i as int)),
        decreases lines.len() - i,
    {
        assert(ls.skip(i as int)[0] == lines@[i as int]@);
        assert(ls.skip(i as int).drop_first() =~= ls.skip(i + 1));
        let v = chars_of(lines[i].as_str());
        let t = trim_chars(v.as_slice());
        let star: [char; 1] = ['*'];
        let exists_word = chars_of("EXISTS");
        proof {
            reveal_strlit("*");
        }
        assert(star@ =~= "*"@);
        if starts_with_exec(t.as_slice(), &star) && ends_with_exec(
            t.as_slice(),
            exists_word.as_slice(),
        ) {
            let parts = split_words(t.as_slice());
            if parts.len() >= 3 {
                return parse_u64(parts[1].as_slice());
            }
        }
        i = i + 1;
    }
    None
}

// ---------------------------------------------------------------------------
// SEARCH response: matching sequence numbers
// ---------------------------------------------------------------------------

/// The numbers among a list of words, skipping words that do not parse.
pub open spec fn parsed_numbers(ws: Seq<Seq<char>>) -> Seq<u64>
    decreases ws.len(),
{
    if ws.len() == 0 {
        Seq::empty()
    } else {
        let rest = parsed_numbers(ws.drop_last());
        match parse_u64_spec(ws.last()) {
            Some(n) => rest.push(n),
            None => rest,
        }
    }
}

/// The sequence numbers a `* SEARCH ...` line lists; none for other lines.
pub open spec fn search_line_numbers(line: Seq<char>) -> Seq<u64> {
    let t = trim(line);
    if starts_with(t, "* SEARCH"@) {
        parsed_numbers(words(t.skip(8)))
    } else {
        Seq::empty()
    }
}

/// All sequence numbers of a SEARCH response, in order.
pub open spec fn search_numbers(lines: Seq<Seq<char>>) -> Seq<u64>
    decreases lines.len(),
{
    if lines.len() == 0 {
        Seq::empty()
    } else {
        search_numbers(lines.drop_last()) + search_line_numbers(lines.last())
    }
}

fn numbers_of_words(ws: &Vec<Vec<char>>, out: &mut Vec<u64>)
    ensures
        final(out)@ == old(out)@ + parsed_numbers(ws@.map_values(|w: Vec<char>| w@)),
{
    let ghost wv = ws@.map_values(|w: Vec<char>| w@);
    let mut i: usize = 0;
    while i < ws.len()
        invariant
            i <= ws.len(),
            wv == ws@.map_values(|w: Vec<char>| w@),
            out@ == old(out)@ + parsed_numbers(wv.take(i as int)),
        decreases ws.len() - i,
    {
        assert(wv.take(i + 1).drop_last() =~= wv.take(i as int));
        assert(wv.take(i + 1).last() == ws@[i as int]@);
        match parse_u64(ws[i].as_slice()) {
            Some(n) => {
                out.push(n);
            },
            None => {},
        }
        i = i + 1;
    }
    assert(wv.take(ws.len() as int) =~= wv);
}

/// Parses an IMAP SEARCH response into sequence numbers.
pub fn parse_search_results(lines: &[String]) -> (r: Vec<u64>)
    ensures
        r@ == search_numbers(line_views(lines@)),
{
    let ghost ls = line_views(lines@);
    let prefix = chars_of("* SEARCH");
    proof {
        reveal_strlit("* SEARCH");
    }
    let mut out: Vec<u64> = Vec::new();
    let mut i: usize = 0;
    while i < lines.len()
        invariant
            i <= lines.len(),
            ls == line_views(lines@),
            prefix@ == "* SEARCH"@,
            prefix@.len() == 8,
            out@ == search_numbers(ls.take(i as int)),
        decreases lines.len() - i,
    {
        assert(ls.take(i + 1).drop_last() =~= ls.take(i as int));
        assert(ls.take(i + 1).last() == lines@[i as int]@);
        let v = chars_of(lines[i].as_str());
        let t = trim_chars(v.as_slice());
        if starts_with_exec(t.as_slice(), prefix.as_slice()) {
            let mut rest: Vec<char> = Vec::new();
            let mut k: usize = 8;
            while k < t.len()
                invariant
                    8 <= k <= t.len(),
                    rest@ == t@.subrange(8, k as int),
                decreases t.len() - k,
            {
                rest.push(t[k]);
                assert(t@.subrange(8, k as int).push(t@[k as int]) =~= t@.subrange(8, k + 1));
                k = k + 1;
            }
            assert(rest@ =~= t@.skip(8));
            let ws = split_words(rest.as_slice());
            numbers_of_words(&ws, &mut out);
        } else {
            assert(search_line_numbers(lines@[i as int]@) =~= Seq::<u64>::empty());
            assert(out@ + Seq::<u64>::empty() =~= out@);
        }
        i = i + 1;
    }
    assert(ls.take(lines.len() as int) =~= ls);
    out
}

// ---------------------------------------------------------------------------
// Header fields and envelope parts
// ---------------------------------------------------------------------------

/// The end of a header value: the first `\r`, or else the first `\n`.
pub open spec fn line_end(after: Seq<char>) -> Option<int> {
    match find(after, seq!['\r']) {
        Some(e) => Some(e),
        None => find(after, seq!['\n']),
    }
}

/// The text after `name:` up to the end of its line, trimmed; `None` when the
/// name or the line end is missing.
pub open spec fn raw_header_value(text: Seq<char>, name: Seq<char>) -> Option<Seq<char>> {
    let search = name + ":"@;
    match find(text, search) {
        Some(idx) => {
            let after = text.skip(idx + search.len());
            match line_end(after) {
                Some(end) => Some(trim(after.take(end))),
                None => None,
            }
        },
        None => None,
    }
}

/// A header field value: present and non-empty.
pub open spec fn header_value(text: Seq<char>, name: Seq<char>) -> Option<Seq<char>> {
    match raw_header_value(text, name) {
        Some(v) => if v.len() > 0 {
            Some(v)
        } else {
            None
        },
        None => None,
    }
}

/// The characters `v[from..]`.
pub fn chars_from(v: &[char], from: usize) -> (r: Vec<char>)
    requires
        from <= v.len(),
    ensures
        r@ == v@.skip(from as int),
{
    let mut r: Vec<char> = Vec::new();
    let mut k = from;
    while k < v.len()
        invariant
            from <= k <= v.len(),
            r@ == v@.subrange(from as int, k as int),
        decreases v.len() - k,
    {
        r.push(v[k]);
        assert(v@.subrange(from as int, k as int).push(v@[k as int]) =~= v@.subrange(
            from as int,
            k + 1,
        ));
        k = k + 1;
    }
    r
}

/// The characters `v[from..to]`.
pub fn chars_range(v: &[char], from: usize, to: usize) -> (r: Vec<char>)
    requires
        from <= to <= v.len(),
    ensures
        r@ == v@.subrange(from as int, to as int),
{
    let mut r: Vec<char> = Vec::new();
    let mut k = from;
    while k < to
        invariant
            from <= k <= to <= v.len(),
            r@ == v@.subrange(from as int, k as int),
        decreases to - k,
    {
        r.push(v[k]);
        assert(v@.subrange(from as int, k as int).push(v@[k as int]) =~= v@.subrange(
            from as int,
            k + 1,
        ));
        k = k + 1;
    }
    r
}

fn find_line_end(after: &[char]) -> (r: Option<usize>)
    ensures
        match r {
            Some(e) => line_end(after@) == Some(e as int) && e <= after.len(),
            None => line_end(after@) is None,
        },
{
    let cr: [char; 1] = ['\r'];
    let lf: [char; 1] = ['\n'];
    assert(cr@ =~= seq!['\r']);
    assert(lf@ =~= seq!['\n']);
    let r1 = find_from_exec(after, &cr, 0);
    match r1 {
        Some(e) => {
            proof {
                lemma_find_from(after@, seq!['\r'], 0);
            }
            Some(e)
        },
        None => {
            let r2 = find_from_exec(after, &lf, 0);
            proof {
                lemma_find_from(after@, seq!['\n'], 0);
            }
            r2
        },
    }
}

fn raw_header_value_exec(text: &[char], name: &str) -> (r: Option<Vec<char>>)
    ensures
        match r {
            Some(v) => raw_header_value(text@, name@) == Some(v@),
            None => raw_header_value(text@, name@) is None,
        },
{
    let mut search = chars_of(name);
    search.push(':');
    proof {
        reveal_strlit(":");
    }
    assert(search@ =~= name@ + ":"@);
    let found = find_from_exec(text, search.as_slice(), 0);
    proof {
        lemma_find_from(text@, search@, 0);
    }
    match found {
        Some(idx) => {
            let after = chars_from(text, idx + search.len());
            match find_line_end(after.as_slice()) {
                Some(end) => {
                    let head = chars_range(after.as_slice(), 0, end);
                    assert(head@ =~= after@.take(end as int));
                    Some(trim_chars(head.as_slice()))
                },
                None => None,
            }
        },
        None => None,
    }
}

/// Extracts a header field value from text: the trimmed rest of the line
/// after `name:`, or `None` if it is missing or empty.
pub fn extract_header_field(text: &str, field_name: &str) -> (r: Option<String>)
    ensures
        match r {
            Some(v) => header_value(text@, field_name@) == Some(v@),
            None => header_value(text@, field_name@) is None,
        },
{
    let t = chars_of(text);
    match raw_header_value_exec(t.as_slice(), field_name) {
        Some(v) => if v.len() > 0 {
            Some(string_of(v.as_slice()))
        } else {
            None
        },
        None => None,
    }
}

/// The `From:` header value of a FETCH response, trimmed (possibly empty).
pub fn extract_envelope_from(text: &str) -> (r: Option<String>)
    ensures
        match r {
            Some(v) => raw_header_value(text@, "From"@) == Some(v@),
            None => raw_header_value(text@, "From"@) is None,
        },
{
    let t = chars_of(text);
    match raw_header_value_exec(t.as_slice(), "From") {
        Some(v) => Some(string_of(v.as_slice())),
        None => None,
    }
}

// ---------------------------------------------------------------------------
// Parenthesized and quoted parts of an ENVELOPE
// ---------------------------------------------------------------------------

/// Scanning `s` from position `i` with nesting depth `depth`, the position of
/// the `)` that brings the depth back to zero.
pub open spec fn closing_paren(s: Seq<char>, i: int, depth: int) -> Option<int>
    decreases s.len() - i,
{
    if i < 0 || i >= s.len() {
        None
    } else {
        let c = s[i];
        let d = if c == '(' {
            depth + 1
        } else if c == ')' {
            depth - 1
        } else {
            depth
        };
        if c == ')' && d == 0 {
            Some(i)
        } else {
            closing_paren(s, i + 1, d)
        }
    }
}

/// The contents of the first balanced parenthesized group after `field`.
pub open spec fn quoted_field(text: Seq<char>, field: Seq<char>) -> Option<Seq<char>> {
    match find(text, field) {
        Some(idx) => {
            let after = text.skip(idx + field.len());
            match find(after, "("@) {
                Some(ps) => {
                    let after_paren = after.skip(ps);
                    match closing_paren(after_paren, 0, 0) {
                        Some(end) => if end > 0 {
                            Some(after_paren.subrange(1, end))
                        } else {
                            None
                        },
                        None => None,
                    }
                },
                None => None,
            }
        },
        None => None,
    }
}

fn closing_paren_exec(s: &[char]) -> (r: Option<usize>)
    ensures
        match r {
            Some(e) => closing_paren(s@, 0, 0) == Some(e as int) && e < s.len(),
            None => closing_paren(s@, 0, 0) is None,
        },
{
    let mut depth: i128 = 0;
    let mut i: usize = 0;
    while i < s.len()
        invariant
            i <= s.len(),
            -(i as int) <= depth <= i,
            closing_paren(s@, 0, 0) == closing_paren(s@, i as int, depth as int),
        decreases s.len() - i,
    {
        let c = s[i];
        if c == '(' {
            depth = depth + 1;
        } else if c == ')' {
            depth = depth - 1;
            if depth == 0 {
                return Some(i);
            }
        }
        i = i + 1;
    }
    None
}

/// Extracts the parenthesized data that follows `field` in a FETCH response.
pub fn extract_quoted_field(text: &str, field: &str) -> (r: Option<String>)
    ensures
        match r {
            Some(v) => quoted_field(text@, field@) == Some(v@),
            None => quoted_field(text@, field@) is None,
        },
{
    let t = chars_of(text);
    let f = chars_of(field);
    let found = find_from_exec(t.as_slice(), f.as_slice(), 0);
    proof {
        lemma_find_from(t@, f@, 0);
    }
    let idx = match found {
        Some(i) => i,
        None => {
            return None;
        },
    };
    let after = chars_from(t.as_slice(), idx + f.len());
    let open: [char; 1] = ['('];
    proof {
        reveal_strlit("(");
    }
    assert(open@ =~= "("@);
    let ps_found = find_from_exec(after.as_slice(), &open, 0);
    proof {
        lemma_find_from(after@, open@, 0);
    }
    let ps = match ps_found {
        Some(p) => p,
        None => {
            return None;
        },
    };
    let after_paren = chars_from(after.as_slice(), ps);
    match closing_paren_exec(after_paren.as_slice()) {
        Some(end) => {
            if end > 0 {
                Some(string_of_range(after_paren.as_slice(), 1, end))
            } else {
                None
            }
        },
        None => None,
    }
}

/// The quoted strings of `s` completed so far, whether a quote is open, and
/// the text of the open quote, scanning from the left.
pub open spec fn quotes_scan(s: Seq<char>) -> (Seq<Seq<char>>, bool, Seq<char>)
    decreases s.len(),
{
    if s.len() == 0 {
        (Seq::empty(), false, Seq::empty())
    } else {
        let (done, open, cur) = quotes_scan(s.drop_last());
        let c = s.last();
        if c == '"' {
            if open {
                (done.push(cur), false, Seq::empty())
            } else {
                (done, true, cur)
            }
        } else if open {
            (done, open, cur.push(c))
        } else {
            (done, open, cur)
        }
    }
}

/// The completed quoted strings of `s`, in order.
pub open spec fn quoted_strings(s: Seq<char>) -> Seq<Seq<char>> {
    quotes_scan(s).0
}

/// The `n`-th quoted string of `s`, if there are that many.
pub open spec fn nth_quoted(s: Seq<char>, n: int) -> Option<Seq<char>> {
    if 0 <= n < quoted_strings(s).len() {
        Some(quoted_strings(s)[n])
    } else {
        None
    }
}

fn quoted_strings_exec(v: &[char]) -> (r: Vec<Vec<char>>)
    ensures
        r@.map_values(|w: Vec<char>| w@) == quoted_strings(v@),
{
    let mut done: Vec<Vec<char>> = Vec::new();
    let mut open = false;
    let mut cur: Vec<char> = Vec::new();
    let mut i: usize = 0;
    while i < v.len()
        invariant
            i <= v.len(),
            (done@.map_values(|w: Vec<char>| w@), open, cur@) == quotes_scan(v@.take(i as int)),
        decreases v.len() - i,
    {
        let c = v[i];
        assert(v@.take(i + 1).drop_last() =~= v@.take(i as int));
        assert(v@.take(i + 1).last() == c);
        if c == '"' {
            if open {
                let ghost before = done@;
                let w = cur;
                done.push(w);
                assert(done@.map_values(|w: Vec<char>| w@) =~= before.map_values(
                    |w: Vec<char>| w@,
                ).push(w@));
                cur = Vec::new();
                assert(cur@ =~= Seq::<char>::empty());
                open = false;
            } else {
                open = true;
            }
        } else if open {
            cur.push(c);
        }
        i = i + 1;
    }
    assert(v@.take(v.len() as int) =~= v@);
    done
}

/// Extracts the subject (the second quoted string) of an ENVELOPE.
pub fn extract_envelope_subject(envelope: &str) -> (r: Option<String>)
    ensures
        match r {
            Some(v) => nth_quoted(envelope@, 1) == Some(v@),
            None => nth_quoted(envelope@, 1) is None,
        },
{
    let v = chars_of(envelope);
    let qs = quoted_strings_exec(v.as_slice());
    if qs.len() >= 2 {
        Some(string_of(qs[1].as_slice()))
    } else {
        None
    }
}

/// The date of a FETCH response: the `Date:` header if the text has one
/// (`None` if its line does not end), else the first quoted string of the
/// ENVELOPE.
pub open spec fn envelope_date(text: Seq<char>) -> Option<Seq<char>> {
    match find(text, "Date:"@) {
        Some(_) => raw_header_value(text, "Date"@),
        None => match quoted_field(text, "ENVELOPE"@) {
            Some(env) => nth_quoted(env, 0),
            None => None,
        },
    }
}

/// Extracts the date of a FETCH response.
pub fn extract_envelope_date(text: &str) -> (r: Option<String>)
    ensures
        match r {
            Some(v) => envelope_date(text@) == Some(v@),
            None => envelope_date(text@) is None,
        },
{
    let t = chars_of(text);
    let key = chars_of("Date:");
    let has_date = find_from_exec(t.as_slice(), key.as_slice(), 0);
    proof {
        reveal_strlit("Date:");
        reveal_strlit("Date");
        reveal_strlit(":");
        assert("Date"@ + ":"@ =~= "Date:"@);
    }
    if has_date.is_some() {
        match raw_header_value_exec(t.as_slice(), "Date") {
            Some(v) => Some(string_of(v.as_slice())),
            None => None,
        }
    } else {
        match extract_quoted_field(text, "ENVELOPE") {
            Some(env) => {
                let ev = chars_of(env.as_str());
                let qs = quoted_strings_exec(ev.as_slice());
                if qs.len() >= 1 {
                    Some(string_of(qs[0].as_slice()))
                } else {
                    None
                }
            },
            None => None,
        }
    }
}

// ---------------------------------------------------------------------------
// FETCH envelopes
// ---------------------------------------------------------------------------

/// One message summary from a FETCH envelope response.
#[derive(Debug)]
pub struct EnvelopeSummary {
    pub sequence: u64,
    pub subject: String,
    pub from: String,
    pub date: String,
    pub message_id: String,
}

/// The value of an optional text, or empty.
pub open spec fn or_empty(o: Option<Seq<char>>) -> Seq<char> {
    match o {
        Some(s) => s,
        None => Seq::empty(),
    }
}

/// The subject of a FETCH part: the second quoted string of its ENVELOPE.
pub open spec fn part_subject(t: Seq<char>) -> Seq<char> {
    match quoted_field(t, "ENVELOPE"@) {
        Some(env) => or_empty(nth_quoted(env, 1)),
        None => Seq::empty(),
    }
}

/// The message id of a FETCH part: `Message-ID`, else `Message-Id`.
pub open spec fn part_message_id(t: Seq<char>) -> Seq<char> {
    match header_value(t, "Message-ID"@) {
        Some(v) => v,
        None => or_empty(header_value(t, "Message-Id"@)),
    }
}

/// Whether a summary is what a FETCH part gives for sequence number `n`.
pub open spec fn summary_of(s: EnvelopeSummary, t: Seq<char>, n: u64) -> bool {
    &&& s.sequence == n
    &&& s.subject@ == part_subject(t)
    &&& s.from@ == or_empty(raw_header_value(t, "From"@))
    &&& s.date@ == or_empty(envelope_date(t))
    &&& s.message_id@ == part_message_id(t)
}

/// The sequence number a trimmed FETCH part starts with, if it is one.
pub open spec fn part_sequence(t: Seq<char>) -> Option<u64> {
    if contains(t, "FETCH"@) && words(t).len() > 0 {
        parse_u64_spec(words(t)[0])
    } else {
        None
    }
}

/// The parts of a FETCH response: the lines joined with `\n`, split at `* `,
/// each trimmed.
pub open spec fn fetch_parts(lines: Seq<Seq<char>>) -> Seq<Seq<char>> {
    split_on(join(lines, "\n"@), "* "@).map_values(|p: Seq<char>| trim(p))
}

/// Whether `out` summarizes, in order, the parts of `parts` that carry a
/// FETCH sequence number.
pub open spec fn summaries_of(out: Seq<EnvelopeSummary>, parts: Seq<Seq<char>>) -> bool
    decreases parts.len(),
{
    if parts.len() == 0 {
        out.len() == 0
    } else {
        let t = parts.last();
        match part_sequence(t) {
            Some(n) => out.len() > 0 && summary_of(out.last(), t, n) && summaries_of(
                out.drop_last(),
                parts.drop_last(),
            ),
            None => summaries_of(out, parts.drop_last()),
        }
    }
}

fn text_or_empty(o: Option<String>) -> (r: String)
    ensures
        r@ == or_empty(match o {
            Some(s) => Some(s@),
            None => None,
        }),
{
    match o {
        Some(s) => s,
        None => String::new(),
    }
}

fn summarize_part(t: &[char]) -> (r: Option<EnvelopeSummary>)
    ensures
        match part_sequence(t@) {
            Some(n) => r matches Some(s) && summary_of(s, t@, n),
            None => r is None,
        },
{
    let fetch = chars_of("FETCH");
    if !contains_exec(t, fetch.as_slice()) {
        return None;
    }
    let ws = split_words(t);
    if ws.len() == 0 {
        return None;
    }
    let seq_num = match parse_u64(ws[0].as_slice()) {
        Some(n) => n,
        None => {
            return None;
        },
    };
    let text = string_of(t);
    let subject = match extract_quoted_field(text.as_str(), "ENVELOPE") {
        Some(env) => text_or_empty(extract_envelope_subject(env.as_str())),
        None => String::new(),
    };
    let from = text_or_empty(extract_envelope_from(text.as_str()));
    let date = text_or_empty(extract_envelope_date(text.as_str()));
    let message_id = match extract_header_field(text.as_str(), "Message-ID") {
        Some(m) => m,
        None => text_or_empty(extract_header_field(text.as_str(), "Message-Id")),
    };
    Some(EnvelopeSummary { sequence: seq_num, subject, from, date, message_id })
}

/// Parses envelope data from IMAP FETCH response lines, one summary per
/// `* N FETCH` part.
pub fn parse_fetch_envelopes(lines: &[String]) -> (r: Vec<EnvelopeSummary>)
    ensures
        summaries_of(r@, fetch_parts(line_views(lines@))),
{
    let mut vs: Vec<Vec<char>> = Vec::new();
    let mut i: usize = 0;
    while i < lines.len()
        invariant
            i <= lines.len(),
            vs@.map_values(|w: Vec<char>| w@) == line_views(lines@).take(i as int),
        decreases lines.len() - i,
    {
        let ghost before = vs@;
        let v = chars_of(lines[i].as_str());
        vs.push(v);
        assert(vs@.map_values(|w: Vec<char>| w@) =~= before.map_values(|w: Vec<char>| w@).push(
            v@,
        ));
        assert(line_views(lines@).take(i + 1) =~= line_views(lines@).take(i as int).push(
            lines@[i as int]@,
        ));
        i = i + 1;
    }
    assert(line_views(lines@).take(lines.len() as int) =~= line_views(lines@));
    let nl: [char; 1] = ['\n'];
    proof {
        reveal_strlit("\n");
        reveal_strlit("* ");
    }
    assert(nl@ =~= "\n"@);
    let full = join_chars(vs.as_slice(), &nl);
    let sep: [char; 2] = ['*', ' '];
    assert(sep@ =~= "* "@);
    let raw_parts = split_on_exec(full.as_slice(), &sep);
    let ghost parts = fetch_parts(line_views(lines@));
    let ghost raw = raw_parts@.map_values(|w: Vec<char>| w@);
    assert(parts =~= raw.map_values(|p: Seq<char>| trim(p)));
    let mut out: Vec<EnvelopeSummary> = Vec::new();
    let mut k: usize = 0;
    while k < raw_parts.len()
        invariant
            k <= raw_parts.len(),
            raw == raw_parts@.map_values(|w: Vec<char>| w@),
            parts == raw.map_values(|p: Seq<char>| trim(p)),
            summaries_of(out@, parts.take(k as int)),
        decreases raw_parts.len() - k,
    {
        let t = trim_chars(raw_parts[k].as_slice());
        assert(parts.take(k + 1).drop_last() =~= parts.take(k as int));
        assert(parts.take(k + 1).last() == t@);
        match summarize_part(t.as_slice()) {
            Some(s) => {
                let ghost before = out@;
                out.push(s);
                assert(out@.drop_last() =~= before);
            },
            None => {},
        }
        k = k + 1;
    }
    assert(parts.take(raw_parts.len() as int) =~= parts);
    out
}

// ---------------------------------------------------------------------------
// FETCH body
// ---------------------------------------------------------------------------

/// Whether a response line counts as a header line: its trimmed text holds
/// a `:` and starts with neither `*` nor `)`.
pub open spec fn is_header_line(l: Seq<char>) -> bool {
    let t = trim(l);
    contains(t, ":"@) && !starts_with(t, "*"@) && !starts_with(t, ")"@)
}

/// Whether a body line is kept: it does not start with `)` and holds neither
/// `OK FETCH` nor `FLAGS`.
pub open spec fn is_body_line(l: Seq<char>) -> bool {
    !starts_with(l, ")"@) && !contains(l, "OK FETCH"@) && !contains(l, "FLAGS"@)
}

/// The body of a FETCH response: after the first blank line (`\r\n\r\n`) of
/// the joined response, the kept lines joined and trimmed; the whole joined
/// response if there is no blank line.
pub open spec fn fetch_body_text(ls: Seq<Seq<char>>) -> Seq<char> {
    let full = join(ls, "\n"@);
    match find(full, "\r\n\r\n"@) {
        Some(idx) => trim(join(lines(full.skip(idx + 4)).filter(|l: Seq<char>| is_body_line(l)), "\n"@)),
        None => full,
    }
}

fn filter_chars_lines(ls: &Vec<Vec<char>>, header: bool) -> (r: Vec<Vec<char>>)
    ensures
        header ==> r@.map_values(|w: Vec<char>| w@) == ls@.map_values(|w: Vec<char>| w@).filter(
            |l: Seq<char>| is_header_line(l),
        ),
        !header ==> r@.map_values(|w: Vec<char>| w@) == ls@.map_values(|w: Vec<char>| w@).filter(
            |l: Seq<char>| is_body_line(l),
        ),
{
    let ghost lv = ls@.map_values(|w: Vec<char>| w@);
    let colon: [char; 1] = [':'];
    let star: [char; 1] = ['*'];
    let close: [char; 1] = [')'];
    let okf = chars_of("OK FETCH");
    let flags = chars_of("FLAGS");
    proof {
        reveal_strlit(":");
        reveal_strlit("*");
        reveal_strlit(")");
    }
    assert(colon@ =~= ":"@);
    assert(star@ =~= "*"@);
    assert(close@ =~= ")"@);
    let mut out: Vec<Vec<char>> = Vec::new();
    let mut i: usize = 0;
    while i < ls.len()
        invariant
            i <= ls.len(),
            lv == ls@.map_values(|w: Vec<char>| w@),
            colon@ == ":"@,
            star@ == "*"@,
            close@ == ")"@,
            okf@ == "OK FETCH"@,
            flags@ == "FLAGS"@,
            header ==> out@.map_values(|w: Vec<char>| w@) == lv.take(i as int).filter(
                |l: Seq<char>| is_header_line(l),
            ),
            !header ==> out@.map_values(|w: Vec<char>| w@) == lv.take(i as int).filter(
                |l: Seq<char>| is_body_line(l),
            ),
        decreases ls.len() - i,
    {
        let l = &ls[i];
        assert(lv.take(i + 1).drop_last() =~= lv.take(i as int));
        assert(lv.take(i + 1).last() == l@);
        reveal_with_fuel(Seq::filter, 1);
        let keep = if header {
            let t = trim_chars(l.as_slice());
            contains_exec(t.as_slice(), &colon) && !starts_with_exec(t.as_slice(), &star)
                && !starts_with_exec(t.as_slice(), &close)
        } else {
            !starts_with_exec(l.as_slice(), &close) && !contains_exec(l.as_slice(), okf.as_slice())
                && !contains_exec(l.as_slice(), flags.as_slice())
        };
        if keep {
            let ghost before = out@;
            out.push(l.clone());
            assert(out@.map_values(|w: Vec<char>| w@) =~= before.map_values(|w: Vec<char>| w@).push(
                l@,
            ));
        }
        i = i + 1;
    }
    assert(lv.take(ls.len() as int) =~= lv);
    out
}

/// Parses a FETCH body response into `(headers, body)`: the header lines
/// joined with `\n`, and the message text.
pub fn parse_fetch_body(lines: &[String]) -> (r: (String, String))
    ensures
        r.0@ == join(line_views(lines@).filter(|l: Seq<char>| is_header_line(l)), "\n"@),
        r.1@ == fetch_body_text(line_views(lines@)),
{
    let mut vs: Vec<Vec<char>> = Vec::new();
    let mut i: usize = 0;
    while i < lines.len()
        invariant
            i <= lines.len(),
            vs@.map_values(|w: Vec<char>| w@) == line_views(lines@).take(i as int),
        decreases lines.len() - i,
    {
        let ghost before = vs@;
        let v = chars_of(lines[i].as_str());
        vs.push(v);
        assert(vs@.map_values(|w: Vec<char>| w@) =~= before.map_values(|w: Vec<char>| w@).push(
            v@,
        ));
        assert(line_views(lines@).take(i + 1) =~= line_views(lines@).take(i as int).push(
            lines@[i as int]@,
        ));
        i = i + 1;
    }
    assert(line_views(lines@).take(lines.len() as int) =~= line_views(lines@));
    let nl: [char; 1] = ['\n'];
    proof {
        reveal_strlit("\n");
    }
    assert(nl@ =~= "\n"@);
    let full = join_chars(vs.as_slice(), &nl);
    let header_lines = filter_chars_lines(&vs, true);
    let headers = join_chars(header_lines.as_slice(), &nl);
    let blank = chars_of("\r\n\r\n");
    proof {
        reveal_strlit("\r\n\r\n");
    }
    let found = find_from_exec(full.as_slice(), blank.as_slice(), 0);
    proof {
        lemma_find_from(full@, blank@, 0);
    }
    let body = match found {
        Some(idx) => {
            let after = chars_from(full.as_slice(), idx + 4);
            let ls = split_lines(after.as_slice());
            let kept = filter_chars_lines(&ls, false);
            let joined = join_chars(kept.as_slice(), &nl);
            string_of(trim_chars(joined.as_slice()).as_slice())
        },
        None => string_of(full.as_slice()),
    };
    (string_of(headers.as_slice()), body)
}


// ---------------------------------------------------------------------------
// Reading a tagged response
// ---------------------------------------------------------------------------

/// What one trimmed response line means while waiting for the reply tagged
/// `tag`.
#[derive(Debug)]
pub enum ImapLine {
    /// An untagged line: keep reading.
    More,
    /// The tagged completion line: the response is complete.
    Done,
    /// The tagged line reports `NO` or `BAD`.
    ServerError(AdapterError),
}

/// Classifies a trimmed response line: a line that starts with `tag` ends
/// the response, as an error when it holds `NO ` or `BAD `.
pub fn imap_line_status(trimmed: &str, tag: &str) -> (r: ImapLine)
    ensures
        !starts_with(trimmed@, tag@) ==> r is More,
        starts_with(trimmed@, tag@) && !contains(trimmed@, "NO "@) && !contains(trimmed@, "BAD "@)
            ==> r is Done,
        starts_with(trimmed@, tag@) && (contains(trimmed@, "NO "@) || contains(trimmed@, "BAD "@))
            ==> (r matches ImapLine::ServerError(e) && is_execution_failed(
            e,
            "email"@,
            "IMAP server error: "@ + trimmed@,
        )),
{
    let v = chars_of(trimmed);
    let t = chars_of(tag);
    if !starts_with_exec(v.as_slice(), t.as_slice()) {
        return ImapLine::More;
    }
    if str_contains(trimmed, "NO ") || str_contains(trimmed, "BAD ") {
        let mut reason = String::from_str("IMAP server error: ");
        reason.append(trimmed);
        return ImapLine::ServerError(execution_failed("email", reason));
    }
    ImapLine::Done
}

} // verus!
