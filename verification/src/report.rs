//! The text of an issue report: the description, then the most recent part
//! of the application log.

use vstd::prelude::*;
use crate::encoding::{
    is_ascii_alphanumeric_char, percent_encoded_is_url_safe, percent_encoded_text,
    utf8_percent_encode_non_alphanumeric,
};
use crate::text::{trim, trimmed};

verus! {

/// The log file's name, without its extension.
pub const LOG_FILE_NAME: &'static str = "whatsapp-desktop";

/// Where issue reports are sent.
pub const REPORT_EMAIL: &'static str = "whatsapp-desktop@guita.org";

/// `mailto:` links are handed to the mail client as one URL, and many clients
/// truncate or reject very long ones, so only this many characters of the end
/// of the log go into a report.
pub const MAX_LOG_CHARS_IN_REPORT: usize = 4000;

/// The last `max_chars` characters of `log` (all of it when it is no longer).
pub open spec fn log_tail(log: Seq<char>, max_chars: nat) -> Seq<char> {
    if log.len() > max_chars {
        log.skip(log.len() - max_chars)
    } else {
        log
    }
}

/// Keeps only the last `max_chars` characters of `log`, returning the tail
/// alongside whether it had to be truncated to get there.
pub fn tail(log: &str, max_chars: usize) -> (result: (String, bool))
    ensures
        result.0@ == log_tail(log@, max_chars as nat),
        result.1 == (log@.len() > max_chars),
        result.0@.len() == if log@.len() > max_chars {
            max_chars as int
        } else {
            log@.len() as int
        },
        result.0@ == log@.subrange(log@.len() - result.0@.len(), log@.len() as int),
{
    let char_count = log.unicode_len();
    let truncated = char_count > max_chars;
    let start = char_count.saturating_sub(max_chars);
    let kept = log.substring_char(start, char_count);
    (String::from_str(kept), truncated)
}


/// The body of an issue report: the trimmed description, a header line for
/// the log (noting when only its most recent part is kept), then the tail of
/// the log, or a note that no log file was found.
pub open spec fn report_body_text(description: Seq<char>, log: Seq<char>) -> Seq<char> {
    trimmed(description) + "\n\n--- Application log"@ + (if log.len()
        > MAX_LOG_CHARS_IN_REPORT {
        " (most recent lines only)"@
    } else {
        Seq::empty()
    }) + " ---\n"@ + (if log.len() == 0 {
        "(no log file found)"@
    } else {
        log_tail(log, MAX_LOG_CHARS_IN_REPORT as nat)
    })
}

/// Builds the body of an issue report from the user's description and the
/// contents of the log file (empty when there is none).
pub fn report_body(description: &str, log: &str) -> (body: String)
    ensures
        body@ == report_body_text(description@, log@),
        report_body_marks_truncation(description@, log@, body@),
{
    proof {
        report_body_notes_truncation_exactly(description@, log@);
    }
    let (log_tail, truncated) = tail(log, MAX_LOG_CHARS_IN_REPORT);
    let mut body = trim(description);
    body.append("\n\n--- Application log");
    if truncated {
        body.append(" (most recent lines only)");
    }
    body.append(" ---\n");
    if log.is_empty() {
        body.append("(no log file found)");
    } else {
        body.append(log_tail.as_str());
    }
    body
}


/// The subject line of an issue report for the given application version.
pub open spec fn report_subject_text(version: Seq<char>) -> Seq<char> {
    "WhatsApp Desktop v"@ + version + " - Issue Report"@
}

/// The `mailto:` link that opens an issue report in the mail client: the
/// report address, then the subject and the body, each percent-encoded.
pub open spec fn report_mailto_text(
    description: Seq<char>,
    log: Seq<char>,
    version: Seq<char>,
) -> Seq<char> {
    "mailto:"@ + REPORT_EMAIL@ + "?subject="@ + percent_encoded_text(report_subject_text(version))
        + "&body="@ + percent_encoded_text(report_body_text(description, log))
}

/// The subject line of an issue report.
pub fn report_subject(version: &str) -> (subject: String)
    ensures
        subject@ == report_subject_text(version@),
{
    let mut subject = String::from_str("WhatsApp Desktop v");
    subject.append(version);
    subject.append(" - Issue Report");
    subject
}

/// The `mailto:` link of an issue report with the given description, log
/// contents and application version.
pub fn report_mailto(description: &str, log: &str, version: &str) -> (url: String)
    ensures
        url@ == report_mailto_text(description@, log@, version@),
{
    let body = report_body(description, log);
    let subject = report_subject(version);
    let mut url = String::from_str("mailto:");
    url.append(REPORT_EMAIL);
    url.append("?subject=");
    let encoded_subject = utf8_percent_encode_non_alphanumeric(subject.as_str());
    url.append(encoded_subject.as_str());
    url.append("&body=");
    let encoded_body = utf8_percent_encode_non_alphanumeric(body.as_str());
    url.append(encoded_body.as_str());
    url
}


/// The tail is the end of the log, at most `max_chars` long and shorter only
/// when the whole log is: a log within the limit is kept whole.
pub proof fn tail_keeps_the_end(log: Seq<char>, max_chars: nat)
    ensures
        log_tail(log, max_chars).len() == if log.len() > max_chars {
            max_chars as int
        } else {
            log.len() as int
        },
        log_tail(log, max_chars) == log.subrange(
            log.len() - log_tail(log, max_chars).len(),
            log.len() as int,
        ),
        log.len() <= max_chars ==> log_tail(log, max_chars) == log,
{
}

/// A report starts with the trimmed description and ends with the most
/// recent part of the log, no longer than `MAX_LOG_CHARS_IN_REPORT`, or with
/// the note that there is no log.
pub proof fn report_body_layout(description: Seq<char>, log: Seq<char>)
    ensures
        ({
            let body = report_body_text(description, log);
            let kept = log_tail(log, MAX_LOG_CHARS_IN_REPORT as nat);
            &&& body.subrange(0, trimmed(description).len() as int) == trimmed(description)
            &&& log.len() > 0 ==> kept.len() <= MAX_LOG_CHARS_IN_REPORT && body.subrange(
                body.len() - kept.len(),
                body.len() as int,
            ) == kept
            &&& log.len() == 0 ==> body.subrange(
                body.len() - "(no log file found)"@.len(),
                body.len() as int,
            ) == "(no log file found)"@
        }),
{
    let body = report_body_text(description, log);
    let t = trimmed(description);
    let kept = log_tail(log, MAX_LOG_CHARS_IN_REPORT as nat);
    let note = "(no log file found)"@;
    let last = if log.len() == 0 {
        note
    } else {
        kept
    };
    let front = body.subrange(0, body.len() - last.len());
    assert(body =~= front + last);
    assert(body.subrange(0, t.len() as int) =~= t);
    assert(body.subrange(body.len() - last.len(), body.len() as int) =~= last);
}

/// The link carries the report address and exactly two parameters, subject
/// and body: their encoded values hold only ASCII letters, digits and `%`,
/// so no text of the report can end them or add another.
pub proof fn report_mailto_layout(description: Seq<char>, log: Seq<char>, version: Seq<char>)
    ensures
        ({
            let subject = percent_encoded_text(report_subject_text(version));
            let body = percent_encoded_text(report_body_text(description, log));
            &&& report_mailto_text(description, log, version) == "mailto:"@ + REPORT_EMAIL@
                + "?subject="@ + subject + "&body="@ + body
            &&& forall|i: int|
                0 <= i < subject.len() ==> is_ascii_alphanumeric_char(#[trigger] subject[i])
                    || subject[i] == '%'
            &&& forall|i: int|
                0 <= i < body.len() ==> is_ascii_alphanumeric_char(#[trigger] body[i]) || body[i]
                    == '%'
        }),
{
    percent_encoded_is_url_safe(vstd::utf8::encode_utf8(report_subject_text(version)));
    percent_encoded_is_url_safe(vstd::utf8::encode_utf8(report_body_text(description, log)));
}


/// Right after the description and the log header, `body` says
/// " (most recent lines only)" when the log is longer than
/// `MAX_LOG_CHARS_IN_REPORT` characters, and otherwise goes straight on to
/// " ---\n"; it ends with the last `MAX_LOG_CHARS_IN_REPORT` characters of the
/// log, or all of it when it is no longer.
pub open spec fn report_body_marks_truncation(
    description: Seq<char>,
    log: Seq<char>,
    body: Seq<char>,
) -> bool {
    let start = trimmed(description).len() as int;
    let header = "\n\n--- Application log"@;
    let note = " (most recent lines only)"@;
    let after = start + header.len();
    let kept = if log.len() > MAX_LOG_CHARS_IN_REPORT {
        MAX_LOG_CHARS_IN_REPORT as int
    } else {
        log.len() as int
    };
    &&& body.subrange(0, start) == trimmed(description)
    &&& body.subrange(start, after) == header
    &&& log.len() > MAX_LOG_CHARS_IN_REPORT ==> body.subrange(after, after + note.len()) == note
    &&& log.len() <= MAX_LOG_CHARS_IN_REPORT ==> body.subrange(after, after + " ---\n"@.len())
        == " ---\n"@
    &&& log.len() > 0 ==> body.subrange(body.len() - kept, body.len() as int) == log.subrange(
        log.len() - kept,
        log.len() as int,
    )
}

/// A report says that its log was cut exactly when the log is longer than
/// `MAX_LOG_CHARS_IN_REPORT` characters, and it carries the log's last
/// characters up to that limit.
pub proof fn report_body_notes_truncation_exactly(description: Seq<char>, log: Seq<char>)
    ensures
        ({
            let body = report_body_text(description, log);
            let start = trimmed(description).len() as int;
            let after = start + "\n\n--- Application log"@.len();
            let kept = if log.len() > MAX_LOG_CHARS_IN_REPORT {
                MAX_LOG_CHARS_IN_REPORT as int
            } else {
                log.len() as int
            };
            &&& body.subrange(0, start) == trimmed(description)
            &&& body.subrange(start, after) == "\n\n--- Application log"@
            &&& log.len() > MAX_LOG_CHARS_IN_REPORT ==> body.subrange(
                after,
                after + " (most recent lines only)"@.len(),
            ) == " (most recent lines only)"@
            &&& log.len() <= MAX_LOG_CHARS_IN_REPORT ==> body.subrange(
                after,
                after + " ---\n"@.len(),
            ) == " ---\n"@
            &&& log.len() > 0 ==> body.subrange(body.len() - kept, body.len() as int)
                == log.subrange(log.len() - kept, log.len() as int)
        }),
        report_body_marks_truncation(description, log, report_body_text(description, log)),
{
    let t = trimmed(description);
    let header = "\n\n--- Application log"@;
    let note = if log.len() > MAX_LOG_CHARS_IN_REPORT {
        " (most recent lines only)"@
    } else {
        Seq::empty()
    };
    let closing = " ---\n"@;
    let last = if log.len() == 0 {
        "(no log file found)"@
    } else {
        log_tail(log, MAX_LOG_CHARS_IN_REPORT as nat)
    };
    let body = report_body_text(description, log);
    assert(body =~= t + header + note + closing + last);
    let start = t.len() as int;
    let after = start + header.len();
    assert(body.subrange(0, start) =~= t);
    assert(body.subrange(start, after) =~= header);
    if log.len() > MAX_LOG_CHARS_IN_REPORT {
        assert(body.subrange(after, after + note.len()) =~= note);
    } else {
        assert(note.len() == 0);
        assert(body.subrange(after, after + closing.len()) =~= closing);
    }
    if log.len() > 0 {
        let kept = last.len() as int;
        assert(kept == if log.len() > MAX_LOG_CHARS_IN_REPORT {
            MAX_LOG_CHARS_IN_REPORT as int
        } else {
            log.len() as int
        });
        assert(last =~= log.subrange(log.len() - kept, log.len() as int));
        assert(body.subrange(body.len() - kept, body.len() as int) =~= last);
    }
}

} // verus!
