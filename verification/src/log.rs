//! The log: when it starts over, and what a line of it holds.
use crate::clock;
use crate::clock::Moment;
use crate::text;
use vstd::prelude::*;
use vstd::utf8::*;

verus! {

/// The size in bytes above which the log starts over.
pub const ROTATE_ABOVE: u64 = 1_000_000;

/// What is to be done to log an event.
#[derive(Debug, PartialEq, Eq)]
pub struct LogEntry {
    /// The log is to be renamed to its backup first.
    pub rotate: bool,
    /// What is to be appended.
    pub line: String,
}

/// The log is too large, where its size is known.
pub open spec fn rotates(size: Option<u64>) -> bool {
    size matches Some(n) && n > ROTATE_ABOVE
}

/// A line of the log.
pub open spec fn line_text(stamp: Seq<char>, msg: Seq<char>) -> Seq<char> {
    "["@ + stamp + "] "@ + msg + "\n"@
}

/// What the log and its backup hold, where they are there.
pub ghost struct LogFiles {
    pub log: Option<Seq<u8>>,
    pub backup: Option<Seq<u8>>,
}

/// `size` is that of the log.
pub open spec fn is_log_size(size: Option<u64>, files: LogFiles) -> bool {
    match (size, files.log) {
        (Some(n), Some(held)) => n == held.len(),
        (None, None) => true,
        _ => false,
    }
}

/// What the files hold once the log was renamed to its backup, if that was asked
/// for, and `line` appended to the log.
pub open spec fn entry_applied(files: LogFiles, rotate: bool, line: Seq<u8>) -> LogFiles {
    match files.log {
        Some(held) => if rotate {
            LogFiles { log: Some(line), backup: Some(held) }
        } else {
            LogFiles { log: Some(held + line), backup: files.backup }
        },
        None => LogFiles { log: Some(line), backup: files.backup },
    }
}

/// What the files hold once `line` was logged.
pub open spec fn files_after(files: LogFiles, line: Seq<u8>) -> LogFiles {
    entry_applied(files, files.log matches Some(held) && held.len() > ROTATE_ABOVE, line)
}

/// What the files hold once `lines` were logged, where neither was there before.
pub open spec fn files_run(lines: Seq<Seq<u8>>) -> LogFiles
    decreases lines.len(),
{
    if lines.len() == 0 {
        LogFiles { log: None, backup: None }
    } else {
        files_after(files_run(lines.drop_last()), lines.last())
    }
}

/// What an optional file holds; nothing where it is not there.
pub open spec fn held_by(file: Option<Seq<u8>>) -> Seq<u8> {
    match file {
        Some(held) => held,
        None => Seq::empty(),
    }
}

/// `lines`, one behind the other.
pub open spec fn run_together(lines: Seq<Seq<u8>>) -> Seq<u8>
    decreases lines.len(),
{
    if lines.len() == 0 {
        Seq::empty()
    } else {
        run_together(lines.drop_last()) + lines.last()
    }
}

/// `whole` ends with `end`.
pub open spec fn ends_with(whole: Seq<u8>, end: Seq<u8>) -> bool {
    end.len() <= whole.len() && whole.skip(whole.len() - end.len()) == end
}

/// Whether the log is to start over.
pub fn needs_rotation(size: Option<u64>) -> (r: bool)
    ensures
        r == rotates(size),
{
    match size {
        Some(n) => n > ROTATE_ABOVE,
        None => false,
    }
}

/// A line of the log, from the moment as it is written there.
pub fn log_line(stamp: &str, msg: &str) -> (r: String)
    ensures
        r@ == line_text(stamp@, msg@),
{
    let mut r = text::joined("[", stamp);
    r.append("] ");
    r.append(msg);
    r.append("\n");
    r
}

/// What is to be done to log `msg` at the moment `now`, where the log is of this
/// size, or of none because it cannot be told.
pub fn log_event(size: Option<u64>, now: Moment, msg: &str) -> (r: LogEntry)
    requires
        clock::in_calendar(now),
    ensures
        r.rotate == rotates(size),
        r.line@ == line_text(clock::utc_text(now.secs, now.nanos, clock::LOG_PATTERN@), msg@),
        clock::is_plain(now) ==> clock::is_log_stamp(
            now,
            clock::utc_text(now.secs, now.nanos, clock::LOG_PATTERN@),
        ),
        forall|files: LogFiles|
            is_log_size(size, files) ==> #[trigger] entry_applied(files, r.rotate, encode_utf8(r.line@))
                == files_after(files, encode_utf8(r.line@)),
{
    let stamp = clock::format_utc(now, clock::LOG_PATTERN).unwrap();
    LogEntry { rotate: needs_rotation(size), line: log_line(stamp.as_str(), msg) }
}

/// After any run of entries the log exceeds its limit by no more than the last
/// line and ends with it, and backup and log together are the end of all that was
/// logged, in order.
pub proof fn law_log_stays_bounded(lines: Seq<Seq<u8>>)
    requires
        lines.len() > 0,
    ensures
        files_run(lines).log matches Some(held) && held.len() <= ROTATE_ABOVE + lines.last().len()
            && ends_with(held, lines.last()),
        ends_with(
            run_together(lines),
            held_by(files_run(lines).backup) + held_by(files_run(lines).log),
        ),
    decreases lines.len(),
{
    let before = lines.drop_last();
    let line = lines.last();
    let files = files_run(before);
    let next = files_run(lines);
    let old_all = run_together(before);
    let old_held = held_by(files.backup) + held_by(files.log);
    if before.len() > 0 {
        law_log_stays_bounded(before);
    } else {
        assert(old_all.skip(0) =~= old_held);
    }
    let held = next.log->Some_0;
    assert(held.skip(held.len() - line.len()) =~= line);
    let cut = old_all.len() - old_held.len();
    assert(old_all =~= old_all.take(cut) + old_held);
    assert(old_all + line =~= old_all.take(cut) + held_by(files.backup) + held_by(files.log) + line);
    let new_held = held_by(next.backup) + held;
    if files.log matches Some(h) && h.len() > ROTATE_ABOVE {
        assert(new_held =~= held_by(files.log) + line);
    } else {
        assert(new_held =~= held_by(files.backup) + held_by(files.log) + line);
    }
    let all = old_all + line;
    assert(all.skip(all.len() - new_held.len()) =~= new_held);
}

/// A line holds its stamp and its message whole: without its first `stamp.len() + 3`
/// characters and its last one it is the message, character for character, and the
/// stamp stands in brackets at its start.
pub proof fn law_line_holds_its_message(stamp: Seq<char>, msg: Seq<char>)
    ensures
        line_text(stamp, msg).len() == stamp.len() + msg.len() + 4,
        line_text(stamp, msg).skip(stamp.len() + 3int).drop_last() == msg,
        line_text(stamp, msg).subrange(1, stamp.len() + 1int) == stamp,
        line_text(stamp, msg)[0] == '[',
        line_text(stamp, msg)[stamp.len() + 1int] == ']',
        line_text(stamp, msg)[stamp.len() + 2int] == ' ',
        line_text(stamp, msg).last() == '\n',
{
    reveal_strlit("[");
    reveal_strlit("] ");
    reveal_strlit("\n");
    assert(line_text(stamp, msg).skip(stamp.len() + 3int).drop_last() =~= msg);
    assert(line_text(stamp, msg).subrange(1, stamp.len() + 1int) =~= stamp);
}

/// Under stamps of one length, two lines are the same only where stamp and message
/// are.
pub proof fn law_lines_differ_as_their_messages(
    a: Seq<char>,
    x: Seq<char>,
    b: Seq<char>,
    y: Seq<char>,
)
    requires
        a.len() == b.len(),
    ensures
        line_text(a, x) == line_text(b, y) <==> a == b && x == y,
{
    law_line_holds_its_message(a, x);
    law_line_holds_its_message(b, y);
}

/// The log starts over exactly where it is known to hold more than a million bytes.
/// Up to that, a line is put behind all that the log holds and the backup is left
/// alone; above it, the log becomes the backup whole and starts over with the line.
pub proof fn law_only_a_full_log_starts_over(files: LogFiles, line: Seq<u8>, size: u64)
    ensures
        rotates(Some(size)) <==> size > 1_000_000,
        !rotates(None),
        files.log is None ==> files_after(files, line).log == Some(line)
            && files_after(files, line).backup == files.backup,
        files.log matches Some(held) ==> (held.len() <= 1_000_000 ==> files_after(files, line).log
            == Some(held + line) && files_after(files, line).backup == files.backup),
        files.log matches Some(held) ==> (held.len() > 1_000_000 ==> files_after(files, line).log
            == Some(line) && files_after(files, line).backup == Some(held)),
{
}

/// Renaming first or not is all that an entry decides: without it nothing that either
/// file holds is lost, and with it nothing that the log holds.
pub proof fn law_entry_loses_nothing_of_the_log(files: LogFiles, rotate: bool, line: Seq<u8>)
    ensures
        rotate ==> held_by(entry_applied(files, rotate, line).log) == line,
        !rotate ==> held_by(entry_applied(files, rotate, line).log) == held_by(files.log) + line,
        rotate && files.log is Some ==> entry_applied(files, rotate, line).backup == files.log,
        !rotate || files.log is None ==> entry_applied(files, rotate, line).backup == files.backup,
{
    assert(Seq::<u8>::empty() + line =~= line);
}

/// A size is that of the log exactly where the log is there and holds so many bytes,
/// or is not there and none can be told.
pub proof fn law_log_size_counts_bytes(files: LogFiles, size: u64)
    ensures
        is_log_size(Some(size), files) <==> files.log is Some && held_by(files.log).len() == size,
        is_log_size(None, files) <==> files.log is None,
{
}

/// The log exceeds its limit by no more than the last message and the 23
/// characters that go with it.
pub proof fn law_log_exceeds_by_one_message(
    lines: Seq<Seq<u8>>,
    now: Moment,
    stamp: Seq<char>,
    msg: Seq<char>,
)
    requires
        lines.len() > 0,
        lines.last() == encode_utf8(line_text(stamp, msg)),
        clock::is_plain(now),
        clock::is_log_stamp(now, stamp),
    ensures
        files_run(lines).log matches Some(held) && held.len() <= ROTATE_ABOVE + encode_utf8(
            msg,
        ).len() + 23,
{
    law_log_stays_bounded(lines);
    clock::law_log_stamp_has_one_form(now, stamp, stamp);
    reveal_strlit("[");
    reveal_strlit("] ");
    reveal_strlit("\n");
    let head = "["@ + stamp + "] "@;
    assert(is_ascii_chars(head)) by {
        assert forall|i: int| 0 <= i < head.len() implies '\0' <= #[trigger] head[i] <= '\u{7F}' by {
            if i == 0 {
                assert(head[i] == "["@[0]);
            } else if i < 20 {
                assert(head[i] == stamp[i - 1]);
            } else {
                assert(head[i] == "] "@[i - 20]);
            }
        }
    }
    assert(is_ascii_chars("\n"@));
    is_ascii_chars_encode_utf8(head);
    is_ascii_chars_encode_utf8("\n"@);
    lemma_encode_concat(head, msg);
    lemma_encode_concat(head + msg, "\n"@);
}

/// Once a message was logged, the log ends with it whole, byte for byte, and a line
/// feed.
pub proof fn law_log_ends_with_the_message(
    lines: Seq<Seq<u8>>,
    stamp: Seq<char>,
    msg: Seq<char>,
)
    requires
        lines.len() > 0,
        lines.last() == encode_utf8(line_text(stamp, msg)),
    ensures
        ends_with(held_by(files_run(lines).log), encode_utf8(msg) + encode_utf8(seq!['\n'])),
{
    law_log_stays_bounded(lines);
    let start = lemma_line_bytes(stamp, msg);
    let end = encode_utf8(msg) + encode_utf8(seq!['\n']);
    lemma_ends_within(held_by(files_run(lines).log), start, end);
}

/// What ends with a text ends with the end of that text.
proof fn lemma_ends_within(whole: Seq<u8>, start: Seq<u8>, end: Seq<u8>)
    requires
        ends_with(whole, start + end),
    ensures
        ends_with(whole, end),
{
    let all = start + end;
    assert(whole.skip(whole.len() - end.len()) =~= whole.skip(whole.len() - all.len()).skip(
        start.len() as int,
    ));
    assert(all.skip(start.len() as int) =~= end);
}

/// The bytes of a line end with those of its message and a line feed.
proof fn lemma_line_bytes(stamp: Seq<char>, msg: Seq<char>) -> (start: Seq<u8>)
    ensures
        encode_utf8(line_text(stamp, msg)) == start + (encode_utf8(msg) + encode_utf8(
            seq!['\n'],
        )),
{
    reveal_strlit("\n");
    let head = "["@ + stamp + "] "@;
    assert("\n"@ =~= seq!['\n']);
    assert(line_text(stamp, msg) =~= head + (msg + seq!['\n']));
    lemma_encode_concat(head, msg + seq!['\n']);
    lemma_encode_concat(msg, seq!['\n']);
    encode_utf8(head)
}

proof fn lemma_encode_concat(a: Seq<char>, b: Seq<char>)
    ensures
        encode_utf8(a + b) == encode_utf8(a) + encode_utf8(b),
    decreases a.len(),
{
    if a.len() == 0 {
        assert(a + b =~= b);
        assert(encode_utf8(a) + encode_utf8(b) =~= encode_utf8(b));
    } else {
        assert((a + b).drop_first() =~= a.drop_first() + b);
        lemma_encode_concat(a.drop_first(), b);
        assert(encode_utf8(a + b) =~= encode_utf8(a) + encode_utf8(b));
    }
}

} // verus!
