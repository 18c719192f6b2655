//! Text helpers: the first line of a command's output, and the line that
//! reports a failed run.

use vstd::prelude::*;
use vstd::std_specs::iter::IteratorSpec;
use vstd::string::StrSliceExecFns;
use vstd::string::StringExecFns;

verus! {

/// Number of characters of `s` that precede its first line feed; the whole
/// length where `s` holds none.
pub open spec fn line_len(s: Seq<char>) -> nat
    decreases s.len(),
{
    if s.len() == 0 || s[0] == '\n' {
        0
    } else {
        1 + line_len(s.drop_first())
    }
}

/// The part of `s` before its first line feed, or all of `s` where it holds
/// none.
pub open spec fn first_line(s: Seq<char>) -> Seq<char> {
    s.take(line_len(s) as int)
}

/// `line_len(s)` is a position of `s`: its end or a line feed, with no line
/// feed before it.
pub proof fn lemma_line_len_marks_first_feed(s: Seq<char>)
    ensures
        line_len(s) <= s.len(),
        forall|i: int| 0 <= i < line_len(s) ==> s[i] != '\n',
        line_len(s) == s.len() || s[line_len(s) as int] == '\n',
    decreases s.len(),
{
    if s.len() > 0 && s[0] != '\n' {
        let rest = s.drop_first();
        lemma_line_len_marks_first_feed(rest);
        assert forall|i: int| 0 <= i < line_len(s) implies s[i] != '\n' by {
            if i > 0 {
                assert(s[i] == rest[i - 1]);
            }
        }
        assert(line_len(s) < s.len() ==> s[line_len(s) as int] == rest[line_len(rest) as int]);
    }
}

/// `line_len(s)` is the only such position.
pub proof fn lemma_line_len_unique(s: Seq<char>, n: int)
    requires
        0 <= n <= s.len(),
        forall|i: int| 0 <= i < n ==> s[i] != '\n',
        n == s.len() || s[n] == '\n',
    ensures
        line_len(s) == n,
    decreases s.len(),
{
    if n > 0 {
        let rest = s.drop_first();
        assert forall|i: int| 0 <= i < n - 1 implies rest[i] != '\n' by {
            assert(rest[i] == s[i + 1]);
        }
        lemma_line_len_unique(rest, n - 1);
    }
}

/// The first line holds no line feed and is a prefix of the text; it is the
/// whole text where that holds no line feed, and is followed by a line feed
/// otherwise.
pub proof fn lemma_first_line(s: Seq<char>)
    ensures
        !first_line(s).contains('\n'),
        first_line(s).is_prefix_of(s),
        !s.contains('\n') ==> first_line(s) == s,
        s.contains('\n') ==> first_line(s).len() < s.len() && s[first_line(s).len() as int]
            == '\n',
{
    lemma_line_len_marks_first_feed(s);
    let n = line_len(s) as int;
    let line = first_line(s);
    assert(line.len() == n);
    assert forall|i: int| 0 <= i < line.len() implies line[i] != '\n' by {
        assert(line[i] == s[i]);
    }
    if !s.contains('\n') {
        if n < s.len() {
            assert(s[n] == '\n');
            assert(s.contains('\n'));
        }
        assert(line =~= s);
    } else {
        let k = choose|k: int| 0 <= k < s.len() && s[k] == '\n';
        assert(0 <= k < s.len() && s[k] == '\n');
        if n == s.len() {
            assert(s[k] != '\n');
        }
    }
}

/// Cuts `text` at its first line feed.
pub fn first_line_of(text: &str) -> (line: String)
    ensures
        line@ == first_line(text@),
        !line@.contains('\n'),
        line@.is_prefix_of(text@),
        !text@.contains('\n') ==> line@ == text@,
{
    let total: usize = text.unicode_len();
    let mut chars = text.chars();
    let mut count: usize = 0;
    loop
        invariant_except_break
            chars.remaining() == text@.skip(count as int),
        invariant
            chars.obeys_prophetic_iter_laws(),
            total == text@.len(),
            count <= total,
            forall|i: int| 0 <= i < count ==> text@[i] != '\n',
        ensures
            count <= total,
            forall|i: int| 0 <= i < count ==> text@[i] != '\n',
            count == total || text@[count as int] == '\n',
        decreases total - count,
    {
        match chars.next() {
            None => {
                break ;
            },
            Some(c) => {
                assert(c == text@[count as int]);
                if c == '\n' {
                    break ;
                }
                assert(text@.skip(count as int).drop_first() == text@.skip(count as int + 1));
                count = count + 1;
            },
        }
    }
    proof {
        lemma_line_len_unique(text@, count as int);
        lemma_first_line(text@);
    }
    let head = text.substring_char(0, count);
    head.to_owned()
}

/// The line that reports a failed run of `command`.
pub open spec fn notice_text(command: Seq<char>) -> Seq<char> {
    "Command "@ + command + " was not successful!"@
}

/// Builds the line that reports a failed run of `command`.
pub fn failure_notice(command: &str) -> (notice: String)
    ensures
        notice@ == notice_text(command@),
{
    let mut notice = String::from_str("Command ");
    notice.append(command);
    notice.append(" was not successful!");
    notice
}

} // verus!
