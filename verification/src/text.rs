//! Lines of text: where the first one ends, and the non-empty ones in order.

use vstd::prelude::*;
use vstd::std_specs::iter::IteratorSpec;

verus! {

/// `String::push` appends one character.
pub assume_specification[ String::push ](s: &mut String, ch: char)
    ensures
        final(s)@ == old(s)@.push(ch),
;

/// The number of items of `s` that stand before the first `sep`; the length
/// of `s` where it holds none.
pub open spec fn run_len<T>(s: Seq<T>, sep: T) -> nat
    decreases s.len(),
{
    if s.len() == 0 || s[0] == sep {
        0
    } else {
        1 + run_len(s.skip(1), sep)
    }
}

/// No item of `s` is `sep`.
pub open spec fn free_of<T>(s: Seq<T>, sep: T) -> bool {
    forall|i: int| 0 <= i < s.len() ==> s[i] != sep
}

/// The non-empty lines of `text`, in order: the stretches between newlines
/// that hold at least one character.
pub open spec fn nonempty_lines(text: Seq<char>) -> Seq<Seq<char>>
    decreases text.len(),
{
    if text.len() == 0 {
        Seq::empty()
    } else {
        let n = run_len(text, '\n');
        let rest = if n < text.len() {
            nonempty_lines(text.skip(n as int + 1))
        } else {
            Seq::empty()
        };
        if n == 0 {
            rest
        } else {
            seq![text.take(n as int)] + rest
        }
    }
}

/// A line as a sequence of lines: nothing where it is empty.
pub open spec fn line_if_nonempty(line: Seq<char>) -> Seq<Seq<char>> {
    if line.len() == 0 {
        Seq::empty()
    } else {
        seq![line]
    }
}

/// `run_len` stays within `s`, passes over no `sep`, and stops at one unless
/// it reaches the end.
pub proof fn lemma_run_len<T>(s: Seq<T>, sep: T)
    ensures
        run_len(s, sep) <= s.len(),
        free_of(s.take(run_len(s, sep) as int), sep),
        run_len(s, sep) < s.len() ==> s[run_len(s, sep) as int] == sep,
    decreases s.len(),
{
    if s.len() == 0 || s[0] == sep {
    } else {
        let t = s.skip(1);
        lemma_run_len(t, sep);
        let n = run_len(s, sep);
        assert forall|i: int| 0 <= i < n implies s.take(n as int)[i] != sep by {
            if i > 0 {
                assert(t.take(n - 1)[i - 1] == s[i]);
            }
        }
    }
}

/// A stretch without `sep` in front of `rest` is passed over whole.
pub proof fn lemma_run_len_after<T>(front: Seq<T>, rest: Seq<T>, sep: T)
    requires
        free_of(front, sep),
    ensures
        run_len(front + rest, sep) == front.len() + run_len(rest, sep),
    decreases front.len(),
{
    if front.len() == 0 {
        assert(front + rest =~= rest);
    } else {
        let s = front + rest;
        assert(s[0] == front[0]);
        assert(s.skip(1) =~= front.skip(1) + rest);
        lemma_run_len_after(front.skip(1), rest, sep);
    }
}

/// Text without a newline is one line, or none where it is empty.
pub proof fn lemma_lines_of_one(line: Seq<char>)
    requires
        free_of(line, '\n'),
    ensures
        nonempty_lines(line) == line_if_nonempty(line),
{
    lemma_run_len_after(line, Seq::empty(), '\n');
    assert(line + Seq::<char>::empty() =~= line);
    if line.len() > 0 {
        assert(line.take(line.len() as int) =~= line);
        assert(seq![line] + Seq::<Seq<char>>::empty() =~= seq![line]);
    }
}

/// The lines of a text that starts with a line and its newline: that line,
/// where it is not empty, and then the lines of what follows.
pub proof fn lemma_lines_after_newline(line: Seq<char>, rest: Seq<char>)
    requires
        free_of(line, '\n'),
    ensures
        nonempty_lines(line + seq!['\n'] + rest) == line_if_nonempty(line) + nonempty_lines(rest),
{
    let tail = seq!['\n'] + rest;
    let text = line + seq!['\n'] + rest;
    assert(text =~= line + tail);
    lemma_run_len_after(line, tail, '\n');
    assert(tail[0] == '\n');
    assert(run_len(tail, '\n') == 0);
    let n = run_len(text, '\n');
    assert(n == line.len());
    assert(text.skip(n as int + 1) =~= rest);
    assert(text.take(n as int) =~= line);
    if line.len() == 0 {
        assert(Seq::<Seq<char>>::empty() + nonempty_lines(rest) =~= nonempty_lines(rest));
    }
}

/// Every line among the non-empty lines of a text holds a character, and
/// none holds a newline.
pub proof fn lemma_lines_are_lines(text: Seq<char>)
    ensures
        forall|i: int|
            0 <= i < nonempty_lines(text).len() ==> (#[trigger] nonempty_lines(text)[i]).len() > 0
                && free_of(nonempty_lines(text)[i], '\n'),
    decreases text.len(),
{
    if text.len() > 0 {
        let n = run_len(text, '\n');
        lemma_run_len(text, '\n');
        let rest = if n < text.len() {
            nonempty_lines(text.skip(n as int + 1))
        } else {
            Seq::empty()
        };
        if n < text.len() {
            lemma_lines_are_lines(text.skip(n as int + 1));
        }
        assert forall|i: int| 0 <= i < nonempty_lines(text).len() implies (
        #[trigger] nonempty_lines(text)[i]).len() > 0 && free_of(nonempty_lines(text)[i], '\n') by {
            if n > 0 {
                if i == 0 {
                    assert(nonempty_lines(text)[0] == text.take(n as int));
                } else {
                    assert(nonempty_lines(text)[i] == rest[i - 1]);
                }
            } else {
                assert(nonempty_lines(text)[i] == rest[i]);
            }
        }
    }
}

/// Whether `c` occurs anywhere in `s`.
pub fn contains_char(s: &str, c: char) -> (found: bool)
    ensures
        found == s@.contains(c),
{
    let mut it = s.chars();
    let ghost mut seen: int = 0;
    loop
        invariant
            0 <= seen <= s@.len(),
            it.remaining() == s@.skip(seen),
            forall|j: int| 0 <= j < seen ==> s@[j] != c,
        decreases s@.len() - seen,
    {
        match it.next() {
            Some(d) => {
                if d == c {
                    assert(s@[seen] == c);
                    return true;
                }
                proof {
                    seen = seen + 1;
                }
            },
            None => {
                return false;
            },
        }
    }
}

/// Splits `text` at its newlines and keeps the non-empty lines, in the order
/// in which they stand.
pub fn split_nonempty_lines(text: &str) -> (lines: Vec<String>)
    ensures
        lines.deep_view() == nonempty_lines(text@),
{
    let mut lines: Vec<String> = Vec::new();
    let mut line = String::new();
    let mut it = text.chars();
    let ghost mut seen: int = 0;
    assert(lines.deep_view() =~= Seq::<Seq<char>>::empty());
    assert(line@ + text@.skip(0) =~= text@);
    assert(lines.deep_view() + nonempty_lines(text@) =~= nonempty_lines(text@));
    loop
        invariant
            0 <= seen <= text@.len(),
            it.remaining() == text@.skip(seen),
            free_of(line@, '\n'),
            nonempty_lines(text@) == lines.deep_view() + nonempty_lines(line@ + text@.skip(seen)),
        decreases text@.len() - seen,
    {
        let ghost before = lines.deep_view();
        let ghost ahead = text@.skip(seen);
        match it.next() {
            Some(c) => {
                let ghost after = text@.skip(seen + 1);
                assert(ahead =~= seq![c] + after);
                if c == '\n' {
                    proof {
                        lemma_lines_after_newline(line@, after);
                        assert(line@ + ahead =~= line@ + seq!['\n'] + after);
                    }
                    if !line.as_str().is_empty() {
                        let ghost done = line@;
                        lines.push(line);
                        assert(lines.deep_view() =~= before.push(done));
                        assert(before.push(done) + nonempty_lines(after) =~= before + (seq![done]
                            + nonempty_lines(after)));
                    }
                    line = String::new();
                    assert(line@ + after =~= after);
                } else {
                    let ghost old_line = line@;
                    line.push(c);
                    assert(line@ + after =~= old_line + ahead);
                }
                proof {
                    seen = seen + 1;
                }
            },
            None => {
                proof {
                    assert(line@ + ahead =~= line@);
                    lemma_lines_of_one(line@);
                }
                if !line.as_str().is_empty() {
                    let ghost done = line@;
                    lines.push(line);
                    assert(lines.deep_view() =~= before.push(done));
                    assert(before.push(done) =~= before + seq![done]);
                } else {
                    assert(before + Seq::<Seq<char>>::empty() =~= before);
                }
                return lines;
            },
        }
    }
}

} // verus!
