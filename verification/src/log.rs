//! The rolling log: a text file with one title per line, newest first, that
//! never holds more than a fixed number of titles.

use crate::text::{chars_of, opt_text, texts};
use vstd::prelude::*;
use vstd::string::StringExecFns;

verus! {

/// The most titles that the log holds.
pub const LOG_CAPACITY: usize = 10;

/// How many characters stand before the first line feed of `text`; its
/// length where it has none.
pub open spec fn line_end(text: Seq<char>) -> nat
    decreases text.len(),
{
    if text.len() == 0 || text[0] == '\n' {
        0
    } else {
        1 + line_end(text.drop_first())
    }
}

/// A line without the carriage return that stood before its line feed.
pub open spec fn without_return(line: Seq<char>) -> Seq<char> {
    if line.len() > 0 && line.last() == '\r' {
        line.drop_last()
    } else {
        line
    }
}

/// The lines of a text. A line ends at a line feed, which is not part of it,
/// nor is a carriage return directly before that line feed. What follows the
/// last line feed is a line of its own unless it is empty.
pub open spec fn lines_of(text: Seq<char>) -> Seq<Seq<char>>
    decreases text.len(),
{
    if text.len() == 0 {
        Seq::empty()
    } else {
        let n = line_end(text) as int;
        if n >= text.len() {
            seq![text]
        } else {
            seq![without_return(text.take(n))] + lines_of(text.skip(n + 1))
        }
    }
}

/// The text of a log: every line followed by a line feed.
pub open spec fn rendered(lines: Seq<Seq<char>>) -> Seq<char>
    decreases lines.len(),
{
    if lines.len() == 0 {
        Seq::empty()
    } else {
        rendered(lines.drop_last()) + lines.last() + seq!['\n']
    }
}

/// The first `cap` of a list, or all of it where it is shorter.
pub open spec fn capped(lines: Seq<Seq<char>>, cap: nat) -> Seq<Seq<char>> {
    if lines.len() <= cap {
        lines
    } else {
        lines.take(cap as int)
    }
}

/// The log after a run: the titles downloaded in this run, the last one
/// first, before the lines that the log held, cut to `cap` lines.
pub open spec fn merged_log(
    downloaded: Seq<Seq<char>>,
    old: Seq<Seq<char>>,
    cap: nat,
) -> Seq<Seq<char>> {
    capped(downloaded.reverse() + old, cap)
}

/// The lines that a log file holds; none where there is no file yet.
pub open spec fn old_lines(content: Option<Seq<char>>) -> Seq<Seq<char>> {
    match content {
        Some(text) => lines_of(text),
        None => Seq::empty(),
    }
}

/// The text to write back to the log file after a run.
pub open spec fn rolling_log_text(downloaded: Seq<Seq<char>>, content: Option<Seq<char>>) -> Seq<
    char,
> {
    rendered(merged_log(downloaded, old_lines(content), LOG_CAPACITY as nat))
}

/// A text without line feeds before another text ends its first line where
/// the other text does.
pub proof fn lemma_line_end_after(head: Seq<char>, tail: Seq<char>)
    requires
        forall|i: int| 0 <= i < head.len() ==> head[i] != '\n',
    ensures
        line_end(head + tail) == head.len() + line_end(tail),
        line_end(tail) <= tail.len(),
    decreases head.len() + tail.len(),
{
    if head.len() == 0 {
        assert(head + tail =~= tail);
        if tail.len() > 0 && tail[0] != '\n' {
            lemma_line_end_after(head, tail.drop_first());
        }
    } else {
        assert((head + tail).drop_first() =~= head.drop_first() + tail);
        assert((head + tail)[0] == head[0]);
        lemma_line_end_after(head.drop_first(), tail);
    }
}

/// A line that the log gives back as it was written: it holds no line feed
/// and does not end in a carriage return.
pub open spec fn is_plain_line(line: Seq<char>) -> bool {
    &&& forall|i: int| 0 <= i < line.len() ==> line[i] != '\n'
    &&& line.len() > 0 ==> line.last() != '\r'
}

/// The text of a log begins with its first line and a line feed.
pub proof fn lemma_rendered_front(first: Seq<char>, rest: Seq<Seq<char>>)
    ensures
        rendered(seq![first] + rest) == first + seq!['\n'] + rendered(rest),
    decreases rest.len(),
{
    let all = seq![first] + rest;
    if rest.len() == 0 {
        assert(all.drop_last() =~= Seq::empty());
        assert(all.last() == first);
        assert(rendered(all.drop_last()) =~= Seq::empty());
        assert(rendered(rest) =~= Seq::empty());
        assert(rendered(all) =~= first + seq!['\n'] + rendered(rest));
    } else {
        assert(all.drop_last() =~= seq![first] + rest.drop_last());
        assert(all.last() == rest.last());
        lemma_rendered_front(first, rest.drop_last());
        assert(rendered(all) =~= first + seq!['\n'] + rendered(rest));
    }
}

/// Reading back what was written gives the lines that were written, where
/// each of them is a plain line.
pub proof fn lemma_log_reads_back(lines: Seq<Seq<char>>)
    requires
        forall|i: int| 0 <= i < lines.len() ==> is_plain_line(#[trigger] lines[i]),
    ensures
        lines_of(rendered(lines)) == lines,
    decreases lines.len(),
{
    if lines.len() == 0 {
    } else {
        let first = lines[0];
        let rest = lines.drop_first();
        let tail = seq!['\n'] + rendered(rest);
        let text = rendered(lines);
        assert(seq![first] + rest =~= lines);
        lemma_rendered_front(first, rest);
        assert(text =~= first + tail);
        assert(is_plain_line(first));
        lemma_line_end_after(first, tail);
        assert(line_end(tail) == 0);
        assert(text.take(first.len() as int) =~= first);
        assert(text.skip(first.len() as int + 1) =~= rendered(rest));
        assert forall|i: int| 0 <= i < rest.len() implies is_plain_line(#[trigger] rest[i]) by {
            assert(rest[i] == lines[i + 1]);
        }
        lemma_log_reads_back(rest);
        assert(lines_of(text) =~= seq![first] + rest);
    }
}

/// Splits a text into its lines.
pub fn split_lines(text: &str) -> (r: Vec<String>)
    ensures
        texts(r@) == lines_of(text@),
{
    let chars = chars_of(text);
    let mut out: Vec<String> = Vec::new();
    let mut line = String::new();
    // A carriage return that belongs to the line only if no line feed follows.
    let mut held = false;
    let mut begun = false;
    let mut i: usize = 0;
    let ghost mut cur: Seq<char> = Seq::empty();
    proof {
        assert(cur + chars@.skip(0) =~= text@);
        assert(texts(out@) + lines_of(text@) =~= lines_of(text@));
    }
    while i < chars.len()
        invariant
            i <= chars.len(),
            chars@ == text@,
            cur == if held {
                line@.push('\r')
            } else {
                line@
            },
            begun == (cur.len() > 0),
            !held ==> line@.len() == 0 || line@.last() != '\r',
            forall|k: int| 0 <= k < cur.len() ==> cur[k] != '\n',
            lines_of(text@) == texts(out@) + lines_of(cur + chars@.skip(i as int)),
        decreases chars.len() - i,
    {
        let c = chars[i];
        let ghost rest = chars@.skip(i as int);
        let ghost after = chars@.skip(i + 1);
        proof {
            assert(rest.drop_first() =~= after);
            assert(rest[0] == c);
        }
        if c == '\n' {
            proof {
                let whole = cur + rest;
                lemma_line_end_after(cur, rest);
                assert(line_end(rest) == 0);
                assert(whole.take(cur.len() as int) =~= cur);
                assert(whole.skip(cur.len() as int + 1) =~= after);
                assert(without_return(cur) =~= line@);
                assert(Seq::<char>::empty() + after =~= after);
                assert(texts(out@.push(line)) =~= texts(out@).push(line@));
                assert(texts(out@) + (seq![line@] + lines_of(after)) =~= texts(out@).push(line@)
                    + lines_of(after));
                cur = Seq::empty();
            }
            out.push(line);
            line = String::new();
            held = false;
            begun = false;
        } else {
            proof {
                assert(cur.push(c) + after =~= cur + rest);
                cur = cur.push(c);
            }
            if held {
                line.push('\r');
            }
            if c == '\r' {
                held = true;
            } else {
                held = false;
                line.push(c);
            }
            begun = true;
        }
        i += 1;
    }
    proof {
        assert(cur + chars@.skip(i as int) =~= cur);
        lemma_line_end_after(cur, Seq::empty());
        assert(cur + Seq::<char>::empty() =~= cur);
    }
    if held {
        line.push('\r');
    }
    if begun {
        proof {
            assert(texts(out@.push(line)) =~= texts(out@).push(line@));
            assert(texts(out@) + seq![cur] =~= texts(out@).push(cur));
        }
        out.push(line);
    } else {
        assert(texts(out@) + Seq::<Seq<char>>::empty() =~= texts(out@));
    }
    out
}

/// Writes lines out as a text, each followed by a line feed.
pub fn render(lines: &Vec<String>) -> (r: String)
    ensures
        r@ == rendered(texts(lines@)),
{
    let ghost all = texts(lines@);
    let mut out = String::new();
    let mut i: usize = 0;
    assert(all.take(0) =~= Seq::empty());
    while i < lines.len()
        invariant
            i <= lines.len(),
            all == texts(lines@),
            out@ == rendered(all.take(i as int)),
        decreases lines.len() - i,
    {
        proof {
            assert(all.take(i + 1).drop_last() =~= all.take(i as int));
            assert(all.take(i + 1).last() == lines@[i as int]@);
            reveal_strlit("\n");
            assert("\n"@ =~= seq!['\n']);
        }
        out.append(lines[i].as_str());
        out.append("\n");
        i += 1;
    }
    assert(all.take(i as int) =~= all);
    out
}

/// Puts the titles of a run, last download first, before the lines that the
/// log held, and keeps the first `cap` of them.
pub fn merge_log(downloaded: &Vec<String>, old: &Vec<String>, cap: usize) -> (r: Vec<String>)
    ensures
        texts(r@) == merged_log(texts(downloaded@), texts(old@), cap as nat),
{
    let ghost whole = texts(downloaded@).reverse() + texts(old@);
    let mut out: Vec<String> = Vec::new();
    let mut i: usize = downloaded.len();
    while i > 0 && out.len() < cap
        invariant
            i <= downloaded.len(),
            out.len() == downloaded.len() - i,
            out.len() <= cap,
            whole == texts(downloaded@).reverse() + texts(old@),
            forall|k: int| 0 <= k < out.len() ==> out@[k]@ == whole[k],
        decreases i,
    {
        i -= 1;
        out.push(downloaded[i].clone());
    }
    let mut j: usize = 0;
    while j < old.len() && out.len() < cap
        invariant
            j <= old.len(),
            out.len() <= cap,
            out.len() <= whole.len(),
            out.len() < cap ==> out.len() == downloaded.len() + j,
            whole == texts(downloaded@).reverse() + texts(old@),
            forall|k: int| 0 <= k < out.len() ==> out@[k]@ == whole[k],
        decreases old.len() - j,
    {
        out.push(old[j].clone());
        j += 1;
    }
    assert(texts(out@) =~= capped(whole, cap as nat));
    out
}

/// The text to write back to the log file: the titles of this run merged
/// into what the file held, `None` standing for a file that is not there yet.
pub fn rolling_log(downloaded: &Vec<String>, content: &Option<String>) -> (r: String)
    ensures
        r@ == rolling_log_text(texts(downloaded@), opt_text(*content)),
{
    let old = match content {
        Some(text) => split_lines(text.as_str()),
        None => {
            let none: Vec<String> = Vec::new();
            assert(texts(none@) =~= Seq::empty());
            none
        },
    };
    let merged = merge_log(downloaded, &old, LOG_CAPACITY);
    render(&merged)
}

} // verus!
