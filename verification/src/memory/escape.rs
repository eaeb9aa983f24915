//! How a text is kept on one line of a file: line feeds, carriage returns,
//! tabs and backslashes are written as a backslash and a letter, and read
//! back as what they stood for.

use vstd::prelude::*;
use vstd::string::*;
use crate::text::to_chars;

verus! {

/// How one character is written.
pub open spec fn escaped_char(c: char) -> Seq<char> {
    if c == '\\' {
        seq!['\\', '\\']
    } else if c == '\n' {
        seq!['\\', 'n']
    } else if c == '\r' {
        seq!['\\', 'r']
    } else if c == '\t' {
        seq!['\\', 't']
    } else {
        seq![c]
    }
}

/// How a text is written: character by character.
pub open spec fn spec_escape(text: Seq<char>) -> Seq<char>
    decreases text.len(),
{
    if text.len() == 0 {
        Seq::empty()
    } else {
        spec_escape(text.drop_last()) + escaped_char(text.last())
    }
}

/// Whether a backslash and `c` stand for one character.
pub open spec fn is_escape_letter(c: char) -> bool {
    c == '\\' || c == 'n' || c == 'r' || c == 't'
}

/// The character that a backslash and `c` stand for.
pub open spec fn unescaped_char(c: char) -> char {
    if c == 'n' {
        '\n'
    } else if c == 'r' {
        '\r'
    } else if c == 't' {
        '\t'
    } else {
        c
    }
}

/// What a written text stood for: a backslash and the letter after it are
/// read as one character where the two stand for one, and every other
/// character is read as itself.
pub open spec fn spec_unescape(text: Seq<char>) -> Seq<char>
    decreases text.len(),
{
    if text.len() == 0 {
        Seq::empty()
    } else if text[0] == '\\' && text.len() >= 2 && is_escape_letter(text[1]) {
        seq![unescaped_char(text[1])] + spec_unescape(text.skip(2))
    } else {
        seq![text[0]] + spec_unescape(text.skip(1))
    }
}

/// Where the first tab of `s` stands, or the length of `s` where it has
/// none.
pub open spec fn first_tab(s: Seq<char>) -> int
    decreases s.len(),
{
    if s.len() == 0 {
        0
    } else if s[0] == '\t' {
        0
    } else {
        1 + first_tab(s.drop_first())
    }
}

/// A written character, read back in front of any text, is the character.
pub proof fn lemma_unescape_char(c: char, rest: Seq<char>)
    ensures
        spec_unescape(escaped_char(c) + rest) == seq![c] + spec_unescape(rest),
{
    let s = escaped_char(c) + rest;
    if c == '\\' || c == '\n' || c == '\r' || c == '\t' {
        assert(s[0] == '\\');
        assert(s[1] == escaped_char(c)[1]);
        assert(s.skip(2) =~= rest);
    } else {
        assert(s[0] == c);
        assert(s.skip(1) =~= rest);
    }
}

/// Two texts in a row are written as the first and then the second.
pub proof fn lemma_escape_concat(a: Seq<char>, b: Seq<char>)
    ensures
        spec_escape(a + b) == spec_escape(a) + spec_escape(b),
    decreases b.len(),
{
    if b.len() == 0 {
        assert(a + b =~= a);
        assert(spec_escape(a) + spec_escape(b) =~= spec_escape(a));
    } else {
        let ab = a + b;
        assert(ab.drop_last() =~= a + b.drop_last());
        assert(ab.last() == b.last());
        lemma_escape_concat(a, b.drop_last());
        assert(spec_escape(ab) =~= spec_escape(a) + spec_escape(b));
    }
}

/// A text that was written is read back as it was.
pub proof fn lemma_unescape_escaped(text: Seq<char>)
    ensures
        spec_unescape(spec_escape(text)) == text,
    decreases text.len(),
{
    if text.len() > 0 {
        let head = seq![text[0]];
        let rest = text.drop_first();
        assert(text =~= head + rest);
        lemma_escape_concat(head, rest);
        assert(head.drop_last() =~= Seq::<char>::empty());
        assert(head.last() == text[0]);
        assert(spec_escape(head.drop_last()) =~= Seq::<char>::empty());
        assert(spec_escape(head) =~= escaped_char(text[0]));
        lemma_unescape_char(text[0], spec_escape(rest));
        lemma_unescape_escaped(rest);
        assert(seq![text[0]] + rest =~= text);
    }
}

/// A written text holds no line feed, no carriage return and no tab.
pub proof fn lemma_escaped_is_plain(text: Seq<char>)
    ensures
        forall|i: int|
            0 <= i < spec_escape(text).len() ==> {
                let c = #[trigger] spec_escape(text)[i];
                c != '\n' && c != '\r' && c != '\t'
            },
    decreases text.len(),
{
    if text.len() > 0 {
        lemma_escaped_is_plain(text.drop_last());
        let front = spec_escape(text.drop_last());
        let back = escaped_char(text.last());
        assert forall|i: int| 0 <= i < spec_escape(text).len() implies {
            let c = #[trigger] spec_escape(text)[i];
            c != '\n' && c != '\r' && c != '\t'
        } by {
            if i < front.len() {
                assert(spec_escape(text)[i] == front[i]);
            } else {
                assert(spec_escape(text)[i] == back[i - front.len()]);
            }
        }
    }
}

/// The first tab stands within the text, on a tab, and none stands before
/// it.
pub proof fn lemma_first_tab(s: Seq<char>)
    ensures
        0 <= first_tab(s) <= s.len(),
        first_tab(s) < s.len() ==> s[first_tab(s)] == '\t',
        forall|i: int| 0 <= i < first_tab(s) ==> s[i] != '\t',
    decreases s.len(),
{
    if s.len() > 0 && s[0] != '\t' {
        lemma_first_tab(s.drop_first());
        assert forall|i: int| 0 <= i < first_tab(s) implies s[i] != '\t' by {
            if i > 0 {
                assert(s.drop_first()[i - 1] == s[i]);
            }
        }
    }
}

/// A position that holds the first tab is the first tab.
pub proof fn lemma_first_tab_is(s: Seq<char>, n: int)
    requires
        0 <= n <= s.len(),
        forall|i: int| 0 <= i < n ==> s[i] != '\t',
        n < s.len() ==> s[n] == '\t',
    ensures
        first_tab(s) == n,
{
    lemma_first_tab(s);
    let f = first_tab(s);
    if f < n {
        assert(s[f] != '\t');
    }
}

/// `text` as it is written on one line.
pub fn escape(text: &str) -> (written: String)
    ensures
        written@ == spec_escape(text@),
{
    let chars = to_chars(text);
    let mut written = String::new();
    let mut i: usize = 0;
    assert(chars@.take(0) =~= Seq::<char>::empty());
    while i < chars.len()
        invariant
            i <= chars.len(),
            written@ == spec_escape(chars@.take(i as int)),
        decreases chars.len() - i,
    {
        let c = chars[i];
        let ghost before = written@;
        proof {
            assert(chars@.take(i + 1).drop_last() =~= chars@.take(i as int));
            assert(chars@.take(i + 1).last() == c);
        }
        if c == '\\' {
            written.push('\\');
            written.push('\\');
        } else if c == '\n' {
            written.push('\\');
            written.push('n');
        } else if c == '\r' {
            written.push('\\');
            written.push('r');
        } else if c == '\t' {
            written.push('\\');
            written.push('t');
        } else {
            written.push(c);
        }
        assert(written@ =~= before + escaped_char(c));
        i += 1;
    }
    assert(chars@.take(chars.len() as int) =~= chars@);
    written
}

/// What the written characters `line[from..to]` stood for.
pub fn unescape(line: &Vec<char>, from: usize, to: usize) -> (text: String)
    requires
        from <= to <= line.len(),
    ensures
        text@ == spec_unescape(line@.subrange(from as int, to as int)),
{
    let mut text = String::new();
    let mut i: usize = from;
    let ghost s = line@;
    assert(text@ + spec_unescape(s.subrange(from as int, to as int)) =~= spec_unescape(
        s.subrange(from as int, to as int),
    ));
    while i < to
        invariant
            from <= i <= to <= line.len(),
            s == line@,
            text@ + spec_unescape(s.subrange(i as int, to as int)) == spec_unescape(
                s.subrange(from as int, to as int),
            ),
        decreases to - i,
    {
        let ghost before = text@;
        let ghost rest = s.subrange(i as int, to as int);
        let c = line[i];
        assert(rest[0] == c);
        if c == '\\' && i + 1 < to && (line[i + 1] == '\\' || line[i + 1] == 'n' || line[i + 1]
            == 'r' || line[i + 1] == 't') {
            let d = line[i + 1];
            assert(rest[1] == d);
            assert(rest.skip(2) =~= s.subrange(i + 2, to as int));
            if d == 'n' {
                text.push('\n');
            } else if d == 'r' {
                text.push('\r');
            } else if d == 't' {
                text.push('\t');
            } else {
                text.push(d);
            }
            assert(text@ + spec_unescape(rest.skip(2)) =~= before + spec_unescape(rest));
            i += 2;
        } else {
            assert(rest.skip(1) =~= s.subrange(i + 1, to as int));
            text.push(c);
            assert(text@ + spec_unescape(rest.skip(1)) =~= before + spec_unescape(rest));
            i += 1;
        }
    }
    assert(s.subrange(to as int, to as int) =~= Seq::<char>::empty());
    assert(text@ + Seq::<char>::empty() =~= text@);
    text
}

/// Where the first tab of `line[from..to]` stands, or `to` where it has
/// none.
pub fn tab_at(line: &Vec<char>, from: usize, to: usize) -> (at: usize)
    requires
        from <= to <= line.len(),
    ensures
        from <= at <= to,
        at - from == first_tab(line@.subrange(from as int, to as int)),
{
    let mut i: usize = from;
    let ghost s = line@;
    while i < to && line[i] != '\t'
        invariant
            from <= i <= to <= line.len(),
            s == line@,
            first_tab(s.subrange(from as int, to as int)) == (i - from) + first_tab(
                s.subrange(i as int, to as int),
            ),
        decreases to - i,
    {
        assert(s.subrange(i as int, to as int)[0] == s[i as int]);
        assert(s.subrange(i as int, to as int).drop_first() =~= s.subrange(i + 1, to as int));
        i += 1;
    }
    proof {
        if i < to {
            assert(s.subrange(i as int, to as int)[0] == s[i as int]);
        } else {
            assert(s.subrange(i as int, to as int).len() == 0);
        }
    }
    i
}

} // verus!
