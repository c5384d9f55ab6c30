//! Quoted texts: how a text is written between double quotes, and how it is
//! read back.

use vstd::prelude::*;

verus! {

/// Whether a character cannot stand for itself between quotes.
pub open spec fn needs_escape(c: char) -> bool {
    c == '\\' || c == '"' || c == '\n'
}

/// The letter that stands for `c` after a backslash.
pub open spec fn escape_letter(c: char) -> char {
    if c == '\n' {
        'n'
    } else {
        c
    }
}

/// The character that `letter` stands for after a backslash, if it stands for
/// one.
pub open spec fn escaped_char(letter: char) -> Option<char> {
    if letter == '\\' || letter == '"' {
        Some(letter)
    } else if letter == 'n' {
        Some('\n')
    } else {
        None
    }
}

/// The text `s` as it is written between quotes: a backslash, a quote and a
/// line feed become a backslash and a letter.
pub open spec fn escaped(s: Seq<char>) -> Seq<char>
    decreases s.len(),
{
    if s.len() == 0 {
        Seq::empty()
    } else if needs_escape(s[0]) {
        seq!['\\', escape_letter(s[0])] + escaped(s.skip(1))
    } else {
        seq![s[0]] + escaped(s.skip(1))
    }
}

/// The text `s` between quotes.
pub open spec fn quoted(s: Seq<char>) -> Seq<char> {
    seq!['"'] + escaped(s) + seq!['"']
}

/// The text that stands in `s` from `from` up to the closing quote, and the
/// place after that quote; nothing where the quote is missing or a backslash
/// is followed by no known letter.
pub open spec fn scanned(s: Seq<char>, from: int) -> Option<(Seq<char>, int)>
    decreases s.len() - from,
{
    if from < 0 || from >= s.len() {
        None
    } else if s[from] == '"' {
        Some((Seq::empty(), from + 1))
    } else if s[from] == '\n' {
        None
    } else if s[from] == '\\' {
        if from + 1 >= s.len() {
            None
        } else {
            match (escaped_char(s[from + 1]), scanned(s, from + 2)) {
                (Some(c), Some((rest, end))) => Some((seq![c] + rest, end)),
                _ => None,
            }
        }
    } else {
        match scanned(s, from + 1) {
            Some((rest, end)) => Some((seq![s[from]] + rest, end)),
            None => None,
        }
    }
}

/// The text that `s` holds between quotes, if `s` is a quoted text and
/// nothing else.
pub open spec fn unquoted(s: Seq<char>) -> Option<Seq<char>> {
    if s.len() >= 1 && s[0] == '"' {
        match scanned(s, 1) {
            Some((text, end)) => if end == s.len() {
                Some(text)
            } else {
                None
            },
            None => None,
        }
    } else {
        None
    }
}

/// Scanning the escaped form of a text up to its closing quote gives the
/// text, whatever stands before and after.
pub proof fn lemma_scan_escaped(before: Seq<char>, text: Seq<char>, after: Seq<char>)
    ensures
        scanned(before + escaped(text) + seq!['"'] + after, before.len() as int) == Some(
            (text, (before.len() + escaped(text).len() + 1) as int),
        ),
    decreases text.len(),
{
    let s = before + escaped(text) + seq!['"'] + after;
    let from = before.len() as int;
    if text.len() == 0 {
        assert(s[from] == '"');
    } else {
        let rest = text.skip(1);
        if needs_escape(text[0]) {
            let next = before + seq!['\\', escape_letter(text[0])];
            lemma_scan_escaped(next, rest, after);
            assert(next + escaped(rest) + seq!['"'] + after =~= s);
            assert(s[from] == '\\');
            assert(s[from + 1] == escape_letter(text[0]));
            assert(seq![text[0]] + rest =~= text);
        } else {
            let next = before + seq![text[0]];
            lemma_scan_escaped(next, rest, after);
            assert(next + escaped(rest) + seq!['"'] + after =~= s);
            assert(s[from] == text[0]);
            assert(seq![text[0]] + rest =~= text);
        }
    }
}

/// Reading a quoted text gives the text.
pub proof fn lemma_unquoted_quoted(text: Seq<char>)
    ensures
        unquoted(quoted(text)) == Some(text),
{
    lemma_scan_escaped(seq!['"'], text, Seq::empty());
    assert(seq!['"'] + escaped(text) + seq!['"'] + Seq::<char>::empty() =~= quoted(text));
}

/// The escaped form of a text holds no line feed.
pub proof fn lemma_escaped_one_line(text: Seq<char>)
    ensures
        !escaped(text).contains('\n'),
    decreases text.len(),
{
    if text.len() > 0 {
        lemma_escaped_one_line(text.skip(1));
        let head = if needs_escape(text[0]) {
            seq!['\\', escape_letter(text[0])]
        } else {
            seq![text[0]]
        };
        let tail = escaped(text.skip(1));
        if escaped(text).contains('\n') {
            let k = choose|k: int| 0 <= k < escaped(text).len() && escaped(text)[k] == '\n';
            if k >= head.len() {
                assert(tail[k - head.len()] == '\n');
                assert(tail.contains('\n'));
            }
        }
    }
}

/// Writes `text` between quotes at the end of `out`.
pub fn write_quoted(out: &mut Vec<char>, text: &Vec<char>)
    ensures
        final(out)@ == old(out)@ + quoted(text@),
{
    out.push('"');
    let mut i: usize = 0;
    assert(text@.skip(0) =~= text@);
    while i < text.len()
        invariant
            i <= text.len(),
            out@ + escaped(text@.skip(i as int)) == old(out)@ + seq!['"'] + escaped(text@),
        decreases text.len() - i,
    {
        let ghost before = out@;
        let ghost rest = text@.skip(i as int);
        assert(rest.skip(1) =~= text@.skip(i + 1));
        assert(rest[0] == text@[i as int]);
        let c = text[i];
        if c == '\\' || c == '"' {
            out.push('\\');
            out.push(c);
            assert(out@ + escaped(rest.skip(1)) =~= before + escaped(rest));
        } else if c == '\n' {
            out.push('\\');
            out.push('n');
            assert(out@ + escaped(rest.skip(1)) =~= before + escaped(rest));
        } else {
            out.push(c);
            assert(out@ + escaped(rest.skip(1)) =~= before + escaped(rest));
        }
        i += 1;
    }
    assert(escaped(text@.skip(text.len() as int)) =~= Seq::<char>::empty());
    assert(out@ =~= out@ + Seq::<char>::empty());
    out.push('"');
    assert(out@ =~= old(out)@ + quoted(text@));
}

/// Computes [`scanned`].
pub fn scan_quoted(s: &Vec<char>, from: usize) -> (found: Option<(Vec<char>, usize)>)
    ensures
        match found {
            Some((text, end)) => scanned(s@, from as int) == Some((text@, end as int)) && from < end
                <= s.len(),
            None => scanned(s@, from as int) is None,
        },
{
    let mut text: Vec<char> = Vec::new();
    let mut i: usize = from;
    loop
        invariant
            from <= i,
            scanned(s@, from as int) == match scanned(s@, i as int) {
                Some((rest, end)) => Some((text@ + rest, end)),
                None => None,
            },
        decreases s.len() - i,
    {
        if i >= s.len() {
            return None;
        }
        let c = s[i];
        if c == '"' {
            assert(text@ + Seq::<char>::empty() =~= text@);
            return Some((text, i + 1));
        } else if c == '\n' {
            return None;
        } else if c == '\\' {
            if i + 1 >= s.len() {
                return None;
            }
            let letter = s[i + 1];
            let plain = if letter == '\\' || letter == '"' {
                letter
            } else if letter == 'n' {
                '\n'
            } else {
                return None;
            };
            let ghost before = text@;
            text.push(plain);
            assert forall|rest: Seq<char>| before + (seq![plain] + rest) == text@ + rest by {
                assert(before + (seq![plain] + rest) =~= text@ + rest);
            }
            i += 2;
        } else {
            let ghost before = text@;
            text.push(c);
            assert forall|rest: Seq<char>| before + (seq![c] + rest) == text@ + rest by {
                assert(before + (seq![c] + rest) =~= text@ + rest);
            }
            i += 1;
        }
    }
}

/// Computes [`unquoted`].
pub fn read_quoted(s: &Vec<char>) -> (text: Option<Vec<char>>)
    ensures
        match text {
            Some(inner) => unquoted(s@) == Some(inner@),
            None => unquoted(s@) is None,
        },
{
    if s.len() < 1 || s[0] != '"' {
        return None;
    }
    match scan_quoted(s, 1) {
        Some((text, end)) => if end == s.len() {
            Some(text)
        } else {
            None
        },
        None => None,
    }
}

} // verus!
