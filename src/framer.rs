//! Grouping of the raw line stream into telegrams.

use vstd::prelude::*;

use crate::telegram::lines_view;

verus! {

/// The line begins with the character `c`.
pub open spec fn leads_with(l: Seq<char>, c: char) -> bool {
    l.len() > 0 && l[0] == c
}

/// A line that opens a telegram.
pub open spec fn is_start_line(l: Seq<char>) -> bool {
    leads_with(l, '/')
}

/// A line that closes a telegram.
pub open spec fn is_end_line(l: Seq<char>) -> bool {
    leads_with(l, '!')
}

/// Position of the first line at or after `from` that begins with `c`.
pub open spec fn first_line_from(lines: Seq<Seq<char>>, c: char, from: int) -> Option<int>
    decreases lines.len() - from,
{
    if from < 0 || from >= lines.len() {
        None
    } else if leads_with(lines[from], c) {
        Some(from)
    } else {
        first_line_from(lines, c, from + 1)
    }
}

/// The first telegram in a line stream: the lines strictly between the
/// first start line and the first end line after it. `None` where the
/// stream holds no complete telegram.
pub open spec fn frame(lines: Seq<Seq<char>>) -> Option<Seq<Seq<char>>> {
    match first_line_from(lines, '/', 0) {
        None => None,
        Some(s) => match first_line_from(lines, '!', s + 1) {
            None => None,
            Some(e) => Some(lines.subrange(s + 1, e)),
        },
    }
}

/// One step of the framer: from whether a telegram is open and the lines
/// collected so far, and the next line, to the next state and the telegram
/// that the line completes, if any.
pub open spec fn frame_step(collecting: bool, collected: Seq<Seq<char>>, line: Seq<char>) -> (
    bool,
    Seq<Seq<char>>,
    Option<Seq<Seq<char>>>,
) {
    if !collecting {
        if is_start_line(line) {
            (true, Seq::empty(), None)
        } else {
            (false, Seq::empty(), None)
        }
    } else if is_end_line(line) {
        (false, Seq::empty(), Some(collected))
    } else {
        (true, collected.push(line), None)
    }
}

/// Groups lines into telegrams, one line at a time.
pub struct Framer {
    collecting: bool,
    lines: Vec<String>,
}

impl Framer {
    /// Whether a telegram is open.
    pub closed spec fn collecting(&self) -> bool {
        self.collecting
    }

    /// The data lines of the open telegram so far.
    pub closed spec fn collected(&self) -> Seq<Seq<char>> {
        lines_view(self.lines@)
    }

    /// No lines are held outside a telegram.
    pub closed spec fn wf(&self) -> bool {
        !self.collecting ==> self.lines@.len() == 0
    }

    /// A framer waiting for the start of a telegram.
    pub fn new() -> (r: Framer)
        ensures
            r.wf(),
            !r.collecting(),
            r.collected() == Seq::<Seq<char>>::empty(),
    {
        let r = Framer { collecting: false, lines: Vec::new() };
        assert(r.collected() =~= Seq::<Seq<char>>::empty());
        r
    }

    /// Takes the next line; returns the data lines of the telegram that it
    /// closes, if it is an end line while a telegram is open.
    pub fn push_line(&mut self, line: String) -> (r: Option<Vec<String>>)
        requires
            old(self).wf(),
        ensures
            final(self).wf(),
            ({
                let (c, col, out) = frame_step(old(self).collecting(), old(self).collected(), line@);
                &&& final(self).collecting() == c
                &&& final(self).collected() == col
                &&& match r {
                    Some(t) => out == Some(lines_view(t@)),
                    None => out is None,
                }
            }),
    {
        let first = if line.as_str().unicode_len() > 0 {
            Some(line.as_str().get_char(0))
        } else {
            None
        };
        if !self.collecting {
            if first == Some('/') {
                self.collecting = true;
            }
            assert(self.collected() =~= Seq::<Seq<char>>::empty());
            None
        } else if first == Some('!') {
            let mut telegram = Vec::new();
            std::mem::swap(&mut telegram, &mut self.lines);
            self.collecting = false;
            assert(self.collected() =~= Seq::<Seq<char>>::empty());
            Some(telegram)
        } else {
            let ghost before = self.lines@;
            self.lines.push(line);
            assert(lines_view(self.lines@) =~= lines_view(before).push(line@));
            None
        }
    }
}

/// Returns the first telegram of a line stream, by feeding its lines to a
/// framer: the lines strictly between the first start line and the next
/// end line, or `None` where the stream ends before one is complete.
pub fn frame_telegram(lines: &[String]) -> (r: Option<Vec<String>>)
    ensures
        match r {
            Some(t) => frame(lines_view(lines@)) == Some(lines_view(t@)),
            None => frame(lines_view(lines@)) is None,
        },
{
    let ghost ls = lines_view(lines@);
    let ghost mut start: int = 0;
    let mut framer = Framer::new();
    let mut i: usize = 0;
    while i < lines.len()
        invariant
            i <= lines@.len(),
            ls == lines_view(lines@),
            framer.wf(),
            !framer.collecting() ==> first_line_from(ls, '/', 0) == first_line_from(
                ls,
                '/',
                i as int,
            ),
            framer.collecting() ==> {
                &&& 0 <= start < i
                &&& first_line_from(ls, '/', 0) == Some(start)
                &&& first_line_from(ls, '!', start + 1) == first_line_from(
                    ls,
                    '!',
                    i as int,
                )
                &&& framer.collected() == ls.subrange(start + 1, i as int)
            },
        decreases lines@.len() - i,
    {
        let line = lines[i].clone();
        assert(line@ == ls[i as int]);
        let was_collecting = framer.collecting;
        let ghost before = framer.collected();
        let out = framer.push_line(line);
        proof {
            if !was_collecting && framer.collecting() {
                start = i as int;
                assert(framer.collected() =~= ls.subrange(start + 1, i + 1));
            } else if was_collecting && framer.collecting() {
                assert(framer.collected() =~= ls.subrange(start + 1, i + 1));
            }
        }
        match out {
            Some(t) => {
                return Some(t);
            },
            None => {},
        }
        i += 1;
    }
    None
}

} // verus!
