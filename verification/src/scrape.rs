//! Scraping the genesis vault's log for its contact information.
//!
//! The log is scanned line by line, in order. A line carries contact
//! information when the literal marker `Vault connection info: ` occurs
//! with at least one character before it and at least one character
//! after it up to the end of the line. The capture is everything after
//! the last such occurrence in the first line that has one, and is
//! re-emitted wrapped in brackets as `[<capture>]`.

use vstd::prelude::*;

use crate::errors::Error;
use crate::vault_args::strings_view;

verus! {

/// The literal marker that announces the contact information.
pub open spec fn contact_marker() -> Seq<char> {
    "Vault connection info: "@
}

/// The marker occurs at position `i` of the line, with at least one
/// character before it and at least one after it.
pub open spec fn match_at(line: Seq<char>, i: int) -> bool {
    &&& 1 <= i
    &&& i + contact_marker().len() < line.len()
    &&& line.subrange(i, i + contact_marker().len() as int) == contact_marker()
}

/// Some position of the line carries the marker.
pub open spec fn line_has_contact(line: Seq<char>) -> bool {
    exists|i: int| match_at(line, i)
}

/// `i` is the last position of the line that carries the marker.
pub open spec fn is_last_match(line: Seq<char>, i: int) -> bool {
    match_at(line, i) && (forall|j: int| i < j ==> !match_at(line, j))
}

/// The capture of a matching line: everything after the last marker
/// occurrence, up to the end of the line.
pub open spec fn contact_capture(line: Seq<char>) -> Seq<char> {
    let i = choose|i: int| is_last_match(line, i);
    line.subrange(i + contact_marker().len() as int, line.len() as int)
}

/// A capture wrapped in bracket delimiters.
pub open spec fn bracketed(s: Seq<char>) -> Seq<char> {
    seq!['['] + s + seq![']']
}

/// The index of the first line feed, or the length when there is none.
pub open spec fn first_newline(s: Seq<char>) -> nat
    decreases s.len(),
{
    if s.len() == 0 {
        0
    } else if s[0] == '\n' {
        0
    } else {
        1 + first_newline(s.skip(1))
    }
}

/// A line with a trailing carriage return loses it.
pub open spec fn strip_cr(line: Seq<char>) -> Seq<char> {
    if line.len() > 0 && line.last() == '\r' {
        line.drop_last()
    } else {
        line
    }
}

/// The lines of a text: split on line feeds, a carriage return
/// stripped only where a line feed follows it; a trailing line feed
/// opens no empty last line, and a last line without a line feed keeps
/// a bare trailing carriage return.
pub open spec fn lines_of(s: Seq<char>) -> Seq<Seq<char>>
    decreases s.len(),
{
    if s.len() == 0 {
        Seq::empty()
    } else {
        let n = first_newline(s);
        if n >= s.len() {
            seq![s]
        } else {
            seq![strip_cr(s.take(n as int))] + lines_of(s.skip(n as int + 1))
        }
    }
}

/// The capture of the first line that carries the marker, if any line
/// does.
pub open spec fn scrape_lines(lines: Seq<Seq<char>>) -> Option<Seq<char>>
    decreases lines.len(),
{
    if lines.len() == 0 {
        None
    } else if line_has_contact(lines[0]) {
        Some(contact_capture(lines[0]))
    } else {
        scrape_lines(lines.skip(1))
    }
}

proof fn lemma_first_newline_at(s: Seq<char>, n: int)
    requires
        0 <= n <= s.len(),
        forall|k: int| 0 <= k < n ==> s[k] != '\n',
        n < s.len() ==> s[n] == '\n',
    ensures
        first_newline(s) == if n < s.len() {
            n
        } else {
            s.len() as int
        },
    decreases n,
{
    if s.len() == 0 {
    } else if s[0] == '\n' {
        assert(n == 0);
    } else {
        assert(n >= 1);
        let t = s.skip(1);
        assert(forall|k: int| 0 <= k < n - 1 ==> t[k] == s[k + 1] && t[k] != '\n');
        assert(n - 1 < t.len() ==> t[n - 1] == s[n]);
        lemma_first_newline_at(t, n - 1);
    }
}

fn strip_trailing_cr(line: &str) -> (r: String)
    ensures
        r@ == strip_cr(line@),
{
    let len = line.unicode_len();
    if len > 0 && line.get_char(len - 1) == '\r' {
        let head = line.substring_char(0, len - 1);
        proof {
            assert(head@ =~= line@.drop_last());
        }
        head.to_owned()
    } else {
        line.to_owned()
    }
}

/// Splits a text into its lines.
pub fn split_lines(content: &str) -> (lines: Vec<String>)
    ensures
        strings_view(lines@) == lines_of(content@),
{
    let len = content.unicode_len();
    let mut lines: Vec<String> = Vec::new();
    let mut pos: usize = 0;
    proof {
        assert(content@.skip(0) =~= content@);
        assert(strings_view(lines@) + lines_of(content@) =~~= lines_of(content@));
    }
    while pos < len
        invariant
            pos <= len,
            len == content@.len(),
            lines_of(content@) == strings_view(lines@) + lines_of(content@.skip(pos as int)),
        decreases len - pos,
    {
        let ghost s = content@;
        let ghost pos0 = pos as int;
        let ghost before = strings_view(lines@);
        let mut q: usize = pos;
        while q < len && content.get_char(q) != '\n'
            invariant
                pos <= q <= len,
                len == content@.len(),
                forall|k: int| pos <= k < q ==> content@[k] != '\n',
            decreases len - q,
        {
            q = q + 1;
        }
        proof {
            let tail = s.skip(pos0);
            assert(forall|k: int| 0 <= k < q - pos0 ==> tail[k] == s[k + pos0] && tail[k] != '\n');
            assert(q < len ==> tail[q - pos0] == s[q as int]);
            lemma_first_newline_at(tail, q - pos0);
        }
        let raw = content.substring_char(pos, q);
        if q < len {
            let line = strip_trailing_cr(raw);
            lines.push(line);
            proof {
                let tail = s.skip(pos0);
                assert(tail.take(q - pos0) =~= s.subrange(pos0, q as int));
                assert(tail.skip(q - pos0 + 1) =~= s.skip(q as int + 1));
                assert(lines_of(tail) == seq![strip_cr(s.subrange(pos0, q as int))] + lines_of(
                    s.skip(q as int + 1),
                ));
                assert(strings_view(lines@) =~~= before + seq![
                    strip_cr(s.subrange(pos0, q as int)),
                ]);
                assert(before + lines_of(tail) =~~= strings_view(lines@) + lines_of(
                    s.skip(q as int + 1),
                ));
            }
            pos = q + 1;
        } else {
            lines.push(raw.to_owned());
            proof {
                let tail = s.skip(pos0);
                assert(tail =~= s.subrange(pos0, len as int));
                assert(lines_of(tail) == seq![tail]);
                assert(s.skip(len as int) =~= Seq::<char>::empty());
                assert(strings_view(lines@) =~~= before + seq![tail]);
                assert(before + lines_of(tail) =~~= strings_view(lines@) + lines_of(
                    s.skip(len as int),
                ));
            }
            pos = len;
        }
    }
    proof {
        assert(content@.skip(len as int) =~= Seq::<char>::empty());
        assert(strings_view(lines@) + lines_of(Seq::<char>::empty()) =~~= strings_view(lines@));
    }
    lines
}

fn match_marker_at(line: &str, i: usize) -> (r: bool)
    requires
        1 <= i,
        i + 24 <= line@.len(),
        line@.len() <= usize::MAX,
    ensures
        r == match_at(line@, i as int),
{
    let marker: &str = "Vault connection info: ";
    proof {
        reveal_strlit("Vault connection info: ");
        assert(marker@ == contact_marker());
        assert(contact_marker().len() == 23);
    }
    let mut j: usize = 0;
    while j < 23
        invariant
            j <= 23,
            1 <= i,
            i + 24 <= line@.len(),
            line@.len() <= usize::MAX,
            marker@ == contact_marker(),
            contact_marker().len() == 23,
            forall|k: int| 0 <= k < j ==> line@[i + k] == contact_marker()[k],
        decreases 23 - j,
    {
        if line.get_char(i + j) != marker.get_char(j) {
            proof {
                assert(line@.subrange(i as int, i + 23) != contact_marker()) by {
                    assert(line@.subrange(i as int, i + 23)[j as int] != contact_marker()[
                        j as int
                    ]);
                }
            }
            return false;
        }
        j = j + 1;
    }
    proof {
        assert(line@.subrange(i as int, i + 23) =~= contact_marker());
    }
    true
}

fn find_contact_in_line(line: &str) -> (r: Option<String>)
    ensures
        match r {
            Some(c) => line_has_contact(line@) && c@ == contact_capture(line@),
            None => !line_has_contact(line@),
        },
{
    proof {
        reveal_strlit("Vault connection info: ");
        assert(contact_marker().len() == 23);
    }
    let len = line.unicode_len();
    if len < 25 {
        proof {
            assert(forall|j: int| !match_at(line@, j));
        }
        return None;
    }
    let mut best: Option<usize> = None;
    let mut i: usize = 1;
    while i <= len - 24
        invariant
            1 <= i,
            25 <= len,
            len == line@.len(),
            contact_marker().len() == 23,
            match best {
                Some(b) => 1 <= b < i && match_at(line@, b as int) && (forall|j: int|
                    b < j < i ==> !match_at(line@, j)),
                None => forall|j: int| j < i ==> !match_at(line@, j),
            },
        decreases len - i,
    {
        if match_marker_at(line, i) {
            best = Some(i);
        }
        i = i + 1;
    }
    proof {
        assert(forall|j: int| i <= j ==> !match_at(line@, j));
    }
    match best {
        Some(b) => {
            proof {
                assert(is_last_match(line@, b as int));
                let i0 = choose|x: int| is_last_match(line@, x);
                assert(is_last_match(line@, i0));
                if i0 < b {
                    assert(!match_at(line@, b as int));
                } else if i0 > b {
                    assert(!match_at(line@, i0));
                }
                assert(i0 == b);
                assert(contact_capture(line@) == line@.subrange(b + 23, line@.len() as int));
            }
            let cap = line.substring_char(b + 23, len);
            Some(cap.to_owned())
        },
        None => {
            proof {
                assert(forall|j: int| !match_at(line@, j));
            }
            None
        },
    }
}

/// Scans the given log text for the genesis vault's contact line and
/// returns the capture wrapped in brackets; fails with `NotFound` when
/// no line of the text carries the marker.
pub fn grep_connection_info(content: &str) -> (r: Result<String, Error>)
    ensures
        match scrape_lines(lines_of(content@)) {
            Some(cap) => r matches Ok(c) && c@ == bracketed(cap),
            None => r matches Err(e) && e is NotFound,
        },
{
    let lines = split_lines(content);
    let mut idx: usize = 0;
    proof {
        assert(strings_view(lines@).skip(0) =~= strings_view(lines@));
    }
    while idx < lines.len()
        invariant
            idx <= lines.len(),
            strings_view(lines@) == lines_of(content@),
            scrape_lines(lines_of(content@)) == scrape_lines(
                strings_view(lines@).skip(idx as int),
            ),
        decreases lines.len() - idx,
    {
        let found = find_contact_in_line(lines[idx].as_str());
        proof {
            assert(strings_view(lines@).skip(idx as int)[0] == lines@[idx as int]@);
        }
        match found {
            Some(c) => {
                let mut out = String::from_str("[");
                out.append(c.as_str());
                out.append("]");
                proof {
                    reveal_strlit("[");
                    reveal_strlit("]");
                    assert(out@ =~= bracketed(contact_capture(lines@[idx as int]@)));
                }
                return Ok(out);
            },
            None => {
                proof {
                    let sv = strings_view(lines@);
                    assert(sv.skip(idx as int).skip(1) =~= sv.skip(idx as int + 1));
                }
                idx = idx + 1;
            },
        }
    }
    proof {
        assert(strings_view(lines@).skip(lines@.len() as int) =~= Seq::<Seq<char>>::empty());
    }
    Err(Error::NotFound)
}

} // verus!
