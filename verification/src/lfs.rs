//! Git-LFS pointer files: the small text bodies that stand in a repository
//! for large objects kept elsewhere.

use vstd::prelude::*;
use vstd::string::*;
use crate::lines::{
    find_newline, is_digit, parse_decimal, parse_decimal_range, text_lines, without_cr,
};
use crate::text::{has_prefix, range_has_prefix, to_chars};

verus! {

/// The first line of every pointer file.
pub open spec fn version_line() -> Seq<char> {
    "version https://git-lfs.github.com/spec/v1"@
}

/// What a line that names the object begins with.
pub open spec fn oid_prefix() -> Seq<char> {
    "oid sha256:"@
}

/// What a line that gives the object's size begins with.
pub open spec fn size_prefix() -> Seq<char> {
    "size "@
}

/// The line begins with the prefix that names the object.
pub open spec fn is_oid_line(l: Seq<char>) -> bool {
    has_prefix(l, oid_prefix())
}

/// The line begins with the prefix that gives the size.
pub open spec fn is_size_line(l: Seq<char>) -> bool {
    has_prefix(l, size_prefix())
}

/// What follows the prefix on a line that names the object.
pub open spec fn oid_value(l: Seq<char>) -> Seq<char> {
    l.skip(oid_prefix().len() as int)
}

/// The number that follows the prefix on a line that gives the size, if
/// what follows is a number.
pub open spec fn size_value(l: Seq<char>) -> Option<u64> {
    parse_decimal(l.skip(size_prefix().len() as int))
}

/// The object name that the last `oid sha256:` line among `ls` gives: all
/// that follows the prefix.
pub open spec fn last_oid(ls: Seq<Seq<char>>) -> Option<Seq<char>>
    decreases ls.len(),
{
    if ls.len() == 0 {
        None
    } else if is_oid_line(ls.last()) {
        Some(oid_value(ls.last()))
    } else {
        last_oid(ls.drop_last())
    }
}

/// The size that the last `size ` line among `ls` gives; `None` where there
/// is no such line or where that line writes no `u64`.
pub open spec fn last_size(ls: Seq<Seq<char>>) -> Option<u64>
    decreases ls.len(),
{
    if ls.len() == 0 {
        None
    } else if is_size_line(ls.last()) {
        size_value(ls.last())
    } else {
        last_size(ls.drop_last())
    }
}

/// The object name and size that the text `s` points to, if it is a pointer:
/// its first line is the version line, and its lines give both a name and a
/// size.
pub open spec fn pointer_of(s: Seq<char>) -> Option<(Seq<char>, u64)> {
    let ls = text_lines(s);
    if ls.len() > 0 && ls[0] == version_line() {
        match (last_oid(ls), last_size(ls)) {
            (Some(oid), Some(size)) => Some((oid, size)),
            _ => None,
        }
    } else {
        None
    }
}

/// A parsed pointer: the SHA-256 name of the object and its size in bytes.
#[derive(Debug, Clone)]
pub struct LfsPointer {
    pub oid: String,
    pub size: u64,
}

impl View for LfsPointer {
    type V = (Seq<char>, u64);

    open spec fn view(&self) -> (Seq<char>, u64) {
        (self.oid@, self.size)
    }
}

/// No line begins with both prefixes.
proof fn lemma_prefixes_differ(l: Seq<char>)
    ensures
        !(has_prefix(l, oid_prefix()) && has_prefix(l, size_prefix())),
{
    reveal_strlit("oid sha256:");
    reveal_strlit("size ");
    if has_prefix(l, oid_prefix()) && has_prefix(l, size_prefix()) {
        assert(l.subrange(0, oid_prefix().len() as int)[0] == 'o');
        assert(l.subrange(0, size_prefix().len() as int)[0] == 's');
    }
}

/// Where `last_oid` gives a name, a line is the prefix followed by that
/// name.
proof fn lemma_last_oid_line(ls: Seq<Seq<char>>, oid: Seq<char>) -> (i: int)
    requires
        last_oid(ls) == Some(oid),
    ensures
        0 <= i < ls.len(),
        ls[i] == oid_prefix() + oid,
    decreases ls.len(),
{
    if is_oid_line(ls.last()) {
        let l = ls.last();
        let n = oid_prefix().len() as int;
        assert(l =~= l.subrange(0, n) + l.skip(n));
        ls.len() - 1
    } else {
        lemma_last_oid_line(ls.drop_last(), oid)
    }
}

/// Where `last_size` gives a size, a line is the prefix followed by a
/// number that is that size.
proof fn lemma_last_size_line(ls: Seq<Seq<char>>, size: u64) -> (j: int)
    requires
        last_size(ls) == Some(size),
    ensures
        0 <= j < ls.len(),
        is_size_line(ls[j]),
        size_value(ls[j]) == Some(size),
    decreases ls.len(),
{
    if is_size_line(ls.last()) {
        ls.len() - 1
    } else {
        lemma_last_size_line(ls.drop_last(), size)
    }
}

/// A text is a pointer only if its first line is the version line, a later
/// line is `oid sha256:` followed by exactly the pointer's name, and a
/// later line is `size ` followed by a number that is the pointer's size.
pub proof fn lemma_pointer_lines(s: Seq<char>, oid: Seq<char>, size: u64)
    requires
        pointer_of(s) == Some((oid, size)),
    ensures
        text_lines(s).len() > 0,
        text_lines(s)[0] == version_line(),
        exists|i: int| 1 <= i < text_lines(s).len() && #[trigger] text_lines(s)[i] == oid_prefix() + oid,
        exists|j: int|
            1 <= j < text_lines(s).len() && is_size_line(#[trigger] text_lines(s)[j]) && size_value(
                text_lines(s)[j],
            ) == Some(size),
{
    let ls = text_lines(s);
    let i = lemma_last_oid_line(ls, oid);
    let j = lemma_last_size_line(ls, size);
    reveal_strlit("version https://git-lfs.github.com/spec/v1");
    reveal_strlit("oid sha256:");
    reveal_strlit("size ");
    assert(ls[0][0] == 'v');
    assert((oid_prefix() + oid)[0] == 'o');
    assert(ls[j].subrange(0, size_prefix().len() as int)[0] == 's');
    assert(ls[i] == oid_prefix() + oid);
    assert(is_size_line(ls[j]) && size_value(ls[j]) == Some(size));
}

/// A line that repeats the size prefix gives no size: what follows the
/// prefix is then no number.
pub proof fn lemma_repeated_prefix_is_no_size(l: Seq<char>)
    requires
        is_size_line(l),
        is_size_line(l.skip(size_prefix().len() as int)),
    ensures
        size_value(l) is None,
{
    reveal_strlit("size ");
    let rest = l.skip(size_prefix().len() as int);
    assert(rest.subrange(0, size_prefix().len() as int)[0] == 's');
    assert(rest[0] == 's');
    assert(!is_digit(rest[0]));
}

impl LfsPointer {
    /// Reads `content` as a pointer file.
    pub fn parse(content: &str) -> (r: Option<LfsPointer>)
        ensures
            match r {
                Some(p) => pointer_of(content@) == Some(p@),
                None => pointer_of(content@) is None,
            },
    {
        let chars = to_chars(content);
        let text = chars.as_slice();
        let version = to_chars("version https://git-lfs.github.com/spec/v1");
        let oid_mark = to_chars("oid sha256:");
        let size_mark = to_chars("size ");
        let n = text.len();
        let ghost s = content@;
        let ghost mut done: Seq<Seq<char>> = Seq::empty();
        let mut pos: usize = 0;
        let mut seen_first = false;
        let mut oid: Option<(usize, usize)> = None;
        let mut size: Option<u64> = None;
        proof {
            assert(s.skip(0) =~= s);
            assert(done + text_lines(s.skip(0)) =~= text_lines(s));
        }
        while pos < n
            invariant
                s == content@,
                text@ == s,
                n == s.len(),
                pos <= n,
                version@ == version_line(),
                oid_mark@ == oid_prefix(),
                size_mark@ == size_prefix(),
                text_lines(s) == done + text_lines(s.skip(pos as int)),
                seen_first == (done.len() > 0),
                done.len() > 0 ==> done[0] == version_line(),
                match oid {
                    Some((a, b)) => a <= b <= n && last_oid(done) == Some(
                        s.subrange(a as int, b as int),
                    ),
                    None => last_oid(done) is None,
                },
                size == last_size(done),
            decreases n - pos,
        {
            let e = find_newline(text, pos);
            let terminated = e < n;
            let end = if terminated && e > pos && text[e - 1] == '\r' {
                e - 1
            } else {
                e
            };
            let ghost rest = s.skip(pos as int);
            let ghost line = s.subrange(pos as int, end as int);
            proof {
                assert(rest.take(e - pos) =~= s.subrange(pos as int, e as int));
                if terminated {
                    assert(rest.skip(e - pos + 1) =~= s.skip(e + 1));
                    if e > pos {
                        assert(s.subrange(pos as int, e as int).last() == s[e - 1]);
                    }
                    assert(without_cr(s.subrange(pos as int, e as int)) =~= line);
                    assert(text_lines(rest) == seq![line] + text_lines(s.skip(e + 1)));
                } else {
                    assert(rest =~= line);
                    assert(text_lines(s.skip(n as int)) =~= Seq::<Seq<char>>::empty());
                    assert(text_lines(rest) =~= seq![line] + text_lines(s.skip(n as int)));
                }
            }
            let next = if terminated {
                e + 1
            } else {
                e
            };
            proof {
                assert(text_lines(s) =~= done.push(line) + text_lines(s.skip(next as int)));
                assert(done.push(line).drop_last() =~= done);
                assert(done.push(line).last() == line);
                lemma_prefixes_differ(line);
            }
            if !seen_first {
                let matches_version = end - pos == version.len() && range_has_prefix(
                    text,
                    pos,
                    end,
                    version.as_slice(),
                );
                proof {
                    assert(text_lines(s)[0] == line);
                    assert(line.subrange(0, line.len() as int) =~= line);
                }
                if !matches_version {
                    return None;
                }
                seen_first = true;
            }
            if range_has_prefix(text, pos, end, oid_mark.as_slice()) {
                let start = pos + oid_mark.len();
                proof {
                    assert(line.skip(oid_prefix().len() as int) =~= s.subrange(
                        start as int,
                        end as int,
                    ));
                }
                oid = Some((start, end));
            } else if range_has_prefix(text, pos, end, size_mark.as_slice()) {
                let start = pos + size_mark.len();
                proof {
                    assert(line.skip(size_prefix().len() as int) =~= s.subrange(
                        start as int,
                        end as int,
                    ));
                }
                size = parse_decimal_range(text, start, end);
            }
            proof {
                done = done.push(line);
            }
            pos = next;
        }
        proof {
            assert(text_lines(s.skip(n as int)) =~= Seq::<Seq<char>>::empty());
            assert(text_lines(s) =~= done);
        }
        if !seen_first {
            return None;
        }
        match (oid, size) {
            (Some((a, b)), Some(size)) => {
                let name = content.substring_char(a, b).to_owned();
                Some(LfsPointer { oid: name, size })
            },
            _ => None,
        }
    }
}

} // verus!
