//! How a row of a listing is shown: the label of its type and its name cut
//! to the width of the column.

use vstd::prelude::*;
use vstd::string::*;
use vstd::utf8::encode_utf8;
use crate::text::to_chars;

verus! {

/// The longest name, in characters, that is shown whole.
pub const NAME_WIDTH: usize = 35;

/// How much of a long name is shown before its extension.
pub const STEM_WIDTH: usize = 30;

/// The longest extension, in bytes of UTF-8, that is shown as a type.
pub const EXTENSION_WIDTH: usize = 5;

/// The index of the last `'.'` in `s`, or `-1` if it holds none.
pub open spec fn last_dot(s: Seq<char>) -> int
    decreases s.len(),
{
    if s.len() == 0 {
        -1
    } else if s.last() == '.' {
        s.len() - 1
    } else {
        last_dot(s.drop_last())
    }
}

/// What follows the last `'.'` of `name`; all of `name` if it holds none.
pub open spec fn extension_of(name: Seq<char>) -> Seq<char> {
    name.skip(last_dot(name) + 1)
}

/// The text `s` in upper case, as `str::to_uppercase` of the standard
/// library gives it.
pub uninterp spec fn uppercase_of(s: Seq<char>) -> Seq<char>;

/// `str::to_uppercase`: the text in upper case, by the Unicode rules that
/// the standard library follows. Nothing is proved of this function: its
/// result is named `uppercase_of`.
#[verifier::external_body]
fn to_upper(s: &str) -> (r: String)
    ensures
        r@ == uppercase_of(s@),
{
    s.to_uppercase()
}

/// The label of a row's type: `DIR` for a directory; for a file its
/// extension in upper case, if it has one of at most `EXTENSION_WIDTH`
/// bytes, else `FILE`.
pub open spec fn type_label(name: Seq<char>, is_dir: bool) -> Seq<char> {
    if is_dir {
        "DIR"@
    } else {
        let ext = extension_of(name);
        if ext.len() > 0 && encode_utf8(ext).len() <= EXTENSION_WIDTH {
            uppercase_of(ext)
        } else {
            "FILE"@
        }
    }
}

/// The name as shown: whole if it has at most `NAME_WIDTH` characters or
/// if at most `STEM_WIDTH` of them stand before its last `'.'`; else its
/// first `STEM_WIDTH` characters, five dots and its extension; and without
/// any `'.'`, its first `NAME_WIDTH` characters and five dots.
pub open spec fn shortened(name: Seq<char>) -> Seq<char> {
    if name.len() <= NAME_WIDTH {
        name
    } else {
        let dot = last_dot(name);
        if dot < 0 {
            name.take(NAME_WIDTH as int) + "....."@
        } else if dot > STEM_WIDTH {
            name.take(STEM_WIDTH as int) + "....."@ + name.skip(dot)
        } else {
            name
        }
    }
}

/// `last_dot` is below the length of the text.
pub proof fn lemma_last_dot_range(s: Seq<char>)
    ensures
        -1 <= last_dot(s) < s.len(),
        last_dot(s) >= 0 ==> s[last_dot(s)] == '.',
    decreases s.len(),
{
    if s.len() > 0 && s.last() != '.' {
        lemma_last_dot_range(s.drop_last());
    }
}

/// The position of the last `'.'` among `text`, if there is one.
pub fn find_last_dot(text: &[char]) -> (r: Option<usize>)
    ensures
        match r {
            Some(i) => i == last_dot(text@),
            None => last_dot(text@) == -1,
        },
{
    let mut i: usize = text.len();
    proof {
        assert(text@.take(i as int) =~= text@);
    }
    while i > 0
        invariant
            i <= text@.len(),
            last_dot(text@) == last_dot(text@.take(i as int)),
        decreases i,
    {
        proof {
            assert(text@.take(i as int).last() == text@[i - 1]);
            assert(text@.take(i as int).drop_last() =~= text@.take(i - 1));
        }
        if text[i - 1] == '.' {
            return Some(i - 1);
        }
        i -= 1;
    }
    None
}

/// The label of the type of the row `name`.
pub fn get_file_type(name: &str, is_dir: bool) -> (r: String)
    ensures
        r@ == type_label(name@, is_dir),
{
    if is_dir {
        return "DIR".to_owned();
    }
    let chars = to_chars(name);
    proof {
        lemma_last_dot_range(name@);
    }
    let from = match find_last_dot(chars.as_slice()) {
        Some(i) => i + 1,
        None => 0,
    };
    proof {
        assert(name@.subrange(from as int, name@.len() as int) =~= extension_of(name@));
    }
    let ext = name.substring_char(from, chars.len());
    if from < chars.len() && ext.as_bytes().len() <= EXTENSION_WIDTH {
        to_upper(ext)
    } else {
        "FILE".to_owned()
    }
}

/// The name of a row as shown in the listing.
pub fn display_name(name: &str) -> (r: String)
    ensures
        r@ == shortened(name@),
{
    let chars = to_chars(name);
    let n = chars.len();
    if n <= NAME_WIDTH {
        return name.to_owned();
    }
    proof {
        lemma_last_dot_range(name@);
    }
    match find_last_dot(chars.as_slice()) {
        None => {
            let mut out = name.substring_char(0, NAME_WIDTH).to_owned();
            out.append(".....");
            proof {
                assert(name@.subrange(0, NAME_WIDTH as int) =~= name@.take(NAME_WIDTH as int));
            }
            out
        },
        Some(dot) => {
            if dot > STEM_WIDTH {
                let mut out = name.substring_char(0, STEM_WIDTH).to_owned();
                out.append(".....");
                out.append(name.substring_char(dot, n));
                proof {
                    assert(name@.subrange(0, STEM_WIDTH as int) =~= name@.take(STEM_WIDTH as int));
                    assert(name@.subrange(dot as int, n as int) =~= name@.skip(dot as int));
                }
                out
            } else {
                name.to_owned()
            }
        },
    }
}

} // verus!
