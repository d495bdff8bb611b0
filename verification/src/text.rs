//! Predicates on request text.
use vstd::prelude::*;

verus! {

/// Whether `c` has the Unicode property White_Space.
pub open spec fn white_space(c: char) -> bool {
    let n = c as u32;
    ||| 0x09 <= n <= 0x0d
    ||| n == 0x20
    ||| n == 0x85
    ||| n == 0xa0
    ||| n == 0x1680
    ||| 0x2000 <= n <= 0x200a
    ||| n == 0x2028
    ||| n == 0x2029
    ||| n == 0x202f
    ||| n == 0x205f
    ||| n == 0x3000
}

/// Whether every character of `s` is white space, so that nothing is left of
/// `s` once it is trimmed. The empty text is blank.
pub open spec fn blank(s: Seq<char>) -> bool {
    forall|i: int| 0 <= i < s.len() ==> white_space(#[trigger] s[i])
}

/// Whether `s` holds two dots in a row.
pub open spec fn has_dot_dot(s: Seq<char>) -> bool {
    exists|i: int| 0 <= i < s.len() - 1 && #[trigger] s[i] == '.' && s[i + 1] == '.'
}

/// Whether `s` begins with a slash or a backslash.
pub open spec fn is_rooted(s: Seq<char>) -> bool {
    s.len() > 0 && (s[0] == '/' || s[0] == '\\')
}

/// Whether a requested path is turned down as it is written: it names a
/// parent directory or is absolute.
pub open spec fn escapes(s: Seq<char>) -> bool {
    has_dot_dot(s) || is_rooted(s)
}

/// Whether no character of `s` is a dot.
pub open spec fn dotless(s: Seq<char>) -> bool {
    forall|i: int| 0 <= i < s.len() ==> #[trigger] s[i] != '.'
}

/// Whether the last dot of `name` stands at `d` and something follows it.
pub open spec fn last_dot_at(name: Seq<char>, d: int) -> bool {
    &&& 0 <= d < name.len() - 1
    &&& name[d] == '.'
    &&& dotless(name.skip(d + 1))
}

/// The extension of a file name: what follows its last dot, where there is a
/// dot and something follows it.
pub open spec fn extension_of(name: Seq<char>) -> Option<Seq<char>> {
    if exists|d: int| last_dot_at(name, d) {
        Some(name.skip((choose|d: int| last_dot_at(name, d)) + 1))
    } else {
        None
    }
}

/// A name has at most one last dot.
pub proof fn last_dot_is_unique(name: Seq<char>, d: int, e: int)
    requires
        last_dot_at(name, d),
        last_dot_at(name, e),
    ensures
        d == e,
{
    if d < e {
        assert(name.skip(d + 1)[e - d - 1] == name[e]);
    } else if e < d {
        assert(name.skip(e + 1)[d - e - 1] == name[d]);
    }
}

/// An extension is never empty and holds no dot.
pub proof fn extension_is_dotless(name: Seq<char>)
    requires
        extension_of(name) is Some,
    ensures
        extension_of(name)->0.len() > 0,
        dotless(extension_of(name)->0),
{
}

/// Whether `c` is white space.
pub fn is_white_space(c: char) -> (r: bool)
    ensures
        r == white_space(c),
{
    let n: u32 = c as u32;
    (0x09 <= n && n <= 0x0d) || n == 0x20 || n == 0x85 || n == 0xa0 || n == 0x1680 || (0x2000 <= n
        && n <= 0x200a) || n == 0x2028 || n == 0x2029 || n == 0x202f || n == 0x205f || n == 0x3000
}

/// Whether nothing is left of `s` once it is trimmed.
pub fn is_blank(s: &str) -> (r: bool)
    ensures
        r == blank(s@),
{
    for c in it: s.chars()
        invariant
            it.seq() == s@,
            forall|i: int| 0 <= i < it.index() ==> white_space(#[trigger] s@[i]),
    {
        if !is_white_space(c) {
            return false;
        }
    }
    true
}

/// Whether a requested path is turned down as it is written.
pub fn path_escapes(path: &str) -> (r: bool)
    ensures
        r == escapes(path@),
{
    let mut first = true;
    let mut after_dot = false;
    for c in it: path.chars()
        invariant
            it.seq() == path@,
            first == (it.index() == 0),
            after_dot == (it.index() > 0 && path@[it.index() - 1] == '.'),
            forall|i: int|
                0 <= i < it.index() - 1 ==> !(#[trigger] path@[i] == '.' && path@[i + 1] == '.'),
            it.index() > 0 ==> !is_rooted(path@),
    {
        if first && (c == '/' || c == '\\') {
            return true;
        }
        if after_dot && c == '.' {
            return true;
        }
        first = false;
        after_dot = c == '.';
    }
    false
}

/// The extension of `name`, if it has one.
pub fn extension(name: &str) -> (r: Option<String>)
    ensures
        r is Some == extension_of(name@) is Some,
        r matches Some(e) ==> e@ == extension_of(name@)->0,
{
    let total: usize = name.unicode_len();
    let mut last: Option<usize> = None;
    let mut n: usize = 0;
    for c in it: name.chars()
        invariant
            it.seq() == name@,
            total == name@.len(),
            n == it.index(),
            match last {
                Some(d) => d < n && name@[d as int] == '.' && forall|j: int|
                    d < j < n ==> #[trigger] name@[j] != '.',
                None => forall|j: int| 0 <= j < n ==> #[trigger] name@[j] != '.',
            },
    {
        if c == '.' {
            last = Some(n);
        }
        n = n + 1;
    }
    match last {
        Some(d) if d + 1 < n => {
            proof {
                assert(last_dot_at(name@, d as int));
                let e = choose|e: int| last_dot_at(name@, e);
                last_dot_is_unique(name@, d as int, e);
            }
            let tail = name.substring_char(d + 1, n);
            Some(tail.to_owned())
        },
        Some(d) => {
            proof {
                assert forall|e: int| !last_dot_at(name@, e) by {
                    if last_dot_at(name@, e) {
                        assert(name@.skip(e + 1)[d - e - 1] == name@[d as int]);
                    }
                }
            }
            None
        },
        None => None,
    }
}

} // verus!
