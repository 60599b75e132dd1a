//! File names taken from paths, by the rules of `std::path::Path` on Unix:
//! `/` separates the components, repeated and trailing separators and `.`
//! components are passed over, and a last component `..` has no name.
use vstd::prelude::*;

verus! {

/// Where the component that ends at `end` begins: just after the last `/`
/// before `end`, or at the start.
pub open spec fn seg_start(s: Seq<char>, end: int) -> int
    decreases end,
{
    if end <= 0 {
        0
    } else if s[end - 1] == '/' {
        end
    } else {
        seg_start(s, end - 1)
    }
}

/// The component that ends at `end` begins no later than `end`, after a `/`
/// or at the start, and holds no `/`.
pub proof fn lemma_seg_start(s: Seq<char>, end: int)
    requires
        0 <= end <= s.len(),
    ensures
        0 <= seg_start(s, end) <= end,
        seg_start(s, end) > 0 ==> s[seg_start(s, end) - 1] == '/',
        forall|i: int| seg_start(s, end) <= i < end ==> s[i] != '/',
    decreases end,
{
    if end > 0 && s[end - 1] != '/' {
        lemma_seg_start(s, end - 1);
    }
}

/// The file name of the first `end` characters of `s`: the last component,
/// where it is an ordinary name.
pub open spec fn name_in(s: Seq<char>, end: int) -> Option<Seq<char>>
    decreases end,
{
    if end <= 0 {
        None
    } else {
        let b = seg_start(s, end);
        let c = s.subrange(b, end);
        if c.len() == 0 || c == seq!['.'] {
            if b <= 0 || b > end {
                None
            } else {
                name_in(s, b - 1)
            }
        } else if c == seq!['.', '.'] {
            None
        } else {
            Some(c)
        }
    }
}

/// `Path::file_name` of the path, as text.
pub open spec fn file_name_of(path: Seq<char>) -> Option<Seq<char>> {
    name_in(path, path.len() as int)
}

/// The position of the last `.` among the first `end` characters, or -1.
pub open spec fn last_dot(s: Seq<char>, end: int) -> int
    decreases end,
{
    if end <= 0 {
        -1
    } else if s[end - 1] == '.' {
        end - 1
    } else {
        last_dot(s, end - 1)
    }
}

/// The stem of a file name: the name up to its last `.`, unless that `.`
/// is its first character or there is none.
pub open spec fn stem_of_name(n: Seq<char>) -> Seq<char> {
    let d = last_dot(n, n.len() as int);
    if d <= 0 {
        n
    } else {
        n.subrange(0, d)
    }
}

/// `Path::file_stem` of the path, as text.
pub open spec fn file_stem_of(path: Seq<char>) -> Option<Seq<char>> {
    match file_name_of(path) {
        Some(n) => Some(stem_of_name(n)),
        None => None,
    }
}

proof fn lemma_last_dot(s: Seq<char>, end: int)
    requires
        0 <= end <= s.len(),
    ensures
        -1 <= last_dot(s, end) < end,
        last_dot(s, end) >= 0 ==> s[last_dot(s, end)] == '.',
    decreases end,
{
    if end > 0 && s[end - 1] != '.' {
        lemma_last_dot(s, end - 1);
    }
}

/// Where the component ending at `end` begins.
fn segment_start(s: &str, end: usize) -> (b: usize)
    requires
        end <= s@.len(),
    ensures
        b as int == seg_start(s@, end as int),
{
    let mut b = end;
    loop
        invariant
            b <= end <= s@.len(),
            seg_start(s@, b as int) == seg_start(s@, end as int),
        decreases b,
    {
        if b == 0 {
            return b;
        }
        if s.get_char(b - 1) == '/' {
            return b;
        }
        b = b - 1;
    }
}

/// The file name of `path`: its last component, where that is an ordinary
/// name, as `std::path::Path::file_name` gives it on Unix.
pub fn file_name(path: &str) -> (r: Option<String>)
    ensures
        match r {
            Some(name) => file_name_of(path@) == Some(name@),
            None => file_name_of(path@) is None,
        },
{
    let mut end = path.unicode_len();
    loop
        invariant
            end <= path@.len(),
            name_in(path@, end as int) == file_name_of(path@),
        decreases end,
    {
        if end == 0 {
            return None;
        }
        let b = segment_start(path, end);
        proof {
            lemma_seg_start(path@, end as int);
        }
        let ghost c = path@.subrange(b as int, end as int);
        let len = end - b;
        if len == 0 || (len == 1 && path.get_char(b) == '.') {
            proof {
                if len == 1 {
                    assert(c =~= seq!['.']);
                }
            }
            if b == 0 {
                return None;
            }
            end = b - 1;
        } else if len == 2 && path.get_char(b) == '.' && path.get_char(b + 1) == '.' {
            assert(c =~= seq!['.', '.']);
            return None;
        } else {
            assert(c.len() != 0);
            assert(c != seq!['.']) by {
                if c == seq!['.'] {
                    assert(c.len() == 1 && c[0] == '.');
                }
            }
            assert(c != seq!['.', '.']) by {
                if c == seq!['.', '.'] {
                    assert(c.len() == 2 && c[0] == '.' && c[1] == '.');
                }
            }
            let name = String::from_str(path.substring_char(b, end));
            return Some(name);
        }
    }
}

/// The stem of the file name of `path` (the name without its last
/// extension), as `std::path::Path::file_stem` gives it on Unix.
pub fn file_stem(path: &str) -> (r: Option<String>)
    ensures
        match r {
            Some(stem) => file_stem_of(path@) == Some(stem@),
            None => file_stem_of(path@) is None,
        },
{
    let name = match file_name(path) {
        Some(name) => name,
        None => return None,
    };
    let n = name.as_str().unicode_len();
    let mut d = n;
    while d > 0 && name.as_str().get_char(d - 1) != '.'
        invariant
            d <= n == name@.len(),
            last_dot(name@, d as int) == last_dot(name@, n as int),
        decreases d,
    {
        d = d - 1;
    }
    if d <= 1 {
        Some(name)
    } else {
        Some(String::from_str(name.as_str().substring_char(0, d - 1)))
    }
}

} // verus!
