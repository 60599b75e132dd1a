//! Plain operations on text: searching, comparing and slicing character sequences.
use vstd::prelude::*;

verus! {

/// `t` occurs in `s` starting at position `i`.
pub open spec fn occurs_at(s: Seq<char>, t: Seq<char>, i: int) -> bool {
    0 <= i && i + t.len() <= s.len() && s.subrange(i, i + t.len()) == t
}

/// `t` occurs somewhere in `s`.
pub open spec fn has_infix(s: Seq<char>, t: Seq<char>) -> bool {
    exists|i: int| occurs_at(s, t, i)
}

/// `s` begins with `t`.
pub open spec fn has_prefix(s: Seq<char>, t: Seq<char>) -> bool {
    occurs_at(s, t, 0)
}

/// `s` ends with `t`.
pub open spec fn has_suffix(s: Seq<char>, t: Seq<char>) -> bool {
    t.len() <= s.len() && occurs_at(s, t, s.len() - t.len())
}

/// Lexicographic order of character sequences, as -1, 0 or 1: the first
/// differing character decides, and a proper prefix comes first.
pub open spec fn lex_order(a: Seq<char>, b: Seq<char>) -> int
    decreases a.len(),
{
    if a.len() == 0 {
        if b.len() == 0 { 0 } else { -1 }
    } else if b.len() == 0 {
        1
    } else if (a[0] as int) < (b[0] as int) {
        -1
    } else if (a[0] as int) > (b[0] as int) {
        1
    } else {
        lex_order(a.drop_first(), b.drop_first())
    }
}

/// The lexicographic order is antisymmetric and its zero is equality.
pub proof fn lemma_lex_order_antisymmetric(a: Seq<char>, b: Seq<char>)
    ensures
        lex_order(a, b) == -lex_order(b, a),
        lex_order(a, b) == 0 <==> a == b,
        -1 <= lex_order(a, b) <= 1,
    decreases a.len(),
{
    if a.len() == 0 && b.len() == 0 {
        assert(a =~= b);
    }
    if a.len() > 0 && b.len() > 0 {
        lemma_lex_order_antisymmetric(a.drop_first(), b.drop_first());
        if (a[0] as int) == (b[0] as int) {
            assert(a[0] == b[0]);
        }
        if a[0] == b[0] && a.drop_first() == b.drop_first() {
            assert(a == seq![a[0]] + a.drop_first());
            assert(b == seq![b[0]] + b.drop_first());
        }
        if a == b {
            assert(a.drop_first() == b.drop_first());
        }
    }
}

/// Whether `t` occurs in `s` at character position `i`.
pub fn matches_at(s: &str, t: &str, i: usize) -> (r: bool)
    requires
        i <= s@.len(),
    ensures
        r == occurs_at(s@, t@, i as int),
{
    let n = s.unicode_len();
    let m = t.unicode_len();
    if m > n - i {
        return false;
    }
    let mut j: usize = 0;
    while j < m
        invariant
            n == s@.len(),
            m == t@.len(),
            i + m <= n,
            0 <= j <= m,
            forall|k: int| 0 <= k < j ==> s@[i + k] == t@[k],
        decreases m - j,
    {
        if s.get_char(i + j) != t.get_char(j) {
            assert(s@.subrange(i as int, i + m)[j as int] != t@[j as int]);
            return false;
        }
        j = j + 1;
    }
    assert(s@.subrange(i as int, i + m) =~= t@);
    true
}

/// Whether `t` occurs somewhere in `s`.
pub fn contains(s: &str, t: &str) -> (r: bool)
    ensures
        r == has_infix(s@, t@),
{
    let n = s.unicode_len();
    let mut i: usize = 0;
    while i <= n
        invariant
            n == s@.len(),
            0 <= i <= n + 1,
            forall|k: int| 0 <= k < i ==> !occurs_at(s@, t@, k),
        decreases n + 1 - i,
    {
        if matches_at(s, t, i) {
            return true;
        }
        if i == n {
            assert forall|k: int| !occurs_at(s@, t@, k) by {
                if 0 <= k && k > n {
                    assert(!(k + t@.len() <= s@.len()));
                }
            }
            return false;
        }
        i = i + 1;
    }
    false
}

/// Whether `s` begins with `t`.
pub fn starts_with(s: &str, t: &str) -> (r: bool)
    ensures
        r == has_prefix(s@, t@),
{
    matches_at(s, t, 0)
}

/// Whether `s` ends with `t`.
pub fn ends_with(s: &str, t: &str) -> (r: bool)
    ensures
        r == has_suffix(s@, t@),
{
    let n = s.unicode_len();
    let m = t.unicode_len();
    if m > n {
        return false;
    }
    matches_at(s, t, n - m)
}

/// Lexicographic comparison of two texts, as -1, 0 or 1; the order of `String`.
pub fn compare_text(a: &str, b: &str) -> (r: i8)
    ensures
        r as int == lex_order(a@, b@),
{
    let n = a.unicode_len();
    let m = b.unicode_len();
    let mut i: usize = 0;
    assert(a@.skip(0) =~= a@);
    assert(b@.skip(0) =~= b@);
    while i < n && i < m
        invariant
            n == a@.len(),
            m == b@.len(),
            0 <= i <= n,
            i <= m,
            lex_order(a@, b@) == lex_order(a@.skip(i as int), b@.skip(i as int)),
        decreases n - i,
    {
        let x = a.get_char(i);
        let y = b.get_char(i);
        assert(a@.skip(i as int).drop_first() =~= a@.skip(i + 1));
        assert(b@.skip(i as int).drop_first() =~= b@.skip(i + 1));
        if (x as u32) < (y as u32) {
            return -1;
        } else if (x as u32) > (y as u32) {
            return 1;
        }
        i = i + 1;
    }
    if i == n && i == m {
        0
    } else if i == n {
        -1
    } else {
        1
    }
}

/// Whether two texts are the same.
pub fn same_text(a: &str, b: &str) -> (r: bool)
    ensures
        r == (a@ == b@),
{
    let o = compare_text(a, b);
    proof {
        lemma_lex_order_antisymmetric(a@, b@);
    }
    o == 0
}

/// A copy of `s` as an owned text.
pub fn to_text(s: &str) -> (r: String)
    ensures
        r@ == s@,
{
    String::from_str(s)
}

/// The characters of `s` from position `from` up to, not including, `to`.
pub fn slice(s: &str, from: usize, to: usize) -> (r: String)
    requires
        from <= to <= s@.len(),
    ensures
        r@ == s@.subrange(from as int, to as int),
{
    String::from_str(s.substring_char(from, to))
}

} // verus!

verus! {

/// The characters that `char::is_whitespace` accepts: those with the
/// Unicode `White_Space` property.
pub open spec fn is_white(c: char) -> bool {
    let n = c as u32;
    ||| 0x09 <= n <= 0x0d
    ||| n == 0x20
    ||| n == 0x85
    ||| n == 0xa0
    ||| n == 0x1680
    ||| 0x2000 <= n <= 0x200a
    ||| n == 0x2028
    ||| n == 0x2029
    ||| n == 0x202f
    ||| n == 0x205f
    ||| n == 0x3000
}

/// Whether `c` is white space, as `char::is_whitespace` tells.
pub fn white(c: char) -> (r: bool)
    ensures
        r == is_white(c),
{
    let n = c as u32;
    (0x09 <= n && n <= 0x0d) || n == 0x20 || n == 0x85 || n == 0xa0 || n == 0x1680 || (0x2000 <= n
        && n <= 0x200a) || n == 0x2028 || n == 0x2029 || n == 0x202f || n == 0x205f || n == 0x3000
}

/// The position where the word that goes on at `k` ends: the first white
/// space from `k` on, or the end of `s`.
pub open spec fn word_end(s: Seq<char>, k: int) -> int
    decreases s.len() - k,
{
    if k < 0 || k >= s.len() || is_white(s[k]) {
        k
    } else {
        word_end(s, k + 1)
    }
}

/// A word ends at or after where it goes on, and within the text.
pub proof fn lemma_word_end(s: Seq<char>, k: int)
    requires
        0 <= k <= s.len(),
    ensures
        k <= word_end(s, k) <= s.len(),
        k < s.len() && !is_white(s[k]) ==> k < word_end(s, k),
        forall|j: int| k <= j < word_end(s, k) ==> !is_white(#[trigger] s[j]),
        word_end(s, k) < s.len() ==> is_white(s[word_end(s, k)]),
    decreases s.len() - k,
{
    if k < s.len() && !is_white(s[k]) {
        lemma_word_end(s, k + 1);
    }
}

/// The `n`-th word (counting from 0) of `s` from position `i` on, words being
/// the runs of characters that are not white space, as `split_whitespace`
/// gives them.
pub open spec fn nth_word_from(s: Seq<char>, i: int, n: nat) -> Option<Seq<char>>
    decreases s.len() - i,
{
    if i < 0 || i >= s.len() {
        None
    } else if is_white(s[i]) {
        nth_word_from(s, i + 1, n)
    } else {
        let e = word_end(s, i);
        proof {
            lemma_word_end(s, i);
        }
        if n == 0 {
            Some(s.subrange(i, e))
        } else {
            nth_word_from(s, e, (n - 1) as nat)
        }
    }
}

/// The `n`-th word of `s` (counting from 0), as `split_whitespace().nth(n)` gives it.
pub fn nth_word(s: &str, n: usize) -> (r: Option<String>)
    ensures
        match r {
            Some(w) => nth_word_from(s@, 0, n as nat) == Some(w@),
            None => nth_word_from(s@, 0, n as nat) is None,
        },
{
    let len = s.unicode_len();
    let mut i: usize = 0;
    let mut k: usize = n;
    while i < len
        invariant
            len == s@.len(),
            0 <= i <= len,
            nth_word_from(s@, 0, n as nat) == nth_word_from(s@, i as int, k as nat),
        decreases len - i,
    {
        if white(s.get_char(i)) {
            i = i + 1;
        } else {
            proof {
                lemma_word_end(s@, i as int);
            }
            let mut e = i + 1;
            while e < len
                invariant
                    len == s@.len(),
                    i < e <= len,
                    word_end(s@, i as int) == word_end(s@, e as int),
                ensures
                    i < e <= len,
                    word_end(s@, i as int) == e,
                decreases len - e,
            {
                if white(s.get_char(e)) {
                    break;
                }
                e = e + 1;
            }
            if k == 0 {
                return Some(slice(s, i, e));
            }
            k = k - 1;
            i = e;
        }
    }
    None
}

/// The first position from `i` on where `t` occurs in `s`, or -1.
pub open spec fn first_occurrence(s: Seq<char>, t: Seq<char>, i: int) -> int
    decreases s.len() + 1 - i,
{
    if i < 0 || i > s.len() || i + t.len() > s.len() {
        -1
    } else if occurs_at(s, t, i) {
        i
    } else {
        first_occurrence(s, t, i + 1)
    }
}

/// Where the first occurrence found from `i` on lies.
pub proof fn lemma_first_occurrence(s: Seq<char>, t: Seq<char>, i: int)
    requires
        0 <= i,
    ensures
        first_occurrence(s, t, i) == -1 || (i <= first_occurrence(s, t, i) && first_occurrence(
            s,
            t,
            i,
        ) + t.len() <= s.len() && occurs_at(s, t, first_occurrence(s, t, i))),
    decreases s.len() + 1 - i,
{
    if i + t.len() <= s.len() && !occurs_at(s, t, i) {
        lemma_first_occurrence(s, t, i + 1);
    }
}

/// The parts of `s` between the occurrences of the separator `t`, as
/// `str::split` gives them.
pub open spec fn pieces(s: Seq<char>, t: Seq<char>) -> Seq<Seq<char>>
    decreases s.len(),
{
    let k = first_occurrence(s, t, 0);
    if t.len() == 0 || k < 0 {
        seq![s]
    } else {
        proof {
            lemma_first_occurrence(s, t, 0);
        }
        seq![s.subrange(0, k)] + pieces(s.subrange(k + t.len(), s.len() as int), t)
    }
}

/// The parts of `s` between the occurrences of `t`, an empty last part
/// left out, as `str::split_terminator` gives them.
pub open spec fn terminated_pieces(s: Seq<char>, t: Seq<char>) -> Seq<Seq<char>> {
    let p = pieces(s, t);
    if p.last().len() == 0 {
        p.drop_last()
    } else {
        p
    }
}

/// The texts of a list of texts.
pub open spec fn texts(v: Seq<String>) -> Seq<Seq<char>> {
    v.map_values(|x: String| x@)
}

/// The parts of `s` between the occurrences of the separator `t`, an empty
/// last part left out, as `str::split_terminator` gives them. The
/// separator is not empty.
pub fn split_terminator(s: &str, t: &str) -> (r: Vec<String>)
    requires
        t@.len() > 0,
    ensures
        texts(r@) == terminated_pieces(s@, t@),
{
    let n = s.unicode_len();
    let m = t.unicode_len();
    let mut parts: Vec<String> = Vec::new();
    let mut start: usize = 0;
    let mut i: usize = 0;
    assert(s@.subrange(0, n as int) =~= s@);
    while m <= n - i
        invariant
            n == s@.len(),
            m == t@.len(),
            m > 0,
            0 <= start <= i <= n,
            texts(parts@) + pieces(s@.subrange(start as int, n as int), t@) == pieces(s@, t@),
            first_occurrence(s@.subrange(start as int, n as int), t@, 0) == first_occurrence(
                s@.subrange(start as int, n as int),
                t@,
                i - start,
            ),
        decreases n - i,
    {
        let ghost rest = s@.subrange(start as int, n as int);
        assert(rest.subrange(i - start, i - start + m) =~= s@.subrange(i as int, i + m));
        if matches_at(s, t, i) {
            let piece = slice(s, start, i);
            assert(piece@ =~= rest.subrange(0, i - start));
            assert(rest.subrange(i - start + m, rest.len() as int) =~= s@.subrange(
                i + m,
                n as int,
            ));
            assert(pieces(rest, t@) == seq![rest.subrange(0, i - start)] + pieces(
                rest.subrange(i - start + m, rest.len() as int),
                t@,
            ));
            let ghost before = texts(parts@);
            parts.push(piece);
            assert(texts(parts@) =~= before.push(piece@));
            assert(texts(parts@) + pieces(s@.subrange(i + m, n as int), t@) =~= before + pieces(
                rest,
                t@,
            ));
            start = i + m;
            i = start;
            assert(first_occurrence(s@.subrange(start as int, n as int), t@, 0)
                == first_occurrence(s@.subrange(start as int, n as int), t@, i - start));
        } else {
            i = i + 1;
        }
    }
    let ghost rest = s@.subrange(start as int, n as int);
    assert(first_occurrence(rest, t@, i - start) == -1);
    assert(pieces(rest, t@) == seq![rest]);
    let last = slice(s, start, n);
    let ghost before = texts(parts@);
    parts.push(last);
    assert(texts(parts@) =~= before.push(last@));
    assert(texts(parts@) =~= pieces(s@, t@));
    if start == n {
        let ghost full = texts(parts@);
        parts.pop();
        assert(texts(parts@) =~= full.drop_last());
    }
    parts
}

/// The text with every `c` taken out, as `str::replace` of `c` by nothing gives it.
pub open spec fn without_char(s: Seq<char>, c: char) -> Seq<char>
    decreases s.len(),
{
    if s.len() == 0 {
        s
    } else if s.last() == c {
        without_char(s.drop_last(), c)
    } else {
        without_char(s.drop_last(), c).push(s.last())
    }
}

/// How many times `c` occurs in the text.
pub open spec fn count_char(s: Seq<char>, c: char) -> nat
    decreases s.len(),
{
    if s.len() == 0 {
        0
    } else if s.last() == c {
        count_char(s.drop_last(), c) + 1
    } else {
        count_char(s.drop_last(), c)
    }
}

/// The text with every `c` taken out.
pub fn remove_char(s: &str, c: char) -> (r: String)
    ensures
        r@ == without_char(s@, c),
{
    let n = s.unicode_len();
    let mut r = String::new();
    let mut i: usize = 0;
    assert(s@.take(0) =~= Seq::<char>::empty());
    while i < n
        invariant
            n == s@.len(),
            0 <= i <= n,
            r@ == without_char(s@.take(i as int), c),
        decreases n - i,
    {
        assert(s@.take(i + 1).drop_last() =~= s@.take(i as int));
        if s.get_char(i) != c {
            let piece = s.substring_char(i, i + 1);
            r.append(piece);
            assert(piece@ =~= seq![s@[i as int]]);
        }
        i = i + 1;
    }
    assert(s@.take(n as int) =~= s@);
    r
}

/// How many times `c` occurs in the text.
pub fn count_of(s: &str, c: char) -> (r: usize)
    ensures
        r == count_char(s@, c),
{
    let n = s.unicode_len();
    let mut k: usize = 0;
    let mut i: usize = 0;
    assert(s@.take(0) =~= Seq::<char>::empty());
    while i < n
        invariant
            n == s@.len(),
            0 <= i <= n,
            k == count_char(s@.take(i as int), c),
            k <= i,
        decreases n - i,
    {
        assert(s@.take(i + 1).drop_last() =~= s@.take(i as int));
        if s.get_char(i) == c {
            k = k + 1;
        }
        i = i + 1;
    }
    assert(s@.take(n as int) =~= s@);
    k
}

/// The decimal digit of `d`, below ten.
pub open spec fn digit_char(d: nat) -> char {
    (('0' as nat) + d) as char
}

/// The decimal numeral of `n`, without leading zeros.
pub open spec fn decimal_spec(n: nat) -> Seq<char>
    decreases n,
{
    if n < 10 {
        seq![digit_char(n)]
    } else {
        decimal_spec(n / 10).push(digit_char(n % 10))
    }
}

/// The numeral of a decimal digit.
fn digit_text(d: usize) -> (r: &'static str)
    requires
        d < 10,
    ensures
        r@ == seq![digit_char(d as nat)],
{
    proof {
        reveal_strlit("0");
        reveal_strlit("1");
        reveal_strlit("2");
        reveal_strlit("3");
        reveal_strlit("4");
        reveal_strlit("5");
        reveal_strlit("6");
        reveal_strlit("7");
        reveal_strlit("8");
        reveal_strlit("9");
    }
    match d {
        0 => "0",
        1 => "1",
        2 => "2",
        3 => "3",
        4 => "4",
        5 => "5",
        6 => "6",
        7 => "7",
        8 => "8",
        _ => "9",
    }
}

/// The decimal numeral of `n`, as `to_string` writes it.
pub fn decimal(n: usize) -> (r: String)
    ensures
        r@ == decimal_spec(n as nat),
    decreases n,
{
    if n < 10 {
        String::from_str(digit_text(n))
    } else {
        decimal(n / 10).concat(digit_text(n % 10))
    }
}

/// The text with every repetition of `t` at its end taken away, as
/// `str::trim_end_matches` gives it.
pub open spec fn trimmed_end(s: Seq<char>, t: Seq<char>) -> Seq<char>
    decreases s.len(),
{
    if t.len() > 0 && has_suffix(s, t) {
        trimmed_end(s.subrange(0, s.len() - t.len()), t)
    } else {
        s
    }
}

/// The text with every repetition of `t` at its end taken away.
pub fn trim_end_matches(s: &str, t: &str) -> (r: String)
    ensures
        r@ == trimmed_end(s@, t@),
{
    let m = t.unicode_len();
    let mut end = s.unicode_len();
    assert(s@.subrange(0, end as int) =~= s@);
    if m == 0 {
        return String::from_str(s);
    }
    while end >= m
        invariant
            m == t@.len(),
            m > 0,
            0 <= end <= s@.len(),
            trimmed_end(s@, t@) == trimmed_end(s@.subrange(0, end as int), t@),
        ensures
            0 <= end <= s@.len(),
            trimmed_end(s@, t@) == s@.subrange(0, end as int),
        decreases end,
    {
        let ghost cur = s@.subrange(0, end as int);
        let at = matches_at(s, t, end - m);
        assert(cur.subrange(end - m, end as int) =~= s@.subrange(end - m, end as int));
        if !at {
            assert(!has_suffix(cur, t@));
            break;
        }
        assert(cur.subrange(0, end - m) =~= s@.subrange(0, end - m));
        end = end - m;
        if end < m {
            assert(!has_suffix(s@.subrange(0, end as int), t@));
        }
    }
    slice(s, 0, end)
}

/// The text after the prefix `t`, as `str::strip_prefix` gives it.
pub fn strip_prefix(s: &str, t: &str) -> (r: Option<String>)
    ensures
        match r {
            Some(x) => has_prefix(s@, t@) && x@ == s@.subrange(t@.len() as int, s@.len() as int),
            None => !has_prefix(s@, t@),
        },
{
    if starts_with(s, t) {
        Some(slice(s, t.unicode_len(), s.unicode_len()))
    } else {
        None
    }
}

/// The text before the suffix `t`, as `str::strip_suffix` gives it.
pub fn strip_suffix(s: &str, t: &str) -> (r: Option<String>)
    ensures
        match r {
            Some(x) => has_suffix(s@, t@) && x@ == s@.subrange(0, s@.len() - t@.len()),
            None => !has_suffix(s@, t@),
        },
{
    if ends_with(s, t) {
        Some(slice(s, 0, s.unicode_len() - t.unicode_len()))
    } else {
        None
    }
}

/// The position of the first occurrence of `t` in `s`, as `str::find`
/// gives it in characters.
pub fn find_text(s: &str, t: &str) -> (r: Option<usize>)
    ensures
        match r {
            Some(k) => first_occurrence(s@, t@, 0) == k as int,
            None => first_occurrence(s@, t@, 0) == -1,
        },
{
    let n = s.unicode_len();
    let m = t.unicode_len();
    if m > n {
        return None;
    }
    let mut i: usize = 0;
    loop
        invariant
            n == s@.len(),
            m == t@.len(),
            m <= n,
            0 <= i <= n - m,
            first_occurrence(s@, t@, 0) == first_occurrence(s@, t@, i as int),
        decreases n - m - i,
    {
        if matches_at(s, t, i) {
            return Some(i);
        }
        if i == n - m {
            assert(first_occurrence(s@, t@, i + 1) == -1);
            return None;
        }
        i = i + 1;
    }
}

/// The text with each occurrence of `from` (taken from the left, without
/// overlaps) replaced by `to`, as `str::replace` gives it.
pub open spec fn replaced(s: Seq<char>, from: Seq<char>, to: Seq<char>) -> Seq<char>
    decreases s.len(),
{
    let k = first_occurrence(s, from, 0);
    if from.len() == 0 || k < 0 {
        s
    } else {
        proof {
            lemma_first_occurrence(s, from, 0);
        }
        s.subrange(0, k) + to + replaced(s.subrange(k + from.len(), s.len() as int), from, to)
    }
}

/// The text with each occurrence of `from` replaced by `to`. The text
/// replaced is not empty.
pub fn replace_text(s: &str, from: &str, to: &str) -> (r: String)
    requires
        from@.len() > 0,
    ensures
        r@ == replaced(s@, from@, to@),
    decreases s@.len(),
{
    match find_text(s, from) {
        Some(k) => {
            proof {
                lemma_first_occurrence(s@, from@, 0);
            }
            let m = from.unicode_len();
            let n = s.unicode_len();
            let rest = slice(s, k + m, n);
            let tail = replace_text(rest.as_str(), from, to);
            slice(s, 0, k).concat(to).concat(tail.as_str())
        },
        None => String::from_str(s),
    }
}

} // verus!
