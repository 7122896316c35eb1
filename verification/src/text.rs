//! Character-level text handling used by the diagnostic and reporting logic:
//! whitespace trimming, line splitting, substring search, ASCII case folding
//! and joining, each stated over `Seq<char>`.
use vstd::prelude::*;

verus! {

// ---------------------------------------------------------------------------
// Specifications
// ---------------------------------------------------------------------------

/// The Unicode `White_Space` property, which `char::is_whitespace` and
/// `str::trim` go by.
pub open spec fn is_white_space(c: char) -> bool {
    let n = c as u32;
    ||| 0x9 <= n <= 0xd
    ||| n == 0x20
    ||| n == 0x85
    ||| n == 0xa0
    ||| n == 0x1680
    ||| 0x2000 <= n <= 0x200a
    ||| n == 0x2028
    ||| n == 0x2029
    ||| n == 0x202f
    ||| n == 0x205f
    ||| n == 0x3000
}

/// `s` without its leading white space.
pub open spec fn trim_start(s: Seq<char>) -> Seq<char>
    decreases s.len(),
{
    if s.len() > 0 && is_white_space(s[0]) {
        trim_start(s.drop_first())
    } else {
        s
    }
}

/// `s` without its trailing white space.
pub open spec fn trim_end(s: Seq<char>) -> Seq<char>
    decreases s.len(),
{
    if s.len() > 0 && is_white_space(s.last()) {
        trim_end(s.drop_last())
    } else {
        s
    }
}

/// `s` without leading and trailing white space (`str::trim`).
pub open spec fn trim(s: Seq<char>) -> Seq<char> {
    trim_end(trim_start(s))
}

/// `p` is a prefix of `s`.
pub open spec fn starts_with(s: Seq<char>, p: Seq<char>) -> bool {
    p.len() <= s.len() && s.subrange(0, p.len() as int) == p
}

/// `p` occurs in `s` at position `i`.
pub open spec fn occurs_at(s: Seq<char>, p: Seq<char>, i: int) -> bool {
    0 <= i && i + p.len() <= s.len() && s.subrange(i, i + p.len()) == p
}

/// `p` occurs somewhere in `s` (`str::contains`).
pub open spec fn contains(s: Seq<char>, p: Seq<char>) -> bool {
    exists|i: int| occurs_at(s, p, i)
}

/// ASCII upper-case letters are mapped to lower case, every other character
/// is kept.
pub open spec fn ascii_lower(c: char) -> char {
    if 'A' <= c <= 'Z' {
        ((c as u32) + 32) as char
    } else {
        c
    }
}

/// `str::to_ascii_lowercase`.
pub open spec fn to_ascii_lowercase(s: Seq<char>) -> Seq<char> {
    Seq::new(s.len(), |i: int| ascii_lower(s[i]))
}

/// Index of the first line feed in `s`, or `s.len()` when there is none.
pub open spec fn newline_pos(s: Seq<char>) -> int
    decreases s.len(),
{
    if s.len() == 0 {
        0
    } else if s[0] == '\n' {
        0
    } else {
        1 + newline_pos(s.drop_first())
    }
}

/// The first item that `str::lines` yields for a non-empty `s`: everything
/// before the first line feed, without a carriage return that directly
/// precedes it.
pub open spec fn first_line(s: Seq<char>) -> Seq<char> {
    let i = newline_pos(s);
    if i < s.len() && i > 0 && s[i - 1] == '\r' {
        s.take(i - 1)
    } else {
        s.take(i)
    }
}

/// The first line of `s` that is not blank, trimmed
/// (`s.lines().map(str::trim).find(|l| !l.is_empty())`).
pub open spec fn first_nonblank_line(s: Seq<char>) -> Option<Seq<char>>
    decreases s.len(),
{
    if s.len() == 0 {
        None
    } else {
        let i = newline_pos(s);
        proof {
            lemma_newline_pos_bounds(s);
        }
        let line = trim(s.take(i));
        if line.len() > 0 {
            Some(line)
        } else if i < s.len() {
            first_nonblank_line(s.skip(i + 1))
        } else {
            None
        }
    }
}

/// The parts joined with `sep` between each two of them (`[..].join(sep)`).
pub open spec fn join(parts: Seq<Seq<char>>, sep: Seq<char>) -> Seq<char>
    decreases parts.len(),
{
    if parts.len() == 0 {
        Seq::empty()
    } else if parts.len() == 1 {
        parts[0]
    } else {
        join(parts.drop_last(), sep) + sep + parts.last()
    }
}

/// The views of a sequence of string slices.
pub open spec fn views(parts: Seq<&str>) -> Seq<Seq<char>> {
    parts.map_values(|p: &str| p@)
}

// ---------------------------------------------------------------------------
// Lemmas
// ---------------------------------------------------------------------------

pub proof fn lemma_newline_pos_bounds(s: Seq<char>)
    ensures
        0 <= newline_pos(s) <= s.len(),
        newline_pos(s) < s.len() ==> s[newline_pos(s)] == '\n',
        forall|k: int| 0 <= k < newline_pos(s) ==> s[k] != '\n',
    decreases s.len(),
{
    if s.len() > 0 && s[0] != '\n' {
        lemma_newline_pos_bounds(s.drop_first());
        assert forall|k: int| 0 <= k < newline_pos(s) implies s[k] != '\n' by {
            if k > 0 {
                assert(s[k] == s.drop_first()[k - 1]);
            }
        }
    }
}

pub proof fn lemma_newline_pos_unique(s: Seq<char>, i: int)
    requires
        0 <= i <= s.len(),
        i < s.len() ==> s[i] == '\n',
        forall|k: int| 0 <= k < i ==> s[k] != '\n',
    ensures
        newline_pos(s) == i,
    decreases s.len(),
{
    if s.len() > 0 && s[0] != '\n' {
        lemma_newline_pos_unique(s.drop_first(), i - 1);
    }
}

/// The trimmed text of a blank string is empty and the trimmed text of
/// anything else starts and ends with a character that is not white space.
pub proof fn lemma_trim_start_shape(s: Seq<char>)
    ensures
        trim_start(s).len() <= s.len(),
        trim_start(s) == s.subrange(s.len() - trim_start(s).len(), s.len() as int),
        trim_start(s).len() > 0 ==> !is_white_space(trim_start(s)[0]),
    decreases s.len(),
{
    if s.len() > 0 && is_white_space(s[0]) {
        lemma_trim_start_shape(s.drop_first());
        assert(s.drop_first().subrange(
            s.drop_first().len() - trim_start(s).len(),
            s.drop_first().len() as int,
        ) =~= s.subrange(s.len() - trim_start(s).len(), s.len() as int));
    } else {
        assert(s.subrange(0, s.len() as int) =~= s);
    }
}

// ---------------------------------------------------------------------------
// Executable operations
// ---------------------------------------------------------------------------

/// Appends one character to a string.
///
/// Calls `String::push`, whose documentation says that it appends the given
/// `char` to the end of the string; the contract states just that.
#[verifier::external_body]
pub(crate) fn push_char(s: &mut String, c: char)
    ensures
        final(s)@ == old(s)@.push(c),
{
    s.push(c);
}

/// The characters of `s`, in order.
pub fn chars_of(s: &str) -> (v: Vec<char>)
    ensures
        v@ == s@,
{
    let mut v: Vec<char> = Vec::new();
    for c in it: s.chars()
        invariant
            it.seq() == s@,
            v@ == it.seq().take(it.index() as int),
    {
        v.push(c);
    }
    v
}

/// A string made of the characters of `v`.
pub fn string_of(v: &Vec<char>) -> (s: String)
    ensures
        s@ == v@,
{
    let mut s = String::new();
    let n = v.len();
    let mut i: usize = 0;
    while i < n
        invariant
            n == v@.len(),
            i <= n,
            s@ == v@.take(i as int),
        decreases n - i,
    {
        push_char(&mut s, v[i]);
        i += 1;
        assert(s@ =~= v@.take(i as int));
    }
    assert(v@.take(n as int) =~= v@);
    s
}

/// The characters `v[from..to]`.
pub fn copy_range(v: &Vec<char>, from: usize, to: usize) -> (r: Vec<char>)
    requires
        from <= to <= v@.len(),
    ensures
        r@ == v@.subrange(from as int, to as int),
{
    let mut r: Vec<char> = Vec::new();
    let mut i = from;
    while i < to
        invariant
            from <= i <= to,
            to <= v@.len(),
            r@ == v@.subrange(from as int, i as int),
        decreases to - i,
    {
        r.push(v[i]);
        i += 1;
        assert(r@ =~= v@.subrange(from as int, i as int));
    }
    r
}

/// `char::is_whitespace`.
pub fn is_white_space_char(c: char) -> (b: bool)
    ensures
        b == is_white_space(c),
{
    let n = c as u32;
    (0x9 <= n && n <= 0xd) || n == 0x20 || n == 0x85 || n == 0xa0 || n == 0x1680 || (0x2000 <= n
        && n <= 0x200a) || n == 0x2028 || n == 0x2029 || n == 0x202f || n == 0x205f || n == 0x3000
}

/// The characters of `v` without leading and trailing white space.
pub fn trim_chars(v: &Vec<char>) -> (r: Vec<char>)
    ensures
        r@ == trim(v@),
{
    let n = v.len();
    let mut i: usize = 0;
    assert(v@.subrange(0, n as int) =~= v@);
    while i < n && is_white_space_char(v[i])
        invariant
            i <= n,
            n == v@.len(),
            trim_start(v@) == trim_start(v@.subrange(i as int, n as int)),
        decreases n - i,
    {
        assert(v@.subrange(i as int, n as int).drop_first() =~= v@.subrange(i + 1, n as int));
        i += 1;
    }
    let ghost rest = v@.subrange(i as int, n as int);
    if i < n {
        assert(rest[0] == v@[i as int]);
    }
    assert(trim_start(v@) == rest);
    let mut j: usize = n;
    while j > i && is_white_space_char(v[j - 1])
        invariant
            i <= j <= n,
            n == v@.len(),
            rest == v@.subrange(i as int, n as int),
            trim_end(rest) == trim_end(v@.subrange(i as int, j as int)),
        decreases j - i,
    {
        assert(v@.subrange(i as int, j as int).drop_last() =~= v@.subrange(i as int, j - 1));
        j -= 1;
    }
    let ghost kept = v@.subrange(i as int, j as int);
    if j > i {
        assert(kept.last() == v@[j - 1]);
    }
    assert(trim_end(rest) == kept);
    copy_range(v, i, j)
}

/// `str::trim`, as an owned string.
pub fn trim_str(s: &str) -> (r: String)
    ensures
        r@ == trim(s@),
{
    let v = chars_of(s);
    let t = trim_chars(&v);
    string_of(&t)
}

/// Whether `p` is a prefix of `s`.
pub fn starts_with_chars(s: &Vec<char>, p: &Vec<char>) -> (b: bool)
    ensures
        b == starts_with(s@, p@),
{
    if p.len() > s.len() {
        return false;
    }
    let m = p.len();
    let mut k: usize = 0;
    while k < m
        invariant
            m == p@.len(),
            m <= s@.len(),
            k <= m,
            forall|t: int| 0 <= t < k ==> s@[t] == p@[t],
        decreases m - k,
    {
        if s[k] != p[k] {
            assert(s@.subrange(0, m as int)[k as int] != p@[k as int]);
            return false;
        }
        k += 1;
    }
    assert(s@.subrange(0, m as int) =~= p@);
    true
}

/// Whether `p` occurs in `s` at position `i`.
fn occurs_at_exec(s: &Vec<char>, p: &Vec<char>, i: usize) -> (b: bool)
    requires
        i + p@.len() <= s@.len(),
    ensures
        b == occurs_at(s@, p@, i as int),
{
    let m = p.len();
    let sl = s.len();
    let mut k: usize = 0;
    while k < m
        invariant
            m == p@.len(),
            sl == s@.len(),
            i + m <= s@.len(),
            k <= m,
            forall|t: int| 0 <= t < k ==> s@[i + t] == p@[t],
        decreases m - k,
    {
        if s[i + k] != p[k] {
            assert(s@.subrange(i as int, i + m)[k as int] != p@[k as int]);
            return false;
        }
        k += 1;
    }
    assert(s@.subrange(i as int, i + m) =~= p@);
    true
}

/// Whether `p` occurs anywhere in `s`.
pub fn contains_chars(s: &Vec<char>, p: &Vec<char>) -> (b: bool)
    ensures
        b == contains(s@, p@),
{
    if p.len() > s.len() {
        return false;
    }
    let last = s.len() - p.len();
    let mut i: usize = 0;
    loop
        invariant
            i <= last,
            last == s@.len() - p@.len(),
            forall|t: int| 0 <= t < i ==> !occurs_at(s@, p@, t),
        decreases last - i,
    {
        if occurs_at_exec(s, p, i) {
            return true;
        }
        if i == last {
            assert forall|t: int| !occurs_at(s@, p@, t) by {
                if 0 <= t < i {
                }
            }
            return false;
        }
        i += 1;
    }
}

/// Whether `p` occurs anywhere in `s`.
pub fn str_contains(s: &str, p: &str) -> (b: bool)
    ensures
        b == contains(s@, p@),
{
    let sv = chars_of(s);
    let pv = chars_of(p);
    contains_chars(&sv, &pv)
}

/// Whether `p` is a prefix of `s`.
pub fn str_starts_with(s: &str, p: &str) -> (b: bool)
    ensures
        b == starts_with(s@, p@),
{
    let sv = chars_of(s);
    let pv = chars_of(p);
    starts_with_chars(&sv, &pv)
}

/// Whether the two strings hold the same characters.
pub fn same_text(a: &str, b: &str) -> (r: bool)
    ensures
        r == (a@ == b@),
{
    let av = chars_of(a);
    let bv = chars_of(b);
    if av.len() != bv.len() {
        return false;
    }
    let r = starts_with_chars(&av, &bv);
    assert(av@.subrange(0, bv@.len() as int) =~= av@);
    r
}

/// `char::to_ascii_lowercase`.
pub fn ascii_lower_char(c: char) -> (r: char)
    ensures
        r == ascii_lower(c),
{
    if 'A' <= c && c <= 'Z' {
        let b: u8 = c as u8;
        ((b + 32) as char)
    } else {
        c
    }
}

/// `str::to_ascii_lowercase`.
pub fn lowercase_ascii(s: &str) -> (r: Vec<char>)
    ensures
        r@ == to_ascii_lowercase(s@),
{
    let v = chars_of(s);
    let mut r: Vec<char> = Vec::new();
    let n = v.len();
    let mut i: usize = 0;
    while i < n
        invariant
            n == v@.len(),
            i <= n,
            r@ == to_ascii_lowercase(v@).take(i as int),
        decreases n - i,
    {
        r.push(ascii_lower_char(v[i]));
        i += 1;
        assert(r@ =~= to_ascii_lowercase(v@).take(i as int));
    }
    assert(r@ =~= to_ascii_lowercase(v@));
    r
}

/// Index of the first line feed in `v` at or after `from`, or `v.len()`.
fn find_newline(v: &Vec<char>, from: usize) -> (i: usize)
    requires
        from <= v@.len(),
    ensures
        i == from + newline_pos(v@.skip(from as int)),
{
    let n = v.len();
    let mut i = from;
    while i < n && v[i] != '\n'
        invariant
            from <= i <= n,
            n == v@.len(),
            forall|k: int| from <= k < i ==> v@[k] != '\n',
        decreases n - i,
    {
        i += 1;
    }
    proof {
        let t = v@.skip(from as int);
        lemma_newline_pos_unique(t, i - from);
    }
    i
}

/// The first item of `s.lines()` for a non-empty `s` (see [`first_line`]).
pub fn first_line_of(s: &str) -> (r: String)
    ensures
        r@ == first_line(s@),
{
    let v = chars_of(s);
    assert(v@.skip(0) =~= v@);
    let i = find_newline(&v, 0);
    proof {
        lemma_newline_pos_bounds(v@);
    }
    let end = if i < v.len() && i > 0 && v[i - 1] == '\r' {
        i - 1
    } else {
        i
    };
    let line = copy_range(&v, 0, end);
    assert(line@ =~= first_line(v@));
    string_of(&line)
}

/// The first line of `s` that is not blank, trimmed.
pub fn first_nonblank_line_of(s: &str) -> (r: Option<String>)
    ensures
        r matches Some(l) ==> first_nonblank_line(s@) == Some(l@),
        r is None ==> first_nonblank_line(s@) is None,
{
    let v = chars_of(s);
    let n = v.len();
    let mut start: usize = 0;
    assert(v@.skip(0) =~= v@);
    while start < n
        invariant
            start <= n,
            n == v@.len(),
            v@ == s@,
            first_nonblank_line(v@) == first_nonblank_line(v@.skip(start as int)),
        decreases n - start,
    {
        let ghost rest = v@.skip(start as int);
        let i = find_newline(&v, start);
        proof {
            lemma_newline_pos_bounds(rest);
        }
        let line = copy_range(&v, start, i);
        assert(line@ =~= rest.take(i - start));
        let t = trim_chars(&line);
        assert(rest.len() > 0);
        assert(newline_pos(rest) == i - start);
        assert(first_nonblank_line(rest) == if t@.len() > 0 {
            Some(t@)
        } else if i - start < rest.len() {
            first_nonblank_line(rest.skip(i - start + 1))
        } else {
            None::<Seq<char>>
        });
        if t.len() > 0 {
            return Some(string_of(&t));
        }
        if i == n {
            return None;
        }
        assert(rest.skip(i - start + 1) =~= v@.skip(i + 1));
        start = i + 1;
    }
    assert(v@.skip(start as int).len() == 0);
    None
}

/// The parts joined with `sep` between each two of them.
pub fn join_strs(parts: &Vec<&str>, sep: &str) -> (r: String)
    ensures
        r@ == join(views(parts@), sep@),
{
    let mut r = String::new();
    let n = parts.len();
    let mut i: usize = 0;
    while i < n
        invariant
            n == parts@.len(),
            i <= n,
            r@ == join(views(parts@.take(i as int)), sep@),
        decreases n - i,
    {
        let ghost before = views(parts@.take(i as int));
        if i > 0 {
            r.append(sep);
        }
        r.append(parts[i]);
        i += 1;
        proof {
            let after = views(parts@.take(i as int));
            assert(after.drop_last() =~= before);
            assert(after.last() == parts@[i - 1]@);
            if i == 1 {
                assert(after.len() == 1);
            }
        }
    }
    assert(parts@.take(n as int) =~= parts@);
    r
}

/// A copy of a list of string slices.
pub fn copy_strs(parts: &Vec<&'static str>) -> (r: Vec<&'static str>)
    ensures
        r@ == parts@,
{
    let mut r: Vec<&'static str> = Vec::new();
    let n = parts.len();
    let mut i: usize = 0;
    while i < n
        invariant
            n == parts@.len(),
            i <= n,
            r@ == parts@.take(i as int),
        decreases n - i,
    {
        r.push(parts[i]);
        i += 1;
        assert(r@ =~= parts@.take(i as int));
    }
    assert(parts@.take(n as int) =~= parts@);
    r
}

} // verus!
