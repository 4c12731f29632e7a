//! Character-level string helpers shared by the parsers and formatters.
//!
//! Every exec helper works on a `&[char]` and is specified over `Seq<char>`,
//! so the contracts of the rest of the crate can speak of character sequences.

use vstd::prelude::*;

verus! {

/// Pushing one character onto a `String` appends it to the character view.
pub assume_specification[ String::push ](s: &mut String, ch: char)
    ensures
        final(s)@ == old(s)@.push(ch),
;

/// A class of characters that the trimming helpers strip.
#[derive(Clone, Copy, Debug, PartialEq, Eq, Structural)]
pub enum CharClass {
    /// Unicode `White_Space` (what `char::is_whitespace` accepts).
    Whitespace,
    /// One given character.
    Exactly(char),
}

/// Unicode `White_Space`: the characters that `str::trim` removes.
pub open spec fn is_ws(c: char) -> bool {
    let u = c as u32;
    ||| u == 0x20
    ||| (0x09 <= u && u <= 0x0d)
    ||| u == 0x85
    ||| u == 0xa0
    ||| u == 0x1680
    ||| (0x2000 <= u && u <= 0x200a)
    ||| u == 0x2028
    ||| u == 0x2029
    ||| u == 0x202f
    ||| u == 0x205f
    ||| u == 0x3000
}

/// Whether `c` belongs to `cls`.
pub open spec fn in_class(cls: CharClass, c: char) -> bool {
    match cls {
        CharClass::Whitespace => is_ws(c),
        CharClass::Exactly(d) => c == d,
    }
}

/// Number of leading characters of `s` in `cls`.
pub open spec fn lead(s: Seq<char>, cls: CharClass) -> nat
    decreases s.len(),
{
    if s.len() > 0 && in_class(cls, s[0]) {
        1 + lead(s.drop_first(), cls)
    } else {
        0
    }
}

/// Number of trailing characters of `s` in `cls`.
pub open spec fn trail(s: Seq<char>, cls: CharClass) -> nat
    decreases s.len(),
{
    if s.len() > 0 && in_class(cls, s.last()) {
        1 + trail(s.drop_last(), cls)
    } else {
        0
    }
}

/// `s` without its leading characters in `cls` (`trim_start_matches`).
pub open spec fn trim_start_by(s: Seq<char>, cls: CharClass) -> Seq<char> {
    s.skip(lead(s, cls) as int)
}

/// `s` without its trailing characters in `cls` (`trim_end_matches`).
pub open spec fn trim_end_by(s: Seq<char>, cls: CharClass) -> Seq<char> {
    s.take(s.len() - trail(s, cls))
}

/// `s` without leading and trailing characters in `cls` (`trim_matches`).
pub open spec fn trim_by(s: Seq<char>, cls: CharClass) -> Seq<char> {
    trim_end_by(trim_start_by(s, cls), cls)
}

/// `str::trim`.
pub open spec fn trim(s: Seq<char>) -> Seq<char> {
    trim_by(s, CharClass::Whitespace)
}

/// `str::starts_with`.
pub open spec fn starts_with(s: Seq<char>, p: Seq<char>) -> bool {
    p.len() <= s.len() && s.take(p.len() as int) == p
}

/// `str::ends_with`.
pub open spec fn ends_with(s: Seq<char>, p: Seq<char>) -> bool {
    p.len() <= s.len() && s.skip(s.len() - p.len()) == p
}

/// `p` occurs in `s` at position `i`.
pub open spec fn occurs_at(s: Seq<char>, p: Seq<char>, i: int) -> bool {
    0 <= i && i + p.len() <= s.len() && s.subrange(i, i + p.len()) == p
}

/// `str::contains` with a string pattern.
pub open spec fn contains(s: Seq<char>, p: Seq<char>) -> bool {
    exists|i: int| #[trigger] occurs_at(s, p, i)
}

/// `str::strip_prefix`.
pub open spec fn strip_prefix(s: Seq<char>, p: Seq<char>) -> Option<Seq<char>> {
    if starts_with(s, p) {
        Some(s.skip(p.len() as int))
    } else {
        None
    }
}

/// ASCII lower case of one character (`char::to_ascii_lowercase`).
pub open spec fn lower_char(c: char) -> char {
    if 'A' <= c && c <= 'Z' {
        ((c as u32) + 32) as char
    } else {
        c
    }
}

/// ASCII upper case of one character (`char::to_ascii_uppercase`).
pub open spec fn upper_char(c: char) -> char {
    if 'a' <= c && c <= 'z' {
        ((c as u32) - 32) as char
    } else {
        c
    }
}

/// `str::to_ascii_lowercase`.
pub open spec fn ascii_lower(s: Seq<char>) -> Seq<char> {
    Seq::new(s.len(), |i: int| lower_char(s[i]))
}

/// `str::to_ascii_uppercase`.
pub open spec fn ascii_upper(s: Seq<char>) -> Seq<char> {
    Seq::new(s.len(), |i: int| upper_char(s[i]))
}

/// `str::eq_ignore_ascii_case`.
pub open spec fn eq_ignore_case(a: Seq<char>, b: Seq<char>) -> bool {
    ascii_lower(a) == ascii_lower(b)
}

/// Index of the first occurrence of `c` in `s`, if any.
pub open spec fn first_index(s: Seq<char>, c: char) -> Option<int>
    decreases s.len(),
{
    if s.len() == 0 {
        None
    } else if s[0] == c {
        Some(0)
    } else {
        match first_index(s.drop_first(), c) {
            Some(i) => Some(i + 1),
            None => None,
        }
    }
}

/// Index of the last occurrence of `c` in `s`, if any.
pub open spec fn last_index(s: Seq<char>, c: char) -> Option<int>
    decreases s.len(),
{
    if s.len() == 0 {
        None
    } else if s.last() == c {
        Some(s.len() - 1)
    } else {
        last_index(s.drop_last(), c)
    }
}

proof fn lemma_lead_char(s: Seq<char>, cls: CharClass, i: int)
    requires
        0 <= i <= s.len(),
        forall|k: int| 0 <= k < i ==> in_class(cls, #[trigger] s[k]),
        i == s.len() || !in_class(cls, s[i]),
    ensures
        lead(s, cls) == i,
    decreases i,
{
    if i > 0 {
        assert forall|k: int| 0 <= k < i - 1 implies in_class(cls, #[trigger] s.drop_first()[k]) by {
            assert(s.drop_first()[k] == s[k + 1]);
        }
        lemma_lead_char(s.drop_first(), cls, i - 1);
    }
}

proof fn lemma_trail_char(s: Seq<char>, cls: CharClass, j: int)
    requires
        0 <= j <= s.len(),
        forall|k: int| j <= k < s.len() ==> in_class(cls, #[trigger] s[k]),
        j == 0 || !in_class(cls, s[j - 1]),
    ensures
        trail(s, cls) == s.len() - j,
    decreases s.len() - j,
{
    if j < s.len() {
        assert forall|k: int| j <= k < s.len() - 1 implies in_class(cls, #[trigger] s.drop_last()[k]) by {
            assert(s.drop_last()[k] == s[k]);
        }
        lemma_trail_char(s.drop_last(), cls, j);
    }
}

proof fn lemma_first_index(s: Seq<char>, c: char, i: int)
    requires
        0 <= i <= s.len(),
        forall|k: int| 0 <= k < i ==> #[trigger] s[k] != c,
    ensures
        i < s.len() && s[i] == c ==> first_index(s, c) == Some(i),
        i == s.len() ==> first_index(s, c) == None::<int>,
    decreases i,
{
    if i > 0 {
        assert forall|k: int| 0 <= k < i - 1 implies #[trigger] s.drop_first()[k] != c by {
            assert(s.drop_first()[k] == s[k + 1]);
        }
        lemma_first_index(s.drop_first(), c, i - 1);
    }
}

proof fn lemma_last_index(s: Seq<char>, c: char, j: int)
    requires
        0 <= j <= s.len(),
        forall|k: int| j <= k < s.len() ==> #[trigger] s[k] != c,
    ensures
        j > 0 && s[j - 1] == c ==> last_index(s, c) == Some(j - 1),
        j == 0 ==> last_index(s, c) == None::<int>,
    decreases s.len() - j,
{
    if j < s.len() {
        assert forall|k: int| j <= k < s.len() - 1 implies #[trigger] s.drop_last()[k] != c by {
            assert(s.drop_last()[k] == s[k]);
        }
        lemma_last_index(s.drop_last(), c, j);
    }
}

/// The characters of `s`, in order.
pub fn chars_of(s: &str) -> (v: Vec<char>)
    ensures
        v@ == s@,
{
    let mut v: Vec<char> = Vec::new();
    broadcast use vstd::string::group_string_axioms;
    for c in it: s.chars()
        invariant
            it.seq() == s@,
            v@ == it.seq().take(it.index() as int),
    {
        v.push(c);
    }
    v
}

/// A `String` holding exactly the characters of `cs`.
pub fn string_of(cs: &[char]) -> (s: String)
    ensures
        s@ == cs@,
{
    let mut s = String::new();
    let mut i: usize = 0;
    while i < cs.len()
        invariant
            i <= cs@.len(),
            s@ == cs@.subrange(0, i as int),
        decreases cs@.len() - i,
    {
        s.push(cs[i]);
        i = i + 1;
    }
    s
}

/// The characters `cs[lo..hi]` as a new vector.
pub fn slice_chars(cs: &[char], lo: usize, hi: usize) -> (v: Vec<char>)
    requires
        lo <= hi <= cs@.len(),
    ensures
        v@ == cs@.subrange(lo as int, hi as int),
{
    let mut v: Vec<char> = Vec::new();
    let mut i: usize = lo;
    while i < hi
        invariant
            lo <= i <= hi <= cs@.len(),
            v@ == cs@.subrange(lo as int, i as int),
        decreases hi - i,
    {
        v.push(cs[i]);
        i = i + 1;
    }
    v
}

/// Append the characters of `tail` to `v`.
pub fn extend_chars(v: &mut Vec<char>, tail: &[char])
    ensures
        final(v)@ == old(v)@ + tail@,
{
    let mut i: usize = 0;
    while i < tail.len()
        invariant
            i <= tail@.len(),
            v@ == old(v)@ + tail@.subrange(0, i as int),
        decreases tail@.len() - i,
    {
        v.push(tail[i]);
        i = i + 1;
    }
}

/// The concatenation of two character slices.
pub fn concat_chars(a: &[char], b: &[char]) -> (v: Vec<char>)
    ensures
        v@ == a@ + b@,
{
    let mut v = slice_chars(a, 0, a.len());
    extend_chars(&mut v, b);
    v
}

/// Whether `c` belongs to `cls`.
pub fn char_in_class(cls: CharClass, c: char) -> (b: bool)
    ensures
        b == in_class(cls, c),
{
    match cls {
        CharClass::Exactly(d) => c == d,
        CharClass::Whitespace => {
            let u = c as u32;
            u == 0x20 || (0x09 <= u && u <= 0x0d) || u == 0x85 || u == 0xa0 || u == 0x1680 || (
            0x2000 <= u && u <= 0x200a) || u == 0x2028 || u == 0x2029 || u == 0x202f || u
                == 0x205f || u == 0x3000
        },
    }
}

/// Position after the leading characters of `cs` in `cls`.
pub fn lead_len(cs: &[char], cls: CharClass) -> (n: usize)
    ensures
        n == lead(cs@, cls),
        n <= cs@.len(),
{
    let mut i: usize = 0;
    while i < cs.len() && char_in_class(cls, cs[i])
        invariant
            i <= cs@.len(),
            forall|k: int| 0 <= k < i ==> in_class(cls, #[trigger] cs@[k]),
        decreases cs@.len() - i,
    {
        i = i + 1;
    }
    proof {
        lemma_lead_char(cs@, cls, i as int);
    }
    i
}

/// Number of trailing characters of `cs` in `cls`.
pub fn trail_len(cs: &[char], cls: CharClass) -> (n: usize)
    ensures
        n == trail(cs@, cls),
        n <= cs@.len(),
{
    let mut j: usize = cs.len();
    while j > 0 && char_in_class(cls, cs[j - 1])
        invariant
            j <= cs@.len(),
            forall|k: int| j <= k < cs@.len() ==> in_class(cls, #[trigger] cs@[k]),
        decreases j,
    {
        j = j - 1;
    }
    proof {
        lemma_trail_char(cs@, cls, j as int);
    }
    cs.len() - j
}

/// `trim_start_matches` over a character class.
pub fn trim_start_chars(cs: &[char], cls: CharClass) -> (v: Vec<char>)
    ensures
        v@ == trim_start_by(cs@, cls),
{
    let n = lead_len(cs, cls);
    slice_chars(cs, n, cs.len())
}

/// `trim_end_matches` over a character class.
pub fn trim_end_chars(cs: &[char], cls: CharClass) -> (v: Vec<char>)
    ensures
        v@ == trim_end_by(cs@, cls),
{
    let n = trail_len(cs, cls);
    slice_chars(cs, 0, cs.len() - n)
}

/// `trim_matches` over a character class.
pub fn trim_chars(cs: &[char], cls: CharClass) -> (v: Vec<char>)
    ensures
        v@ == trim_by(cs@, cls),
{
    let front = trim_start_chars(cs, cls);
    trim_end_chars(&front, cls)
}

/// `str::trim`.
pub fn trim_ws(cs: &[char]) -> (v: Vec<char>)
    ensures
        v@ == trim(cs@),
{
    trim_chars(cs, CharClass::Whitespace)
}

/// Whether two character slices are equal.
pub fn chars_eq(a: &[char], b: &[char]) -> (r: bool)
    ensures
        r == (a@ == b@),
{
    if a.len() != b.len() {
        return false;
    }
    let mut i: usize = 0;
    while i < a.len()
        invariant
            a@.len() == b@.len(),
            i <= a@.len(),
            forall|k: int| 0 <= k < i ==> a@[k] == b@[k],
        decreases a@.len() - i,
    {
        if a[i] != b[i] {
            return false;
        }
        i = i + 1;
    }
    assert(a@ =~= b@);
    true
}

/// Whether `p` occurs in `s` at `at`.
pub fn matches_at(s: &[char], p: &[char], at: usize) -> (r: bool)
    ensures
        r == occurs_at(s@, p@, at as int),
{
    if at > s.len() || p.len() > s.len() - at {
        return false;
    }
    let n = s.len();
    let mut i: usize = 0;
    while i < p.len()
        invariant
            n == s@.len(),
            at + p@.len() <= n,
            i <= p@.len(),
            forall|k: int| 0 <= k < i ==> s@[at + k] == p@[k],
        decreases p@.len() - i,
    {
        if s[at + i] != p[i] {
            assert(s@.subrange(at as int, at + p@.len())[i as int] != p@[i as int]);
            return false;
        }
        i = i + 1;
    }
    assert(s@.subrange(at as int, at + p@.len()) =~= p@);
    true
}

/// `str::starts_with`.
pub fn chars_starts_with(s: &[char], p: &[char]) -> (r: bool)
    ensures
        r == starts_with(s@, p@),
{
    let r = matches_at(s, p, 0);
    proof {
        if p@.len() <= s@.len() {
            assert(s@.subrange(0, p@.len() as int) =~= s@.take(p@.len() as int));
        }
    }
    r
}

/// `str::ends_with`.
pub fn chars_ends_with(s: &[char], p: &[char]) -> (r: bool)
    ensures
        r == ends_with(s@, p@),
{
    if p.len() > s.len() {
        return false;
    }
    let r = matches_at(s, p, s.len() - p.len());
    proof {
        assert(s@.subrange(s@.len() - p@.len(), s@.len() as int) =~= s@.skip(
            s@.len() - p@.len(),
        ));
    }
    r
}

/// `str::contains` with a string pattern.
pub fn chars_contains(s: &[char], p: &[char]) -> (r: bool)
    ensures
        r == contains(s@, p@),
{
    let mut i: usize = 0;
    while i < s.len()
        invariant
            i <= s@.len(),
            forall|k: int| 0 <= k < i ==> !#[trigger] occurs_at(s@, p@, k),
        decreases s@.len() - i,
    {
        if matches_at(s, p, i) {
            return true;
        }
        i = i + 1;
    }
    if matches_at(s, p, i) {
        return true;
    }
    assert forall|k: int| !#[trigger] occurs_at(s@, p@, k) by {
        if 0 <= k <= i {
        }
    }
    false
}

/// `str::find` with a `char` pattern, as a character index.
pub fn find_char(s: &[char], c: char) -> (r: Option<usize>)
    ensures
        r matches Some(i) ==> first_index(s@, c) == Some(i as int) && i < s@.len() && s@[i as int]
            == c,
        r is None ==> first_index(s@, c) == None::<int>,
{
    let mut i: usize = 0;
    while i < s.len()
        invariant
            i <= s@.len(),
            forall|k: int| 0 <= k < i ==> #[trigger] s@[k] != c,
        decreases s@.len() - i,
    {
        if s[i] == c {
            proof {
                lemma_first_index(s@, c, i as int);
            }
            return Some(i);
        }
        i = i + 1;
    }
    proof {
        lemma_first_index(s@, c, i as int);
    }
    None
}

/// `str::rfind` with a `char` pattern, as a character index.
pub fn rfind_char(s: &[char], c: char) -> (r: Option<usize>)
    ensures
        r matches Some(i) ==> last_index(s@, c) == Some(i as int) && i < s@.len() && s@[i as int]
            == c,
        r is None ==> last_index(s@, c) == None::<int>,
{
    let mut j: usize = s.len();
    while j > 0
        invariant
            j <= s@.len(),
            forall|k: int| j <= k < s@.len() ==> #[trigger] s@[k] != c,
        decreases j,
    {
        if s[j - 1] == c {
            proof {
                lemma_last_index(s@, c, j as int);
            }
            return Some(j - 1);
        }
        j = j - 1;
    }
    proof {
        lemma_last_index(s@, c, 0);
    }
    None
}

/// `char::to_ascii_lowercase`.
pub fn lower_one(c: char) -> (r: char)
    ensures
        r == lower_char(c),
{
    if 'A' <= c && c <= 'Z' {
        let u = (c as u32) + 32;
        char_from_ascii_code(u)
    } else {
        c
    }
}

/// `char::to_ascii_uppercase`.
pub fn upper_one(c: char) -> (r: char)
    ensures
        r == upper_char(c),
{
    if 'a' <= c && c <= 'z' {
        let u = (c as u32) - 32;
        char_from_ascii_code(u)
    } else {
        c
    }
}

/// The ASCII character with code `u`.
fn char_from_ascii_code(u: u32) -> (c: char)
    requires
        u < 128,
    ensures
        c == u as char,
        c as u32 == u,
{
    let b: u8 = u as u8;
    b as char
}

/// `str::to_ascii_lowercase`.
pub fn to_ascii_lower(s: &[char]) -> (v: Vec<char>)
    ensures
        v@ == ascii_lower(s@),
{
    let mut v: Vec<char> = Vec::new();
    let mut i: usize = 0;
    while i < s.len()
        invariant
            i <= s@.len(),
            v@ =~= ascii_lower(s@.subrange(0, i as int)),
        decreases s@.len() - i,
    {
        v.push(lower_one(s[i]));
        i = i + 1;
    }
    assert(s@.subrange(0, s@.len() as int) =~= s@);
    v
}

/// `str::to_ascii_uppercase`.
pub fn to_ascii_upper(s: &[char]) -> (v: Vec<char>)
    ensures
        v@ == ascii_upper(s@),
{
    let mut v: Vec<char> = Vec::new();
    let mut i: usize = 0;
    while i < s.len()
        invariant
            i <= s@.len(),
            v@ =~= ascii_upper(s@.subrange(0, i as int)),
        decreases s@.len() - i,
    {
        v.push(upper_one(s[i]));
        i = i + 1;
    }
    assert(s@.subrange(0, s@.len() as int) =~= s@);
    v
}

/// `str::eq_ignore_ascii_case`.
pub fn chars_eq_ignore_case(a: &[char], b: &[char]) -> (r: bool)
    ensures
        r == eq_ignore_case(a@, b@),
{
    let la = to_ascii_lower(a);
    let lb = to_ascii_lower(b);
    chars_eq(&la, &lb)
}

/// Whether `s` equals the characters of the literal `lit`.
pub fn eq_lit(s: &[char], lit: &str) -> (r: bool)
    ensures
        r == (s@ == lit@),
{
    let l = chars_of(lit);
    chars_eq(s, &l)
}

/// Decimal digit character for a value below 10.
pub open spec fn digit_char(d: int) -> char {
    (d + 48) as char
}

/// Decimal representation of `n` without leading zeros (`Display` of an unsigned integer).
pub open spec fn decimal(n: nat) -> Seq<char>
    decreases n,
{
    if n < 10 {
        seq![digit_char(n as int)]
    } else {
        decimal(n / 10) + seq![digit_char((n % 10) as int)]
    }
}

/// Decimal representation of `n`.
pub fn decimal_chars(n: u64) -> (v: Vec<char>)
    ensures
        v@ == decimal(n as nat),
    decreases n,
{
    let d = (n % 10) as u8;
    let c = (d + 48) as char;
    if n < 10 {
        let v = vec![c];
        assert(v@ =~= seq![c]);
        v
    } else {
        let mut v = decimal_chars(n / 10);
        v.push(c);
        v
    }
}

/// Dropping a leading character of the class leaves the trimmed text unchanged.
pub proof fn lemma_trim_drop_first(s: Seq<char>, cls: CharClass)
    requires
        s.len() > 0,
        in_class(cls, s[0]),
    ensures
        trim_by(s, cls) == trim_by(s.drop_first(), cls),
{
    lemma_lead_le(s.drop_first(), cls);
    assert(lead(s, cls) == 1 + lead(s.drop_first(), cls));
    assert(s.skip(lead(s, cls) as int) =~= s.drop_first().skip(lead(s.drop_first(), cls) as int));
}

/// Leading run of `s` without its last character.
proof fn lemma_lead_drop_last(s: Seq<char>, cls: CharClass)
    requires
        s.len() > 0,
    ensures
        lead(s, cls) < s.len() ==> lead(s.drop_last(), cls) == lead(s, cls),
        lead(s, cls) == s.len() ==> lead(s.drop_last(), cls) == s.len() - 1,
    decreases s.len(),
{
    if s.len() > 1 && in_class(cls, s[0]) {
        lemma_lead_drop_last(s.drop_first(), cls);
        assert(s.drop_first().drop_last() =~= s.drop_last().drop_first());
    }
    if s.len() == 1 {
        assert(s.drop_last().len() == 0);
    }
    if s.len() > 0 {
        assert(lead(s, cls) <= s.len()) by {
            lemma_lead_le(s, cls);
        }
    }
}

/// A leading run is never longer than the text.
proof fn lemma_lead_le(s: Seq<char>, cls: CharClass)
    ensures
        lead(s, cls) <= s.len(),
    decreases s.len(),
{
    if s.len() > 0 && in_class(cls, s[0]) {
        lemma_lead_le(s.drop_first(), cls);
    }
}

/// A trailing run is never longer than the text.
proof fn lemma_trail_le(s: Seq<char>, cls: CharClass)
    ensures
        trail(s, cls) <= s.len(),
    decreases s.len(),
{
    if s.len() > 0 && in_class(cls, s.last()) {
        lemma_trail_le(s.drop_last(), cls);
    }
}

/// Dropping a trailing character of the class leaves the trimmed text unchanged.
pub proof fn lemma_trim_drop_last(s: Seq<char>, cls: CharClass)
    requires
        s.len() > 0,
        in_class(cls, s.last()),
    ensures
        trim_by(s, cls) == trim_by(s.drop_last(), cls),
{
    let l = lead(s, cls);
    lemma_lead_le(s, cls);
    lemma_lead_drop_last(s, cls);
    let d = s.drop_last();
    let t = s.skip(l as int);
    let u = d.skip(lead(d, cls) as int);
    if l == s.len() {
        assert(t.len() == 0);
        assert(u.len() == 0);
        assert(trim_by(s, cls) =~= seq![]);
        assert(trim_by(d, cls) =~= seq![]);
    } else {
        assert(t.len() > 0);
        assert(t.last() == s.last());
        assert(t.drop_last() =~= u);
        lemma_trail_le(u, cls);
        assert(trail(t, cls) == 1 + trail(u, cls));
        assert(t.take(t.len() - trail(t, cls)) =~= u.take(u.len() - trail(u, cls)));
    }
}

/// Characters of the class around `s` do not change the trimmed text.
pub proof fn lemma_trim_surrounded(w1: Seq<char>, s: Seq<char>, w2: Seq<char>, cls: CharClass)
    requires
        forall|i: int| 0 <= i < w1.len() ==> in_class(cls, #[trigger] w1[i]),
        forall|i: int| 0 <= i < w2.len() ==> in_class(cls, #[trigger] w2[i]),
    ensures
        trim_by(w1 + s + w2, cls) == trim_by(s, cls),
    decreases w1.len() + w2.len(),
{
    if w1.len() > 0 {
        let x = w1 + s + w2;
        assert(x[0] == w1[0]);
        lemma_trim_drop_first(x, cls);
        assert(x.drop_first() =~= w1.drop_first() + s + w2);
        assert forall|i: int| 0 <= i < w1.drop_first().len() implies in_class(
            cls,
            #[trigger] w1.drop_first()[i],
        ) by {
            assert(w1.drop_first()[i] == w1[i + 1]);
        }
        lemma_trim_surrounded(w1.drop_first(), s, w2, cls);
    } else if w2.len() > 0 {
        let x = w1 + s + w2;
        assert(x.last() == w2.last());
        lemma_trim_drop_last(x, cls);
        assert(x.drop_last() =~= w1 + s + w2.drop_last());
        lemma_trim_surrounded(w1, s, w2.drop_last(), cls);
    } else {
        assert(w1 + s + w2 =~= s);
    }
}

/// Upper-casing keeps whether a character is whitespace.
proof fn lemma_upper_keeps_ws(c: char)
    ensures
        is_ws(upper_char(c)) == is_ws(c),
        lower_char(upper_char(c)) == lower_char(c),
{
}

/// Leading and trailing whitespace runs are the same after upper-casing.
proof fn lemma_upper_runs(s: Seq<char>)
    ensures
        lead(ascii_upper(s), CharClass::Whitespace) == lead(s, CharClass::Whitespace),
        trail(ascii_upper(s), CharClass::Whitespace) == trail(s, CharClass::Whitespace),
    decreases s.len(),
{
    if s.len() > 0 {
        lemma_upper_keeps_ws(s[0]);
        lemma_upper_keeps_ws(s.last());
        assert(ascii_upper(s).drop_first() =~= ascii_upper(s.drop_first()));
        assert(ascii_upper(s).drop_last() =~= ascii_upper(s.drop_last()));
        lemma_upper_runs(s.drop_first());
        lemma_upper_runs(s.drop_last());
    }
}

/// Trimming commutes with upper-casing.
pub proof fn lemma_trim_upper(s: Seq<char>)
    ensures
        trim(ascii_upper(s)) == ascii_upper(trim(s)),
{
    let l = lead(s, CharClass::Whitespace);
    lemma_upper_runs(s);
    lemma_lead_le(s, CharClass::Whitespace);
    let t = s.skip(l as int);
    assert(ascii_upper(s).skip(l as int) =~= ascii_upper(t));
    lemma_upper_runs(t);
    lemma_trail_le(t, CharClass::Whitespace);
    let n = t.len() - trail(t, CharClass::Whitespace);
    assert(ascii_upper(t).take(n) =~= ascii_upper(t.take(n)));
}

/// Lower-casing after upper-casing is lower-casing.
pub proof fn lemma_lower_upper(s: Seq<char>)
    ensures
        ascii_lower(ascii_upper(s)) == ascii_lower(s),
{
    assert forall|i: int| 0 <= i < s.len() implies #[trigger] lower_char(upper_char(s[i]))
        == lower_char(s[i]) by {
        lemma_upper_keeps_ws(s[i]);
    }
    assert(ascii_lower(ascii_upper(s)) =~= ascii_lower(s));
}

} // verus!
