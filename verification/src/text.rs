//! Text as sequences of characters: rendering numbers and bytes, and the
//! scanning helpers that the parsers share.

use vstd::prelude::*;
use vstd::utf8::{decode_utf8, valid_utf8};

verus! {

/// A piece of text in contracts.
pub type Chars = Seq<char>;

/// `String::push` appends one character to the end of the string.
pub assume_specification[ String::push ](s: &mut String, c: char)
    ensures
        final(s)@ == old(s)@.push(c),
;

/// The text of bytes that are meant to be UTF-8, whatever they are.
pub uninterp spec fn lossy(bytes: Seq<u8>) -> Seq<char>;

/// `String::from_utf8_lossy`: valid UTF-8 gives the text that it encodes. What
/// stands in for invalid sequences is named, not stated.
#[verifier::external_body]
pub(crate) fn lossy_text(bytes: &[u8]) -> (s: String)
    ensures
        s@ == lossy(bytes@),
        valid_utf8(bytes@) ==> s@ == decode_utf8(bytes@),
{
    String::from_utf8_lossy(bytes).into_owned()
}

// ---------------------------------------------------------------------
// Numbers
// ---------------------------------------------------------------------

/// The decimal or upper-case hexadecimal digit worth `d`.
pub open spec fn digit(d: int) -> char
    recommends
        0 <= d < 16,
{
    if d < 10 {
        ('0' as int + d) as char
    } else {
        ('A' as int + d - 10) as char
    }
}

/// `n` in decimal, without leading zeros.
pub open spec fn dec(n: nat) -> Chars
    decreases n,
{
    if n < 10 {
        seq![digit(n as int)]
    } else {
        dec(n / 10).push(digit((n % 10) as int))
    }
}

/// `n` in upper-case hexadecimal, without leading zeros.
pub open spec fn hex_digits(n: nat) -> Chars
    decreases n,
{
    if n < 16 {
        seq![digit(n as int)]
    } else {
        hex_digits(n / 16).push(digit((n % 16) as int))
    }
}

/// `n` copies of `c`.
pub open spec fn repeated(c: char, n: int) -> Chars {
    Seq::new(if n > 0 { n as nat } else { 0 }, |i: int| c)
}

/// `s` with zeros in front until it is at least `width` characters long.
pub open spec fn zero_padded(s: Chars, width: nat) -> Chars {
    repeated('0', width - s.len()) + s
}

/// `n` in upper-case hexadecimal, at least `width` digits long.
pub open spec fn hex(n: nat, width: nat) -> Chars {
    zero_padded(hex_digits(n), width)
}

/// The digit worth `d`.
pub fn digit_char(d: u8) -> (c: char)
    requires
        d < 16,
    ensures
        c == digit(d as int),
{
    if d < 10 {
        (48u8 + d) as char
    } else {
        (55u8 + d) as char
    }
}

/// Renders `n` in decimal.
pub fn dec_text(n: u64) -> (s: String)
    ensures
        s@ == dec(n as nat),
    decreases n,
{
    if n < 10 {
        let mut s = String::new();
        s.push(digit_char(n as u8));
        proof {
            assert(s@ =~= dec(n as nat));
        }
        s
    } else {
        let mut s = dec_text(n / 10);
        s.push(digit_char((n % 10) as u8));
        s
    }
}

/// Renders `n` in upper-case hexadecimal without leading zeros.
pub fn hex_digits_text(n: u64) -> (s: String)
    ensures
        s@ == hex_digits(n as nat),
    decreases n,
{
    if n < 16 {
        let mut s = String::new();
        s.push(digit_char(n as u8));
        proof {
            assert(s@ =~= hex_digits(n as nat));
        }
        s
    } else {
        let mut s = hex_digits_text(n / 16);
        s.push(digit_char((n % 16) as u8));
        s
    }
}

/// `n` copies of `c`.
pub fn repeat_char(c: char, n: usize) -> (s: String)
    ensures
        s@ == repeated(c, n as int),
{
    let mut s = String::new();
    let mut i: usize = 0;
    while i < n
        invariant
            i <= n,
            s@ == repeated(c, i as int),
        decreases n - i,
    {
        s.push(c);
        proof {
            assert(s@ =~= repeated(c, i + 1));
        }
        i = i + 1;
    }
    s
}

/// Puts zeros in front of `s` until it is at least `width` characters long.
pub fn zero_pad(s: &str, width: usize) -> (r: String)
    ensures
        r@ == zero_padded(s@, width as nat),
{
    let len: usize = s.unicode_len();
    let fill: usize = if width > len {
        width - len
    } else {
        0
    };
    let mut r = repeat_char('0', fill);
    r.append(s);
    proof {
        assert(r@ =~= zero_padded(s@, width as nat));
    }
    r
}

/// Renders `n` in upper-case hexadecimal, at least `width` digits long.
pub fn hex_text(n: u64, width: usize) -> (s: String)
    ensures
        s@ == hex(n as nat, width as nat),
{
    let digits = hex_digits_text(n);
    zero_pad(digits.as_str(), width)
}

/// Renders `n` in decimal, at least `width` digits long.
pub fn dec_padded_text(n: u64, width: usize) -> (s: String)
    ensures
        s@ == zero_padded(dec(n as nat), width as nat),
{
    let digits = dec_text(n);
    zero_pad(digits.as_str(), width)
}

// ---------------------------------------------------------------------
// Characters and lists of texts
// ---------------------------------------------------------------------

/// What a list of strings says.
pub open spec fn texts(v: Seq<String>) -> Seq<Chars> {
    Seq::new(v.len(), |i: int| v[i]@)
}

/// What a list of string slices says.
pub open spec fn slice_texts(v: Seq<&str>) -> Seq<Chars> {
    Seq::new(v.len(), |i: int| v[i]@)
}

/// The characters of `s`.
pub fn chars_of(s: &str) -> (v: Vec<char>)
    ensures
        v@ == s@,
{
    let mut v: Vec<char> = Vec::new();
    for c in it: s.chars()
        invariant
            it.seq() == s@,
            v@ == s@.take(it.index() as int),
    {
        v.push(c);
        proof {
            assert(v@ =~= s@.take(it.index() + 1));
        }
    }
    proof {
        assert(s@.take(s@.len() as int) =~= s@);
    }
    v
}

/// The string made of `chars`.
pub fn text_of(chars: &[char]) -> (s: String)
    ensures
        s@ == chars@,
{
    let mut s = String::new();
    let mut i: usize = 0;
    while i < chars.len()
        invariant
            i <= chars.len(),
            s@ == chars@.take(i as int),
        decreases chars.len() - i,
    {
        s.push(chars[i]);
        proof {
            assert(s@ =~= chars@.take(i + 1));
        }
        i = i + 1;
    }
    proof {
        assert(chars@.take(chars@.len() as int) =~= chars@);
    }
    s
}

/// Adds one text to a list.
pub fn push_text(v: &mut Vec<String>, s: String)
    ensures
        texts(final(v)@) == texts(old(v)@).push(s@),
        final(v)@ == old(v)@.push(s),
{
    v.push(s);
    proof {
        assert(texts(v@) =~= texts(old(v)@).push(s@));
    }
}

/// Adds the texts of `more` to the end of a list.
pub fn append_texts(v: &mut Vec<String>, more: Vec<String>)
    ensures
        texts(final(v)@) == texts(old(v)@) + texts(more@),
{
    let mut rest = more;
    v.append(&mut rest);
    proof {
        assert(texts(v@) =~= texts(old(v)@) + texts(more@));
    }
}

/// The parts one after another, with `sep` between neighbours.
pub open spec fn joined(parts: Seq<Chars>, sep: Chars) -> Chars
    decreases parts.len(),
{
    if parts.len() == 0 {
        seq![]
    } else if parts.len() == 1 {
        parts[0]
    } else {
        joined(parts.drop_last(), sep) + sep + parts.last()
    }
}

/// Joins `parts` with `sep` between neighbours.
pub fn join(parts: &Vec<String>, sep: &str) -> (s: String)
    ensures
        s@ == joined(texts(parts@), sep@),
{
    if parts.len() == 0 {
        let s = String::new();
        proof {
            assert(s@ =~= joined(texts(parts@), sep@));
        }
        return s;
    }
    let mut s = parts[0].clone();
    let mut i: usize = 1;
    proof {
        assert(texts(parts@).take(1)[0] == parts@[0]@);
    }
    while i < parts.len()
        invariant
            1 <= i <= parts.len(),
            s@ == joined(texts(parts@).take(i as int), sep@),
        decreases parts.len() - i,
    {
        s.append(sep);
        s.append(parts[i].as_str());
        proof {
            let longer = texts(parts@).take(i + 1);
            assert(longer.drop_last() =~= texts(parts@).take(i as int));
            assert(longer.last() == parts@[i as int]@);
        }
        i = i + 1;
    }
    proof {
        assert(texts(parts@).take(parts@.len() as int) =~= texts(parts@));
    }
    s
}

/// Each byte as two hexadecimal digits.
pub open spec fn hex_pairs(data: Seq<u8>) -> Seq<Chars> {
    Seq::new(data.len(), |i: int| hex(data[i] as nat, 2))
}

/// The bytes as two-digit groups separated by blanks.
pub open spec fn hex_dump(data: Seq<u8>) -> Chars {
    joined(hex_pairs(data), " "@)
}

/// Renders bytes as two-digit groups separated by blanks.
pub fn hex_dump_text(data: &[u8]) -> (s: String)
    ensures
        s@ == hex_dump(data@),
{
    let mut parts: Vec<String> = Vec::new();
    let mut i: usize = 0;
    while i < data.len()
        invariant
            i <= data.len(),
            texts(parts@) == hex_pairs(data@.take(i as int)),
        decreases data.len() - i,
    {
        push_text(&mut parts, hex_text(data[i] as u64, 2));
        proof {
            assert(texts(parts@) =~= hex_pairs(data@.take(i + 1)));
        }
        i = i + 1;
    }
    proof {
        assert(data@.take(data@.len() as int) =~= data@);
    }
    join(&parts, " ")
}

/// Whether a byte is a printable ASCII character, blank included.
pub open spec fn printable(b: u8) -> bool {
    0x20 <= b < 0x7F
}

/// Each printable byte as its character, every other byte as a dot.
pub open spec fn ascii_gutter(data: Seq<u8>) -> Chars {
    Seq::new(data.len(), |i: int| if printable(data[i]) { data[i] as char } else { '.' })
}

/// Renders bytes as characters, with a dot for each byte that is not printable.
pub fn ascii_gutter_text(data: &[u8]) -> (s: String)
    ensures
        s@ == ascii_gutter(data@),
{
    let mut s = String::new();
    let mut i: usize = 0;
    while i < data.len()
        invariant
            i <= data.len(),
            s@ == ascii_gutter(data@.take(i as int)),
        decreases data.len() - i,
    {
        let b: u8 = data[i];
        s.push(if 0x20 <= b && b < 0x7F { b as char } else { '.' });
        proof {
            assert(s@ =~= ascii_gutter(data@.take(i + 1)));
        }
        i = i + 1;
    }
    proof {
        assert(data@.take(data@.len() as int) =~= data@);
    }
    s
}

// ---------------------------------------------------------------------
// Scanning
// ---------------------------------------------------------------------

/// The index of the first `x` in `s`, or the length of `s` if there is none.
pub open spec fn first_index<T>(s: Seq<T>, x: T) -> int
    decreases s.len(),
{
    if s.len() == 0 || s[0] == x {
        0
    } else {
        1 + first_index(s.drop_first(), x)
    }
}

/// An index before which `x` does not occur, and at which it does or the
/// sequence ends, is the first index of `x`.
pub proof fn lemma_first_index<T>(s: Seq<T>, x: T, i: int)
    requires
        0 <= i <= s.len(),
        forall|j: int| 0 <= j < i ==> s[j] != x,
        i < s.len() ==> s[i] == x,
    ensures
        first_index(s, x) == i,
    decreases s.len(),
{
    if i > 0 {
        lemma_first_index(s.drop_first(), x, i - 1);
    }
}

/// The index of the first `c` in `s`, or the length of `s`.
pub fn find_char(s: &[char], c: char) -> (r: usize)
    ensures
        r == first_index(s@, c),
        r <= s@.len(),
        r < s@.len() ==> s@[r as int] == c,
{
    let mut i: usize = 0;
    while i < s.len() && s[i] != c
        invariant
            i <= s.len(),
            forall|j: int| 0 <= j < i ==> s@[j] != c,
        decreases s.len() - i,
    {
        i = i + 1;
    }
    proof {
        lemma_first_index(s@, c, i as int);
    }
    i
}

/// The index of the first `b` in `s`, or the length of `s`.
pub fn find_byte(s: &[u8], b: u8) -> (r: usize)
    ensures
        r == first_index(s@, b),
        r <= s@.len(),
        r < s@.len() ==> s@[r as int] == b,
{
    let mut i: usize = 0;
    while i < s.len() && s[i] != b
        invariant
            i <= s.len(),
            forall|j: int| 0 <= j < i ==> s@[j] != b,
        decreases s.len() - i,
    {
        i = i + 1;
    }
    proof {
        lemma_first_index(s@, b, i as int);
    }
    i
}

/// `p` occurs in `s` at index `i`.
pub open spec fn occurs_at(s: Chars, p: Chars, i: int) -> bool {
    0 <= i && i + p.len() <= s.len() && s.subrange(i, i + p.len()) == p
}

/// `p` occurs somewhere in `s`.
pub open spec fn contains(s: Chars, p: Chars) -> bool {
    exists|i: int| occurs_at(s, p, i)
}

/// Whether `p` occurs in `s` at index `i`.
pub fn matches_at(s: &[char], p: &[char], i: usize) -> (r: bool)
    requires
        i <= s@.len(),
    ensures
        r == occurs_at(s@, p@, i as int),
{
    if p.len() > s.len() - i {
        return false;
    }
    let mut j: usize = 0;
    while j < p.len()
        invariant
            i + p.len() <= s.len(),
            j <= p.len(),
            forall|k: int| 0 <= k < j ==> s@[i + k] == p@[k],
        decreases p.len() - j,
    {
        if s[i + j] != p[j] {
            proof {
                assert(s@.subrange(i as int, i + p@.len())[j as int] != p@[j as int]);
            }
            return false;
        }
        j = j + 1;
    }
    proof {
        assert(s@.subrange(i as int, i + p@.len()) =~= p@);
    }
    true
}

/// The first index at which `p` occurs in `s`, if it does.
pub fn find_text(s: &[char], p: &[char]) -> (r: Option<usize>)
    ensures
        match r {
            Some(i) => occurs_at(s@, p@, i as int) && forall|j: int|
                0 <= j < i ==> !occurs_at(s@, p@, j),
            None => !contains(s@, p@),
        },
{
    let mut i: usize = 0;
    loop
        invariant
            i <= s@.len(),
            forall|j: int| 0 <= j < i ==> !occurs_at(s@, p@, j),
        decreases s@.len() - i,
    {
        if matches_at(s, p, i) {
            return Some(i);
        }
        if i == s.len() {
            return None;
        }
        i = i + 1;
    }
}

/// Whether `p` occurs somewhere in `s`.
pub fn contains_text(s: &str, p: &str) -> (r: bool)
    ensures
        r == contains(s@, p@),
{
    let hay = chars_of(s);
    let needle = chars_of(p);
    find_text(hay.as_slice(), needle.as_slice()).is_some()
}

/// What follows the first occurrence of `p` in `s`.
pub open spec fn after_first(s: Chars, p: Chars) -> Option<Chars>
    decreases s.len(),
{
    if occurs_at(s, p, 0) {
        Some(s.skip(p.len() as int))
    } else if s.len() == 0 {
        None
    } else {
        after_first(s.skip(1), p)
    }
}

/// What follows the first occurrence of `p`, if it is known where that is.
pub proof fn lemma_after_first(s: Chars, p: Chars, i: int)
    requires
        0 <= i <= s.len(),
        forall|j: int| 0 <= j < i ==> !occurs_at(s, p, j),
        occurs_at(s, p, i) || (i == s.len() && !contains(s, p)),
    ensures
        after_first(s, p) == if occurs_at(s, p, i) {
            Some(s.skip(i + p.len()))
        } else {
            None
        },
    decreases s.len(),
{
    if i > 0 {
        let t = s.skip(1);
        assert forall|j: int| 0 <= j < t.len() - p.len() + 1 implies occurs_at(t, p, j)
            == occurs_at(s, p, j + 1) by {
            assert(t.subrange(j, j + p.len()) =~= s.subrange(j + 1, j + 1 + p.len()));
        }
        assert(!occurs_at(s, p, 0));
        assert forall|j: int| 0 <= j < i - 1 implies !occurs_at(t, p, j) by {
            if occurs_at(t, p, j) {
                assert(occurs_at(s, p, j + 1));
            }
        }
        if i == s.len() && !occurs_at(s, p, i) {
            assert(!contains(t, p)) by {
                if contains(t, p) {
                    let j = choose|j: int| occurs_at(t, p, j);
                    assert(occurs_at(s, p, j + 1));
                }
            }
            assert(!occurs_at(t, p, i - 1));
        } else {
            assert(occurs_at(t, p, i - 1));
            assert(t.skip(i - 1 + p.len()) =~= s.skip(i + p.len()));
        }
        lemma_after_first(t, p, i - 1);
    } else if !occurs_at(s, p, 0) {
        assert(s.len() == 0);
    }
}

/// What follows the first occurrence of `p` in `s`, if there is one.
pub fn text_after(s: &[char], p: &[char]) -> (r: Option<Vec<char>>)
    ensures
        match r {
            Some(rest) => after_first(s@, p@) == Some(rest@),
            None => after_first(s@, p@) is None,
        },
{
    let n: usize = s.len();
    match find_text(s, p) {
        Some(i) => {
            proof {
                lemma_after_first(s@, p@, i as int);
            }
            let rest = copy_chars(s, i + p.len(), n);
            proof {
                assert(rest@ =~= s@.skip(i + p@.len()));
            }
            Some(rest)
        }
        None => {
            proof {
                lemma_after_first(s@, p@, s@.len() as int);
            }
            None
        }
    }
}

/// The characters of `s` from `from` up to `to`.
pub fn copy_chars(s: &[char], from: usize, to: usize) -> (v: Vec<char>)
    requires
        from <= to <= s@.len(),
    ensures
        v@ == s@.subrange(from as int, to as int),
{
    let mut v: Vec<char> = Vec::new();
    let mut i: usize = from;
    while i < to
        invariant
            from <= i <= to <= s@.len(),
            v@ == s@.subrange(from as int, i as int),
        decreases to - i,
    {
        v.push(s[i]);
        proof {
            assert(v@ =~= s@.subrange(from as int, i + 1));
        }
        i = i + 1;
    }
    v
}

/// `c` with an ASCII capital turned into its small letter.
pub open spec fn lower_char(c: char) -> char {
    if 'A' <= c <= 'Z' {
        (c as u8 + 32) as char
    } else {
        c
    }
}

/// `s` with every ASCII capital turned into its small letter.
pub open spec fn lower(s: Chars) -> Chars {
    Seq::new(s.len(), |i: int| lower_char(s[i]))
}

/// Turns every ASCII capital of `s` into its small letter.
pub fn lower_text(s: &str) -> (r: String)
    ensures
        r@ == lower(s@),
{
    let chars = chars_of(s);
    let mut r = String::new();
    let mut i: usize = 0;
    while i < chars.len()
        invariant
            i <= chars.len(),
            chars@ == s@,
            r@ == lower(s@.take(i as int)),
        decreases chars.len() - i,
    {
        let c = chars[i];
        r.push(if 'A' <= c && c <= 'Z' { (c as u8 + 32) as char } else { c });
        proof {
            assert(r@ =~= lower(s@.take(i + 1)));
        }
        i = i + 1;
    }
    proof {
        assert(s@.take(s@.len() as int) =~= s@);
    }
    r
}

/// One of `words` occurs in `s`.
pub open spec fn contains_any(s: Chars, words: Seq<Chars>) -> bool {
    exists|i: int| 0 <= i < words.len() && contains(s, #[trigger] words[i])
}

/// Whether one of `words` occurs in `s`.
pub fn contains_any_text(s: &str, words: &[&str]) -> (r: bool)
    ensures
        r == contains_any(s@, slice_texts(words@)),
{
    let mut i: usize = 0;
    while i < words.len()
        invariant
            i <= words.len(),
            forall|j: int| 0 <= j < i ==> !contains(s@, #[trigger] slice_texts(words@)[j]),
        decreases words.len() - i,
    {
        if contains_text(s, words[i]) {
            proof {
                assert(contains(s@, slice_texts(words@)[i as int]));
            }
            return true;
        }
        i = i + 1;
    }
    false
}

/// `s` without the occurrences of `p`, found from the start on.
pub open spec fn without(s: Chars, p: Chars) -> Chars
    decreases s.len(),
{
    if p.len() == 0 || s.len() < p.len() {
        s
    } else if occurs_at(s, p, 0) {
        without(s.skip(p.len() as int), p)
    } else {
        seq![s[0]] + without(s.skip(1), p)
    }
}

/// Removes the occurrences of `p` from `s`.
pub fn remove_text(s: &str, p: &str) -> (r: String)
    ensures
        r@ == without(s@, p@),
{
    let hay = chars_of(s);
    let needle = chars_of(p);
    if needle.len() == 0 {
        return s.to_owned();
    }
    let mut r = String::new();
    let mut i: usize = 0;
    proof {
        assert(s@.skip(0) =~= s@);
        assert(r@ + without(s@.skip(0), p@) =~= without(s@, p@));
    }
    while i < hay.len()
        invariant
            hay@ == s@,
            needle@ == p@,
            p@.len() > 0,
            i <= hay.len(),
            r@ + without(s@.skip(i as int), p@) == without(s@, p@),
        decreases hay.len() - i,
    {
        let ghost rest = s@.skip(i as int);
        if matches_at(hay.as_slice(), needle.as_slice(), i) {
            proof {
                assert(rest.subrange(0, p@.len() as int) =~= s@.subrange(i as int, i + p@.len()));
                assert(occurs_at(rest, p@, 0));
                assert(rest.skip(p@.len() as int) =~= s@.skip(i + p@.len()));
            }
            i = i + needle.len();
        } else {
            let ghost before = r@;
            r.push(hay[i]);
            proof {
                assert(rest.skip(1) =~= s@.skip(i + 1));
                if rest.len() >= p@.len() {
                    assert(rest.subrange(0, p@.len() as int) =~= s@.subrange(
                        i as int,
                        i + p@.len(),
                    ));
                    assert(!occurs_at(rest, p@, 0));
                    assert(before + (seq![rest[0]] + without(rest.skip(1), p@)) =~= r@ + without(
                        rest.skip(1),
                        p@,
                    ));
                } else {
                    assert(without(rest, p@) == rest);
                    assert(without(rest.skip(1), p@) == rest.skip(1));
                    assert(before + rest =~= r@ + rest.skip(1));
                }
            }
            i = i + 1;
        }
    }
    proof {
        assert(s@.skip(i as int) =~= seq![]);
        assert(r@ + without(s@.skip(i as int), p@) =~= r@);
    }
    r
}

/// Two texts are equal.
pub fn same_text(a: &str, b: &str) -> (r: bool)
    ensures
        r == (a@ == b@),
{
    let x = chars_of(a);
    let y = chars_of(b);
    if x.len() != y.len() {
        return false;
    }
    let r = matches_at(x.as_slice(), y.as_slice(), 0);
    proof {
        assert(a@.subrange(0, a@.len() as int) =~= a@);
    }
    r
}

/// White space as Unicode's White_Space property has it.
pub open spec fn is_space(c: char) -> bool {
    let n = c as u32;
    (9 <= n <= 13) || n == 32 || n == 0x85 || n == 0xA0 || n == 0x1680 || (0x2000 <= n <= 0x200A)
        || n == 0x2028 || n == 0x2029 || n == 0x202F || n == 0x205F || n == 0x3000
}

/// Whether `c` is white space.
pub fn space_char(c: char) -> (r: bool)
    ensures
        r == is_space(c),
{
    let n: u32 = c as u32;
    (9 <= n && n <= 13) || n == 32 || n == 0x85 || n == 0xA0 || n == 0x1680 || (0x2000 <= n && n
        <= 0x200A) || n == 0x2028 || n == 0x2029 || n == 0x202F || n == 0x205F || n == 0x3000
}

/// `s` without the white space at its end.
pub open spec fn trimmed_end(s: Chars) -> Chars
    decreases s.len(),
{
    if s.len() > 0 && is_space(s.last()) {
        trimmed_end(s.drop_last())
    } else {
        s
    }
}

/// `s` without the white space at its start.
pub open spec fn trimmed_start(s: Chars) -> Chars
    decreases s.len(),
{
    if s.len() > 0 && is_space(s[0]) {
        trimmed_start(s.drop_first())
    } else {
        s
    }
}

/// `s` without the white space at both ends.
pub open spec fn trimmed(s: Chars) -> Chars {
    trimmed_end(trimmed_start(s))
}

/// Removes the white space at the end of `s`.
pub fn trim_end(s: &str) -> (r: String)
    ensures
        r@ == trimmed_end(s@),
{
    let mut chars = chars_of(s);
    while chars.len() > 0 && space_char(chars[chars.len() - 1])
        invariant
            trimmed_end(chars@) == trimmed_end(s@),
        decreases chars.len(),
    {
        let ghost before = chars@;
        chars.pop();
        proof {
            assert(chars@ =~= before.drop_last());
        }
    }
    text_of(chars.as_slice())
}

/// Removes the white space at both ends of `s`.
pub fn trim(s: &str) -> (r: String)
    ensures
        r@ == trimmed(s@),
{
    let chars = chars_of(s);
    let mut i: usize = 0;
    proof {
        assert(s@.skip(0) =~= s@);
    }
    while i < chars.len() && space_char(chars[i])
        invariant
            i <= chars.len(),
            chars@ == s@,
            trimmed_start(s@.skip(i as int)) == trimmed_start(s@),
        decreases chars.len() - i,
    {
        proof {
            assert(s@.skip(i as int).drop_first() =~= s@.skip(i + 1));
        }
        i = i + 1;
    }
    let rest = text_of(vstd::slice::slice_subrange(chars.as_slice(), i, chars.len()));
    proof {
        assert(rest@ =~= s@.skip(i as int));
        if rest@.len() > 0 {
            assert(s@.skip(i as int)[0] == s@[i as int]);
        }
        assert(trimmed_start(rest@) == rest@);
    }
    trim_end(rest.as_str())
}

} // verus!
