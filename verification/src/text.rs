//! Character classes, hexadecimal and decimal formatting, and string
//! building blocks shared by the theme and editor modules.
use vstd::prelude::*;
use vstd::string::StringSliceAdditionalSpecFns;

verus! {

/// Lowercase hexadecimal digit of a value in `0..16`.
pub open spec fn hex_digit(v: int) -> char {
    if v < 10 {
        (v + 48) as char
    } else {
        (v + 87) as char
    }
}

/// The two lowercase hexadecimal digits of a byte, zero padded (`{:02x}`).
pub open spec fn hex_byte(b: u8) -> Seq<char> {
    seq![hex_digit((b / 16) as int), hex_digit((b % 16) as int)]
}

/// Decimal digit of a value in `0..10`.
pub open spec fn decimal_digit(v: int) -> char {
    (v + 48) as char
}

/// Decimal rendering of a natural number (`{}`), without leading zeros.
pub open spec fn decimal(n: nat) -> Seq<char>
    decreases n,
{
    if n < 10 {
        seq![decimal_digit(n as int)]
    } else {
        decimal(n / 10).push(decimal_digit((n % 10) as int))
    }
}

/// ASCII letter or digit.
pub open spec fn is_ascii_alnum(c: char) -> bool {
    ('0' <= c && c <= '9') || ('a' <= c && c <= 'z') || ('A' <= c && c <= 'Z')
}

/// ASCII whitespace as Rust's `char::is_ascii_whitespace` defines it:
/// space, tab, line feed, form feed and carriage return.
pub open spec fn is_ascii_space(c: char) -> bool {
    c == ' ' || c == '\t' || c == '\n' || c == '\x0C' || c == '\r'
}

/// ASCII lowercase of a character; every other character is kept.
pub open spec fn ascii_lower(c: char) -> char {
    if 'A' <= c && c <= 'Z' {
        ((c as int) + 32) as char
    } else {
        c
    }
}

/// ASCII uppercase of a character; every other character is kept.
pub open spec fn ascii_upper(c: char) -> char {
    if 'a' <= c && c <= 'z' {
        ((c as int) - 32) as char
    } else {
        c
    }
}

/// ASCII uppercase of a whole sequence of characters (`to_ascii_uppercase`).
pub open spec fn ascii_upper_seq(s: Seq<char>) -> Seq<char> {
    s.map_values(|c: char| ascii_upper(c))
}

/// ASCII lowercase of a whole sequence of characters.
pub open spec fn ascii_lower_seq(s: Seq<char>) -> Seq<char> {
    s.map_values(|c: char| ascii_lower(c))
}

/// Appends a character to a string (`String::push`).
#[verifier::external_body]
pub(crate) fn push_char(s: &mut String, c: char)
    ensures
        final(s)@ == old(s)@.push(c),
{
    s.push(c);
}

/// Removes the last character of a string (`String::pop`).
#[verifier::external_body]
pub(crate) fn pop_char(s: &mut String) -> (r: Option<char>)
    ensures
        old(s)@.len() == 0 ==> r is None && final(s)@ == old(s)@,
        old(s)@.len() > 0 ==> r == Some(old(s)@.last()) && final(s)@ == old(s)@.drop_last(),
{
    s.pop()
}

/// A string holding the characters of a `&str`.
pub fn owned(s: &str) -> (r: String)
    ensures
        r@ == s@,
{
    String::from_str(s)
}

/// Appends the characters of `t` to `s`.
pub fn push_str(s: &mut String, t: &str)
    ensures
        final(s)@ == old(s)@ + t@,
{
    s.append(t);
}

/// Lowercase hexadecimal digit of a value in `0..16`.
pub fn hex_digit_char(v: u8) -> (c: char)
    requires
        v < 16,
    ensures
        c == hex_digit(v as int),
{
    if v < 10 {
        (v + 48) as char
    } else {
        (v + 87) as char
    }
}

/// Appends the two hexadecimal digits of a byte.
pub fn push_hex_byte(s: &mut String, b: u8)
    ensures
        final(s)@ == old(s)@ + hex_byte(b),
{
    push_char(s, hex_digit_char(b / 16));
    push_char(s, hex_digit_char(b % 16));
    assert(final(s)@ =~= old(s)@ + hex_byte(b));
}

/// Decimal digit of a value in `0..10`.
pub fn decimal_digit_char(v: usize) -> (c: char)
    requires
        v < 10,
    ensures
        c == decimal_digit(v as int),
{
    let b: u8 = v as u8;
    (b + 48) as char
}

/// Appends the decimal digits of a number.
pub fn push_decimal(s: &mut String, n: usize)
    ensures
        final(s)@ == old(s)@ + decimal(n as nat),
    decreases n,
{
    if n < 10 {
        push_char(s, decimal_digit_char(n));
        assert(final(s)@ =~= old(s)@ + decimal(n as nat));
    } else {
        push_decimal(s, n / 10);
        push_char(s, decimal_digit_char(n % 10));
        assert(final(s)@ =~= old(s)@ + decimal(n as nat));
    }
}

/// ASCII letter or digit (`char::is_ascii_alphanumeric`).
pub fn char_is_ascii_alnum(c: char) -> (r: bool)
    ensures
        r == is_ascii_alnum(c),
{
    ('0' <= c && c <= '9') || ('a' <= c && c <= 'z') || ('A' <= c && c <= 'Z')
}

/// ASCII whitespace (`char::is_ascii_whitespace`).
pub fn char_is_ascii_space(c: char) -> (r: bool)
    ensures
        r == is_ascii_space(c),
{
    c == ' ' || c == '\t' || c == '\n' || c == '\x0C' || c == '\r'
}

/// ASCII lowercase of a character (`char::to_ascii_lowercase`).
pub fn char_ascii_lower(c: char) -> (r: char)
    ensures
        r == ascii_lower(c),
{
    if 'A' <= c && c <= 'Z' {
        let b: u8 = c as u8;
        (b + 32) as char
    } else {
        c
    }
}

/// `q` occurs in `h` starting at position `i`.
pub open spec fn occurs_at(h: Seq<char>, q: Seq<char>, i: int) -> bool {
    0 <= i && i + q.len() <= h.len() && h.subrange(i, i + q.len()) == q
}

/// `q` occurs somewhere in `h` (`str::contains`).
pub open spec fn contains_text(h: Seq<char>, q: Seq<char>) -> bool {
    exists|i: int| occurs_at(h, q, i)
}

/// `n` is a subsequence of `h`: its characters appear in `h` in order,
/// not necessarily next to each other.
pub open spec fn is_subsequence(n: Seq<char>, h: Seq<char>) -> bool
    decreases h.len(),
{
    if n.len() == 0 {
        true
    } else if h.len() == 0 {
        false
    } else if n[0] == h[0] {
        is_subsequence(n.drop_first(), h.drop_first())
    } else {
        is_subsequence(n, h.drop_first())
    }
}

/// The characters of a string slice.
pub fn chars_of(s: &str) -> (v: Vec<char>)
    ensures
        v@ == s@,
{
    let n = s.unicode_len();
    let mut v: Vec<char> = Vec::new();
    let mut i: usize = 0;
    while i < n
        invariant
            n == s@.len(),
            i <= n,
            v@ == s@.take(i as int),
        decreases n - i,
    {
        v.push(s.get_char(i));
        i = i + 1;
        assert(v@ =~= s@.take(i as int));
    }
    assert(v@ =~= s@);
    v
}

/// ASCII lowercase of every character.
pub fn lower_chars(v: &Vec<char>) -> (r: Vec<char>)
    ensures
        r@ == ascii_lower_seq(v@),
{
    let mut r: Vec<char> = Vec::new();
    let mut i: usize = 0;
    while i < v.len()
        invariant
            i <= v@.len(),
            r@ == ascii_lower_seq(v@.take(i as int)),
        decreases v@.len() - i,
    {
        r.push(char_ascii_lower(v[i]));
        i = i + 1;
        assert(r@ =~= ascii_lower_seq(v@.take(i as int)));
    }
    assert(v@.take(v@.len() as int) =~= v@);
    r
}

/// Whether `q` occurs in `h`.
pub fn contains_chars(h: &Vec<char>, q: &Vec<char>) -> (b: bool)
    ensures
        b == contains_text(h@, q@),
{
    if q.len() > h.len() {
        assert forall|i: int| !occurs_at(h@, q@, i) by {}
        return false;
    }
    let hl = h.len();
    let last = hl - q.len();
    let mut i: usize = 0;
    loop
        invariant
            last == h@.len() - q@.len(),
            hl == h@.len(),
            i <= last,
            forall|j: int| 0 <= j < i ==> !occurs_at(h@, q@, j),
        decreases last - i,
    {
        let mut k: usize = 0;
        while k < q.len() && h[i + k] == q[k]
            invariant
                i <= last,
                last == h@.len() - q@.len(),
                i + q@.len() <= h@.len(),
                hl == h@.len(),
                k <= q@.len(),
                forall|m: int| 0 <= m < k ==> h@[i + m] == q@[m],
            decreases q@.len() - k,
        {
            k = k + 1;
        }
        if k == q.len() {
            assert(h@.subrange(i as int, i + q@.len()) =~= q@);
            assert(occurs_at(h@, q@, i as int));
            return true;
        }
        assert(!occurs_at(h@, q@, i as int)) by {
            if occurs_at(h@, q@, i as int) {
                assert(h@.subrange(i as int, i + q@.len())[k as int] == q@[k as int]);
            }
        }
        if i == last {
            assert forall|j: int| !occurs_at(h@, q@, j) by {
                if occurs_at(h@, q@, j) {
                    assert(j <= last);
                }
            }
            return false;
        }
        i = i + 1;
    }
}

/// Whether `n` is a subsequence of `h`, matching each character of `n`
/// with the first later character of `h` equal to it.
pub fn subsequence_chars(h: &Vec<char>, n: &Vec<char>) -> (b: bool)
    ensures
        b == is_subsequence(n@, h@),
{
    let mut hi: usize = 0;
    let mut ni: usize = 0;
    assert(n@.skip(0) =~= n@);
    assert(h@.skip(0) =~= h@);
    while ni < n.len()
        invariant
            hi <= h@.len(),
            ni <= n@.len(),
            is_subsequence(n@, h@) == is_subsequence(n@.skip(ni as int), h@.skip(hi as int)),
        decreases n@.len() - ni, h@.len() - hi,
    {
        if hi == h.len() {
            assert(h@.skip(hi as int).len() == 0);
            return false;
        }
        assert(h@.skip(hi as int).drop_first() =~= h@.skip(hi + 1));
        assert(n@.skip(ni as int).drop_first() =~= n@.skip(ni + 1));
        assert(h@.skip(hi as int)[0] == h@[hi as int]);
        assert(n@.skip(ni as int)[0] == n@[ni as int]);
        if h[hi] == n[ni] {
            ni = ni + 1;
        }
        hi = hi + 1;
    }
    assert(n@.skip(ni as int).len() == 0);
    true
}

/// Byte-wise lexicographic "strictly before" on byte strings.
pub open spec fn bytes_lt(a: Seq<u8>, b: Seq<u8>) -> bool
    decreases a.len(),
{
    if b.len() == 0 {
        false
    } else if a.len() == 0 {
        true
    } else if a[0] != b[0] {
        a[0] < b[0]
    } else {
        bytes_lt(a.drop_first(), b.drop_first())
    }
}

/// The order of Rust strings: lexicographic on their UTF-8 bytes.
pub open spec fn text_lt(a: Seq<char>, b: Seq<char>) -> bool {
    bytes_lt(vstd::utf8::encode_utf8(a), vstd::utf8::encode_utf8(b))
}

/// `x` put into `s` before the first element that it is strictly before
/// (after every element equal to it).
pub open spec fn insert_in_order(s: Seq<Seq<char>>, x: Seq<char>) -> Seq<Seq<char>>
    decreases s.len(),
{
    if s.len() == 0 {
        seq![x]
    } else if text_lt(x, s[0]) {
        seq![x] + s
    } else {
        seq![s[0]] + insert_in_order(s.drop_first(), x)
    }
}

/// The strings of `s` in ascending order, equal ones in their original
/// order (a stable sort).
pub open spec fn sort_texts(s: Seq<Seq<char>>) -> Seq<Seq<char>>
    decreases s.len(),
{
    if s.len() == 0 {
        Seq::empty()
    } else {
        insert_in_order(sort_texts(s.drop_last()), s.last())
    }
}

/// The strings are in ascending order: no string sorts strictly before one
/// that comes earlier.
pub open spec fn texts_sorted(s: Seq<Seq<char>>) -> bool {
    forall|i: int, j: int| 0 <= i < j < s.len() ==> !text_lt(#[trigger] s[j], #[trigger] s[i])
}

proof fn lemma_bytes_lt_asymmetric(a: Seq<u8>, b: Seq<u8>)
    ensures
        !(bytes_lt(a, b) && bytes_lt(b, a)),
    decreases a.len(),
{
    if a.len() > 0 && b.len() > 0 && a[0] == b[0] {
        lemma_bytes_lt_asymmetric(a.drop_first(), b.drop_first());
    }
}

proof fn lemma_bytes_lt_transitive(a: Seq<u8>, b: Seq<u8>, c: Seq<u8>)
    requires
        bytes_lt(a, b),
        bytes_lt(b, c),
    ensures
        bytes_lt(a, c),
    decreases a.len(),
{
    if a.len() > 0 && a[0] == b[0] && b[0] == c[0] {
        lemma_bytes_lt_transitive(a.drop_first(), b.drop_first(), c.drop_first());
    }
}

/// Inserting into a sorted sequence keeps it sorted and adds exactly `x`.
proof fn lemma_insert_in_order(s: Seq<Seq<char>>, x: Seq<char>)
    requires
        texts_sorted(s),
    ensures
        texts_sorted(insert_in_order(s, x)),
        insert_in_order(s, x).to_multiset() == s.to_multiset().insert(x),
        forall|i: int|
            0 <= i < insert_in_order(s, x).len() ==> #[trigger] insert_in_order(s, x)[i] == x
                || s.contains(insert_in_order(s, x)[i]),
    decreases s.len(),
{
    broadcast use vstd::seq_lib::to_multiset_insert;
    broadcast use vstd::multiset::group_multiset_axioms;

    let r = insert_in_order(s, x);
    if s.len() == 0 {
        assert(r =~= s.insert(0, x));
    } else if text_lt(x, s[0]) {
        assert(r =~= s.insert(0, x));
        assert forall|i: int, j: int| 0 <= i < j < r.len() implies !text_lt(#[trigger] r[j], #[trigger] r[i]) by {
            if i == 0 {
                assert(r[j] == s[j - 1]);
                if text_lt(s[j - 1], x) {
                    if j - 1 == 0 {
                        lemma_bytes_lt_asymmetric(vstd::utf8::encode_utf8(x), vstd::utf8::encode_utf8(s[0]));
                    } else {
                        lemma_bytes_lt_transitive(
                            vstd::utf8::encode_utf8(s[j - 1]),
                            vstd::utf8::encode_utf8(x),
                            vstd::utf8::encode_utf8(s[0]),
                        );
                    }
                }
            } else {
                assert(r[i] == s[i - 1] && r[j] == s[j - 1]);
            }
        }
        assert forall|i: int| 0 <= i < r.len() implies #[trigger] r[i] == x || s.contains(r[i]) by {
            if i > 0 {
                assert(r[i] == s[i - 1]);
            }
        }
    } else {
        let rest = s.drop_first();
        assert(texts_sorted(rest)) by {
            assert forall|i: int, j: int| 0 <= i < j < rest.len() implies !text_lt(
                #[trigger] rest[j],
                #[trigger] rest[i],
            ) by {
                assert(rest[i] == s[i + 1] && rest[j] == s[j + 1]);
            }
        }
        lemma_insert_in_order(rest, x);
        let t = insert_in_order(rest, x);
        assert(r =~= t.insert(0, s[0]));
        assert(s =~= rest.insert(0, s[0]));
        assert(r.to_multiset() =~= s.to_multiset().insert(x));
        assert forall|i: int, j: int| 0 <= i < j < r.len() implies !text_lt(#[trigger] r[j], #[trigger] r[i]) by {
            if i == 0 {
                assert(r[j] == t[j - 1]);
                if t[j - 1] != x {
                    assert(rest.contains(t[j - 1]));
                    let k = choose|k: int| 0 <= k < rest.len() && rest[k] == t[j - 1];
                    assert(s[k + 1] == rest[k]);
                }
            } else {
                assert(r[i] == t[i - 1] && r[j] == t[j - 1]);
            }
        }
        assert forall|i: int| 0 <= i < r.len() implies #[trigger] r[i] == x || s.contains(r[i]) by {
            if i == 0 {
                assert(s[0] == r[0]);
            } else {
                assert(r[i] == t[i - 1]);
                if t[i - 1] != x {
                    assert(rest.contains(t[i - 1]));
                    let k = choose|k: int| 0 <= k < rest.len() && rest[k] == t[i - 1];
                    assert(s[k + 1] == rest[k]);
                }
            }
        }
    }
}

/// Sorting puts the strings in ascending order and keeps each of them,
/// as often as it occurs.
pub proof fn lemma_sort_texts_sorted(s: Seq<Seq<char>>)
    ensures
        texts_sorted(sort_texts(s)),
        sort_texts(s).to_multiset() == s.to_multiset(),
    decreases s.len(),
{
    broadcast use vstd::seq_lib::to_multiset_build;

    if s.len() > 0 {
        lemma_sort_texts_sorted(s.drop_last());
        lemma_insert_in_order(sort_texts(s.drop_last()), s.last());
        assert(s.drop_last().push(s.last()) =~= s);
        assert(s.to_multiset() == s.drop_last().to_multiset().insert(s.last()));
    } else {
        broadcast use vstd::seq_lib::to_multiset_len;
        broadcast use vstd::multiset::group_multiset_axioms;

        assert(sort_texts(s) =~= s);
    }
}

/// The strings as sequences of characters.
pub open spec fn texts(v: Seq<String>) -> Seq<Seq<char>> {
    v.map_values(|s: String| s@)
}

/// Whether `a` sorts strictly before `b`.
pub fn str_lt(a: &str, b: &str) -> (r: bool)
    ensures
        r == text_lt(a@, b@),
{
    let x = a.as_bytes();
    let y = b.as_bytes();
    let mut i: usize = 0;
    assert(x@.skip(0) =~= x@);
    assert(y@.skip(0) =~= y@);
    loop
        invariant
            i <= x@.len(),
            i <= y@.len(),
            x@ == a.spec_bytes(),
            y@ == b.spec_bytes(),
            text_lt(a@, b@) == bytes_lt(x@.skip(i as int), y@.skip(i as int)),
        decreases x@.len() - i,
    {
        if i == y.len() {
            return false;
        }
        if i == x.len() {
            return true;
        }
        assert(x@.skip(i as int)[0] == x@[i as int]);
        assert(y@.skip(i as int)[0] == y@[i as int]);
        if x[i] != y[i] {
            return x[i] < y[i];
        }
        assert(x@.skip(i as int).drop_first() =~= x@.skip(i + 1));
        assert(y@.skip(i as int).drop_first() =~= y@.skip(i + 1));
        i = i + 1;
    }
}

/// `insert_in_order` puts `x` at the first position whose element `x` is
/// strictly before.
proof fn lemma_insert_at(s: Seq<Seq<char>>, x: Seq<char>, p: int)
    requires
        0 <= p <= s.len(),
        forall|j: int| 0 <= j < p ==> !text_lt(x, #[trigger] s[j]),
        p < s.len() ==> text_lt(x, s[p]),
    ensures
        insert_in_order(s, x) == s.take(p).push(x) + s.skip(p),
    decreases s.len(),
{
    if s.len() == 0 {
        assert(s.take(p).push(x) + s.skip(p) =~= seq![x]);
    } else if p == 0 {
        assert(s.take(p).push(x) + s.skip(p) =~= seq![x] + s);
    } else {
        let t = s.drop_first();
        assert forall|j: int| 0 <= j < p - 1 implies !text_lt(x, #[trigger] t[j]) by {
            assert(t[j] == s[j + 1]);
        }
        lemma_insert_at(t, x, p - 1);
        assert(seq![s[0]] + (t.take(p - 1).push(x) + t.skip(p - 1)) =~= s.take(p).push(x) + s.skip(p));
    }
}

/// Sorts strings in ascending byte order, stably (`slice::sort`).
pub fn sort_strings(v: &Vec<String>) -> (r: Vec<String>)
    ensures
        texts(r@) == sort_texts(texts(v@)),
{
    let ghost orig = texts(v@);
    let mut r: Vec<String> = Vec::new();
    let mut i: usize = 0;
    while i < v.len()
        invariant
            i <= v@.len(),
            orig == texts(v@),
            texts(r@) == sort_texts(orig.take(i as int)),
        decreases v@.len() - i,
    {
        let x = v[i].clone();
        let mut p: usize = 0;
        while p < r.len() && !str_lt(x.as_str(), r[p].as_str())
            invariant
                p <= r@.len(),
                forall|j: int| 0 <= j < p ==> !text_lt(x@, #[trigger] texts(r@)[j]),
            decreases r@.len() - p,
        {
            p = p + 1;
        }
        proof {
            lemma_insert_at(texts(r@), x@, p as int);
            assert(orig.take(i + 1).drop_last() =~= orig.take(i as int));
            assert(orig.take(i + 1).last() == x@);
        }
        r.insert(p, x);
        assert(texts(r@) =~= sort_texts(orig.take(i + 1)));
        i = i + 1;
    }
    assert(orig.take(v@.len() as int) =~= orig);
    r
}

} // verus!
