//! Text helpers: comparing strings with string constants, and the decimal
//! form of numbers.
use vstd::prelude::*;
use vstd::string::*;
use itertools::Itertools;

verus! {

/// `p` is a prefix of `s`.
pub open spec fn has_prefix(s: Seq<char>, p: Seq<char>) -> bool {
    p.len() <= s.len() && s.subrange(0, p.len() as int) == p
}

/// Whether two strings hold the same characters.
pub fn str_equals(a: &str, b: &str) -> (r: bool)
    ensures
        r == (a@ == b@),
{
    let n = a.unicode_len();
    if n != b.unicode_len() {
        return false;
    }
    let mut i: usize = 0;
    while i < n
        invariant
            i <= n,
            n == a@.len(),
            n == b@.len(),
            forall|j: int| 0 <= j < i ==> a@[j] == b@[j],
        decreases n - i,
    {
        if a.get_char(i) != b.get_char(i) {
            return false;
        }
        i = i + 1;
    }
    assert(a@ =~= b@);
    true
}

/// Whether a string starts with another.
pub fn str_starts_with(s: &str, p: &str) -> (r: bool)
    ensures
        r == has_prefix(s@, p@),
{
    let n = s.unicode_len();
    let m = p.unicode_len();
    if m > n {
        return false;
    }
    let mut i: usize = 0;
    while i < m
        invariant
            i <= m <= n,
            n == s@.len(),
            m == p@.len(),
            forall|j: int| 0 <= j < i ==> s@[j] == p@[j],
        decreases m - i,
    {
        if s.get_char(i) != p.get_char(i) {
            assert(s@.subrange(0, m as int)[i as int] != p@[i as int]);
            return false;
        }
        i = i + 1;
    }
    assert(s@.subrange(0, m as int) =~= p@);
    true
}

/// The character of a decimal digit.
pub open spec fn digit_char(d: nat) -> char {
    if d == 0 {
        '0'
    } else if d == 1 {
        '1'
    } else if d == 2 {
        '2'
    } else if d == 3 {
        '3'
    } else if d == 4 {
        '4'
    } else if d == 5 {
        '5'
    } else if d == 6 {
        '6'
    } else if d == 7 {
        '7'
    } else if d == 8 {
        '8'
    } else {
        '9'
    }
}

/// The decimal form of a number, without leading zeros.
pub open spec fn decimal(n: nat) -> Seq<char>
    decreases n,
{
    if n < 10 {
        seq![digit_char(n)]
    } else {
        decimal(n / 10).push(digit_char(n % 10))
    }
}

/// The decimal form of a number is a nonempty string of digits, a single
/// one exactly for the numbers below 10.
pub proof fn lemma_decimal_digits(n: nat)
    ensures
        decimal(n).len() >= 1,
        (decimal(n).len() == 1) == (n < 10),
        forall|i: int| 0 <= i < decimal(n).len() ==> is_digit(#[trigger] decimal(n)[i]),
    decreases n,
{
    if n >= 10 {
        lemma_decimal_digits(n / 10);
        let d = decimal(n / 10);
        assert forall|i: int| 0 <= i < decimal(n).len() implies is_digit(#[trigger] decimal(n)[i]) by {
            if i < d.len() {
                assert(decimal(n)[i] == d[i]);
            }
        }
    }
}

/// Different numbers have different decimal forms.
pub proof fn lemma_decimal_injective(a: nat, b: nat)
    ensures
        decimal(a) == decimal(b) ==> a == b,
    decreases a,
{
    if decimal(a) == decimal(b) {
        lemma_decimal_digits(a);
        lemma_decimal_digits(b);
        if a >= 10 {
            assert(b >= 10);
            assert(decimal(a).drop_last() =~= decimal(a / 10));
            assert(decimal(b).drop_last() =~= decimal(b / 10));
            assert(decimal(a).last() == digit_char(a % 10));
            assert(decimal(b).last() == digit_char(b % 10));
            lemma_decimal_injective(a / 10, b / 10);
        } else {
            assert(decimal(a)[0] == digit_char(a));
            assert(decimal(b)[0] == digit_char(b));
        }
    }
}

/// A word without digits followed by a number (or by nothing) splits back
/// into that word and that number: if two such strings are equal, so are
/// their words and their numbers.
pub proof fn lemma_word_number_split(w1: Seq<char>, s1: Seq<char>, w2: Seq<char>, s2: Seq<char>)
    requires
        forall|i: int| 0 <= i < w1.len() ==> !is_digit(#[trigger] w1[i]),
        forall|i: int| 0 <= i < w2.len() ==> !is_digit(#[trigger] w2[i]),
        s1.len() == 0 || is_digit(s1[0]),
        s2.len() == 0 || is_digit(s2[0]),
        w1 + s1 == w2 + s2,
    ensures
        w1 == w2,
        s1 == s2,
{
    let t = w1 + s1;
    if w1.len() < w2.len() {
        assert(t[w1.len() as int] == (w2 + s2)[w1.len() as int]);
        assert((w2 + s2)[w1.len() as int] == w2[w1.len() as int]);
        if s1.len() > 0 {
            assert(t[w1.len() as int] == s1[0]);
        }
    } else if w2.len() < w1.len() {
        assert((w2 + s2)[w2.len() as int] == t[w2.len() as int]);
        assert(t[w2.len() as int] == w1[w2.len() as int]);
        if s2.len() > 0 {
            assert((w2 + s2)[w2.len() as int] == s2[0]);
        }
    }
    assert(w1 =~= t.subrange(0, w1.len() as int));
    assert(w2 =~= (w2 + s2).subrange(0, w2.len() as int));
    assert(s1 =~= t.subrange(w1.len() as int, t.len() as int));
    assert(s2 =~= (w2 + s2).subrange(w2.len() as int, t.len() as int));
}

fn digit_str(d: u64) -> (r: &'static str)
    requires
        d < 10,
    ensures
        r@ == seq![digit_char(d as nat)],
{
    if d == 0 {
        proof {
            reveal_strlit("0");
        }
        "0"
    } else if d == 1 {
        proof {
            reveal_strlit("1");
        }
        "1"
    } else if d == 2 {
        proof {
            reveal_strlit("2");
        }
        "2"
    } else if d == 3 {
        proof {
            reveal_strlit("3");
        }
        "3"
    } else if d == 4 {
        proof {
            reveal_strlit("4");
        }
        "4"
    } else if d == 5 {
        proof {
            reveal_strlit("5");
        }
        "5"
    } else if d == 6 {
        proof {
            reveal_strlit("6");
        }
        "6"
    } else if d == 7 {
        proof {
            reveal_strlit("7");
        }
        "7"
    } else if d == 8 {
        proof {
            reveal_strlit("8");
        }
        "8"
    } else {
        proof {
            reveal_strlit("9");
        }
        "9"
    }
}

/// Appends the decimal form of a number.
pub fn push_decimal(s: &mut String, n: u64)
    ensures
        final(s)@ == old(s)@ + decimal(n as nat),
    decreases n,
{
    if n >= 10 {
        push_decimal(s, n / 10);
    }
    s.append(digit_str(n % 10));
    assert(s@ =~= old(s)@ + decimal(n as nat));
}

/// A string holding a copy of a string constant.
pub fn string_of(lit: &str) -> (r: String)
    ensures
        r@ == lit@,
{
    String::from_str(lit)
}

/// An ASCII decimal digit.
pub open spec fn is_digit(c: char) -> bool {
    '0' <= c <= '9'
}

/// The value of a decimal digit character.
pub open spec fn digit_value(c: char) -> nat {
    (c as u32 - '0' as u32) as nat
}

/// The number that a string of decimal digits denotes.
pub open spec fn digits_value(s: Seq<char>) -> nat
    decreases s.len(),
{
    if s.len() == 0 {
        0
    } else {
        digits_value(s.drop_last()) * 10 + digit_value(s.last())
    }
}

/// The length in bytes of the UTF-8 encoding of a character.
pub open spec fn char_utf8_len(c: char) -> nat {
    if (c as u32) < 0x80 {
        1
    } else if (c as u32) < 0x800 {
        2
    } else if (c as u32) < 0x10000 {
        3
    } else {
        4
    }
}

/// The length in bytes of the UTF-8 encoding of a string.
pub open spec fn utf8_len(s: Seq<char>) -> nat
    decreases s.len(),
{
    if s.len() == 0 {
        0
    } else {
        utf8_len(s.drop_last()) + char_utf8_len(s.last())
    }
}

/// The index of the first ASCII digit of `s` at or after `i` (the length of
/// `s` when there is none).
pub open spec fn first_digit_from(s: Seq<char>, i: int) -> int
    decreases s.len() - i,
{
    if i >= s.len() || i < 0 {
        s.len() as int
    } else if is_digit(s[i]) {
        i
    } else {
        first_digit_from(s, i + 1)
    }
}

/// The index of the first ASCII digit of a string.
pub open spec fn first_digit(s: Seq<char>) -> int {
    first_digit_from(s, 0)
}

/// When some character at or after `i` is a digit, `first_digit_from(s, i)`
/// is the first such digit.
pub proof fn lemma_first_digit_from(s: Seq<char>, i: int, p: int)
    requires
        0 <= i <= p < s.len(),
        is_digit(s[p]),
    ensures
        i <= first_digit_from(s, i) <= p,
        is_digit(s[first_digit_from(s, i)]),
        forall|j: int| i <= j < first_digit_from(s, i) ==> !is_digit(#[trigger] s[j]),
    decreases s.len() - i,
{
    if !is_digit(s[i]) {
        lemma_first_digit_from(s, i + 1, p);
    }
}

/// A pin name that ends in a number: it holds a digit, every character from
/// the first digit on is a digit, and that number fits in a `u32`.
pub open spec fn is_numbered_name(s: Seq<char>) -> bool {
    &&& exists|p: int| 0 <= p < s.len() && is_digit(#[trigger] s[p])
    &&& forall|j: int| first_digit(s) <= j < s.len() ==> is_digit(#[trigger] s[j])
    &&& digits_value(s.skip(first_digit(s))) <= u32::MAX
}

/// Extending a string of digits does not make its value smaller.
pub proof fn lemma_digits_prefix_le(s: Seq<char>, k: int)
    requires
        0 <= k <= s.len(),
    ensures
        digits_value(s.take(k)) <= digits_value(s),
    decreases s.len() - k,
{
    if k < s.len() {
        lemma_digits_prefix_le(s, k + 1);
        assert(s.take(k + 1).drop_last() =~= s.take(k));
    } else {
        assert(s.take(k) =~= s);
    }
}

/// A prefix of a string is no longer in UTF-8 than the string.
pub proof fn lemma_utf8_prefix_le(s: Seq<char>, k: int)
    requires
        0 <= k <= s.len(),
    ensures
        utf8_len(s.take(k)) <= utf8_len(s),
    decreases s.len() - k,
{
    if k < s.len() {
        lemma_utf8_prefix_le(s, k + 1);
        assert(s.take(k + 1).drop_last() =~= s.take(k));
    } else {
        assert(s.take(k) =~= s);
    }
}

/// The sort key of a pin name: the byte position of its first digit, the
/// letters before it and the number from it on.  `A10` sorts after `A9`.
pub fn name_sort_key(name: &str) -> (r: (usize, &str, u32))
    requires
        is_numbered_name(name@),
        utf8_len(name@) <= usize::MAX,
    ensures
        r.0 == utf8_len(name@.take(first_digit(name@))),
        r.1@ == name@.take(first_digit(name@)),
        r.2 == digits_value(name@.skip(first_digit(name@))),
{
    let n = name.unicode_len();
    let ghost s = name@;
    let ghost fd = first_digit(s);
    proof {
        let p = choose|p: int| 0 <= p < s.len() && is_digit(#[trigger] s[p]);
        lemma_first_digit_from(s, 0, p);
    }
    let mut i: usize = 0;
    let mut bytes: usize = 0;
    loop
        invariant
            n == s.len(),
            s == name@,
            fd == first_digit(s),
            0 <= fd < n,
            is_digit(s[fd]),
            0 <= i <= fd,
            first_digit_from(s, i as int) == fd,
            bytes == utf8_len(s.take(i as int)),
            utf8_len(s) <= usize::MAX,
        ensures
            i == fd,
            bytes == utf8_len(s.take(i as int)),
        decreases n - i,
    {
        let c = name.get_char(i);
        if '0' <= c && c <= '9' {
            assert(is_digit(s[i as int]));
            break;
        }
        proof {
            lemma_utf8_prefix_le(s, i + 1);
        }
        let cu = c as u32;
        let len: usize = if cu < 0x80 {
            1
        } else if cu < 0x800 {
            2
        } else if cu < 0x10000 {
            3
        } else {
            4
        };
        assert(s.take(i + 1).drop_last() =~= s.take(i as int));
        bytes = bytes + len;
        i = i + 1;
    }
    let pre = name.substring_char(0, i);
    let mut v: u64 = 0;
    let mut k: usize = i;
    let ghost t = s.skip(fd);
    while k < n
        invariant
            n == s.len(),
            s == name@,
            fd == i,
            fd == first_digit(s),
            t == s.skip(fd),
            is_numbered_name(s),
            i <= k <= n,
            v == digits_value(t.take(k - i)),
            v <= u32::MAX,
        decreases n - k,
    {
        let c = name.get_char(k);
        assert(is_digit(s[k as int]));
        assert(t[k - i] == s[k as int]);
        assert(t.take(k - i + 1).drop_last() =~= t.take(k - i));
        proof {
            lemma_digits_prefix_le(t, k - i + 1);
            assert(t.take(k - i + 1).last() == c);
        }
        v = v * 10 + (c as u64 - '0' as u64);
        k = k + 1;
    }
    assert(t.take(n - i) =~= t);
    (bytes, pre, v as u32)
}

/// Strict lexicographic order of texts by character: the order in which
/// `str` compares (by UTF-8 bytes, which order characters by code point).
pub open spec fn chars_lt(a: Seq<char>, b: Seq<char>) -> bool
    decreases a.len(),
{
    if a.len() == 0 {
        b.len() > 0
    } else if b.len() == 0 {
        false
    } else if a[0] != b[0] {
        (a[0] as u32) < (b[0] as u32)
    } else {
        chars_lt(a.skip(1), b.skip(1))
    }
}

/// A sort key of a pin name: the byte position of its first digit, the
/// letters before it and the number from it on.
pub type PinKey = (usize, Seq<char>, u32);

/// The sort key of a numbered pin name.
pub open spec fn pin_key(name: Seq<char>) -> PinKey {
    let fd = first_digit(name);
    (utf8_len(name.take(fd)) as usize, name.take(fd), digits_value(name.skip(fd)) as u32)
}

/// The view of an executable sort key.
pub open spec fn key_view(k: (usize, String, u32)) -> PinKey {
    (k.0, k.1@, k.2)
}

/// Strict order of sort keys: by position of the first digit, then by the
/// letters before it, then by the number.
pub open spec fn key_lt(a: PinKey, b: PinKey) -> bool {
    a.0 < b.0 || (a.0 == b.0 && (chars_lt(a.1, b.1) || (a.1 == b.1 && a.2 < b.2)))
}

/// `o` lists the indices of `keys` once each, in ascending order of their
/// keys, equal keys in index order: what a stable sort by key gives.
pub open spec fn is_stable_order(keys: Seq<PinKey>, o: Seq<usize>) -> bool {
    &&& o.len() == keys.len()
    &&& forall|i: int| 0 <= i < o.len() ==> #[trigger] o[i] < keys.len()
    &&& forall|i: int, j: int| 0 <= i < j < o.len() ==> #[trigger] o[i] != #[trigger] o[j]
    &&& forall|i: int, j: int|
        0 <= i < j < o.len() ==> key_lt(keys[#[trigger] o[i] as int], keys[#[trigger] o[j] as int]) || (keys[o[i] as int]
            == keys[o[j] as int] && o[i] < o[j])
}

proof fn lemma_chars_lt_irreflexive(a: Seq<char>)
    ensures
        !chars_lt(a, a),
    decreases a.len(),
{
    if a.len() > 0 {
        lemma_chars_lt_irreflexive(a.skip(1));
    }
}

proof fn lemma_chars_lt_asymmetric(a: Seq<char>, b: Seq<char>)
    requires
        chars_lt(a, b),
    ensures
        !chars_lt(b, a),
    decreases a.len(),
{
    if a.len() > 0 && b.len() > 0 && a[0] == b[0] {
        lemma_chars_lt_asymmetric(a.skip(1), b.skip(1));
    }
}

/// `key_lt` is a strict order: irreflexive and asymmetric.
proof fn lemma_key_lt_strict(x: PinKey, y: PinKey)
    ensures
        !key_lt(x, x),
        !(key_lt(x, y) && key_lt(y, x)),
{
    lemma_chars_lt_irreflexive(x.1);
    if chars_lt(x.1, y.1) {
        lemma_chars_lt_asymmetric(x.1, y.1);
    }
}

/// A list of `n` distinct indices below `n` holds every index below `n`.
proof fn lemma_distinct_indices_cover(o: Seq<usize>, v: int)
    requires
        forall|i: int| 0 <= i < o.len() ==> #[trigger] o[i] < o.len(),
        forall|i: int, j: int| 0 <= i < j < o.len() ==> #[trigger] o[i] != #[trigger] o[j],
        0 <= v < o.len(),
    ensures
        exists|i: int| 0 <= i < o.len() && o[i] == v,
{
    let s = o.map_values(|x: usize| x as int);
    assert(s.no_duplicates()) by {
        assert forall|i: int, j: int| 0 <= i < s.len() && 0 <= j < s.len() && i != j implies s[i] != s[j] by {
            if i < j {
                assert(o[i] != o[j]);
            } else {
                assert(o[j] != o[i]);
            }
        }
    }
    s.unique_seq_to_set();
    vstd::set_lib::lemma_int_range(0, o.len() as int);
    let r = vstd::set_lib::set_int_range(0, o.len() as int);
    assert(s.to_set().subset_of(r)) by {
        assert forall|x: int| s.to_set().contains(x) implies r.contains(x) by {
            let i = choose|i: int| 0 <= i < s.len() && s[i] == x;
            assert(o[i] < o.len());
        }
    }
    vstd::seq_lib::seq_to_set_is_finite(s);
    vstd::set_lib::lemma_subset_equality(s.to_set(), r);
    assert(r.contains(v));
    assert(s.to_set().contains(v));
    let i = choose|i: int| 0 <= i < s.len() && s[i] == v;
    assert(o[i] == v);
}

/// Two stable orders of `keys` agree on their first `i + 1` places.
proof fn lemma_stable_orders_agree_to(keys: Seq<PinKey>, o1: Seq<usize>, o2: Seq<usize>, i: int)
    requires
        is_stable_order(keys, o1),
        is_stable_order(keys, o2),
        0 <= i < o1.len(),
    ensures
        forall|k: int| 0 <= k <= i ==> o1[k] == o2[k],
    decreases i,
{
    if i > 0 {
        lemma_stable_orders_agree_to(keys, o1, o2, i - 1);
    }
    let a = o1[i];
    let b = o2[i];
    if a != b {
        lemma_distinct_indices_cover(o1, b as int);
        let p = choose|p: int| 0 <= p < o1.len() && o1[p] == b;
        lemma_distinct_indices_cover(o2, a as int);
        let q = choose|q: int| 0 <= q < o2.len() && o2[q] == a;
        if p < i {
            assert(o2[p] == b);
            assert(o2[p] != o2[i]);
        }
        if q < i {
            assert(o1[q] == a);
            assert(o1[q] != o1[i]);
        }
        assert(p > i && q > i);
        assert(key_lt(keys[o1[i] as int], keys[o1[p] as int]) || (keys[o1[i] as int] == keys[o1[p] as int]
            && o1[i] < o1[p]));
        assert(key_lt(keys[o2[i] as int], keys[o2[q] as int]) || (keys[o2[i] as int] == keys[o2[q] as int]
            && o2[i] < o2[q]));
        lemma_key_lt_strict(keys[a as int], keys[b as int]);
    }
}

/// A stable order is unique: two orders that each list the indices of
/// `keys` once, ascending by key with equal keys in index order, are the
/// same order.
pub proof fn lemma_stable_order_unique(keys: Seq<PinKey>, o1: Seq<usize>, o2: Seq<usize>)
    requires
        is_stable_order(keys, o1),
        is_stable_order(keys, o2),
    ensures
        o1 == o2,
{
    if o1.len() > 0 {
        lemma_stable_orders_agree_to(keys, o1, o2, o1.len() - 1);
    }
    assert(o1 =~= o2);
}

/// Calls `Itertools::sorted_by_key` on the indices of `keys`, keyed by the
/// key at each index.  It sorts with `slice::sort_by_key`, which is stable;
/// the tuple order is the field-by-field order, `String` comparing as
/// `chars_lt` says.
#[verifier::external_body]
pub(crate) fn sorted_indices_by_key(keys: &Vec<(usize, String, u32)>) -> (r: Vec<usize>)
    ensures
        is_stable_order(keys@.map_values(|k: (usize, String, u32)| key_view(k)), r@),
{
    (0..keys.len()).sorted_by_key(|&i| &keys[i]).collect()
}

/// The indices of a list of numbered pin names, ordered by their sort keys
/// (equal keys in list order).
pub fn pin_order(names: &Vec<&str>) -> (r: Vec<usize>)
    requires
        forall|k: int| 0 <= k < names@.len() ==> is_numbered_name((#[trigger] names@[k])@),
        forall|k: int| 0 <= k < names@.len() ==> utf8_len((#[trigger] names@[k])@) <= usize::MAX,
    ensures
        is_stable_order(names@.map_values(|n: &str| pin_key(n@)), r@),
{
    let mut keys: Vec<(usize, String, u32)> = Vec::new();
    let mut k: usize = 0;
    while k < names.len()
        invariant
            k <= names@.len(),
            forall|j: int| 0 <= j < names@.len() ==> is_numbered_name((#[trigger] names@[j])@),
            forall|j: int| 0 <= j < names@.len() ==> utf8_len((#[trigger] names@[j])@) <= usize::MAX,
            keys@.len() == k,
            forall|j: int| 0 <= j < k ==> key_view(#[trigger] keys@[j]) == pin_key(names@[j]@),
        decreases names@.len() - k,
    {
        let name = names[k];
        let (pos, pre, num) = name_sort_key(name);
        keys.push((pos, String::from_str(pre), num));
        k = k + 1;
    }
    let r = sorted_indices_by_key(&keys);
    assert(keys@.map_values(|k: (usize, String, u32)| key_view(k)) =~= names@.map_values(|n: &str| pin_key(n@)));
    r
}

/// A text padded with spaces on the right to at least `w` characters.
pub open spec fn pad_right(s: Seq<char>, w: nat) -> Seq<char> {
    if s.len() < w {
        s + Seq::new((w - s.len()) as nat, |i: int| ' ')
    } else {
        s
    }
}

/// Appends a text padded with spaces on the right to at least `w` characters.
pub fn push_padded(s: &mut String, t: &str, w: usize)
    ensures
        final(s)@ == old(s)@ + pad_right(t@, w as nat),
{
    s.append(t);
    let n = t.unicode_len();
    let mut k = n;
    while k < w
        invariant
            n == t@.len(),
            n <= k,
            k < w ==> s@ == old(s)@ + t@ + Seq::new((k - n) as nat, |i: int| ' '),
            k >= w ==> s@ == old(s)@ + pad_right(t@, w as nat),
        decreases w - k,
    {
        s.append(" ");
        k = k + 1;
        proof {
            reveal_strlit(" ");
            assert(s@ =~= old(s)@ + t@ + Seq::new((k - n) as nat, |i: int| ' '));
        }
    }
    if n >= w {
        assert(s@ =~= old(s)@ + pad_right(t@, w as nat));
    }
}

// ---------------------------------------------------------------- pin tables

/// The names of a pin list ascend strictly: each name is below every later
/// one, so no name occurs twice.
pub open spec fn names_ascending<P>(pins: Seq<(String, P)>) -> bool {
    forall|i: int, j: int| 0 <= i < j < pins.len() ==> chars_lt(#[trigger] pins[i].0@, #[trigger] pins[j].0@)
}

/// The pin names of the pads that `sel` picks, by the key it gives them; of
/// two pins with the same key the later one counts.
pub open spec fn pin_names<P, K>(pins: Seq<(String, P)>, sel: spec_fn(P) -> Option<K>) -> Map<K, Seq<char>>
    decreases pins.len(),
{
    if pins.len() == 0 {
        Map::empty()
    } else {
        let m = pin_names(pins.drop_last(), sel);
        match sel(pins.last().1) {
            Some(k) => m.insert(k, pins.last().0@),
            None => m,
        }
    }
}

/// `name` is the greatest name among the pins whose pad has key `k`.
pub open spec fn greatest_pin_name<P, K>(pins: Seq<(String, P)>, sel: spec_fn(P) -> Option<K>, k: K, name: Seq<char>) -> bool {
    exists|i: int|
        0 <= i < pins.len() && sel(pins[i].1) == Some(k) && pins[i].0@ == name && forall|j: int|
            0 <= j < pins.len() && sel(pins[j].1) == Some(k) ==> j == i || chars_lt(#[trigger] pins[j].0@, name)
}

/// `m` holds a key exactly where some pin's pad has it, and maps it to the
/// greatest name among those pins.
pub open spec fn names_by_greatest<P, K>(pins: Seq<(String, P)>, sel: spec_fn(P) -> Option<K>, m: Map<K, Seq<char>>) -> bool {
    forall|k: K|
        (m.dom().contains(k) <==> exists|i: int| 0 <= i < pins.len() && #[trigger] sel(pins[i].1) == Some(k)) && (
        #[trigger] m.dom().contains(k) ==> greatest_pin_name(pins, sel, k, m[k]))
}

/// With names in ascending order, the later of two pins with the same key
/// is the one with the greater name: the pin names by key are the greatest
/// names, and a key is there exactly where some pin has it.
pub proof fn lemma_pin_names_greatest<P, K>(pins: Seq<(String, P)>, sel: spec_fn(P) -> Option<K>)
    requires
        names_ascending(pins),
    ensures
        names_by_greatest(pins, sel, pin_names(pins, sel)),
    decreases pins.len(),
{
    if pins.len() > 0 {
        let init = pins.drop_last();
        let n = pins.len() - 1;
        assert forall|i: int, j: int| 0 <= i < j < init.len() implies chars_lt(#[trigger] init[i].0@, #[trigger] init[j].0@) by {
            assert(init[i] == pins[i] && init[j] == pins[j]);
        }
        lemma_pin_names_greatest(init, sel);
        let m0 = pin_names(init, sel);
        let m = pin_names(pins, sel);
        assert forall|k: K|
            (m.dom().contains(k) <==> exists|i: int| 0 <= i < pins.len() && #[trigger] sel(pins[i].1) == Some(k)) && (
            #[trigger] m.dom().contains(k) ==> greatest_pin_name(pins, sel, k, m[k])) by {
            if sel(pins[n].1) == Some(k) {
                assert(m[k] == pins[n].0@);
                assert forall|j: int| 0 <= j < pins.len() && sel(pins[j].1) == Some(k) implies j == n || chars_lt(
                    #[trigger] pins[j].0@,
                    m[k],
                ) by {
                    if j != n {
                        assert(chars_lt(pins[j].0@, pins[n].0@));
                    }
                }
            } else {
                assert(m.dom().contains(k) == m0.dom().contains(k));
                if exists|i: int| 0 <= i < pins.len() && #[trigger] sel(pins[i].1) == Some(k) {
                    let i = choose|i: int| 0 <= i < pins.len() && #[trigger] sel(pins[i].1) == Some(k);
                    assert(init[i] == pins[i]);
                }
                if exists|i: int| 0 <= i < init.len() && #[trigger] sel(init[i].1) == Some(k) {
                    let i = choose|i: int| 0 <= i < init.len() && #[trigger] sel(init[i].1) == Some(k);
                    assert(init[i] == pins[i]);
                }
                if m.dom().contains(k) {
                    assert(m[k] == m0[k]);
                    let i = choose|i: int|
                        0 <= i < init.len() && sel(init[i].1) == Some(k) && init[i].0@ == m0[k] && forall|j: int|
                            0 <= j < init.len() && sel(init[j].1) == Some(k) ==> j == i || chars_lt(
                                #[trigger] init[j].0@,
                                m0[k],
                            );
                    assert(pins[i] == init[i]);
                    assert forall|j: int| 0 <= j < pins.len() && sel(pins[j].1) == Some(k) implies j == i || chars_lt(
                        #[trigger] pins[j].0@,
                        m[k],
                    ) by {
                        assert(pins[j] == init[j]);
                    }
                }
            }
        }
    }
}

proof fn lemma_chars_lt_transitive(a: Seq<char>, b: Seq<char>, c: Seq<char>)
    requires
        chars_lt(a, b),
        chars_lt(b, c),
    ensures
        chars_lt(a, c),
    decreases a.len(),
{
    if a.len() > 0 && b.len() > 0 && c.len() > 0 && a[0] == b[0] && b[0] == c[0] {
        lemma_chars_lt_transitive(a.skip(1), b.skip(1), c.skip(1));
    }
}

/// Whether `a` comes before `b` in string order.
pub fn str_lt(a: &str, b: &str) -> (r: bool)
    ensures
        r == chars_lt(a@, b@),
{
    let n = a.unicode_len();
    let m = b.unicode_len();
    let mut i: usize = 0;
    assert(a@.skip(0) =~= a@ && b@.skip(0) =~= b@);
    while i < n && i < m
        invariant
            i <= n,
            i <= m,
            n == a@.len(),
            m == b@.len(),
            chars_lt(a@, b@) == chars_lt(a@.skip(i as int), b@.skip(i as int)),
        decreases n - i,
    {
        let x = a.get_char(i);
        let y = b.get_char(i);
        assert(a@.skip(i as int)[0] == x && b@.skip(i as int)[0] == y);
        if x != y {
            return (x as u32) < (y as u32);
        }
        assert(a@.skip(i as int).skip(1) =~= a@.skip(i + 1));
        assert(b@.skip(i as int).skip(1) =~= b@.skip(i + 1));
        i = i + 1;
    }
    i < m && i == n
}

/// Whether the names of a pin list ascend strictly.
pub fn check_names_ascending<P>(pins: &Vec<(String, P)>) -> (r: bool)
    ensures
        r == names_ascending(pins@),
{
    let mut i: usize = 1;
    if pins.len() == 0 {
        return true;
    }
    while i < pins.len()
        invariant
            1 <= i <= pins@.len(),
            forall|a: int, b: int| 0 <= a < b < i ==> chars_lt(#[trigger] pins@[a].0@, #[trigger] pins@[b].0@),
        decreases pins@.len() - i,
    {
        if !str_lt(pins[i - 1].0.as_str(), pins[i].0.as_str()) {
            assert(!chars_lt(pins@[i - 1].0@, pins@[i as int].0@));
            return false;
        }
        assert forall|a: int, b: int| 0 <= a < b < i + 1 implies chars_lt(#[trigger] pins@[a].0@, #[trigger] pins@[b].0@) by {
            if b == i && a < i - 1 {
                lemma_chars_lt_transitive(pins@[a].0@, pins@[i - 1].0@, pins@[i as int].0@);
            }
        }
        i = i + 1;
    }
    true
}

} // verus!
