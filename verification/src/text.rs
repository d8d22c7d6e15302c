//! Character classes and string helpers shared by the name validators and the
//! message builders.

use vstd::prelude::*;
use vstd::utf8::*;
use vstd::string::*;

verus! {

/// Whether `c` is alphabetic or numeric in the sense of Unicode (the rule
/// that `char::is_alphanumeric` applies).
pub uninterp spec fn unicode_alphanumeric(c: char) -> bool;

/// ASCII letters and digits.
pub open spec fn is_ascii_alnum(c: char) -> bool {
    ('a' <= c <= 'z') || ('A' <= c <= 'Z') || ('0' <= c <= '9')
}

/// Calls `char::is_alphanumeric`. The result is named by
/// `unicode_alphanumeric`; the one fact stated besides is the one its
/// documentation gives for the ASCII range: there the alphanumeric
/// characters are exactly the letters and the digits.
#[verifier::external_body]
pub(crate) fn char_is_alphanumeric(c: char) -> (r: bool)
    ensures
        r == unicode_alphanumeric(c),
        (c as u32) < 0x80 ==> (r <==> is_ascii_alnum(c)),
{
    c.is_alphanumeric()
}

/// Number of bytes of the UTF-8 encoding of a character sequence.
pub open spec fn utf8_len(s: Seq<char>) -> nat {
    encode_utf8(s).len()
}

/// Number of bytes of the UTF-8 encoding of one character.
pub open spec fn char_utf8_width(c: char) -> nat {
    if (c as u32) <= 0x7F {
        1
    } else if (c as u32) <= 0x7FF {
        2
    } else if (c as u32) <= 0xFFFF {
        3
    } else {
        4
    }
}

pub proof fn lemma_encode_scalar_len(c: char)
    ensures
        encode_scalar(c as u32).len() == char_utf8_width(c),
{
    char_is_scalar(c);
}

pub proof fn lemma_utf8_len_push(s: Seq<char>, c: char)
    ensures
        utf8_len(s.push(c)) == utf8_len(s) + char_utf8_width(c),
    decreases s.len(),
{
    lemma_encode_scalar_len(c);
    if s.len() == 0 {
        assert(s.push(c).drop_first() =~= Seq::<char>::empty());
        assert(encode_utf8(Seq::<char>::empty()) =~= Seq::<u8>::empty());
    } else {
        lemma_encode_scalar_len(s[0]);
        assert(s.push(c).drop_first() =~= s.drop_first().push(c));
        lemma_utf8_len_push(s.drop_first(), c);
    }
}

} // verus!

verus! {

/// The characters of `s`, in order.
pub fn chars_of(s: &str) -> (v: Vec<char>)
    ensures
        v@ == s@,
{
    let mut v: Vec<char> = Vec::new();
    for c in it: s.chars()
        invariant
            v@ == it.seq().take(it.index() as int),
            it.seq() == s@,
    {
        v.push(c);
        assert(v@ == it.seq().take(it.index() as int + 1));
    }
    assert(v@ =~= s@);
    v
}

} // verus!

verus! {

/// `s` cut at every occurrence of `sep`, as `str::split` cuts it: there is
/// always at least one part, and `k` separators give `k + 1` parts.
pub open spec fn split_on(s: Seq<char>, sep: char) -> Seq<Seq<char>>
    decreases s.len(),
{
    if s.len() == 0 {
        seq![Seq::<char>::empty()]
    } else {
        let parts = split_on(s.drop_last(), sep);
        if s.last() == sep {
            parts.push(Seq::<char>::empty())
        } else {
            parts.update(parts.len() - 1, parts.last().push(s.last()))
        }
    }
}

/// The parts joined again, with `sep` between each two.
pub open spec fn join_with(parts: Seq<Seq<char>>, sep: char) -> Seq<char>
    decreases parts.len(),
{
    if parts.len() <= 1 {
        if parts.len() == 0 {
            Seq::empty()
        } else {
            parts[0]
        }
    } else {
        join_with(parts.drop_last(), sep).push(sep) + parts.last()
    }
}

/// Cutting never gives an empty list of parts, no part holds the
/// separator, and joining the parts gives the text back.
pub proof fn lemma_split_parts(s: Seq<char>, sep: char)
    ensures
        split_on(s, sep).len() >= 1,
        forall|i: int| 0 <= i < split_on(s, sep).len() ==> !(#[trigger] split_on(s, sep)[i]).contains(sep),
        join_with(split_on(s, sep), sep) == s,
    decreases s.len(),
{
    if s.len() == 0 {
        assert(!Seq::<char>::empty().contains(sep));
    } else {
        let prev = s.drop_last();
        lemma_split_parts(prev, sep);
        let parts = split_on(prev, sep);
        let x = s.last();
        assert(prev.push(x) =~= s);
        if x == sep {
            let now = parts.push(Seq::<char>::empty());
            assert(now.drop_last() =~= parts);
            assert forall|i: int| 0 <= i < now.len() implies !(#[trigger] now[i]).contains(sep) by {
                if i < parts.len() {
                    assert(now[i] == parts[i]);
                } else {
                    assert(!Seq::<char>::empty().contains(sep));
                }
            }
            assert(join_with(now, sep) =~= s);
        } else {
            let n = parts.len() - 1;
            let now = parts.update(n, parts.last().push(x));
            assert forall|i: int| 0 <= i < now.len() implies !(#[trigger] now[i]).contains(sep) by {
                if i < n {
                    assert(now[i] == parts[i]);
                } else {
                    let p = parts.last();
                    assert(!p.contains(sep));
                    if now[i].contains(sep) {
                        let j = choose|j: int| 0 <= j < now[i].len() && now[i][j] == sep;
                        if j < p.len() {
                            assert(p[j] == sep);
                        }
                    }
                }
            }
            if parts.len() == 1 {
                assert(now =~= seq![parts[0].push(x)]);
            } else {
                assert(now.drop_last() =~= parts.drop_last());
                assert(join_with(now, sep) =~= join_with(parts, sep).push(x));
            }
        }
    }
}

/// A text with exactly one separator is cut into the text before it and
/// the text after it.
pub proof fn lemma_split_once(a: Seq<char>, b: Seq<char>, sep: char)
    requires
        !a.contains(sep),
        !b.contains(sep),
    ensures
        split_on(a.push(sep) + b, sep) == seq![a, b],
    decreases b.len(),
{
    if b.len() == 0 {
        assert(a.push(sep) + b =~= a.push(sep));
        assert((a.push(sep)).drop_last() =~= a);
        lemma_split_without(a, sep);
        assert(b =~= Seq::<char>::empty());
        assert(split_on(a.push(sep), sep) =~= seq![a, Seq::<char>::empty()]);
    } else {
        let s = a.push(sep) + b;
        let b0 = b.drop_last();
        assert(!b0.contains(sep)) by {
            if b0.contains(sep) {
                let j = choose|j: int| 0 <= j < b0.len() && b0[j] == sep;
                assert(b[j] == sep);
            }
        }
        lemma_split_once(a, b0, sep);
        assert(s.drop_last() =~= a.push(sep) + b0);
        assert(s.last() == b.last());
        assert(b.contains(b.last()));
        assert(b0.push(b.last()) =~= b);
        assert(split_on(s, sep) =~= seq![a, b]);
    }
}

/// A text with one separator, at `i`, is cut there.
pub proof fn lemma_split_at(s: Seq<char>, sep: char, i: int)
    requires
        0 <= i < s.len(),
        s[i] == sep,
        at_most_once(s, sep),
    ensures
        split_on(s, sep) == seq![s.take(i), s.skip(i + 1)],
{
    let a = s.take(i);
    let b = s.skip(i + 1);
    assert(s =~= a.push(sep) + b);
    assert(!a.contains(sep)) by {
        if a.contains(sep) {
            let j = choose|j: int| 0 <= j < a.len() && a[j] == sep;
            assert(s[j] == sep);
        }
    }
    assert(!b.contains(sep)) by {
        if b.contains(sep) {
            let j = choose|j: int| 0 <= j < b.len() && b[j] == sep;
            assert(s[i + 1 + j] == sep);
        }
    }
    lemma_split_once(a, b, sep);
}

/// A text cut into two parts is the first part, the separator and the
/// second part, and holds the separator once.
pub proof fn lemma_split_two(s: Seq<char>, sep: char)
    requires
        split_on(s, sep).len() == 2,
    ensures
        s == split_on(s, sep)[0].push(sep) + split_on(s, sep)[1],
        !split_on(s, sep)[0].contains(sep),
        !split_on(s, sep)[1].contains(sep),
        s[split_on(s, sep)[0].len() as int] == sep,
        at_most_once(s, sep),
{
    lemma_split_parts(s, sep);
    let parts = split_on(s, sep);
    let a = parts[0];
    let b = parts[1];
    assert(parts.drop_last() =~= seq![a]);
    assert(join_with(parts.drop_last(), sep) == a);
    assert(s =~= a.push(sep) + b);
    assert(s[a.len() as int] == sep);
    assert forall|i: int, k: int| 0 <= i < s.len() && 0 <= k < s.len() && s[i] == sep && s[k] == sep implies i == k by {
        if i < a.len() {
            assert(a[i] == sep);
        } else if i > a.len() {
            assert(b[i - a.len() - 1] == sep);
        }
        if k < a.len() {
            assert(a[k] == sep);
        } else if k > a.len() {
            assert(b[k - a.len() - 1] == sep);
        }
    }
}

/// A text without the separator is one part.
pub proof fn lemma_split_without(s: Seq<char>, sep: char)
    requires
        !s.contains(sep),
    ensures
        split_on(s, sep) == seq![s],
    decreases s.len(),
{
    if s.len() > 0 {
        let prev = s.drop_last();
        assert(!prev.contains(sep)) by {
            if prev.contains(sep) {
                let j = choose|j: int| 0 <= j < prev.len() && prev[j] == sep;
                assert(s[j] == sep);
            }
        }
        lemma_split_without(prev, sep);
        assert(s.contains(s.last()));
        assert(prev.push(s.last()) =~= s);
        assert(split_on(s, sep) =~= seq![s]);
    } else {
        assert(s =~= Seq::<char>::empty());
        assert(split_on(s, sep) =~= seq![s]);
    }
}

/// A part of a name is well formed when it is not empty and its UTF-8
/// encoding has at least two bytes.
pub open spec fn part_has_two_bytes(p: Seq<char>) -> bool {
    p.len() > 0 && utf8_len(p) >= 2
}

pub open spec fn all_parts_have_two_bytes(parts: Seq<Seq<char>>) -> bool {
    forall|k: int| 0 <= k < parts.len() ==> #[trigger] part_has_two_bytes(parts[k])
}

/// UTF-8 width of a character.
pub fn char_width(c: char) -> (w: usize)
    ensures
        w == char_utf8_width(c),
{
    let u = c as u32;
    if u <= 0x7F {
        1
    } else if u <= 0x7FF {
        2
    } else if u <= 0xFFFF {
        3
    } else {
        4
    }
}

pub proof fn lemma_all_parts_push(parts: Seq<Seq<char>>, p: Seq<char>)
    ensures
        all_parts_have_two_bytes(parts.push(p)) == (all_parts_have_two_bytes(parts)
            && part_has_two_bytes(p)),
{
    let q = parts.push(p);
    if all_parts_have_two_bytes(parts) && part_has_two_bytes(p) {
        assert forall|k: int| 0 <= k < q.len() implies #[trigger] part_has_two_bytes(q[k]) by {
            if k < parts.len() {
                assert(q[k] == parts[k]);
            }
        }
    }
    if all_parts_have_two_bytes(q) {
        assert(part_has_two_bytes(q[parts.len() as int]));
        assert forall|k: int| 0 <= k < parts.len() implies #[trigger] part_has_two_bytes(parts[k]) by {
            assert(q[k] == parts[k]);
            assert(part_has_two_bytes(q[k]));
        }
    }
}

/// Whether every part of `v` cut at `sep` is non-empty and at least two
/// bytes long.
pub fn parts_have_two_bytes(v: &Vec<char>, sep: char) -> (r: bool)
    ensures
        r == all_parts_have_two_bytes(split_on(v@, sep)),
{
    let mut ok = true;
    let mut cur_len: usize = 0;
    let mut cur_bytes: usize = 0;
    let mut i: usize = 0;
    proof {
        assert(v@.take(0) =~= Seq::<char>::empty());
        assert(split_on(v@.take(0), sep).drop_last() =~= Seq::<Seq<char>>::empty());
    }
    while i < v.len()
        invariant
            0 <= i <= v.len(),
            cur_len <= i,
            ({
                let parts = split_on(v@.take(i as int), sep);
                &&& parts.len() >= 1
                &&& cur_len == parts.last().len()
                &&& cur_bytes == (if utf8_len(parts.last()) >= 2 { 2 } else { utf8_len(parts.last()) })
                &&& ok == all_parts_have_two_bytes(parts.drop_last())
            }),
        decreases v.len() - i,
    {
        let c = v[i];
        let ghost old_parts = split_on(v@.take(i as int), sep);
        proof {
            assert(v@.take(i as int + 1).drop_last() =~= v@.take(i as int));
            assert(v@.take(i as int + 1).last() == c);
            assert(old_parts.drop_last().push(old_parts.last()) =~= old_parts);
        }
        if c == sep {
            let last_ok = cur_len > 0 && cur_bytes >= 2;
            ok = ok && last_ok;
            cur_len = 0;
            cur_bytes = 0;
            proof {
                let parts = split_on(v@.take(i as int + 1), sep);
                assert(parts == old_parts.push(Seq::<char>::empty()));
                assert(encode_utf8(Seq::<char>::empty()) =~= Seq::<u8>::empty());
                assert(parts.drop_last() =~= old_parts);
                lemma_all_parts_push(old_parts.drop_last(), old_parts.last());
            }
        } else {
            let w = char_width(c);
            proof {
                lemma_utf8_len_push(old_parts.last(), c);
            }
            if cur_bytes < 2 {
                cur_bytes = cur_bytes + w;
                if cur_bytes > 2 {
                    cur_bytes = 2;
                }
            }
            cur_len = cur_len + 1;
            proof {
                let parts = split_on(v@.take(i as int + 1), sep);
                assert(parts == old_parts.update(old_parts.len() - 1, old_parts.last().push(c)));
                assert(parts.drop_last() =~= old_parts.drop_last());
            }
        }
        i = i + 1;
    }
    proof {
        assert(v@.take(v.len() as int) =~= v@);
        let parts = split_on(v@, sep);
        assert(parts.drop_last().push(parts.last()) =~= parts);
        lemma_all_parts_push(parts.drop_last(), parts.last());
    }
    ok && cur_len > 0 && cur_bytes >= 2
}

} // verus!

verus! {

/// Every character is alphanumeric or one of `extra`.
pub open spec fn all_alnum_or(s: Seq<char>, extra: Seq<char>) -> bool {
    forall|i: int| 0 <= i < s.len() ==> #[trigger] alnum_or(s[i], extra)
}

pub open spec fn alnum_or(c: char, extra: Seq<char>) -> bool {
    unicode_alphanumeric(c) || extra.contains(c)
}

pub fn char_in(c: char, set: &[char]) -> (r: bool)
    ensures
        r == set@.contains(c),
{
    let mut i: usize = 0;
    while i < set.len()
        invariant
            0 <= i <= set.len(),
            forall|j: int| 0 <= j < i ==> set@[j] != c,
        decreases set.len() - i,
    {
        if set[i] == c {
            return true;
        }
        i = i + 1;
    }
    false
}

/// Whether every character of `v` is alphanumeric or one of `extra`.
pub fn all_alnum_or_any_of(v: &Vec<char>, extra: &[char]) -> (r: bool)
    ensures
        r == all_alnum_or(v@, extra@),
{
    let mut i: usize = 0;
    while i < v.len()
        invariant
            0 <= i <= v.len(),
            forall|j: int| 0 <= j < i ==> #[trigger] alnum_or(v@[j], extra@),
        decreases v.len() - i,
    {
        let c = v[i];
        if !(char_is_alphanumeric(c) || char_in(c, extra)) {
            assert(!alnum_or(v@[i as int], extra@));
            return false;
        }
        i = i + 1;
    }
    true
}

/// Whether `c` occurs in `v`.
pub fn has_char(v: &Vec<char>, c: char) -> (r: bool)
    ensures
        r == v@.contains(c),
{
    let mut i: usize = 0;
    while i < v.len()
        invariant
            0 <= i <= v.len(),
            forall|j: int| 0 <= j < i ==> v@[j] != c,
        decreases v.len() - i,
    {
        if v[i] == c {
            return true;
        }
        i = i + 1;
    }
    false
}

/// Whether two character sequences are equal.
pub fn chars_eq(a: &Vec<char>, b: &Vec<char>) -> (r: bool)
    ensures
        r == (a@ == b@),
{
    if a.len() != b.len() {
        return false;
    }
    let mut i: usize = 0;
    while i < a.len()
        invariant
            0 <= i <= a.len(),
            a.len() == b.len(),
            forall|j: int| 0 <= j < i ==> a@[j] == b@[j],
        decreases a.len() - i,
    {
        if a[i] != b[i] {
            return false;
        }
        i = i + 1;
    }
    assert(a@ =~= b@);
    true
}

/// Whether two strings hold the same characters.
pub fn str_eq(a: &str, b: &str) -> (r: bool)
    ensures
        r == (a@ == b@),
{
    let va = chars_of(a);
    let vb = chars_of(b);
    chars_eq(&va, &vb)
}

/// Whether `s` is one of `options`.
pub fn str_in(s: &str, options: &[&str]) -> (r: bool)
    ensures
        r == exists|i: int| 0 <= i < options@.len() && options@[i]@ == s@,
{
    let mut i: usize = 0;
    while i < options.len()
        invariant
            0 <= i <= options.len(),
            forall|j: int| 0 <= j < i ==> options@[j]@ != s@,
        decreases options.len() - i,
    {
        if str_eq(options[i], s) {
            return true;
        }
        i = i + 1;
    }
    false
}

} // verus!

verus! {

/// Whether the UTF-8 encoding of `v` has at most `max` bytes.
pub fn utf8_len_at_most(v: &Vec<char>, max: usize) -> (r: bool)
    requires
        max <= 0x1_0000,
    ensures
        r == (utf8_len(v@) <= max),
{
    let mut total: usize = 0;
    let mut i: usize = 0;
    proof {
        assert(v@.take(0) =~= Seq::<char>::empty());
        assert(encode_utf8(Seq::<char>::empty()) =~= Seq::<u8>::empty());
    }
    while i < v.len()
        invariant
            0 <= i <= v.len(),
            max <= 0x1_0000,
            total == utf8_len(v@.take(i as int)),
            total <= max,
        decreases v.len() - i,
    {
        let w = char_width(v[i]);
        proof {
            assert(v@.take(i as int + 1) =~= v@.take(i as int).push(v@[i as int]));
            lemma_utf8_len_push(v@.take(i as int), v@[i as int]);
        }
        total = total + w;
        if total > max {
            proof {
                lemma_utf8_len_prefix_le(v@, i as int + 1);
            }
            return false;
        }
        i = i + 1;
    }
    proof {
        assert(v@.take(v.len() as int) =~= v@);
    }
    true
}

/// The encoding of a prefix is no longer than the encoding of the whole.
pub proof fn lemma_utf8_len_prefix_le(s: Seq<char>, n: int)
    requires
        0 <= n <= s.len(),
    ensures
        utf8_len(s.take(n)) <= utf8_len(s),
    decreases s.len() - n,
{
    if n < s.len() {
        lemma_utf8_len_prefix_le(s, n + 1);
        assert(s.take(n + 1) =~= s.take(n).push(s[n]));
        lemma_utf8_len_push(s.take(n), s[n]);
    } else {
        assert(s.take(n) =~= s);
    }
}

} // verus!

verus! {

/// `p` occurs in `s` as a contiguous run.
pub open spec fn seq_contains(s: Seq<char>, p: Seq<char>) -> bool {
    exists|i: int| 0 <= i && i + p.len() <= s.len() && #[trigger] s.subrange(i, i + p.len()) == p
}

pub open spec fn seq_ends_with(s: Seq<char>, p: Seq<char>) -> bool {
    p.len() <= s.len() && s.subrange(s.len() - p.len(), s.len() as int) == p
}

pub open spec fn seq_starts_with(s: Seq<char>, p: Seq<char>) -> bool {
    p.len() <= s.len() && s.subrange(0, p.len() as int) == p
}

/// Whether `p` equals `s[at..at + p.len()]`.
pub fn matches_at(s: &Vec<char>, p: &Vec<char>, at: usize) -> (r: bool)
    requires
        at + p.len() <= s.len(),
    ensures
        r == (s@.subrange(at as int, at + p.len()) == p@),
{
    let mut j: usize = 0;
    while j < p.len()
        invariant
            0 <= j <= p.len(),
            at + p.len() <= s.len(),
            forall|k: int| 0 <= k < j ==> s@[at + k] == p@[k],
        decreases p.len() - j,
    {
        if s[at + j] != p[j] {
            assert(s@.subrange(at as int, at + p.len())[j as int] != p@[j as int]);
            return false;
        }
        j = j + 1;
    }
    assert(s@.subrange(at as int, at + p.len()) =~= p@);
    true
}

/// Whether `p` occurs in `s`.
pub fn contains_seq(s: &Vec<char>, p: &Vec<char>) -> (r: bool)
    ensures
        r == seq_contains(s@, p@),
{
    if p.len() > s.len() {
        return false;
    }
    if p.len() == 0 {
        assert(s@.subrange(0, 0 + p@.len() as int) =~= p@);
        return true;
    }
    let last = s.len() - p.len();
    let mut i: usize = 0;
    while i <= last
        invariant
            0 < p.len() <= s.len(),
            last == s.len() - p.len(),
            0 <= i <= last + 1,
            forall|k: int| 0 <= k < i ==> #[trigger] s@.subrange(k, k + p.len()) != p@,
        decreases last + 1 - i,
    {
        if matches_at(s, p, i) {
            return true;
        }
        i = i + 1;
    }
    false
}

/// Whether `s` ends with `p`.
pub fn ends_with_seq(s: &Vec<char>, p: &Vec<char>) -> (r: bool)
    ensures
        r == seq_ends_with(s@, p@),
{
    if p.len() > s.len() {
        return false;
    }
    matches_at(s, p, s.len() - p.len())
}

/// Whether `s` starts with `p`.
pub fn starts_with_seq(s: &Vec<char>, p: &Vec<char>) -> (r: bool)
    ensures
        r == seq_starts_with(s@, p@),
{
    if p.len() > s.len() {
        return false;
    }
    matches_at(s, p, 0)
}

/// Whether the string `s` contains the string `p`.
pub fn str_contains(s: &str, p: &str) -> (r: bool)
    ensures
        r == seq_contains(s@, p@),
{
    let vs = chars_of(s);
    let vp = chars_of(p);
    contains_seq(&vs, &vp)
}

/// Whether the string `s` starts with the string `p`.
pub fn str_starts_with(s: &str, p: &str) -> (r: bool)
    ensures
        r == seq_starts_with(s@, p@),
{
    let vs = chars_of(s);
    let vp = chars_of(p);
    starts_with_seq(&vs, &vp)
}

/// Whether the string `s` ends with the string `p`.
pub fn str_ends_with(s: &str, p: &str) -> (r: bool)
    ensures
        r == seq_ends_with(s@, p@),
{
    let vs = chars_of(s);
    let vp = chars_of(p);
    ends_with_seq(&vs, &vp)
}

/// The concatenation of two strings.
pub fn concat2(a: &str, b: &str) -> (r: String)
    ensures
        r@ == a@ + b@,
{
    let mut r = a.to_owned();
    r.append(b);
    r
}

/// The concatenation of three strings.
pub fn concat3(a: &str, b: &str, c: &str) -> (r: String)
    ensures
        r@ == a@ + b@ + c@,
{
    let mut r = a.to_owned();
    r.append(b);
    r.append(c);
    r
}

/// The concatenation of five strings.
pub fn concat5(a: &str, b: &str, c: &str, d: &str, e: &str) -> (r: String)
    ensures
        r@ == a@ + b@ + c@ + d@ + e@,
{
    let mut r = a.to_owned();
    r.append(b);
    r.append(c);
    r.append(d);
    r.append(e);
    r
}

/// A copy of a string.
pub fn copy_string(s: &String) -> (r: String)
    ensures
        r@ == s@,
{
    s.as_str().to_owned()
}

/// A copy of an optional string.
pub fn copy_opt_string(s: &Option<String>) -> (r: Option<String>)
    ensures
        r is Some <==> s is Some,
        r is Some ==> r->0@ == s->0@,
{
    match s {
        Some(x) => Some(copy_string(x)),
        None => None,
    }
}

/// A copy of a vector of strings.
pub fn copy_strings(v: &Vec<String>) -> (r: Vec<String>)
    ensures
        r.len() == v.len(),
        forall|i: int| 0 <= i < v.len() ==> #[trigger] r@[i]@ == v@[i]@,
{
    let mut r: Vec<String> = Vec::new();
    let mut i: usize = 0;
    while i < v.len()
        invariant
            0 <= i <= v.len(),
            r.len() == i,
            forall|k: int| 0 <= k < i ==> #[trigger] r@[k]@ == v@[k]@,
        decreases v.len() - i,
    {
        r.push(copy_string(&v[i]));
        i = i + 1;
    }
    r
}

} // verus!

verus! {

/// `s` with every `from` replaced by `to`.
pub open spec fn replace_char(s: Seq<char>, from: char, to: char) -> Seq<char> {
    Seq::new(s.len(), |i: int| if s[i] == from { to } else { s[i] })
}

/// The string `s` with every `from` replaced by the one-character string `to`.
pub fn replace_char_in(s: &str, from: char, to: &str) -> (r: String)
    requires
        to@.len() == 1,
    ensures
        r@ == replace_char(s@, from, to@[0]),
{
    let v = chars_of(s);
    let n = v.len();
    let mut r = String::new();
    let mut start: usize = 0;
    let mut i: usize = 0;
    while i < n
        invariant
            n == v.len(),
            v@ == s@,
            to@.len() == 1,
            0 <= start <= i <= n,
            r@ == replace_char(s@.take(start as int), from, to@[0]),
            forall|k: int| start <= k < i ==> s@[k] != from,
        decreases n - i,
    {
        if v[i] == from {
            let piece = s.substring_char(start, i);
            proof {
                assert(replace_char(s@.take(i as int + 1), from, to@[0]) =~= replace_char(
                    s@.take(start as int),
                    from,
                    to@[0],
                ) + s@.subrange(start as int, i as int) + to@);
            }
            r.append(piece);
            r.append(to);
            start = i + 1;
        }
        i = i + 1;
    }
    let piece = s.substring_char(start, n);
    r.append(piece);
    proof {
        assert(s@.take(n as int) =~= s@);
        assert(replace_char(s@, from, to@[0]) =~= replace_char(s@.take(start as int), from, to@[0])
            + s@.subrange(start as int, n as int));
    }
    r
}

} // verus!

verus! {

/// `c` occurs nowhere in `s` but possibly at index 0.
pub open spec fn only_first_is(s: Seq<char>, c: char) -> bool {
    forall|i: int| 0 < i < s.len() ==> s[i] != c
}

/// `c` occurs at most once in `s`.
pub open spec fn at_most_once(s: Seq<char>, c: char) -> bool {
    forall|i: int, k: int| 0 <= i < s.len() && 0 <= k < s.len() && s[i] == c && s[k] == c ==> i == k
}

/// Every `c` in `s` is followed by a character that is none of `banned`.
pub open spec fn each_followed_by_none_of(s: Seq<char>, c: char, banned: Seq<char>) -> bool {
    forall|j: int| 0 <= j < s.len() && #[trigger] s[j] == c ==> j + 1 < s.len() && !banned.contains(s[j + 1])
}

pub fn check_only_first_is(v: &Vec<char>, c: char) -> (r: bool)
    ensures
        r == only_first_is(v@, c),
{
    let mut i: usize = 1;
    while i < v.len()
        invariant
            1 <= i,
            i <= v.len() || v.len() == 0,
            forall|k: int| 0 < k < i && k < v.len() ==> v@[k] != c,
        decreases v.len() - i,
    {
        if v[i] == c {
            return false;
        }
        i = i + 1;
    }
    true
}

pub fn check_at_most_once(v: &Vec<char>, c: char) -> (r: bool)
    ensures
        r == at_most_once(v@, c),
{
    let mut first: Option<usize> = None;
    let mut i: usize = 0;
    while i < v.len()
        invariant
            0 <= i <= v.len(),
            match first {
                None => forall|k: int| 0 <= k < i ==> v@[k] != c,
                Some(f) => f < i && v@[f as int] == c && forall|k: int| 0 <= k < i && k != f ==> v@[k] != c,
            },
        decreases v.len() - i,
    {
        if v[i] == c {
            match first {
                Some(f) => {
                    assert(v@[f as int] == c && v@[i as int] == c && f != i);
                    return false;
                },
                None => {
                    first = Some(i);
                },
            }
        }
        i = i + 1;
    }
    true
}

pub fn check_each_followed_by_none_of(v: &Vec<char>, c: char, banned: &[char]) -> (r: bool)
    ensures
        r == each_followed_by_none_of(v@, c, banned@),
{
    let mut j: usize = 0;
    while j < v.len()
        invariant
            0 <= j <= v.len(),
            forall|k: int| 0 <= k < j && #[trigger] v@[k] == c ==> k + 1 < v.len() && !banned@.contains(v@[k + 1]),
        decreases v.len() - j,
    {
        if v[j] == c {
            if j + 1 >= v.len() {
                return false;
            }
            if crate::text::char_in(v[j + 1], banned) {
                return false;
            }
        }
        j = j + 1;
    }
    true
}

/// The decimal digits.
pub open spec fn decimal_digits() -> Seq<char> {
    "0123456789"@
}

/// The decimal text of a number, without leading zeros.
pub open spec fn decimal(n: nat) -> Seq<char>
    decreases n,
{
    if n < 10 {
        seq![decimal_digits()[n as int]]
    } else {
        decimal(n / 10) + seq![decimal_digits()[(n % 10) as int]]
    }
}

/// The decimal text of `n`, as `format!("{}", n)` writes it.
pub fn decimal_text(n: u64) -> (r: String)
    ensures
        r@ == decimal(n as nat),
    decreases n,
{
    let digits = "0123456789";
    proof {
        reveal_strlit("0123456789");
    }
    let last = (n % 10) as usize;
    let digit = digits.substring_char(last, last + 1);
    if n < 10 {
        proof {
            assert(digit@ =~= seq![decimal_digits()[n as int]]);
        }
        digit.to_owned()
    } else {
        let head = decimal_text(n / 10);
        proof {
            assert(digit@ =~= seq![decimal_digits()[(n % 10) as int]]);
        }
        concat2(head.as_str(), digit)
    }
}

} // verus!
