//! Conversions between strings and character vectors, and the small text
//! operations the rest of the library is written with.
//!
//! Every operation is stated over `Seq<char>`, the view of a string.

use vstd::prelude::*;

verus! {

/// `String::push` of the standard library appends one character to the end of
/// the string and leaves the characters before it as they were.
pub assume_specification[ String::push ](s: &mut String, c: char)
    ensures
        final(s)@ == old(s)@.push(c),
;

/// The position of the first `c` in `s`, or the length of `s` if there is none.
pub open spec fn first_index(s: Seq<char>, c: char) -> int
    decreases s.len(),
{
    if s.len() == 0 || s[0] == c {
        0
    } else {
        1 + first_index(s.drop_first(), c)
    }
}

/// The pieces written one after another with `sep` between neighbours.
pub open spec fn join(parts: Seq<Seq<char>>, sep: Seq<char>) -> Seq<char>
    decreases parts.len(),
{
    if parts.len() == 0 {
        Seq::empty()
    } else if parts.len() == 1 {
        parts[0]
    } else {
        join(parts.drop_last(), sep) + sep + parts.last()
    }
}

/// The views of the strings of a vector, in order.
pub open spec fn views(v: Seq<String>) -> Seq<Seq<char>> {
    Seq::new(v.len(), |i: int| v[i]@)
}

/// The decimal digit that stands for `d`, for `d` below ten.
pub open spec fn digit_char(d: nat) -> char {
    if d == 0 {
        '0'
    } else if d == 1 {
        '1'
    } else if d == 2 {
        '2'
    } else if d == 3 {
        '3'
    } else if d == 4 {
        '4'
    } else if d == 5 {
        '5'
    } else if d == 6 {
        '6'
    } else if d == 7 {
        '7'
    } else if d == 8 {
        '8'
    } else {
        '9'
    }
}

/// The number in decimal, without leading zeros; zero is `"0"`.
pub open spec fn decimal(n: nat) -> Seq<char>
    decreases n,
{
    if n < 10 {
        seq![digit_char(n)]
    } else {
        decimal(n / 10).push(digit_char(n % 10))
    }
}

/// The value of a decimal digit, or `None` for any other character.
pub open spec fn digit_value(c: char) -> Option<nat> {
    if c == '0' {
        Some(0nat)
    } else if c == '1' {
        Some(1nat)
    } else if c == '2' {
        Some(2nat)
    } else if c == '3' {
        Some(3nat)
    } else if c == '4' {
        Some(4nat)
    } else if c == '5' {
        Some(5nat)
    } else if c == '6' {
        Some(6nat)
    } else if c == '7' {
        Some(7nat)
    } else if c == '8' {
        Some(8nat)
    } else if c == '9' {
        Some(9nat)
    } else {
        None
    }
}

/// Whether every character of `s` is a decimal digit.
pub open spec fn all_digits(s: Seq<char>) -> bool {
    forall|i: int| 0 <= i < s.len() ==> (#[trigger] digit_value(s[i])) is Some
}

/// The number that a run of decimal digits writes; leading zeros count for
/// nothing.
pub open spec fn digits_value(s: Seq<char>) -> nat
    decreases s.len(),
{
    if s.len() == 0 {
        0
    } else {
        digits_value(s.drop_last()) * 10 + digit_value(s.last()).unwrap_or(0)
    }
}

/// The unsigned 64-bit number that `s` writes in decimal: an optional `+`,
/// then one digit or more, the value within range. Anything else is `None`.
pub open spec fn unsigned_of(s: Seq<char>) -> Option<u64> {
    let body = if s.len() > 0 && s[0] == '+' {
        s.drop_first()
    } else {
        s
    };
    if body.len() > 0 && all_digits(body) && digits_value(body) <= u64::MAX {
        Some(digits_value(body) as u64)
    } else {
        None
    }
}

/// If no character before `i` is `c`, and position `i` ends the text or holds
/// `c`, then `i` is the first index of `c`.
pub proof fn lemma_first_index(s: Seq<char>, c: char, i: int)
    requires
        0 <= i <= s.len(),
        forall|k: int| 0 <= k < i ==> s[k] != c,
        i < s.len() ==> s[i] == c,
    ensures
        first_index(s, c) == i,
    decreases s.len(),
{
    if s.len() == 0 || s[0] == c {
    } else {
        let t = s.drop_first();
        assert forall|k: int| 0 <= k < i - 1 implies t[k] != c by {
            assert(t[k] == s[k + 1]);
        }
        lemma_first_index(t, c, i - 1);
    }
}

/// The characters of `s`, in order.
pub fn chars_of(s: &str) -> (r: Vec<char>)
    ensures
        r@ == s@,
{
    let mut out: Vec<char> = Vec::new();
    for c in it: s.chars()
        invariant
            it.seq() == s@,
            out@ =~= s@.take(it.index() as int),
    {
        out.push(c);
    }
    out
}

/// The string made of the characters of `v`, in order.
pub fn string_of(v: &Vec<char>) -> (r: String)
    ensures
        r@ == v@,
{
    let mut out = String::new();
    let mut i: usize = 0;
    while i < v.len()
        invariant
            i <= v.len(),
            out@ =~= v@.take(i as int),
        decreases v.len() - i,
    {
        out.push(v[i]);
        i += 1;
    }
    out
}

/// The characters of `v` from position `from` up to, not including, `to`.
pub fn slice_of(v: &Vec<char>, from: usize, to: usize) -> (r: Vec<char>)
    requires
        from <= to <= v.len(),
    ensures
        r@ == v@.subrange(from as int, to as int),
{
    let mut out: Vec<char> = Vec::new();
    let mut i: usize = from;
    while i < to
        invariant
            from <= i <= to <= v.len(),
            out@ =~= v@.subrange(from as int, i as int),
        decreases to - i,
    {
        out.push(v[i]);
        i += 1;
    }
    out
}

/// The position of the first `c` at or after `from`, or the length of `v`.
pub fn find_from(v: &Vec<char>, from: usize, c: char) -> (r: usize)
    requires
        from <= v.len(),
    ensures
        from <= r <= v.len(),
        r == from + first_index(v@.skip(from as int), c),
{
    let mut i: usize = from;
    while i < v.len() && v[i] != c
        invariant
            from <= i <= v.len(),
            forall|k: int| from <= k < i ==> v@[k] != c,
        decreases v.len() - i,
    {
        i += 1;
    }
    proof {
        let t = v@.skip(from as int);
        assert forall|k: int| 0 <= k < i - from implies t[k] != c by {
            assert(t[k] == v@[k + from]);
        }
        lemma_first_index(t, c, i - from);
    }
    i
}

/// Whether `v` begins with `prefix`.
pub fn starts_with(v: &Vec<char>, prefix: &Vec<char>) -> (r: bool)
    ensures
        r == prefix@.is_prefix_of(v@),
{
    if prefix.len() > v.len() {
        return false;
    }
    let mut i: usize = 0;
    while i < prefix.len()
        invariant
            i <= prefix.len() <= v.len(),
            forall|k: int| 0 <= k < i ==> prefix@[k] == v@[k],
        decreases prefix.len() - i,
    {
        if prefix[i] != v[i] {
            proof {
                assert(v@.subrange(0, prefix@.len() as int)[i as int] == v@[i as int]);
            }
            return false;
        }
        i += 1;
    }
    true
}

/// Whether `v` ends with `suffix`.
pub fn ends_with(v: &Vec<char>, suffix: &Vec<char>) -> (r: bool)
    ensures
        r == suffix@.is_suffix_of(v@),
{
    if suffix.len() > v.len() {
        return false;
    }
    let base: usize = v.len() - suffix.len();
    let mut i: usize = 0;
    while i < suffix.len()
        invariant
            i <= suffix.len() <= v.len(),
            base == v.len() - suffix.len(),
            forall|k: int| 0 <= k < i ==> suffix@[k] == v@[base + k],
        decreases suffix.len() - i,
    {
        if suffix[i] != v[base + i] {
            proof {
                assert(v@.subrange(base as int, v@.len() as int)[i as int] == v@[base + i]);
            }
            return false;
        }
        i += 1;
    }
    true
}

/// Whether two character vectors hold the same text.
pub fn same_text(a: &Vec<char>, b: &Vec<char>) -> (r: bool)
    ensures
        r == (a@ == b@),
{
    if a.len() != b.len() {
        return false;
    }
    let r = starts_with(a, b);
    proof {
        if r {
            assert(a@ =~= b@);
        }
    }
    r
}


/// The views of the character vectors of a vector, in order.
pub open spec fn rows(v: Seq<Vec<char>>) -> Seq<Seq<char>> {
    Seq::new(v.len(), |i: int| v[i]@)
}

/// The list with `word` at its end, unless `word` is empty.
pub open spec fn with_word(list: Seq<Seq<char>>, word: Seq<char>) -> Seq<Seq<char>> {
    if word.len() > 0 {
        list.push(word)
    } else {
        list
    }
}

/// The words of `s`, where `current` is the beginning of a word that `s`
/// goes on with: white space ends a word, and anything else belongs to one.
pub open spec fn words_from(s: Seq<char>, current: Seq<char>) -> Seq<Seq<char>>
    decreases s.len(),
{
    if s.len() == 0 {
        with_word(Seq::empty(), current)
    } else if is_space(s[0]) {
        with_word(Seq::empty(), current) + words_from(s.drop_first(), Seq::empty())
    } else {
        words_from(s.drop_first(), current.push(s[0]))
    }
}

/// The words of `s`: its pieces between runs of white space, none of them
/// empty.
pub open spec fn words(s: Seq<char>) -> Seq<Seq<char>> {
    words_from(s, Seq::empty())
}

/// Whether `word` is not empty and holds no white space.
pub open spec fn plain(word: Seq<char>) -> bool {
    word.len() > 0 && forall|j: int| 0 <= j < word.len() ==> !is_space(word[j])
}

/// Every word is a piece without white space that is not empty.
pub proof fn law_words(s: Seq<char>, current: Seq<char>)
    requires
        forall|j: int| 0 <= j < current.len() ==> !is_space(current[j]),
    ensures
        forall|i: int|
            0 <= i < words_from(s, current).len() ==> plain(#[trigger] words_from(s, current)[i]),
    decreases s.len(),
{
    let all = words_from(s, current);
    let first = with_word(Seq::empty(), current);
    if s.len() == 0 {
        assert forall|i: int| 0 <= i < all.len() implies plain(#[trigger] all[i]) by {
            assert(all[i] == current);
        }
    } else if is_space(s[0]) {
        let rest = words_from(s.drop_first(), Seq::empty());
        law_words(s.drop_first(), Seq::empty());
        assert forall|i: int| 0 <= i < all.len() implies plain(#[trigger] all[i]) by {
            if i < first.len() {
                assert(all[i] == current);
            } else {
                assert(all[i] == rest[i - first.len()]);
            }
        }
    } else {
        let longer = current.push(s[0]);
        assert forall|j: int| 0 <= j < longer.len() implies !is_space(longer[j]) by {
            if j < current.len() {
                assert(longer[j] == current[j]);
            }
        }
        law_words(s.drop_first(), longer);
        let next = words_from(s.drop_first(), longer);
        assert(all == next);
        assert forall|i: int| 0 <= i < all.len() implies plain(#[trigger] all[i]) by {
            assert(plain(next[i]));
        }
    }
}

/// The words of `v` from position `from` on.
pub fn split_words(v: &Vec<char>, from: usize) -> (r: Vec<Vec<char>>)
    requires
        from <= v.len(),
    ensures
        rows(r@) == words(v@.skip(from as int)),
{
    let mut out: Vec<Vec<char>> = Vec::new();
    let mut current: Vec<char> = Vec::new();
    let mut i: usize = from;
    proof {
        assert(rows(out@) + words_from(v@.skip(from as int), current@) =~= words(
            v@.skip(from as int),
        ));
    }
    while i < v.len()
        invariant
            from <= i <= v.len(),
            words(v@.skip(from as int)) == rows(out@) + words_from(v@.skip(i as int), current@),
        decreases v.len() - i,
    {
        let ghost rest = v@.skip(i as int);
        let ghost before = out@;
        let ghost word = current@;
        proof {
            assert(rest.drop_first() =~= v@.skip(i + 1));
            assert(rest[0] == v@[i as int]);
        }
        if is_white_space(v[i]) {
            if current.len() > 0 {
                out.push(current);
                current = Vec::new();
                proof {
                    assert(rows(out@) =~= rows(before).push(word));
                }
            }
            proof {
                assert(current@ =~= Seq::<char>::empty());
                assert(rows(before) + (with_word(Seq::empty(), word) + words_from(
                    v@.skip(i + 1),
                    Seq::empty(),
                )) =~= rows(out@) + words_from(v@.skip(i + 1), current@));
            }
        } else {
            current.push(v[i]);
        }
        i += 1;
    }
    let ghost before = out@;
    let ghost word = current@;
    proof {
        assert(v@.skip(v@.len() as int).len() == 0);
    }
    if current.len() > 0 {
        out.push(current);
        proof {
            assert(rows(out@) =~= rows(before).push(word));
        }
    }
    proof {
        assert(rows(before) + with_word(Seq::empty(), word) =~= rows(out@));
    }
    out
}

/// The strings written one after another with `sep` between neighbours.
pub fn join_strings(parts: &Vec<String>, sep: &str) -> (r: String)
    ensures
        r@ == join(views(parts@), sep@),
{
    let mut out = String::new();
    let mut i: usize = 0;
    while i < parts.len()
        invariant
            i <= parts.len(),
            out@ == join(views(parts@).take(i as int), sep@),
        decreases parts.len() - i,
    {
        let ghost before = views(parts@).take(i as int);
        let ghost now = views(parts@).take(i + 1);
        proof {
            assert(now.drop_last() =~= before);
            assert(now.last() == parts@[i as int]@);
        }
        if i > 0 {
            out.append(sep);
        }
        out.append(parts[i].as_str());
        proof {
            if i == 0 {
                assert(out@ =~= parts@[0]@);
            }
        }
        i += 1;
    }
    proof {
        assert(views(parts@).take(parts.len() as int) =~= views(parts@));
    }
    out
}

/// The character that writes the digit `d`.
pub fn digit_of(d: u64) -> (c: char)
    requires
        d < 10,
    ensures
        c == digit_char(d as nat),
{
    if d == 0 {
        '0'
    } else if d == 1 {
        '1'
    } else if d == 2 {
        '2'
    } else if d == 3 {
        '3'
    } else if d == 4 {
        '4'
    } else if d == 5 {
        '5'
    } else if d == 6 {
        '6'
    } else if d == 7 {
        '7'
    } else if d == 8 {
        '8'
    } else {
        '9'
    }
}

/// Appends `n` in decimal to `out`.
pub fn push_decimal(n: u64, out: &mut String)
    ensures
        final(out)@ == old(out)@ + decimal(n as nat),
    decreases n,
{
    if n >= 10 {
        push_decimal(n / 10, out);
    }
    out.push(digit_of(n % 10));
    proof {
        if n >= 10 {
            assert(final(out)@ =~= old(out)@ + decimal(n as nat));
        } else {
            assert(final(out)@ =~= old(out)@ + decimal(n as nat));
        }
    }
}

/// `n` written in decimal.
pub fn decimal_string(n: u64) -> (r: String)
    ensures
        r@ == decimal(n as nat),
{
    let mut out = String::new();
    push_decimal(n, &mut out);
    proof {
        assert(Seq::<char>::empty() + decimal(n as nat) =~= decimal(n as nat));
    }
    out
}

/// The value of the digit that `c` writes, if it writes one.
pub fn value_of_digit(c: char) -> (r: Option<u64>)
    ensures
        r is Some == digit_value(c) is Some,
        r is Some ==> r->0 == digit_value(c)->0 && r->0 < 10,
{
    if c == '0' {
        Some(0)
    } else if c == '1' {
        Some(1)
    } else if c == '2' {
        Some(2)
    } else if c == '3' {
        Some(3)
    } else if c == '4' {
        Some(4)
    } else if c == '5' {
        Some(5)
    } else if c == '6' {
        Some(6)
    } else if c == '7' {
        Some(7)
    } else if c == '8' {
        Some(8)
    } else if c == '9' {
        Some(9)
    } else {
        None
    }
}

/// A prefix of a run of digits writes no more than the whole run.
pub proof fn lemma_prefix_value(s: Seq<char>, k: int)
    requires
        0 <= k <= s.len(),
    ensures
        digits_value(s.take(k)) <= digits_value(s),
    decreases s.len(),
{
    if k == s.len() {
        assert(s.take(k) =~= s);
    } else {
        assert(s.drop_last().take(k) =~= s.take(k));
        lemma_prefix_value(s.drop_last(), k);
    }
}

/// The unsigned 64-bit number that `v` writes in decimal, if it writes one.
pub fn parse_unsigned(v: &Vec<char>) -> (r: Option<u64>)
    ensures
        r == unsigned_of(v@),
{
    let start: usize = if v.len() > 0 && v[0] == '+' {
        1
    } else {
        0
    };
    let ghost body = if v@.len() > 0 && v@[0] == '+' {
        v@.drop_first()
    } else {
        v@
    };
    if start == v.len() {
        return None;
    }
    let mut acc: u64 = 0;
    let mut i: usize = start;
    while i < v.len()
        invariant
            start <= i <= v.len(),
            body.len() == v.len() - start,
            body.len() > 0,
            body == (if v@.len() > 0 && v@[0] == '+' {
                v@.drop_first()
            } else {
                v@
            }),
            forall|k: int| 0 <= k < body.len() ==> body[k] == v@[k + start],
            all_digits(body.take(i - start)),
            acc == digits_value(body.take(i - start)),
        decreases v.len() - i,
    {
        let ghost seen = body.take(i - start);
        let ghost next = body.take(i - start + 1);
        proof {
            assert(next.drop_last() =~= seen);
            assert(body[i - start] == v@[i as int]);
            assert(next.last() == v@[i as int]);
            assert(digits_value(next) == digits_value(seen) * 10 + digit_value(
                v@[i as int],
            ).unwrap_or(0));
        }
        match value_of_digit(v[i]) {
            None => {
                proof {
                    assert(digit_value(body[i - start]) is None);
                    assert(!all_digits(body));
                }
                return None;
            },
            Some(d) => {
                if acc > (u64::MAX - d) / 10 {
                    proof {
                        assert(digits_value(next) == acc * 10 + d);
                        assert(digits_value(next) > u64::MAX);
                        lemma_prefix_value(body, i - start + 1);
                    }
                    return None;
                }
                acc = acc * 10 + d;
                proof {
                    assert forall|k: int| 0 <= k < next.len() implies (#[trigger] digit_value(
                        next[k],
                    )) is Some by {
                        if k < seen.len() {
                            assert(next[k] == seen[k]);
                        }
                    }
                }
            },
        }
        i += 1;
    }
    proof {
        assert(body.take(v.len() - start) =~= body);
    }
    Some(acc)
}


/// Whether `c` is white space: a character with the Unicode property
/// `White_Space`.
pub open spec fn is_space(c: char) -> bool {
    let n = c as u32;
    ||| 0x09 <= n <= 0x0D
    ||| n == 0x20
    ||| n == 0x85
    ||| n == 0xA0
    ||| n == 0x1680
    ||| 0x2000 <= n <= 0x200A
    ||| n == 0x2028
    ||| n == 0x2029
    ||| n == 0x202F
    ||| n == 0x205F
    ||| n == 0x3000
}

/// Tells whether `c` is white space.
pub fn is_white_space(c: char) -> (r: bool)
    ensures
        r == is_space(c),
{
    let n: u32 = c as u32;
    (0x09 <= n && n <= 0x0D) || n == 0x20 || n == 0x85 || n == 0xA0 || n == 0x1680 || (0x2000 <= n
        && n <= 0x200A) || n == 0x2028 || n == 0x2029 || n == 0x202F || n == 0x205F || n == 0x3000
}

/// Whether `c` is stripped: a backtick where `ticks` is set, else white space.
pub open spec fn stripped(c: char, ticks: bool) -> bool {
    if ticks {
        c == '`'
    } else {
        is_space(c)
    }
}

/// `s` without the stripped characters at its start.
pub open spec fn drop_leading(s: Seq<char>, ticks: bool) -> Seq<char>
    decreases s.len(),
{
    if s.len() > 0 && stripped(s[0], ticks) {
        drop_leading(s.drop_first(), ticks)
    } else {
        s
    }
}

/// `s` without the stripped characters at its end.
pub open spec fn drop_trailing(s: Seq<char>, ticks: bool) -> Seq<char>
    decreases s.len(),
{
    if s.len() > 0 && stripped(s.last(), ticks) {
        drop_trailing(s.drop_last(), ticks)
    } else {
        s
    }
}

/// `s` without the copies of `word` at its start.
pub open spec fn drop_leading_word(s: Seq<char>, word: Seq<char>) -> Seq<char>
    decreases s.len(),
{
    if word.len() > 0 && word.is_prefix_of(s) {
        drop_leading_word(s.skip(word.len() as int), word)
    } else {
        s
    }
}

/// `s` without the white space at its start and at its end.
pub open spec fn trimmed(s: Seq<char>) -> Seq<char> {
    drop_trailing(drop_leading(s, false), false)
}

/// Whether `c` is stripped.
pub fn is_stripped(c: char, ticks: bool) -> (r: bool)
    ensures
        r == stripped(c, ticks),
{
    if ticks {
        c == '`'
    } else {
        is_white_space(c)
    }
}

/// The start of the window from `lo` to `hi` once the stripped characters at
/// its start are left out.
pub fn skip_leading(v: &Vec<char>, lo: usize, hi: usize, ticks: bool) -> (r: usize)
    requires
        lo <= hi <= v.len(),
    ensures
        lo <= r <= hi,
        v@.subrange(r as int, hi as int) == drop_leading(v@.subrange(lo as int, hi as int), ticks),
{
    let mut i: usize = lo;
    while i < hi && is_stripped(v[i], ticks)
        invariant
            lo <= i <= hi <= v.len(),
            drop_leading(v@.subrange(i as int, hi as int), ticks) == drop_leading(
                v@.subrange(lo as int, hi as int),
                ticks,
            ),
        decreases hi - i,
    {
        proof {
            assert(v@.subrange(i as int, hi as int).drop_first() =~= v@.subrange(
                i + 1,
                hi as int,
            ));
        }
        i += 1;
    }
    i
}

/// The end of the window from `lo` to `hi` once the stripped characters at
/// its end are left out.
pub fn skip_trailing(v: &Vec<char>, lo: usize, hi: usize, ticks: bool) -> (r: usize)
    requires
        lo <= hi <= v.len(),
    ensures
        lo <= r <= hi,
        v@.subrange(lo as int, r as int) == drop_trailing(v@.subrange(lo as int, hi as int), ticks),
{
    let mut i: usize = hi;
    while i > lo && is_stripped(v[i - 1], ticks)
        invariant
            lo <= i <= hi <= v.len(),
            drop_trailing(v@.subrange(lo as int, i as int), ticks) == drop_trailing(
                v@.subrange(lo as int, hi as int),
                ticks,
            ),
        decreases i - lo,
    {
        proof {
            assert(v@.subrange(lo as int, i as int).drop_last() =~= v@.subrange(
                lo as int,
                i - 1,
            ));
        }
        i -= 1;
    }
    i
}

/// Whether the window from `lo` to `hi` begins with `word`.
pub fn window_starts_with(v: &Vec<char>, lo: usize, hi: usize, word: &Vec<char>) -> (r: bool)
    requires
        lo <= hi <= v.len(),
    ensures
        r == word@.is_prefix_of(v@.subrange(lo as int, hi as int)),
{
    if word.len() > hi - lo {
        return false;
    }
    let ghost window = v@.subrange(lo as int, hi as int);
    let mut i: usize = 0;
    while i < word.len()
        invariant
            lo <= hi <= v.len(),
            i <= word.len() <= hi - lo,
            window == v@.subrange(lo as int, hi as int),
            forall|k: int| 0 <= k < i ==> word@[k] == window[k],
        decreases word.len() - i,
    {
        if word[i] != v[lo + i] {
            proof {
                assert(window.subrange(0, word@.len() as int)[i as int] == window[i as int]);
            }
            return false;
        }
        i += 1;
    }
    true
}

/// The start of the window from `lo` to `hi` once the copies of `word` at
/// its start are left out.
pub fn skip_word(v: &Vec<char>, lo: usize, hi: usize, word: &Vec<char>) -> (r: usize)
    requires
        lo <= hi <= v.len(),
    ensures
        lo <= r <= hi,
        v@.subrange(r as int, hi as int) == drop_leading_word(
            v@.subrange(lo as int, hi as int),
            word@,
        ),
{
    let mut i: usize = lo;
    if word.len() == 0 {
        return i;
    }
    while window_starts_with(v, i, hi, word)
        invariant
            lo <= i <= hi <= v.len(),
            word.len() > 0,
            drop_leading_word(v@.subrange(i as int, hi as int), word@) == drop_leading_word(
                v@.subrange(lo as int, hi as int),
                word@,
            ),
        decreases hi - i,
    {
        proof {
            assert(v@.subrange(i as int, hi as int).skip(word@.len() as int) =~= v@.subrange(
                i + word@.len(),
                hi as int,
            ));
        }
        i += word.len();
    }
    i
}

} // verus!
