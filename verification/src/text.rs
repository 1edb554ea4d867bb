//! Text handling over character sequences: prefixes, search, replacement,
//! splitting, joining and decimal integers, each stated as a spec function
//! over `Seq<char>` and implemented over `Vec<char>`.
use vstd::prelude::*;

verus! {

// ---------------------------------------------------------------------------
// Spec side
// ---------------------------------------------------------------------------

/// `p` is a prefix of `s`.
pub open spec fn has_prefix(s: Seq<char>, p: Seq<char>) -> bool {
    p.len() <= s.len() && s.subrange(0, p.len() as int) == p
}

/// `p` is a suffix of `s`.
pub open spec fn has_suffix(s: Seq<char>, p: Seq<char>) -> bool {
    p.len() <= s.len() && s.subrange(s.len() - p.len(), s.len() as int) == p
}

/// `p` occurs in `s` at position `i`.
pub open spec fn occurs_at(s: Seq<char>, p: Seq<char>, i: int) -> bool {
    0 <= i && i + p.len() <= s.len() && s.subrange(i, i + p.len()) == p
}

/// `p` occurs somewhere in `s` (the empty pattern occurs in every text).
pub open spec fn has_infix(s: Seq<char>, p: Seq<char>) -> bool {
    exists|i: int| #[trigger] occurs_at(s, p, i)
}

/// Every non-overlapping occurrence of `from`, scanned left to right, is
/// replaced by `to`; an empty pattern leaves the text as it is.
pub open spec fn replace_all(s: Seq<char>, from: Seq<char>, to: Seq<char>) -> Seq<char>
    decreases s.len(),
{
    if s.len() == 0 || from.len() == 0 {
        s
    } else if has_prefix(s, from) {
        to + replace_all(s.skip(from.len() as int), from, to)
    } else {
        seq![s[0]] + replace_all(s.skip(1), from, to)
    }
}

/// The pieces of `s` between occurrences of the separator `c`; there is
/// always at least one piece.
pub open spec fn split_on(s: Seq<char>, c: char) -> Seq<Seq<char>>
    decreases s.len(),
{
    if s.len() == 0 {
        seq![Seq::<char>::empty()]
    } else {
        let rest = split_on(s.drop_first(), c);
        if s[0] == c {
            seq![Seq::<char>::empty()] + rest
        } else {
            rest.update(0, seq![s[0]] + rest[0])
        }
    }
}

/// The pieces joined with `sep` between consecutive pieces.
pub open spec fn join_with(parts: Seq<Seq<char>>, sep: Seq<char>) -> Seq<char>
    decreases parts.len(),
{
    if parts.len() == 0 {
        Seq::<char>::empty()
    } else if parts.len() == 1 {
        parts[0]
    } else {
        join_with(parts.drop_last(), sep) + sep + parts.last()
    }
}

/// The text before the first occurrence of `p` (all of `s` when `p` does not
/// occur); this is the first piece that splitting by `p` yields.
pub open spec fn before_first(s: Seq<char>, p: Seq<char>) -> Seq<char>
    decreases s.len(),
{
    if p.len() == 0 || has_prefix(s, p) || s.len() == 0 {
        Seq::<char>::empty()
    } else {
        seq![s[0]] + before_first(s.drop_first(), p)
    }
}

pub open spec fn is_digit(c: char) -> bool {
    '0' <= c && c <= '9'
}

pub open spec fn all_digits(s: Seq<char>) -> bool {
    forall|i: int| 0 <= i < s.len() ==> #[trigger] is_digit(s[i])
}

pub open spec fn digit_value(c: char) -> int {
    (c as int) - ('0' as int)
}

/// The value of a string of decimal digits.
pub open spec fn digits_value(s: Seq<char>) -> int
    decreases s.len(),
{
    if s.len() == 0 {
        0
    } else {
        digits_value(s.drop_last()) * 10 + digit_value(s.last())
    }
}

/// What `str::parse` reads as a decimal integer before any range check: an
/// optional sign followed by at least one ASCII digit.
pub open spec fn decimal_value(s: Seq<char>) -> Option<int> {
    if s.len() == 0 {
        None
    } else if s[0] == '+' || s[0] == '-' {
        if s.len() == 1 || !all_digits(s.skip(1)) {
            None
        } else if s[0] == '-' {
            Some(-digits_value(s.skip(1)))
        } else {
            Some(digits_value(s.skip(1)))
        }
    } else if all_digits(s) {
        Some(digits_value(s))
    } else {
        None
    }
}

/// `str::parse` into a signed integer type with range `min..=max`.
pub open spec fn parse_signed(s: Seq<char>, min: int, max: int) -> Option<int> {
    match decimal_value(s) {
        Some(v) => if min <= v && v <= max {
            Some(v)
        } else {
            None
        },
        None => None,
    }
}

/// `str::parse` into an unsigned integer type with range `0..=max`: a minus
/// sign is not accepted.
pub open spec fn parse_unsigned(s: Seq<char>, max: int) -> Option<int> {
    if s.len() > 0 && s[0] == '-' {
        None
    } else {
        parse_signed(s, 0, max)
    }
}

pub open spec fn digit_char(d: int) -> char {
    (('0' as int) + d) as char
}

/// Decimal digits of a natural number, most significant first.
pub open spec fn nat_digits(n: nat) -> Seq<char>
    decreases n,
{
    if n < 10 {
        seq![digit_char(n as int)]
    } else {
        nat_digits((n / 10) as nat) + seq![digit_char((n % 10) as int)]
    }
}

/// Decimal rendering of an integer, as `to_string` writes it.
pub open spec fn int_text(n: int) -> Seq<char> {
    if n < 0 {
        seq!['-'] + nat_digits((-n) as nat)
    } else {
        nat_digits(n as nat)
    }
}

pub open spec fn ascii_upper_char(c: char) -> char {
    if 'a' <= c && c <= 'z' {
        ((c as int) - 32) as char
    } else {
        c
    }
}

/// `str::to_ascii_uppercase`: ASCII letters upper-cased, all else kept.
pub open spec fn ascii_upper(s: Seq<char>) -> Seq<char> {
    s.map_values(|c: char| ascii_upper_char(c))
}

/// The Unicode lower-case mapping of `str::to_lowercase`.
pub uninterp spec fn lowercase(s: Seq<char>) -> Seq<char>;

/// `char::is_numeric`: the character is in a Unicode numeric category.
pub uninterp spec fn numeric_char(c: char) -> bool;

/// Views of a sequence of strings.
pub open spec fn texts(v: Seq<String>) -> Seq<Seq<char>> {
    v.map_values(|s: String| s@)
}

/// Views of an optional list of strings.
pub open spec fn opt_texts(v: Option<Vec<String>>) -> Option<Seq<Seq<char>>> {
    match v {
        Some(l) => Some(texts(l@)),
        None => None,
    }
}

/// View of an optional string.
pub open spec fn opt_text(v: Option<String>) -> Option<Seq<char>> {
    match v {
        Some(s) => Some(s@),
        None => None,
    }
}

// ---------------------------------------------------------------------------
// Lemmas
// ---------------------------------------------------------------------------

pub proof fn lemma_split_nonempty(s: Seq<char>, c: char)
    ensures
        split_on(s, c).len() >= 1,
    decreases s.len(),
{
    if s.len() > 0 {
        lemma_split_nonempty(s.drop_first(), c);
    }
}

pub proof fn lemma_digits_prefix_le(s: Seq<char>, k: int)
    requires
        0 <= k <= s.len(),
        all_digits(s),
    ensures
        digits_value(s.take(k)) <= digits_value(s),
        0 <= digits_value(s.take(k)),
    decreases s.len(),
{
    assert(all_digits(s.take(k))) by {
        assert forall|i: int| 0 <= i < s.take(k).len() implies #[trigger] is_digit(s.take(k)[i]) by {
            assert(is_digit(s[i]));
        }
    }
    lemma_digits_nonneg(s.take(k));
    if k < s.len() {
        let d = s.drop_last();
        assert(all_digits(d)) by {
            assert forall|i: int| 0 <= i < d.len() implies #[trigger] is_digit(d[i]) by {
                assert(is_digit(s[i]));
            }
        }
        assert(d.take(k) == s.take(k));
        lemma_digits_prefix_le(d, k);
        lemma_digits_nonneg(d);
        assert(is_digit(s[s.len() - 1]));
        assert(digits_value(s) == digits_value(d) * 10 + digit_value(s.last()));
    } else {
        assert(s.take(k) == s);
    }
}

pub proof fn lemma_digits_nonneg(s: Seq<char>)
    requires
        all_digits(s),
    ensures
        digits_value(s) >= 0,
    decreases s.len(),
{
    if s.len() > 0 {
        let d = s.drop_last();
        assert(is_digit(s[s.len() - 1]));
        assert(all_digits(d)) by {
            assert forall|i: int| 0 <= i < d.len() implies #[trigger] is_digit(d[i]) by {
                assert(is_digit(s[i]));
            }
        }
        lemma_digits_nonneg(d);
    }
}

/// A one-character prefix is the first character.
pub proof fn lemma_char_prefix(s: Seq<char>, c: char)
    ensures
        has_prefix(s, seq![c]) <==> (s.len() > 0 && s[0] == c),
{
    if s.len() > 0 {
        assert(s.subrange(0, 1)[0] == s[0]);
        if s[0] == c {
            assert(s.subrange(0, 1) =~= seq![c]);
        }
    }
}

/// Text that begins with the pattern loses it to the replacement.
pub proof fn lemma_replace_all_prefix(from: Seq<char>, to: Seq<char>, rest: Seq<char>)
    requires
        from.len() > 0,
    ensures
        replace_all(from + rest, from, to) == to + replace_all(rest, from, to),
{
    let s = from + rest;
    assert(s.subrange(0, from.len() as int) =~= from);
    assert(s.skip(from.len() as int) =~= rest);
}

/// Characters that cannot start the pattern pass through unchanged.
pub proof fn lemma_replace_all_skips(t: Seq<char>, from: Seq<char>, to: Seq<char>, rest: Seq<char>)
    requires
        from.len() > 0,
        forall|i: int| 0 <= i < t.len() ==> t[i] != from[0],
    ensures
        replace_all(t + rest, from, to) == t + replace_all(rest, from, to),
    decreases t.len(),
{
    if t.len() == 0 {
        assert(t + rest =~= rest);
        assert(t + replace_all(rest, from, to) =~= replace_all(rest, from, to));
    } else {
        let s = t + rest;
        assert(s[0] == t[0]);
        assert(!has_prefix(s, from)) by {
            if has_prefix(s, from) {
                assert(s.subrange(0, from.len() as int)[0] == s[0]);
            }
        }
        let t1 = t.skip(1);
        assert(s.skip(1) =~= t1 + rest);
        lemma_replace_all_skips(t1, from, to, rest);
        assert(seq![t[0]] + (t1 + replace_all(rest, from, to)) =~= t + replace_all(rest, from, to));
    }
}

/// Text shorter than the pattern stays as it is.
pub proof fn lemma_replace_all_short(s: Seq<char>, from: Seq<char>, to: Seq<char>)
    requires
        s.len() < from.len(),
    ensures
        replace_all(s, from, to) == s,
    decreases s.len(),
{
    if s.len() > 0 {
        lemma_replace_all_short(s.skip(1), from, to);
        assert(seq![s[0]] + s.skip(1) =~= s);
    }
}

pub proof fn lemma_nat_digits(n: nat)
    ensures
        nat_digits(n).len() > 0,
        all_digits(nat_digits(n)),
        digits_value(nat_digits(n)) == n,
    decreases n,
{
    let c = digit_char((n % 10) as int);
    assert(digit_value(c) == n % 10);
    if n >= 10 {
        let q = (n / 10) as nat;
        lemma_nat_digits(q);
        let s = nat_digits(n);
        assert(s == nat_digits(q) + seq![c]);
        assert(s.drop_last() =~= nat_digits(q));
        assert(s.last() == c);
        assert(digits_value(s) == digits_value(s.drop_last()) * 10 + digit_value(s.last()));
        assert(q * 10 + n % 10 == n);
        assert forall|i: int| 0 <= i < s.len() implies #[trigger] is_digit(s[i]) by {
            if i < s.len() - 1 {
                assert(s[i] == nat_digits(q)[i]);
            }
        }
    } else {
        let s = nat_digits(n);
        assert(s.drop_last() =~= Seq::<char>::empty());
        assert(s.last() == c);
        assert(n % 10 == n);
        assert(digits_value(s) == digits_value(s.drop_last()) * 10 + digit_value(s.last()));
    }
}

/// The decimal text of an integer reads back as that integer.
pub proof fn lemma_int_text_reads(n: int, min: int, max: int)
    requires
        min <= n <= max,
    ensures
        parse_signed(int_text(n), min, max) == Some(n),
        forall|i: int| 0 <= i < int_text(n).len() ==> #[trigger] int_text(n)[i] == '-' || is_digit(int_text(n)[i]),
{
    if n < 0 {
        let m = (-n) as nat;
        lemma_nat_digits(m);
        let s = int_text(n);
        assert(s.skip(1) =~= nat_digits(m));
        assert forall|i: int| 0 <= i < s.len() implies #[trigger] s[i] == '-' || is_digit(s[i]) by {
            if i > 0 {
                assert(s[i] == nat_digits(m)[i - 1]);
            }
        }
    } else {
        lemma_nat_digits(n as nat);
        let s = int_text(n);
        assert(is_digit(s[0]));
    }
}

// ---------------------------------------------------------------------------
// What std provides, with the contracts its documentation gives
// ---------------------------------------------------------------------------

/// `String::push`: the character is appended to the end of the string.
#[verifier::external_body]
pub(crate) fn push_char(s: &mut String, c: char)
    ensures
        final(s)@ == old(s)@.push(c),
{
    s.push(c)
}

/// `str::to_lowercase`: the result is the Unicode lower-case mapping of the
/// text, named `lowercase` and not stated further.
#[verifier::external_body]
pub(crate) fn to_lowercase(s: &str) -> (r: String)
    ensures
        r@ == lowercase(s@),
{
    s.to_lowercase()
}

/// `char::is_numeric`: whether the character is numeric in Unicode, named
/// `numeric_char` and not stated further.
#[verifier::external_body]
pub(crate) fn is_numeric(c: char) -> (r: bool)
    ensures
        r == numeric_char(c),
{
    c.is_numeric()
}

// ---------------------------------------------------------------------------
// Executable side
// ---------------------------------------------------------------------------

/// The characters of a string.
pub fn chars_of(s: &str) -> (v: Vec<char>)
    ensures
        v@ == s@,
{
    let mut v: Vec<char> = Vec::new();
    for c in it: s.chars()
        invariant
            v@ == it.seq().take(it.index() as int),
            it.seq() == s@,
    {
        v.push(c);
    }
    v
}

/// A string holding the characters of `v`.
pub fn from_chars(v: &Vec<char>) -> (s: String)
    ensures
        s@ == v@,
{
    let mut s = String::new();
    let mut i: usize = 0;
    while i < v.len()
        invariant
            i <= v.len(),
            s@ == v@.take(i as int),
        decreases v.len() - i,
    {
        push_char(&mut s, v[i]);
        assert(v@.take(i + 1) == v@.take(i as int).push(v@[i as int]));
        i = i + 1;
    }
    assert(v@.take(v.len() as int) == v@);
    s
}

/// A copy of a string slice as an owned string.
pub fn owned(s: &str) -> (r: String)
    ensures
        r@ == s@,
{
    s.to_owned()
}

/// The concatenation of two texts.
pub fn concat(a: &str, b: &str) -> (r: String)
    ensures
        r@ == a@ + b@,
{
    let mut va = chars_of(a);
    let vb = chars_of(b);
    let mut i: usize = 0;
    let ghost a0 = va@;
    while i < vb.len()
        invariant
            i <= vb.len(),
            va@ == a0 + vb@.take(i as int),
        decreases vb.len() - i,
    {
        va.push(vb[i]);
        assert(vb@.take(i + 1) == vb@.take(i as int).push(vb@[i as int]));
        i = i + 1;
    }
    assert(vb@.take(vb.len() as int) == vb@);
    from_chars(&va)
}

/// Whether `p` occurs in `s` at position `i`.
pub fn occurs_at_exec(s: &Vec<char>, p: &Vec<char>, i: usize) -> (r: bool)
    ensures
        r == occurs_at(s@, p@, i as int),
{
    if i > s.len() || p.len() > s.len() - i {
        return false;
    }
    let mut j: usize = 0;
    while j < p.len()
        invariant
            j <= p.len(),
            i + p.len() <= s.len(),
            forall|k: int| 0 <= k < j ==> s@[i + k] == p@[k],
        decreases p.len() - j,
    {
        if s[i + j] != p[j] {
            assert(s@.subrange(i as int, i + p.len())[j as int] != p@[j as int]);
            return false;
        }
        j = j + 1;
    }
    assert(s@.subrange(i as int, i + p.len()) == p@);
    true
}

/// Whether `p` is a prefix of `s`.
pub fn starts_with(s: &str, p: &str) -> (r: bool)
    ensures
        r == has_prefix(s@, p@),
{
    let vs = chars_of(s);
    let vp = chars_of(p);
    let r = occurs_at_exec(&vs, &vp, 0);
    r
}

/// Whether `p` is a suffix of `s`.
pub fn ends_with(s: &str, p: &str) -> (r: bool)
    ensures
        r == has_suffix(s@, p@),
{
    let vs = chars_of(s);
    let vp = chars_of(p);
    if vp.len() > vs.len() {
        return false;
    }
    occurs_at_exec(&vs, &vp, vs.len() - vp.len())
}

/// Whether `p` occurs anywhere in `s`.
pub fn contains(s: &str, p: &str) -> (r: bool)
    ensures
        r == has_infix(s@, p@),
{
    let vs = chars_of(s);
    let vp = chars_of(p);
    if vp.len() == 0 {
        assert(s@.subrange(0, 0) == p@);
        assert(occurs_at(s@, p@, 0));
        return true;
    }
    if vp.len() > vs.len() {
        assert forall|i: int| !occurs_at(s@, p@, i) by {}
        return false;
    }
    let mut i: usize = 0;
    while i <= vs.len() - vp.len()
        invariant
            1 <= vp.len() <= vs.len(),
            i <= vs.len() - vp.len() + 1,
            vs@ == s@,
            vp@ == p@,
            forall|k: int| 0 <= k < i ==> !occurs_at(s@, p@, k),
        decreases vs.len() - i,
    {
        if occurs_at_exec(&vs, &vp, i) {
            assert(occurs_at(s@, p@, i as int));
            return true;
        }
        i = i + 1;
    }
    assert forall|k: int| !occurs_at(s@, p@, k) by {
        if 0 <= k < i {
        }
    }
    false
}

/// Every occurrence of `from` replaced by `to`, left to right.
pub fn replace(s: &str, from: &str, to: &str) -> (r: String)
    ensures
        r@ == replace_all(s@, from@, to@),
{
    let vs = chars_of(s);
    let vf = chars_of(from);
    let vt = chars_of(to);
    if vf.len() == 0 {
        return from_chars(&vs);
    }
    let mut out: Vec<char> = Vec::new();
    let mut i: usize = 0;
    assert(s@.skip(0) == s@);
    while i < vs.len()
        invariant
            i <= vs.len(),
            vf.len() > 0,
            vs@ == s@,
            vf@ == from@,
            vt@ == to@,
            out@ + replace_all(s@.skip(i as int), from@, to@) == replace_all(s@, from@, to@),
        decreases vs.len() - i,
    {
        let ghost rest = s@.skip(i as int);
        if occurs_at_exec(&vs, &vf, i) {
            assert(rest.subrange(0, from@.len() as int) == s@.subrange(i as int, i + from@.len()));
            assert(rest.skip(from@.len() as int) == s@.skip(i + vf.len()));
            let mut k: usize = 0;
            let ghost out0 = out@;
            while k < vt.len()
                invariant
                    k <= vt.len(),
                    out@ == out0 + vt@.take(k as int),
                decreases vt.len() - k,
            {
                out.push(vt[k]);
                assert(vt@.take(k + 1) == vt@.take(k as int).push(vt@[k as int]));
                k = k + 1;
            }
            assert(vt@.take(vt.len() as int) == vt@);
            assert(out0 + replace_all(rest, from@, to@) == out0 + (to@ + replace_all(
                s@.skip(i + vf.len()),
                from@,
                to@,
            )));
            assert(out@ + replace_all(s@.skip(i + vf.len()), from@, to@) == out0 + (to@
                + replace_all(s@.skip(i + vf.len()), from@, to@)));
            i = i + vf.len();
        } else {
            if vf.len() <= vs.len() - i {
                assert(rest.subrange(0, from@.len() as int) == s@.subrange(
                    i as int,
                    i + from@.len(),
                ));
            }
            assert(rest.skip(1) == s@.skip(i + 1));
            assert(!has_prefix(rest, from@));
            let ghost out0 = out@;
            out.push(vs[i]);
            assert(out0 + replace_all(rest, from@, to@) == out0 + (seq![rest[0]]
                + replace_all(rest.skip(1), from@, to@)));
            assert(out@ + replace_all(s@.skip(i + 1), from@, to@) == out0 + (seq![rest[0]]
                + replace_all(s@.skip(i + 1), from@, to@)));
            i = i + 1;
        }
    }
    assert(s@.skip(i as int).len() == 0);
    assert(out@ + s@.skip(i as int) == out@);
    from_chars(&out)
}


/// Whether two texts are equal.
pub fn same_text(a: &str, b: &str) -> (r: bool)
    ensures
        r == (a@ == b@),
{
    let x = owned(a);
    let y = owned(b);
    x == y
}

/// The first piece of `l` replaced by `x` followed by that piece.
pub open spec fn prepend_first(x: Seq<char>, l: Seq<Seq<char>>) -> Seq<Seq<char>> {
    l.update(0, x + l[0])
}

/// The pieces of `s` between occurrences of the character `c`.
pub fn split_char(s: &str, c: char) -> (r: Vec<String>)
    ensures
        texts(r@) == split_on(s@, c),
        r@.len() >= 1,
{
    let vs = chars_of(s);
    let mut pieces: Vec<String> = Vec::new();
    let mut cur: Vec<char> = Vec::new();
    let mut i: usize = 0;
    proof {
        lemma_split_nonempty(s@, c);
        assert(s@.skip(0) == s@);
        let l = split_on(s@, c);
        assert(prepend_first(cur@, l) == l) by {
            assert(Seq::<char>::empty() + l[0] == l[0]);
            assert(l.update(0, l[0]) == l);
        }
        assert(texts(pieces@) + l == l);
    }
    while i < vs.len()
        invariant
            i <= vs.len(),
            vs@ == s@,
            split_on(s@, c) == texts(pieces@) + prepend_first(cur@, split_on(s@.skip(i as int), c)),
        decreases vs.len() - i,
    {
        let ghost rest = s@.skip(i as int);
        let ghost tail = s@.skip(i + 1);
        proof {
            assert(rest.drop_first() == tail);
            lemma_split_nonempty(tail, c);
        }
        let ch = vs[i];
        if ch == c {
            let ghost old_pieces = pieces@;
            let ghost old_cur = cur@;
            let piece = from_chars(&cur);
            pieces.push(piece);
            cur = Vec::new();
            proof {
                let t = split_on(tail, c);
                assert(split_on(rest, c) == seq![Seq::<char>::empty()] + t);
                assert(prepend_first(old_cur, seq![Seq::<char>::empty()] + t) == seq![old_cur] + t);
                assert(prepend_first(cur@, t) == t) by {
                    assert(Seq::<char>::empty() + t[0] == t[0]);
                    assert(t.update(0, t[0]) == t);
                }
                assert(texts(pieces@) == texts(old_pieces).push(old_cur));
                assert(texts(old_pieces) + (seq![old_cur] + t) == texts(pieces@) + t);
            }
        } else {
            let ghost old_cur = cur@;
            cur.push(ch);
            proof {
                let t = split_on(tail, c);
                assert(split_on(rest, c) == t.update(0, seq![ch] + t[0]));
                assert(old_cur + (seq![ch] + t[0]) == cur@ + t[0]);
                assert(prepend_first(old_cur, t.update(0, seq![ch] + t[0])) == prepend_first(cur@, t));
            }
        }
        i = i + 1;
    }
    let ghost old_pieces = pieces@;
    let last = from_chars(&cur);
    pieces.push(last);
    proof {
        assert(s@.skip(vs.len() as int) == Seq::<char>::empty());
        let e = split_on(Seq::<char>::empty(), c);
        assert(e == seq![Seq::<char>::empty()]);
        assert(prepend_first(cur@, e) == seq![cur@]) by {
            assert(cur@ + Seq::<char>::empty() == cur@);
        }
        assert(texts(pieces@) == texts(old_pieces).push(cur@));
        lemma_split_nonempty(s@, c);
    }
    pieces
}

/// The pieces joined with `sep` between consecutive pieces.
pub fn join(parts: &Vec<String>, sep: &str) -> (r: String)
    ensures
        r@ == join_with(texts(parts@), sep@),
{
    let mut out = String::new();
    let mut i: usize = 0;
    while i < parts.len()
        invariant
            i <= parts.len(),
            out@ == join_with(texts(parts@).take(i as int), sep@),
        decreases parts.len() - i,
    {
        let ghost t = texts(parts@);
        proof {
            assert(t.take(i + 1).drop_last() == t.take(i as int));
            assert(t.take(i + 1).last() == parts@[i as int]@);
        }
        if i == 0 {
            out = concat(out.as_str(), parts[i].as_str());
            assert(out@ == parts@[0]@);
        } else {
            let with_sep = concat(out.as_str(), sep);
            out = concat(with_sep.as_str(), parts[i].as_str());
        }
        i = i + 1;
    }
    assert(texts(parts@).take(parts.len() as int) == texts(parts@));
    out
}

/// The text before the first occurrence of `p` (all of `s` when there is none).
pub fn prefix_before(s: &str, p: &str) -> (r: String)
    ensures
        r@ == before_first(s@, p@),
{
    let vs = chars_of(s);
    let vp = chars_of(p);
    let mut out: Vec<char> = Vec::new();
    if vp.len() == 0 {
        return from_chars(&out);
    }
    let mut i: usize = 0;
    assert(s@.skip(0) == s@);
    while i < vs.len()
        invariant
            i <= vs.len(),
            vs@ == s@,
            vp@ == p@,
            vp.len() > 0,
            out@ + before_first(s@.skip(i as int), p@) == before_first(s@, p@),
        decreases vs.len() - i,
    {
        let ghost rest = s@.skip(i as int);
        if occurs_at_exec(&vs, &vp, i) {
            assert(rest.subrange(0, p@.len() as int) == s@.subrange(i as int, i + p@.len()));
            assert(has_prefix(rest, p@));
            assert(out@ + Seq::<char>::empty() == out@);
            return from_chars(&out);
        }
        if vp.len() <= vs.len() - i {
            assert(rest.subrange(0, p@.len() as int) == s@.subrange(i as int, i + p@.len()));
        }
        assert(!has_prefix(rest, p@));
        assert(rest.drop_first() == s@.skip(i + 1));
        let ghost out0 = out@;
        out.push(vs[i]);
        assert(out0 + (seq![rest[0]] + before_first(s@.skip(i + 1), p@)) == out@ + before_first(
            s@.skip(i + 1),
            p@,
        ));
        i = i + 1;
    }
    assert(s@.skip(i as int) == Seq::<char>::empty());
    assert(out@ + Seq::<char>::empty() == out@);
    from_chars(&out)
}

/// `str::parse` of a decimal integer within `min..=max`.
pub fn parse_in_range(s: &str, min: i128, max: i128) -> (r: Option<i128>)
    requires
        min <= 0 <= max,
        max <= 0x1_0000_0000_0000_0000,
        -min <= 0x1_0000_0000_0000_0000,
    ensures
        match r {
            Some(v) => parse_signed(s@, min as int, max as int) == Some(v as int),
            None => parse_signed(s@, min as int, max as int) is None,
        },
{
    let vs = chars_of(s);
    let n = vs.len();
    if n == 0 {
        return None;
    }
    let first = vs[0];
    let neg = first == '-';
    let start: usize = if first == '+' || first == '-' {
        1
    } else {
        0
    };
    if start == n {
        assert(s@[0] == first);
        return None;
    }
    let bound: i128 = if neg {
        -min
    } else {
        max
    };
    let ghost t = s@.skip(start as int);
    let mut acc: i128 = 0;
    let mut j: usize = start;
    assert(t.take(0) == Seq::<char>::empty());
    while j < n
        invariant
            start <= j <= n,
            n == vs.len(),
            vs@ == s@,
            t == s@.skip(start as int),
            start < n,
            first == s@[0],
            neg == (first == '-'),
            start == (if first == '+' || first == '-' { 1usize } else { 0usize }),
            bound == (if neg { -min } else { max as int }),
            min <= 0 <= max,
            0 <= acc <= bound,
            bound <= 0x1_0000_0000_0000_0000,
            acc == digits_value(t.take(j - start)),
            forall|k: int| 0 <= k < j - start ==> #[trigger] is_digit(t[k]),
        decreases n - j,
    {
        let ch = vs[j];
        if !('0' <= ch && ch <= '9') {
            proof {
                assert(t[j - start] == ch);
                assert(!is_digit(t[j - start]));
                assert(!all_digits(t));
                assert(s@[0] == first);
                if start == 0 {
                    assert(t == s@);
                }
                assert(decimal_value(s@) is None);
            }
            return None;
        }
        let d: i128 = (ch as u32 - '0' as u32) as i128;
        proof {
            assert(t.take(j - start + 1).drop_last() == t.take(j - start));
            assert(t.take(j - start + 1).last() == ch);
        }
        acc = acc * 10 + d;
        if acc > bound {
            proof {
                assert(s@[0] == first);
                if start == 0 {
                    assert(t == s@);
                }
                if all_digits(t) {
                    lemma_digits_prefix_le(t, j - start + 1);
                    assert(digits_value(t) > bound);
                    if neg {
                        assert(decimal_value(s@) == Some(-digits_value(t)));
                    } else {
                        assert(decimal_value(s@) == Some(digits_value(t)));
                    }
                } else {
                    assert(decimal_value(s@) is None);
                }
            }
            return None;
        }
        j = j + 1;
    }
    proof {
        assert(t.take(n - start) == t);
        assert(all_digits(t));
        assert(s@[0] == first);
        if start == 0 {
            assert(t == s@);
        }
    }
    if neg {
        Some(-acc)
    } else {
        Some(acc)
    }
}

/// `str::parse::<i64>`.
pub fn parse_i64(s: &str) -> (r: Option<i64>)
    ensures
        match r {
            Some(v) => parse_signed(s@, i64::MIN as int, i64::MAX as int) == Some(v as int),
            None => parse_signed(s@, i64::MIN as int, i64::MAX as int) is None,
        },
{
    match parse_in_range(s, i64::MIN as i128, i64::MAX as i128) {
        Some(v) => Some(v as i64),
        None => None,
    }
}

/// `str::parse::<i32>`.
pub fn parse_i32(s: &str) -> (r: Option<i32>)
    ensures
        match r {
            Some(v) => parse_signed(s@, i32::MIN as int, i32::MAX as int) == Some(v as int),
            None => parse_signed(s@, i32::MIN as int, i32::MAX as int) is None,
        },
{
    match parse_in_range(s, i32::MIN as i128, i32::MAX as i128) {
        Some(v) => Some(v as i32),
        None => None,
    }
}

/// `str::parse::<u32>`.
pub fn parse_u32(s: &str) -> (r: Option<u32>)
    ensures
        match r {
            Some(v) => parse_unsigned(s@, u32::MAX as int) == Some(v as int),
            None => parse_unsigned(s@, u32::MAX as int) is None,
        },
{
    let minus = starts_with(s, "-");
    proof {
        reveal_strlit("-");
        assert("-"@ =~= seq!['-']);
        lemma_char_prefix(s@, '-');
    }
    if minus {
        return None;
    }
    match parse_in_range(s, 0, u32::MAX as i128) {
        Some(v) => Some(v as u32),
        None => None,
    }
}

/// `str::parse::<usize>`.
pub fn parse_usize(s: &str) -> (r: Option<usize>)
    ensures
        match r {
            Some(v) => parse_unsigned(s@, usize::MAX as int) == Some(v as int),
            None => parse_unsigned(s@, usize::MAX as int) is None,
        },
{
    let minus = starts_with(s, "-");
    proof {
        reveal_strlit("-");
        assert("-"@ =~= seq!['-']);
        lemma_char_prefix(s@, '-');
    }
    if minus {
        return None;
    }
    match parse_in_range(s, 0, usize::MAX as i128) {
        Some(v) => Some(v as usize),
        None => None,
    }
}

/// `str::parse::<u8>`.
pub fn parse_u8(s: &str) -> (r: Option<u8>)
    ensures
        match r {
            Some(v) => parse_unsigned(s@, u8::MAX as int) == Some(v as int),
            None => parse_unsigned(s@, u8::MAX as int) is None,
        },
{
    let minus = starts_with(s, "-");
    proof {
        reveal_strlit("-");
        assert("-"@ =~= seq!['-']);
        lemma_char_prefix(s@, '-');
    }
    if minus {
        return None;
    }
    match parse_in_range(s, 0, u8::MAX as i128) {
        Some(v) => Some(v as u8),
        None => None,
    }
}

/// Decimal digits of a natural number.
fn nat_text(m: u64) -> (r: Vec<char>)
    ensures
        r@ == nat_digits(m as nat),
    decreases m,
{
    let d: u8 = (m % 10) as u8;
    let ch: char = (48u8 + d) as char;
    assert(ch == digit_char((m % 10) as int));
    if m < 10 {
        let mut v: Vec<char> = Vec::new();
        v.push(ch);
        v
    } else {
        let mut v = nat_text(m / 10);
        v.push(ch);
        v
    }
}

/// `i64::to_string`.
pub fn i64_text(n: i64) -> (r: String)
    ensures
        r@ == int_text(n as int),
{
    if n < 0 {
        let m: u64 = (-(n as i128)) as u64;
        let digits = nat_text(m);
        let mut v: Vec<char> = Vec::new();
        v.push('-');
        let mut i: usize = 0;
        while i < digits.len()
            invariant
                i <= digits.len(),
                v@ == seq!['-'] + digits@.take(i as int),
            decreases digits.len() - i,
        {
            v.push(digits[i]);
            assert(digits@.take(i + 1) == digits@.take(i as int).push(digits@[i as int]));
            i = i + 1;
        }
        assert(digits@.take(digits.len() as int) == digits@);
        from_chars(&v)
    } else {
        let digits = nat_text(n as u64);
        from_chars(&digits)
    }
}

/// `usize::to_string`.
pub fn usize_text(n: usize) -> (r: String)
    ensures
        r@ == int_text(n as int),
{
    let digits = nat_text(n as u64);
    from_chars(&digits)
}

/// `u64::to_string`.
pub fn u64_text(n: u64) -> (r: String)
    ensures
        r@ == int_text(n as int),
{
    let digits = nat_text(n);
    from_chars(&digits)
}

/// `str::to_ascii_uppercase`.
pub fn to_ascii_uppercase(s: &str) -> (r: String)
    ensures
        r@ == ascii_upper(s@),
{
    let vs = chars_of(s);
    let mut out: Vec<char> = Vec::new();
    let mut i: usize = 0;
    while i < vs.len()
        invariant
            i <= vs.len(),
            vs@ == s@,
            out@ == ascii_upper(s@.take(i as int)),
        decreases vs.len() - i,
    {
        let ch = vs[i];
        let up = if 'a' <= ch && ch <= 'z' {
            ((ch as u32 - 32) as u8) as char
        } else {
            ch
        };
        assert(up == ascii_upper_char(ch));
        out.push(up);
        assert(ascii_upper(s@.take(i + 1)) == ascii_upper(s@.take(i as int)).push(up));
        i = i + 1;
    }
    assert(s@.take(vs.len() as int) == s@);
    from_chars(&out)
}

/// Whether two texts are equal after Unicode lower-casing.
pub fn same_lowercase(a: &str, b: &str) -> (r: bool)
    ensures
        r == (lowercase(a@) == lowercase(b@)),
{
    let la = to_lowercase(a);
    let lb = to_lowercase(b);
    la == lb
}

} // verus!
