//! Text handling shared by the rest of the library: trimming, splitting,
//! number parsing and printing, substring search and joining.
use vstd::prelude::*;

verus! {

// ---------------------------------------------------------------------------
// Characters and strings
// ---------------------------------------------------------------------------

/// The Unicode `White_Space` property: the characters that `char::is_whitespace`
/// accepts.
pub open spec fn is_white_space(c: char) -> bool {
    let u = c as u32;
    ||| 0x09 <= u <= 0x0D
    ||| u == 0x20
    ||| u == 0x85
    ||| u == 0xA0
    ||| u == 0x1680
    ||| 0x2000 <= u <= 0x200A
    ||| u == 0x2028
    ||| u == 0x2029
    ||| u == 0x202F
    ||| u == 0x205F
    ||| u == 0x3000
}

/// Whether `c` has the Unicode `White_Space` property, as
/// `char::is_whitespace` answers it, by its code point.
fn char_is_whitespace(c: char) -> (r: bool)
    ensures
        r == is_white_space(c),
{
    let u: u32 = c as u32;
    (0x09 <= u && u <= 0x0D) || u == 0x20 || u == 0x85 || u == 0xA0 || u == 0x1680
        || (0x2000 <= u && u <= 0x200A) || u == 0x2028 || u == 0x2029 || u == 0x202F
        || u == 0x205F || u == 0x3000
}

/// Calls `String::push`, which appends one character at the end.
#[verifier::external_body]
fn push_char(s: &mut String, c: char)
    ensures
        final(s)@ == old(s)@.push(c),
{
    s.push(c)
}

/// The characters of `s`, in order.
pub fn chars_of(s: &str) -> (out: Vec<char>)
    ensures
        out@ == s@,
{
    let mut out: Vec<char> = Vec::new();
    for c in it: s.chars()
        invariant
            out@ == it.seq().take(it.index() as int),
            it.seq() == s@,
    {
        out.push(c);
    }
    out
}

/// The string made of the characters `cs[from..to]`.
pub fn string_of_range(cs: &[char], from: usize, to: usize) -> (out: String)
    requires
        from <= to <= cs@.len(),
    ensures
        out@ == cs@.subrange(from as int, to as int),
{
    let mut out = String::new();
    let mut i = from;
    while i < to
        invariant
            from <= i <= to <= cs@.len(),
            out@ == cs@.subrange(from as int, i as int),
        decreases to - i,
    {
        push_char(&mut out, cs[i]);
        i = i + 1;
    }
    out
}

/// The string made of the characters `cs`.
pub fn string_of(cs: &[char]) -> (out: String)
    ensures
        out@ == cs@,
{
    let out = string_of_range(cs, 0, cs.len());
    assert(cs@.subrange(0, cs@.len() as int) =~= cs@);
    out
}

/// Whether `a` and `b` hold the same characters (`a == b`).
pub fn str_eq(a: &str, b: &str) -> (r: bool)
    ensures
        r == (a@ == b@),
{
    let x = chars_of(a);
    let y = chars_of(b);
    if x.len() != y.len() {
        return false;
    }
    let n = x.len();
    let mut i: usize = 0;
    while i < n
        invariant
            i <= n == x@.len() == y@.len(),
            x@ == a@,
            y@ == b@,
            forall|k: int| 0 <= k < i ==> x@[k] == y@[k],
        decreases n - i,
    {
        if x[i] != y[i] {
            return false;
        }
        i = i + 1;
    }
    assert(x@ =~= y@);
    true
}

/// `a` followed by `b`.
pub fn str_concat(a: &str, b: &str) -> (out: String)
    ensures
        out@ == a@ + b@,
{
    let mut out = a.to_owned();
    out.append(b);
    out
}

/// `a` followed by `b` followed by `c`.
pub fn str_concat3(a: &str, b: &str, c: &str) -> (out: String)
    ensures
        out@ == a@ + b@ + c@,
{
    let mut out = a.to_owned();
    out.append(b);
    out.append(c);
    out
}

// ---------------------------------------------------------------------------
// Trimming
// ---------------------------------------------------------------------------

/// `s` without its leading white space.
pub open spec fn trim_start(s: Seq<char>) -> Seq<char>
    decreases s.len(),
{
    if s.len() > 0 && is_white_space(s[0]) {
        trim_start(s.drop_first())
    } else {
        s
    }
}

/// `s` without its trailing white space.
pub open spec fn trim_end(s: Seq<char>) -> Seq<char>
    decreases s.len(),
{
    if s.len() > 0 && is_white_space(s.last()) {
        trim_end(s.drop_last())
    } else {
        s
    }
}

/// `s` without leading and trailing white space, as `str::trim` gives it.
pub open spec fn trimmed(s: Seq<char>) -> Seq<char> {
    trim_end(trim_start(s))
}

/// `s` is empty once trimmed.
pub open spec fn is_blank_spec(s: Seq<char>) -> bool {
    trimmed(s).len() == 0
}

proof fn lemma_trim_start_at(s: Seq<char>, i: int)
    requires
        0 <= i <= s.len(),
        forall|k: int| 0 <= k < i ==> is_white_space(#[trigger] s[k]),
        i == s.len() || !is_white_space(s[i]),
    ensures
        trim_start(s) == s.subrange(i, s.len() as int),
    decreases i,
{
    if i == 0 {
        assert(s.subrange(0, s.len() as int) =~= s);
    } else {
        let t = s.drop_first();
        assert forall|k: int| 0 <= k < i - 1 implies is_white_space(#[trigger] t[k]) by {
            assert(t[k] == s[k + 1]);
        }
        lemma_trim_start_at(t, i - 1);
        assert(t.subrange(i - 1, t.len() as int) =~= s.subrange(i, s.len() as int));
    }
}

proof fn lemma_trim_end_at(s: Seq<char>, j: int)
    requires
        0 <= j <= s.len(),
        forall|k: int| j <= k < s.len() ==> is_white_space(#[trigger] s[k]),
        j == 0 || !is_white_space(s[j - 1]),
    ensures
        trim_end(s) == s.subrange(0, j),
    decreases s.len() - j,
{
    if j == s.len() {
        assert(s.subrange(0, j) =~= s);
    } else {
        let t = s.drop_last();
        assert forall|k: int| j <= k < t.len() implies is_white_space(#[trigger] t[k]) by {
            assert(t[k] == s[k]);
        }
        lemma_trim_end_at(t, j);
        assert(t.subrange(0, j) =~= s.subrange(0, j));
    }
}

proof fn lemma_trim_start_empty(s: Seq<char>)
    ensures
        trim_start(s).len() == 0 <==> (forall|k: int| 0 <= k < s.len() ==> is_white_space(#[trigger] s[k])),
        trim_start(s).len() > 0 ==> !is_white_space(trim_start(s)[0]),
    decreases s.len(),
{
    if s.len() > 0 && is_white_space(s[0]) {
        let t = s.drop_first();
        lemma_trim_start_empty(t);
        if forall|k: int| 0 <= k < t.len() ==> is_white_space(#[trigger] t[k]) {
            assert forall|k: int| 0 <= k < s.len() implies is_white_space(#[trigger] s[k]) by {
                if k > 0 {
                    assert(s[k] == t[k - 1]);
                }
            }
        } else {
            let k = choose|k: int| 0 <= k < t.len() && !is_white_space(#[trigger] t[k]);
            assert(s[k + 1] == t[k]);
        }
    } else if s.len() > 0 {
        assert(!is_white_space(s[0]));
    }
}

proof fn lemma_trim_end_keeps_nonspace_first(t: Seq<char>)
    requires
        t.len() > 0,
        !is_white_space(t[0]),
    ensures
        trim_end(t).len() > 0,
    decreases t.len(),
{
    if t.len() > 1 && is_white_space(t.last()) {
        lemma_trim_end_keeps_nonspace_first(t.drop_last());
    }
}

/// A text is blank exactly when every one of its characters is white space
/// (the empty text included).
pub proof fn lemma_blank_iff_all_white_space(s: Seq<char>)
    ensures
        is_blank_spec(s) <==> (forall|k: int| 0 <= k < s.len() ==> is_white_space(#[trigger] s[k])),
{
    lemma_trim_start_empty(s);
    let t = trim_start(s);
    if t.len() > 0 {
        lemma_trim_end_keeps_nonspace_first(t);
    } else {
        assert(trim_end(t) == t);
    }
}

/// Where the trimmed part of `cs` starts and ends.
fn trim_bounds(cs: &[char]) -> (r: (usize, usize))
    ensures
        r.0 <= r.1 <= cs@.len(),
        trimmed(cs@) == cs@.subrange(r.0 as int, r.1 as int),
{
    let n = cs.len();
    let mut i: usize = 0;
    while i < n && char_is_whitespace(cs[i])
        invariant
            i <= n == cs@.len(),
            forall|k: int| 0 <= k < i ==> is_white_space(#[trigger] cs@[k]),
        decreases n - i,
    {
        i = i + 1;
    }
    let mut j: usize = n;
    while j > i && char_is_whitespace(cs[j - 1])
        invariant
            i <= j <= n == cs@.len(),
            forall|k: int| j <= k < n ==> is_white_space(#[trigger] cs@[k]),
        decreases j,
    {
        j = j - 1;
    }
    proof {
        lemma_trim_start_at(cs@, i as int);
        let t = cs@.subrange(i as int, n as int);
        assert forall|k: int| j - i <= k < t.len() implies is_white_space(#[trigger] t[k]) by {
            assert(t[k] == cs@[k + i]);
        }
        if j > i {
            assert(t[j - i - 1] == cs@[j - 1]);
        }
        lemma_trim_end_at(t, (j - i) as int);
        assert(t.subrange(0, (j - i) as int) =~= cs@.subrange(i as int, j as int));
    }
    (i, j)
}

/// `s` with leading and trailing white space removed (`str::trim`).
pub fn trim(s: &str) -> (out: String)
    ensures
        out@ == trimmed(s@),
{
    let cs = chars_of(s);
    let (i, j) = trim_bounds(cs.as_slice());
    string_of_range(cs.as_slice(), i, j)
}

/// Whether `s` holds nothing but white space (`s.trim().is_empty()`).
pub fn is_blank(s: &str) -> (r: bool)
    ensures
        r == is_blank_spec(s@),
{
    let cs = chars_of(s);
    let (i, j) = trim_bounds(cs.as_slice());
    i == j
}

// ---------------------------------------------------------------------------
// Splitting on a separator
// ---------------------------------------------------------------------------

/// The pieces of `s` between occurrences of `sep`, as `str::split` yields
/// them: one more piece than there are separators, empty pieces included.
pub open spec fn split_pieces(s: Seq<char>, sep: char) -> Seq<Seq<char>>
    decreases s.len(),
{
    if s.len() == 0 {
        seq![Seq::<char>::empty()]
    } else {
        let p = split_pieces(s.drop_last(), sep);
        if s.last() == sep {
            p.push(Seq::<char>::empty())
        } else {
            p.update(p.len() - 1, p.last().push(s.last()))
        }
    }
}

/// The trimmed pieces of `pieces` that are not empty once trimmed, in order.
pub open spec fn nonblank_trimmed(pieces: Seq<Seq<char>>) -> Seq<Seq<char>>
    decreases pieces.len(),
{
    if pieces.len() == 0 {
        Seq::<Seq<char>>::empty()
    } else {
        let rest = nonblank_trimmed(pieces.drop_last());
        let t = trimmed(pieces.last());
        if t.len() == 0 {
            rest
        } else {
            rest.push(t)
        }
    }
}

/// The comma-separated entries of `s`, each trimmed, empty ones dropped:
/// `s.split(',').map(|x| x.trim()).filter(|x| !x.is_empty())`.
pub open spec fn comma_list(s: Seq<char>) -> Seq<Seq<char>> {
    nonblank_trimmed(split_pieces(s, ','))
}

/// The views of `v`.
pub open spec fn views(v: Seq<String>) -> Seq<Seq<char>> {
    Seq::new(v.len(), |i: int| v[i]@)
}

/// The comma-separated list in `s`: each entry trimmed, empty entries dropped.
pub fn split_comma_list(s: &str) -> (out: Vec<String>)
    ensures
        views(out@) == comma_list(s@),
{
    let cs = chars_of(s);
    let n = cs.len();
    let mut out: Vec<String> = Vec::new();
    let mut start: usize = 0;
    let mut i: usize = 0;
    proof {
        assert(cs@.take(0) =~= Seq::<char>::empty());
    }
    while i < n
        invariant
            start <= i <= n == cs@.len(),
            split_pieces(cs@.take(i as int), ',').len() >= 1,
            split_pieces(cs@.take(i as int), ',').last() == cs@.subrange(start as int, i as int),
            views(out@) == nonblank_trimmed(split_pieces(cs@.take(i as int), ',').drop_last()),
        decreases n - i,
    {
        let ghost pre = cs@.take(i as int);
        let ghost p = split_pieces(pre, ',');
        let ghost post = cs@.take(i + 1);
        proof {
            assert(post.drop_last() =~= pre);
            assert(post.last() == cs@[i as int]);
        }
        if cs[i] == ',' {
            let piece = string_of_range(cs.as_slice(), start, i);
            let t = trim(piece.as_str());
            let blank = is_blank(t.as_str());
            proof {
                assert(split_pieces(post, ',') == p.push(Seq::<char>::empty()));
                assert(split_pieces(post, ',').drop_last() =~= p);
                assert(p.drop_last().push(p.last()) =~= p);
            }
            if !blank {
                proof {
                    lemma_trimmed_idempotent(piece@);
                }
                let ghost old_out = out@;
                out.push(t);
                proof {
                    assert(views(out@) =~= views(old_out).push(trimmed(piece@)));
                }
            } else {
                proof {
                    lemma_trimmed_idempotent(piece@);
                }
            }
            start = i + 1;
            proof {
                assert(cs@.subrange(start as int, (i + 1) as int) =~= Seq::<char>::empty());
            }
        } else {
            proof {
                assert(split_pieces(post, ',') == p.update(p.len() - 1, p.last().push(cs@[i as int])));
                assert(split_pieces(post, ',').drop_last() =~= p.drop_last());
                assert(cs@.subrange(start as int, i + 1) =~= cs@.subrange(start as int, i as int).push(cs@[i as int]));
            }
        }
        i = i + 1;
    }
    let piece = string_of_range(cs.as_slice(), start, n);
    let t = trim(piece.as_str());
    let blank = is_blank(t.as_str());
    proof {
        assert(cs@.take(n as int) =~= cs@);
        assert(cs@ == s@);
        let p = split_pieces(cs@, ',');
        assert(p.drop_last().push(p.last()) =~= p);
        lemma_trimmed_idempotent(piece@);
    }
    if !blank {
        let ghost old_out = out@;
        out.push(t);
        proof {
            assert(views(out@) =~= views(old_out).push(trimmed(piece@)));
        }
    }
    out
}

proof fn lemma_trim_start_no_lead(s: Seq<char>)
    requires
        s.len() == 0 || !is_white_space(s[0]),
    ensures
        trim_start(s) == s,
{
}

proof fn lemma_trim_end_keeps_start(s: Seq<char>)
    requires
        s.len() == 0 || !is_white_space(s[0]),
    ensures
        trim_end(s).len() == 0 || !is_white_space(trim_end(s)[0]),
        trim_end(s).len() == 0 ==> forall|k: int| 0 <= k < s.len() ==> is_white_space(#[trigger] s[k]),
    decreases s.len(),
{
    if s.len() > 0 && is_white_space(s.last()) {
        let t = s.drop_last();
        if t.len() > 0 {
            assert(t[0] == s[0]);
        }
        lemma_trim_end_keeps_start(t);
    }
}

proof fn lemma_trim_start_result(s: Seq<char>)
    ensures
        trim_start(s).len() == 0 || !is_white_space(trim_start(s)[0]),
    decreases s.len(),
{
    if s.len() > 0 && is_white_space(s[0]) {
        lemma_trim_start_result(s.drop_first());
    }
}

proof fn lemma_trim_end_result(s: Seq<char>)
    ensures
        trim_end(s).len() == 0 || !is_white_space(trim_end(s).last()),
    decreases s.len(),
{
    if s.len() > 0 && is_white_space(s.last()) {
        lemma_trim_end_result(s.drop_last());
    }
}

proof fn lemma_trim_end_no_trail(s: Seq<char>)
    requires
        s.len() == 0 || !is_white_space(s.last()),
    ensures
        trim_end(s) == s,
{
}

/// Trimming twice gives what trimming once gives.
pub proof fn lemma_trimmed_idempotent(s: Seq<char>)
    ensures
        trimmed(trimmed(s)) == trimmed(s),
{
    let a = trim_start(s);
    lemma_trim_start_result(s);
    lemma_trim_end_keeps_start(a);
    let t = trim_end(a);
    lemma_trim_start_no_lead(t);
    lemma_trim_end_result(a);
    lemma_trim_end_no_trail(t);
}

// ---------------------------------------------------------------------------
// Decimal numbers
// ---------------------------------------------------------------------------

/// The character of decimal digit `d`.
pub open spec fn digit_char(d: nat) -> char {
    if d == 0 { '0' }
    else if d == 1 { '1' }
    else if d == 2 { '2' }
    else if d == 3 { '3' }
    else if d == 4 { '4' }
    else if d == 5 { '5' }
    else if d == 6 { '6' }
    else if d == 7 { '7' }
    else if d == 8 { '8' }
    else { '9' }
}

/// `n` written in decimal, without leading zeros, as `to_string` writes it.
pub open spec fn decimal(n: nat) -> Seq<char>
    decreases n,
{
    if n < 10 {
        seq![digit_char(n)]
    } else {
        decimal(n / 10).push(digit_char(n % 10))
    }
}

/// `i` written in decimal with a leading `-` when negative.
pub open spec fn signed_decimal(i: int) -> Seq<char> {
    if i < 0 {
        seq!['-'] + decimal((-i) as nat)
    } else {
        decimal(i as nat)
    }
}

fn digit_to_char(d: u64) -> (c: char)
    requires
        d < 10,
    ensures
        c == digit_char(d as nat),
{
    if d == 0 { '0' }
    else if d == 1 { '1' }
    else if d == 2 { '2' }
    else if d == 3 { '3' }
    else if d == 4 { '4' }
    else if d == 5 { '5' }
    else if d == 6 { '6' }
    else if d == 7 { '7' }
    else if d == 8 { '8' }
    else { '9' }
}

fn push_decimal(n: u64, out: &mut String)
    ensures
        final(out)@ == old(out)@ + decimal(n as nat),
    decreases n,
{
    if n >= 10 {
        push_decimal(n / 10, out);
    }
    let c = digit_to_char(n % 10);
    push_char(out, c);
    proof {
        if n < 10 {
            assert(n % 10 == n);
        }
    }
}

/// `n` in decimal (`n.to_string()`).
pub fn decimal_string(n: u64) -> (out: String)
    ensures
        out@ == decimal(n as nat),
{
    let mut out = String::new();
    push_decimal(n, &mut out);
    assert(out@ =~= decimal(n as nat));
    out
}

/// `i` in decimal (`i.to_string()`).
pub fn signed_decimal_string(i: i64) -> (out: String)
    ensures
        out@ == signed_decimal(i as int),
{
    if i < 0 {
        let m: u64 = if i == i64::MIN { 9223372036854775808u64 } else { (-i) as u64 };
        let mut out = String::new();
        push_char(&mut out, '-');
        push_decimal(m, &mut out);
        assert(out@ =~= signed_decimal(i as int));
        out
    } else {
        decimal_string(i as u64)
    }
}

/// `c` is an ASCII decimal digit.
pub open spec fn is_digit(c: char) -> bool {
    '0' <= c <= '9'
}

/// The number that the digits `d` spell.
pub open spec fn digits_value(d: Seq<char>) -> nat
    decreases d.len(),
{
    if d.len() == 0 {
        0
    } else {
        digits_value(d.drop_last()) * 10 + ((d.last() as u32) - ('0' as u32)) as nat
    }
}

/// `s` without one leading `+`.
pub open spec fn unsigned_digits(s: Seq<char>) -> Seq<char> {
    if s.len() > 0 && s[0] == '+' {
        s.drop_first()
    } else {
        s
    }
}

/// Every character of `d` is an ASCII digit.
pub open spec fn all_digits(d: Seq<char>) -> bool {
    forall|k: int| 0 <= k < d.len() ==> is_digit(#[trigger] d[k])
}

/// What `s.parse::<u32>()` gives: an optional `+`, then one or more ASCII
/// digits whose value fits in a `u32`; `None` on anything else.
pub open spec fn parse_u32_spec(s: Seq<char>) -> Option<u32> {
    let d = unsigned_digits(s);
    if d.len() > 0 && all_digits(d) && digits_value(d) <= u32::MAX {
        Some(digits_value(d) as u32)
    } else {
        None
    }
}

proof fn lemma_digits_value_mono(d: Seq<char>, k: int)
    requires
        0 <= k <= d.len(),
        forall|i: int| 0 <= i < d.len() ==> is_digit(#[trigger] d[i]),
    ensures
        digits_value(d.take(k)) <= digits_value(d),
    decreases d.len() - k,
{
    if k < d.len() {
        lemma_digits_value_mono(d, k + 1);
        assert(d.take(k + 1).drop_last() =~= d.take(k));
        assert(is_digit(d[k]));
    } else {
        assert(d.take(k) =~= d);
    }
}

/// `s.parse::<u32>().ok()`.
pub fn parse_u32(s: &str) -> (r: Option<u32>)
    ensures
        r == parse_u32_spec(s@),
{
    let cs = chars_of(s);
    let n = cs.len();
    let start: usize = if n > 0 && cs[0] == '+' { 1 } else { 0 };
    let ghost d = unsigned_digits(s@);
    proof {
        assert(d =~= cs@.subrange(start as int, n as int));
    }
    if start == n {
        return None;
    }
    let mut value: u64 = 0;
    let mut i: usize = start;
    while i < n
        invariant
            start <= i <= n == cs@.len(),
            cs@ == s@,
            d == unsigned_digits(s@),
            d == cs@.subrange(start as int, n as int),
            forall|k: int| start <= k < i ==> is_digit(#[trigger] cs@[k]),
            value == digits_value(d.take(i - start)),
            value <= u32::MAX,
        decreases n - i,
    {
        let c = cs[i];
        proof {
            assert(d[i - start] == cs@[i as int]);
        }
        if !('0' <= c && c <= '9') {
            proof {
                assert(!is_digit(d[i - start]));
            }
            return None;
        }
        let digit = (c as u32 - '0' as u32) as u64;
        let next = value * 10 + digit;
        proof {
            assert(d.take(i - start + 1).drop_last() =~= d.take(i - start));
            assert(d.take(i - start + 1).last() == c);
        }
        proof {
            assert(digits_value(d.take(i - start + 1)) == next);
        }
        if next > 4294967295u64 {
            proof {
                if all_digits(d) {
                    lemma_digits_value_mono(d, i - start + 1);
                }
            }
            return None;
        }
        value = next;
        i = i + 1;
    }
    proof {
        assert(d.take(n - start) =~= d);
        assert forall|k: int| 0 <= k < d.len() implies is_digit(#[trigger] d[k]) by {
            assert(d[k] == cs@[k + start]);
        }
    }
    Some(value as u32)
}

// ---------------------------------------------------------------------------
// Substrings, case and joining
// ---------------------------------------------------------------------------

/// `needle` occurs in `hay` as a run of consecutive characters.
pub open spec fn contains_spec(hay: Seq<char>, needle: Seq<char>) -> bool {
    exists|i: int|
        0 <= i && i + needle.len() <= hay.len() && #[trigger] hay.subrange(i, i + needle.len())
            == needle
}

fn matches_at(hay: &[char], needle: &[char], i: usize) -> (r: bool)
    requires
        i + needle@.len() <= hay@.len(),
    ensures
        r == (hay@.subrange(i as int, i + needle@.len()) == needle@),
{
    let m = needle.len();
    let mut k: usize = 0;
    while k < m
        invariant
            k <= m == needle@.len(),
            i + m <= hay.len(),
            forall|t: int| 0 <= t < k ==> hay@[i + t] == needle@[t],
        decreases m - k,
    {
        if hay[i + k] != needle[k] {
            proof {
                let sub = hay@.subrange(i as int, i + m);
                assert(sub[k as int] != needle@[k as int]);
            }
            return false;
        }
        k = k + 1;
    }
    assert(hay@.subrange(i as int, i + m) =~= needle@);
    true
}

/// Whether `needle` occurs in `hay` (`str::contains`).
pub fn contains(hay: &str, needle: &str) -> (r: bool)
    ensures
        r == contains_spec(hay@, needle@),
{
    let h = chars_of(hay);
    let nd = chars_of(needle);
    if nd.len() > h.len() {
        return false;
    }
    let last = h.len() - nd.len();
    let mut i: usize = 0;
    while i <= last
        invariant
            last == h@.len() - nd@.len(),
            h@ == hay@,
            nd@ == needle@,
            forall|j: int| 0 <= j < i ==> #[trigger] h@.subrange(j, j + nd@.len()) != nd@,
        decreases last + 1 - i,
    {
        if matches_at(h.as_slice(), nd.as_slice(), i) {
            return true;
        }
        if i == last {
            return false;
        }
        i = i + 1;
    }
    false
}

/// What `str::to_lowercase` gives for a string: the Unicode lower-case
/// mapping, which takes tables to state.
pub uninterp spec fn lowercase_of(s: Seq<char>) -> Seq<char>;

/// Calls `str::to_lowercase`; its result is named by `lowercase_of`.
#[verifier::external_body]
pub(crate) fn to_lowercase(s: &str) -> (r: String)
    ensures
        r@ == lowercase_of(s@),
{
    s.to_lowercase()
}

/// The items of `list` with `sep` between each two (`[..].join(sep)`).
pub open spec fn joined(list: Seq<Seq<char>>, sep: Seq<char>) -> Seq<char>
    decreases list.len(),
{
    if list.len() == 0 {
        Seq::<char>::empty()
    } else if list.len() == 1 {
        list[0]
    } else {
        joined(list.drop_last(), sep) + sep + list.last()
    }
}

/// `list.join(sep)`.
pub fn join(list: &[String], sep: &str) -> (out: String)
    ensures
        out@ == joined(views(list@), sep@),
{
    let mut out = String::new();
    let n = list.len();
    let mut i: usize = 0;
    while i < n
        invariant
            i <= n == list@.len(),
            out@ == joined(views(list@.take(i as int)), sep@),
        decreases n - i,
    {
        proof {
            assert(views(list@.take(i + 1)).drop_last() =~= views(list@.take(i as int)));
            assert(views(list@.take(i + 1)).last() == list@[i as int]@);
        }
        if i > 0 {
            out.append(sep);
        } else {
            assert(views(list@.take(0)) =~= Seq::<Seq<char>>::empty());
        }
        out.append(list[i].as_str());
        i = i + 1;
    }
    assert(list@.take(n as int) =~= list@);
    out
}

} // verus!
