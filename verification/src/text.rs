use vstd::prelude::*;

verus! {

/// The characters of `s`, in order.
pub fn chars_of(s: &str) -> (res: Vec<char>)
    ensures
        res@ == s@,
{
    let mut res: Vec<char> = Vec::new();
    for c in it: s.chars()
        invariant
            it.seq() == s@,
            res@ == it.seq().take(it.index() as int),
    {
        res.push(c);
    }
    res
}


/// The UTF-16 code units of one character: one unit inside the basic
/// multilingual plane, a surrogate pair above it.
pub open spec fn utf16_of_char(c: char) -> Seq<u16> {
    let v = c as u32;
    if v < 0x10000 {
        seq![v as u16]
    } else {
        seq![(0xD800 + (v - 0x10000) / 0x400) as u16, (0xDC00 + (v - 0x10000) % 0x400) as u16]
    }
}

/// The UTF-16 encoding of a character sequence.
pub open spec fn utf16(s: Seq<char>) -> Seq<u16>
    decreases s.len(),
{
    if s.len() == 0 {
        Seq::empty()
    } else {
        utf16(s.drop_last()) + utf16_of_char(s.last())
    }
}

/// Text within the basic multilingual plane encodes one unit per
/// character, each unit the character's code point.
pub proof fn lemma_utf16_bmp(s: Seq<char>)
    requires
        forall|i: int| 0 <= i < s.len() ==> (#[trigger] s[i] as u32) < 0x10000,
    ensures
        utf16(s).len() == s.len(),
        forall|i: int| 0 <= i < s.len() ==> #[trigger] utf16(s)[i] as u32 == s[i] as u32,
    decreases s.len(),
{
    if s.len() > 0 {
        let p = s.drop_last();
        assert forall|i: int| 0 <= i < p.len() implies (#[trigger] p[i] as u32) < 0x10000 by {
            assert(p[i] == s[i]);
        }
        lemma_utf16_bmp(p);
        let c = s[s.len() - 1];
        let v = c as u32;
        assert(s.last() == c);
        assert(v < 0x10000);
        assert(utf16_of_char(c) == seq![v as u16]);
        assert(utf16(s) == utf16(p) + utf16_of_char(c));
        assert((v as u16) as u32 == v) by (bit_vector)
            requires
                v < 0x10000,
        ;
        assert forall|i: int| 0 <= i < s.len() implies #[trigger] utf16(s)[i] as u32 == s[i] as u32 by {
            if i < p.len() {
                assert(p[i] == s[i]);
            }
        }
    }
}

/// Appends the UTF-16 code units of `c` to `out`.
pub fn push_utf16(out: &mut Vec<u16>, c: char)
    ensures
        final(out)@ == old(out)@ + utf16_of_char(c),
{
    let v: u32 = c as u32;
    if v < 0x10000 {
        out.push(v as u16);
    } else {
        let u: u32 = v - 0x10000;
        out.push((0xD800 + u / 0x400) as u16);
        out.push((0xDC00 + u % 0x400) as u16);
    }
}

/// The UTF-16 encoding of `s`.
pub fn encode_utf16(s: &str) -> (res: Vec<u16>)
    ensures
        res@ == utf16(s@),
{
    let cs = chars_of(s);
    let mut res: Vec<u16> = Vec::new();
    let mut i: usize = 0;
    while i < cs.len()
        invariant
            cs@ == s@,
            i <= cs@.len(),
            res@ == utf16(cs@.take(i as int)),
        decreases cs@.len() - i,
    {
        let c = cs[i];
        push_utf16(&mut res, c);
        assert(cs@.take(i + 1).drop_last() == cs@.take(i as int));
        i = i + 1;
    }
    assert(cs@.take(cs@.len() as int) == cs@);
    res
}


// ---------------------------------------------------------------------------
// Lines
// ---------------------------------------------------------------------------

/// `line` without one trailing carriage return.
pub open spec fn strip_cr(line: Seq<char>) -> Seq<char> {
    if line.len() > 0 && line.last() == '\r' {
        line.drop_last()
    } else {
        line
    }
}

/// Reading `s` from the left: the lines ended by a line feed so far (each
/// without its `\n` and a `\r` just before it), and the text after the last
/// line feed.
pub open spec fn line_split(s: Seq<char>) -> (Seq<Seq<char>>, Seq<char>)
    decreases s.len(),
{
    if s.len() == 0 {
        (Seq::empty(), Seq::empty())
    } else {
        let prev = line_split(s.drop_last());
        if s.last() == '\n' {
            (prev.0.push(strip_cr(prev.1)), Seq::empty())
        } else {
            (prev.0, prev.1.push(s.last()))
        }
    }
}

/// The lines of `s` as `str::lines` gives them: split at each `\n`, a `\r`
/// before that `\n` dropped, and no empty line after a final `\n`.
pub open spec fn lines(s: Seq<char>) -> Seq<Seq<char>> {
    let parts = line_split(s);
    if parts.1.len() == 0 {
        parts.0
    } else {
        parts.0.push(parts.1)
    }
}

/// Text without a line feed is one line, as it stands (a final `\r`
/// included), or no line at all when empty.
pub proof fn lemma_lines_without_newline(s: Seq<char>)
    requires
        forall|i: int| 0 <= i < s.len() ==> s[i] != '\n',
    ensures
        line_split(s) == (Seq::<Seq<char>>::empty(), s),
        s.len() > 0 ==> lines(s) == seq![s],
        s.len() == 0 ==> lines(s) == Seq::<Seq<char>>::empty(),
    decreases s.len(),
{
    if s.len() > 0 {
        let p = s.drop_last();
        assert forall|i: int| 0 <= i < p.len() implies p[i] != '\n' by {
            assert(p[i] == s[i]);
        }
        lemma_lines_without_newline(p);
        assert(s.last() == s[s.len() - 1]);
        assert(p.push(s.last()) =~= s);
    }
}

/// No line, finished or not, holds a line feed.
pub proof fn lemma_line_split_ends(s: Seq<char>)
    ensures
        forall|i: int| 0 <= i < line_split(s).1.len() ==> line_split(s).1[i] != '\n',
        forall|k: int, i: int|
            0 <= k < line_split(s).0.len() && 0 <= i < line_split(s).0[k].len()
                ==> line_split(s).0[k][i] != '\n',
    decreases s.len(),
{
    if s.len() > 0 {
        lemma_line_split_ends(s.drop_last());
        let prev = line_split(s.drop_last());
        if s.last() == '\n' {
            let c = strip_cr(prev.1);
            assert forall|i: int| 0 <= i < c.len() implies c[i] != '\n' by {
                assert(c[i] == prev.1[i]);
            }
            assert forall|k: int, i: int|
                0 <= k < line_split(s).0.len() && 0 <= i < line_split(s).0[k].len()
                    implies line_split(s).0[k][i] != '\n' by {
                if k < prev.0.len() {
                    assert(line_split(s).0[k] == prev.0[k]);
                } else {
                    assert(line_split(s).0[k] == c);
                }
            }
        } else {
            assert forall|i: int| 0 <= i < line_split(s).1.len() implies line_split(s).1[i] != '\n' by {
                if i < prev.1.len() {
                    assert(line_split(s).1[i] == prev.1[i]);
                }
            }
        }
    }
}

/// Splits `s` into its lines.
pub fn split_lines(s: &str) -> (res: Vec<Vec<char>>)
    ensures
        res@.len() == lines(s@).len(),
        forall|i: int| 0 <= i < res@.len() ==> #[trigger] res@[i]@ == lines(s@)[i],
{
    let cs = chars_of(s);
    let mut done: Vec<Vec<char>> = Vec::new();
    let mut cur: Vec<char> = Vec::new();
    let mut i: usize = 0;
    while i < cs.len()
        invariant
            cs@ == s@,
            i <= cs@.len(),
            done@.len() == line_split(cs@.take(i as int)).0.len(),
            forall|k: int|
                0 <= k < done@.len() ==> #[trigger] done@[k]@ == line_split(cs@.take(i as int)).0[k],
            cur@ == line_split(cs@.take(i as int)).1,
        decreases cs@.len() - i,
    {
        let c = cs[i];
        assert(cs@.take(i + 1).drop_last() == cs@.take(i as int));
        if c == '\n' {
            if cur.len() > 0 && cur[cur.len() - 1] == '\r' {
                cur.pop();
            }
            done.push(cur);
            cur = Vec::new();
        } else {
            cur.push(c);
        }
        i = i + 1;
    }
    assert(cs@.take(cs@.len() as int) == cs@);
    if cur.len() > 0 {
        done.push(cur);
    }
    done
}

// ---------------------------------------------------------------------------
// Substrings
// ---------------------------------------------------------------------------

/// `pat` occurs in `s` starting at index `i`.
pub open spec fn occurs_at(s: Seq<char>, pat: Seq<char>, i: int) -> bool {
    0 <= i && i + pat.len() <= s.len() && s.subrange(i, i + pat.len()) == pat
}

/// `pat` occurs somewhere in `s` (the empty pattern occurs in every text).
pub open spec fn contains(s: Seq<char>, pat: Seq<char>) -> bool {
    exists|i: int| occurs_at(s, pat, i)
}

/// Whether `pat` occurs in `s` at index `i`.
pub fn matches_at(s: &Vec<char>, pat: &Vec<char>, i: usize) -> (res: bool)
    ensures
        res == occurs_at(s@, pat@, i as int),
{
    if i > s.len() || pat.len() > s.len() - i {
        return false;
    }
    let mut j: usize = 0;
    while j < pat.len()
        invariant
            i + pat.len() <= s.len(),
            j <= pat@.len(),
            forall|k: int| 0 <= k < j ==> s@[i + k] == pat@[k],
        decreases pat@.len() - j,
    {
        if s[i + j] != pat[j] {
            assert(s@.subrange(i as int, i + pat@.len())[j as int] != pat@[j as int]);
            return false;
        }
        j = j + 1;
    }
    assert(s@.subrange(i as int, i + pat@.len()) =~= pat@);
    true
}

/// Whether `pat` occurs anywhere in `s`.
pub fn contains_chars(s: &Vec<char>, pat: &Vec<char>) -> (res: bool)
    ensures
        res == contains(s@, pat@),
{
    let mut i: usize = 0;
    while i < s.len()
        invariant
            i <= s@.len(),
            forall|k: int| 0 <= k < i ==> !occurs_at(s@, pat@, k),
        decreases s@.len() - i,
    {
        if matches_at(s, pat, i) {
            return true;
        }
        i = i + 1;
    }
    if matches_at(s, pat, i) {
        return true;
    }
    assert forall|k: int| !occurs_at(s@, pat@, k) by {
        if 0 <= k <= s@.len() {
        }
    }
    false
}


// ---------------------------------------------------------------------------
// Trimming
// ---------------------------------------------------------------------------

/// The Unicode `White_Space` characters, those that `char::is_whitespace`
/// accepts.
pub open spec fn is_white_space(c: char) -> bool {
    let v = c as u32;
    ||| 0x9 <= v <= 0xD
    ||| v == 0x20
    ||| v == 0x85
    ||| v == 0xA0
    ||| v == 0x1680
    ||| 0x2000 <= v <= 0x200A
    ||| v == 0x2028
    ||| v == 0x2029
    ||| v == 0x202F
    ||| v == 0x205F
    ||| v == 0x3000
}

/// Whether `c` is white space.
pub fn white_space(c: char) -> (res: bool)
    ensures
        res == is_white_space(c),
{
    let v: u32 = c as u32;
    (0x9 <= v && v <= 0xD) || v == 0x20 || v == 0x85 || v == 0xA0 || v == 0x1680 || (0x2000 <= v
        && v <= 0x200A) || v == 0x2028 || v == 0x2029 || v == 0x202F || v == 0x205F || v == 0x3000
}

/// `s` without its leading white space.
pub open spec fn trim_start(s: Seq<char>) -> Seq<char>
    decreases s.len(),
{
    if s.len() > 0 && is_white_space(s[0]) {
        trim_start(s.drop_first())
    } else {
        s
    }
}

/// `s` without its trailing white space.
pub open spec fn trim_end(s: Seq<char>) -> Seq<char>
    decreases s.len(),
{
    if s.len() > 0 && is_white_space(s.last()) {
        trim_end(s.drop_last())
    } else {
        s
    }
}

/// `s` without white space at either end, as `str::trim` gives it.
pub open spec fn trim(s: Seq<char>) -> Seq<char> {
    trim_end(trim_start(s))
}

/// `s` without white space at either end.
pub fn trimmed(s: &Vec<char>) -> (res: Vec<char>)
    ensures
        res@ == trim(s@),
{
    let mut a: usize = 0;
    assert(s@.skip(0) == s@);
    while a < s.len() && white_space(s[a])
        invariant
            a <= s@.len(),
            trim_start(s@) == trim_start(s@.skip(a as int)),
        decreases s@.len() - a,
    {
        assert(s@.skip(a as int).drop_first() == s@.skip(a + 1));
        a = a + 1;
    }
    let ghost t = s@.skip(a as int);
    assert(trim_start(s@) == t);
    let mut b: usize = s.len();
    while b > a && white_space(s[b - 1])
        invariant
            a <= b <= s@.len(),
            t == s@.skip(a as int),
            trim_end(t) == trim_end(s@.subrange(a as int, b as int)),
        decreases b,
    {
        assert(s@.subrange(a as int, b as int).drop_last() == s@.subrange(a as int, b - 1));
        b = b - 1;
    }
    assert(s@.skip(a as int) == s@.subrange(a as int, s@.len() as int));
    let mut res: Vec<char> = Vec::new();
    let mut k: usize = a;
    while k < b
        invariant
            a <= k <= b <= s@.len(),
            res@ == s@.subrange(a as int, k as int),
        decreases b - k,
    {
        res.push(s[k]);
        k = k + 1;
    }
    res
}

// ---------------------------------------------------------------------------
// Numbers
// ---------------------------------------------------------------------------

/// The value of a hexadecimal digit in either case.
pub open spec fn hex_digit_value(c: char) -> Option<nat> {
    let v = c as u32;
    if 0x30 <= v <= 0x39 {
        Some((v - 0x30) as nat)
    } else if 0x61 <= v <= 0x66 {
        Some((v - 0x61 + 10) as nat)
    } else if 0x41 <= v <= 0x46 {
        Some((v - 0x41 + 10) as nat)
    } else {
        None
    }
}

/// Every character of `s` is a hexadecimal digit.
pub open spec fn all_hex(s: Seq<char>) -> bool {
    forall|i: int| 0 <= i < s.len() ==> (#[trigger] hex_digit_value(s[i])) is Some
}

/// The number that the hexadecimal digits `s` denote (0 for no digits).
pub open spec fn hex_value(s: Seq<char>) -> nat
    decreases s.len(),
{
    if s.len() == 0 {
        0
    } else {
        hex_value(s.drop_last()) * 16 + hex_digit_value(s.last()).unwrap_or(0)
    }
}

/// `s` read as `u32::from_str_radix(s, 16)` reads it: an optional `+`, then
/// at least one hexadecimal digit, denoting a number that fits in a `u32`.
pub open spec fn parse_hex_u32(s: Seq<char>) -> Option<u32> {
    let digits = if s.len() > 0 && s[0] == '+' {
        s.drop_first()
    } else {
        s
    };
    if digits.len() > 0 && all_hex(digits) && hex_value(digits) <= u32::MAX {
        Some(hex_value(digits) as u32)
    } else {
        None
    }
}

/// The value of one hexadecimal digit, if `c` is one.
pub fn hex_digit(c: char) -> (res: Option<u32>)
    ensures
        res matches Some(d) ==> hex_digit_value(c) == Some(d as nat) && d < 16,
        res is None ==> hex_digit_value(c) is None,
{
    let v: u32 = c as u32;
    if 0x30 <= v && v <= 0x39 {
        Some(v - 0x30)
    } else if 0x61 <= v && v <= 0x66 {
        Some(v - 0x61 + 10)
    } else if 0x41 <= v && v <= 0x46 {
        Some(v - 0x41 + 10)
    } else {
        None
    }
}

proof fn lemma_hex_value_step(s: Seq<char>, i: int)
    requires
        0 <= i < s.len(),
        (hex_digit_value(s[i])) is Some,
    ensures
        hex_value(s.take(i + 1)) == hex_value(s.take(i)) * 16 + hex_digit_value(s[i]).unwrap(),
        hex_value(s.take(i + 1)) >= hex_value(s.take(i)),
{
    assert(s.take(i + 1).drop_last() == s.take(i));
    assert(s.take(i + 1).last() == s[i]);
    let h = hex_value(s.take(i));
    assert(h * 16 >= h) by (nonlinear_arith);
}

/// Reads `s` as a hexadecimal `u32`, as `u32::from_str_radix(s, 16)` does.
pub fn parse_hex(s: &Vec<char>) -> (res: Option<u32>)
    ensures
        res == parse_hex_u32(s@),
{
    let start: usize = if s.len() > 0 && s[0] == '+' {
        1
    } else {
        0
    };
    let ghost digits = s@.skip(start as int);
    assert(digits == if s@.len() > 0 && s@[0] == '+' {
        s@.drop_first()
    } else {
        s@
    });
    if start == s.len() {
        return None;
    }
    let mut acc: u64 = 0;
    let mut over: bool = false;
    let mut i: usize = start;
    while i < s.len()
        invariant
            start <= i <= s@.len(),
            digits == s@.skip(start as int),
            digits == if s@.len() > 0 && s@[0] == '+' {
                s@.drop_first()
            } else {
                s@
            },
            all_hex(digits.take(i - start)),
            !over ==> acc == hex_value(digits.take(i - start)) && acc <= u32::MAX,
            over ==> hex_value(digits.take(i - start)) > u32::MAX,
        decreases s@.len() - i,
    {
        let ghost j = i - start;
        match hex_digit(s[i]) {
            None => {
                assert(digits[j] == s@[i as int]);
                assert(!all_hex(digits));
                return None;
            },
            Some(d) => {
                assert(digits[j] == s@[i as int]);
                proof {
                    lemma_hex_value_step(digits, j);
                    assert forall|k: int| 0 <= k < j + 1 implies (#[trigger] hex_digit_value(
                        digits.take(j + 1)[k],
                    )) is Some by {
                        if k < j {
                            assert(digits.take(j + 1)[k] == digits.take(j)[k]);
                        }
                    }
                }
                if !over {
                    acc = acc * 16 + d as u64;
                    if acc > 0xFFFF_FFFF {
                        over = true;
                    }
                }
            },
        }
        i = i + 1;
    }
    assert(digits.take(s@.len() - start) == digits);
    if over {
        None
    } else {
        Some(acc as u32)
    }
}

/// The character of a decimal digit.
pub open spec fn digit_char(d: nat) -> char {
    (d + 0x30) as char
}

/// The decimal numeral of `n`, without leading zeros.
pub open spec fn decimal(n: nat) -> Seq<char>
    decreases n,
{
    if n < 10 {
        seq![digit_char(n)]
    } else {
        decimal(n / 10).push(digit_char(n % 10))
    }
}

/// The text of one decimal digit.
fn digit_text(d: u32) -> (res: &'static str)
    requires
        d < 10,
    ensures
        res@ == seq![digit_char(d as nat)],
{
    proof {
        reveal_strlit("0");
        reveal_strlit("1");
        reveal_strlit("2");
        reveal_strlit("3");
        reveal_strlit("4");
        reveal_strlit("5");
        reveal_strlit("6");
        reveal_strlit("7");
        reveal_strlit("8");
        reveal_strlit("9");
    }
    match d {
        0 => "0",
        1 => "1",
        2 => "2",
        3 => "3",
        4 => "4",
        5 => "5",
        6 => "6",
        7 => "7",
        8 => "8",
        _ => "9",
    }
}

/// Appends the decimal numeral of `n` to `out`.
pub fn push_decimal(out: &mut String, n: u32)
    ensures
        final(out)@ == old(out)@ + decimal(n as nat),
    decreases n,
{
    if n >= 10 {
        push_decimal(out, n / 10);
    }
    out.append(digit_text(n % 10));
    assert(n < 10 ==> n % 10 == n);
}


// ---------------------------------------------------------------------------
// The last "0x" field
// ---------------------------------------------------------------------------

/// `s` ends with the two characters `0x`.
pub open spec fn ends_with_0x(s: Seq<char>) -> bool {
    s.len() >= 2 && s[s.len() - 2] == '0' && s.last() == 'x'
}

/// The text after the last occurrence of `0x` in `s`, or all of `s` where
/// `0x` does not occur: the first piece that `s.rsplit("0x")` yields.
pub open spec fn after_last_0x(s: Seq<char>) -> Seq<char>
    decreases s.len(),
{
    if s.len() == 0 {
        s
    } else if ends_with_0x(s) {
        Seq::empty()
    } else {
        after_last_0x(s.drop_last()).push(s.last())
    }
}

/// The text after the last `0x` in `s` (all of `s` where there is none).
pub fn field_after_last_0x(s: &Vec<char>) -> (res: Vec<char>)
    ensures
        res@ == after_last_0x(s@),
{
    let mut start: usize = 0;
    let mut i: usize = 0;
    while i < s.len()
        invariant
            start <= i <= s@.len(),
            after_last_0x(s@.take(i as int)) == s@.subrange(start as int, i as int),
        decreases s@.len() - i,
    {
        let ghost t = s@.take(i + 1);
        assert(t.drop_last() == s@.take(i as int));
        if i > 0 && s[i - 1] == '0' && s[i] == 'x' {
            assert(ends_with_0x(t));
            start = i + 1;
        } else {
            assert(!ends_with_0x(t));
        }
        i = i + 1;
    }
    assert(s@.take(s@.len() as int) == s@);
    let mut res: Vec<char> = Vec::new();
    let mut k: usize = start;
    while k < s.len()
        invariant
            start <= k <= s@.len(),
            res@ == s@.subrange(start as int, k as int),
        decreases s@.len() - k,
    {
        res.push(s[k]);
        k = k + 1;
    }
    res
}

// ---------------------------------------------------------------------------
// Laws
// ---------------------------------------------------------------------------

/// The number that a string of decimal digits denotes.
pub open spec fn decimal_value(s: Seq<char>) -> int
    decreases s.len(),
{
    if s.len() == 0 {
        0
    } else {
        decimal_value(s.drop_last()) * 10 + (s.last() as u32 - 0x30)
    }
}

/// The decimal numeral of `n` reads back as `n`: it is made of the digits
/// `0` to `9` only, and starts with `0` only when it is `0` itself.
pub proof fn lemma_decimal_reads_back(n: nat)
    ensures
        decimal_value(decimal(n)) == n,
        decimal(n).len() > 0,
        forall|i: int| 0 <= i < decimal(n).len() ==> 0x30 <= (#[trigger] decimal(n)[i] as u32) <= 0x39,
        n > 0 ==> decimal(n)[0] != '0',
        n == 0 ==> decimal(n) == seq!['0'],
    decreases n,
{
    if n < 10 {
        assert(((n + 0x30) as char) as u32 == n + 0x30);
        assert(decimal(n) == seq![digit_char(n)]);
        assert(decimal(n).drop_last() =~= Seq::<char>::empty());
        assert(decimal(n).last() == digit_char(n));
        assert(decimal_value(decimal(n)) == decimal_value(Seq::<char>::empty()) * 10 + (
        digit_char(n) as u32 - 0x30));
    } else {
        lemma_decimal_reads_back(n / 10);
        let p = decimal(n / 10);
        assert(decimal(n) == p.push(digit_char(n % 10)));
        assert(decimal(n).drop_last() == p);
        assert(decimal(n)[0] == p[0]);
        assert((((n % 10) + 0x30) as char) as u32 == (n % 10) + 0x30);
        assert(decimal(n).last() == digit_char(n % 10));
        assert forall|i: int| 0 <= i < decimal(n).len() implies 0x30 <= (#[trigger] decimal(
            n,
        )[i] as u32) <= 0x39 by {
            if i < p.len() {
                assert(decimal(n)[i] == p[i]);
            }
        }
        assert((n / 10) * 10 + n % 10 == n);
        assert(decimal_value(decimal(n)) == decimal_value(p) * 10 + (digit_char(n % 10) as u32
            - 0x30));
        assert(decimal_value(p) * 10 == (n / 10) * 10);
    }
}

/// The hexadecimal digit of `d` (below 16), in lower case.
pub open spec fn hex_digit_char(d: nat) -> char {
    if d < 10 {
        (d + 0x30) as char
    } else {
        (d - 10 + 0x61) as char
    }
}

/// The lower-case hexadecimal numeral of `n`, without leading zeros.
pub open spec fn hex_numeral(n: nat) -> Seq<char>
    decreases n,
{
    if n < 16 {
        seq![hex_digit_char(n)]
    } else {
        hex_numeral(n / 16).push(hex_digit_char(n % 16))
    }
}

proof fn lemma_hex_numeral_value(n: nat)
    ensures
        hex_numeral(n).len() > 0,
        all_hex(hex_numeral(n)),
        hex_value(hex_numeral(n)) == n,
        hex_numeral(n)[0] != '+',
    decreases n,
{
    if n < 16 {
        assert(hex_numeral(n).drop_last() =~= Seq::<char>::empty());
        if n < 10 {
            assert(((n + 0x30) as char) as u32 == n + 0x30);
        } else {
            assert(((n - 10 + 0x61) as char) as u32 == n - 10 + 0x61);
        }
        assert(hex_digit_value(hex_digit_char(n)) == Some(n));
        assert(hex_numeral(n).last() == hex_digit_char(n));
        assert(hex_value(hex_numeral(n)) == hex_value(Seq::<char>::empty()) * 16 + n);
        assert(all_hex(hex_numeral(n)));
    } else {
        lemma_hex_numeral_value(n / 16);
        let p = hex_numeral(n / 16);
        let d = n % 16;
        if d < 10 {
            assert(((d + 0x30) as char) as u32 == d + 0x30);
        } else {
            assert(((d - 10 + 0x61) as char) as u32 == d - 10 + 0x61);
        }
        assert(hex_digit_value(hex_digit_char(d)) == Some(d));
        assert(hex_numeral(n).last() == hex_digit_char(d));
        assert(hex_numeral(n) == p.push(hex_digit_char(d)));
        assert(hex_numeral(n).drop_last() == p);
        assert(hex_numeral(n)[0] == p[0]);
        assert forall|i: int| 0 <= i < hex_numeral(n).len() implies (#[trigger] hex_digit_value(
            hex_numeral(n)[i],
        )) is Some by {
            if i < p.len() {
                assert(hex_numeral(n)[i] == p[i]);
            }
        }
        assert((n / 16) * 16 + n % 16 == n);
    }
}

/// Reading hexadecimal undoes writing it: every `u32` written in
/// hexadecimal, with or without a leading `+`, reads back as itself; a
/// leading `-` never reads, nor does empty text or a lone sign.
pub proof fn lemma_hex_reads_back(n: u32, t: Seq<char>)
    ensures
        parse_hex_u32(hex_numeral(n as nat)) == Some(n),
        parse_hex_u32(seq!['+'] + hex_numeral(n as nat)) == Some(n),
        parse_hex_u32(seq!['-'] + t) is None,
        parse_hex_u32(Seq::empty()) is None,
        parse_hex_u32(seq!['+']) is None,
{
    lemma_hex_numeral_value(n as nat);
    let h = hex_numeral(n as nat);
    assert((seq!['+'] + h).drop_first() =~= h);
    let m = seq!['-'] + t;
    assert(m[0] == '-');
    assert(hex_digit_value(m[0]) is None);
    assert(seq!['+'].drop_first() =~= Seq::<char>::empty());
}

/// A character above the basic multilingual plane encodes as a surrogate
/// pair, high then low, from which it comes back.
pub proof fn lemma_utf16_surrogates(c: char)
    requires
        c as u32 >= 0x10000,
    ensures
        utf16_of_char(c).len() == 2,
        0xD800 <= utf16_of_char(c)[0] < 0xDC00,
        0xDC00 <= utf16_of_char(c)[1] < 0xE000,
        (utf16_of_char(c)[0] - 0xD800) * 0x400 + (utf16_of_char(c)[1] - 0xDC00) + 0x10000 == c as u32,
{
    let v = c as u32;
    vstd::utf8::char_is_scalar(c);
    assert(v <= 0x10FFFF);
    let u: u32 = (v - 0x10000) as u32;
    let hi: u32 = (0xD800 + u / 0x400) as u32;
    let lo: u32 = (0xDC00 + u % 0x400) as u32;
    assert(hi < 0xDC00);
    assert(lo < 0xE000);
    assert((hi as u16) as u32 == hi) by (bit_vector)
        requires
            hi < 0x10000,
    ;
    assert((lo as u16) as u32 == lo) by (bit_vector)
        requires
            lo < 0x10000,
    ;
    assert((u / 0x400) * 0x400 + u % 0x400 == u);
}

/// Trimming takes a stretch out of the middle of the text: what it drops at
/// either end is white space, and what it keeps neither starts nor ends with
/// white space.
pub proof fn lemma_trim_shape(s: Seq<char>)
    ensures
        exists|a: int, b: int|
            0 <= a <= b <= s.len() && trim(s) == s.subrange(a, b) && (forall|i: int|
                0 <= i < a ==> is_white_space(#[trigger] s[i])) && (forall|i: int|
                b <= i < s.len() ==> is_white_space(#[trigger] s[i])),
        trim(s).len() > 0 ==> !is_white_space(trim(s)[0]) && !is_white_space(trim(s).last()),
{
    let a = lemma_trim_start_shape(s);
    let t = s.skip(a);
    let k = lemma_trim_end_shape(t);
    assert(trim(s) == t.take(k));
    assert(t.take(k) =~= s.subrange(a, a + k));
    assert forall|i: int| a + k <= i < s.len() implies is_white_space(#[trigger] s[i]) by {
        assert(s[i] == t[i - a]);
    }
    if trim(s).len() > 0 {
        assert(trim(s)[0] == t[0]);
    }
}

proof fn lemma_trim_start_shape(s: Seq<char>) -> (a: int)
    ensures
        0 <= a <= s.len(),
        trim_start(s) == s.skip(a),
        forall|i: int| 0 <= i < a ==> is_white_space(#[trigger] s[i]),
        a < s.len() ==> !is_white_space(s[a]),
    decreases s.len(),
{
    if s.len() > 0 && is_white_space(s[0]) {
        let r = lemma_trim_start_shape(s.drop_first());
        assert(s.drop_first().skip(r) =~= s.skip(r + 1));
        assert forall|i: int| 0 <= i < r + 1 implies is_white_space(#[trigger] s[i]) by {
            if i > 0 {
                assert(s[i] == s.drop_first()[i - 1]);
            }
        }
        r + 1
    } else {
        assert(s.skip(0) =~= s);
        0
    }
}

proof fn lemma_trim_end_shape(s: Seq<char>) -> (k: int)
    ensures
        0 <= k <= s.len(),
        trim_end(s) == s.take(k),
        forall|i: int| k <= i < s.len() ==> is_white_space(#[trigger] s[i]),
        k > 0 ==> !is_white_space(s[k - 1]),
    decreases s.len(),
{
    if s.len() > 0 && is_white_space(s.last()) {
        let r = lemma_trim_end_shape(s.drop_last());
        assert(s.drop_last().take(r) =~= s.take(r));
        assert forall|i: int| r <= i < s.len() implies is_white_space(#[trigger] s[i]) by {
            if i < s.len() - 1 {
                assert(s[i] == s.drop_last()[i]);
            }
        }
        r
    } else {
        assert(s.take(s.len() as int) =~= s);
        s.len() as int
    }
}

/// The text after the last `0x` is the end of the text, holds no `0x`
/// itself, and, where shorter than the text, comes right after a `0x`.
pub proof fn lemma_after_last_0x_shape(s: Seq<char>)
    ensures
        after_last_0x(s).len() <= s.len(),
        after_last_0x(s).len() < s.len() ==> after_last_0x(s).len() + 2 <= s.len(),
        after_last_0x(s) == s.skip(s.len() - after_last_0x(s).len()),
        !contains(after_last_0x(s), seq!['0', 'x']),
        after_last_0x(s).len() < s.len() ==> s.subrange(
            s.len() - after_last_0x(s).len() - 2,
            s.len() - after_last_0x(s).len(),
        ) == seq!['0', 'x'],
        !contains(s, seq!['0', 'x']) ==> after_last_0x(s) == s,
    decreases s.len(),
{
    let pat = seq!['0', 'x'];
    if s.len() == 0 {
        assert(s.skip(0) =~= s);
        assert forall|i: int| !occurs_at(s, pat, i) by {}
    } else if ends_with_0x(s) {
        assert(s.skip(s.len() as int) =~= Seq::<char>::empty());
        assert forall|i: int| !occurs_at(Seq::<char>::empty(), pat, i) by {}
        assert(s.subrange(s.len() - 2, s.len() as int) =~= pat);
        assert(occurs_at(s, pat, s.len() - 2));
    } else {
        let p = s.drop_last();
        lemma_after_last_0x_shape(p);
        let r = after_last_0x(p);
        let n = r.len();
        assert(after_last_0x(s) == r.push(s.last()));
        assert(r.push(s.last()) =~= s.skip(s.len() - (n + 1)));
        assert forall|i: int| !occurs_at(r.push(s.last()), pat, i) by {
            let q = r.push(s.last());
            if occurs_at(q, pat, i) {
                if i + 2 <= n {
                    assert(q.subrange(i, i + 2) =~= r.subrange(i, i + 2));
                    assert(occurs_at(r, pat, i));
                } else {
                    assert(q[i] == s[s.len() - 2]);
                    assert(q[i + 1] == s.last());
                    assert(q.subrange(i, i + 2)[0] == q[i]);
                    assert(q.subrange(i, i + 2)[1] == q[i + 1]);
                }
            }
        }
        if n < p.len() {
            assert(s.subrange(s.len() - (n + 1) - 2, s.len() - (n + 1)) =~= p.subrange(
                p.len() - n - 2,
                p.len() - n,
            ));
        }
        if !contains(s, pat) {
            assert forall|i: int| !occurs_at(p, pat, i) by {
                if occurs_at(p, pat, i) {
                    assert(s.subrange(i, i + 2) =~= p.subrange(i, i + 2));
                    assert(occurs_at(s, pat, i));
                }
            }
            assert(r =~= p);
            assert(p.push(s.last()) =~= s);
        }
    }
}

/// A line ended by `\r\n` loses both, one ended by `\n` alone keeps any
/// other character: for text `t` without line feeds, `t` followed by
/// `\r\n` is the single line `t`, and so is `t` followed by `\n` when `t`
/// does not end with `\r`.
pub proof fn lemma_line_endings(t: Seq<char>)
    requires
        forall|i: int| 0 <= i < t.len() ==> t[i] != '\n',
    ensures
        lines(t + seq!['\r', '\n']) == seq![t],
        (t.len() == 0 || t.last() != '\r') ==> lines(t.push('\n')) == seq![t],
{
    lemma_lines_without_newline(t);
    let a = t.push('\r');
    assert forall|i: int| 0 <= i < a.len() implies a[i] != '\n' by {
        if i < t.len() {
            assert(a[i] == t[i]);
        }
    }
    lemma_lines_without_newline(a);
    let b = t + seq!['\r', '\n'];
    assert(b.drop_last() =~= a);
    assert(a.drop_last() =~= t);
    assert(strip_cr(a) == t);
    assert(line_split(b) == (seq![t], Seq::<char>::empty()));
    let c = t.push('\n');
    assert(c.drop_last() =~= t);
    assert(line_split(c) == (seq![strip_cr(t)], Seq::<char>::empty()));
}

/// The white space that trimming drops includes the ASCII blanks, the
/// no-break and ideographic spaces and the line separator, but not the
/// zero-width space or any letter or digit.
pub proof fn lemma_white_space_chars()
    ensures
        is_white_space(' ') && is_white_space('\t') && is_white_space('\n') && is_white_space('\r'),
        is_white_space('\u{b}') && is_white_space('\u{c}') && is_white_space('\u{85}'),
        is_white_space('\u{a0}') && is_white_space('\u{1680}') && is_white_space('\u{2000}'),
        is_white_space('\u{200a}') && is_white_space('\u{2028}') && is_white_space('\u{2029}'),
        is_white_space('\u{202f}') && is_white_space('\u{205f}') && is_white_space('\u{3000}'),
        !is_white_space('\u{200b}') && !is_white_space('\u{feff}') && !is_white_space('a'),
        !is_white_space('0') && !is_white_space('\u{0}') && !is_white_space('\u{1f}'),
{
}

/// The hexadecimal digits are `0`-`9`, `a`-`f` and `A`-`F`, worth 0 to 15,
/// either case the same.
pub proof fn lemma_hex_digits(c: char)
    ensures
        hex_digit_value(c) is Some <==> (('0' <= c && c <= '9') || ('a' <= c && c <= 'f') || (
        'A' <= c && c <= 'F')),
        hex_digit_value('0') == Some(0nat),
        hex_digit_value('9') == Some(9nat),
        hex_digit_value('a') == Some(10nat),
        hex_digit_value('A') == Some(10nat),
        hex_digit_value('f') == Some(15nat),
        hex_digit_value('F') == Some(15nat),
        hex_digit_value('g') is None,
        hex_digit_value('G') is None,
        hex_digit_value('x') is None,
{
}

} // verus!
