use vstd::prelude::*;

verus! {

/// The character of a digit value below 16, in upper case for the values ten and up.
pub open spec fn digit_char(d: nat) -> char {
    if d < 10 {
        (48 + d) as char
    } else {
        (55 + d) as char
    }
}

/// The decimal representation of `n`, without sign or leading zeros.
pub open spec fn spec_decimal(n: nat) -> Seq<char>
    decreases n,
{
    if n < 10 {
        seq![digit_char(n)]
    } else {
        spec_decimal(n / 10).push(digit_char(n % 10))
    }
}

/// The upper-case hexadecimal representation of `n`, without prefix or leading zeros.
pub open spec fn spec_hex_upper(n: nat) -> Seq<char>
    decreases n,
{
    if n < 16 {
        seq![digit_char(n)]
    } else {
        spec_hex_upper(n / 16).push(digit_char(n % 16))
    }
}

/// Appends one character to a string with `String::push`, which std documents as appending
/// the character to the end; the contract says exactly that.
#[verifier::external_body]
fn push_char(s: &mut String, c: char)
    ensures
        final(s)@ == old(s)@.push(c),
{
    s.push(c);
}

fn exec_digit_char(d: u64) -> (c: char)
    requires
        d < 16,
    ensures
        c == digit_char(d as nat),
{
    if d < 10 {
        ((48 + d) as u8) as char
    } else {
        ((55 + d) as u8) as char
    }
}

fn push_decimal(s: &mut String, n: u64)
    ensures
        final(s)@ == old(s)@ + spec_decimal(n as nat),
    decreases n,
{
    if n >= 10 {
        push_decimal(s, n / 10);
    }
    push_char(s, exec_digit_char(n % 10));
}

/// Formats `n` in decimal, as `format!("{}", n)` does.
pub fn decimal(n: u64) -> (s: String)
    ensures
        s@ == spec_decimal(n as nat),
{
    let mut s = String::new();
    push_decimal(&mut s, n);
    s
}

fn push_hex_upper(s: &mut String, n: u64)
    ensures
        final(s)@ == old(s)@ + spec_hex_upper(n as nat),
    decreases n,
{
    if n >= 16 {
        push_hex_upper(s, n / 16);
    }
    push_char(s, exec_digit_char(n % 16));
}

/// Formats `n` in upper-case hexadecimal, as `format!("{:X}", n)` does.
pub fn hex_upper(n: u64) -> (s: String)
    ensures
        s@ == spec_hex_upper(n as nat),
{
    let mut s = String::new();
    push_hex_upper(&mut s, n);
    s
}

/// Whether `c` is one of the ASCII digits `0` to `9`.
pub open spec fn is_digit(c: char) -> bool {
    '0' <= c && c <= '9'
}

/// The value of a sequence of decimal digits, read most significant first.
pub open spec fn digits_value(s: Seq<char>) -> nat
    decreases s.len(),
{
    if s.len() == 0 {
        0
    } else {
        digits_value(s.drop_last()) * 10 + (s.last() as nat - 48) as nat
    }
}

/// The digits of an unsigned number: the text without one leading `+`.
pub open spec fn unsigned_digits(s: Seq<char>) -> Seq<char> {
    if s.len() > 0 && s[0] == '+' {
        s.drop_first()
    } else {
        s
    }
}

/// What `str::parse::<u64>` gives for `s`: an optional `+`, then one or more ASCII digits
/// whose value fits in 64 bits.
pub open spec fn spec_parse_u64(s: Seq<char>) -> Option<u64> {
    let d = unsigned_digits(s);
    if d.len() > 0 && (forall|i: int| 0 <= i < d.len() ==> is_digit(#[trigger] d[i]))
        && digits_value(d) <= u64::MAX {
        Some(digits_value(d) as u64)
    } else {
        None
    }
}

/// A number written with more digits is at least the number its leading digits write.
proof fn lemma_digits_value_prefix(d: Seq<char>, k: int)
    requires
        0 <= k <= d.len(),
        forall|i: int| 0 <= i < d.len() ==> is_digit(#[trigger] d[i]),
    ensures
        digits_value(d.take(k)) <= digits_value(d),
    decreases d.len(),
{
    if k < d.len() {
        let rest = d.drop_last();
        assert(rest.take(k) =~= d.take(k));
        assert forall|i: int| 0 <= i < rest.len() implies is_digit(#[trigger] rest[i]) by {
            assert(rest[i] == d[i]);
        }
        lemma_digits_value_prefix(rest, k);
    } else {
        assert(d.take(k) =~= d);
    }
}

/// Parses `s` as a decimal `u64`, accepting exactly what `str::parse::<u64>` accepts.
pub fn parse_u64(s: &str) -> (res: Option<u64>)
    ensures
        res == spec_parse_u64(s@),
{
    let len = s.unicode_len();
    if len == 0 {
        return None;
    }
    let mut i: usize = 0;
    if s.get_char(0) == '+' {
        i = 1;
        if len == 1 {
            assert(unsigned_digits(s@).len() == 0);
            return None;
        }
    }
    let start = i;
    let ghost d = unsigned_digits(s@);
    assert(d =~= s@.subrange(start as int, len as int));
    let mut value: u64 = 0;
    assert(s@.subrange(start as int, start as int) =~= Seq::<char>::empty());
    while i < len
        invariant
            start <= i <= len,
            len == s@.len(),
            d == s@.subrange(start as int, len as int),
            d == unsigned_digits(s@),
            d.len() > 0,
            value == digits_value(s@.subrange(start as int, i as int)),
            forall|k: int| start <= k < i ==> is_digit(#[trigger] s@[k]),
        decreases len - i,
    {
        let c = s.get_char(i);
        if !('0' <= c && c <= '9') {
            assert(d[i - start] == c);
            return None;
        }
        let ghost prefix = s@.subrange(start as int, i + 1);
        assert(prefix.drop_last() =~= s@.subrange(start as int, i as int));
        let digit = (c as u32 - 48) as u64;
        assert(digits_value(prefix) == value * 10 + digit);
        let next = match value.checked_mul(10) {
            Some(v) => v.checked_add(digit),
            None => None,
        };
        match next {
            Some(v) => {
                value = v;
                i = i + 1;
            },
            None => {
                proof {
                    if forall|k: int| 0 <= k < d.len() ==> is_digit(#[trigger] d[k]) {
                        assert(d.take(i + 1 - start) =~= prefix);
                        lemma_digits_value_prefix(d, i + 1 - start);
                    }
                }
                return None;
            },
        }
    }
    assert forall|k: int| 0 <= k < d.len() implies is_digit(#[trigger] d[k]) by {
        assert(d[k] == s@[k + start]);
    }
    assert(s@.subrange(start as int, i as int) =~= d);
    Some(value)
}

proof fn lemma_decimal_digits(n: nat)
    ensures
        spec_decimal(n).len() > 0,
        forall|i: int| 0 <= i < spec_decimal(n).len() ==> is_digit(#[trigger] spec_decimal(n)[i]),
        digits_value(spec_decimal(n)) == n,
    decreases n,
{
    if n >= 10 {
        lemma_decimal_digits(n / 10);
        let prev = spec_decimal(n / 10);
        assert(spec_decimal(n).drop_last() =~= prev);
        assert(digit_char(n % 10) as nat == 48 + n % 10);
        assert(spec_decimal(n).last() == digit_char(n % 10));
        assert(digits_value(spec_decimal(n)) == digits_value(prev) * 10 + n % 10);
        assert((n / 10) * 10 + n % 10 == n);
        assert forall|i: int| 0 <= i < spec_decimal(n).len() implies is_digit(
            #[trigger] spec_decimal(n)[i],
        ) by {
            if i < prev.len() {
                assert(spec_decimal(n)[i] == prev[i]);
            }
        }
    } else {
        assert(spec_decimal(n).drop_last() =~= Seq::<char>::empty());
        assert(digit_char(n) as nat == 48 + n);
        assert(digits_value(spec_decimal(n)) == digits_value(Seq::<char>::empty()) * 10 + n);
    }
}

/// Reading back the decimal text of a number gives the number: what `decimal` writes,
/// `parse_u64` accepts, and it yields the value that was written.
pub proof fn lemma_decimal_parses_back(n: u64)
    ensures
        spec_parse_u64(spec_decimal(n as nat)) == Some(n),
{
    lemma_decimal_digits(n as nat);
    let d = spec_decimal(n as nat);
    assert(is_digit(d[0]));
    assert(unsigned_digits(d) == d);
}

/// `s` with every `\n` escape (a backslash followed by `n`) replaced by a newline, the
/// escapes taken left to right without overlap, as `str::replace` takes them.
pub open spec fn unescape_newlines(s: Seq<char>) -> Seq<char>
    decreases s.len(),
{
    if s.len() == 0 {
        Seq::empty()
    } else if s.len() >= 2 && s[0] == '\\' && s[1] == 'n' {
        seq!['\n'] + unescape_newlines(s.skip(2))
    } else {
        seq![s[0]] + unescape_newlines(s.drop_first())
    }
}

/// Replaces every `\n` escape in `s` by a newline.
pub fn unescape_newlines_in(s: &str) -> (res: String)
    ensures
        res@ == unescape_newlines(s@),
{
    let len = s.unicode_len();
    let mut out = String::new();
    let mut i: usize = 0;
    assert(s@.skip(0) =~= s@);
    while i < len
        invariant
            i <= len,
            len == s@.len(),
            out@ + unescape_newlines(s@.skip(i as int)) == unescape_newlines(s@),
        decreases len - i,
    {
        let rest = Ghost(s@.skip(i as int));
        let c = s.get_char(i);
        if c == '\\' && i + 1 < len && s.get_char(i + 1) == 'n' {
            assert(rest@.skip(2) =~= s@.skip(i + 2));
            push_char(&mut out, '\n');
            assert(out@ + unescape_newlines(s@.skip(i + 2)) =~= unescape_newlines(s@));
            i = i + 2;
        } else {
            assert(rest@.drop_first() =~= s@.skip(i + 1));
            assert(rest@[0] == c);
            push_char(&mut out, c);
            assert(out@ + unescape_newlines(s@.skip(i + 1)) =~= unescape_newlines(s@));
            i = i + 1;
        }
    }
    assert(s@.skip(len as int) =~= Seq::<char>::empty());
    assert(out@ + Seq::<char>::empty() =~= out@);
    out
}

/// Unescaping keeps every character that is not part of a `\n` escape: it splits over a
/// concatenation whose first part does not end in a backslash, it leaves a text without
/// backslashes unchanged, and it turns the escape itself into one newline.
pub proof fn lemma_unescape_keeps_other_characters(a: Seq<char>, b: Seq<char>)
    ensures
        (a.len() == 0 || a.last() != '\\') ==> unescape_newlines(a + b) == unescape_newlines(a)
            + unescape_newlines(b),
        (forall|i: int| 0 <= i < a.len() ==> #[trigger] a[i] != '\\') ==> unescape_newlines(a) == a,
        unescape_newlines(seq!['\\', 'n']) == seq!['\n'],
{
    lemma_unescape_splits(a, b);
    lemma_unescape_plain(a);
    let e = seq!['\\', 'n'];
    assert(e[0] == '\\' && e[1] == 'n');
    assert(e.skip(2) =~= Seq::<char>::empty());
    assert(unescape_newlines(Seq::<char>::empty()) =~= Seq::<char>::empty());
    assert(unescape_newlines(e) == seq!['\n'] + unescape_newlines(e.skip(2)));
    assert(seq!['\n'] + Seq::<char>::empty() =~= seq!['\n']);
}

proof fn lemma_unescape_splits(a: Seq<char>, b: Seq<char>)
    ensures
        (a.len() == 0 || a.last() != '\\') ==> unescape_newlines(a + b) == unescape_newlines(a)
            + unescape_newlines(b),
    decreases a.len(),
{
    if a.len() == 0 {
        assert(a + b =~= b);
        assert(unescape_newlines(a) + unescape_newlines(b) =~= unescape_newlines(b));
    } else if a.last() != '\\' {
        let ab = a + b;
        if a.len() >= 2 && a[0] == '\\' && a[1] == 'n' {
            let rest = a.skip(2);
            assert(ab[0] == '\\' && ab[1] == 'n');
            assert(ab.skip(2) =~= rest + b);
            if rest.len() > 0 {
                assert(rest.last() == a.last());
            }
            lemma_unescape_splits(rest, b);
            assert(unescape_newlines(ab) =~= unescape_newlines(a) + unescape_newlines(b));
        } else {
            let rest = a.drop_first();
            assert(ab[0] == a[0]);
            if a.len() == 1 {
                assert(a[0] == a.last());
            } else {
                assert(ab[1] == a[1]);
            }
            assert(!(ab.len() >= 2 && ab[0] == '\\' && ab[1] == 'n'));
            assert(ab.drop_first() =~= rest + b);
            if rest.len() > 0 {
                assert(rest.last() == a.last());
            }
            lemma_unescape_splits(rest, b);
            assert(unescape_newlines(ab) =~= unescape_newlines(a) + unescape_newlines(b));
        }
    }
}

proof fn lemma_unescape_plain(a: Seq<char>)
    ensures
        (forall|i: int| 0 <= i < a.len() ==> #[trigger] a[i] != '\\') ==> unescape_newlines(a) == a,
    decreases a.len(),
{
    if a.len() > 0 && forall|i: int| 0 <= i < a.len() ==> #[trigger] a[i] != '\\' {
        let rest = a.drop_first();
        assert(a[0] != '\\');
        assert forall|i: int| 0 <= i < rest.len() implies #[trigger] rest[i] != '\\' by {
            assert(rest[i] == a[i + 1]);
        }
        lemma_unescape_plain(rest);
        assert(unescape_newlines(a) =~= a);
    }
}

} // verus!
