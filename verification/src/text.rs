//! Decimal text: writing numbers into log lines and reading them from settings.

use vstd::prelude::*;
use vstd::string::StringSliceAdditionalSpecFns;

verus! {

/// The character of one decimal digit.
pub open spec fn digit(d: nat) -> char {
    (48 + d) as char
}

/// Whether `c` is one of `0` to `9`.
pub open spec fn is_digit(c: char) -> bool {
    '0' <= c <= '9'
}

/// The shortest decimal text of `n`.
pub open spec fn decimal(n: nat) -> Seq<char>
    decreases n,
{
    if n < 10 {
        seq![digit(n)]
    } else {
        decimal(n / 10).push(digit(n % 10))
    }
}

/// The decimal text of a number that may be negative.
pub open spec fn signed_decimal(i: int) -> Seq<char> {
    if i < 0 {
        seq!['-'] + decimal((-i) as nat)
    } else {
        decimal(i as nat)
    }
}

/// The text of a truth value.
pub open spec fn flag_text(b: bool) -> Seq<char> {
    if b {
        "true"@
    } else {
        "false"@
    }
}

/// The number that a run of digits stands for.
pub open spec fn digits_value(s: Seq<char>) -> nat
    decreases s.len(),
{
    if s.len() == 0 {
        0
    } else {
        digits_value(s.drop_last()) * 10 + (s.last() as nat - 48) as nat
    }
}

pub open spec fn all_digits(s: Seq<char>) -> bool {
    forall|i: int| 0 <= i < s.len() ==> is_digit(#[trigger] s[i])
}

/// The number that `s` spells: at least one digit and nothing else.
pub open spec fn digits_number(s: Seq<char>) -> Option<nat> {
    if s.len() > 0 && all_digits(s) {
        Some(digits_value(s))
    } else {
        None
    }
}

/// The number that `s` spells, where a leading `+` is allowed.
pub open spec fn unsigned_number(s: Seq<char>) -> Option<nat> {
    if s.len() > 0 && s[0] == '+' {
        digits_number(s.skip(1))
    } else {
        digits_number(s)
    }
}

/// The number that `s` spells, where a leading `+` or `-` is allowed.
pub open spec fn signed_number(s: Seq<char>) -> Option<int> {
    if s.len() > 0 && s[0] == '-' {
        match digits_number(s.skip(1)) {
            Some(n) => Some(-(n as int)),
            None => None,
        }
    } else {
        match unsigned_number(s) {
            Some(n) => Some(n as int),
            None => None,
        }
    }
}

/// The texts that a list of strings holds.
pub open spec fn lines(v: Seq<String>) -> Seq<Seq<char>> {
    v.map_values(|s: String| s@)
}

proof fn lemma_digits_prefix(s: Seq<char>, k: int)
    requires
        0 <= k <= s.len(),
        all_digits(s),
    ensures
        digits_value(s.take(k)) <= digits_value(s),
    decreases s.len() - k,
{
    if k == s.len() {
        assert(s.take(k) =~= s);
    } else {
        lemma_digits_prefix(s, k + 1);
        assert(s.take(k + 1).drop_last() =~= s.take(k));
        assert(is_digit(s[k]));
    }
}

proof fn lemma_decimal_value(n: nat)
    ensures
        all_digits(decimal(n)),
        decimal(n).len() > 0,
        digits_value(decimal(n)) == n,
    decreases n,
{
    if n < 10 {
        assert(decimal(n).drop_last() =~= Seq::<char>::empty());
        assert(digits_value(Seq::<char>::empty()) == 0);
    } else {
        lemma_decimal_value(n / 10);
        assert(decimal(n).drop_last() =~= decimal(n / 10));
    }
}

/// Reading back the decimal text of a number gives that number.
pub proof fn law_unsigned_round_trip(n: nat)
    ensures
        unsigned_number(decimal(n)) == Some(n),
{
    lemma_decimal_value(n);
    assert(is_digit(decimal(n)[0]));
}

/// Reading back the decimal text of a number that may be negative gives that
/// number.
pub proof fn law_signed_round_trip(i: int)
    ensures
        signed_number(signed_decimal(i)) == Some(i),
{
    if i < 0 {
        let n = (-i) as nat;
        lemma_decimal_value(n);
        assert(signed_decimal(i).skip(1) =~= decimal(n));
    } else {
        law_unsigned_round_trip(i as nat);
        lemma_decimal_value(i as nat);
        assert(is_digit(decimal(i as nat)[0]));
    }
}

fn append_digit(out: &mut String, d: u64)
    requires
        d < 10,
    ensures
        final(out)@ == old(out)@.push(digit(d as nat)),
{
    let text: &str = match d {
        0 => "0",
        1 => "1",
        2 => "2",
        3 => "3",
        4 => "4",
        5 => "5",
        6 => "6",
        7 => "7",
        8 => "8",
        _ => "9",
    };
    proof {
        reveal_strlit("0");
        reveal_strlit("1");
        reveal_strlit("2");
        reveal_strlit("3");
        reveal_strlit("4");
        reveal_strlit("5");
        reveal_strlit("6");
        reveal_strlit("7");
        reveal_strlit("8");
        reveal_strlit("9");
        assert(text@ =~= seq![digit(d as nat)]);
    }
    out.append(text);
}

/// Appends the decimal text of `n`.
pub fn append_u64(out: &mut String, n: u64)
    ensures
        final(out)@ == old(out)@ + decimal(n as nat),
    decreases n,
{
    if n < 10 {
        append_digit(out, n);
    } else {
        append_u64(out, n / 10);
        append_digit(out, n % 10);
    }
}

/// Appends the decimal text of `i`, with a minus sign where it is negative.
pub fn append_i32(out: &mut String, i: i32)
    ensures
        final(out)@ == old(out)@ + signed_decimal(i as int),
{
    if i < 0 {
        proof {
            reveal_strlit("-");
            assert("-"@ =~= seq!['-']);
        }
        out.append("-");
        append_u64(out, (-(i as i64)) as u64);
    } else {
        append_u64(out, i as u64);
    }
}

/// Appends `true` or `false`.
pub fn append_flag(out: &mut String, b: bool)
    ensures
        final(out)@ == old(out)@ + flag_text(b),
{
    if b {
        out.append("true");
    } else {
        out.append("false");
    }
}

/// The bytes of an ASCII text are the codes of its characters.
proof fn lemma_ascii_bytes(text: &str)
    requires
        text.is_ascii(),
    ensures
        text.spec_bytes().len() == text@.len(),
        forall|j: int|
            #![trigger text.spec_bytes()[j]]
            0 <= j < text@.len() ==> text.spec_bytes()[j] as int == text@[j] as int,
{
    vstd::utf8::is_ascii_chars_encode_utf8(text@);
    assert forall|j: int| 0 <= j < text@.len() implies #[trigger] text.spec_bytes()[j] as int
        == text@[j] as int by {
        let c = text@[j];
        assert('\0' <= c <= '\u{7f}');
        assert(c as u8 as int == c as int);
    }
}

/// Reads the digits of `text` behind the `from` ASCII characters that it starts with.
fn parse_digits(text: &str, from: usize, max: u64) -> (r: Option<u64>)
    requires
        from <= text@.len(),
        forall|j: int| 0 <= j < from ==> '\0' <= #[trigger] text@[j] <= '\u{7f}',
    ensures
        match r {
            Some(v) => digits_number(text@.skip(from as int)) == Some(v as nat) && v <= max,
            None => match digits_number(text@.skip(from as int)) {
                Some(n) => n > max,
                None => true,
            },
        },
{
    let ghost body = text@.skip(from as int);
    if !text.is_ascii() {
        proof {
            if all_digits(body) {
                assert forall|j: int| 0 <= j < text@.len() implies '\0' <= #[trigger] text@[j]
                    <= '\u{7f}' by {
                    if j >= from {
                        assert(is_digit(body[j - from]));
                    }
                }
            }
        }
        return None;
    }
    let bytes: &[u8] = text.as_bytes();
    proof {
        lemma_ascii_bytes(text);
    }
    if from == bytes.len() {
        return None;
    }
    let mut acc: u64 = 0;
    let mut i: usize = from;
    while i < bytes.len()
        invariant
            bytes@.len() == text@.len(),
            from <= i <= bytes@.len(),
            body == text@.skip(from as int),
            forall|j: int|
                #![trigger bytes@[j]]
                0 <= j < bytes@.len() ==> bytes@[j] as int == text@[j] as int,
            forall|j: int| 0 <= j < i - from ==> is_digit(#[trigger] body[j]),
            acc == digits_value(body.take(i - from)),
            acc <= max,
        decreases bytes@.len() - i,
    {
        let b: u8 = bytes[i];
        assert(body[i - from] == text@[i as int]);
        assert(b as int == body[i - from] as int);
        if b < 48 || b > 57 {
            assert(!is_digit(body[i - from]));
            return None;
        }
        let d: u64 = (b - 48) as u64;
        assert(is_digit(body[i - from]));
        assert(body.take(i - from + 1).drop_last() =~= body.take(i - from));
        assert(body.take(i - from + 1).last() == body[i - from]);
        assert(digits_value(body.take(i - from + 1)) == acc * 10 + d);
        if d > max || acc > (max - d) / 10 {
            proof {
                if all_digits(body) {
                    lemma_digits_prefix(body, i - from + 1);
                }
            }
            return None;
        }
        acc = acc * 10 + d;
        i += 1;
    }
    assert(body.take(i - from) =~= body);
    Some(acc)
}

/// How many characters of sign `text` starts with; a minus sign is one only
/// where `minus` says so.
fn sign_len(text: &str, minus: bool) -> (r: (usize, bool))
    ensures
        r.0 == (if text@.len() > 0 && (text@[0] == '+' || (minus && text@[0] == '-')) {
            1int
        } else {
            0int
        }),
        r.1 == (minus && text@.len() > 0 && text@[0] == '-'),
{
    if text.is_empty() {
        return (0, false);
    }
    let c: char = text.get_char(0);
    if c == '+' {
        (1, false)
    } else if minus && c == '-' {
        (1, true)
    } else {
        (0, false)
    }
}

/// Reads a number that is at most `max`: an optional `+`, then decimal digits
/// and nothing else.
pub fn parse_unsigned(text: &str, max: u64) -> (r: Option<u64>)
    ensures
        match r {
            Some(v) => unsigned_number(text@) == Some(v as nat) && v <= max,
            None => match unsigned_number(text@) {
                Some(n) => n > max,
                None => true,
            },
        },
{
    let (from, _negative): (usize, bool) = sign_len(text, false);
    proof {
        assert(text@.skip(0) =~= text@);
    }
    parse_digits(text, from, max)
}

/// Reads an `i32`: an optional `+` or `-`, then decimal digits and nothing
/// else.
pub fn parse_i32(text: &str) -> (r: Option<i32>)
    ensures
        match r {
            Some(v) => signed_number(text@) == Some(v as int),
            None => match signed_number(text@) {
                Some(n) => n < i32::MIN || n > i32::MAX,
                None => true,
            },
        },
{
    let (from, negative): (usize, bool) = sign_len(text, true);
    proof {
        assert(text@.skip(0) =~= text@);
    }
    if negative {
        match parse_digits(text, from, 2147483648) {
            Some(v) => Some((-(v as i64)) as i32),
            None => None,
        }
    } else {
        match parse_digits(text, from, 2147483647) {
            Some(v) => Some(v as i32),
            None => None,
        }
    }
}

/// Decimal text is positional: each digit behind the others makes ten times as much
/// of them and adds itself.
pub proof fn law_digits_are_positional(s: Seq<char>, d: nat)
    requires
        d < 10,
    ensures
        digits_value(Seq::empty()) == 0,
        digits_value(s.push(((48 + d) as nat) as char)) == 10 * digits_value(s) + d,
{
    let t = s.push(((48 + d) as nat) as char);
    assert(t.drop_last() =~= s);
    assert(('0' as nat) == 48);
}

/// The decimal text of a number is made of digits alone, has no leading zero but for
/// the number zero, and reads back as that number.
pub proof fn law_decimal_is_the_shortest_text(n: nat)
    ensures
        decimal(n).len() > 0,
        forall|i: int| 0 <= i < decimal(n).len() ==> '0' <= #[trigger] decimal(n)[i] <= '9',
        n > 0 ==> decimal(n)[0] != '0',
        n == 0 ==> decimal(n) == seq!['0'],
        digits_value(decimal(n)) == n,
    decreases n,
{
    lemma_decimal_value(n);
    assert forall|i: int| 0 <= i < decimal(n).len() implies '0' <= #[trigger] decimal(n)[i]
        <= '9' by {
        assert(is_digit(decimal(n)[i]));
    }
    if n >= 10 {
        law_decimal_is_the_shortest_text(n / 10);
    } else {
        assert(('0' as nat) == 48);
        assert(decimal(n)[0] as nat == 48 + n);
    }
}

/// A number that may be negative is written as its amount, behind a minus sign where
/// it is negative.
pub proof fn law_sign_goes_in_front(i: int)
    ensures
        i >= 0 ==> signed_decimal(i) == decimal(i as nat),
        i < 0 ==> signed_decimal(i) == seq!['-'] + decimal((-i) as nat),
{
}

/// A text spells a number if and only if it is at least one digit, and nothing but
/// digits, behind a sign that is allowed: a plus for any number, a minus for one that
/// may be negative. The number is that of the digits.
pub proof fn law_only_digits_spell_a_number(s: Seq<char>)
    ensures
        (s.len() > 0 && forall|i: int| 0 <= i < s.len() ==> '0' <= #[trigger] s[i] <= '9')
            ==> unsigned_number(s) == Some(digits_value(s)) && unsigned_number(seq!['+'] + s)
            == Some(digits_value(s)) && signed_number(s) == Some(digits_value(s) as int)
            && signed_number(seq!['+'] + s) == Some(digits_value(s) as int) && signed_number(
            seq!['-'] + s,
        ) == Some(-(digits_value(s) as int)),
        unsigned_number(s) is Some ==> {
            &&& s.len() > 0
            &&& '0' <= s[0] <= '9' || (s[0] == '+' && s.len() > 1)
            &&& forall|i: int| 1 <= i < s.len() ==> '0' <= #[trigger] s[i] <= '9'
        },
        signed_number(s) is Some ==> {
            &&& s.len() > 0
            &&& '0' <= s[0] <= '9' || ((s[0] == '+' || s[0] == '-') && s.len() > 1)
            &&& forall|i: int| 1 <= i < s.len() ==> '0' <= #[trigger] s[i] <= '9'
        },
{
    assert((seq!['+'] + s).skip(1) =~= s);
    assert((seq!['-'] + s).skip(1) =~= s);
    if s.len() > 0 && forall|i: int| 0 <= i < s.len() ==> '0' <= #[trigger] s[i] <= '9' {
        assert(all_digits(s));
        assert(is_digit(s[0]));
    }
    if s.len() > 0 && (s[0] == '+' || s[0] == '-') {
        let t = s.skip(1);
        if all_digits(t) {
            assert forall|i: int| 1 <= i < s.len() implies '0' <= #[trigger] s[i] <= '9' by {
                assert(is_digit(t[i - 1]));
            }
        }
    }
    if s.len() > 0 && all_digits(s) {
        assert forall|i: int| 0 <= i < s.len() implies '0' <= #[trigger] s[i] <= '9' by {
            assert(is_digit(s[i]));
        }
    }
}

/// Truth values are written as words, and a list of strings is seen as its texts.
pub proof fn law_words_and_lines(v: Seq<String>, i: int)
    ensures
        flag_text(true) == "true"@,
        flag_text(false) == "false"@,
        lines(v).len() == v.len(),
        0 <= i < v.len() ==> lines(v)[i] == v[i]@,
{
}

} // verus!
