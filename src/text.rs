use vstd::prelude::*;

verus! {

/// Unicode `White_Space` characters, the set that `str::trim` strips.
pub open spec fn is_white(c: char) -> bool {
    let n = c as u32;
    (9 <= n <= 13) || n == 32 || n == 0x85 || n == 0xA0 || n == 0x1680 || (0x2000 <= n <= 0x200A)
        || n == 0x2028 || n == 0x2029 || n == 0x202F || n == 0x205F || n == 0x3000
}

/// Number of whitespace characters at the start of `s`.
pub open spec fn leading_white(s: Seq<char>) -> nat
    decreases s.len(),
{
    if s.len() > 0 && is_white(s[0]) {
        1 + leading_white(s.drop_first())
    } else {
        0
    }
}

/// Number of whitespace characters at the end of `s`.
pub open spec fn trailing_white(s: Seq<char>) -> nat
    decreases s.len(),
{
    if s.len() > 0 && is_white(s.last()) {
        1 + trailing_white(s.drop_last())
    } else {
        0
    }
}

/// `s` without its leading and trailing whitespace.
pub open spec fn trimmed(s: Seq<char>) -> Seq<char> {
    if leading_white(s) >= s.len() {
        Seq::empty()
    } else {
        s.subrange(leading_white(s) as int, s.len() - trailing_white(s))
    }
}

proof fn lemma_leading_white(s: Seq<char>)
    ensures
        leading_white(s) <= s.len(),
        forall|i: int| 0 <= i < leading_white(s) ==> is_white(#[trigger] s[i]),
        leading_white(s) < s.len() ==> !is_white(s[leading_white(s) as int]),
    decreases s.len(),
{
    if s.len() > 0 && is_white(s[0]) {
        let r = s.drop_first();
        lemma_leading_white(r);
        assert forall|i: int| 0 <= i < leading_white(s) implies is_white(#[trigger] s[i]) by {
            if i > 0 {
                assert(s[i] == r[i - 1]);
            }
        }
        if leading_white(s) < s.len() {
            assert(s[leading_white(s) as int] == r[leading_white(r) as int]);
        }
    }
}

proof fn lemma_trailing_white(s: Seq<char>)
    ensures
        trailing_white(s) <= s.len(),
        forall|i: int| s.len() - trailing_white(s) <= i < s.len() ==> is_white(#[trigger] s[i]),
        trailing_white(s) < s.len() ==> !is_white(s[s.len() - 1 - trailing_white(s)]),
    decreases s.len(),
{
    if s.len() > 0 && is_white(s.last()) {
        let r = s.drop_last();
        lemma_trailing_white(r);
        assert forall|i: int| s.len() - trailing_white(s) <= i < s.len() implies is_white(
            #[trigger] s[i],
        ) by {
            if i < s.len() - 1 {
                assert(s[i] == r[i]);
            }
        }
        if trailing_white(s) < s.len() {
            assert(s[s.len() - 1 - trailing_white(s)] == r[r.len() - 1 - trailing_white(r)]);
        }
    }
}

/// Trimming a trimmed text changes nothing.
pub proof fn lemma_trimmed_idempotent(s: Seq<char>)
    ensures
        trimmed(trimmed(s)) == trimmed(s),
{
    lemma_leading_white(s);
    lemma_trailing_white(s);
    let t = trimmed(s);
    if leading_white(s) < s.len() {
        let lead = leading_white(s) as int;
        let end = s.len() - trailing_white(s);
        if end <= lead {
            assert(is_white(s[lead]));
        }
        assert(t[0] == s[lead]);
        assert(leading_white(t) == 0);
        assert(t.last() == s[end - 1]);
        assert(trailing_white(t) == 0);
        assert(t.subrange(0, t.len() as int) =~= t);
    }
}

/// Relies on `str::trim`: leading and trailing `White_Space` characters are removed.
#[verifier::external_body]
pub(crate) fn trim(s: &str) -> (r: &str)
    ensures
        r@ == trimmed(s@),
{
    s.trim()
}

/// What a line of user input amounts to, once trimmed, against a length range.
#[derive(Clone, Copy, Debug, PartialEq, Eq, Structural)]
pub enum TextCheck {
    /// The cancel sentinel `0`.
    Cancel,
    Empty,
    TooShort,
    TooLong,
    Accept,
}

/// The cancel sentinel.
pub open spec fn cancel_text() -> Seq<char> {
    seq!['0']
}

pub open spec fn text_check(t: Seq<char>, min_len: nat, max_len: nat) -> TextCheck {
    if t == cancel_text() {
        TextCheck::Cancel
    } else if t.len() == 0 {
        TextCheck::Empty
    } else if t.len() < min_len {
        TextCheck::TooShort
    } else if t.len() > max_len {
        TextCheck::TooLong
    } else {
        TextCheck::Accept
    }
}

/// Classifies an already trimmed text; lengths count characters.
pub fn check_text(text: &str, min_len: usize, max_len: usize) -> (r: TextCheck)
    ensures
        r == text_check(text@, min_len as nat, max_len as nat),
{
    let len = text.unicode_len();
    if len == 1 && text.get_char(0) == '0' {
        assert(text@ =~= cancel_text());
        return TextCheck::Cancel;
    }
    assert(text@ != cancel_text()) by {
        if text@ == cancel_text() {
            assert(text@[0] == '0');
        }
    }
    if len == 0 {
        TextCheck::Empty
    } else if len < min_len {
        TextCheck::TooShort
    } else if len > max_len {
        TextCheck::TooLong
    } else {
        TextCheck::Accept
    }
}

pub open spec fn is_digit(c: char) -> bool {
    '0' <= c && c <= '9'
}

pub open spec fn digit_value(c: char) -> nat {
    (c as u32 - '0' as u32) as nat
}

/// Value of a string of decimal digits, most significant first.
pub open spec fn digits_value(s: Seq<char>) -> nat
    decreases s.len(),
{
    if s.len() == 0 {
        0
    } else {
        digits_value(s.drop_last()) * 10 + digit_value(s.last())
    }
}

pub open spec fn all_digits(s: Seq<char>) -> bool {
    s.len() > 0 && forall|i: int| 0 <= i < s.len() ==> is_digit(#[trigger] s[i])
}

/// The digits of a number, with an optional leading `+`.
pub open spec fn number_digits(s: Seq<char>) -> Seq<char> {
    if s.len() > 0 && s[0] == '+' {
        s.drop_first()
    } else {
        s
    }
}

/// The non-negative integer that `s` spells in decimal, if it spells one that fits.
pub open spec fn number_of(s: Seq<char>) -> Option<nat> {
    let d = number_digits(s);
    if all_digits(d) && digits_value(d) <= usize::MAX {
        Some(digits_value(d))
    } else {
        None
    }
}

proof fn lemma_digits_value_grows(s: Seq<char>, i: int, j: int)
    requires
        0 <= i <= j <= s.len(),
        forall|k: int| 0 <= k < s.len() ==> is_digit(#[trigger] s[k]),
    ensures
        digits_value(s.subrange(0, i)) <= digits_value(s.subrange(0, j)),
    decreases j - i,
{
    if i < j {
        lemma_digits_value_grows(s, i, j - 1);
        assert(s.subrange(0, j).drop_last() =~= s.subrange(0, j - 1));
    }
}

/// Reads a decimal number: an optional `+`, then one or more ASCII digits.
pub fn parse_number(text: &str) -> (r: Option<usize>)
    ensures
        r matches Some(v) ==> number_of(text@) == Some(v as nat),
        r is None ==> number_of(text@) is None,
{
    let len = text.unicode_len();
    let mut i: usize = 0;
    if len > 0 && text.get_char(0) == '+' {
        i = 1;
    }
    let start = i;
    let ghost d = number_digits(text@);
    assert(d =~= text@.subrange(start as int, len as int));
    if i == len {
        return None;
    }
    let mut acc: usize = 0;
    while i < len
        invariant
            start <= i <= len,
            len == text@.len(),
            d == text@.subrange(start as int, len as int),
            d == number_digits(text@),
            forall|k: int| 0 <= k < i - start ==> is_digit(#[trigger] d[k]),
            acc as nat == digits_value(d.subrange(0, i - start)),
        decreases len - i,
    {
        let c = text.get_char(i);
        if !('0' <= c && c <= '9') {
            assert(!is_digit(d[i - start]));
            return None;
        }
        let v = (c as u32 - '0' as u32) as usize;
        assert(d.subrange(0, i + 1 - start).drop_last() =~= d.subrange(0, i - start));
        if acc > (usize::MAX - v) / 10 {
            assert(digits_value(d.subrange(0, i + 1 - start)) > usize::MAX) by (nonlinear_arith)
                requires
                    acc > (usize::MAX - v) / 10,
                    digits_value(d.subrange(0, i + 1 - start)) == acc * 10 + v,
            ;
            proof {
                let n = len - start;
                if all_digits(d) {
                    lemma_digits_value_grows(d, i + 1 - start, n as int);
                    assert(d.subrange(0, n as int) =~= d);
                }
            }
            return None;
        }
        assert(acc * 10 + v <= usize::MAX) by (nonlinear_arith)
            requires
                acc <= (usize::MAX - v) / 10,
                v <= 9,
        ;
        acc = acc * 10 + v;
        i = i + 1;
    }
    assert(d.subrange(0, len - start) =~= d);
    Some(acc)
}

/// The decimal digit character for `d < 10`.
pub open spec fn digit_char(d: nat) -> char {
    ((d + '0' as u32) as u32) as char
}

/// Decimal spelling of `n`, without leading zeros.
pub open spec fn decimal(n: nat) -> Seq<char>
    decreases n,
{
    if n < 10 {
        seq![digit_char(n)]
    } else {
        decimal(n / 10) + seq![digit_char(n % 10)]
    }
}

fn digit_str(d: usize) -> (r: &'static str)
    requires
        d < 10,
    ensures
        r@ == seq![digit_char(d as nat)],
{
    proof {
        reveal_strlit("0");
        reveal_strlit("1");
        reveal_strlit("2");
        reveal_strlit("3");
        reveal_strlit("4");
        reveal_strlit("5");
        reveal_strlit("6");
        reveal_strlit("7");
        reveal_strlit("8");
        reveal_strlit("9");
    }
    let r = match d {
        0 => "0",
        1 => "1",
        2 => "2",
        3 => "3",
        4 => "4",
        5 => "5",
        6 => "6",
        7 => "7",
        8 => "8",
        _ => "9",
    };
    assert(r@ =~= seq![digit_char(d as nat)]);
    r
}

/// Appends the decimal spelling of `n` to `out`.
pub fn push_decimal(out: &mut String, n: usize)
    ensures
        final(out)@ == old(out)@ + decimal(n as nat),
    decreases n,
{
    if n >= 10 {
        push_decimal(out, n / 10);
    }
    out.append(digit_str(n % 10));
    proof {
        if n >= 10 {
            assert(old(out)@ + decimal(n as nat) =~= old(out)@ + decimal((n / 10) as nat) + seq![digit_char((n % 10) as nat)]);
        }
    }
}


/// The diagnostic printed when a text is rejected; a generic one for an accepted
/// text or the cancel sentinel.
pub open spec fn rejection_text(check: TextCheck, min_len: nat, max_len: nat) -> Seq<char> {
    match check {
        TextCheck::Empty => "Input cannot be empty."@,
        TextCheck::TooShort => "Input must be at least "@ + decimal(min_len) + " characters."@,
        TextCheck::TooLong => "Input must be at most "@ + decimal(max_len) + " characters."@,
        _ => invalid_text(),
    }
}

/// The generic diagnostic for input that cannot be used.
pub open spec fn invalid_text() -> Seq<char> {
    "Invalid input, please try again"@
}

/// Renders the diagnostic for a rejected text.
pub fn rejection_line(check: TextCheck, min_len: usize, max_len: usize) -> (r: String)
    ensures
        r@ == rejection_text(check, min_len as nat, max_len as nat),
{
    match check {
        TextCheck::Empty => String::from_str("Input cannot be empty."),
        TextCheck::TooShort => {
            let mut out = String::from_str("Input must be at least ");
            push_decimal(&mut out, min_len);
            out.append(" characters.");
            out
        },
        TextCheck::TooLong => {
            let mut out = String::from_str("Input must be at most ");
            push_decimal(&mut out, max_len);
            out.append(" characters.");
            out
        },
        _ => String::from_str("Invalid input, please try again"),
    }
}

/// What an answer to a position prompt amounts to.
#[derive(Clone, Copy, Debug, PartialEq, Eq, Structural)]
pub enum IndexInput {
    /// `0`: back to the menu.
    Cancel,
    /// Not a number, or past the last position.
    Invalid,
    /// A 1-based position.
    Pick(usize),
}

/// Reads an answer to a position prompt, with `max_index` positions on offer.
/// The number `0`, however written (`0`, `00`, `+0`), cancels.
pub open spec fn index_input_of(t: Seq<char>, max_index: nat) -> IndexInput {
    match number_of(t) {
        Some(k) => if k == 0 {
            IndexInput::Cancel
        } else if k <= max_index {
            IndexInput::Pick(k as usize)
        } else {
            IndexInput::Invalid
        },
        None => IndexInput::Invalid,
    }
}

/// Reads an answer (already trimmed) to a position prompt.
pub fn index_input(text: &str, max_index: usize) -> (r: IndexInput)
    ensures
        r == index_input_of(text@, max_index as nat),
{
    match parse_number(text) {
        Some(k) => if k == 0 {
            IndexInput::Cancel
        } else if k <= max_index {
            IndexInput::Pick(k)
        } else {
            IndexInput::Invalid
        },
        None => IndexInput::Invalid,
    }
}

} // verus!
