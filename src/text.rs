use vstd::prelude::*;

verus! {

/// The decimal digit for `d`, which is below ten.
pub open spec fn digit_char(d: nat) -> char {
    if d == 0 {
        '0'
    } else if d == 1 {
        '1'
    } else if d == 2 {
        '2'
    } else if d == 3 {
        '3'
    } else if d == 4 {
        '4'
    } else if d == 5 {
        '5'
    } else if d == 6 {
        '6'
    } else if d == 7 {
        '7'
    } else if d == 8 {
        '8'
    } else {
        '9'
    }
}

/// `n` written in base ten, without leading zeros.
pub open spec fn decimal(n: nat) -> Seq<char>
    decreases n,
{
    if n < 10 {
        seq![digit_char(n)]
    } else {
        decimal(n / 10) + seq![digit_char(n % 10)]
    }
}

/// The last two decimal digits of `n`, with a leading zero where needed.
pub open spec fn two_digits(n: nat) -> Seq<char> {
    seq![digit_char((n / 10) % 10), digit_char(n % 10)]
}

/// An amount given in cents, written with exactly two decimals and a comma
/// as the decimal separator.
pub open spec fn currency_text(cents: nat) -> Seq<char> {
    decimal(cents / 100) + seq![','] + two_digits(cents % 100)
}

fn digit_str(d: u128) -> (r: &'static str)
    requires
        d < 10,
    ensures
        r@ == seq![digit_char(d as nat)],
{
    if d == 0 {
        proof { reveal_strlit("0"); }
        "0"
    } else if d == 1 {
        proof { reveal_strlit("1"); }
        "1"
    } else if d == 2 {
        proof { reveal_strlit("2"); }
        "2"
    } else if d == 3 {
        proof { reveal_strlit("3"); }
        "3"
    } else if d == 4 {
        proof { reveal_strlit("4"); }
        "4"
    } else if d == 5 {
        proof { reveal_strlit("5"); }
        "5"
    } else if d == 6 {
        proof { reveal_strlit("6"); }
        "6"
    } else if d == 7 {
        proof { reveal_strlit("7"); }
        "7"
    } else if d == 8 {
        proof { reveal_strlit("8"); }
        "8"
    } else {
        proof { reveal_strlit("9"); }
        "9"
    }
}

/// Appends `n` in base ten.
pub fn push_decimal(out: &mut String, n: u128)
    ensures
        final(out)@ == old(out)@ + decimal(n as nat),
    decreases n,
{
    if n >= 10 {
        push_decimal(out, n / 10);
    }
    out.append(digit_str(n % 10));
    assert(final(out)@ =~= old(out)@ + decimal(n as nat));
}

/// Appends the last two decimal digits of `n`.
pub fn push_two_digits(out: &mut String, n: u128)
    ensures
        final(out)@ == old(out)@ + two_digits(n as nat),
{
    out.append(digit_str((n / 10) % 10));
    out.append(digit_str(n % 10));
    assert(final(out)@ =~= old(out)@ + two_digits(n as nat));
}

/// Formats an amount of cents as currency: `2000` becomes `20,00`.
pub fn format_currency(cents: u128) -> (r: String)
    ensures
        r@ == currency_text(cents as nat),
{
    let mut out = String::new();
    push_decimal(&mut out, cents / 100);
    proof { reveal_strlit(","); }
    out.append(",");
    push_two_digits(&mut out, cents % 100);
    assert(out@ =~= currency_text(cents as nat));
    out
}

/// A year as four digits at least, zero padded; one outside 0 to 9999
/// carries its sign.
pub open spec fn year_text(year: int) -> Seq<char> {
    if 0 <= year < 10000 {
        padded_year(year as nat)
    } else if year >= 10000 {
        seq!['+'] + padded_year(year as nat)
    } else {
        seq!['-'] + padded_year((-year) as nat)
    }
}

/// `n` in base ten, zero padded to four digits.
pub open spec fn padded_year(n: nat) -> Seq<char> {
    if n < 10000 {
        two_digits(n / 100) + two_digits(n % 100)
    } else {
        decimal(n)
    }
}

/// A calendar date as day, month and year.
#[derive(Debug, Clone, Copy, PartialEq, Eq, Structural)]
pub struct IssueDate {
    pub day: u32,
    pub month: u32,
    pub year: i32,
}

impl IssueDate {
    pub open spec fn well_formed(&self) -> bool {
        &&& 1 <= self.day <= 31
        &&& 1 <= self.month <= 12
    }

    /// The date as dd/mm/yyyy.
    pub open spec fn text(&self) -> Seq<char> {
        two_digits(self.day as nat) + seq!['/'] + two_digits(self.month as nat) + seq!['/']
            + year_text(self.year as int)
    }

    /// Writes the date as dd/mm/yyyy.
    pub fn format(&self) -> (r: String)
        requires
            self.well_formed(),
        ensures
            r@ == self.text(),
    {
        let mut out = String::new();
        proof {
            reveal_strlit("/");
            reveal_strlit("+");
            reveal_strlit("-");
        }
        push_two_digits(&mut out, self.day as u128);
        out.append("/");
        push_two_digits(&mut out, self.month as u128);
        out.append("/");
        let magnitude: u128;
        if self.year < 0 {
            out.append("-");
            magnitude = (-(self.year as i64)) as u128;
        } else {
            if self.year >= 10000 {
                out.append("+");
            }
            magnitude = self.year as u128;
        }
        if magnitude < 10000 {
            push_two_digits(&mut out, magnitude / 100);
            push_two_digits(&mut out, magnitude % 100);
        } else {
            push_decimal(&mut out, magnitude);
        }
        assert(out@ =~= self.text());
        out
    }
}

/// The explicit line break that LaTeX needs at the end of a line.
pub open spec fn line_break() -> Seq<char> {
    seq![' ', '\\', '\\', '\n']
}

/// Multi-line text made fit for LaTeX: every newline becomes an explicit line
/// break followed by the newline.
pub open spec fn multiline_text(s: Seq<char>) -> Seq<char>
    decreases s.len(),
{
    if s.len() == 0 {
        Seq::empty()
    } else {
        multiline_text(s.drop_last()) + (if s.last() == '\n' {
            line_break()
        } else {
            seq![s.last()]
        })
    }
}

/// Replaces each newline of `s` by an explicit line break and the newline.
pub fn multiline(s: &str) -> (r: String)
    ensures
        r@ == multiline_text(s@),
{
    let n = s.unicode_len();
    let mut out = String::new();
    let mut i: usize = 0;
    while i < n
        invariant
            n == s@.len(),
            i <= n,
            out@ == multiline_text(s@.subrange(0, i as int)),
        decreases n - i,
    {
        let c = s.get_char(i);
        let ghost next = s@.subrange(0, i + 1);
        assert(next.drop_last() =~= s@.subrange(0, i as int));
        assert(next.last() == c);
        if c == '\n' {
            proof { reveal_strlit(" \\\\\n"); }
            out.append(" \\\\\n");
        } else {
            out.append(s.substring_char(i, i + 1));
            assert(s@.subrange(i as int, i + 1) =~= seq![c]);
        }
        i = i + 1;
    }
    assert(s@.subrange(0, n as int) =~= s@);
    out
}

/// The LaTeX directive that includes the PDF document at `path`.
pub open spec fn include_pdf_text(path: Seq<char>) -> Seq<char> {
    seq!['\\', 'i', 'n', 'c', 'l', 'u', 'd', 'e', 'p', 'd', 'f', '{'] + path + seq!['}']
}

/// Builds `\includepdf{path}` with the path spliced in verbatim.
pub fn include_pdf(path: &str) -> (r: String)
    ensures
        r@ == include_pdf_text(path@),
{
    proof {
        reveal_strlit("\\includepdf{");
        reveal_strlit("}");
    }
    let mut out = String::from_str("\\includepdf{");
    out.append(path);
    out.append("}");
    assert(out@ =~= include_pdf_text(path@));
    out
}

/// `content` between literal braces.
pub open spec fn braced_text(content: Seq<char>) -> Seq<char> {
    seq!['{'] + content + seq!['}']
}

/// Wraps `content` in literal braces, which the template could not write
/// next to its own delimiters.
pub fn override_braces(content: &str) -> (r: String)
    ensures
        r@ == braced_text(content@),
{
    proof {
        reveal_strlit("{");
        reveal_strlit("}");
    }
    let mut out = String::from_str("{");
    out.append(content);
    out.append("}");
    assert(out@ =~= braced_text(content@));
    out
}

/// A decimal digit.
pub open spec fn is_digit(c: char) -> bool {
    '0' <= c && c <= '9'
}

/// The value of a decimal digit.
pub open spec fn digit_value(c: char) -> nat {
    (c as u32 - '0' as u32) as nat
}

/// The number that a string of decimal digits writes.
pub open spec fn digits_value(s: Seq<char>) -> nat
    decreases s.len(),
{
    if s.len() == 0 {
        0
    } else {
        digits_value(s.drop_last()) * 10 + digit_value(s.last())
    }
}

pub open spec fn all_digits(s: Seq<char>) -> bool {
    forall|i: int| 0 <= i < s.len() ==> is_digit(#[trigger] s[i])
}

/// A decimal separator: a point or a comma.
pub open spec fn is_separator(c: char) -> bool {
    c == '.' || c == ','
}

/// The place of the first separator, or the length where there is none.
pub open spec fn separator_index(s: Seq<char>) -> int
    decreases s.len(),
{
    if s.len() == 0 {
        0
    } else if is_separator(s[0]) {
        0
    } else {
        1 + separator_index(s.drop_first())
    }
}

pub open spec fn pow10(n: nat) -> nat
    decreases n,
{
    if n == 0 {
        1
    } else {
        10 * pow10((n - 1) as nat)
    }
}

/// The amount, in ten-thousandths of the currency unit, that `s` writes:
/// one digit or more, then optionally a point or a comma and one to four
/// digits. `None` for any other text.
pub open spec fn amount_value(s: Seq<char>) -> Option<nat> {
    let k = separator_index(s);
    let whole = s.subrange(0, k);
    let frac = if k < s.len() {
        s.subrange(k + 1, s.len() as int)
    } else {
        Seq::empty()
    };
    if whole.len() >= 1 && all_digits(whole) && (k == s.len() || (1 <= frac.len() <= 4
        && all_digits(frac))) {
        Some(digits_value(whole) * 10000 + digits_value(frac) * pow10((4 - frac.len()) as nat))
    } else {
        None
    }
}

proof fn lemma_separator_index(s: Seq<char>)
    ensures
        0 <= separator_index(s) <= s.len(),
        forall|i: int| 0 <= i < separator_index(s) ==> !is_separator(#[trigger] s[i]),
        separator_index(s) < s.len() ==> is_separator(s[separator_index(s)]),
    decreases s.len(),
{
    if s.len() > 0 && !is_separator(s[0]) {
        lemma_separator_index(s.drop_first());
        assert forall|i: int| 0 <= i < separator_index(s) implies !is_separator(#[trigger] s[i]) by {
            if i > 0 {
                assert(s[i] == s.drop_first()[i - 1]);
            }
        }
    }
}

/// The first place at or after `from` of a separator, with none before it.
proof fn lemma_separator_at(s: Seq<char>, k: int)
    requires
        0 <= k <= s.len(),
        forall|i: int| 0 <= i < k ==> !is_separator(#[trigger] s[i]),
        k == s.len() || is_separator(s[k]),
    ensures
        separator_index(s) == k,
    decreases s.len(),
{
    if s.len() > 0 && k > 0 {
        assert forall|i: int| 0 <= i < k - 1 implies !is_separator(#[trigger] s.drop_first()[i]) by {
            assert(s.drop_first()[i] == s[i + 1]);
        }
        if k < s.len() {
            assert(s.drop_first()[k - 1] == s[k]);
        }
        lemma_separator_at(s.drop_first(), k - 1);
    }
}

/// Reads the digits of `s` from `from` to `to`, or `None` where one is not a
/// digit or the number does not fit in 64 bits.
fn read_digits(s: &str, from: usize, to: usize) -> (r: Option<u64>)
    requires
        from <= to <= s@.len(),
    ensures
        match r {
            Some(v) => all_digits(s@.subrange(from as int, to as int)) && v as nat == digits_value(
                s@.subrange(from as int, to as int),
            ),
            None => !all_digits(s@.subrange(from as int, to as int)) || digits_value(
                s@.subrange(from as int, to as int),
            ) > u64::MAX,
        },
{
    let mut v: u64 = 0;
    let mut i: usize = from;
    while i < to
        invariant
            from <= i <= to <= s@.len(),
            all_digits(s@.subrange(from as int, i as int)),
            v as nat == digits_value(s@.subrange(from as int, i as int)),
        decreases to - i,
    {
        let c = s.get_char(i);
        let ghost next = s@.subrange(from as int, i + 1);
        assert(next.drop_last() =~= s@.subrange(from as int, i as int));
        if !('0' <= c && c <= '9') {
            assert(!is_digit(s@.subrange(from as int, to as int)[i - from]));
            return None;
        }
        let d = (c as u32 - '0' as u32) as u64;
        if v > (u64::MAX - d) / 10 {
            proof { lemma_digits_value_grows(s@.subrange(from as int, to as int), i + 1 - from); }
            assert(s@.subrange(from as int, to as int).subrange(0, i + 1 - from) =~= next);
            return None;
        }
        v = v * 10 + d;
        i = i + 1;
    }
    Some(v)
}

/// A longer prefix of digits writes a number at least as large.
proof fn lemma_digits_value_grows(s: Seq<char>, k: int)
    requires
        0 <= k <= s.len(),
    ensures
        digits_value(s.subrange(0, k)) <= digits_value(s),
    decreases s.len(),
{
    if k < s.len() {
        assert(s.drop_last().subrange(0, k) =~= s.subrange(0, k));
        lemma_digits_value_grows(s.drop_last(), k);
    } else {
        assert(s.subrange(0, k) =~= s);
    }
}

fn separator_at(s: &str, k: usize) -> (r: bool)
    requires
        k < s@.len(),
    ensures
        r == is_separator(s@[k as int]),
{
    let c = s.get_char(k);
    c == '.' || c == ','
}

/// Reads a price such as `10`, `10.5` or `10,5000`, in ten-thousandths of
/// the currency unit. `None` for text of any other form, or for an amount
/// beyond 64 bits.
pub fn parse_amount(s: &str) -> (r: Option<u64>)
    ensures
        match r {
            Some(v) => amount_value(s@) == Some(v as nat),
            None => amount_value(s@) is None || amount_value(s@)->0 > u64::MAX,
        },
{
    let n = s.unicode_len();
    let mut k: usize = 0;
    while k < n && !separator_at(s, k)
        invariant
            n == s@.len(),
            k <= n,
            forall|i: int| 0 <= i < k ==> !is_separator(#[trigger] s@[i]),
        decreases n - k,
    {
        k = k + 1;
    }
    proof { lemma_separator_at(s@, k as int); }
    if k == 0 {
        return None;
    }
    let whole = match read_digits(s, 0, k) {
        Some(w) => w,
        None => {
            proof {
                let w = digits_value(s@.subrange(0, k as int));
                assert(w * 10000 >= w) by (nonlinear_arith);
            }
            return None;
        },
    };
    let ghost frac_seq = if k < n {
        s@.subrange(k + 1, n as int)
    } else {
        Seq::<char>::empty()
    };
    let mut frac: u64 = 0;
    let mut scale: u64 = 10000;
    if k < n {
        let len = n - k - 1;
        if len < 1 || len > 4 {
            return None;
        }
        frac = match read_digits(s, k + 1, n) {
            Some(f) => f,
            None => {
                proof {
                    if all_digits(frac_seq) {
                        lemma_digits_below(frac_seq);
                        reveal_with_fuel(pow10, 5);
                    }
                }
                return None;
            },
        };
        scale = if len == 1 {
            1000
        } else if len == 2 {
            100
        } else if len == 3 {
            10
        } else {
            1
        };
        assert(scale as nat == pow10((4 - frac_seq.len()) as nat)) by {
            reveal_with_fuel(pow10, 5);
        }
        assert(frac < 10000) by {
            lemma_digits_below(frac_seq);
            reveal_with_fuel(pow10, 5);
        }
    } else {
        assert(digits_value(frac_seq) == 0);
        assert(scale as nat == pow10(4)) by {
            reveal_with_fuel(pow10, 5);
        }
    }
    assert((whole as u128) * 10000 + (frac as u128) * (scale as u128) <= u64::MAX as u128 * 10000
        + 10000 * 10000) by (nonlinear_arith)
        requires
            frac < 10000,
            scale <= 10000,
    ;
    let total: u128 = (whole as u128) * 10000 + (frac as u128) * (scale as u128);
    if total > u64::MAX as u128 {
        return None;
    }
    Some(total as u64)
}

/// A number of `n` digits is below ten to the `n`.
proof fn lemma_digits_below(s: Seq<char>)
    requires
        all_digits(s),
    ensures
        digits_value(s) < pow10(s.len()),
    decreases s.len(),
{
    if s.len() > 0 {
        let p = s.drop_last();
        assert(all_digits(p)) by {
            assert forall|i: int| 0 <= i < p.len() implies is_digit(#[trigger] p[i]) by {
                assert(p[i] == s[i]);
            }
        }
        lemma_digits_below(p);
        assert(is_digit(s[s.len() - 1]));
    }
}

} // verus!
