//! Exact decimal numbers.
//!
//! A weight is kept as the digits the device sent, with a sign and the number
//! of digits behind the decimal point. Nothing is rounded: `00032.000` and
//! `32` are different digit strings with the same numeric value.

use crate::text::find_first;
use crate::text::first_index_of;
use vstd::prelude::*;

verus! {

/// The mathematical content of a [`Decimal`]: its value is
/// `(-1)^negative * digits_value(digits) / 10^scale`.
pub struct DecimalView {
    pub negative: bool,
    pub digits: Seq<u8>,
    pub scale: nat,
}

/// A signed decimal number of any length.
#[derive(Debug)]
pub struct Decimal {
    pub negative: bool,
    pub digits: Vec<u8>,
    pub scale: usize,
}

impl View for Decimal {
    type V = DecimalView;

    open spec fn view(&self) -> DecimalView {
        DecimalView { negative: self.negative, digits: self.digits@, scale: self.scale as nat }
    }
}

impl DeepView for Decimal {
    type V = DecimalView;

    open spec fn deep_view(&self) -> DecimalView {
        self@
    }
}

/// Whether `c` is one of the ten ASCII digits.
pub open spec fn is_digit(c: char) -> bool {
    '0' <= c && c <= '9'
}

/// The value of an ASCII digit.
pub open spec fn digit_value(c: char) -> u8
    recommends
        is_digit(c),
{
    (c as u32 - '0' as u32) as u8
}

/// The character of a digit value below ten.
pub open spec fn digit_char(d: u8) -> char
    recommends
        d < 10,
{
    ('0' as u8 + d) as char
}

/// Whether every character of `s` is an ASCII digit.
pub open spec fn all_digits(s: Seq<char>) -> bool {
    forall|i: int| 0 <= i < s.len() ==> is_digit(#[trigger] s[i])
}

/// The digit values of a text of ASCII digits.
pub open spec fn digit_values(s: Seq<char>) -> Seq<u8> {
    Seq::new(s.len(), |i: int| digit_value(s[i]))
}

/// The characters of a sequence of digit values.
pub open spec fn digit_chars(d: Seq<u8>) -> Seq<char> {
    Seq::new(d.len(), |i: int| digit_char(d[i]))
}

/// The number that a sequence of decimal digits, most significant first,
/// stands for.
pub open spec fn digits_value(d: Seq<u8>) -> nat
    decreases d.len(),
{
    if d.len() == 0 {
        0
    } else {
        digits_value(d.drop_last()) * 10 + d.last() as nat
    }
}

/// The decimal digits of `n`, most significant first, without leading zeros
/// (`0` has the one digit zero).
pub open spec fn decimal_digits(n: nat) -> Seq<u8>
    decreases n,
{
    if n < 10 {
        seq![n as u8]
    } else {
        decimal_digits(n / 10).push((n % 10) as u8)
    }
}

/// `n` written in decimal.
pub open spec fn decimal_text(n: nat) -> Seq<char> {
    digit_chars(decimal_digits(n))
}

/// Different numbers are written differently.
pub proof fn lemma_decimal_text_injective(a: nat, b: nat)
    requires
        decimal_text(a) == decimal_text(b),
    ensures
        a == b,
{
    lemma_decimal_digits(a);
    lemma_decimal_digits(b);
    let da = decimal_digits(a);
    let db = decimal_digits(b);
    assert(digit_chars(da).len() == digit_chars(db).len());
    assert forall|i: int| 0 <= i < da.len() implies da[i] == db[i] by {
        assert(digit_chars(da)[i] == digit_chars(db)[i]);
    }
    assert(da =~= db);
}

/// Whether `s` starts with a sign character.
pub open spec fn has_sign(s: Seq<char>) -> bool {
    s.len() > 0 && (s[0] == '+' || s[0] == '-')
}

/// `s` without its sign character, if it has one.
pub open spec fn unsigned_part(s: Seq<char>) -> Seq<char> {
    if has_sign(s) {
        s.drop_first()
    } else {
        s
    }
}

/// The digits before the decimal point of an unsigned number text.
pub open spec fn integer_part(body: Seq<char>) -> Seq<char> {
    body.take(first_index_of(body, '.'))
}

/// The digits behind the decimal point of an unsigned number text; empty
/// where there is no point.
pub open spec fn fraction_part(body: Seq<char>) -> Seq<char> {
    let dot = first_index_of(body, '.');
    if dot < body.len() {
        body.skip(dot + 1)
    } else {
        Seq::empty()
    }
}

/// The number that the text `s` denotes: an optional sign, then ASCII digits
/// with at most one decimal point among them and at least one digit in all.
/// `None` for every other text.
pub open spec fn decimal_of(s: Seq<char>) -> Option<DecimalView> {
    let body = unsigned_part(s);
    let whole = integer_part(body);
    let fraction = fraction_part(body);
    if all_digits(whole) && all_digits(fraction) && whole.len() + fraction.len() > 0 {
        Some(
            DecimalView {
                negative: has_sign(s) && s[0] == '-',
                digits: digit_values(whole + fraction),
                scale: fraction.len(),
            },
        )
    } else {
        None
    }
}

impl DecimalView {
    /// Every digit is below ten and the scale counts digits that exist.
    pub open spec fn wf(self) -> bool {
        &&& self.scale <= self.digits.len()
        &&& forall|i: int| 0 <= i < self.digits.len() ==> #[trigger] self.digits[i] < 10
    }

    /// Whether the number is zero, whatever its sign and its length.
    pub open spec fn is_zero(self) -> bool {
        forall|i: int| 0 <= i < self.digits.len() ==> #[trigger] self.digits[i] == 0
    }

    /// The number without its decimal point, as a signed integer.
    pub open spec fn mantissa(self) -> int {
        if self.negative {
            -(digits_value(self.digits) as int)
        } else {
            digits_value(self.digits) as int
        }
    }

    /// The text of the number: a minus sign where it is negative, the digits
    /// before the point (`0` where there are none), and the point with the
    /// digits behind it where there are any.
    pub open spec fn text(self) -> Seq<char> {
        let sign = if self.negative {
            seq!['-']
        } else {
            Seq::<char>::empty()
        };
        let split = self.digits.len() - self.scale;
        let whole = if split == 0 {
            seq!['0']
        } else {
            digit_chars(self.digits.take(split))
        };
        let fraction = if self.scale == 0 {
            Seq::<char>::empty()
        } else {
            seq!['.'] + digit_chars(self.digits.skip(split))
        };
        sign + whole + fraction
    }

    /// The number with the opposite sign.
    pub open spec fn negated(self) -> DecimalView {
        DecimalView { negative: !self.negative, digits: self.digits, scale: self.scale }
    }

    /// The one-digit zero.
    pub open spec fn zero() -> DecimalView {
        DecimalView { negative: false, digits: seq![0u8], scale: 0 }
    }

    /// The whole number `n`.
    pub open spec fn of_int(n: int) -> DecimalView {
        DecimalView { negative: n < 0, digits: decimal_digits(vstd::math::abs(n)), scale: 0 }
    }
}

/// The digits of `n` stand for `n`, and each is below ten.
pub proof fn lemma_decimal_digits(n: nat)
    ensures
        digits_value(decimal_digits(n)) == n,
        decimal_digits(n).len() >= 1,
        forall|i: int| 0 <= i < decimal_digits(n).len() ==> #[trigger] decimal_digits(n)[i] < 10,
    decreases n,
{
    if n < 10 {
        let d = seq![n as u8];
        assert(d.drop_last() =~= Seq::<u8>::empty());
        assert(digits_value(d.drop_last()) == 0);
    } else {
        lemma_decimal_digits(n / 10);
        let d = decimal_digits(n);
        assert(d.drop_last() =~= decimal_digits(n / 10));
    }
}

impl Decimal {
    /// Every digit is below ten and the scale counts digits that exist.
    pub open spec fn wf(&self) -> bool {
        self@.wf()
    }

    /// The one-digit zero.
    pub fn zero() -> (d: Decimal)
        ensures
            d@ == DecimalView::zero(),
            d.wf(),
    {
        let mut digits: Vec<u8> = Vec::new();
        digits.push(0u8);
        assert(digits@ =~= seq![0u8]);
        Decimal { negative: false, digits, scale: 0 }
    }

    /// The whole number `n`.
    pub fn from_i64(n: i64) -> (d: Decimal)
        ensures
            d@ == DecimalView::of_int(n as int),
            d.wf(),
            d@.mantissa() == n,
    {
        let negative = n < 0;
        let magnitude: u64 = if n >= 0 {
            n as u64
        } else {
            (-(n + 1)) as u64 + 1
        };
        let digits: Vec<u8> = digits_of(magnitude as u128);
        proof {
            lemma_decimal_digits(magnitude as nat);
        }
        Decimal { negative, digits, scale: 0 }
    }

    /// The number with the opposite sign.
    pub fn negated(self) -> (d: Decimal)
        ensures
            d@ == self@.negated(),
            self.wf() ==> d.wf(),
    {
        Decimal { negative: !self.negative, digits: self.digits, scale: self.scale }
    }

    /// Whether the number is zero, whatever its sign and its length.
    pub fn is_zero(&self) -> (b: bool)
        ensures
            b == self@.is_zero(),
    {
        let mut i: usize = 0;
        while i < self.digits.len()
            invariant
                i <= self.digits.len(),
                forall|k: int| 0 <= k < i ==> #[trigger] self.digits@[k] == 0,
            decreases self.digits.len() - i,
        {
            if self.digits[i] != 0 {
                assert(self@.digits[i as int] != 0);
                return false;
            }
            i += 1;
        }
        true
    }

    /// A copy of the number.
    pub fn copy(&self) -> (d: Decimal)
        ensures
            d@ == self@,
    {
        let mut digits: Vec<u8> = Vec::new();
        let mut i: usize = 0;
        while i < self.digits.len()
            invariant
                i <= self.digits.len(),
                digits@ == self.digits@.take(i as int),
            decreases self.digits.len() - i,
        {
            digits.push(self.digits[i]);
            i += 1;
        }
        assert(self.digits@.take(self.digits.len() as int) == self.digits@);
        Decimal { negative: self.negative, digits, scale: self.scale }
    }

    /// Reads a number from its text; `None` where the text is no number.
    pub fn parse(s: &Vec<char>) -> (r: Option<Decimal>)
        ensures
            r.deep_view() == decimal_of(s@),
            r matches Some(d) ==> d.wf(),
    {
        let signed = s.len() > 0 && (s[0] == '+' || s[0] == '-');
        let negative = signed && s[0] == '-';
        let start: usize = if signed {
            1
        } else {
            0
        };
        let body = crate::text::copy_range(s, start, s.len());
        assert(body@ == unsigned_part(s@));
        let dot = find_first(&body, '.');
        let mut digits: Vec<u8> = Vec::new();
        assert(body@.subrange(0, dot as int) == integer_part(body@));
        if !push_digits(&body, 0, dot, &mut digits) {
            return None;
        }
        let ghost whole = integer_part(body@);
        assert(digits@ =~= digit_values(whole));
        let mut scale: usize = 0;
        if dot < body.len() {
            assert(body@.subrange(dot + 1, body.len() as int) == fraction_part(body@));
            if !push_digits(&body, dot + 1, body.len(), &mut digits) {
                return None;
            }
            scale = body.len() - dot - 1;
        }
        let ghost fraction = fraction_part(body@);
        assert(digits@ =~= digit_values(whole + fraction)) by {
            assert(digits@ =~= digit_values(whole) + digit_values(fraction));
        }
        if digits.len() == 0 {
            return None;
        }
        Some(Decimal { negative, digits, scale })
    }

    /// The text of the number.
    pub fn to_string(&self) -> (s: String)
        requires
            self.wf(),
        ensures
            s@ == self@.text(),
    {
        let mut s = String::new();
        if self.negative {
            s.push('-');
        }
        let split: usize = self.digits.len() - self.scale;
        let ghost sign = s@;
        if split == 0 {
            s.push('0');
            assert(s@ =~= sign + seq!['0']);
        } else {
            let mut i: usize = 0;
            assert(s@ =~= sign + digit_chars(self.digits@.take(split as int)).take(0));
            while i < split
                invariant
                    i <= split <= self.digits.len(),
                    self.wf(),
                    s@ == sign + digit_chars(self.digits@.take(split as int)).take(i as int),
                decreases split - i,
            {
                s.push(char_of_digit(self.digits[i]));
                proof {
                    let all = digit_chars(self.digits@.take(split as int));
                    assert(all.take(i as int + 1) =~= all.take(i as int).push(all[i as int]));
                }
                i += 1;
            }
        }
        let ghost whole = if split == 0 {
            seq!['0']
        } else {
            digit_chars(self.digits@.take(split as int))
        };
        proof {
            if split > 0 {
                assert(whole.take(split as int) =~= whole);
            }
            assert(s@ =~= sign + whole);
        }
        if self.scale > 0 {
            s.push('.');
            let mut j: usize = split;
            assert(s@ =~= sign + whole + (seq!['.'] + digit_chars(
                self.digits@.skip(split as int),
            ).take(0)));
            while j < self.digits.len()
                invariant
                    split <= j <= self.digits.len(),
                    self.wf(),
                    s@ == sign + whole + (seq!['.'] + digit_chars(
                        self.digits@.skip(split as int),
                    ).take(j - split)),
                decreases self.digits.len() - j,
            {
                s.push(char_of_digit(self.digits[j]));
                proof {
                    let all = digit_chars(self.digits@.skip(split as int));
                    assert(all.take(j - split + 1) =~= all.take(j - split).push(all[j - split]));
                }
                j += 1;
            }
            proof {
                let all = digit_chars(self.digits@.skip(split as int));
                assert(all.take(self.digits.len() - split) =~= all);
            }
        } else {
            assert(s@ =~= sign + whole + Seq::<char>::empty());
        }
        s
    }
}

/// Appends the values of the digits `v[from..to]` to `out`, or reports that
/// one of these characters is no digit.
fn push_digits(v: &Vec<char>, from: usize, to: usize, out: &mut Vec<u8>) -> (ok: bool)
    requires
        from <= to <= v.len(),
        forall|k: int| 0 <= k < old(out).len() ==> #[trigger] old(out)@[k] < 10,
    ensures
        ok == all_digits(v@.subrange(from as int, to as int)),
        ok ==> final(out)@ == old(out)@ + digit_values(v@.subrange(from as int, to as int)),
        forall|k: int| 0 <= k < final(out).len() ==> #[trigger] final(out)@[k] < 10,
{
    let ghost range = v@.subrange(from as int, to as int);
    let mut i: usize = from;
    assert(out@ =~= old(out)@ + digit_values(range.take(0)));
    while i < to
        invariant
            from <= i <= to <= v.len(),
            range == v@.subrange(from as int, to as int),
            forall|k: int| 0 <= k < i - from ==> is_digit(#[trigger] range[k]),
            out@ == old(out)@ + digit_values(range.take(i - from)),
            forall|k: int| 0 <= k < out.len() ==> #[trigger] out@[k] < 10,
        decreases to - i,
    {
        let c = v[i];
        assert(c == range[i - from]);
        if '0' <= c && c <= '9' {
            let d: u8 = (c as u32 - '0' as u32) as u8;
            out.push(d);
            assert(digit_values(range.take(i - from + 1)) =~= digit_values(
                range.take(i - from),
            ).push(d));
        } else {
            return false;
        }
        i += 1;
    }
    assert(range.take(to - from) =~= range);
    true
}

/// Whether `c` is a digit of base sixteen written with capital letters.
pub open spec fn is_hex_digit(c: char) -> bool {
    is_digit(c) || is_hex_letter(c)
}

/// Whether `c` is one of the letters `A` to `F`.
pub open spec fn is_hex_letter(c: char) -> bool {
    'A' <= c && c <= 'F'
}

/// The value of a digit of base sixteen.
pub open spec fn hex_digit_value(c: char) -> nat
    recommends
        is_hex_digit(c),
{
    if is_digit(c) {
        (c as u32 - '0' as u32) as nat
    } else {
        (c as u32 - 'A' as u32 + 10) as nat
    }
}

/// The number that a text of digits of base sixteen stands for.
pub open spec fn hex_value(s: Seq<char>) -> nat
    decreases s.len(),
{
    if s.len() == 0 {
        0
    } else {
        hex_value(s.drop_last()) * 16 + hex_digit_value(s.last())
    }
}

/// The number of digits of base sixteen at the front of `s`.
pub open spec fn leading_hex(s: Seq<char>) -> nat
    decreases s.len(),
{
    if s.len() > 0 && is_hex_digit(s[0]) {
        1 + leading_hex(s.drop_first())
    } else {
        0
    }
}

/// Whether `s` holds one of the letters `A` to `F`.
pub open spec fn has_hex_letter(s: Seq<char>) -> bool {
    exists|i: int| 0 <= i < s.len() && is_hex_letter(#[trigger] s[i])
}

/// The signed number that 32 bits hold in two's complement.
pub open spec fn twos_complement_32(bits: nat) -> int {
    if bits >= 0x8000_0000 {
        bits - 0x1_0000_0000
    } else {
        bits as int
    }
}

/// Sixteen to the power of `n`.
pub open spec fn pow16(n: nat) -> nat
    decreases n,
{
    if n == 0 {
        1
    } else {
        16 * pow16((n - 1) as nat)
    }
}

proof fn lemma_leading_hex_is(s: Seq<char>, n: int)
    requires
        0 <= n <= s.len(),
        forall|k: int| 0 <= k < n ==> is_hex_digit(#[trigger] s[k]),
        n < s.len() ==> !is_hex_digit(s[n]),
    ensures
        leading_hex(s) == n,
    decreases s.len(),
{
    if n > 0 {
        assert(is_hex_digit(s[0]));
        let rest = s.drop_first();
        assert forall|k: int| 0 <= k < n - 1 implies is_hex_digit(#[trigger] rest[k]) by {
            assert(rest[k] == s[k + 1]);
        }
        lemma_leading_hex_is(rest, n - 1);
    }
}

/// The length of the run of digits of base sixteen at the front of `v`, and
/// whether a letter is among them.
pub fn hex_run(v: &Vec<char>) -> (r: (usize, bool))
    ensures
        r.0 == leading_hex(v@),
        r.0 <= v.len(),
        r.1 == has_hex_letter(v@.take(r.0 as int)),
        forall|k: int| 0 <= k < r.0 ==> is_hex_digit(#[trigger] v@[k]),
{
    let mut i: usize = 0;
    let mut letter = false;
    let ghost mut witness: int = 0;
    while i < v.len() && (('0' <= v[i] && v[i] <= '9') || ('A' <= v[i] && v[i] <= 'F'))
        invariant
            i <= v.len(),
            forall|k: int| 0 <= k < i ==> is_hex_digit(#[trigger] v@[k]),
            letter ==> 0 <= witness < i && is_hex_letter(v@[witness]),
            !letter ==> forall|k: int| 0 <= k < i ==> !is_hex_letter(#[trigger] v@[k]),
        decreases v.len() - i,
    {
        if 'A' <= v[i] && v[i] <= 'F' {
            letter = true;
            proof {
                witness = i as int;
            }
        }
        i += 1;
    }
    proof {
        lemma_leading_hex_is(v@, i as int);
        let run = v@.take(i as int);
        if letter {
            assert(is_hex_letter(run[witness]));
        } else {
            assert forall|k: int| 0 <= k < run.len() implies !is_hex_letter(
                #[trigger] run[k],
            ) by {
                assert(run[k] == v@[k]);
            }
        }
    }
    (i, letter)
}

proof fn lemma_hex_value_bound(s: Seq<char>)
    requires
        forall|k: int| 0 <= k < s.len() ==> is_hex_digit(#[trigger] s[k]),
    ensures
        hex_value(s) < pow16(s.len()),
    decreases s.len(),
{
    if s.len() > 0 {
        let rest = s.drop_last();
        assert forall|k: int| 0 <= k < rest.len() implies is_hex_digit(#[trigger] rest[k]) by {
            assert(rest[k] == s[k]);
        }
        lemma_hex_value_bound(rest);
        assert(is_hex_digit(s.last()));
        assert(hex_digit_value(s.last()) < 16);
    }
}

/// The number that the first `n` characters of `v`, digits of base sixteen,
/// stand for.
pub fn hex_number(v: &Vec<char>, n: usize) -> (value: u64)
    requires
        n <= v.len(),
        n <= 8,
        forall|k: int| 0 <= k < n ==> is_hex_digit(#[trigger] v@[k]),
    ensures
        value == hex_value(v@.take(n as int)),
        value < 0x1_0000_0000,
{
    let mut value: u64 = 0;
    let mut i: usize = 0;
    assert(v@.take(0) =~= Seq::<char>::empty());
    while i < n
        invariant
            i <= n <= v.len(),
            n <= 8,
            forall|k: int| 0 <= k < n ==> is_hex_digit(#[trigger] v@[k]),
            value == hex_value(v@.take(i as int)),
            value < 0x1_0000_0000,
        decreases n - i,
    {
        let c = v[i];
        assert(is_hex_digit(v@[i as int]));
        let d: u64 = if '0' <= c && c <= '9' {
            (c as u32 - '0' as u32) as u64
        } else {
            (c as u32 - 'A' as u32 + 10) as u64
        };
        proof {
            let next = v@.take(i as int + 1);
            assert(next.drop_last() =~= v@.take(i as int));
            assert(next.last() == c);
            assert forall|k: int| 0 <= k < next.len() implies is_hex_digit(#[trigger] next[k]) by {
                assert(next[k] == v@[k]);
            }
            lemma_hex_value_bound(next);
            reveal_with_fuel(pow16, 9);
            lemma_pow16_monotone(next.len(), 8);
        }
        value = value * 16 + d;
        i += 1;
    }
    value
}

proof fn lemma_pow16_monotone(a: nat, b: nat)
    requires
        a <= b,
    ensures
        pow16(a) <= pow16(b),
    decreases b,
{
    if a < b {
        lemma_pow16_monotone(a, (b - 1) as nat);
    }
}

/// The character of a digit value.
pub fn char_of_digit(d: u8) -> (c: char)
    requires
        d < 10,
    ensures
        c == digit_char(d),
{
    ('0' as u8 + d) as char
}

/// The decimal digits of `n`, most significant first.
pub fn digits_of(n: u128) -> (digits: Vec<u8>)
    ensures
        digits@ == decimal_digits(n as nat),
    decreases n,
{
    if n < 10 {
        let mut digits: Vec<u8> = Vec::new();
        digits.push(n as u8);
        assert(digits@ =~= seq![n as u8]);
        digits
    } else {
        let mut digits = digits_of(n / 10);
        digits.push((n % 10) as u8);
        digits
    }
}

/// `n` written in decimal.
pub fn decimal_string(n: u64) -> (s: String)
    ensures
        s@ == decimal_text(n as nat),
{
    wide_decimal_string(n as u128)
}

/// `n` written in decimal, for numbers of any width.
pub fn wide_decimal_string(n: u128) -> (s: String)
    ensures
        s@ == decimal_text(n as nat),
{
    let digits = digits_of(n);
    proof {
        lemma_decimal_digits(n as nat);
    }
    let mut s = String::new();
    let mut i: usize = 0;
    while i < digits.len()
        invariant
            i <= digits.len(),
            forall|k: int| 0 <= k < digits.len() ==> #[trigger] digits@[k] < 10,
            s@ == digit_chars(digits@).take(i as int),
        decreases digits.len() - i,
    {
        s.push(char_of_digit(digits[i]));
        proof {
            let all = digit_chars(digits@);
            assert(all.take(i as int + 1) =~= all.take(i as int).push(all[i as int]));
        }
        i += 1;
    }
    assert(digit_chars(digits@).take(digits.len() as int) =~= digit_chars(digits@));
    s
}

} // verus!
