use vstd::prelude::*;

verus! {

/// Whether `c` is an ASCII decimal digit.
pub open spec fn is_digit(c: char) -> bool {
    '0' <= c && c <= '9'
}

/// The numeric value of an ASCII decimal digit.
pub open spec fn digit_value(c: char) -> nat {
    (c as u32 - '0' as u32) as nat
}

/// Every character of `s` is a decimal digit.
pub open spec fn all_digits(s: Seq<char>) -> bool {
    forall|i: int| 0 <= i < s.len() ==> #[trigger] is_digit(s[i])
}

/// The number that the digit string `s` denotes in base ten, most significant
/// digit first (the empty string denotes zero).
pub open spec fn digits_value(s: Seq<char>) -> nat
    decreases s.len(),
{
    if s.len() == 0 {
        0
    } else {
        digits_value(s.drop_last()) * 10 + digit_value(s.last())
    }
}

/// A buffer after `c` was offered to it: digits are kept, anything else is
/// dropped.
pub open spec fn after_push(s: Seq<char>, c: char) -> Seq<char> {
    if is_digit(c) {
        s.push(c)
    } else {
        s
    }
}

/// A buffer after each character of `cs` was offered to it in turn.
pub open spec fn after_pushes(s: Seq<char>, cs: Seq<char>) -> Seq<char>
    decreases cs.len(),
{
    if cs.len() == 0 {
        s
    } else {
        after_push(after_pushes(s, cs.drop_last()), cs.last())
    }
}

/// `10` to the power `e`.
pub open spec fn pow10(e: nat) -> nat
    decreases e,
{
    if e == 0 {
        1
    } else {
        10 * pow10((e - 1) as nat)
    }
}

/// The sum of each digit of `s` times ten to the power of the number of digits
/// after it.
pub open spec fn positional_value(s: Seq<char>) -> nat
    decreases s.len(),
{
    if s.len() == 0 {
        0
    } else {
        digit_value(s[0]) * pow10((s.len() - 1) as nat) + positional_value(s.drop_first())
    }
}

/// What reading the buffer `s` as a number gives.
pub open spec fn number_of(s: Seq<char>) -> Result<usize, ParseError> {
    if s.len() == 0 {
        Err(ParseError::Empty)
    } else if !all_digits(s) {
        Err(ParseError::InvalidDigit)
    } else if digits_value(s) > usize::MAX {
        Err(ParseError::Overflow)
    } else {
        Ok(digits_value(s) as usize)
    }
}

/// Why the buffer could not be read as a number.
#[derive(Debug, Clone, Copy, PartialEq, Eq, Structural)]
pub enum ParseError {
    /// Nothing has been typed.
    Empty,
    /// The buffer holds a character that is not a decimal digit.
    InvalidDigit,
    /// The number does not fit in a `usize`.
    Overflow,
}

/// Digits typed before a command key, such as the `12` of `12g`.
#[derive(Debug)]
pub struct RawCommand {
    text: Vec<char>,
}

impl View for RawCommand {
    type V = Seq<char>;

    closed spec fn view(&self) -> Seq<char> {
        self.text@
    }
}

/// Prefixes of a digit string never denote a larger number than longer prefixes.
pub proof fn lemma_digits_value_monotone(s: Seq<char>, i: int, j: int)
    requires
        0 <= i <= j <= s.len(),
    ensures
        digits_value(s.take(i)) <= digits_value(s.take(j)),
    decreases j - i,
{
    if i < j {
        lemma_digits_value_monotone(s, i, j - 1);
        assert(s.take(j).drop_last() =~= s.take(j - 1));
    }
}

proof fn lemma_positional_push(s: Seq<char>, c: char)
    ensures
        positional_value(s.push(c)) == positional_value(s) * 10 + digit_value(c),
    decreases s.len(),
{
    if s.len() == 0 {
        assert(s.push(c).drop_first() =~= Seq::<char>::empty());
        assert(s.push(c)[0] == c);
        assert(pow10(0) == 1);
        assert(positional_value(s.push(c).drop_first()) == 0);
        assert(positional_value(s) == 0);
        assert(positional_value(s.push(c)) == digit_value(c) * 1 + 0);
    } else {
        assert(s.push(c).drop_first() =~= s.drop_first().push(c));
        lemma_positional_push(s.drop_first(), c);
        let d = digit_value(s[0]);
        let p = pow10((s.len() - 1) as nat);
        assert(pow10(s.len() as nat) == 10 * p);
        assert(d * (10 * p) == (d * p) * 10) by (nonlinear_arith);
        assert(s.push(c)[0] == s[0]);
        assert(positional_value(s.push(c)) == d * pow10(s.len() as nat) + positional_value(
            s.drop_first().push(c),
        ));
        assert(positional_value(s) == d * p + positional_value(s.drop_first()));
        let a = positional_value(s.push(c));
        let b = positional_value(s);
        let x = positional_value(s.drop_first());
        let e = digit_value(c);
        assert(a == d * (10 * p) + (x * 10 + e));
        assert(b == d * p + x);
        assert(a == b * 10 + e) by (nonlinear_arith)
            requires
                a == d * (10 * p) + (x * 10 + e),
                b == d * p + x,
        ;
    }
}

/// The positional value of a digit string is the value read most significant
/// digit first.
pub proof fn lemma_positional_value(s: Seq<char>)
    ensures
        digits_value(s) == positional_value(s),
    decreases s.len(),
{
    if s.len() > 0 {
        lemma_positional_value(s.drop_last());
        lemma_positional_push(s.drop_last(), s.last());
        assert(s.drop_last().push(s.last()) =~= s);
    }
}

/// Typing the digits `ds` one by one into an empty buffer leaves exactly `ds`
/// in it, and the buffer then reads as the number whose decimal digits are
/// `ds` in order (each digit times ten to the power of the digits after it),
/// where that number fits in a `usize`. An emptied buffer does not read as a
/// number.
pub proof fn lemma_digit_pushes_read_back(ds: Seq<char>)
    requires
        ds.len() > 0,
        all_digits(ds),
    ensures
        after_pushes(Seq::<char>::empty(), ds) == ds,
        positional_value(ds) <= usize::MAX ==> number_of(after_pushes(Seq::<char>::empty(), ds))
            == Ok::<usize, ParseError>(positional_value(ds) as usize),
        number_of(Seq::<char>::empty()) == Err::<usize, ParseError>(ParseError::Empty),
{
    lemma_pushes_keep_digits(ds);
    lemma_positional_value(ds);
}

proof fn lemma_pushes_keep_digits(ds: Seq<char>)
    requires
        all_digits(ds),
    ensures
        after_pushes(Seq::<char>::empty(), ds) == ds,
    decreases ds.len(),
{
    if ds.len() > 0 {
        assert(all_digits(ds.drop_last()));
        lemma_pushes_keep_digits(ds.drop_last());
        assert(is_digit(ds[ds.len() - 1]));
        assert(ds.drop_last().push(ds.last()) =~= ds);
    }
}

impl RawCommand {
    /// An empty buffer.
    pub fn new() -> (r: RawCommand)
        ensures
            r@ == Seq::<char>::empty(),
    {
        RawCommand { text: Vec::new() }
    }

    /// Appends `c` when it is a decimal digit; any other character is ignored.
    pub fn push_digit(&mut self, c: char)
        ensures
            final(self)@ == after_push(old(self)@, c),
    {
        if '0' <= c && c <= '9' {
            self.text.push(c);
        }
    }

    /// Empties the buffer.
    pub fn clear(&mut self)
        ensures
            final(self)@ == Seq::<char>::empty(),
    {
        self.text.clear();
    }

    /// Whether nothing has been typed.
    pub fn is_empty(&self) -> (r: bool)
        ensures
            r == (self@.len() == 0),
    {
        self.text.len() == 0
    }

    /// Reads the buffer as a decimal number.
    pub fn as_number(&self) -> (r: Result<usize, ParseError>)
        ensures
            r == number_of(self@),
    {
        let n = self.text.len();
        if n == 0 {
            return Err(ParseError::Empty);
        }
        let mut i: usize = 0;
        while i < n
            invariant
                n == self@.len(),
                0 <= i <= n,
                forall|k: int| 0 <= k < i ==> #[trigger] is_digit(self@[k]),
            decreases n - i,
        {
            let c = self.text[i];
            if !('0' <= c && c <= '9') {
                assert(!is_digit(self@[i as int]));
                return Err(ParseError::InvalidDigit);
            }
            i = i + 1;
        }
        let ghost s = self@;
        let mut value: usize = 0;
        let mut j: usize = 0;
        while j < n
            invariant
                s == self@,
                n == s.len(),
                all_digits(s),
                0 <= j <= n,
                value == digits_value(s.take(j as int)),
            decreases n - j,
        {
            let c = self.text[j];
            assert(is_digit(s[j as int]));
            let d = (c as u32 - '0' as u32) as usize;
            proof {
                assert(s.take(j + 1).drop_last() =~= s.take(j as int));
                assert(s.take(j + 1).last() == c);
                lemma_digits_value_monotone(s, j + 1, n as int);
                assert(s.take(n as int) =~= s);
            }
            match value.checked_mul(10) {
                Some(m) => match m.checked_add(d) {
                    Some(v) => {
                        value = v;
                    },
                    None => {
                        return Err(ParseError::Overflow);
                    },
                },
                None => {
                    return Err(ParseError::Overflow);
                },
            }
            j = j + 1;
        }
        assert(s.take(n as int) =~= s);
        Ok(value)
    }
}

} // verus!
