use vstd::prelude::*;

verus! {

/// Why a declared body length could not be read.
#[derive(Clone, Copy, Debug, PartialEq, Eq, Structural)]
pub enum LengthError {
    /// The header holds a byte that is neither visible ASCII nor a tab.
    NotText,
    /// The header is empty.
    Empty,
    /// The header holds a character that is not a decimal digit.
    InvalidDigit,
    /// The number does not fit in 64 bits.
    Overflow,
}

/// A byte that a header value may hold to be read as text.
pub open spec fn is_visible_ascii(b: u8) -> bool {
    (32 <= b && b < 127) || b == 9
}

pub open spec fn is_digit(b: u8) -> bool {
    48 <= b <= 57
}

/// The number that a run of decimal digits writes.
pub open spec fn digits_value(d: Seq<u8>) -> nat
    decreases d.len(),
{
    if d.len() == 0 {
        0
    } else {
        digits_value(d.drop_last()) * 10 + (d.last() - 48) as nat
    }
}

/// The digits of `s`: what follows an optional leading `+`.
pub open spec fn unsigned_part(s: Seq<u8>) -> Seq<u8> {
    if s.len() > 0 && s[0] == 43 {
        s.drop_first()
    } else {
        s
    }
}

/// `k` is the length of the run of digits that `d` starts with.
pub open spec fn is_digit_run(d: Seq<u8>, k: int) -> bool {
    &&& 0 <= k <= d.len()
    &&& forall|j: int| 0 <= j < k ==> is_digit(#[trigger] d[j])
    &&& (k == d.len() || !is_digit(d[k]))
}

/// The length of the run of digits that `d` starts with.
pub open spec fn digit_run(d: Seq<u8>) -> int {
    choose|k: int| is_digit_run(d, k)
}

/// Reading of a declared body length: the header must be text, an optional `+`
/// and decimal digits, read left to right, whose number fits in 64 bits.
pub open spec fn length_spec(s: Seq<u8>) -> Result<u64, LengthError> {
    let d = unsigned_part(s);
    if exists|i: int| 0 <= i < s.len() && !is_visible_ascii(#[trigger] s[i]) {
        Err(LengthError::NotText)
    } else if s.len() == 0 {
        Err(LengthError::Empty)
    } else if d.len() == 0 {
        Err(LengthError::InvalidDigit)
    } else if digits_value(d.take(digit_run(d))) > u64::MAX {
        Err(LengthError::Overflow)
    } else if digit_run(d) < d.len() {
        Err(LengthError::InvalidDigit)
    } else {
        Ok(digits_value(d) as u64)
    }
}

proof fn lemma_digits_step(d: Seq<u8>, i: int)
    requires
        0 <= i < d.len(),
    ensures
        digits_value(d.take(i + 1)) == digits_value(d.take(i)) * 10 + (d[i] - 48) as nat,
{
    assert(d.take(i + 1).drop_last() =~= d.take(i));
}

proof fn lemma_digits_monotone(d: Seq<u8>, i: int, k: int)
    requires
        0 <= i <= k <= d.len(),
        forall|j: int| 0 <= j < k ==> is_digit(#[trigger] d[j]),
    ensures
        digits_value(d.take(i)) <= digits_value(d.take(k)),
    decreases k - i,
{
    if i < k {
        lemma_digits_step(d, i);
        lemma_digits_monotone(d, i + 1, k);
    }
}

proof fn lemma_digit_run_from(d: Seq<u8>, i: int)
    requires
        0 <= i <= d.len(),
        forall|j: int| 0 <= j < i ==> is_digit(#[trigger] d[j]),
    ensures
        is_digit_run(d, digit_run(d)),
        i <= digit_run(d),
    decreases d.len() - i,
{
    if i == d.len() || !is_digit(d[i]) {
        assert(is_digit_run(d, i));
        let k = digit_run(d);
        if k < i {
            assert(is_digit(d[k]));
        }
    } else {
        lemma_digit_run_from(d, i + 1);
    }
}

proof fn lemma_overflow_run(d: Seq<u8>, i: int)
    requires
        0 <= i <= d.len(),
        forall|j: int| 0 <= j < i ==> is_digit(#[trigger] d[j]),
        digits_value(d.take(i)) > u64::MAX,
    ensures
        digits_value(d.take(digit_run(d))) > u64::MAX,
{
    lemma_digit_run_from(d, i);
    lemma_digits_monotone(d, i, digit_run(d));
}

impl LengthError {
    /// The message that explains this failure.
    pub open spec fn spec_message(self) -> Seq<char> {
        match self {
            LengthError::NotText => "failed to convert header to a str"@,
            LengthError::Empty => "cannot parse integer from empty string"@,
            LengthError::InvalidDigit => "invalid digit found in string"@,
            LengthError::Overflow => "number too large to fit in target type"@,
        }
    }

    /// The message that explains this failure.
    pub fn message(&self) -> (r: &'static str)
        ensures
            r@ == self.spec_message(),
    {
        match self {
            LengthError::NotText => "failed to convert header to a str",
            LengthError::Empty => "cannot parse integer from empty string",
            LengthError::InvalidDigit => "invalid digit found in string",
            LengthError::Overflow => "number too large to fit in target type",
        }
    }
}

/// Reads the value of a declared body length header.
pub fn parse_length(s: &[u8]) -> (r: Result<u64, LengthError>)
    ensures
        r == length_spec(s@),
{
    let n = s.len();
    let mut i: usize = 0;
    while i < n
        invariant
            n == s@.len(),
            i <= n,
            forall|j: int| 0 <= j < i ==> is_visible_ascii(#[trigger] s@[j]),
        decreases n - i,
    {
        let b = s[i];
        if !((32 <= b && b < 127) || b == 9) {
            assert(!is_visible_ascii(s@[i as int]));
            return Err(LengthError::NotText);
        }
        i = i + 1;
    }
    if n == 0 {
        return Err(LengthError::Empty);
    }
    let start: usize = if s[0] == 43 { 1 } else { 0 };
    let ghost d = unsigned_part(s@);
    assert(d =~= s@.subrange(start as int, n as int));
    if start == n {
        return Err(LengthError::InvalidDigit);
    }
    let mut acc: u64 = 0;
    let mut k: usize = start;
    while k < n && 48 <= s[k] && s[k] <= 57
        invariant
            start < n,
            start <= k <= n,
            n == s@.len(),
            forall|j: int| 0 <= j < n ==> is_visible_ascii(#[trigger] s@[j]),
            d =~= s@.subrange(start as int, n as int),
            d == unsigned_part(s@),
            forall|j: int| 0 <= j < k - start ==> is_digit(#[trigger] d[j]),
            acc as nat == digits_value(d.take(k - start)),
        decreases n - k,
    {
        let digit = (s[k] - 48) as u64;
        proof {
            lemma_digits_step(d, k - start);
        }
        match acc.checked_mul(10) {
            Some(m) => match m.checked_add(digit) {
                Some(v) => {
                    acc = v;
                },
                None => {
                    proof {
                        lemma_overflow_run(d, k - start + 1);
                    }
                    return Err(LengthError::Overflow);
                },
            },
            None => {
                proof {
                    lemma_overflow_run(d, k - start + 1);
                }
                return Err(LengthError::Overflow);
            },
        }
        k = k + 1;
    }
    assert(is_digit_run(d, k - start));
    assert(digit_run(d) == k - start);
    if k < n {
        Err(LengthError::InvalidDigit)
    } else {
        assert(d.take(k - start) =~= d);
        Ok(acc)
    }
}

} // verus!
