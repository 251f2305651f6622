//! The number guessing game: a secret between 1 and 100 is drawn, and each
//! line the player enters is judged against it until it is found.
use rand::Rng;
use vstd::prelude::*;

verus! {

/// The smallest secret the game draws.
pub const LOWEST: u32 = 1;

/// One past the largest secret the game draws.
pub const BEYOND_HIGHEST: u32 = 101;

/// Relies on `rand::thread_rng` and `rand::Rng::gen_range`: a value drawn
/// from the half-open range `low..high`, which must not be empty.
#[verifier::external_body]
fn random_in_range(low: u32, high: u32) -> (r: u32)
    requires
        low < high,
    ensures
        low <= r < high,
{
    rand::thread_rng().gen_range(low..high)
}

/// What `str::trim` returns: the text without leading and trailing white
/// space.
pub uninterp spec fn trimmed(s: Seq<char>) -> Seq<char>;

/// Relies on `str::trim`, which removes leading and trailing white space.
#[verifier::external_body]
fn trim(s: &str) -> (r: &str)
    ensures
        r@ == trimmed(s@),
{
    s.trim()
}

/// Whether `c` is one of the ASCII digits `0` to `9`.
pub open spec fn is_digit(c: char) -> bool {
    '0' <= c && c <= '9'
}

/// The value of a decimal digit.
pub open spec fn digit_value(c: char) -> nat {
    if is_digit(c) {
        (c as u32 - '0' as u32) as nat
    } else {
        0
    }
}

/// The number that a sequence of decimal digits writes, most significant
/// first.
pub open spec fn digits_value(d: Seq<char>) -> nat
    decreases d.len(),
{
    if d.len() == 0 {
        0
    } else {
        digits_value(d.drop_last()) * 10 + digit_value(d.last())
    }
}

/// The digits of a number written with an optional leading `+`.
pub open spec fn unsigned_digits(s: Seq<char>) -> Seq<char> {
    if s.len() > 0 && s[0] == '+' {
        s.drop_first()
    } else {
        s
    }
}

/// The `u32` that `s` writes in decimal, with an optional leading `+` and at
/// least one digit; `None` for any other text and for a number above
/// `u32::MAX`.
pub open spec fn decimal_u32(s: Seq<char>) -> Option<u32> {
    let d = unsigned_digits(s);
    if d.len() > 0 && (forall|i: int| 0 <= i < d.len() ==> is_digit(#[trigger] d[i]))
        && digits_value(d) <= u32::MAX {
        Some(digits_value(d) as u32)
    } else {
        None
    }
}

proof fn lemma_digits_value_grows(d: Seq<char>, i: int)
    requires
        0 <= i <= d.len(),
        forall|j: int| 0 <= j < d.len() ==> is_digit(#[trigger] d[j]),
    ensures
        digits_value(d.take(i)) <= digits_value(d),
    decreases d.len() - i,
{
    if i < d.len() {
        lemma_digits_value_grows(d, i + 1);
        assert(d.take(i + 1).drop_last() =~= d.take(i));
    } else {
        assert(d.take(i) =~= d);
    }
}

/// Reads a `u32` written in decimal, with an optional leading `+`.
pub fn parse_u32(s: &str) -> (r: Option<u32>)
    ensures
        r == decimal_u32(s@),
{
    let n = s.unicode_len();
    let mut i: usize = 0;
    if n > 0 && s.get_char(0) == '+' {
        i = 1;
    }
    let start = i;
    let ghost d = unsigned_digits(s@);
    assert(d =~= s@.skip(start as int));
    if start == n {
        return None;
    }
    let mut value: u64 = 0;
    while i < n
        invariant
            start <= i <= n,
            n == s@.len(),
            d =~= s@.skip(start as int),
            d == unsigned_digits(s@),
            forall|j: int| 0 <= j < i - start ==> is_digit(#[trigger] d[j]),
            value == digits_value(d.take(i - start)),
            value <= u32::MAX,
        decreases n - i,
    {
        let c = s.get_char(i);
        assert(d[i - start] == c);
        if c < '0' || c > '9' {
            assert(!is_digit(d[i - start]));
            return None;
        }
        let digit = (c as u32 - '0' as u32) as u64;
        let ghost next = d.take(i + 1 - start);
        assert(next.drop_last() =~= d.take(i - start));
        assert(next.last() == c);
        assert(digits_value(next) == value * 10 + digit);
        value = value * 10 + digit;
        i = i + 1;
        if value > u32::MAX as u64 {
            proof {
                lemma_digits_value_grows_prefix(d, i - start);
            }
            return None;
        }
    }
    assert(d.take(n - start) =~= d);
    Some(value as u32)
}

/// Where the digits so far already exceed `u32::MAX`, so does the whole
/// number, or the text is no number at all.
proof fn lemma_digits_value_grows_prefix(d: Seq<char>, i: int)
    requires
        0 <= i <= d.len(),
    ensures
        (forall|j: int| 0 <= j < d.len() ==> is_digit(#[trigger] d[j])) ==> digits_value(
            d.take(i),
        ) <= digits_value(d),
{
    if forall|j: int| 0 <= j < d.len() ==> is_digit(#[trigger] d[j]) {
        lemma_digits_value_grows(d, i);
    }
}

/// How a line that the player entered compares with the secret.
#[derive(PartialEq, Eq, Structural, Clone, Copy, Debug)]
pub enum Turn {
    /// The line is not a number; the player tries again.
    NotANumber,
    TooSmall,
    TooBig,
    Win,
}

/// How a guess, already read as a number or found not to be one, compares
/// with `secret`.
pub open spec fn turn_for(guess: Option<u32>, secret: u32) -> Turn {
    match guess {
        None => Turn::NotANumber,
        Some(g) => if g < secret {
            Turn::TooSmall
        } else if g > secret {
            Turn::TooBig
        } else {
            Turn::Win
        },
    }
}

/// A round of the game: the secret the player looks for.
pub struct Game {
    secret: u32,
}

impl Game {
    /// The secret of this round.
    pub closed spec fn spec_secret(&self) -> u32 {
        self.secret
    }

    /// A round with a secret drawn at random between 1 and 100.
    pub fn start() -> (r: Game)
        ensures
            LOWEST <= r.spec_secret() < BEYOND_HIGHEST,
    {
        Game { secret: random_in_range(LOWEST, BEYOND_HIGHEST) }
    }

    /// A round with the given secret.
    pub fn with_secret(secret: u32) -> (r: Game)
        ensures
            r.spec_secret() == secret,
    {
        Game { secret }
    }

    /// The secret of this round.
    pub fn secret(&self) -> (r: u32)
        ensures
            r == self.spec_secret(),
    {
        self.secret
    }

    /// Judges a guess that was already read as a number, or found not to be
    /// one.
    pub fn judge(&self, guess: Option<u32>) -> (r: Turn)
        ensures
            r == turn_for(guess, self.spec_secret()),
    {
        match guess {
            None => Turn::NotANumber,
            Some(g) => {
                if g < self.secret {
                    Turn::TooSmall
                } else if g > self.secret {
                    Turn::TooBig
                } else {
                    Turn::Win
                }
            },
        }
    }

    /// Judges a line that the player entered: white space around the number
    /// is ignored.
    pub fn play(&self, line: &str) -> (r: Turn)
        ensures
            r == turn_for(decimal_u32(trimmed(line@)), self.spec_secret()),
    {
        self.judge(parse_u32(trim(line)))
    }
}

} // verus!
