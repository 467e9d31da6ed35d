//! Text helpers: decimal rendering of integers and the std calls on strings and paths.
use vstd::prelude::*;

verus! {

/// The character of a decimal digit.
pub open spec fn digit_char(d: nat) -> char {
    (48 + d) as char
}

/// Decimal digits of a natural number, most significant first, without leading zeros.
pub open spec fn decimal_digits(n: nat) -> Seq<char>
    decreases n,
{
    if n < 10 {
        seq![digit_char(n)]
    } else {
        decimal_digits(n / 10).push(digit_char(n % 10))
    }
}

/// The text of an integer as Rust's `Display` writes it: a `-` for negative values, then the digits.
pub open spec fn decimal_text(v: int) -> Seq<char> {
    if v < 0 {
        seq!['-'] + decimal_digits((-v) as nat)
    } else {
        decimal_digits(v as nat)
    }
}

/// The number that a text of decimal digits stands for, most significant digit first.
pub open spec fn digits_value(s: Seq<char>) -> int
    decreases s.len(),
{
    if s.len() == 0 {
        0
    } else {
        digits_value(s.drop_last()) * 10 + (s.last() as int - 48)
    }
}

/// The decimal text of a natural number is a non-empty run of the characters `0`-`9`, with no
/// leading zero unless the number is 0, and it reads back as the number.
pub proof fn lemma_decimal_digits_read_back(n: nat)
    ensures
        decimal_digits(n).len() >= 1,
        forall|i: int|
            0 <= i < decimal_digits(n).len() ==> '0' <= #[trigger] decimal_digits(n)[i] <= '9',
        decimal_digits(n)[0] == '0' ==> n == 0,
        digits_value(decimal_digits(n)) == n,
    decreases n,
{
    let c = digit_char(n % 10);
    assert(c as int == 48 + n % 10);
    if n >= 10 {
        lemma_decimal_digits_read_back(n / 10);
        let d = decimal_digits(n / 10);
        assert(decimal_digits(n).drop_last() =~= d);
        assert(decimal_digits(n).last() == c);
        assert(decimal_digits(n)[0] == d[0]);
        assert(digits_value(decimal_digits(n)) == digits_value(d) * 10 + (c as int - 48));
        assert(digits_value(d) == n / 10);
        assert((n / 10) * 10 + n % 10 == n);
    } else {
        assert(decimal_digits(n).drop_last() =~= Seq::<char>::empty());
        assert(digits_value(decimal_digits(n)) == digits_value(Seq::<char>::empty()) * 10 + (c as int
            - 48));
    }
}

/// The text of a negative integer is `-` and the digits of its magnitude; that of any other
/// integer is its digits alone.
pub proof fn lemma_decimal_text_sign(v: int)
    ensures
        v < 0 ==> decimal_text(v)[0] == '-' && decimal_text(v).skip(1) == decimal_digits(
            (-v) as nat,
        ),
        v >= 0 ==> decimal_text(v) == decimal_digits(v as nat) && decimal_text(v)[0] != '-',
{
    lemma_decimal_digits_read_back(if v < 0 { (-v) as nat } else { v as nat });
    if v < 0 {
        assert(decimal_text(v).skip(1) =~= decimal_digits((-v) as nat));
    }
}

/// Appends a character to a string (`String::push`).
#[verifier::external_body]
pub(crate) fn push_char(s: &mut String, c: char)
    ensures
        final(s)@ == old(s)@.push(c),
{
    s.push(c);
}

fn digit(d: u64) -> (c: char)
    requires
        d < 10,
    ensures
        c == digit_char(d as nat),
{
    let b: u8 = 48u8 + (d as u8);
    b as char
}

fn push_digits(out: &mut String, n: u64)
    ensures
        final(out)@ == old(out)@ + decimal_digits(n as nat),
    decreases n,
{
    if n >= 10 {
        push_digits(out, n / 10);
    }
    let c = digit(n % 10);
    push_char(out, c);
    proof {
        let before = if n >= 10 {
            old(out)@ + decimal_digits((n / 10) as nat)
        } else {
            old(out)@
        };
        assert(old(out)@ + decimal_digits(n as nat) =~= before.push(c));
    }
}

/// Appends the decimal text of `v` to `out`.
pub fn push_decimal(out: &mut String, v: i64)
    ensures
        final(out)@ == old(out)@ + decimal_text(v as int),
{
    if v < 0 {
        push_char(out, '-');
        let m: u64 = (0i128 - (v as i128)) as u64;
        push_digits(out, m);
        assert(out@ =~= old(out)@ + decimal_text(v as int));
    } else {
        push_digits(out, v as u64);
    }
}


/// The path that `std::path::Path::join` makes of a base path and a further component, as text.
pub uninterp spec fn joined_path(base: Seq<char>, component: Seq<char>) -> Seq<char>;

/// Calls `std::path::Path::join` on two paths given as text and returns the joined path as text.
/// Claimed: the result is the named function of the two arguments. Left unsaid: how the separator
/// is placed and that an absolute component replaces the base; those follow the platform's path
/// rules, which differ between Unix and Windows.
#[verifier::external_body]
pub(crate) fn join_path(base: &str, component: &str) -> (joined: String)
    ensures
        joined@ == joined_path(base@, component@),
{
    std::path::Path::new(base).join(component).to_string_lossy().into_owned()
}

/// The parent that `std::path::Path::parent` finds in a path given as text, if any.
pub uninterp spec fn parent_path(path: Seq<char>) -> Option<Seq<char>>;

/// Calls `std::path::Path::parent`. Claimed: the result is the named function of the path, and the
/// empty path has no parent (as std documents). Left unsaid: which non-empty paths end in a root or
/// prefix, which follows the platform's path rules.
#[verifier::external_body]
pub(crate) fn parent_of(path: &str) -> (parent: Option<String>)
    ensures
        match parent {
            Some(p) => parent_path(path@) == Some(p@),
            None => parent_path(path@) == None::<Seq<char>>,
        },
        path@.len() == 0 ==> parent is None,
{
    match std::path::Path::new(path).parent() {
        Some(p) => Some(p.to_string_lossy().into_owned()),
        None => None,
    }
}

/// The text that `str::to_lowercase` makes of a string (Unicode lower case).
pub uninterp spec fn lowercase(s: Seq<char>) -> Seq<char>;

/// Calls `str::to_lowercase`. Claimed: the result is the named function of the input.
#[verifier::external_body]
pub(crate) fn to_lowercase(s: &str) -> (lower: String)
    ensures
        lower@ == lowercase(s@),
{
    s.to_lowercase()
}

} // verus!
