//! The random-number page: one integer drawn from a half-open range and
//! shown in a fragment of HTML.

use rand::Rng;
use vstd::prelude::*;
use vstd::string::StringExecFns;
use crate::status::Status;

verus! {

/// Calls `rand::thread_rng` and `rand::Rng::gen_range` on `start..end`.
///
/// Trusted: for a range of integers that is not empty, `gen_range` returns
/// a value inside it. It panics on an empty range, which `requires` leaves
/// out. Nothing is claimed of which value comes, and two calls may differ.
/// `thread_rng` panics if the generator cannot be seeded from the operating
/// system.
#[verifier::external_body]
fn draw_in_range(start: u64, end: u64) -> (n: u64)
    requires
        start < end,
    ensures
        start <= n < end,
{
    rand::thread_rng().gen_range(start..end)
}

/// One integer drawn from `[start, end)`, or `None` where the range is
/// empty and nothing can be drawn.
pub fn random_in_range(start: u64, end: u64) -> (r: Option<u64>)
    ensures
        r is Some <==> start < end,
        r matches Some(n) ==> start <= n < end,
{
    if start < end {
        Some(draw_in_range(start, end))
    } else {
        None
    }
}

/// The character of a decimal digit.
pub open spec fn digit(d: nat) -> char
    recommends
        d < 10,
{
    (('0' as nat) + d) as char
}

/// The decimal numeral of `n`: most significant digit first, no leading
/// zero but for 0 itself.
pub open spec fn decimal(n: nat) -> Seq<char>
    decreases n,
{
    if n < 10 {
        seq![digit(n)]
    } else {
        decimal(n / 10).push(digit(n % 10))
    }
}

/// The numeral of one digit.
fn digit_str(d: u64) -> (s: &'static str)
    requires
        d < 10,
    ensures
        s@ == seq![digit(d as nat)],
{
    proof {
        reveal_strlit("0");
        reveal_strlit("1");
        reveal_strlit("2");
        reveal_strlit("3");
        reveal_strlit("4");
        reveal_strlit("5");
        reveal_strlit("6");
        reveal_strlit("7");
        reveal_strlit("8");
        reveal_strlit("9");
    }
    let s = if d == 0 {
        "0"
    } else if d == 1 {
        "1"
    } else if d == 2 {
        "2"
    } else if d == 3 {
        "3"
    } else if d == 4 {
        "4"
    } else if d == 5 {
        "5"
    } else if d == 6 {
        "6"
    } else if d == 7 {
        "7"
    } else if d == 8 {
        "8"
    } else {
        "9"
    };
    assert(s@ =~= seq![digit(d as nat)]);
    s
}

/// Appends the decimal numeral of `n` to `out`.
pub fn push_decimal(out: &mut String, n: u64)
    ensures
        final(out)@ == old(out)@ + decimal(n as nat),
    decreases n,
{
    if n >= 10 {
        push_decimal(out, n / 10);
    }
    out.append(digit_str(n % 10));
    assert(out@ =~= old(out)@ + decimal(n as nat));
}

/// The decimal numeral of `n`.
pub fn to_decimal(n: u64) -> (s: String)
    ensures
        s@ == decimal(n as nat),
{
    let mut s = String::new();
    push_decimal(&mut s, n);
    assert(s@ =~= decimal(n as nat));
    s
}

/// The fragment that shows `n`.
pub open spec fn fragment(n: nat) -> Seq<char> {
    "<h1>Random Number: "@ + decimal(n) + "</h1>"@
}

/// Renders the fragment that shows `n`.
pub fn random_fragment(n: u64) -> (page: String)
    ensures
        page@ == fragment(n as nat),
{
    let mut page = String::from_str("<h1>Random Number: ");
    push_decimal(&mut page, n);
    page.append("</h1>");
    page
}

/// The random-number page for the query `start`, `end`: a fragment that
/// shows one integer of `[start, end)`. An empty range has no valid draw
/// and is answered with `InternalServerError`.
pub fn random_page(start: u64, end: u64) -> (r: Result<String, Status>)
    ensures
        r is Ok <==> start < end,
        r matches Ok(page) ==> exists|n: u64| start <= n < end && page@ == fragment(n as nat),
        r matches Err(status) ==> status == Status::InternalServerError,
        end == start + 1 ==> (r matches Ok(page) && page@ == fragment(start as nat)),
{
    match random_in_range(start, end) {
        Some(n) => Ok(random_fragment(n)),
        None => Err(Status::InternalServerError),
    }
}

} // verus!
