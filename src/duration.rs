use vstd::prelude::*;

verus! {

/// What `Duration::as_nanos` returns for `d`: the whole duration in
/// nanoseconds.
pub uninterp spec fn duration_nanos(d: std::time::Duration) -> u128;

/// Relies on `Duration::as_nanos`: the whole duration in nanoseconds.
#[verifier::external_body]
fn as_nanos(d: &std::time::Duration) -> (r: u128)
    ensures
        r == duration_nanos(*d),
{
    d.as_nanos()
}

/// The decimal digit for `d`.
pub open spec fn digit_char(d: nat) -> char {
    if d == 0 {
        '0'
    } else if d == 1 {
        '1'
    } else if d == 2 {
        '2'
    } else if d == 3 {
        '3'
    } else if d == 4 {
        '4'
    } else if d == 5 {
        '5'
    } else if d == 6 {
        '6'
    } else if d == 7 {
        '7'
    } else if d == 8 {
        '8'
    } else {
        '9'
    }
}

/// `n` written in decimal, without leading zeros.
pub open spec fn decimal(n: nat) -> Seq<char>
    decreases n,
{
    if n < 10 {
        seq![digit_char(n)]
    } else {
        decimal(n / 10).push(digit_char(n % 10))
    }
}

/// A duration of `n` nanoseconds in its largest unit that divides it: ns,
/// us, ms, s, m, h or d.
pub open spec fn duration_text(n: nat) -> Seq<char> {
    if n % 1000 != 0 {
        decimal(n) + "ns"@
    } else if (n / 1000) % 1000 != 0 {
        decimal(n / 1000) + "us"@
    } else if (n / 1_000_000) % 1000 != 0 {
        decimal(n / 1_000_000) + "ms"@
    } else if (n / 1_000_000_000) % 60 != 0 {
        decimal(n / 1_000_000_000) + "s"@
    } else if (n / 1_000_000_000) % 3600 != 0 {
        decimal(n / 1_000_000_000 / 60) + "m"@
    } else if (n / 1_000_000_000) % 86400 != 0 {
        decimal(n / 1_000_000_000 / 3600) + "h"@
    } else {
        decimal(n / 1_000_000_000 / 86400) + "d"@
    }
}

fn digit_str(d: u128) -> (r: &'static str)
    requires
        d < 10,
    ensures
        r@ == seq![digit_char(d as nat)],
{
    if d == 0 {
        proof { reveal_strlit("0"); }
        assert("0"@ =~= seq!['0']);
        "0"
    } else if d == 1 {
        proof { reveal_strlit("1"); }
        assert("1"@ =~= seq!['1']);
        "1"
    } else if d == 2 {
        proof { reveal_strlit("2"); }
        assert("2"@ =~= seq!['2']);
        "2"
    } else if d == 3 {
        proof { reveal_strlit("3"); }
        assert("3"@ =~= seq!['3']);
        "3"
    } else if d == 4 {
        proof { reveal_strlit("4"); }
        assert("4"@ =~= seq!['4']);
        "4"
    } else if d == 5 {
        proof { reveal_strlit("5"); }
        assert("5"@ =~= seq!['5']);
        "5"
    } else if d == 6 {
        proof { reveal_strlit("6"); }
        assert("6"@ =~= seq!['6']);
        "6"
    } else if d == 7 {
        proof { reveal_strlit("7"); }
        assert("7"@ =~= seq!['7']);
        "7"
    } else if d == 8 {
        proof { reveal_strlit("8"); }
        assert("8"@ =~= seq!['8']);
        "8"
    } else {
        proof { reveal_strlit("9"); }
        assert("9"@ =~= seq!['9']);
        "9"
    }
}

/// `n` written in decimal.
pub fn decimal_string(n: u128) -> (r: String)
    ensures
        r@ == decimal(n as nat),
    decreases n,
{
    if n < 10 {
        String::from_str(digit_str(n))
    } else {
        let mut s = decimal_string(n / 10);
        s.append(digit_str(n % 10));
        assert(s@ =~= decimal((n / 10) as nat).push(digit_char((n % 10) as nat)));
        s
    }
}

/// A duration of `n` nanoseconds written in its largest unit that divides it.
pub fn nanos_to_string(n: u128) -> (r: String)
    ensures
        r@ == duration_text(n as nat),
{
    let unit;
    let value;
    if n % 1000 != 0 {
        value = n;
        unit = "ns";
    } else if (n / 1000) % 1000 != 0 {
        value = n / 1000;
        unit = "us";
    } else if (n / 1_000_000) % 1000 != 0 {
        value = n / 1_000_000;
        unit = "ms";
    } else if (n / 1_000_000_000) % 60 != 0 {
        value = n / 1_000_000_000;
        unit = "s";
    } else if (n / 1_000_000_000) % 3600 != 0 {
        value = n / 1_000_000_000 / 60;
        unit = "m";
    } else if (n / 1_000_000_000) % 86400 != 0 {
        value = n / 1_000_000_000 / 3600;
        unit = "h";
    } else {
        value = n / 1_000_000_000 / 86400;
        unit = "d";
    }
    let s = decimal_string(value);
    s.concat(unit)
}

/// A duration written in its largest unit that divides it, as in `90s`,
/// `2h` or `1001ns`.
pub fn dur_to_string(d: std::time::Duration) -> (r: String)
    ensures
        r@ == duration_text(duration_nanos(d) as nat),
{
    nanos_to_string(as_nanos(&d))
}

} // verus!
