use vstd::prelude::*;

use crate::text::{decimal, push_all, push_decimal};

verus! {

/// `n` in decimal, left-padded with zeros to `width` digits.
pub open spec fn padded(n: nat, width: nat) -> Seq<char> {
    if decimal(n).len() >= width {
        decimal(n)
    } else {
        Seq::new((width - decimal(n).len()) as nat, |i: int| '0') + decimal(n)
    }
}

proof fn lemma_decimal_len(n: nat)
    ensures
        decimal(n).len() >= 1,
        n < 10 ==> decimal(n).len() == 1,
        10 <= n < 100 ==> decimal(n).len() == 2,
    decreases n,
{
    if n >= 10 {
        lemma_decimal_len(n / 10);
    }
}

/// Appends `n` zero-padded to `width` digits.
pub fn push_padded(s: &mut String, n: u64, width: u64)
    requires
        width <= 40,
    ensures
        final(s)@ == old(s)@ + padded(n as nat, width as nat),
{
    let mut digits = String::new();
    push_decimal(&mut digits, n);
    let len = crate::text::chars_of(digits.as_str()).len() as u64;
    proof {
        lemma_decimal_len(n as nat);
    }
    if len < width {
        let mut k: u64 = 0;
        while k < width - len
            invariant
                k <= width - len,
                len == decimal(n as nat).len(),
                len < width,
                s@ == old(s)@ + Seq::new(k as nat, |i: int| '0'),
            decreases width - len - k,
        {
            s.push('0');
            assert(s@ =~= old(s)@ + Seq::new((k + 1) as nat, |i: int| '0'));
            k = k + 1;
        }
    }
    push_all(s, digits.as_str());
    assert(s@ =~= old(s)@ + padded(n as nat, width as nat));
}

/// A date-time value: `YYYY-MM-DD HH:MM:SS.ffffff`.
pub open spec fn date_text(year: nat, month: nat, day: nat, hour: nat, minute: nat, second: nat, micros: nat) -> Seq<char> {
    padded(year, 4) + "-"@ + padded(month, 2) + "-"@ + padded(day, 2) + " "@ + padded(hour, 2) + ":"@
        + padded(minute, 2) + ":"@ + padded(second, 2) + "."@ + padded(micros, 6)
}

/// A time value: `[-]DDD HH:MM:SS.ffffff`.
pub open spec fn time_text(negative: bool, days: nat, hours: nat, minutes: nat, seconds: nat, micros: nat) -> Seq<char> {
    (if negative {
        "-"@
    } else {
        seq![]
    }) + padded(days, 3) + " "@ + padded(hours, 2) + ":"@ + padded(minutes, 2) + ":"@ + padded(
        seconds,
        2,
    ) + "."@ + padded(micros, 6)
}

/// Renders a date-time column value.
pub fn format_date_value(year: u16, month: u8, day: u8, hour: u8, minute: u8, second: u8, micros: u32) -> (r: String)
    ensures
        r@ == date_text(year as nat, month as nat, day as nat, hour as nat, minute as nat, second as nat, micros as nat),
{
    let mut s = String::new();
    push_padded(&mut s, year as u64, 4);
    push_all(&mut s, "-");
    push_padded(&mut s, month as u64, 2);
    push_all(&mut s, "-");
    push_padded(&mut s, day as u64, 2);
    push_all(&mut s, " ");
    push_padded(&mut s, hour as u64, 2);
    push_all(&mut s, ":");
    push_padded(&mut s, minute as u64, 2);
    push_all(&mut s, ":");
    push_padded(&mut s, second as u64, 2);
    push_all(&mut s, ".");
    push_padded(&mut s, micros as u64, 6);
    assert(s@ =~= date_text(year as nat, month as nat, day as nat, hour as nat, minute as nat, second as nat, micros as nat));
    s
}

/// Renders a time column value.
pub fn format_time_value(negative: bool, days: u32, hours: u8, minutes: u8, seconds: u8, micros: u32) -> (r: String)
    ensures
        r@ == time_text(negative, days as nat, hours as nat, minutes as nat, seconds as nat, micros as nat),
{
    let mut s = String::new();
    if negative {
        push_all(&mut s, "-");
    }
    push_padded(&mut s, days as u64, 3);
    push_all(&mut s, " ");
    push_padded(&mut s, hours as u64, 2);
    push_all(&mut s, ":");
    push_padded(&mut s, minutes as u64, 2);
    push_all(&mut s, ":");
    push_padded(&mut s, seconds as u64, 2);
    push_all(&mut s, ".");
    push_padded(&mut s, micros as u64, 6);
    assert(s@ =~= time_text(negative, days as nat, hours as nat, minutes as nat, seconds as nat, micros as nat));
    s
}

} // verus!
