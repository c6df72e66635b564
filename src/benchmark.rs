use vstd::prelude::*;

use crate::text::{copy_str, decimal, push_all, push_decimal};

verus! {

pub open spec fn category(i: nat) -> Seq<char> {
    let k = i % 5;
    if k == 0 {
        "search"@
    } else if k == 1 {
        "play"@
    } else if k == 2 {
        "pause"@
    } else if k == 3 {
        "skip"@
    } else {
        "share"@
    }
}

/// The seed tuple for event `i`.
pub open spec fn seed_row(i: nat) -> Seq<char> {
    "("@ + decimal(i % 5000 + 1) + ", '"@ + category(i) + "', 'payload-"@ + decimal(i)
        + "', NOW() - INTERVAL "@ + decimal(i % 86400) + " SECOND)"@
}

/// Seed tuples for events `start..start + count`, joined with commas.
pub open spec fn seed_rows(start: nat, count: nat) -> Seq<char>
    decreases count,
{
    if count == 0 {
        seq![]
    } else if count == 1 {
        seed_row(start)
    } else {
        seed_rows(start, (count - 1) as nat) + ","@ + seed_row((start + count - 1) as nat)
    }
}

pub open spec fn insert_batch(start: nat, end: nat) -> Seq<char> {
    "INSERT INTO events (user_id, category, payload, created_at) VALUES "@ + seed_rows(
        start,
        (end - start + 1) as nat,
    )
}

fn push_seed_row(out: &mut String, i: u64)
    ensures
        final(out)@ == old(out)@ + seed_row(i as nat),
{
    push_all(out, "(");
    push_decimal(out, i % 5000 + 1);
    push_all(out, ", '");
    let k = i % 5;
    let cat = if k == 0 {
        "search"
    } else if k == 1 {
        "play"
    } else if k == 2 {
        "pause"
    } else if k == 3 {
        "skip"
    } else {
        "share"
    };
    push_all(out, cat);
    push_all(out, "', 'payload-");
    push_decimal(out, i);
    push_all(out, "', NOW() - INTERVAL ");
    push_decimal(out, i % 86400);
    push_all(out, " SECOND)");
    assert(final(out)@ =~= old(out)@ + seed_row(i as nat));
}

/// One multi-row INSERT that seeds events `start..=end`.
pub fn build_insert_batch_sql(start: u64, end: u64) -> (r: String)
    requires
        start <= end < u64::MAX,
    ensures
        r@ == insert_batch(start as nat, end as nat),
{
    let mut out = copy_str("INSERT INTO events (user_id, category, payload, created_at) VALUES ");
    let ghost head = out@;
    let mut i = start;
    while i <= end
        invariant
            start <= i <= end + 1,
            end < u64::MAX,
            out@ == head + seed_rows(start as nat, (i - start) as nat),
        decreases end + 1 - i,
    {
        if i > start {
            push_all(&mut out, ",");
        }
        push_seed_row(&mut out, i);
        assert(out@ =~= head + seed_rows(start as nat, (i + 1 - start) as nat));
        i = i + 1;
    }
    out
}

/// The value that follows a command-line flag, or the error naming the flag.
pub fn next_value(next: Option<String>, flag: &str) -> (r: Result<String, String>)
    ensures
        next is Some ==> r == Ok::<String, String>(next->0),
        next is None ==> r is Err && r->Err_0@ == "missing value for `"@ + flag@ + "`"@,
{
    match next {
        Some(v) => Ok(v),
        None => {
            let mut message = copy_str("missing value for `");
            push_all(&mut message, flag);
            push_all(&mut message, "`");
            Err(message)
        },
    }
}

} // verus!
