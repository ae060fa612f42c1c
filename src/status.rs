//! The status summary of the container stack, read from the runtime's listing
//! of matching containers, one name per line.

use vstd::prelude::*;

verus! {

/// Number of `'\n'` characters in `s`.
pub open spec fn newline_count(s: Seq<char>) -> nat
    decreases s.len(),
{
    if s.len() == 0 {
        0
    } else {
        newline_count(s.drop_last()) + if s.last() == '\n' { 1nat } else { 0nat }
    }
}

/// Number of lines in `s`, counted as `str::lines` does: every `'\n'` ends a
/// line, and text after the last one is one more line.
pub open spec fn line_count(s: Seq<char>) -> nat {
    if s.len() == 0 || s.last() == '\n' {
        newline_count(s)
    } else {
        newline_count(s) + 1
    }
}

/// The character of a decimal digit.
pub open spec fn digit_char(d: nat) -> char {
    if d == 0 { '0' }
    else if d == 1 { '1' }
    else if d == 2 { '2' }
    else if d == 3 { '3' }
    else if d == 4 { '4' }
    else if d == 5 { '5' }
    else if d == 6 { '6' }
    else if d == 7 { '7' }
    else if d == 8 { '8' }
    else { '9' }
}

/// Decimal notation of `n`, without leading zeros.
pub open spec fn decimal(n: nat) -> Seq<char>
    decreases n,
{
    if n < 10 {
        seq![digit_char(n)]
    } else {
        decimal(n / 10).push(digit_char(n % 10))
    }
}

/// The summary for `count` running containers.
pub open spec fn summary_text(count: nat) -> Seq<char> {
    if count == 0 {
        "Stopped"@
    } else {
        "Running ("@ + decimal(count) + " containers)"@
    }
}

/// Counts the lines of `text` as `str::lines` does.
pub fn count_lines(text: &str) -> (r: usize)
    ensures
        r == line_count(text@),
{
    let n = text.unicode_len();
    let mut newlines: usize = 0;
    let mut i: usize = 0;
    while i < n
        invariant
            n == text@.len(),
            i <= n,
            newlines == newline_count(text@.subrange(0, i as int)),
            newlines <= i,
        decreases n - i,
    {
        let c = text.get_char(i);
        proof {
            let s = text@.subrange(0, i as int + 1);
            assert(s.drop_last() =~= text@.subrange(0, i as int));
        }
        if c == '\n' {
            newlines = newlines + 1;
        }
        i = i + 1;
    }
    assert(text@.subrange(0, n as int) =~= text@);
    if n == 0 {
        newlines
    } else if text.get_char(n - 1) == '\n' {
        newlines
    } else {
        proof {
            assert(text@.drop_last() =~= text@.subrange(0, n - 1));
            lemma_newline_count_bound(text@.drop_last());
        }
        newlines + 1
    }
}

proof fn lemma_newline_count_bound(s: Seq<char>)
    ensures
        newline_count(s) <= s.len(),
    decreases s.len(),
{
    if s.len() > 0 {
        lemma_newline_count_bound(s.drop_last());
    }
}

fn digit_str(d: usize) -> (r: &'static str)
    requires
        d < 10,
    ensures
        r@ == seq![digit_char(d as nat)],
{
    proof {
        reveal_strlit("0");
        reveal_strlit("1");
        reveal_strlit("2");
        reveal_strlit("3");
        reveal_strlit("4");
        reveal_strlit("5");
        reveal_strlit("6");
        reveal_strlit("7");
        reveal_strlit("8");
        reveal_strlit("9");
    }
    let r = if d == 0 { "0" }
        else if d == 1 { "1" }
        else if d == 2 { "2" }
        else if d == 3 { "3" }
        else if d == 4 { "4" }
        else if d == 5 { "5" }
        else if d == 6 { "6" }
        else if d == 7 { "7" }
        else if d == 8 { "8" }
        else { "9" };
    assert(r@ =~= seq![digit_char(d as nat)]);
    r
}

fn append_decimal(out: &mut String, n: usize)
    ensures
        final(out)@ == old(out)@ + decimal(n as nat),
    decreases n,
{
    if n >= 10 {
        append_decimal(out, n / 10);
    }
    out.append(digit_str(n % 10));
    proof {
        if n >= 10 {
            assert(old(out)@ + decimal(n as nat) =~= old(out)@ + decimal((n / 10) as nat) + seq![
                digit_char((n % 10) as nat),
            ]);
        } else {
            assert(decimal(n as nat) =~= seq![digit_char((n % 10) as nat)]);
        }
    }
}

/// Decimal notation of `n`.
pub fn decimal_string(n: usize) -> (r: String)
    ensures
        r@ == decimal(n as nat),
{
    let mut out = String::new();
    append_decimal(&mut out, n);
    assert(out@ =~= decimal(n as nat));
    out
}

/// The summary for `count` running containers: `"Stopped"` when there are
/// none, else `"Running (<count> containers)"`.
pub fn status_summary(count: usize) -> (r: String)
    ensures
        r@ == summary_text(count as nat),
{
    proof {
        reveal_strlit("Stopped");
        reveal_strlit("Running (");
        reveal_strlit(" containers)");
    }
    if count == 0 {
        String::from_str("Stopped")
    } else {
        let mut out = String::from_str("Running (");
        append_decimal(&mut out, count);
        out.append(" containers)");
        out
    }
}

/// The status of the stack from the runtime's listing of matching
/// containers, one per line.
pub fn services_status(listing: &str) -> (r: String)
    ensures
        r@ == summary_text(line_count(listing@)),
{
    let count = count_lines(listing);
    status_summary(count)
}

/// The decimal notation of a positive number is that of its leading digits
/// followed by its last one, and is never empty.
proof fn lemma_decimal_nonempty(n: nat)
    ensures
        decimal(n).len() >= 1,
    decreases n,
{
    if n >= 10 {
        lemma_decimal_nonempty(n / 10);
    }
}

/// With no matching container the status is `"Stopped"`; with `k` of them
/// it is a different text that holds `k` in decimal.
pub proof fn lemma_status_reports_count(k: nat)
    ensures
        k == 0 ==> summary_text(k) == "Stopped"@,
        k > 0 ==> summary_text(k) != "Stopped"@,
        k > 0 ==> summary_text(k).subrange(9, 9 + decimal(k).len() as int) == decimal(k),
{
    reveal_strlit("Stopped");
    reveal_strlit("Running (");
    reveal_strlit(" containers)");
    if k > 0 {
        lemma_decimal_nonempty(k);
        let s = summary_text(k);
        assert(s.subrange(9, 9 + decimal(k).len() as int) =~= decimal(k));
        assert(s.len() > 7);
    }
}

} // verus!
