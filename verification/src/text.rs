//! Rendering of play time as text, and clean-up of Windows paths.

use vstd::prelude::*;

verus! {

/// The character of the decimal digit `d`.
pub open spec fn digit_char(d: nat) -> char {
    if d == 0 { '0' }
    else if d == 1 { '1' }
    else if d == 2 { '2' }
    else if d == 3 { '3' }
    else if d == 4 { '4' }
    else if d == 5 { '5' }
    else if d == 6 { '6' }
    else if d == 7 { '7' }
    else if d == 8 { '8' }
    else { '9' }
}

/// The decimal notation of `n`, without leading zeros (as `{}` prints an integer).
pub open spec fn decimal(n: nat) -> Seq<char>
    decreases n,
{
    if n < 10 {
        seq![digit_char(n)]
    } else {
        decimal(n / 10) + seq![digit_char(n % 10)]
    }
}

/// Whole hours in `secs` seconds.
pub open spec fn hours_of(secs: nat) -> nat {
    secs / 3600
}

/// Minutes past the whole hours in `secs` seconds.
pub open spec fn minutes_of(secs: nat) -> nat {
    (secs / 60) % 60
}

/// The overlay text for a run time of `secs` seconds: `"<h>h <m>m"`.
pub open spec fn run_time_text(secs: nat) -> Seq<char> {
    decimal(hours_of(secs)) + seq!['h', ' '] + decimal(minutes_of(secs)) + seq!['m']
}

fn digit_str(d: u64) -> (s: &'static str)
    requires
        d < 10,
    ensures
        s@ == seq![digit_char(d as nat)],
{
    if d == 0 {
        proof { reveal_strlit("0"); }
        "0"
    } else if d == 1 {
        proof { reveal_strlit("1"); }
        "1"
    } else if d == 2 {
        proof { reveal_strlit("2"); }
        "2"
    } else if d == 3 {
        proof { reveal_strlit("3"); }
        "3"
    } else if d == 4 {
        proof { reveal_strlit("4"); }
        "4"
    } else if d == 5 {
        proof { reveal_strlit("5"); }
        "5"
    } else if d == 6 {
        proof { reveal_strlit("6"); }
        "6"
    } else if d == 7 {
        proof { reveal_strlit("7"); }
        "7"
    } else if d == 8 {
        proof { reveal_strlit("8"); }
        "8"
    } else {
        proof { reveal_strlit("9"); }
        "9"
    }
}

/// Appends the decimal notation of `n` to `out`.
pub fn push_decimal(out: &mut String, n: u64)
    ensures
        final(out)@ == old(out)@ + decimal(n as nat),
    decreases n,
{
    if n >= 10 {
        push_decimal(out, n / 10);
    }
    out.append(digit_str(n % 10));
    proof {
        assert(old(out)@ + decimal(n as nat) =~= (if n >= 10 { old(out)@ + decimal((n / 10) as nat) } else { old(out)@ }) + seq![digit_char((n % 10) as nat)]);
    }
}

/// Formats a run time given in seconds as the overlay shows it, such as `"1h 5m"`.
pub fn format_run_time(secs: u64) -> (s: String)
    ensures
        s@ == run_time_text(secs as nat),
{
    let mut s = String::new();
    push_decimal(&mut s, secs / 3600);
    proof { reveal_strlit("h "); }
    s.append("h ");
    push_decimal(&mut s, secs / 60 % 60);
    proof { reveal_strlit("m"); }
    s.append("m");
    proof {
        assert(s@ =~= run_time_text(secs as nat));
    }
    s
}

/// `s` with every occurrence of `pat` taken out, matches found from the left
/// and not overlapping (what `str::replace(s, pat, "")` gives).
pub open spec fn remove_all(s: Seq<char>, pat: Seq<char>) -> Seq<char>
    decreases s.len(),
{
    if s.len() == 0 {
        Seq::empty()
    } else if 0 < pat.len() <= s.len() && s.take(pat.len() as int) == pat {
        remove_all(s.skip(pat.len() as int), pat)
    } else {
        seq![s[0]] + remove_all(s.skip(1), pat)
    }
}

/// Whether `pat` occurs in `s` at character position `at`.
fn occurs_at(s: &str, pat: &str, at: usize, n: usize, m: usize) -> (b: bool)
    requires
        n == s@.len(),
        m == pat@.len(),
        at + m <= n,
    ensures
        b == (s@.subrange(at as int, at + m) == pat@),
{
    let mut j: usize = 0;
    while j < m
        invariant
            n == s@.len(),
            m == pat@.len(),
            at + m <= n,
            j <= m,
            forall|k: int| 0 <= k < j ==> s@[at + k] == pat@[k],
        decreases m - j,
    {
        if s.get_char(at + j) != pat.get_char(j) {
            assert(s@.subrange(at as int, at + m)[j as int] != pat@[j as int]);
            return false;
        }
        j = j + 1;
    }
    assert(s@.subrange(at as int, at + m) =~= pat@);
    true
}

/// `s` with every occurrence of `pat` removed, as `s.replace(pat, "")` computes it.
pub fn remove_all_occurrences(s: &str, pat: &str) -> (r: String)
    ensures
        r@ == remove_all(s@, pat@),
{
    let n = s.unicode_len();
    let m = pat.unicode_len();
    let mut out = String::new();
    let mut i: usize = 0;
    assert(s@.skip(0) =~= s@);
    while i < n
        invariant
            n == s@.len(),
            m == pat@.len(),
            i <= n,
            out@ + remove_all(s@.skip(i as int), pat@) == remove_all(s@, pat@),
        decreases n - i,
    {
        let ghost rest = s@.skip(i as int);
        if m > 0 && m <= n - i && occurs_at(s, pat, i, n, m) {
            assert(rest.take(m as int) =~= s@.subrange(i as int, i + m));
            assert(rest.skip(m as int) =~= s@.skip(i + m));
            i = i + m;
        } else {
            proof {
                if 0 < m <= n - i {
                    assert(rest.take(m as int) =~= s@.subrange(i as int, i + m));
                }
                assert(rest.skip(1) =~= s@.skip(i + 1));
            }
            let c = s.substring_char(i, i + 1);
            assert(c@ =~= seq![rest[0]]);
            let ghost before = out@;
            out.append(c);
            assert(out@ + remove_all(s@.skip(i + 1), pat@) =~= before + (seq![rest[0]] + remove_all(rest.skip(1), pat@)));
            i = i + 1;
        }
    }
    assert(s@.skip(n as int) =~= Seq::<char>::empty());
    assert(out@ + remove_all(s@.skip(n as int), pat@) =~= out@);
    out
}

/// Whether `pat` occurs nowhere in `s`.
pub open spec fn occurs_nowhere(s: Seq<char>, pat: Seq<char>) -> bool {
    forall|i: int| 0 <= i && i + pat.len() <= s.len() ==> #[trigger] s.subrange(i, i + pat.len()) != pat
}

/// Text in which the pattern does not occur comes out unchanged.
pub proof fn remove_all_without_occurrence(s: Seq<char>, pat: Seq<char>)
    requires
        occurs_nowhere(s, pat),
    ensures
        remove_all(s, pat) == s,
    decreases s.len(),
{
    if s.len() == 0 {
        assert(s =~= Seq::<char>::empty());
    } else {
        if 0 < pat.len() <= s.len() {
            assert(s.subrange(0, 0int + pat.len()) != pat);
            assert(s.take(pat.len() as int) =~= s.subrange(0, 0int + pat.len()));
        }
        let t = s.skip(1);
        assert forall|i: int| 0 <= i && i + pat.len() <= t.len() implies #[trigger] t.subrange(i, i + pat.len()) != pat by {
            assert(t.subrange(i, i + pat.len()) =~= s.subrange(i + 1, i + 1 + pat.len()));
        }
        remove_all_without_occurrence(t, pat);
        assert(seq![s[0]] + t =~= s);
    }
}

/// The prefix `\\?\` that Windows puts in front of a canonical path.
pub open spec fn verbatim_prefix() -> Seq<char> {
    seq!['\\', '\\', '?', '\\']
}

/// A path as the tray hands it to the shell and the registry: with every
/// `\\?\` taken out.
pub fn clean_exe_path(path: &str) -> (r: String)
    ensures
        r@ == remove_all(path@, verbatim_prefix()),
{
    let pat = r"\\?\";
    proof {
        reveal_strlit(r"\\?\");
        assert(pat@ =~= verbatim_prefix());
    }
    remove_all_occurrences(path, pat)
}

/// A canonical Windows path, `\\?\` followed by an ordinary path, comes out
/// as the ordinary path.
pub proof fn clean_exe_path_strips_prefix(rest: Seq<char>)
    requires
        occurs_nowhere(rest, verbatim_prefix()),
    ensures
        remove_all(verbatim_prefix() + rest, verbatim_prefix()) == rest,
{
    let s = verbatim_prefix() + rest;
    assert(s.take(4) =~= verbatim_prefix());
    assert(s.skip(4) =~= rest);
    remove_all_without_occurrence(rest, verbatim_prefix());
}

/// The hours and minutes of a run time: the minutes are below 60, and the
/// whole minutes they stand for are at most the run time and less than a
/// minute short of it.
pub proof fn run_time_split(secs: nat)
    ensures
        minutes_of(secs) < 60,
        hours_of(secs) * 3600 + minutes_of(secs) * 60 <= secs,
        secs < hours_of(secs) * 3600 + minutes_of(secs) * 60 + 60,
{
    let x = secs as int;
    let m = x / 60;
    vstd::arithmetic::div_mod::lemma_fundamental_div_mod(x, 60);
    vstd::arithmetic::div_mod::lemma_fundamental_div_mod(m, 60);
    vstd::arithmetic::div_mod::lemma_div_denominator(x, 60, 60);
    vstd::arithmetic::div_mod::lemma_mod_pos_bound(x, 60);
    vstd::arithmetic::div_mod::lemma_mod_pos_bound(m, 60);
    assert(hours_of(secs) == m / 60);
    assert(minutes_of(secs) == m % 60);
}

} // verus!
