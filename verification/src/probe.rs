//! Parsing of the top-process listing: the probe subprocess hands back a
//! table whose third line names the busiest process; that line is taken and
//! a known namespace prefix is stripped from it.
use vstd::prelude::*;

verus! {

/// The first index at or after `i` where the nonempty `pat` occurs in `s`.
pub open spec fn spec_find_from(s: Seq<char>, pat: Seq<char>, i: int) -> Option<int>
    recommends
        0 <= i <= s.len(),
        pat.len() > 0,
    decreases s.len() - i,
{
    if i < 0 || pat.len() <= 0 || i + pat.len() > s.len() {
        None
    } else if s.subrange(i, i + pat.len() as int) == pat {
        Some(i)
    } else {
        spec_find_from(s, pat, i + 1)
    }
}

/// What follows the first occurrence of `pat` in `s`; `s` itself when
/// `pat` is empty or does not occur, as splitting in two at `pat` and
/// keeping the last part behaves.
pub open spec fn spec_after_first(s: Seq<char>, pat: Seq<char>) -> Seq<char> {
    if pat.len() == 0 {
        s
    } else {
        match spec_find_from(s, pat, 0) {
            Some(j) => s.subrange(j + pat.len() as int, s.len() as int),
            None => s,
        }
    }
}

/// The line of index `n` in `s`, lines separated by `'\n'`; the empty
/// sequence when `s` has fewer than `n + 1` lines.
pub open spec fn spec_line(s: Seq<char>, n: int) -> Seq<char>
    decreases n,
{
    let nl = spec_find_from(s, seq!['\n'], 0);
    if n <= 0 {
        match nl {
            Some(k) => s.subrange(0, k),
            None => s,
        }
    } else {
        match nl {
            Some(k) => spec_line(s.subrange(k + 1, s.len() as int), n - 1),
            None => Seq::<char>::empty(),
        }
    }
}

/// The probe result: the third line of the listing with everything up to
/// and including the first occurrence of `filter` removed.
pub open spec fn spec_top_process(out: Seq<char>, filter: Seq<char>) -> Seq<char> {
    spec_after_first(spec_line(out, 2), filter)
}

/// Whether `pat` occurs in `s` starting exactly at index `i`.
fn matches_at(s: &str, pat: &str, i: usize) -> (b: bool)
    requires
        i + pat@.len() <= s@.len(),
    ensures
        b == (s@.subrange(i as int, i as int + pat@.len() as int) == pat@),
{
    let n = s.unicode_len();
    let m = pat.unicode_len();
    let mut k: usize = 0;
    while k < m
        invariant
            k <= m,
            n == s@.len(),
            m == pat@.len(),
            i + m <= s@.len(),
            forall|j: int| 0 <= j < k ==> s@[i + j] == pat@[j],
        decreases m - k,
    {
        let c1 = s.get_char(i + k);
        let c2 = pat.get_char(k);
        if c1 != c2 {
            proof {
                let sub = s@.subrange(i as int, i as int + pat@.len() as int);
                assert(sub[k as int] == s@[i + k]);
                assert(sub != pat@);
            }
            return false;
        }
        k += 1;
    }
    proof {
        let sub = s@.subrange(i as int, i as int + pat@.len() as int);
        assert forall|j: int| 0 <= j < pat@.len() implies sub[j] == pat@[j] by {
            assert(sub[j] == s@[i + j]);
        }
        assert(sub =~= pat@);
    }
    true
}

/// The first occurrence of `pat` in `s` at or after `start`.
fn find_from(s: &str, pat: &str, start: usize) -> (r: Option<usize>)
    requires
        start <= s@.len(),
        pat@.len() > 0,
    ensures
        match r {
            Some(j) => start <= j && j + pat@.len() <= s@.len() && spec_find_from(
                s@,
                pat@,
                start as int,
            ) == Some(j as int),
            None => spec_find_from(s@, pat@, start as int) is None,
        },
{
    let n = s.unicode_len();
    let m = pat.unicode_len();
    let mut i = start;
    loop
        invariant
            start <= i <= n,
            n == s@.len(),
            m == pat@.len(),
            m > 0,
            spec_find_from(s@, pat@, start as int) == spec_find_from(s@, pat@, i as int),
        decreases n - i,
    {
        if m > n - i {
            proof {
                assert(spec_find_from(s@, pat@, i as int) is None);
            }
            return None;
        }
        if matches_at(s, pat, i) {
            proof {
                assert(spec_find_from(s@, pat@, i as int) == Some(i as int));
            }
            return Some(i);
        }
        proof {
            assert(spec_find_from(s@, pat@, i as int) == spec_find_from(s@, pat@, i as int + 1));
        }
        i += 1;
    }
}

/// Takes the third line of the probe's listing (two header lines precede
/// it) and strips everything up to and including the first occurrence of
/// `filter` from it; a listing of fewer than three lines yields the empty
/// string, and a line without the filter pattern is returned whole.
pub fn top_process_from_listing(output: &str, filter: &str) -> (r: String)
    ensures
        r@ == spec_top_process(output@, filter@),
{
    let nl = "\n";
    proof {
        reveal_strlit("\n");
        assert(nl@ =~= seq!['\n']);
    }
    let r1 = find_from(output, nl, 0);
    let k1 = match r1 {
        Some(k) => k,
        None => {
            proof {
                assert(spec_line(output@, 2) == Seq::<char>::empty());
                assert(spec_top_process(output@, filter@) =~= Seq::<char>::empty());
            }
            return String::new();
        },
    };
    let len0 = output.unicode_len();
    let rest1 = output.substring_char(k1 + 1, len0);
    proof {
        assert(spec_line(output@, 2) == spec_line(rest1@, 1));
    }
    let r2 = find_from(rest1, nl, 0);
    let k2 = match r2 {
        Some(k) => k,
        None => {
            proof {
                assert(spec_line(rest1@, 1) == Seq::<char>::empty());
                assert(spec_top_process(output@, filter@) =~= Seq::<char>::empty());
            }
            return String::new();
        },
    };
    let len1 = rest1.unicode_len();
    let rest2 = rest1.substring_char(k2 + 1, len1);
    proof {
        assert(spec_line(rest1@, 1) == spec_line(rest2@, 0));
    }
    let r3 = find_from(rest2, nl, 0);
    let line = match r3 {
        Some(k3) => rest2.substring_char(0, k3),
        None => rest2,
    };
    proof {
        assert(line@ == spec_line(rest2@, 0));
    }
    let m = filter.unicode_len();
    if m == 0 {
        return String::from_str(line);
    }
    let rf = find_from(line, filter, 0);
    match rf {
        Some(j) => {
            let line_len = line.unicode_len();
            let tail = line.substring_char(j + m, line_len);
            proof {
                assert(tail@ == spec_after_first(line@, filter@));
            }
            String::from_str(tail)
        },
        None => String::from_str(line),
    }
}

} // verus!
