//! Construction of the namespace-handle path for a process.
//!
//! The operating system exposes each process's namespace membership as a
//! handle table under that process's entry in the process filesystem; the
//! mount-namespace handle of process `pid` sits at `/proc/<pid>/ns/mnt`.
//! The path is built here, character for character, against a spec-level
//! decimal rendering, so the embedding program only has to open it.

use vstd::prelude::*;
use vstd::string::StringExecFns;

verus! {

/// The character for one decimal digit.
pub open spec fn digit_char(d: nat) -> char
    recommends
        d < 10,
{
    if d == 0 {
        '0'
    } else if d == 1 {
        '1'
    } else if d == 2 {
        '2'
    } else if d == 3 {
        '3'
    } else if d == 4 {
        '4'
    } else if d == 5 {
        '5'
    } else if d == 6 {
        '6'
    } else if d == 7 {
        '7'
    } else if d == 8 {
        '8'
    } else {
        '9'
    }
}

/// The decimal rendering of a number, most significant digit first, with
/// no leading zeros (a lone zero renders as "0").
pub open spec fn dec_rep(n: nat) -> Seq<char>
    decreases n,
{
    if n < 10 {
        seq![digit_char(n)]
    } else {
        dec_rep(n / 10).push(digit_char(n % 10))
    }
}

/// Distinct digits render as distinct characters.
proof fn lemma_digit_char_injective(a: nat, b: nat)
    requires
        a < 10,
        b < 10,
        digit_char(a) == digit_char(b),
    ensures
        a == b,
{
}

/// A decimal rendering has one character per digit: one for a number
/// under ten, one more for each further decimal place.
proof fn lemma_dec_rep_len(n: nat)
    ensures
        n < 10 ==> dec_rep(n).len() == 1,
        n >= 10 ==> dec_rep(n).len() == dec_rep(n / 10).len() + 1,
        dec_rep(n).len() >= 1,
    decreases n,
{
    if n >= 10 {
        lemma_dec_rep_len(n / 10);
    }
}

/// Distinct numbers have distinct decimal renderings: the rendering
/// carries no leading zeros, so it is injective.
pub proof fn lemma_dec_rep_injective(a: nat, b: nat)
    requires
        dec_rep(a) == dec_rep(b),
    ensures
        a == b,
    decreases a,
{
    lemma_dec_rep_len(a);
    lemma_dec_rep_len(b);
    if a < 10 && b < 10 {
        assert(dec_rep(a)[0] == digit_char(a));
        assert(dec_rep(b)[0] == digit_char(b));
        lemma_digit_char_injective(a, b);
    } else if a < 10 || b < 10 {
        assert(dec_rep(a).len() != dec_rep(b).len());
    } else {
        let ra = dec_rep(a / 10).push(digit_char(a % 10));
        let rb = dec_rep(b / 10).push(digit_char(b % 10));
        assert(ra == rb);
        assert(ra.last() == digit_char(a % 10));
        assert(rb.last() == digit_char(b % 10));
        lemma_digit_char_injective(a % 10, b % 10);
        assert(ra.drop_last() =~= dec_rep(a / 10));
        assert(rb.drop_last() =~= dec_rep(b / 10));
        lemma_dec_rep_injective(a / 10, b / 10);
        assert(a == 10 * (a / 10) + a % 10);
        assert(b == 10 * (b / 10) + b % 10);
    }
}

/// The one-character string for one decimal digit.
fn digit_str(d: u32) -> (r: &'static str)
    requires
        d < 10,
    ensures
        r@ =~= seq![digit_char(d as nat)],
{
    if d == 0 {
        proof {
            reveal_strlit("0");
        }
        "0"
    } else if d == 1 {
        proof {
            reveal_strlit("1");
        }
        "1"
    } else if d == 2 {
        proof {
            reveal_strlit("2");
        }
        "2"
    } else if d == 3 {
        proof {
            reveal_strlit("3");
        }
        "3"
    } else if d == 4 {
        proof {
            reveal_strlit("4");
        }
        "4"
    } else if d == 5 {
        proof {
            reveal_strlit("5");
        }
        "5"
    } else if d == 6 {
        proof {
            reveal_strlit("6");
        }
        "6"
    } else if d == 7 {
        proof {
            reveal_strlit("7");
        }
        "7"
    } else if d == 8 {
        proof {
            reveal_strlit("8");
        }
        "8"
    } else {
        proof {
            reveal_strlit("9");
        }
        "9"
    }
}

/// Renders a number in decimal.
pub fn u32_decimal(n: u32) -> (s: String)
    ensures
        s@ == dec_rep(n as nat),
    decreases n,
{
    if n < 10 {
        String::from_str(digit_str(n))
    } else {
        let mut s = u32_decimal(n / 10);
        let d = digit_str(n % 10);
        s.append(d);
        proof {
            assert(s@ =~= dec_rep(n as nat));
        }
        s
    }
}

/// The path of the mount-namespace handle of process `pid`.
pub open spec fn spec_proc_mnt_ns_path(pid: u32) -> Seq<char> {
    "/proc/"@ + dec_rep(pid as nat) + "/ns/mnt"@
}

/// Builds the path at which the process filesystem exposes the
/// mount-namespace handle of process `pid`.
pub fn proc_mnt_ns_path(pid: u32) -> (s: String)
    ensures
        s@ == spec_proc_mnt_ns_path(pid),
{
    let mut s = String::from_str("/proc/");
    let digits = u32_decimal(pid);
    s.append(digits.as_str());
    s.append("/ns/mnt");
    proof {
        assert(s@ =~= spec_proc_mnt_ns_path(pid));
    }
    s
}

/// Distinct processes are looked up at distinct handle paths: the handle
/// table is soundly keyed by process identifier.
pub proof fn lemma_proc_mnt_ns_path_injective(p1: u32, p2: u32)
    requires
        spec_proc_mnt_ns_path(p1) == spec_proc_mnt_ns_path(p2),
    ensures
        p1 == p2,
{
    let pre = "/proc/"@;
    let suf = "/ns/mnt"@;
    let a = dec_rep(p1 as nat);
    let b = dec_rep(p2 as nat);
    assert((pre + a + suf).len() == pre.len() + a.len() + suf.len());
    assert((pre + b + suf).len() == pre.len() + b.len() + suf.len());
    assert(a.len() == b.len());
    assert(a =~= (pre + a + suf).subrange(pre.len() as int, (pre.len() + a.len()) as int));
    assert(b =~= (pre + b + suf).subrange(pre.len() as int, (pre.len() + b.len()) as int));
    lemma_dec_rep_injective(p1 as nat, p2 as nat);
}

} // verus!
