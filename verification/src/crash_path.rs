//! Crash-report path allocator.
//!
//! A crash artifact is named `easyinit-<YYYY-MM-DD>-<sequence>.crash`: a
//! fixed prefix, a date stamp fixed once per boot, and the first sequence
//! number whose name is not already present in the report directory, so a
//! fresh report never overwrites a prior one and the scheme survives
//! restarts. The directory listing and the clock are read by the unverified
//! shell and handed in as plain values; the naming and the probe order are
//! proved here, including that the probe always finds a free name — the
//! renderings of distinct sequence numbers never collide, so a directory
//! with `n` entries cannot occupy all of the first `n + 1` candidates.

use crate::decimal::dec_digits;
use crate::decimal::four_digits;
use crate::decimal::lemma_dec_digits_injective;
use crate::decimal::push_decimal;
use crate::decimal::push_four_digits;
use crate::decimal::push_two_digits;
use crate::decimal::two_digits;
use vstd::prelude::*;
use vstd::set_lib::lemma_int_range;
use vstd::set_lib::lemma_len_subset;
use vstd::set_lib::lemma_map_size;
use vstd::set_lib::set_int_range;

verus! {

/// A calendar date, held as plain numbers so the stamp is deterministic and
/// locale-independent. The clock that produces it is read once per boot by
/// the shell.
#[derive(Clone, Copy, PartialEq, Eq, Structural, Debug)]
pub struct Date {
    pub year: u32,
    pub month: u32,
    pub day: u32,
}

impl Date {
    /// A plausible calendar date, with a four-digit year.
    pub open spec fn wf(&self) -> bool {
        &&& self.year <= 9999
        &&& 1 <= self.month <= 12
        &&& 1 <= self.day <= 31
    }

    /// Builds a date from its parts.
    pub fn new(year: u32, month: u32, day: u32) -> (d: Date)
        requires
            year <= 9999,
            1 <= month <= 12,
            1 <= day <= 31,
        ensures
            d.wf(),
            d == (Date { year, month, day }),
    {
        Date { year, month, day }
    }
}

/// The `YYYY-MM-DD` stamp of a date, zero-padded.
pub open spec fn date_stamp_spec(d: Date) -> Seq<char> {
    four_digits(d.year as nat) + "-"@ + two_digits(d.month as nat) + "-"@ + two_digits(
        d.day as nat,
    )
}

/// Appends the `YYYY-MM-DD` stamp of `d` to `s`.
pub fn push_date_stamp(s: &mut String, d: &Date)
    requires
        d.wf(),
    ensures
        final(s)@ == old(s)@ + date_stamp_spec(*d),
{
    push_four_digits(s, d.year as u64);
    s.append("-");
    push_two_digits(s, d.month as u64);
    s.append("-");
    push_two_digits(s, d.day as u64);
    proof {
        assert(s@ =~= old(s)@ + date_stamp_spec(*d));
    }
}

/// The crash-artifact name with date stamp `d` and sequence number `k`.
pub open spec fn crash_name_spec(d: Date, k: nat) -> Seq<char> {
    "easyinit-"@ + date_stamp_spec(d) + "-"@ + dec_digits(k) + ".crash"@
}

/// Renders the crash-artifact name for date `d` and sequence number `k`.
pub fn crash_file_name(d: &Date, k: u64) -> (s: String)
    requires
        d.wf(),
    ensures
        s@ == crash_name_spec(*d, k as nat),
{
    let mut s = String::new();
    s.append("easyinit-");
    push_date_stamp(&mut s, d);
    s.append("-");
    push_decimal(&mut s, k);
    s.append(".crash");
    proof {
        assert(s@ =~= crash_name_spec(*d, k as nat));
    }
    s
}

/// Law: for one date, the names of distinct sequence numbers are distinct —
/// the naming scheme is collision-free across the sequence.
pub proof fn lemma_crash_name_injective(d: Date, a: nat, b: nat)
    requires
        crash_name_spec(d, a) == crash_name_spec(d, b),
    ensures
        a == b,
{
    reveal_strlit("easyinit-");
    reveal_strlit("-");
    reveal_strlit(".crash");
    let prefix = "easyinit-"@ + date_stamp_spec(d) + "-"@;
    let suffix = ".crash"@;
    let da = dec_digits(a);
    let db = dec_digits(b);
    assert(crash_name_spec(d, a) =~= prefix + da + suffix);
    assert(crash_name_spec(d, b) =~= prefix + db + suffix);
    assert(da.len() == db.len());
    assert forall|i: int| 0 <= i < da.len() implies da[i] == db[i] by {
        assert((prefix + da + suffix)[prefix.len() + i] == da[i]);
        assert((prefix + db + suffix)[prefix.len() + i] == db[i]);
    }
    assert(da =~= db);
    lemma_dec_digits_injective(a, b);
}

/// Whether `name` is among the names already present in the directory.
pub open spec fn name_taken(existing: Seq<String>, name: Seq<char>) -> bool {
    exists|i: int| 0 <= i < existing.len() && existing[i]@ == name
}

/// Looks `name` up in the directory listing.
fn contains_name(existing: &Vec<String>, name: &String) -> (b: bool)
    ensures
        b == name_taken(existing@, name@),
{
    let mut i: usize = 0;
    while i < existing.len()
        invariant
            i <= existing.len(),
            forall|j: int| 0 <= j < i ==> existing@[j]@ != name@,
        decreases existing.len() - i,
    {
        if existing[i] == *name {
            return true;
        }
        i = i + 1;
    }
    false
}

/// Law: a directory of `n` names cannot occupy every one of the `n + 1`
/// distinct candidate names of sequence numbers `0 ..= n`, so the probe
/// always finds a free name within the first `n + 1` tries.
pub proof fn lemma_probe_finds_free_name(existing: Seq<String>, d: Date, n: nat)
    requires
        n == existing.len(),
    ensures
        exists|k: nat| k <= n && !name_taken(existing, crash_name_spec(d, k)),
{
    if forall|j: nat| j <= n ==> #[trigger] name_taken(existing, crash_name_spec(d, j)) {
        let f = |k: int| crash_name_spec(d, k as nat);
        let dom = set_int_range(0, n as int + 1);
        lemma_int_range(0, n as int + 1);
        assert forall|k1: int, k2: int|
            dom.contains(k1) && dom.contains(k2) && #[trigger] f(k1) == #[trigger] f(
                k2,
            ) implies k1 == k2 by {
            lemma_crash_name_injective(d, k1 as nat, k2 as nat);
        }
        let image = dom.map(f);
        lemma_map_size(dom, image, f);
        let names = existing.map_values(|s: String| s@);
        names.lemma_cardinality_of_set();
        assert forall|x: Seq<char>| image.contains(x) implies names.to_set().contains(x) by {
            let k = choose|k: int| dom.contains(k) && x == f(k);
            assert(name_taken(existing, crash_name_spec(d, k as nat)));
            let i = choose|i: int| 0 <= i < existing.len() && existing[i]@ == x;
            assert(names[i] == x);
            assert(names.to_set().contains(names[i]));
        }
        lemma_len_subset(image, names.to_set());
        assert(false);
    }
}

/// Allocates a fresh crash-artifact name: the candidate of the smallest
/// sequence number not already present in the directory listing. Every call
/// that sees the same listing and date returns the same name, and the name
/// is never one of the listed ones — a prior report is never overwritten.
pub fn gen_filename(existing: &Vec<String>, date: &Date) -> (name: String)
    requires
        date.wf(),
    ensures
        exists|k: nat|
            {
                &&& name@ == crash_name_spec(*date, k)
                &&& !name_taken(existing@, crash_name_spec(*date, k))
                &&& forall|j: nat| j < k ==> name_taken(existing@, crash_name_spec(*date, j))
            },
{
    let n = existing.len();
    let mut k: usize = 0;
    loop
        invariant
            k <= n,
            n == existing.len(),
            date.wf(),
            forall|j: nat| j < k as nat ==> name_taken(existing@, crash_name_spec(*date, j)),
        decreases n - k,
    {
        let cand = crash_file_name(date, k as u64);
        if !contains_name(existing, &cand) {
            proof {
                let kk = k as nat;
                assert(cand@ == crash_name_spec(*date, kk));
                assert(!name_taken(existing@, crash_name_spec(*date, kk)));
            }
            return cand;
        }
        proof {
            if k == n {
                lemma_probe_finds_free_name(existing@, *date, n as nat);
                let k0 = choose|kk: nat|
                    kk <= n as nat && !name_taken(existing@, crash_name_spec(*date, kk));
                assert(cand@ == crash_name_spec(*date, n as nat));
                assert(name_taken(existing@, crash_name_spec(*date, k0)));
            }
        }
        k = k + 1;
    }
}

/// What the process must do about an I/O error met while probing the report
/// directory.
#[derive(Clone, Copy, PartialEq, Eq, Structural, Debug)]
pub enum ProbeErrorVerdict {
    /// Permission denied is unreachable under the privilege level this
    /// process is expected to hold; observing it is an internal-consistency
    /// violation and the process aborts rather than silently retrying.
    InternalInconsistencyAbort,
    /// Any other I/O error is reported to the caller.
    ReportIo,
}

/// Classifies an I/O error met while probing the report directory.
pub fn classify_probe_error(permission_denied: bool) -> (v: ProbeErrorVerdict)
    ensures
        permission_denied <==> v == ProbeErrorVerdict::InternalInconsistencyAbort,
{
    if permission_denied {
        ProbeErrorVerdict::InternalInconsistencyAbort
    } else {
        ProbeErrorVerdict::ReportIo
    }
}

} // verus!
