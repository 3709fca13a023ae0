use vstd::prelude::*;
use vstd::string::StringSliceAdditionalSpecFns;

use crate::render::checksum_line;
use crate::render::format_checksum_line;
use crate::render::format_result_line;
use crate::render::result_line;
use crate::repr::ReprKind;
use crate::repr::ReprValue;
use crate::repr::build_value;
use crate::repr::repr_text;
use crate::repr::value_as_str;
use crate::search::find_in_str;
use crate::search::found_index;
use crate::search::lemma_found_index_unique;
use crate::search::match_at;
use crate::timing::subsec_nanos;
use crate::timing::time_it;

verus! {

/// Number of values each benchmark case constructs and searches.
pub const MAX_ITERATIONS: usize = 1_000_000;

/// Byte-length bound on a case's phrase that keeps the checksum within
/// `usize` on every architecture.
pub const MAX_PHRASE_BYTES: usize = 4000;

/// The fixed substring every constructed value is searched for.
pub open spec fn search_needle() -> Seq<u8> {
    "lamb!".spec_bytes()
}

/// A case fails only when its phrase does not contain the search target at
/// all; the harness then stops with a diagnostic instead of retrying.
#[derive(Clone, Copy, PartialEq, Eq, Structural, Debug)]
pub enum CaseError {
    SubstringMissing,
}

/// Run one benchmark case: construct the phrase `MAX_ITERATIONS` times in the
/// chosen representation, append each value to a sequence, search each
/// appended value for the fixed substring, and fold the sequence length and
/// the found byte offsets into one checksum. Returns the checksum and the
/// last constructed value's text.
pub fn run_case(kind: ReprKind, phrase: &str) -> (r: Result<(usize, String), CaseError>)
    requires
        phrase.spec_bytes().len() <= MAX_PHRASE_BYTES,
    ensures
        match r {
            Ok(out) => {
                &&& exists|off: int|
                    #[trigger] found_index(phrase.spec_bytes(), search_needle(), off)
                        && out.0 == MAX_ITERATIONS + MAX_ITERATIONS * off
                &&& out.1@ == phrase@
            },
            Err(e) => {
                &&& forall|j: int| !match_at(phrase.spec_bytes(), search_needle(), j)
                &&& e == CaseError::SubstringMissing
            },
        },
{
    let mut vec_tmp: Vec<ReprValue> = Vec::with_capacity(MAX_ITERATIONS);
    let mut num: usize = 0;
    let ghost mut goff: int = 0;
    let mut i: usize = 0;
    while i < MAX_ITERATIONS
        invariant
            phrase.spec_bytes().len() <= MAX_PHRASE_BYTES,
            i <= MAX_ITERATIONS,
            vec_tmp@.len() == i,
            forall|k: int| 0 <= k < i ==> repr_text(#[trigger] vec_tmp@[k]) == phrase@,
            i > 0 ==> found_index(phrase.spec_bytes(), search_needle(), goff),
            0 <= goff <= MAX_PHRASE_BYTES,
            num == i * goff,
        decreases MAX_ITERATIONS - i,
    {
        let value = build_value(kind, phrase);
        vec_tmp.push(value);
        let s = value_as_str(&vec_tmp[i]);
        match find_in_str(s, "lamb!") {
            None => {
                proof {
                    assert(s@ == phrase@);
                    assert(s.spec_bytes() == phrase.spec_bytes());
                    assert(search_needle() == "lamb!".spec_bytes());
                }
                return Err(CaseError::SubstringMissing);
            },
            Some(off) => {
                proof {
                    if i > 0 {
                        lemma_found_index_unique(
                            phrase.spec_bytes(),
                            search_needle(),
                            goff,
                            off as int,
                        );
                    }
                    goff = off as int;
                }
                assert(num + off == (i + 1) * goff && num + off <= 4_000_000_000) by (nonlinear_arith)
                    requires
                        num == i * goff,
                        off == goff,
                        i + 1 <= 1_000_000,
                        0 <= goff <= 4000,
                ;
                num = num + off;
            },
        }
        i += 1;
    }
    assert(num <= 4_000_000_000) by (nonlinear_arith)
        requires
            num == 1_000_000 * goff,
            0 <= goff <= 4000,
    ;
    let counter = vec_tmp.len() + num;
    let last = value_as_str(&vec_tmp[MAX_ITERATIONS - 1]).to_owned();
    Ok((counter, last))
}

/// Law: the checksum is representation-independent. Any two successful runs
/// over the same phrase report the same checksum, whatever representation
/// built the values, because both checksums are determined by the one first
/// offset of the search target in that phrase.
pub proof fn lemma_checksum_representation_independent(hay: Seq<u8>, off1: int, off2: int)
    requires
        found_index(hay, search_needle(), off1),
        found_index(hay, search_needle(), off2),
    ensures
        MAX_ITERATIONS + MAX_ITERATIONS * off1 == MAX_ITERATIONS + MAX_ITERATIONS * off2,
{
    lemma_found_index_unique(hay, search_needle(), off1, off2);
}

/// Everything the harness prints for one finished case.
pub struct CaseReport {
    /// The text of the last value the case constructed.
    pub last: String,
    /// The case's checksum: sequence length plus the sum of found offsets.
    pub checksum: usize,
    /// The fractional-second part of the elapsed time, in nanoseconds.
    pub nanos: u32,
    /// The formatted result line for the case.
    pub result_text: String,
    /// The formatted checksum line for the case.
    pub checksum_text: String,
}

/// Run one case under the timer and format what the harness prints for it:
/// the result line with the grouped iteration count and grouped elapsed
/// nanoseconds, and the checksum line.
pub fn timed_case(kind: ReprKind, label: &str, phrase: &str) -> (r: Result<CaseReport, CaseError>)
    requires
        phrase.spec_bytes().len() <= MAX_PHRASE_BYTES,
    ensures
        match r {
            Ok(rep) => {
                &&& exists|off: int|
                    #[trigger] found_index(phrase.spec_bytes(), search_needle(), off)
                        && rep.checksum == MAX_ITERATIONS + MAX_ITERATIONS * off
                &&& rep.last@ == phrase@
                &&& rep.result_text@ == result_line(
                    label@,
                    MAX_ITERATIONS as nat,
                    rep.nanos as nat,
                )
                &&& rep.checksum_text@ == checksum_line(rep.checksum as nat)
            },
            Err(e) => {
                &&& forall|j: int| !match_at(phrase.spec_bytes(), search_needle(), j)
                &&& e == CaseError::SubstringMissing
            },
        },
{
    let bench = || -> (out: Result<(usize, String), CaseError>)
        ensures
            match out {
                Ok(o) => {
                    &&& exists|off: int|
                        #[trigger] found_index(phrase.spec_bytes(), search_needle(), off)
                            && o.0 == MAX_ITERATIONS + MAX_ITERATIONS * off
                    &&& o.1@ == phrase@
                },
                Err(e) => {
                    &&& forall|j: int| !match_at(phrase.spec_bytes(), search_needle(), j)
                    &&& e == CaseError::SubstringMissing
                },
            },
        { run_case(kind, phrase) };
    let (out, elapsed) = time_it(bench);
    match out {
        Ok((counter, last)) => {
            let nanos = subsec_nanos(&elapsed);
            let result_text = format_result_line(label, MAX_ITERATIONS as u64, nanos as u64);
            let checksum_text = format_checksum_line(counter as u64);
            Ok(CaseReport { last, checksum: counter, nanos, result_text, checksum_text })
        },
        Err(e) => Err(e),
    }
}

/// The source phrase that fits a 23-byte inline buffer.
pub open spec fn short_phrase() -> Seq<char> {
    "Mary had a little lamb!"@
}

/// The source phrase that outgrows a 23-byte inline buffer.
pub open spec fn long_phrase() -> Seq<char> {
    "Mary had a little lamb!0123456789"@
}

/// One named benchmark case: a label, the source phrase, and the string
/// representation it exercises.
pub struct BenchCase {
    pub label: &'static str,
    pub phrase: &'static str,
    pub kind: ReprKind,
}

/// The canonical list of benchmark cases, in the order the harness runs and
/// prints them: every representation over the short phrase, then every
/// representation over the long phrase, with the two inline-buffer
/// configurations of the last compact type told apart.
pub fn benchmark_cases() -> (cases: Vec<BenchCase>)
    ensures
        cases@.len() == 9,
        cases@[0].kind == ReprKind::DynamicHeap && cases@[0].phrase@ == short_phrase()
            && cases@[0].label@ == "String len == 23"@,
        cases@[1].kind == ReprKind::CompactA && cases@[1].phrase@ == short_phrase()
            && cases@[1].label@ == "SmartString len == 23"@,
        cases@[2].kind == ReprKind::CompactB && cases@[2].phrase@ == short_phrase()
            && cases@[2].label@ == "SmallString len == 23"@,
        cases@[3].kind == ReprKind::CompactCHeap && cases@[3].phrase@ == short_phrase()
            && cases@[3].label@ == "SmallStr len == 23"@,
        cases@[4].kind == ReprKind::DynamicHeap && cases@[4].phrase@ == long_phrase()
            && cases@[4].label@ == "String len > 23"@,
        cases@[5].kind == ReprKind::CompactA && cases@[5].phrase@ == long_phrase()
            && cases@[5].label@ == "SmartString len > 23"@,
        cases@[6].kind == ReprKind::CompactB && cases@[6].phrase@ == long_phrase()
            && cases@[6].label@ == "SmallString len > 23"@,
        cases@[7].kind == ReprKind::CompactCStack && cases@[7].phrase@ == long_phrase()
            && cases@[7].label@ == "SmallStr len > 23 in stack"@,
        cases@[8].kind == ReprKind::CompactCHeap && cases@[8].phrase@ == long_phrase()
            && cases@[8].label@ == "SmallStr len > 23 in heap"@,
{
    let mut cases: Vec<BenchCase> = Vec::new();
    cases.push(
        BenchCase {
            label: "String len == 23",
            phrase: "Mary had a little lamb!",
            kind: ReprKind::DynamicHeap,
        },
    );
    cases.push(
        BenchCase {
            label: "SmartString len == 23",
            phrase: "Mary had a little lamb!",
            kind: ReprKind::CompactA,
        },
    );
    cases.push(
        BenchCase {
            label: "SmallString len == 23",
            phrase: "Mary had a little lamb!",
            kind: ReprKind::CompactB,
        },
    );
    cases.push(
        BenchCase {
            label: "SmallStr len == 23",
            phrase: "Mary had a little lamb!",
            kind: ReprKind::CompactCHeap,
        },
    );
    cases.push(
        BenchCase {
            label: "String len > 23",
            phrase: "Mary had a little lamb!0123456789",
            kind: ReprKind::DynamicHeap,
        },
    );
    cases.push(
        BenchCase {
            label: "SmartString len > 23",
            phrase: "Mary had a little lamb!0123456789",
            kind: ReprKind::CompactA,
        },
    );
    cases.push(
        BenchCase {
            label: "SmallString len > 23",
            phrase: "Mary had a little lamb!0123456789",
            kind: ReprKind::CompactB,
        },
    );
    cases.push(
        BenchCase {
            label: "SmallStr len > 23 in stack",
            phrase: "Mary had a little lamb!0123456789",
            kind: ReprKind::CompactCStack,
        },
    );
    cases.push(
        BenchCase {
            label: "SmallStr len > 23 in heap",
            phrase: "Mary had a little lamb!0123456789",
            kind: ReprKind::CompactCHeap,
        },
    );
    cases
}

} // verus!
