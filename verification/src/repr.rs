use vstd::prelude::*;

verus! {

// A value built by a benchmark case is one of several string representations:
// the ordinary heap-allocating `String`, or one of three compact types that
// keep short text in an inline buffer. The compact types come from outside
// crates whose generic bounds name traits Verus cannot see, so each is held
// in an opaque struct of this library, and the text it holds is given a name
// that the wrappers' contracts speak of.
/// smartstring's compact text type.
#[verifier::external_body]
pub struct CompactTextA {
    data: smartstring::SmartString<smartstring::LazyCompact>,
}

/// smallstring's compact text type.
#[verifier::external_body]
pub struct CompactTextB {
    data: smallstring::SmallString,
}

/// smallstr's compact text type with a 36-byte inline buffer, wide enough to
/// keep both benchmark phrases off the heap.
#[verifier::external_body]
pub struct CompactTextC36 {
    data: smallstr::SmallString<[u8; 36]>,
}

/// smallstr's compact text type with a 23-byte inline buffer, which spills
/// the longer benchmark phrase to the heap.
#[verifier::external_body]
pub struct CompactTextC23 {
    data: smallstr::SmallString<[u8; 23]>,
}

/// The text held by a smartstring value.
pub uninterp spec fn compact_a_text(s: CompactTextA) -> Seq<char>;

/// The text held by a smallstring value.
pub uninterp spec fn compact_b_text(s: CompactTextB) -> Seq<char>;

/// The text held by a smallstr value with a 36-byte inline buffer.
pub uninterp spec fn compact_c36_text(s: CompactTextC36) -> Seq<char>;

/// The text held by a smallstr value with a 23-byte inline buffer.
pub uninterp spec fn compact_c23_text(s: CompactTextC23) -> Seq<char>;

/// Relies on smartstring's `From<&str>`: the new value holds the source text.
#[verifier::external_body]
fn compact_a_from(s: &str) -> (r: CompactTextA)
    ensures
        compact_a_text(r) == s@,
{
    CompactTextA { data: smartstring::SmartString::from(s) }
}

/// Relies on `SmartString::as_str`: it returns the held text.
#[verifier::external_body]
fn compact_a_as_str(s: &CompactTextA) -> (r: &str)
    ensures
        r@ == compact_a_text(*s),
{
    s.data.as_str()
}

/// Relies on smallstring's `From<&str>`: the new value holds the source text.
#[verifier::external_body]
fn compact_b_from(s: &str) -> (r: CompactTextB)
    ensures
        compact_b_text(r) == s@,
{
    CompactTextB { data: smallstring::SmallString::from(s) }
}

/// Relies on smallstring's `Deref<Target = str>`: it returns the held text.
#[verifier::external_body]
fn compact_b_as_str(s: &CompactTextB) -> (r: &str)
    ensures
        r@ == compact_b_text(*s),
{
    &*s.data
}

/// Relies on smallstr's `From<&str>`: the new value holds the source text.
#[verifier::external_body]
fn compact_c36_from(s: &str) -> (r: CompactTextC36)
    ensures
        compact_c36_text(r) == s@,
{
    CompactTextC36 { data: smallstr::SmallString::from(s) }
}

/// Relies on `smallstr::SmallString::as_str`: it returns the held text.
#[verifier::external_body]
fn compact_c36_as_str(s: &CompactTextC36) -> (r: &str)
    ensures
        r@ == compact_c36_text(*s),
{
    s.data.as_str()
}

/// Relies on smallstr's `From<&str>`: the new value holds the source text,
/// spilling to the heap when it outgrows the inline buffer.
#[verifier::external_body]
fn compact_c23_from(s: &str) -> (r: CompactTextC23)
    ensures
        compact_c23_text(r) == s@,
{
    CompactTextC23 { data: smallstr::SmallString::from(s) }
}

/// Relies on `smallstr::SmallString::as_str`: it returns the held text.
#[verifier::external_body]
fn compact_c23_as_str(s: &CompactTextC23) -> (r: &str)
    ensures
        r@ == compact_c23_text(*s),
{
    s.data.as_str()
}

/// Which string representation a benchmark case exercises.
#[derive(Clone, Copy, PartialEq, Eq, Structural, Debug)]
pub enum ReprKind {
    /// The ordinary heap-allocating `String`.
    DynamicHeap,
    /// smartstring's compact type.
    CompactA,
    /// smallstring's compact type.
    CompactB,
    /// smallstr's compact type with a buffer wide enough for both phrases.
    CompactCStack,
    /// smallstr's compact type with a 23-byte buffer, which spills the longer
    /// phrase to the heap.
    CompactCHeap,
}

/// One constructed value, tagged with its representation.
pub enum ReprValue {
    DynamicHeap(String),
    CompactA(CompactTextA),
    CompactB(CompactTextB),
    CompactCStack(CompactTextC36),
    CompactCHeap(CompactTextC23),
}

/// The text a constructed value holds.
pub open spec fn repr_text(v: ReprValue) -> Seq<char> {
    match v {
        ReprValue::DynamicHeap(s) => s@,
        ReprValue::CompactA(s) => compact_a_text(s),
        ReprValue::CompactB(s) => compact_b_text(s),
        ReprValue::CompactCStack(s) => compact_c36_text(s),
        ReprValue::CompactCHeap(s) => compact_c23_text(s),
    }
}

/// The representation a value was built with.
pub open spec fn repr_kind_of(v: ReprValue) -> ReprKind {
    match v {
        ReprValue::DynamicHeap(_) => ReprKind::DynamicHeap,
        ReprValue::CompactA(_) => ReprKind::CompactA,
        ReprValue::CompactB(_) => ReprKind::CompactB,
        ReprValue::CompactCStack(_) => ReprKind::CompactCStack,
        ReprValue::CompactCHeap(_) => ReprKind::CompactCHeap,
    }
}

/// Build one value of the chosen representation from the source phrase.
pub fn build_value(kind: ReprKind, phrase: &str) -> (v: ReprValue)
    ensures
        repr_text(v) == phrase@,
        repr_kind_of(v) == kind,
{
    match kind {
        ReprKind::DynamicHeap => ReprValue::DynamicHeap(phrase.to_owned()),
        ReprKind::CompactA => ReprValue::CompactA(compact_a_from(phrase)),
        ReprKind::CompactB => ReprValue::CompactB(compact_b_from(phrase)),
        ReprKind::CompactCStack => ReprValue::CompactCStack(compact_c36_from(phrase)),
        ReprKind::CompactCHeap => ReprValue::CompactCHeap(compact_c23_from(phrase)),
    }
}

/// View a constructed value as a string slice.
pub fn value_as_str(v: &ReprValue) -> (r: &str)
    ensures
        r@ == repr_text(*v),
{
    match v {
        ReprValue::DynamicHeap(s) => s.as_str(),
        ReprValue::CompactA(s) => compact_a_as_str(s),
        ReprValue::CompactB(s) => compact_b_as_str(s),
        ReprValue::CompactCStack(s) => compact_c36_as_str(s),
        ReprValue::CompactCHeap(s) => compact_c23_as_str(s),
    }
}

} // verus!
