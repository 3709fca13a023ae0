use vstd::prelude::*;
use vstd::string::StrSliceExecFns;
use vstd::string::StringExecFns;

verus! {

/// The text with a `.` inserted every three characters, counting from the
/// right-hand end; text of three characters or fewer is left unchanged, and
/// no separator is ever inserted at the front.
pub open spec fn grouped(s: Seq<char>) -> Seq<char>
    decreases s.len(),
{
    if s.len() <= 3 {
        s
    } else {
        grouped(s.take(s.len() - 3)) + seq!['.'] + s.skip(s.len() - 3)
    }
}

/// Insert a thousands separator every three characters, counting from the
/// least-significant (right-hand) end of the text.
pub fn decimal_mark2(s: String) -> (r: String)
    ensures
        r@ == grouped(s@),
{
    group_str(s.as_str())
}

/// The text with every separator struck out.
pub open spec fn strip_separators(s: Seq<char>) -> Seq<char>
    decreases s.len(),
{
    if s.len() == 0 {
        Seq::empty()
    } else if s[0] == '.' {
        strip_separators(s.skip(1))
    } else {
        seq![s[0]] + strip_separators(s.skip(1))
    }
}

proof fn lemma_strip_concat(a: Seq<char>, b: Seq<char>)
    ensures
        strip_separators(a + b) == strip_separators(a) + strip_separators(b),
    decreases a.len(),
{
    if a.len() == 0 {
        assert(a + b =~= b);
        assert(strip_separators(a) + strip_separators(b) =~= strip_separators(b));
    } else {
        assert((a + b).skip(1) =~= a.skip(1) + b);
        lemma_strip_concat(a.skip(1), b);
        if a[0] != '.' {
            assert(seq![a[0]] + (strip_separators(a.skip(1)) + strip_separators(b)) =~= (seq![
                a[0],
            ] + strip_separators(a.skip(1))) + strip_separators(b));
        }
    }
}

proof fn lemma_strip_no_separator(s: Seq<char>)
    requires
        forall|i: int| 0 <= i < s.len() ==> s[i] != '.',
    ensures
        strip_separators(s) == s,
    decreases s.len(),
{
    if s.len() == 0 {
        assert(strip_separators(s) =~= s);
    } else {
        lemma_strip_no_separator(s.skip(1));
        assert(seq![s[0]] + s.skip(1) =~= s);
    }
}

/// Law: grouping only inserts separators. Striking every separator out of the
/// grouped text restores the original text, for any text that holds no
/// separator of its own.
pub proof fn lemma_grouped_round_trip(s: Seq<char>)
    requires
        forall|i: int| 0 <= i < s.len() ==> s[i] != '.',
    ensures
        strip_separators(grouped(s)) == s,
    decreases s.len(),
{
    if s.len() <= 3 {
        lemma_strip_no_separator(s);
    } else {
        let head = s.take(s.len() - 3);
        let tail = s.skip(s.len() - 3);
        assert(forall|i: int| 0 <= i < head.len() ==> head[i] != '.');
        assert(forall|i: int| 0 <= i < tail.len() ==> tail[i] != '.');
        lemma_grouped_round_trip(head);
        lemma_strip_concat(grouped(head), seq!['.']);
        lemma_strip_concat(grouped(head) + seq!['.'], tail);
        assert(seq!['.'].skip(1) =~= Seq::<char>::empty());
        assert(strip_separators(Seq::<char>::empty()) =~= Seq::<char>::empty());
        assert(seq!['.'][0] == '.');
        assert(strip_separators(seq!['.']) =~= Seq::<char>::empty());
        lemma_strip_no_separator(tail);
        assert(strip_separators(grouped(head)) + strip_separators(seq!['.']) =~= strip_separators(
            grouped(head),
        ));
        assert(head + tail =~= s);
    }
}

/// Law: no leading separator is ever inserted — grouped text starts with the
/// same character the original text starts with.
pub proof fn lemma_grouped_no_leading_separator(s: Seq<char>)
    requires
        s.len() > 0,
    ensures
        grouped(s).len() > 0,
        grouped(s)[0] == s[0],
    decreases s.len(),
{
    if s.len() > 3 {
        lemma_grouped_no_leading_separator(s.take(s.len() - 3));
    }
}

/// Law: grouping inserts exactly one separator for each full group of three
/// characters after the first, so the grouped text of a non-empty text `s`
/// has length `s.len() + (s.len() - 1) / 3`.
pub proof fn lemma_grouped_len(s: Seq<char>)
    requires
        s.len() > 0,
    ensures
        grouped(s).len() == s.len() + (s.len() - 1) / 3,
    decreases s.len(),
{
    if s.len() > 3 {
        lemma_grouped_len(s.take(s.len() - 3));
    }
}

fn group_str(s: &str) -> (r: String)
    ensures
        r@ == grouped(s@),
    decreases s@.len(),
{
    let n = s.unicode_len();
    if n <= 3 {
        s.to_owned()
    } else {
        let head = s.substring_char(0, n - 3);
        let tail = s.substring_char(n - 3, n);
        let mut r = group_str(head);
        r.append(".");
        r.append(tail);
        proof {
            reveal_strlit(".");
            assert(head@ =~= s@.take(s@.len() - 3));
            assert(tail@ =~= s@.skip(s@.len() - 3));
            assert("."@ =~= seq!['.']);
            assert(r@ =~= grouped(s@));
        }
        r
    }
}

} // verus!
