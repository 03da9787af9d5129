//! Spreadsheet-style column names: bijective base-26 over the letters A to Z.
use vstd::prelude::*;

verus! {

/// The capital Latin letter at position `d` of the alphabet (0 is 'A').
pub open spec fn letter(d: nat) -> char {
    ((65 + d) as u32) as char
}

/// The bijective base-26 numeral of `n`: 0 is the empty word, 1 is "A",
/// 26 is "Z", 27 is "AA", and so on.
pub open spec fn bijective_name(n: nat) -> Seq<char>
    decreases n,
{
    if n == 0 {
        Seq::empty()
    } else {
        bijective_name(((n - 1) / 26) as nat).push(letter(((n - 1) % 26) as nat))
    }
}

/// The name of the column with zero-based index `column_id`.
pub open spec fn column_name(column_id: nat) -> Seq<char> {
    bijective_name(column_id + 1)
}

/// The order that puts shorter words first and orders words of one length
/// alphabetically.
pub open spec fn shortlex_less(a: Seq<char>, b: Seq<char>) -> bool {
    ||| a.len() < b.len()
    ||| a.len() == b.len() && exists|i: int|
        0 <= i < a.len() && #[trigger] a.subrange(0, i) == b.subrange(0, i) && (a[i] as u32) < (
        b[i] as u32)
}

/// The first twenty-six columns are named by the single letters A to Z.
pub proof fn lemma_single_letter_names(column_id: nat)
    requires
        column_id < 26,
    ensures
        column_name(column_id) == seq![letter(column_id)],
{
    assert(bijective_name(0) =~= Seq::<char>::empty());
    assert(column_name(column_id) =~= seq![letter(column_id)]);
}

/// Every column has a name of at least one letter.
pub proof fn lemma_name_not_empty(column_id: nat)
    ensures
        column_name(column_id).len() >= 1,
{
}

proof fn lemma_bijective_name_increasing(n: nat, m: nat)
    requires
        n < m,
    ensures
        shortlex_less(bijective_name(n), bijective_name(m)),
    decreases m,
{
    if n > 0 {
        let pn = bijective_name(((n - 1) / 26) as nat);
        let pm = bijective_name(((m - 1) / 26) as nat);
        let a = bijective_name(n);
        let b = bijective_name(m);
        let dn = ((n - 1) % 26) as nat;
        let dm = ((m - 1) % 26) as nat;
        if (n - 1) / 26 == (m - 1) / 26 {
            let i = pn.len() as int;
            assert(a.subrange(0, i) =~= b.subrange(0, i));
            assert(a[i] == letter(dn) && b[i] == letter(dm));
        } else {
            lemma_bijective_name_increasing(((n - 1) / 26) as nat, ((m - 1) / 26) as nat);
            if pn.len() == pm.len() {
                let i = choose|i: int|
                    0 <= i < pn.len() && #[trigger] pn.subrange(0, i) == pm.subrange(0, i) && (
                    pn[i] as u32) < (pm[i] as u32);
                assert(a.subrange(0, i) =~= pn.subrange(0, i));
                assert(b.subrange(0, i) =~= pm.subrange(0, i));
                assert(a[i] == pn[i] && b[i] == pm[i]);
            }
        }
    }
}

/// Column names strictly increase with the column index: a later column has a
/// longer name, or a name of the same length that comes later alphabetically.
pub proof fn lemma_names_increasing(a: nat, b: nat)
    requires
        a < b,
    ensures
        shortlex_less(column_name(a), column_name(b)),
{
    lemma_bijective_name_increasing(a + 1, b + 1);
}

} // verus!
