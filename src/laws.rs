//! Laws that relate the decoder, the encoder and the classifier.
use vstd::prelude::*;

use crate::standard::{
    decodes_to, known_class, lemma_base_keeps_class, lemma_class_code_determines_base,
    well_formed, Category, SqlState,
};

verus! {

/// Distinct classes have distinct class codes.
pub proof fn lemma_class_codes_distinct(a: SqlState, b: SqlState)
    requires
        a.base() != b.base(),
    ensures
        a.spec_class_code() != b.spec_class_code(),
{
    if a.spec_class_code() == b.spec_class_code() {
        lemma_class_code_determines_base(a, b);
    }
}

/// Within one class, distinct values (two subclasses, or a subclass and
/// none) have distinct subclass codes.
pub proof fn lemma_subclass_codes_distinct(a: SqlState, b: SqlState)
    requires
        a.base() == b.base(),
        a != b,
    ensures
        a.spec_subclass_code() != b.spec_subclass_code(),
{
    if a.spec_subclass_code() == b.spec_subclass_code() {
        SqlState::lemma_subclass_code_determines(a, b);
    }
}

/// Distinct values have distinct codes.
pub proof fn lemma_codes_distinct(a: SqlState, b: SqlState)
    requires
        a != b,
    ensures
        a.spec_code() != b.spec_code(),
{
    if a.spec_code() == b.spec_code() {
        assert(a.spec_code()[0] == b.spec_code()[0] && a.spec_code()[1] == b.spec_code()[1]);
        lemma_class_code_determines_base(a, b);
        assert(a.spec_code()[2] == b.spec_code()[2] && a.spec_code()[3] == b.spec_code()[3]
            && a.spec_code()[4] == b.spec_code()[4]);
        lemma_subclass_codes_distinct(a, b);
    }
}

/// The code of every value is well formed, names a known class, and decodes
/// back to that value and to no other.
pub proof fn lemma_round_trip(v: SqlState, w: SqlState)
    ensures
        well_formed(v.spec_code()),
        known_class(v.spec_code()),
        decodes_to(v.spec_code(), w) ==> w == v,
{
    let s = v.spec_code();
    assert(v.has_code(s));
    assert(v.spec_class_code() == (s[0], s[1]));
    assert(well_formed(s)) by {
        assert forall|i: int| 0 <= i < 5 implies crate::code::is_code_char(#[trigger] s[i]) by {
        }
    }
    if decodes_to(s, w) && w != v {
        assert(w.has_code(s));
        lemma_codes_distinct(v, w);
        assert(w.spec_code() =~= s);
    }
}

/// The category of a decoded value follows the class code alone: `00` is
/// success, `01` warning, `02` no data, and every other class an exception;
/// the subclass never changes it.
pub proof fn lemma_category_partition(s: Seq<char>, v: SqlState)
    requires
        decodes_to(s, v),
    ensures
        v.spec_category() == v.base().spec_category(),
        (s[0], s[1]) == ('0', '0') ==> v.spec_category() == Category::Success,
        (s[0], s[1]) == ('0', '1') ==> v.spec_category() == Category::Warning,
        (s[0], s[1]) == ('0', '2') ==> v.spec_category() == Category::NoData,
        (s[0], s[1]) != ('0', '0') && (s[0], s[1]) != ('0', '1') && (s[0], s[1]) != ('0', '2')
            ==> v.spec_category() == Category::Exception,
{
    lemma_base_keeps_class(v);
}

} // verus!
