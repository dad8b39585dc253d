//! Derived identifiers and the naming scheme of the synthesized companions.
//!
//! The names are a fixed contract: the parameters type is `<Subject>Params`,
//! the builder type is `<Subject>Builder`, the builder's wrapped-instance
//! field is `inner`, the constructor's argument is `params`, and the mutator
//! for a field is `with_<identifier>` for a named field or `with_<index>`
//! (index in decimal, over the original field list) for an unnamed field.

use vstd::prelude::*;
use vstd::string::StringExecFns;

verus! {

/// The decimal digit character for `d` (0 through 9).
pub open spec fn spec_dec_digit(d: nat) -> char {
    if d == 0 {
        '0'
    } else if d == 1 {
        '1'
    } else if d == 2 {
        '2'
    } else if d == 3 {
        '3'
    } else if d == 4 {
        '4'
    } else if d == 5 {
        '5'
    } else if d == 6 {
        '6'
    } else if d == 7 {
        '7'
    } else if d == 8 {
        '8'
    } else {
        '9'
    }
}

/// The decimal representation of `n`, most significant digit first, with no
/// leading zeros (a single `0` for zero).
pub open spec fn spec_dec_string(n: nat) -> Seq<char>
    decreases n,
{
    if n < 10 {
        seq![spec_dec_digit(n)]
    } else {
        spec_dec_string(n / 10).push(spec_dec_digit(n % 10))
    }
}

/// The string form of a single decimal digit.
fn dec_digit_str(d: usize) -> (r: &'static str)
    requires
        d < 10,
    ensures
        r@ == seq![spec_dec_digit(d as nat)],
{
    if d == 0 {
        proof {
            reveal_strlit("0");
            assert("0"@ =~= seq![spec_dec_digit(0)]);
        }
        "0"
    } else if d == 1 {
        proof {
            reveal_strlit("1");
            assert("1"@ =~= seq![spec_dec_digit(1)]);
        }
        "1"
    } else if d == 2 {
        proof {
            reveal_strlit("2");
            assert("2"@ =~= seq![spec_dec_digit(2)]);
        }
        "2"
    } else if d == 3 {
        proof {
            reveal_strlit("3");
            assert("3"@ =~= seq![spec_dec_digit(3)]);
        }
        "3"
    } else if d == 4 {
        proof {
            reveal_strlit("4");
            assert("4"@ =~= seq![spec_dec_digit(4)]);
        }
        "4"
    } else if d == 5 {
        proof {
            reveal_strlit("5");
            assert("5"@ =~= seq![spec_dec_digit(5)]);
        }
        "5"
    } else if d == 6 {
        proof {
            reveal_strlit("6");
            assert("6"@ =~= seq![spec_dec_digit(6)]);
        }
        "6"
    } else if d == 7 {
        proof {
            reveal_strlit("7");
            assert("7"@ =~= seq![spec_dec_digit(7)]);
        }
        "7"
    } else if d == 8 {
        proof {
            reveal_strlit("8");
            assert("8"@ =~= seq![spec_dec_digit(8)]);
        }
        "8"
    } else {
        proof {
            reveal_strlit("9");
            assert("9"@ =~= seq![spec_dec_digit(9)]);
        }
        "9"
    }
}

/// Format an index in decimal.
pub fn dec_string(n: usize) -> (r: String)
    ensures
        r@ == spec_dec_string(n as nat),
    decreases n,
{
    if n < 10 {
        String::from_str(dec_digit_str(n))
    } else {
        proof {
            assert(n / 10 < n) by (nonlinear_arith)
                requires
                    n >= 10,
            ;
        }
        let mut s = dec_string(n / 10);
        s.append(dec_digit_str(n % 10));
        s
    }
}

/// The name of the parameters type derived from the subject's identifier.
pub fn params_ident_of(base: &String) -> (r: String)
    ensures
        r@ == base@ + "Params"@,
{
    base.clone().concat("Params")
}

/// The name of the builder type derived from the subject's identifier.
pub fn builder_ident_of(base: &String) -> (r: String)
    ensures
        r@ == base@ + "Builder"@,
{
    base.clone().concat("Builder")
}

/// The mutator name for a named field.
pub fn with_ident_name(field_ident: &String) -> (r: String)
    ensures
        r@ == "with_"@ + field_ident@,
{
    String::from_str("with_").concat(field_ident.as_str())
}

/// The mutator name for an unnamed field, by its index over the original
/// field list.
pub fn with_index_name(index: usize) -> (r: String)
    ensures
        r@ == "with_"@ + spec_dec_string(index as nat),
{
    let digits = dec_string(index);
    String::from_str("with_").concat(digits.as_str())
}

/// The identifiers of the subject and its two companion types.
pub struct ItemIdents {
    pub subject_ident: String,
    pub params_ident: String,
    pub builder_ident: String,
}

impl ItemIdents {
    /// Derive the companion identifiers from the subject's identifier.
    pub fn new(base: &String) -> (r: ItemIdents)
        ensures
            r.subject_ident@ == base@,
            r.params_ident@ == base@ + "Params"@,
            r.builder_ident@ == base@ + "Builder"@,
    {
        ItemIdents {
            subject_ident: base.clone(),
            params_ident: params_ident_of(base),
            builder_ident: builder_ident_of(base),
        }
    }
}

/// The fixed internal identifiers every synthesizer agrees on: the builder's
/// wrapped-instance field and the constructor's argument.
pub struct InternalIdents {
    pub builder_subject_field: String,
    pub params_argument: String,
}

impl Default for InternalIdents {
    fn default() -> (r: Self)
        ensures
            r.builder_subject_field@ == "inner"@,
            r.params_argument@ == "params"@,
    {
        InternalIdents {
            builder_subject_field: String::from_str("inner"),
            params_argument: String::from_str("params"),
        }
    }
}

} // verus!
