//! Validation and display formatting of the national tax identifier (CPF):
//! strip everything but digits, require exactly eleven of them, reject a
//! repeated single digit, and verify the two mod-11 check digits computed
//! over weighted digit sums.

use vstd::prelude::*;

use crate::error::{validation_error, AppError};
use crate::text_util::{
    chars_to_string, digit_value, digits_of, is_ascii_digit_char, lemma_spec_digits_all_digits,
    spec_digits, str_chars,
};

verus! {

/// Sum over `i` in `0..k` of `digit(d[i]) * (w - i)`: the weighted digit sum
/// from which a check digit is derived.
pub open spec fn weighted_sum(d: Seq<char>, k: int, w: int) -> int
    decreases k,
{
    if k <= 0 {
        0
    } else {
        weighted_sum(d, k - 1, w) + digit_value(d[k - 1]) * (w - (k - 1))
    }
}

/// The check digit owed to a weighted sum: `11 - sum % 11`, mapped to zero
/// when the remainder is below two.
pub open spec fn check_digit_for(sum: int) -> int {
    if sum % 11 < 2 {
        0
    } else {
        11 - sum % 11
    }
}

/// Both check digits of an eleven-digit sequence hold: digit nine matches
/// the sum over the first nine digits with weights ten down to two, and
/// digit ten matches the sum over the first ten digits with weights eleven
/// down to two.
pub open spec fn cpf_check_digits_ok(d: Seq<char>) -> bool
    recommends
        d.len() == 11,
{
    digit_value(d[9]) == check_digit_for(weighted_sum(d, 9, 10)) && digit_value(d[10])
        == check_digit_for(weighted_sum(d, 10, 11))
}

/// Every character equals the first one.
pub open spec fn all_chars_equal(d: Seq<char>) -> bool {
    forall|i: int| 0 <= i < d.len() ==> #[trigger] d[i] == d[0]
}

/// A raw string holds a valid identifier when its digits number exactly
/// eleven, are not one repeated digit, and carry correct check digits.
pub open spec fn cpf_valid(raw: Seq<char>) -> bool {
    let d = spec_digits(raw);
    d.len() == 11 && !all_chars_equal(d) && cpf_check_digits_ok(d)
}

/// The display form of an eleven-digit identifier: 3-3-3-2 grouping with
/// dots and a dash.
pub open spec fn spec_format_cpf(d: Seq<char>) -> Seq<char>
    recommends
        d.len() == 11,
{
    d.subrange(0, 3) + seq!['.'] + d.subrange(3, 6) + seq!['.'] + d.subrange(6, 9) + seq!['-']
        + d.subrange(9, 11)
}

/// Keeps only the digits of the given identifier.
pub fn clean_cpf(cpf: &str) -> (r: String)
    ensures
        r@ == spec_digits(cpf@),
{
    let cs = str_chars(cpf);
    let ds = digits_of(&cs);
    chars_to_string(&ds)
}

/// Verifies the two mod-11 check digits of an identifier that is already
/// known to be exactly eleven digits.
pub fn validate_check_digits(cpf: &str) -> (r: bool)
    requires
        cpf@.len() == 11,
        forall|i: int| 0 <= i < 11 ==> is_ascii_digit_char(#[trigger] cpf@[i]),
    ensures
        r == cpf_check_digits_ok(cpf@),
{
    let cs = str_chars(cpf);
    let mut sum1: u32 = 0;
    let mut i: usize = 0;
    while i < 9
        invariant
            i <= 9,
            cs@ == cpf@,
            cs@.len() == 11,
            forall|j: int| 0 <= j < 11 ==> is_ascii_digit_char(#[trigger] cs@[j]),
            sum1 == weighted_sum(cs@, i as int, 10),
            sum1 <= 90 * i,
        decreases 9 - i,
    {
        let c = cs[i];
        let dv: u32 = (c as u32) - 48;
        assert(dv == digit_value(cs@[i as int]));
        assert(dv <= 9);
        let w: u32 = 10 - (i as u32);
        assert(dv * w <= 90) by (nonlinear_arith)
            requires
                dv <= 9,
                w <= 10,
        ;
        sum1 = sum1 + dv * w;
        i += 1;
    }
    let r1: u32 = sum1 % 11;
    let first_check: u32 = if r1 < 2 {
        0
    } else {
        11 - r1
    };
    assert(first_check == check_digit_for(weighted_sum(cpf@, 9, 10)));
    let d9 = cs[9];
    let dv9: u32 = (d9 as u32) - 48;
    if dv9 != first_check {
        return false;
    }
    let mut sum2: u32 = 0;
    let mut i: usize = 0;
    while i < 10
        invariant
            i <= 10,
            cs@ == cpf@,
            cs@.len() == 11,
            forall|j: int| 0 <= j < 11 ==> is_ascii_digit_char(#[trigger] cs@[j]),
            sum2 == weighted_sum(cs@, i as int, 11),
            sum2 <= 99 * i,
        decreases 10 - i,
    {
        let c = cs[i];
        let dv: u32 = (c as u32) - 48;
        assert(dv == digit_value(cs@[i as int]));
        assert(dv <= 9);
        let w: u32 = 11 - (i as u32);
        assert(dv * w <= 99) by (nonlinear_arith)
            requires
                dv <= 9,
                w <= 11,
        ;
        sum2 = sum2 + dv * w;
        i += 1;
    }
    let r2: u32 = sum2 % 11;
    let second_check: u32 = if r2 < 2 {
        0
    } else {
        11 - r2
    };
    assert(second_check == check_digit_for(weighted_sum(cpf@, 10, 11)));
    let d10 = cs[10];
    let dv10: u32 = (d10 as u32) - 48;
    dv10 == second_check
}

/// The message owed to an invalid identifier, naming the first failed rule:
/// digit count, then the repeated-digit ban, then the check digits.
pub open spec fn spec_cpf_error_msg(raw: Seq<char>) -> Seq<char> {
    let d = spec_digits(raw);
    if d.len() != 11 {
        "CPF deve conter exatamente 11 dígitos"@
    } else if all_chars_equal(d) {
        "CPF inválido: todos os dígitos são iguais"@
    } else {
        "CPF inválido: dígitos verificadores incorretos"@
    }
}

/// Validates a raw identifier and returns its normalized (digits-only) form.
/// Succeeds exactly on valid identifiers; each rejection carries the message
/// naming the failed rule.
pub fn validate_cpf(cpf: &str) -> (r: Result<String, AppError>)
    ensures
        r is Ok <==> cpf_valid(cpf@),
        r matches Ok(v) ==> v@ == spec_digits(cpf@),
        r matches Err(e) ==> (e matches AppError::ValidationError(m) && m@ == spec_cpf_error_msg(
            cpf@,
        )),
{
    let cleaned = clean_cpf(cpf);
    let cs = str_chars(cleaned.as_str());
    if cs.len() != 11 {
        return Err(validation_error("CPF deve conter exatamente 11 dígitos"));
    }
    proof {
        lemma_spec_digits_all_digits(cpf@);
    }
    let mut all_same = true;
    let first = cs[0];
    let mut i: usize = 1;
    while i < 11
        invariant
            1 <= i <= 11,
            cs@ == spec_digits(cpf@),
            cs@.len() == 11,
            first == cs@[0],
            all_same == forall|j: int| 0 <= j < i ==> #[trigger] cs@[j] == cs@[0],
        decreases 11 - i,
    {
        if cs[i] != first {
            all_same = false;
        }
        i += 1;
    }
    if all_same {
        return Err(validation_error("CPF inválido: todos os dígitos são iguais"));
    }
    if !validate_check_digits(cleaned.as_str()) {
        return Err(validation_error("CPF inválido: dígitos verificadores incorretos"));
    }
    Ok(cleaned)
}

/// Display formatting of an identifier: digits are grouped 3-3-3-2 with
/// dots and a dash. A raw value that does not clean to eleven digits is
/// returned unchanged; formatting never re-validates.
pub fn format_cpf(cpf: &str) -> (r: String)
    ensures
        spec_digits(cpf@).len() == 11 ==> r@ == spec_format_cpf(spec_digits(cpf@)),
        spec_digits(cpf@).len() != 11 ==> r@ == cpf@,
{
    let cs = str_chars(cpf);
    let ds = digits_of(&cs);
    if ds.len() != 11 {
        let copy = str_chars(cpf);
        return chars_to_string(&copy);
    }
    let mut out: Vec<char> = Vec::new();
    let mut i: usize = 0;
    while i < 11
        invariant
            i <= 11,
            ds@ == spec_digits(cpf@),
            ds@.len() == 11,
            out@ == spec_format_prefix(ds@, i as int),
        decreases 11 - i,
    {
        if i == 3 || i == 6 {
            out.push('.');
        }
        if i == 9 {
            out.push('-');
        }
        out.push(ds[i]);
        proof {
            assert(out@ =~= spec_format_prefix(ds@, i + 1));
        }
        i += 1;
    }
    proof {
        reveal_with_fuel(spec_format_prefix, 12);
        assert(spec_format_prefix(ds@, 11) =~= spec_format_cpf(ds@));
    }
    chars_to_string(&out)
}

/// The first `k` digits of the display form, separators included: the loop
/// invariant of `format_cpf`.
pub open spec fn spec_format_prefix(d: Seq<char>, k: int) -> Seq<char>
    recommends
        d.len() == 11,
        0 <= k <= 11,
    decreases k,
{
    if k <= 0 {
        Seq::<char>::empty()
    } else {
        spec_format_prefix(d, k - 1)
            + (if k - 1 == 3 || k - 1 == 6 {
                seq!['.']
            } else if k - 1 == 9 {
                seq!['-']
            } else {
                Seq::<char>::empty()
            })
            + seq![d[k - 1]]
    }
}

/// A digits-only sequence is left unchanged by digit filtering.
pub proof fn lemma_spec_digits_identity(s: Seq<char>)
    requires
        forall|i: int| 0 <= i < s.len() ==> is_ascii_digit_char(#[trigger] s[i]),
    ensures
        spec_digits(s) == s,
    decreases s.len(),
{
    if s.len() == 0 {
        assert(spec_digits(s) =~= s);
    } else {
        lemma_spec_digits_identity(s.drop_last());
        assert(spec_digits(s) =~= s);
    }
}

/// Law: cleaning the display form of an eleven-digit identifier returns
/// the identifier itself — formatting is purely cosmetic, and validating a
/// formatted identifier sees exactly the same digits as the bare one.
pub proof fn lemma_format_round_trip(d: Seq<char>)
    requires
        d.len() == 11,
        forall|i: int| 0 <= i < d.len() ==> is_ascii_digit_char(#[trigger] d[i]),
    ensures
        spec_digits(spec_format_cpf(d)) == d,
{
    let dot = seq!['.'];
    let dash = seq!['-'];
    let a = d.subrange(0, 3);
    let b = d.subrange(3, 6);
    let c = d.subrange(6, 9);
    let e = d.subrange(9, 11);
    reveal_with_fuel(spec_digits, 3);
    assert(dot.drop_last() =~= Seq::<char>::empty());
    assert(dash.drop_last() =~= Seq::<char>::empty());
    assert(spec_digits(dot) =~= Seq::<char>::empty());
    assert(spec_digits(dash) =~= Seq::<char>::empty());
    lemma_spec_digits_identity(a);
    lemma_spec_digits_identity(b);
    lemma_spec_digits_identity(c);
    lemma_spec_digits_identity(e);
    crate::text_util::lemma_spec_digits_concat(a, dot);
    crate::text_util::lemma_spec_digits_concat(a + dot, b);
    crate::text_util::lemma_spec_digits_concat(a + dot + b, dot);
    crate::text_util::lemma_spec_digits_concat(a + dot + b + dot, c);
    crate::text_util::lemma_spec_digits_concat(a + dot + b + dot + c, dash);
    crate::text_util::lemma_spec_digits_concat(a + dot + b + dot + c + dash, e);
    assert(spec_digits(spec_format_cpf(d)) =~= d);
}

/// Law: an eleven-character string of one repeated digit is never a valid
/// identifier, so validation is owed to fail on it.
pub proof fn lemma_repeated_digit_cpf_invalid(s: Seq<char>)
    requires
        s.len() == 11,
        forall|i: int| 0 <= i < s.len() ==> is_ascii_digit_char(#[trigger] s[i]),
        all_chars_equal(s),
    ensures
        !cpf_valid(s),
{
    lemma_spec_digits_identity(s);
}

} // verus!
